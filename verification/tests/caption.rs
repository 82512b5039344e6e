use cce_authenticator::caption;

/// The advance of a character at the caption's size, in logical pixels.
const PX_PER_CHAR: f32 = 4.15;

fn fit_column(text: &str, width: f32) -> String {
    caption::fit_column(text, (width / PX_PER_CHAR) as usize)
}

#[test]
fn column_captions_never_cut_mid_word() {
    // Roughly the interior of a column in the default 640px-wide window.
    const W: f32 = 245.0;

    // The message that exposed this fits whole at the width that the column has now.
    let pam = "Place your right middle finger on the fingerprint reader";
    assert_eq!(fit_column(pam, W), pam, "the column is wide enough for PAM's wording now");
    assert!(fit_column(pam, 220.0).ends_with('…'), "…but not at the old width");

    // The genuinely unbounded captions are the D-Bus errors.
    let err = "No reader: org.freedesktop.DBus.Error.ServiceUnknown: \
               The name net.reactivated.Fprint was not provided by any .service files";
    let fitted = fit_column(err, W);
    assert!(fitted.ends_with('…'), "long captions must show they were cut");
    let kept = fitted.trim_end_matches('…');
    assert!(err.starts_with(kept), "the kept head must be a real prefix: {fitted}");
    // A word boundary means the character the cut dropped was a space.
    assert_eq!(
        err[kept.len()..].chars().next(),
        Some(' '),
        "cut fell mid-word: {fitted}"
    );

    // Short enough to stand as-is, ellipsis included or not.
    assert_eq!(fit_column("Waiting for finger…", W), "Waiting for finger…");
    assert_eq!(fit_column("", W), "");

    // No spaces to break on, and multi-byte characters: must not panic or slice
    // through a char boundary.
    let unbroken = "x".repeat(200);
    assert!(fit_column(&unbroken, W).ends_with('…'));
    assert!(fit_column(&"é".repeat(200), W).ends_with('…'));

    // A window dragged to its minimum still has to produce something, not panic on an
    // underflowing budget.
    assert!(!fit_column(pam, 1.0).is_empty());
    assert!(!fit_column(pam, 0.0).is_empty());
}

#[test]
fn captions_have_exact_cuts() {
    assert_eq!(caption::fit_column("one two three", 13), "one two three");
    assert_eq!(caption::fit_column("one two three", 12), "one two…");
    assert_eq!(caption::fit_column("one two three", 8), "one…");
    assert_eq!(caption::fit_column("one two three", 0), "one…");
    assert_eq!(caption::fit_column("one   two three", 9), "one…");
    assert_eq!(caption::fit_column(" unbroken-text", 9), "…");
    assert_eq!(caption::fit_column("unbroken-text", 9), "unbroken…");
    assert_eq!(caption::fit_column("ééééééééééé", 9), "éééééééé…");
    assert_eq!(caption::fit_column("tabbed\u{9}\u{9}\u{9}text", 9), "tabbed…");
}

#[test]
fn fitted_captions_fit_and_stay() {
    let text = "Retry scan: a rather long explanation of what went wrong";
    for room in 0..70 {
        let shown = caption::fit_column(text, room);
        assert!(shown.chars().count() <= room.max(8));
        assert_eq!(caption::fit_column(&shown, room), shown);
    }
}

#[test]
fn a_wider_column_shows_no_less() {
    let text = "No reader: the  service was not provided by any unit file";
    let mut before = String::new();
    for room in 0..70 {
        let shown = caption::fit_column(text, room);
        let part = shown.trim_end_matches('…').to_string();
        assert!(part.starts_with(&before), "{before:?} then {part:?}");
        before = part;
    }
    assert_eq!(before, text);
}
