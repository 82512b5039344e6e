use cce_authenticator::text::{characters, contains, same_text, slice, strip_prefix, trim};

fn is_white_space(c: char) -> bool {
    matches!(
        c as u32,
        0x9..=0xd
            | 0x20
            | 0x85
            | 0xa0
            | 0x1680
            | 0x2000..=0x200a
            | 0x2028
            | 0x2029
            | 0x202f
            | 0x205f
            | 0x3000
    )
}

#[test]
fn trim_drops_exactly_the_white_space() {
    for n in 0..=0x10ffffu32 {
        if let Some(c) = char::from_u32(n) {
            if c == 'x' {
                continue;
            }
            let s = format!("{c}x{c}");
            let expected = if is_white_space(c) { "x".to_string() } else { s.clone() };
            assert_eq!(trim(&s), expected, "U+{n:04X}");
        }
    }
    assert_eq!(trim(" \n a b \t "), "a b");
    assert_eq!(trim("   "), "");
    assert_eq!(trim(""), "");
}

#[test]
fn search_finds_what_is_there() {
    assert!(contains("No reader: gone", "No reader"));
    assert!(contains("xxNo reader", "No reader"));
    assert!(contains("aab", "ab"));
    assert!(contains("é…é", "…"));
    assert!(contains("anything", ""));
    assert!(contains("", ""));
    assert!(!contains("", "a"));
    assert!(!contains("No reade", "No reader"));
    assert!(!contains("no reader", "No reader"));
}

#[test]
fn prefixes_are_stripped() {
    assert_eq!(strip_prefix("ab…c", "ab…"), Some("c".to_string()));
    assert_eq!(strip_prefix("abc", "abc"), Some(String::new()));
    assert_eq!(strip_prefix("abc", ""), Some("abc".to_string()));
    assert_eq!(strip_prefix("abc", "abd"), None);
    assert_eq!(strip_prefix("ab", "abc"), None);
}

#[test]
fn texts_are_taken_by_character() {
    assert_eq!(characters("aé…"), vec!['a', 'é', '…']);
    assert_eq!(slice("aé…b", 1, 3), "é…");
    assert_eq!(slice("aé…b", 4, 4), "");
    assert!(same_text("é", "é"));
    assert!(!same_text("é", "e"));
    assert!(!same_text("é", "éé"));
}
