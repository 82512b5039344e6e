use cce_authenticator::input::{
    first_target, handle_click, handle_key_input, leaves_password, ClickStep, ClickTarget,
    Control, Focus, KeyKind, KeyOutcome,
};
use cce_authenticator::input::ClickTarget::{Cancel, Fingerprint, Password, Verify};
use cce_authenticator::message::AppMessage;

const NOWHERE: Focus = Focus { password: false, verify: false, cancel: false };

fn on(control: Control) -> Focus {
    match control {
        Control::Password => Focus { password: true, ..NOWHERE },
        Control::Verify => Focus { verify: true, ..NOWHERE },
        Control::Cancel => Focus { cancel: true, ..NOWHERE },
    }
}

#[test]
fn tab_goes_round() {
    let mut control = Control::Password;
    for expected in [Control::Verify, Control::Cancel, Control::Password] {
        assert_eq!(
            handle_key_input(KeyKind::Tab, true, false, on(control)),
            KeyOutcome::MoveFocus { from: control, to: expected }
        );
        control = expected;
    }
    assert_eq!(
        handle_key_input(KeyKind::Tab, true, false, NOWHERE),
        KeyOutcome::MoveFocus { from: Control::Cancel, to: Control::Password }
    );
}

#[test]
fn escape_cancels_and_enter_verifies_from_the_box() {
    let cancel = KeyOutcome::Emit(AppMessage::Cancel);
    assert_eq!(handle_key_input(KeyKind::Escape, true, false, NOWHERE), cancel);
    assert_eq!(handle_key_input(KeyKind::Escape, true, false, on(Control::Password)), cancel);
    assert_eq!(
        handle_key_input(KeyKind::Enter, true, false, on(Control::Password)),
        KeyOutcome::Emit(AppMessage::PasswordVerify)
    );
    assert_eq!(
        handle_key_input(KeyKind::Enter, true, false, on(Control::Verify)),
        KeyOutcome::Route
    );
}

#[test]
fn releases_repeats_and_other_keys_go_to_the_box() {
    for key in [KeyKind::Tab, KeyKind::Escape, KeyKind::Enter, KeyKind::Other] {
        assert_eq!(
            handle_key_input(key, false, false, on(Control::Password)),
            KeyOutcome::Route
        );
        assert_eq!(
            handle_key_input(key, true, true, on(Control::Password)),
            KeyOutcome::Route
        );
    }
    assert_eq!(handle_key_input(KeyKind::Other, true, false, NOWHERE), KeyOutcome::Route);
}

/// Offers a click to the controls in turn; the message that comes of it, and to whom it was
/// offered.
fn offer(takers: &[ClickTarget]) -> (Option<AppMessage>, Vec<ClickTarget>) {
    let mut offered = Vec::new();
    let mut target = first_target();
    loop {
        offered.push(target);
        match handle_click(target, takers.contains(&target)) {
            ClickStep::Emit(msg) => return (Some(msg), offered),
            ClickStep::Offer(next) => target = next,
            ClickStep::Done => return (None, offered),
        }
    }
}

#[test]
fn the_first_button_that_takes_a_click_gets_it() {
    assert_eq!(offer(&[]), (None, vec![Verify, Cancel, Fingerprint, Password]));
    assert_eq!(offer(&[Password]), (None, vec![Verify, Cancel, Fingerprint, Password]));
    assert_eq!(offer(&[Verify, Cancel]), (Some(AppMessage::PasswordVerify), vec![Verify]));
    assert_eq!(offer(&[Cancel]), (Some(AppMessage::Cancel), vec![Verify, Cancel]));
    assert_eq!(
        offer(&[Fingerprint]),
        (Some(AppMessage::FingerprintScanStart), vec![Verify, Cancel, Fingerprint])
    );
}

#[test]
fn a_press_elsewhere_leaves_the_box() {
    assert!(leaves_password(true, false));
    assert!(!leaves_password(true, true));
    assert!(!leaves_password(false, false));
}
