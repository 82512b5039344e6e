use cce_authenticator::helper::{answer_line, helper_verdict, parse_helper_line, HelperSlot};
use cce_authenticator::message::{AppMessage, AuthResult};

#[test]
fn marked_lines_are_read() {
    assert_eq!(
        parse_helper_line("PAM_PROMPT_ECHO_OFF Password: "),
        Some(AppMessage::PromptReceived("Password: ".to_string(), false))
    );
    assert_eq!(
        parse_helper_line("PAM_PROMPT_ECHO_ON Login:"),
        Some(AppMessage::PromptReceived("Login:".to_string(), true))
    );
    assert_eq!(
        parse_helper_line("PAM_ERROR_MSG no match"),
        Some(AppMessage::StatusReceived("no match".to_string(), true))
    );
    assert_eq!(
        parse_helper_line("PAM_TEXT_INFO Place your finger"),
        Some(AppMessage::StatusReceived("Place your finger".to_string(), false))
    );
    assert_eq!(
        parse_helper_line("PAM_TEXT_INFO PAM_ERROR_MSG x"),
        Some(AppMessage::StatusReceived("PAM_ERROR_MSG x".to_string(), false))
    );
    assert_eq!(
        parse_helper_line("PAM_TEXT_INFO "),
        Some(AppMessage::StatusReceived(String::new(), false))
    );
}

#[test]
fn other_lines_say_nothing() {
    for line in ["", "SUCCESS", "FAILURE", "PAM_TEXT_INFO", " PAM_TEXT_INFO x", "pam_text_info x"] {
        assert_eq!(parse_helper_line(line), None, "{line:?}");
    }
}

#[test]
fn exit_status_is_the_verdict() {
    assert_eq!(
        helper_verdict(false, true),
        Some(AppMessage::AuthDone(AuthResult::Success))
    );
    assert_eq!(
        helper_verdict(false, false),
        Some(AppMessage::AuthDone(AuthResult::Failure("Authentication failed".to_string())))
    );
    assert_eq!(helper_verdict(true, true), None);
    assert_eq!(helper_verdict(true, false), None);
}

#[test]
fn answers_are_lines() {
    assert_eq!(answer_line("secret"), "secret\n");
    assert_eq!(answer_line(""), "\n");
}

#[test]
fn a_cancelled_helper_is_taken_once() {
    let mut slot = HelperSlot::holding(42);
    // The first cancellation gets the process to kill, the second gets nothing.
    assert_eq!(slot.take(), Some(42));
    assert_eq!(slot.take(), None);
    // The end of the output then finds the attempt abandoned.
    let abandoned = slot.take().is_none();
    assert_eq!(helper_verdict(abandoned, false), None);
}

#[test]
fn an_ended_helper_is_not_there_to_be_killed() {
    let mut slot = HelperSlot::holding(42);
    let abandoned = slot.take().is_none();
    assert_eq!(
        helper_verdict(abandoned, true),
        Some(AppMessage::AuthDone(AuthResult::Success))
    );
    assert_eq!(slot.take(), None);
}

#[test]
fn a_run_ends_with_its_verdict() {
    let lines = ["PAM_TEXT_INFO finger", "noise", "PAM_PROMPT_ECHO_OFF Password: "];
    let mut told: Vec<AppMessage> = lines.iter().filter_map(|l| parse_helper_line(l)).collect();
    told.extend(helper_verdict(false, true));
    assert_eq!(
        told,
        vec![
            AppMessage::StatusReceived("finger".to_string(), false),
            AppMessage::PromptReceived("Password: ".to_string(), false),
            AppMessage::AuthDone(AuthResult::Success),
        ]
    );
}
