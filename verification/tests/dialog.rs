use cce_authenticator::cookies::CookieState;
use cce_authenticator::dialog::{AuthenticatorApp, Effect, RETRIES};
use cce_authenticator::helper::HelperSlot;
use cce_authenticator::message::{AppMessage, AuthResult};
use cce_authenticator::request::GuiRequest;

fn request() -> GuiRequest<()> {
    GuiRequest {
        username: "ana".to_string(),
        message: "Authentication is needed to run `true'".to_string(),
        cookie: "cookie-1".to_string(),
        tx_result: (),
    }
}

fn spawn() -> Effect {
    Effect::SpawnHelper { username: "ana".to_string(), cookie: "cookie-1".to_string() }
}

fn polkit() -> AuthenticatorApp {
    let (mut app, effect) = AuthenticatorApp::opened(Some(&request()), true, 0);
    assert_eq!(effect, spawn());
    app.helper_spawned(Ok(()));
    app
}

fn standalone(env_requested: bool, uid: u32) -> AuthenticatorApp {
    let (app, effect) = AuthenticatorApp::opened(None::<&GuiRequest<()>>, env_requested, uid);
    assert_eq!(effect, Effect::Nothing);
    app
}

/// Sends a message; the effect, and whether the window closes.
fn send(app: &mut AuthenticatorApp, msg: AppMessage) -> (Effect, bool) {
    let mut needs_rebuild = false;
    let mut exit = false;
    let effect = app.update(msg, &mut needs_rebuild, &mut exit);
    assert!(needs_rebuild);
    (effect, exit)
}

fn done(result: AuthResult) -> AppMessage {
    AppMessage::AuthDone(result)
}

fn failure(text: &str) -> AppMessage {
    done(AuthResult::Failure(text.to_string()))
}

fn news(text: &str) -> AppMessage {
    done(AuthResult::FingerprintStatus(text.to_string()))
}

#[test]
fn a_window_opens_for_a_request() {
    let (app, effect, _) = AuthenticatorApp::new(Some(&request()), true);
    assert_eq!(effect, spawn());
    assert!(app.polkit_mode);
    assert!(!app.simulate_mode);
    assert!(!app.helper_open);
    assert!(!app.fingerprint_interactive);
    assert_eq!(app.status_msg, "Authentication is needed to run `true'");
    assert_eq!(app.fingerprint_msg, "Handled by PAM — follow the prompt");
    assert_eq!(app.fingerprint_label, "Reader");
    assert_eq!(app.password_label, "PASSWORD");
    assert_eq!(app.username, "ana");
    assert_eq!(app.cookie, "cookie-1");
    assert_eq!(app.retries_left, RETRIES);
}

#[test]
fn a_standalone_window_opens() {
    let app = standalone(false, 1000);
    assert!(!app.polkit_mode);
    assert!(!app.simulate_mode);
    assert!(app.fingerprint_interactive);
    assert_eq!(app.status_msg, "Authenticate using password or fingerprint");
    assert_eq!(app.fingerprint_msg, "Fingerprint scanner ready");
    assert_eq!(app.fingerprint_label, "Scan");

    // As root the window simulates without being asked to.
    let (app, _, own) = AuthenticatorApp::new(None::<&GuiRequest<()>>, false);
    assert_eq!(own.uid(), users::get_current_uid());
    assert_eq!(app.simulate_mode, users::get_current_uid() == 0);
    let (app, _, _) = AuthenticatorApp::new(None::<&GuiRequest<()>>, true);
    assert!(app.simulate_mode);
}

#[test]
fn a_helper_that_does_not_start_is_shown() {
    let (mut app, _) = AuthenticatorApp::opened(Some(&request()), false, 1000);
    app.helper_spawned(Err("not found".to_string()));
    assert_eq!(app.status_msg, "Failed to spawn helper: not found");
    assert!(!app.helper_open);
    assert!(!app.status_is_error);
    app.password_text = "secret".to_string();
    assert_eq!(send(&mut app, AppMessage::PasswordVerify), (Effect::Nothing, false));
    assert_eq!(app.status_msg, "No authentication helper — press Escape to cancel");
    assert!(app.status_is_error);
    assert_eq!(app.password_text, "secret");
}

#[test]
fn an_early_cancellation_is_claimed() {
    let app = polkit();
    let mut cookies = CookieState::new();
    cookies.claim("cookie-1");
    assert!(!app.claim_early_cancel(&mut cookies));
    cookies.cancel_authentication("cookie-1");
    assert!(app.claim_early_cancel(&mut cookies));
    assert!(!app.claim_early_cancel(&mut cookies));

    // A standalone window has no cookie to be cancelled.
    cookies.cancel_authentication("");
    assert!(!standalone(false, 1000).claim_early_cancel(&mut cookies));
    assert_eq!(cookies.cancelled, vec![String::new()]);
}

#[test]
fn what_a_window_starts_by_itself() {
    let mut app = standalone(true, 1000);
    assert_eq!(
        app.start(Some("ana".to_string())),
        Effect::SendLater { delay_ms: 2000, result: AuthResult::Success }
    );
    assert_eq!(
        app.status_msg,
        "SIMULATION MODE: use password 'password' or click fingerprint"
    );
    assert_eq!(app.fingerprint_msg, "Click fingerprint sensor to scan");

    let mut app = standalone(false, 1000);
    assert_eq!(app.start(Some("ana".to_string())), Effect::WatchReader("ana".to_string()));
    assert_eq!(app.fingerprint_msg, "Fingerprint scanner ready");

    let mut app = standalone(false, 1000);
    assert_eq!(app.start(None), Effect::Nothing);
    assert_eq!(app.fingerprint_msg, "Cannot determine the current user");

    let mut app = polkit();
    assert_eq!(app.start(Some("ana".to_string())), Effect::Nothing);
    assert_eq!(app.fingerprint_msg, "Handled by PAM — follow the prompt");
}

#[test]
fn a_live_password_goes_to_the_helper() {
    let mut app = polkit();
    app.password_text = "secret".to_string();
    assert_eq!(
        send(&mut app, AppMessage::PasswordVerify),
        (Effect::WriteHelper("secret\n".to_string()), false)
    );
    assert_eq!(app.password_text, "");
    assert_eq!(app.status_msg, "Verifying password...");
}

#[test]
fn a_standalone_password_is_checked() {
    let mut app = standalone(false, 1000);
    app.password_text = "secret".to_string();
    assert_eq!(
        send(&mut app, AppMessage::PasswordVerify),
        (Effect::CheckPassword("secret".to_string()), false)
    );
    assert_eq!(app.password_text, "secret");

    let mut app = standalone(true, 1000);
    app.password_text = "secret".to_string();
    assert_eq!(
        send(&mut app, AppMessage::PasswordVerify).0,
        Effect::SendLater {
            delay_ms: 800,
            result: AuthResult::Failure("Invalid password (use 'password' or empty)".to_string()),
        }
    );
    app.password_text = "password".to_string();
    assert_eq!(
        send(&mut app, AppMessage::PasswordVerify).0,
        Effect::SendLater { delay_ms: 800, result: AuthResult::Success }
    );
}

#[test]
fn the_reader_is_scanned_standalone_only() {
    let mut app = standalone(false, 1000);
    assert_eq!(send(&mut app, AppMessage::FingerprintScanStart).0, Effect::ScanFinger);
    assert!(app.fingerprint_active);
    assert_eq!(app.fingerprint_msg, "Place finger on reader...");

    let mut app = standalone(true, 1000);
    assert_eq!(
        send(&mut app, AppMessage::FingerprintScanStart).0,
        Effect::SendLater { delay_ms: 1500, result: AuthResult::Success }
    );

    let mut app = polkit();
    assert_eq!(send(&mut app, AppMessage::FingerprintScanStart).0, Effect::Nothing);
    assert!(!app.fingerprint_active);
}

#[test]
fn prompts_label_and_empty_the_box() {
    let mut app = polkit();
    app.password_text = "old".to_string();
    let prompt = AppMessage::PromptReceived("One-time code: ".to_string(), true);
    assert_eq!(send(&mut app, prompt), (Effect::Nothing, false));
    assert_eq!(app.password_label, "One-time code: ");
    assert_eq!(app.password_text, "");
}

#[test]
fn a_message_about_a_finger_shows_the_reader_waiting() {
    let mut app = polkit();
    let text = "Place your right middle FINGER on the reader";
    send(&mut app, AppMessage::StatusReceived(text.to_string(), false));
    assert_eq!(app.status_msg, text);
    assert!(!app.status_is_error);
    assert!(app.fingerprint_active);
    assert_eq!(app.fingerprint_msg, "Waiting for finger…");

    let mut app = polkit();
    send(&mut app, AppMessage::StatusReceived("Falsches Paßwort".to_string(), true));
    assert!(app.status_is_error);
    assert!(!app.fingerprint_active);

    // The text in lowercase decides, not the text itself.
    let mut app = polkit();
    app.status_received("FINGER".to_string(), false, "FINGER");
    assert!(!app.fingerprint_active);
    app.status_received("FINGER".to_string(), false, "finger");
    assert!(app.fingerprint_active);
}

#[test]
fn success_grants_a_live_request_and_ends_a_standalone_window() {
    let mut app = polkit();
    assert_eq!(
        send(&mut app, done(AuthResult::Success)),
        (Effect::Grant { close_after_ms: 800 }, false)
    );
    assert!(app.status_is_success && app.fingerprint_success && !app.fingerprint_active);
    assert_eq!(app.status_msg, "Authentication Successful!");
    assert_eq!(app.fingerprint_msg, "Authenticated");
    assert_eq!(send(&mut app, AppMessage::PasswordVerify).0, Effect::Nothing);
    assert_eq!(app.status_msg, "Authentication Successful!");
    assert_eq!(send(&mut app, done(AuthResult::ExitWindow)), (Effect::Nothing, true));

    let mut app = standalone(false, 1000);
    assert_eq!(
        send(&mut app, done(AuthResult::Success)),
        (Effect::ExitProcess { after_ms: 1000 }, false)
    );
    assert_eq!(send(&mut app, AppMessage::FingerprintScanStart).0, Effect::Nothing);
}

#[test]
fn failures_restart_the_helper_twice() {
    let mut app = polkit();
    for left in [1, 0] {
        app.password_text = "typed meanwhile".to_string();
        assert_eq!(send(&mut app, failure("Authentication failed")), (spawn(), false));
        assert_eq!(app.retries_left, left);
        assert!(!app.helper_open);
        assert_eq!(app.password_text, "");
        assert_eq!(app.status_msg, "Authentication failed");
        assert!(app.status_is_error);
        app.helper_restarted(Ok(()));
        assert!(app.helper_open);
    }
    assert_eq!(send(&mut app, failure("Authentication failed")), (Effect::Nothing, false));
    assert_eq!(app.status_msg, "Authentication failed — press Escape to cancel");
    assert!(!app.helper_open);
    assert_eq!(send(&mut app, AppMessage::Cancel), (Effect::Nothing, true));
}

#[test]
fn a_helper_that_does_not_restart_is_shown() {
    let mut app = polkit();
    send(&mut app, failure("Authentication failed"));
    app.helper_restarted(Err("no memory".to_string()));
    assert_eq!(app.status_msg, "Could not restart helper: no memory");
    assert!(!app.helper_open);
}

#[test]
fn a_standalone_failure_is_only_shown() {
    let mut app = standalone(false, 1000);
    app.password_text = "secret".to_string();
    assert_eq!(send(&mut app, failure("Incorrect password")), (Effect::Nothing, false));
    assert_eq!(app.status_msg, "Incorrect password");
    assert_eq!(app.password_text, "secret");
    assert_eq!(app.retries_left, RETRIES);
}

#[test]
fn a_missing_reader_simulates_standalone_only() {
    for text in ["No reader: gone", "Simulation mode active. Click icon to verify."] {
        let mut app = standalone(false, 1000);
        send(&mut app, news(text));
        assert!(app.simulate_mode, "{text}");
        assert_eq!(app.fingerprint_msg, text);

        let mut app = polkit();
        send(&mut app, news(text));
        assert!(!app.simulate_mode, "{text}");
        assert_eq!(app.fingerprint_msg, text);
    }
    let mut app = standalone(false, 1000);
    send(&mut app, news("Failed match. Try again."));
    assert!(!app.simulate_mode);
}

#[test]
fn cancelling_kills_the_helper_and_closes() {
    let mut app = polkit();
    assert_eq!(send(&mut app, AppMessage::Cancel), (Effect::KillHelper, true));
    let mut app = standalone(false, 1000);
    assert_eq!(send(&mut app, AppMessage::Cancel), (Effect::Nothing, true));
}

#[test]
fn a_close_that_was_asked_for_stays_asked_for() {
    let mut app = polkit();
    let mut needs_rebuild = true;
    let mut exit = true;
    app.update(AppMessage::PasswordVerify, &mut needs_rebuild, &mut exit);
    assert!(needs_rebuild && exit);
}

#[test]
fn a_second_cancel_finds_no_helper() {
    let mut app = polkit();
    let mut slot = HelperSlot::holding(42);
    let mut killed = Vec::new();
    for _ in 0..2 {
        let before = format!("{app:?}");
        assert_eq!(send(&mut app, AppMessage::Cancel), (Effect::KillHelper, true));
        assert_eq!(format!("{app:?}"), before);
        killed.extend(slot.take());
    }
    assert_eq!(killed, vec![42]);
}

#[test]
fn only_a_standalone_dialog_needs_the_user() {
    assert!(standalone(false, 1000).needs_user());
    assert!(!standalone(true, 1000).needs_user());
    assert!(!standalone(false, 0).needs_user());
    let mut app = polkit();
    assert!(!app.needs_user());
    assert_eq!(app.start(Some("ana".to_string())), Effect::Nothing);
    assert_eq!(app.start(None), Effect::Nothing);
    let mut app = standalone(false, 1000);
    assert_eq!(app.start(Some("ana".to_string())), Effect::WatchReader("ana".to_string()));
}
