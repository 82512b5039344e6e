use cce_authenticator::cookies::CookieState;
use cce_authenticator::dialog::{AuthenticatorApp, Effect};
use cce_authenticator::identity::Resolution;
use cce_authenticator::message::{AppMessage, AuthResult};
use cce_authenticator::request::{
    daemon_reply, request_for, settle, take_turn, Admission, Ending, GuiRequest,
};

fn request(cookie: &str, tx_result: u32) -> GuiRequest<u32> {
    GuiRequest {
        username: "ana".to_string(),
        message: "Authentication is needed".to_string(),
        cookie: cookie.to_string(),
        tx_result,
    }
}

#[test]
fn an_uncancelled_request_gets_the_window() {
    let mut st = CookieState::new();
    st.cancel_authentication("other");
    match take_turn(&mut st, request("c", 7)) {
        Admission::Open(req) => {
            assert_eq!(req.cookie, "c");
            assert_eq!(req.tx_result, 7);
        }
        Admission::Refused(..) => panic!("nobody cancelled it"),
    }
    assert_eq!(st.active, Some("c".to_string()));
    assert_eq!(st.cancelled, vec!["other".to_string()]);
}

#[test]
fn a_request_cancelled_before_its_turn_is_refused() {
    let mut st = CookieState::new();
    st.cancel_authentication("c");
    match take_turn(&mut st, request("c", 7)) {
        Admission::Open(_) => panic!("it was cancelled"),
        Admission::Refused(to, answer) => {
            assert_eq!(to, 7);
            assert_eq!(answer, Err("Authentication cancelled".to_string()));
        }
    }
    assert!(st.active.is_none());
    assert!(st.cancelled.is_empty());
}

#[test]
fn a_request_is_answered_once() {
    let mut slot = Some(request("c", 7));
    assert_eq!(settle(&mut slot, Ending::Granted), Some((7, Ok(()))));
    assert!(slot.is_none());
    assert_eq!(settle(&mut slot, Ending::Closed), None);

    let mut slot = Some(request("d", 8));
    assert_eq!(
        settle(&mut slot, Ending::Closed),
        Some((8, Err("Authentication cancelled".to_string())))
    );
    assert_eq!(settle(&mut slot, Ending::Granted), None);
}

#[test]
fn the_daemon_gets_the_answer_or_the_news_that_there_is_none() {
    assert_eq!(daemon_reply(Some(Ok(()))), Ok(()));
    assert_eq!(daemon_reply(Some(Err("no".to_string()))), Err("no".to_string()));
    assert_eq!(daemon_reply(None), Err("GUI closed".to_string()));
}

#[test]
fn a_request_carries_what_the_daemon_sent() {
    let resolution = |username| Resolution { account: None, own: None, username };
    let made = request_for(
        resolution(Ok("ana".to_string())),
        "Authentication is needed".to_string(),
        "c".to_string(),
        7,
    );
    match made {
        Ok(req) => {
            assert_eq!(req.username, "ana");
            assert_eq!(req.message, "Authentication is needed");
            assert_eq!(req.cookie, "c");
            assert_eq!(req.tx_result, 7);
        }
        Err(text) => panic!("{text}"),
    }
    let refused = request_for(
        resolution(Err("no resolvable unix-user identity".to_string())),
        "m".to_string(),
        "c".to_string(),
        7,
    );
    assert_eq!(refused.err(), Some("no resolvable unix-user identity".to_string()));
}

#[test]
fn the_first_success_grants_and_nothing_later_does() {
    let mut slot = Some(request("c", 7));
    let (mut app, _) = AuthenticatorApp::opened(slot.as_ref(), false, 1000);
    let mut answers = Vec::new();
    for result in [
        AuthResult::Failure("Authentication failed".to_string()),
        AuthResult::Success,
        AuthResult::Success,
        AuthResult::ExitWindow,
    ] {
        let mut needs_rebuild = false;
        let mut exit = false;
        let effect = app.update(AppMessage::AuthDone(result), &mut needs_rebuild, &mut exit);
        if let Effect::Grant { .. } = effect {
            answers.extend(settle(&mut slot, Ending::Granted));
        }
    }
    answers.extend(settle(&mut slot, Ending::Closed));
    assert_eq!(answers, vec![(7, Ok(()))]);
}
