use cce_authenticator::cookies::{take_cancelled, CookieState};

/// The orderings that a single active-cookie slot got wrong, run in sequence on one
/// state.
#[test]
fn cancellation_survives_every_ordering() {
    let mut st = CookieState::new();

    // Cancel lands before the main loop claims the cookie: not deliverable, but the
    // record is waiting when the loop looks, so the window never opens.
    assert!(!st.cancel_authentication("early"));
    st.claim("early");
    assert!(take_cancelled(&mut st, "early"), "cancel before claim must be seen");
    st.finish("early");

    // Cancel lands after the claim but before the window has a sender. It reads as
    // deliverable, yet there is nothing to deliver to: the starting window consumes it.
    st.claim("starting");
    assert!(st.cancel_authentication("starting"), "cancel for the claimed cookie is active");
    assert!(take_cancelled(&mut st, "starting"), "new() must still find it");
    st.finish("starting");

    // Cancel for a queued cookie while another window is up. It must not be mistaken
    // for the active one, and must survive that window closing.
    st.claim("open");
    assert!(!st.cancel_authentication("queued"), "a queued cookie is not the active one");
    assert!(!take_cancelled(&mut st, "open"), "the open window was never cancelled");
    st.finish("open");
    st.claim("queued");
    assert!(
        take_cancelled(&mut st, "queued"),
        "a queued cancel must outlive the window ahead of it"
    );
    st.finish("queued");

    // Nothing left behind.
    assert!(st.active.is_none());
    assert!(st.cancelled.is_empty(), "cancelled cookies leaked: {:?}", st.cancelled);
}

#[test]
fn records_are_unique_and_consumed_once() {
    let mut st = CookieState::new();
    assert!(!st.cancel_authentication("a"));
    assert!(!st.cancel_authentication("b"));
    assert!(!st.cancel_authentication("a"));
    assert_eq!(st.cancelled, vec!["a".to_string(), "b".to_string()]);
    assert!(take_cancelled(&mut st, "a"));
    assert!(!take_cancelled(&mut st, "a"));
    assert_eq!(st.cancelled, vec!["b".to_string()]);
}

#[test]
fn delivered_cancellation_leaves_with_its_window() {
    let mut st = CookieState::new();
    st.claim("open");
    assert!(st.is_active("open"));
    assert!(!st.is_active("other"));
    assert!(st.cancel_authentication("open"));
    assert!(!st.cancel_authentication("other"));
    st.finish("open");
    assert!(st.active.is_none());
    assert_eq!(st.cancelled, vec!["other".to_string()]);
    st.claim("other");
    st.release();
    assert!(st.active.is_none());
    assert_eq!(st.cancelled, vec!["other".to_string()]);
}
