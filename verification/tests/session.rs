use cce_authenticator::session::{known_session, session_from_path, session_from_record};

#[test]
fn records_are_trimmed_and_the_unset_number_is_none() {
    assert_eq!(session_from_record("3\n"), Some("3".to_string()));
    assert_eq!(session_from_record(" c1 "), Some("c1".to_string()));
    assert_eq!(session_from_record("4294967295\n"), None);
    assert_eq!(session_from_record(""), None);
    assert_eq!(session_from_record(" \n"), None);
}

#[test]
fn the_environment_comes_first() {
    let id = |s: &str| Some(s.to_string());
    assert_eq!(known_session(id("7"), id("3\n")), id("7"));
    assert_eq!(known_session(id(""), id("3\n")), id(""));
    assert_eq!(known_session(None, id("3\n")), id("3"));
    assert_eq!(known_session(None, id("4294967295")), None);
    assert_eq!(known_session(None, None), None);
}

#[test]
fn object_paths_stand_for_sessions() {
    assert_eq!(session_from_path("/org/freedesktop/login1/session/_33"), Ok("33".to_string()));
    assert_eq!(session_from_path("/org/freedesktop/login1/session/c2"), Ok("c2".to_string()));
    assert_eq!(session_from_path("/a/__x"), Ok("_x".to_string()));
    assert_eq!(session_from_path("/a/"), Ok(String::new()));
    assert_eq!(session_from_path("/a/_"), Ok(String::new()));
    assert_eq!(session_from_path("none"), Err("Session ID not found".to_string()));
}
