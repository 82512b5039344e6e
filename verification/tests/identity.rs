use cce_authenticator::identity::{
    current_user, current_username, pick_own_name, pick_request_name, requested_uid,
    resolve_request, uid_of, DetailValue, Identity,
};

fn identity(kind: &str, details: Vec<(&str, DetailValue)>) -> Identity {
    Identity {
        kind: kind.to_string(),
        details: details.into_iter().map(|(key, value)| (key.to_string(), value)).collect(),
    }
}

#[test]
fn numbers_keep_their_low_bits() {
    assert_eq!(uid_of(DetailValue::U32(1000)), Some(1000));
    assert_eq!(uid_of(DetailValue::I32(1000)), Some(1000));
    assert_eq!(uid_of(DetailValue::I32(-1)), Some(u32::MAX));
    assert_eq!(uid_of(DetailValue::U64(0x1_0000_03e8)), Some(1000));
    assert_eq!(uid_of(DetailValue::I64(-2)), Some(u32::MAX - 1));
    assert_eq!(uid_of(DetailValue::Other), None);
}

#[test]
fn only_the_first_identity_counts() {
    let uid = |n| vec![("name", DetailValue::Other), ("uid", DetailValue::U32(n))];
    assert_eq!(requested_uid(&vec![]), None);
    assert_eq!(requested_uid(&vec![identity("unix-user", uid(5))]), Some(5));
    assert_eq!(requested_uid(&vec![identity("unix-group", uid(5))]), None);
    assert_eq!(requested_uid(&vec![identity("unix-user", vec![])]), None);
    assert_eq!(
        requested_uid(&vec![identity("unix-group", uid(5)), identity("unix-user", uid(6))]),
        None
    );
    assert_eq!(
        requested_uid(&vec![identity("unix-user", vec![("uid", DetailValue::Other)])]),
        None
    );
}

#[test]
fn the_environment_is_only_a_fallback() {
    let name = |s: &str| Some(s.to_string());
    assert_eq!(pick_own_name(name("db"), name("env")), name("db"));
    assert_eq!(pick_own_name(None, name("env")), name("env"));
    assert_eq!(pick_own_name(name(""), name("env")), None);
    assert_eq!(pick_own_name(None, name("")), None);
    assert_eq!(pick_own_name(None, None), None);
}

#[test]
fn a_request_needs_a_name() {
    let name = |s: &str| Some(s.to_string());
    assert_eq!(pick_request_name(name("named"), name("own")), Ok("named".to_string()));
    assert_eq!(pick_request_name(None, name("own")), Ok("own".to_string()));
    assert_eq!(pick_request_name(name(""), name("own")), Ok("own".to_string()));
    assert_eq!(
        pick_request_name(None, None),
        Err("no resolvable unix-user identity".to_string())
    );
}

#[test]
fn the_account_database_is_asked() {
    // Whoever runs this is the user whom the process runs as.
    let own = users::get_current_username().map(|n| n.to_string_lossy().into_owned());
    let expected = match &own {
        Some(name) => Some(name.clone()),
        None => Some("someone".to_string()),
    };
    assert_eq!(current_username(Some("someone".to_string())), expected);

    let uid = users::get_current_uid();
    let r = resolve_request(
        &vec![identity("unix-user", vec![("uid", DetailValue::U32(uid))])],
        Some("someone".to_string()),
    );
    let account = r.account.expect("a user was named");
    assert_eq!(account.uid(), uid);
    assert_eq!(account.name(), own);
    assert_eq!(r.own.is_none(), own.is_some());
    assert_eq!(r.username.ok(), expected);

    let user = current_user(Some("someone".to_string()));
    assert_eq!(user.account.name(), own);
    assert_eq!(user.name, expected);

    let nobody = resolve_request(&vec![], None);
    assert!(nobody.account.is_none());
    assert_eq!(nobody.own.map(|account| account.name()), Some(own.clone()));
    assert_eq!(nobody.username.is_ok(), own.is_some());
}
