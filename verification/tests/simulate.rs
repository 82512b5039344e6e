use cce_authenticator::message::AuthResult;
use cce_authenticator::simulate::{simulate_allowed, simulated_verdict};

/// Exhaustive over the rule's inputs, because this is the one invariant whose failure
/// grants root.
#[test]
fn a_live_request_vetoes_simulation() {
    for &env_requested in &[true, false] {
        for &uid in &[0u32, 1000] {
            assert!(
                !simulate_allowed(true, env_requested, uid),
                "polkit mode must veto simulation (env={env_requested}, uid={uid}): \
                 a simulated success answers polkitd with Ok(()) and grants the action"
            );
        }
    }

    // Outside polkit mode simulation must still work, or the standalone window stops
    // being usable for tests.
    assert!(simulate_allowed(false, true, 1000), "CCE_AUTH_SIMULATE drives standalone");
    assert!(simulate_allowed(false, false, 0), "root standalone simulates without the var");
    assert!(!simulate_allowed(false, false, 1000), "no request, no var, not root: real PAM");
}

#[test]
fn simulated_password_passes_by_the_word_or_by_nothing() {
    assert_eq!(simulated_verdict("password"), AuthResult::Success);
    assert_eq!(simulated_verdict(""), AuthResult::Success);
    let refused = AuthResult::Failure("Invalid password (use 'password' or empty)".to_string());
    assert_eq!(simulated_verdict("Password"), refused);
    assert_eq!(simulated_verdict(" "), refused);
}
