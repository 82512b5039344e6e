//! When the simulated authenticator may stand in for the real one.

use vstd::prelude::*;
use vstd::string::*;
use crate::message::{AuthResult, ResultView};
use crate::text::same_text;

verus! {

/// When the simulated authenticator may stand in for the real one: no live request, and
/// either it was asked for or the window runs as root.
pub open spec fn simulation_allowed(polkit_mode: bool, env_requested: bool, uid: u32) -> bool {
    !polkit_mode && (env_requested || uid == 0)
}

/// Whether the simulated authenticator may stand in for PAM.
///
/// Simulation reports success on its own, and with a live request that success is handed
/// to the policy daemon as a grant with nothing checked. So a live request vetoes it
/// outright, whatever asked for it: the rule looks at the dangerous state, not at an
/// allowlist of the ways in.
pub fn simulate_allowed(polkit_mode: bool, env_requested: bool, uid: u32) -> (allowed: bool)
    ensures
        allowed == simulation_allowed(polkit_mode, env_requested, uid),
{
    !polkit_mode && (env_requested || uid == 0)
}

/// What the simulated authenticator says to `password`.
pub open spec fn simulated_answer(password: Seq<char>) -> ResultView {
    if password == "password"@ || password.len() == 0 {
        ResultView::Success
    } else {
        ResultView::Failure("Invalid password (use 'password' or empty)"@)
    }
}

/// Verifies a password the simulated way: the word itself and nothing at all pass.
pub fn simulated_verdict(password: &str) -> (result: AuthResult)
    ensures
        result@ == simulated_answer(password@),
{
    if same_text(password, "password") || password.is_empty() {
        AuthResult::Success
    } else {
        AuthResult::Failure("Invalid password (use 'password' or empty)".to_owned())
    }
}

/// A live request vetoes simulation, whatever else holds.
pub proof fn law_live_request_vetoes_simulation(env_requested: bool, uid: u32)
    ensures
        !simulation_allowed(true, env_requested, uid),
{
}

/// Who simulates: nobody while a request is live; standalone, everybody whose environment asks
/// for it, and else root alone.
pub proof fn law_who_may_simulate(env_requested: bool, uid: u32)
    ensures
        !simulation_allowed(true, env_requested, uid),
        simulation_allowed(false, true, uid),
        simulation_allowed(false, false, uid) <==> uid == 0,
{
}

/// The simulated authenticator accepts the word itself and nothing at all, and refuses every
/// other password with the same advice.
pub proof fn law_simulation_accepts_two_passwords(password: Seq<char>)
    ensures
        simulated_answer("password"@) == ResultView::Success,
        simulated_answer(Seq::<char>::empty()) == ResultView::Success,
        password != "password"@ && password.len() > 0 ==> simulated_answer(password)
            == ResultView::Failure("Invalid password (use 'password' or empty)"@),
{
}

} // verus!
