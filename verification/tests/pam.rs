use cce_authenticator::pam::{pam_result, PamCall, PamEnd, PamStep};

type Outcome = Result<(), String>;

fn failed(text: &str) -> Outcome {
    Err(text.to_string())
}

/// Runs a transaction whose calls go as `outcomes` says; the calls that it made, and its
/// result.
fn run(outcomes: Vec<Outcome>) -> (Vec<PamCall>, Outcome) {
    let mut step = PamStep::Preparing;
    let mut calls = Vec::new();
    let mut outcomes = outcomes.into_iter();
    loop {
        match step.next_call() {
            PamCall::Done(result) => {
                assert!(outcomes.next().is_none());
                return (calls, result);
            }
            call => calls.push(call),
        }
        step = step.advance(outcomes.next().expect("one outcome for each call"));
    }
}

#[test]
fn only_an_accepted_password_passes_pam() {
    assert_eq!(pam_result(&PamEnd::Accepted), Ok(()));
    assert_eq!(pam_result(&PamEnd::NotStarted), failed("Failed to start PAM"));
    assert_eq!(
        pam_result(&PamEnd::Refused("AUTH_ERR".to_string())),
        failed("Incorrect password (PAM: AUTH_ERR)")
    );
    assert_eq!(pam_result(&PamEnd::Unusable("nul".to_string())), failed("nul"));
}

#[test]
fn a_transaction_that_was_asked_is_ended_once() {
    let all = || vec![PamCall::Prepare, PamCall::Start, PamCall::Authenticate, PamCall::End];
    assert_eq!(run(vec![Ok(()), Ok(()), Ok(()), Ok(())]), (all(), Ok(())));
    assert_eq!(run(vec![Ok(()), Ok(()), Ok(()), failed("ABORT")]), (all(), Ok(())));
    assert_eq!(
        run(vec![Ok(()), Ok(()), failed("AUTH_ERR"), Ok(())]),
        (all(), failed("Incorrect password (PAM: AUTH_ERR)"))
    );
}

#[test]
fn a_transaction_that_was_not_started_is_neither_asked_nor_ended() {
    assert_eq!(
        run(vec![failed("nul byte")]),
        (vec![PamCall::Prepare], failed("nul byte"))
    );
    assert_eq!(
        run(vec![Ok(()), failed("SYSTEM_ERR")]),
        (vec![PamCall::Prepare, PamCall::Start], failed("Failed to start PAM"))
    );
}

#[test]
fn an_ended_transaction_stays_ended() {
    let step = PamStep::Ended(PamEnd::NotStarted).advance(Ok(()));
    assert_eq!(step.next_call(), PamCall::Done(failed("Failed to start PAM")));
}
