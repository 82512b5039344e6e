use cce_authenticator::fingerprint::{ScanCall, ScanEvent, ScanStep};
use cce_authenticator::message::AuthResult;

fn status(text: &str) -> Option<AuthResult> {
    Some(AuthResult::FingerprintStatus(text.to_string()))
}

fn listening() -> ScanStep {
    ScanStep::Listening("/dev/0".to_string())
}

fn signal(result: &str, keep_going: bool) -> ScanEvent {
    ScanEvent::Signal(result.to_string(), keep_going)
}

#[test]
fn a_scan_runs_to_its_match() {
    let step = ScanStep::Finding;
    assert!(matches!(step.next_call("ana"), ScanCall::FindDevice));
    let (step, report) = step.advance(ScanEvent::Device("/dev/0".to_string()));
    assert_eq!(report, None);
    match step.next_call("ana") {
        ScanCall::Claim { device, username } => {
            assert_eq!(device, "/dev/0");
            assert_eq!(username, "ana");
        }
        other => panic!("{other:?}"),
    }
    let (step, report) = step.advance(ScanEvent::Returned);
    assert_eq!(report, status("Reader claimed. Scan finger..."));
    assert!(matches!(step.next_call("ana"), ScanCall::VerifyStart(d) if d == "/dev/0"));
    let (step, report) = step.advance(ScanEvent::Returned);
    assert_eq!(report, None);
    assert!(matches!(step.next_call("ana"), ScanCall::Subscribe(d) if d == "/dev/0"));
    let (step, report) = step.advance(ScanEvent::Returned);
    assert_eq!(report, None);
    assert!(matches!(step.next_call("ana"), ScanCall::AwaitSignal));
    let (step, report) = step.advance(signal("verify-no-match", true));
    assert_eq!(report, status("Failed match. Try again."));
    let (step, report) = step.advance(signal("verify-swipe-too-short", true));
    assert_eq!(report, status("Swipe too short. Try again."));
    let (step, report) = step.advance(signal("verify-retry-scan", true));
    assert_eq!(report, status("Retry scan: verify-retry-scan"));
    let (step, report) = step.advance(ScanEvent::Unreadable);
    assert_eq!(report, None);
    let (step, report) = step.advance(signal("verify-match", true));
    assert_eq!(report, Some(AuthResult::Success));
    assert!(matches!(step.next_call("ana"), ScanCall::Release(d) if d == "/dev/0"));
    let (step, report) = step.advance(ScanEvent::Returned);
    assert_eq!(report, None);
    assert!(matches!(step.next_call("ana"), ScanCall::End(Ok(()))));
}

#[test]
fn a_reader_that_stops_is_released() {
    let (step, report) = listening().advance(signal("verify-no-match", false));
    assert_eq!(report, status("Failed match. Try again."));
    assert!(matches!(step, ScanStep::Releasing(_)));
    let (step, report) = listening().advance(ScanEvent::StreamEnded);
    assert_eq!(report, None);
    assert!(matches!(step, ScanStep::Releasing(_)));
    // However the release goes, the scan has ended.
    let (step, _) = step.advance(ScanEvent::Error("gone".to_string()));
    assert!(matches!(step.next_call("ana"), ScanCall::End(Ok(()))));
}

#[test]
fn an_error_before_listening_ends_the_scan() {
    for step in [
        ScanStep::Finding,
        ScanStep::Claiming("/dev/0".to_string()),
        ScanStep::Starting("/dev/0".to_string()),
        ScanStep::Subscribing("/dev/0".to_string()),
    ] {
        let (step, report) = step.advance(ScanEvent::Error("busy".to_string()));
        assert_eq!(report, None);
        assert!(matches!(step.next_call("ana"), ScanCall::End(Err(e)) if e == "busy"));
    }
}

#[test]
fn a_finished_scan_is_silent() {
    let (step, report) = ScanStep::Finished.advance(signal("verify-match", true));
    assert_eq!(report, None);
    assert!(matches!(step, ScanStep::Finished));
}

/// Runs a scan over what its calls give back; the devices that it released, whether it
/// reported success, and how it ended.
fn run(events: Vec<ScanEvent>) -> (Vec<String>, bool, Option<Result<(), String>>) {
    let mut step = ScanStep::Finding;
    let mut released = Vec::new();
    let mut success = false;
    for event in events {
        if let ScanCall::Release(device) = step.next_call("ana") {
            released.push(device);
        }
        let (next, report) = step.advance(event);
        step = next;
        success = success || report == Some(AuthResult::Success);
    }
    let end = match step.next_call("ana") {
        ScanCall::End(outcome) => Some(outcome),
        _ => None,
    };
    (released, success, end)
}

fn found() -> ScanEvent {
    ScanEvent::Device("/dev/0".to_string())
}

fn busy() -> ScanEvent {
    ScanEvent::Error("busy".to_string())
}

#[test]
fn a_reader_that_was_listened_to_is_released_once() {
    let opened = || vec![found(), ScanEvent::Returned, ScanEvent::Returned, ScanEvent::Returned];
    let device = || vec!["/dev/0".to_string()];

    let mut events = opened();
    events.extend([signal("verify-no-match", true), ScanEvent::Unreadable]);
    events.extend([signal("verify-match", true), ScanEvent::Returned]);
    assert_eq!(run(events), (device(), true, Some(Ok(()))));

    let mut events = opened();
    events.extend([ScanEvent::StreamEnded, busy()]);
    assert_eq!(run(events), (device(), false, Some(Ok(()))));
}

#[test]
fn a_scan_that_failed_reported_no_success_and_released_nothing() {
    for before in 0..4 {
        let mut events = Vec::new();
        if before > 0 {
            events.push(found());
        }
        for _ in 1..before {
            events.push(ScanEvent::Returned);
        }
        events.push(busy());
        assert_eq!(run(events), (vec![], false, Some(Err("busy".to_string()))));
    }
}
