use cce_authenticator::attempt::{
    check_report, no_reader_reports, scan_report, CheckEnd, ScanEnd,
};
use cce_authenticator::message::AuthResult;

#[test]
fn password_checks_report_their_end() {
    assert_eq!(check_report(CheckEnd::Asked(Ok(()))), AuthResult::Success);
    assert_eq!(
        check_report(CheckEnd::Asked(Err("Failed to start PAM".to_string()))),
        AuthResult::Failure("Failed to start PAM".to_string())
    );
    assert_eq!(
        check_report(CheckEnd::NoUser),
        AuthResult::Failure("Cannot determine the current user".to_string())
    );
    assert_eq!(
        check_report(CheckEnd::Panicked),
        AuthResult::Failure("Auth task panicked".to_string())
    );
}

#[test]
fn scans_report_their_end() {
    assert_eq!(scan_report(ScanEnd::Done), None);
    assert_eq!(
        scan_report(ScanEnd::NoUser),
        Some(AuthResult::FingerprintStatus("Cannot determine the current user".to_string()))
    );
    assert_eq!(
        scan_report(ScanEnd::Failed("busy".to_string())),
        Some(AuthResult::FingerprintStatus("Scan error: busy".to_string()))
    );
    let (now, later) = no_reader_reports("gone");
    assert_eq!(now, AuthResult::FingerprintStatus("No reader: gone".to_string()));
    assert_eq!(
        later,
        AuthResult::FingerprintStatus("Simulation mode active. Click icon to verify.".to_string())
    );
}
