//! Attempts that run beside the dialog: what each of their endings reports to it.

use vstd::prelude::*;
use vstd::string::*;
use crate::message::{AuthResult, ResultView};

verus! {

/// How long after "No reader" the dialog is told to simulate.
pub const NO_READER_DELAY_MS: u64 = 1500;

/// How the task that checks a password ended.
#[derive(Debug)]
pub enum CheckEnd {
    /// There is nobody to check the password of.
    NoUser,
    /// The PAM transaction gave this result.
    Asked(Result<(), String>),
    /// The task was lost.
    Panicked,
}

/// What the end of a password check reports.
pub open spec fn check_meaning(end: CheckEnd) -> ResultView {
    match end {
        CheckEnd::NoUser => ResultView::Failure("Cannot determine the current user"@),
        CheckEnd::Asked(Ok(_)) => ResultView::Success,
        CheckEnd::Asked(Err(text)) => ResultView::Failure(text@),
        CheckEnd::Panicked => ResultView::Failure("Auth task panicked"@),
    }
}

/// The report of a password check.
pub fn check_report(end: CheckEnd) -> (result: AuthResult)
    ensures
        result@ == check_meaning(end),
{
    match end {
        CheckEnd::NoUser => AuthResult::Failure("Cannot determine the current user".to_owned()),
        CheckEnd::Asked(Ok(_)) => AuthResult::Success,
        CheckEnd::Asked(Err(text)) => AuthResult::Failure(text),
        CheckEnd::Panicked => AuthResult::Failure("Auth task panicked".to_owned()),
    }
}

/// How a fingerprint scan ended that the user asked for.
#[derive(Debug)]
pub enum ScanEnd {
    /// There is nobody to scan a finger of.
    NoUser,
    /// The scan ran to its end and has reported by itself.
    Done,
    /// The reader failed, and how.
    Failed(String),
}

/// What the end of a scan that the user asked for reports.
pub open spec fn scan_meaning(end: ScanEnd) -> Option<ResultView> {
    match end {
        ScanEnd::NoUser => Some(
            ResultView::FingerprintStatus("Cannot determine the current user"@),
        ),
        ScanEnd::Done => None,
        ScanEnd::Failed(error) => Some(ResultView::FingerprintStatus("Scan error: "@ + error@)),
    }
}

/// The report of a scan that the user asked for.
pub fn scan_report(end: ScanEnd) -> (result: Option<AuthResult>)
    ensures
        result.deep_view() == scan_meaning(end),
{
    match end {
        ScanEnd::NoUser => Some(
            AuthResult::FingerprintStatus("Cannot determine the current user".to_owned()),
        ),
        ScanEnd::Done => None,
        ScanEnd::Failed(error) => Some(
            AuthResult::FingerprintStatus("Scan error: ".to_owned().concat(error.as_str())),
        ),
    }
}

/// The two reports of a reader that failed while the standalone window opened: the error
/// at once, and after `NO_READER_DELAY_MS` the notice that simulation has taken over.
pub fn no_reader_reports(error: &str) -> (reports: (AuthResult, AuthResult))
    ensures
        reports.0@ == ResultView::FingerprintStatus("No reader: "@ + error@),
        reports.1@ == ResultView::FingerprintStatus(
            "Simulation mode active. Click icon to verify."@,
        ),
{
    (
        AuthResult::FingerprintStatus("No reader: ".to_owned().concat(error)),
        AuthResult::FingerprintStatus("Simulation mode active. Click icon to verify.".to_owned()),
    )
}

/// A password check reports success exactly when the PAM transaction succeeded.
pub proof fn law_success_needs_pam(end: CheckEnd)
    ensures
        check_meaning(end) == ResultView::Success <==> end matches CheckEnd::Asked(Ok(_)),
{
}

/// Every other end of a password check reports a failure with its own reason, that of PAM as
/// PAM gave it.
pub proof fn law_failed_check_tells_why(text: String)
    ensures
        check_meaning(CheckEnd::Asked(Ok(()))) == ResultView::Success,
        check_meaning(CheckEnd::Asked(Err(text))) == ResultView::Failure(text@),
        check_meaning(CheckEnd::NoUser) == ResultView::Failure(
            "Cannot determine the current user"@,
        ),
        check_meaning(CheckEnd::Panicked) == ResultView::Failure("Auth task panicked"@),
{
}

/// A scan that ran to its end reports nothing more; one that did not reports why, and none of
/// its endings is a success.
pub proof fn law_unfinished_scan_tells_why(text: String)
    ensures
        scan_meaning(ScanEnd::Done) is None,
        scan_meaning(ScanEnd::NoUser) == Some(
            ResultView::FingerprintStatus("Cannot determine the current user"@),
        ),
        scan_meaning(ScanEnd::Failed(text)) == Some(
            ResultView::FingerprintStatus("Scan error: "@ + text@),
        ),
        NO_READER_DELAY_MS == 1500,
{
}

} // verus!
