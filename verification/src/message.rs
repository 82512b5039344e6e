//! What the parts of the authenticator tell each other.

use vstd::prelude::*;
use vstd::string::*;

verus! {

/// How an attempt to authenticate went, or is going.
#[derive(Clone, Debug, PartialEq, Eq)]
pub enum AuthResult {
    Success,
    ExitWindow,
    Failure(String),
    FingerprintStatus(String),
}

/// What the dialog is told.
#[derive(Clone, Debug, PartialEq, Eq)]
pub enum AppMessage {
    PasswordVerify,
    FingerprintScanStart,
    AuthDone(AuthResult),
    Cancel,
    /// A prompt, and whether the answer may be echoed.
    PromptReceived(String, bool),
    /// A message, and whether it reports an error.
    StatusReceived(String, bool),
}

/// An `AuthResult`, its texts taken as sequences of characters.
#[verifier::ext_equal]
pub enum ResultView {
    Success,
    ExitWindow,
    Failure(Seq<char>),
    FingerprintStatus(Seq<char>),
}

/// An `AppMessage`, its texts taken as sequences of characters.
#[verifier::ext_equal]
pub enum MessageView {
    PasswordVerify,
    FingerprintScanStart,
    AuthDone(ResultView),
    Cancel,
    PromptReceived(Seq<char>, bool),
    StatusReceived(Seq<char>, bool),
}

impl View for AuthResult {
    type V = ResultView;

    open spec fn view(&self) -> ResultView {
        match self {
            AuthResult::Success => ResultView::Success,
            AuthResult::ExitWindow => ResultView::ExitWindow,
            AuthResult::Failure(text) => ResultView::Failure(text@),
            AuthResult::FingerprintStatus(text) => ResultView::FingerprintStatus(text@),
        }
    }
}

impl DeepView for AuthResult {
    type V = ResultView;

    open spec fn deep_view(&self) -> ResultView {
        self.view()
    }
}

impl View for AppMessage {
    type V = MessageView;

    open spec fn view(&self) -> MessageView {
        match self {
            AppMessage::PasswordVerify => MessageView::PasswordVerify,
            AppMessage::FingerprintScanStart => MessageView::FingerprintScanStart,
            AppMessage::AuthDone(result) => MessageView::AuthDone(result@),
            AppMessage::Cancel => MessageView::Cancel,
            AppMessage::PromptReceived(text, echo) => MessageView::PromptReceived(text@, *echo),
            AppMessage::StatusReceived(text, error) => MessageView::StatusReceived(text@, *error),
        }
    }
}

impl DeepView for AppMessage {
    type V = MessageView;

    open spec fn deep_view(&self) -> MessageView {
        self.view()
    }
}

/// The views of results and messages show every kind and every text as it is.
pub proof fn law_message_views_show_everything(text: String, result: AuthResult, flag: bool)
    ensures
        AuthResult::Success@ == ResultView::Success,
        AuthResult::ExitWindow@ == ResultView::ExitWindow,
        AuthResult::Failure(text)@ == ResultView::Failure(text@),
        AuthResult::FingerprintStatus(text)@ == ResultView::FingerprintStatus(text@),
        result.deep_view() == result@,
        AppMessage::PasswordVerify@ == MessageView::PasswordVerify,
        AppMessage::FingerprintScanStart@ == MessageView::FingerprintScanStart,
        AppMessage::AuthDone(result)@ == MessageView::AuthDone(result@),
        AppMessage::Cancel@ == MessageView::Cancel,
        AppMessage::PromptReceived(text, flag)@ == MessageView::PromptReceived(text@, flag),
        AppMessage::StatusReceived(text, flag)@ == MessageView::StatusReceived(text@, flag),
        AppMessage::PromptReceived(text, flag).deep_view() == MessageView::PromptReceived(text@, flag),
        AppMessage::StatusReceived(text, flag).deep_view() == MessageView::StatusReceived(text@, flag),
        AppMessage::AuthDone(result).deep_view() == MessageView::AuthDone(result@),
        AppMessage::Cancel.deep_view() == MessageView::Cancel,
        AppMessage::PasswordVerify.deep_view() == MessageView::PasswordVerify,
        AppMessage::FingerprintScanStart.deep_view() == MessageView::FingerprintScanStart,
{
}

} // verus!
