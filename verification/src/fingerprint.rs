//! One scan on the fingerprint reader: find the device, claim it, start it, listen to it,
//! and release it.
//!
//! The program around the library makes the calls on the bus that `next_call` names, and
//! hands back how each went.

use vstd::prelude::*;
use vstd::string::*;
use crate::message::{AuthResult, ResultView};
use crate::text::same_text;

verus! {

/// How far a scan has come. The text is the path of the device, and the error of a scan
/// that failed.
#[derive(Debug)]
pub enum ScanStep {
    Finding,
    Claiming(String),
    Starting(String),
    Subscribing(String),
    Listening(String),
    Releasing(String),
    Finished,
    Failed(String),
}

/// How a call on the bus went.
#[derive(Debug)]
pub enum ScanEvent {
    /// The device was found at this path.
    Device(String),
    /// The call returned.
    Returned,
    /// The reader reported a result, and whether it goes on scanning.
    Signal(String, bool),
    /// A signal came that says nothing of the scan.
    Unreadable,
    /// No more signals will come.
    StreamEnded,
    /// The call failed.
    Error(String),
}

/// The call that a scan needs next.
#[derive(Debug)]
pub enum ScanCall {
    FindDevice,
    Claim { device: String, username: String },
    VerifyStart(String),
    Subscribe(String),
    AwaitSignal,
    Release(String),
    /// The scan is over.
    End(Result<(), String>),
}

/// A `ScanStep`, its texts taken as sequences of characters.
#[verifier::ext_equal]
pub enum StepView {
    Finding,
    Claiming(Seq<char>),
    Starting(Seq<char>),
    Subscribing(Seq<char>),
    Listening(Seq<char>),
    Releasing(Seq<char>),
    Finished,
    Failed(Seq<char>),
}

/// A `ScanEvent`, its texts taken as sequences of characters.
#[verifier::ext_equal]
pub enum EventView {
    Device(Seq<char>),
    Returned,
    Signal(Seq<char>, bool),
    Unreadable,
    StreamEnded,
    Error(Seq<char>),
}

/// A `ScanCall`, its texts taken as sequences of characters.
#[verifier::ext_equal]
pub enum CallView {
    FindDevice,
    Claim(Seq<char>, Seq<char>),
    VerifyStart(Seq<char>),
    Subscribe(Seq<char>),
    AwaitSignal,
    Release(Seq<char>),
    End(Result<(), Seq<char>>),
}

impl View for ScanStep {
    type V = StepView;

    open spec fn view(&self) -> StepView {
        match self {
            ScanStep::Finding => StepView::Finding,
            ScanStep::Claiming(device) => StepView::Claiming(device@),
            ScanStep::Starting(device) => StepView::Starting(device@),
            ScanStep::Subscribing(device) => StepView::Subscribing(device@),
            ScanStep::Listening(device) => StepView::Listening(device@),
            ScanStep::Releasing(device) => StepView::Releasing(device@),
            ScanStep::Finished => StepView::Finished,
            ScanStep::Failed(error) => StepView::Failed(error@),
        }
    }
}

impl View for ScanEvent {
    type V = EventView;

    open spec fn view(&self) -> EventView {
        match self {
            ScanEvent::Device(path) => EventView::Device(path@),
            ScanEvent::Returned => EventView::Returned,
            ScanEvent::Signal(result, keep_going) => EventView::Signal(result@, *keep_going),
            ScanEvent::Unreadable => EventView::Unreadable,
            ScanEvent::StreamEnded => EventView::StreamEnded,
            ScanEvent::Error(error) => EventView::Error(error@),
        }
    }
}

impl View for ScanCall {
    type V = CallView;

    open spec fn view(&self) -> CallView {
        match self {
            ScanCall::FindDevice => CallView::FindDevice,
            ScanCall::Claim { device, username } => CallView::Claim(device@, username@),
            ScanCall::VerifyStart(device) => CallView::VerifyStart(device@),
            ScanCall::Subscribe(device) => CallView::Subscribe(device@),
            ScanCall::AwaitSignal => CallView::AwaitSignal,
            ScanCall::Release(device) => CallView::Release(device@),
            ScanCall::End(Ok(_)) => CallView::End(Ok(())),
            ScanCall::End(Err(error)) => CallView::End(Err(error@)),
        }
    }
}

/// What the dialog is told of a result that the reader reports.
pub open spec fn signal_report(result: Seq<char>) -> ResultView {
    if result == "verify-match"@ {
        ResultView::Success
    } else if result == "verify-no-match"@ {
        ResultView::FingerprintStatus("Failed match. Try again."@)
    } else if result == "verify-swipe-too-short"@ {
        ResultView::FingerprintStatus("Swipe too short. Try again."@)
    } else {
        ResultView::FingerprintStatus("Retry scan: "@ + result)
    }
}

impl CallView {
    /// The call can give `event` back. A scan that is over makes no call.
    pub open spec fn gives(self, event: EventView) -> bool {
        match self {
            CallView::FindDevice => event is Device || event is Error,
            CallView::Claim(_, _) => event is Returned || event is Error,
            CallView::VerifyStart(_) => event is Returned || event is Error,
            CallView::Subscribe(_) => event is Returned || event is Error,
            CallView::AwaitSignal => event is Signal || event is Unreadable || event is StreamEnded,
            CallView::Release(_) => event is Returned || event is Error,
            CallView::End(_) => false,
        }
    }
}

impl StepView {
    /// The scan is over.
    pub open spec fn is_over(self) -> bool {
        self is Finished || self is Failed
    }

    /// The call that the scan needs in this step.
    pub open spec fn call(self, username: Seq<char>) -> CallView {
        match self {
            StepView::Finding => CallView::FindDevice,
            StepView::Claiming(device) => CallView::Claim(device, username),
            StepView::Starting(device) => CallView::VerifyStart(device),
            StepView::Subscribing(device) => CallView::Subscribe(device),
            StepView::Listening(_) => CallView::AwaitSignal,
            StepView::Releasing(device) => CallView::Release(device),
            StepView::Finished => CallView::End(Ok(())),
            StepView::Failed(error) => CallView::End(Err(error)),
        }
    }

    /// The step after `event`. Up to the subscription an error ends the scan; from then on
    /// the reader is listened to until it matches, stops, or falls silent, and is then
    /// released, however the release goes. An event that the step does not wait for
    /// changes nothing.
    pub open spec fn after(self, event: EventView) -> StepView {
        match (self, event) {
            (StepView::Finding, EventView::Device(path)) => StepView::Claiming(path),
            (StepView::Finding, EventView::Error(error)) => StepView::Failed(error),
            (StepView::Claiming(device), EventView::Returned) => StepView::Starting(device),
            (StepView::Claiming(_), EventView::Error(error)) => StepView::Failed(error),
            (StepView::Starting(device), EventView::Returned) => StepView::Subscribing(device),
            (StepView::Starting(_), EventView::Error(error)) => StepView::Failed(error),
            (StepView::Subscribing(device), EventView::Returned) => StepView::Listening(device),
            (StepView::Subscribing(_), EventView::Error(error)) => StepView::Failed(error),
            (StepView::Listening(device), EventView::Signal(result, keep_going)) => {
                if result == "verify-match"@ || !keep_going {
                    StepView::Releasing(device)
                } else {
                    self
                }
            },
            (StepView::Listening(device), EventView::StreamEnded) => StepView::Releasing(device),
            (StepView::Releasing(_), EventView::Returned) => StepView::Finished,
            (StepView::Releasing(_), EventView::Error(_)) => StepView::Finished,
            _ => self,
        }
    }

    /// What the dialog is told when `event` comes in this step.
    pub open spec fn report(self, event: EventView) -> Option<ResultView> {
        match (self, event) {
            (StepView::Claiming(_), EventView::Returned) => Some(
                ResultView::FingerprintStatus("Reader claimed. Scan finger..."@),
            ),
            (StepView::Listening(_), EventView::Signal(result, _)) => Some(signal_report(result)),
            _ => None,
        }
    }

    /// The step after a series of events.
    pub open spec fn after_all(self, events: Seq<EventView>) -> StepView
        decreases events.len(),
    {
        if events.len() == 0 {
            self
        } else {
            self.after(events[0]).after_all(events.drop_first())
        }
    }

    /// Each event of the series is one that its step's call can give back.
    pub open spec fn possible(self, username: Seq<char>, events: Seq<EventView>) -> bool
        decreases events.len(),
    {
        events.len() > 0 ==> {
            &&& self.call(username).gives(events[0])
            &&& self.after(events[0]).possible(username, events.drop_first())
        }
    }

    /// The calls that a series of events comes from, event by event.
    pub open spec fn calls(self, username: Seq<char>, events: Seq<EventView>) -> Seq<CallView>
        decreases events.len(),
    {
        if events.len() == 0 {
            seq![]
        } else {
            seq![self.call(username)] + self.after(events[0]).calls(username, events.drop_first())
        }
    }

    /// What the dialog is told over a series of events.
    pub open spec fn reports(self, events: Seq<EventView>) -> Seq<ResultView>
        decreases events.len(),
    {
        if events.len() == 0 {
            seq![]
        } else {
            let rest = self.after(events[0]).reports(events.drop_first());
            match self.report(events[0]) {
                Some(report) => seq![report] + rest,
                None => rest,
            }
        }
    }
}

/// What to tell the dialog of a result that the reader reports.
fn read_signal(result: &str) -> (report: AuthResult)
    ensures
        report@ == signal_report(result@),
{
    if same_text(result, "verify-match") {
        AuthResult::Success
    } else if same_text(result, "verify-no-match") {
        AuthResult::FingerprintStatus("Failed match. Try again.".to_owned())
    } else if same_text(result, "verify-swipe-too-short") {
        AuthResult::FingerprintStatus("Swipe too short. Try again.".to_owned())
    } else {
        AuthResult::FingerprintStatus("Retry scan: ".to_owned().concat(result))
    }
}

impl ScanStep {
    /// The call that a scan for `username` needs next.
    pub fn next_call(&self, username: &str) -> (call: ScanCall)
        ensures
            call@ == self@.call(username@),
    {
        match self {
            ScanStep::Finding => ScanCall::FindDevice,
            ScanStep::Claiming(device) => ScanCall::Claim {
                device: device.clone(),
                username: username.to_owned(),
            },
            ScanStep::Starting(device) => ScanCall::VerifyStart(device.clone()),
            ScanStep::Subscribing(device) => ScanCall::Subscribe(device.clone()),
            ScanStep::Listening(_) => ScanCall::AwaitSignal,
            ScanStep::Releasing(device) => ScanCall::Release(device.clone()),
            ScanStep::Finished => ScanCall::End(Ok(())),
            ScanStep::Failed(error) => ScanCall::End(Err(error.clone())),
        }
    }

    /// Takes in how a call went: the next step, and what the dialog is told.
    pub fn advance(self, event: ScanEvent) -> (next: (ScanStep, Option<AuthResult>))
        ensures
            next.0@ == self@.after(event@),
            next.1.deep_view() == self@.report(event@),
    {
        match (self, event) {
            (ScanStep::Finding, ScanEvent::Device(path)) => (ScanStep::Claiming(path), None),
            (ScanStep::Finding, ScanEvent::Error(error)) => (ScanStep::Failed(error), None),
            (ScanStep::Claiming(device), ScanEvent::Returned) => (
                ScanStep::Starting(device),
                Some(AuthResult::FingerprintStatus("Reader claimed. Scan finger...".to_owned())),
            ),
            (ScanStep::Claiming(_), ScanEvent::Error(error)) => (ScanStep::Failed(error), None),
            (ScanStep::Starting(device), ScanEvent::Returned) => (
                ScanStep::Subscribing(device),
                None,
            ),
            (ScanStep::Starting(_), ScanEvent::Error(error)) => (ScanStep::Failed(error), None),
            (ScanStep::Subscribing(device), ScanEvent::Returned) => (
                ScanStep::Listening(device),
                None,
            ),
            (ScanStep::Subscribing(_), ScanEvent::Error(error)) => (ScanStep::Failed(error), None),
            (ScanStep::Listening(device), ScanEvent::Signal(result, keep_going)) => {
                let report: AuthResult = read_signal(result.as_str());
                if same_text(result.as_str(), "verify-match") || !keep_going {
                    (ScanStep::Releasing(device), Some(report))
                } else {
                    (ScanStep::Listening(device), Some(report))
                }
            },
            (ScanStep::Listening(device), ScanEvent::StreamEnded) => (
                ScanStep::Releasing(device),
                None,
            ),
            (ScanStep::Releasing(_), ScanEvent::Returned) => (ScanStep::Finished, None),
            (ScanStep::Releasing(_), ScanEvent::Error(_)) => (ScanStep::Finished, None),
            (step, _) => (step, None),
        }
    }
}

/// A scan reports success exactly when the reader it listens to reports a match, and it
/// stops listening then.
pub proof fn law_success_needs_a_match(step: StepView, event: EventView)
    ensures
        step.report(event) == Some(ResultView::Success) <==> {
            &&& step is Listening
            &&& event is Signal
            &&& event->Signal_0 == "verify-match"@
        },
        step.report(event) == Some(ResultView::Success) ==> step.after(event) is Releasing,
{
}

proof fn lemma_released(device: Seq<char>, username: Seq<char>, events: Seq<EventView>)
    requires
        StepView::Releasing(device).possible(username, events),
    ensures
        ({
            let step = StepView::Releasing(device).after_all(events);
            let calls = StepView::Releasing(device).calls(username, events);
            ||| events.len() == 0 && calls.len() == 0 && step == StepView::Releasing(device)
            ||| events.len() == 1 && calls == seq![CallView::Release(device)] && step
                == StepView::Finished
        }),
{
    if events.len() > 0 {
        reveal_with_fuel(StepView::possible, 2);
        reveal_with_fuel(StepView::calls, 2);
        reveal_with_fuel(StepView::after_all, 2);
        assert(StepView::Releasing(device).calls(username, events) =~= seq![
            CallView::Release(device),
        ]);
    }
}

proof fn lemma_listened(device: Seq<char>, username: Seq<char>, events: Seq<EventView>)
    requires
        StepView::Listening(device).possible(username, events),
    ensures
        ({
            let step = StepView::Listening(device).after_all(events);
            let calls = StepView::Listening(device).calls(username, events);
            &&& step == StepView::Listening(device) || step == StepView::Releasing(device) || step
                == StepView::Finished
            &&& calls.len() == events.len()
            &&& calls.len() > 0 ==> calls[0] == CallView::AwaitSignal
            &&& forall|i: int|
                0 <= i < calls.len() ==> #[trigger] calls[i] == CallView::AwaitSignal || (calls[i]
                    == CallView::Release(device) && i == calls.len() - 1)
            &&& step is Finished <==> calls.len() > 0 && calls.last() == CallView::Release(device)
        }),
    decreases events.len(),
{
    if events.len() > 0 {
        let next = StepView::Listening(device).after(events[0]);
        let rest = events.drop_first();
        let calls = StepView::Listening(device).calls(username, events);
        assert(calls =~= seq![CallView::AwaitSignal] + next.calls(username, rest));
        if next is Listening {
            lemma_listened(device, username, rest);
        } else {
            lemma_released(device, username, rest);
        }
        assert forall|i: int| 0 <= i < calls.len() implies #[trigger] calls[i]
            == CallView::AwaitSignal || (calls[i] == CallView::Release(device) && i == calls.len()
            - 1) by {
            if i > 0 {
                assert(calls[i] == next.calls(username, rest)[i - 1]);
            }
        }
        if rest.len() > 0 {
            assert(calls.last() == next.calls(username, rest).last());
        }
    }
}

proof fn lemma_over(step: StepView, username: Seq<char>, events: Seq<EventView>)
    requires
        step.is_over(),
        step.possible(username, events),
    ensures
        events.len() == 0,
{
}

/// The calls of a scan come in one order: the device is found, claimed for the user, started
/// and subscribed to, each once and each only after the one before went well; then its signals
/// are awaited, and last it is released. Every call is for the device that was found. The scan
/// has failed exactly when one of the first four calls gave an error, and has ended well exactly
/// when its last call was the release.
pub proof fn law_scan_calls_come_in_order(username: Seq<char>, events: Seq<EventView>)
    requires
        StepView::Finding.possible(username, events),
    ensures
        ({
            let step = StepView::Finding.after_all(events);
            let calls = StepView::Finding.calls(username, events);
            let n = calls.len();
            let device = events[0]->Device_0;
            &&& n == events.len()
            &&& n >= 1 ==> calls[0] == CallView::FindDevice
            &&& n >= 2 ==> events[0] is Device && calls[1] == CallView::Claim(device, username)
            &&& n >= 3 ==> events[1] is Returned && calls[2] == CallView::VerifyStart(device)
            &&& n >= 4 ==> events[2] is Returned && calls[3] == CallView::Subscribe(device)
            &&& n >= 5 ==> events[3] is Returned && calls[4] == CallView::AwaitSignal
            &&& forall|i: int|
                4 <= i < n ==> #[trigger] calls[i] == CallView::AwaitSignal || (calls[i]
                    == CallView::Release(device) && i == n - 1)
            &&& step is Failed <==> 1 <= n <= 4 && events.last() is Error
            &&& step matches StepView::Failed(error) ==> events.last() == EventView::Error(error)
            &&& step is Finished <==> n >= 5 && calls.last() == CallView::Release(device)
        }),
{
    reveal_with_fuel(StepView::possible, 5);
    reveal_with_fuel(StepView::calls, 5);
    reveal_with_fuel(StepView::after_all, 5);
    let calls = StepView::Finding.calls(username, events);
    if events.len() >= 1 {
        let rest1 = events.drop_first();
        let device = events[0]->Device_0;
        if events[0] is Error {
            lemma_over(StepView::Failed(events[0]->Error_0), username, rest1);
        } else if events.len() >= 2 {
            let rest2 = rest1.drop_first();
            if events[1] is Error {
                lemma_over(StepView::Failed(events[1]->Error_0), username, rest2);
            } else if events.len() >= 3 {
                let rest3 = rest2.drop_first();
                if events[2] is Error {
                    lemma_over(StepView::Failed(events[2]->Error_0), username, rest3);
                } else if events.len() >= 4 {
                    let rest4 = rest3.drop_first();
                    if events[3] is Error {
                        lemma_over(StepView::Failed(events[3]->Error_0), username, rest4);
                    } else {
                        lemma_listened(device, username, rest4);
                        let heard = StepView::Listening(device).calls(username, rest4);
                        assert(calls =~= seq![
                            CallView::FindDevice,
                            CallView::Claim(device, username),
                            CallView::VerifyStart(device),
                            CallView::Subscribe(device),
                        ] + heard);
                        assert(forall|i: int| 4 <= i < calls.len() ==> calls[i] == heard[i - 4]);
                    }
                }
            }
        }
    }
}

/// A reader that was listened to is always released, the same one that was claimed: its scan
/// never fails, and ends only with its release. A scan that ended well claimed the device for
/// the user, listened to it, and released it exactly once, as its last call. A scan that failed
/// ended with the error of its last call, and released nothing.
pub proof fn law_listened_reader_is_released(username: Seq<char>, events: Seq<EventView>)
    requires
        StepView::Finding.possible(username, events),
    ensures
        ({
            let step = StepView::Finding.after_all(events);
            let calls = StepView::Finding.calls(username, events);
            let device = events[0]->Device_0;
            let released = CallView::Release(device);
            &&& calls.contains(CallView::AwaitSignal) ==> {
                &&& !(step is Failed)
                &&& step is Finished <==> calls.last() == released
            }
            &&& step is Finished ==> {
                &&& calls[1] == CallView::Claim(device, username)
                &&& events[1] is Returned
                &&& calls.contains(CallView::AwaitSignal)
                &&& calls.last() == released
                &&& forall|i: int|
                    0 <= i < calls.len() && #[trigger] calls[i] is Release ==> i == calls.len() - 1
            }
            &&& step matches StepView::Failed(error) ==> {
                &&& events.last() == EventView::Error(error)
                &&& forall|i: int| 0 <= i < calls.len() ==> !(#[trigger] calls[i] is Release)
            }
        }),
{
    law_scan_calls_come_in_order(username, events);
    let calls = StepView::Finding.calls(username, events);
    if StepView::Finding.after_all(events) is Finished {
        assert(calls[4] == CallView::AwaitSignal);
    }
}

/// Once a scan is on its way out it tells the dialog nothing more.
pub proof fn law_released_scan_is_silent(step: StepView, events: Seq<EventView>)
    requires
        step is Releasing || step.is_over(),
    ensures
        step.reports(events) == Seq::<ResultView>::empty(),
        step.after_all(events) is Releasing || step.after_all(events).is_over(),
    decreases events.len(),
{
    if events.len() > 0 {
        law_released_scan_is_silent(step.after(events[0]), events.drop_first());
    }
}

proof fn lemma_ending_is_kept(step: StepView, events: Seq<EventView>)
    requires
        step is Releasing || step.is_over(),
    ensures
        step is Failed ==> step.after_all(events) == step,
        !(step is Failed) ==> step.after_all(events) is Releasing || step.after_all(
            events,
        ) is Finished,
    decreases events.len(),
{
    if events.len() > 0 {
        lemma_ending_is_kept(step.after(events[0]), events.drop_first());
    }
}

/// A scan that reported success is on its way out or has ended well. So one that ended in an
/// error reported none, whatever happened.
pub proof fn law_failed_scan_reported_no_success(step: StepView, events: Seq<EventView>)
    ensures
        step.reports(events).contains(ResultView::Success) ==> step.after_all(events) is Releasing
            || step.after_all(events) is Finished,
        step.after_all(events) is Failed ==> !step.reports(events).contains(ResultView::Success),
    decreases events.len(),
{
    if events.len() > 0 {
        let next = step.after(events[0]);
        let rest = events.drop_first();
        let told = next.reports(rest);
        if next is Releasing || next.is_over() {
            law_released_scan_is_silent(next, rest);
            lemma_ending_is_kept(next, rest);
        } else {
            law_failed_scan_reported_no_success(next, rest);
        }
        if step.reports(events).contains(ResultView::Success) && step.report(events[0]) != Some(
            ResultView::Success,
        ) {
            let i = choose|i: int|
                0 <= i < step.reports(events).len() && step.reports(events)[i]
                    == ResultView::Success;
            if step.report(events[0]) is Some {
                assert(told[i - 1] == ResultView::Success);
            } else {
                assert(told[i] == ResultView::Success);
            }
        }
    }
}

/// However the reader behaves, a scan reports success at most once, as the last thing it
/// reports.
pub proof fn law_success_is_the_last_report(step: StepView, events: Seq<EventView>)
    ensures
        forall|i: int|
            0 <= i < step.reports(events).len() - 1 ==> #[trigger] step.reports(events)[i]
                != ResultView::Success,
    decreases events.len(),
{
    if events.len() > 0 {
        let next = step.after(events[0]);
        let rest = next.reports(events.drop_first());
        law_success_is_the_last_report(next, events.drop_first());
        if step.report(events[0]) is Some {
            let first = step.report(events[0])->0;
            if first == ResultView::Success {
                law_released_scan_is_silent(next, events.drop_first());
            }
            assert forall|i: int| 0 <= i < step.reports(events).len() - 1 implies #[trigger]
            step.reports(events)[i] != ResultView::Success by {
                if i > 0 {
                    assert(step.reports(events)[i] == rest[i - 1]);
                }
            }
        }
    }
}

/// A listening scan goes on listening until the reader reports a match, says that it stops, or
/// falls silent; then, and only then, the device that it listened to is released.
pub proof fn law_listening_ends_with_the_reader(
    device: Seq<char>,
    result: Seq<char>,
    keep_going: bool,
    event: EventView,
)
    ensures
        ({
            let next = StepView::Listening(device).after(EventView::Signal(result, keep_going));
            &&& next == StepView::Releasing(device) <==> result == "verify-match"@ || !keep_going
            &&& next == StepView::Listening(device) <==> result != "verify-match"@ && keep_going
        }),
        StepView::Listening(device).after(EventView::StreamEnded) == StepView::Releasing(device),
        !(event is Signal) && !(event is StreamEnded) ==> StepView::Listening(device).after(event)
            == StepView::Listening(device),
{
}

/// Up to the subscription a call that went well leads to the next one for the same device, and
/// one that failed ends the scan with its error. The release ends the scan well, however it
/// goes. What a step does not wait for changes nothing, and nothing changes a scan that is over.
pub proof fn law_scan_goes_step_by_step(device: Seq<char>, text: Seq<char>, event: EventView)
    ensures
        StepView::Finding.after(EventView::Device(device)) == StepView::Claiming(device),
        StepView::Claiming(device).after(EventView::Returned) == StepView::Starting(device),
        StepView::Starting(device).after(EventView::Returned) == StepView::Subscribing(device),
        StepView::Subscribing(device).after(EventView::Returned) == StepView::Listening(device),
        StepView::Releasing(device).after(EventView::Returned) == StepView::Finished,
        StepView::Finding.after(EventView::Error(text)) == StepView::Failed(text),
        StepView::Claiming(device).after(EventView::Error(text)) == StepView::Failed(text),
        StepView::Starting(device).after(EventView::Error(text)) == StepView::Failed(text),
        StepView::Subscribing(device).after(EventView::Error(text)) == StepView::Failed(text),
        StepView::Releasing(device).after(EventView::Error(text)) == StepView::Finished,
        !(event is Device) && !(event is Error) ==> StepView::Finding.after(event)
            == StepView::Finding,
        !(event is Returned) && !(event is Error) ==> {
            &&& StepView::Claiming(device).after(event) == StepView::Claiming(device)
            &&& StepView::Starting(device).after(event) == StepView::Starting(device)
            &&& StepView::Subscribing(device).after(event) == StepView::Subscribing(device)
            &&& StepView::Releasing(device).after(event) == StepView::Releasing(device)
        },
        StepView::Finished.after(event) == StepView::Finished,
        StepView::Failed(text).after(event) == StepView::Failed(text),
{
}

/// Every step needs one call, for the device that it holds, and the claim is made for the user.
pub proof fn law_every_scan_step_has_its_call(
    device: Seq<char>,
    username: Seq<char>,
    error: Seq<char>,
)
    ensures
        StepView::Finding.call(username) == CallView::FindDevice,
        StepView::Claiming(device).call(username) == CallView::Claim(device, username),
        StepView::Starting(device).call(username) == CallView::VerifyStart(device),
        StepView::Subscribing(device).call(username) == CallView::Subscribe(device),
        StepView::Listening(device).call(username) == CallView::AwaitSignal,
        StepView::Releasing(device).call(username) == CallView::Release(device),
        StepView::Finished.call(username) == CallView::End(Ok(())),
        StepView::Failed(error).call(username) == CallView::End(Err(error)),
{
}

/// What the dialog is told: that the reader was claimed, and every result of a reader that is
/// listened to, whether or not the reader goes on; a result that is not known by name is passed
/// on as it came. Nothing else is told.
pub proof fn law_reader_is_quoted(
    device: Seq<char>,
    result: Seq<char>,
    keep_going: bool,
    step: StepView,
    event: EventView,
)
    ensures
        StepView::Claiming(device).report(EventView::Returned) == Some(
            ResultView::FingerprintStatus("Reader claimed. Scan finger..."@),
        ),
        ({
            let told = StepView::Listening(device).report(EventView::Signal(result, keep_going));
            &&& result == "verify-match"@ ==> told == Some(ResultView::Success)
            &&& result == "verify-no-match"@ ==> told == Some(
                ResultView::FingerprintStatus("Failed match. Try again."@),
            )
            &&& result == "verify-swipe-too-short"@ ==> told == Some(
                ResultView::FingerprintStatus("Swipe too short. Try again."@),
            )
            &&& result != "verify-match"@ && result != "verify-no-match"@ && result
                != "verify-swipe-too-short"@ ==> told == Some(
                ResultView::FingerprintStatus("Retry scan: "@ + result),
            )
        }),
        step.report(event) is Some <==> {
            ||| step is Claiming && event is Returned
            ||| step is Listening && event is Signal
        },
{
    reveal_strlit("verify-match");
    reveal_strlit("verify-no-match");
    reveal_strlit("verify-swipe-too-short");
    assert("verify-match"@.len() == 12);
    assert("verify-no-match"@.len() == 15);
    assert("verify-swipe-too-short"@.len() == 22);
}

/// The views of a scan show its steps, its events, its calls and their texts as they are.
pub proof fn law_scan_views_show_everything(text: String, other: String, flag: bool)
    ensures
        ScanStep::Finding@ == StepView::Finding,
        ScanStep::Claiming(text)@ == StepView::Claiming(text@),
        ScanStep::Starting(text)@ == StepView::Starting(text@),
        ScanStep::Subscribing(text)@ == StepView::Subscribing(text@),
        ScanStep::Listening(text)@ == StepView::Listening(text@),
        ScanStep::Releasing(text)@ == StepView::Releasing(text@),
        ScanStep::Finished@ == StepView::Finished,
        ScanStep::Failed(text)@ == StepView::Failed(text@),
        ScanEvent::Device(text)@ == EventView::Device(text@),
        ScanEvent::Returned@ == EventView::Returned,
        ScanEvent::Signal(text, flag)@ == EventView::Signal(text@, flag),
        ScanEvent::Unreadable@ == EventView::Unreadable,
        ScanEvent::StreamEnded@ == EventView::StreamEnded,
        ScanEvent::Error(text)@ == EventView::Error(text@),
        ScanCall::FindDevice@ == CallView::FindDevice,
        (ScanCall::Claim { device: text, username: other })@ == CallView::Claim(text@, other@),
        ScanCall::VerifyStart(text)@ == CallView::VerifyStart(text@),
        ScanCall::Subscribe(text)@ == CallView::Subscribe(text@),
        ScanCall::AwaitSignal@ == CallView::AwaitSignal,
        ScanCall::Release(text)@ == CallView::Release(text@),
        ScanCall::End(Ok(()))@ == CallView::End(Ok(())),
        ScanCall::End(Err(text))@ == CallView::End(Err(text@)),
{
}

} // verus!
