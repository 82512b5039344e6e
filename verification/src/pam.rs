//! One PAM transaction: hand the password over, start, authenticate, end.
//!
//! The program around the library makes the calls that `next_call` names, and hands back how
//! each went.

use vstd::prelude::*;
use vstd::string::*;
use crate::request::outcome_view;

verus! {

/// The PAM service that backs the standalone password check.
pub const PAM_SERVICE: &'static str = "system-local-login";

/// How a transaction ended.
#[derive(Debug)]
pub enum PamEnd {
    /// The password could not be handed to PAM, and why.
    Unusable(String),
    /// PAM could not be started.
    NotStarted,
    /// PAM refused the password; the name of the code it returned.
    Refused(String),
    /// PAM accepted the password.
    Accepted,
}

/// A `PamEnd`, its texts taken as sequences of characters.
#[verifier::ext_equal]
pub enum PamEndView {
    Unusable(Seq<char>),
    NotStarted,
    Refused(Seq<char>),
    Accepted,
}

impl View for PamEnd {
    type V = PamEndView;

    open spec fn view(&self) -> PamEndView {
        match self {
            PamEnd::Unusable(why) => PamEndView::Unusable(why@),
            PamEnd::NotStarted => PamEndView::NotStarted,
            PamEnd::Refused(code) => PamEndView::Refused(code@),
            PamEnd::Accepted => PamEndView::Accepted,
        }
    }
}

impl PamEndView {
    /// What the end of a transaction means: success only where PAM accepted the password.
    pub open spec fn meaning(self) -> Result<(), Seq<char>> {
        match self {
            PamEndView::Unusable(why) => Err(why),
            PamEndView::NotStarted => Err("Failed to start PAM"@),
            PamEndView::Refused(code) => Err("Incorrect password (PAM: "@ + code + ")"@),
            PamEndView::Accepted => Ok(()),
        }
    }
}

/// The result of a transaction.
pub fn pam_result(end: &PamEnd) -> (result: Result<(), String>)
    ensures
        outcome_view(result) == end@.meaning(),
{
    match end {
        PamEnd::Unusable(why) => Err(why.clone()),
        PamEnd::NotStarted => Err("Failed to start PAM".to_owned()),
        PamEnd::Refused(code) => Err(
            "Incorrect password (PAM: ".to_owned().concat(code.as_str()).concat(")"),
        ),
        PamEnd::Accepted => Ok(()),
    }
}

/// How far a transaction has come.
#[derive(Debug)]
pub enum PamStep {
    Preparing,
    Starting,
    Authenticating,
    /// PAM has answered, and the transaction is still open.
    Ending(PamEnd),
    Ended(PamEnd),
}

/// The call that a transaction needs next.
#[derive(Debug, PartialEq, Eq)]
pub enum PamCall {
    /// Make the password ready to be handed over. An error says why it cannot be.
    Prepare,
    Start,
    /// Ask PAM. An error names the code that it returned.
    Authenticate,
    /// End the transaction with what PAM returned.
    End,
    /// The transaction is over.
    Done(Result<(), String>),
}

/// A `PamStep`, its texts taken as sequences of characters.
#[verifier::ext_equal]
pub enum PamStepView {
    Preparing,
    Starting,
    Authenticating,
    Ending(PamEndView),
    Ended(PamEndView),
}

/// A `PamCall`, its texts taken as sequences of characters.
#[verifier::ext_equal]
pub enum PamCallView {
    Prepare,
    Start,
    Authenticate,
    End,
    Done(Result<(), Seq<char>>),
}

impl View for PamStep {
    type V = PamStepView;

    open spec fn view(&self) -> PamStepView {
        match self {
            PamStep::Preparing => PamStepView::Preparing,
            PamStep::Starting => PamStepView::Starting,
            PamStep::Authenticating => PamStepView::Authenticating,
            PamStep::Ending(end) => PamStepView::Ending(end@),
            PamStep::Ended(end) => PamStepView::Ended(end@),
        }
    }
}

impl View for PamCall {
    type V = PamCallView;

    open spec fn view(&self) -> PamCallView {
        match self {
            PamCall::Prepare => PamCallView::Prepare,
            PamCall::Start => PamCallView::Start,
            PamCall::Authenticate => PamCallView::Authenticate,
            PamCall::End => PamCallView::End,
            PamCall::Done(result) => PamCallView::Done(outcome_view(*result)),
        }
    }
}

impl PamStepView {
    /// The call that the transaction needs in this step.
    pub open spec fn call(self) -> PamCallView {
        match self {
            PamStepView::Preparing => PamCallView::Prepare,
            PamStepView::Starting => PamCallView::Start,
            PamStepView::Authenticating => PamCallView::Authenticate,
            PamStepView::Ending(_) => PamCallView::End,
            PamStepView::Ended(end) => PamCallView::Done(end.meaning()),
        }
    }

    /// The step after the call returned `outcome`. PAM is asked only if it was started, and
    /// once it was asked the transaction is ended, however that goes.
    pub open spec fn after(self, outcome: Result<(), Seq<char>>) -> PamStepView {
        match (self, outcome) {
            (PamStepView::Preparing, Ok(_)) => PamStepView::Starting,
            (PamStepView::Preparing, Err(why)) => PamStepView::Ended(PamEndView::Unusable(why)),
            (PamStepView::Starting, Ok(_)) => PamStepView::Authenticating,
            (PamStepView::Starting, Err(_)) => PamStepView::Ended(PamEndView::NotStarted),
            (PamStepView::Authenticating, Ok(_)) => PamStepView::Ending(PamEndView::Accepted),
            (PamStepView::Authenticating, Err(code)) => PamStepView::Ending(
                PamEndView::Refused(code),
            ),
            (PamStepView::Ending(end), _) => PamStepView::Ended(end),
            (PamStepView::Ended(_), _) => self,
        }
    }

    /// The step after a series of outcomes.
    pub open spec fn after_all(self, outcomes: Seq<Result<(), Seq<char>>>) -> PamStepView
        decreases outcomes.len(),
    {
        if outcomes.len() == 0 {
            self
        } else {
            self.after(outcomes[0]).after_all(outcomes.drop_first())
        }
    }

    /// The calls on PAM that a series of outcomes comes from: none once it is over.
    pub open spec fn calls(self, outcomes: Seq<Result<(), Seq<char>>>) -> Seq<PamCallView>
        decreases outcomes.len(),
    {
        if outcomes.len() == 0 || self is Ended {
            seq![]
        } else {
            seq![self.call()] + self.after(outcomes[0]).calls(outcomes.drop_first())
        }
    }
}

impl PamStep {
    /// The call that the transaction needs next.
    pub fn next_call(&self) -> (call: PamCall)
        ensures
            call@ == self@.call(),
    {
        match self {
            PamStep::Preparing => PamCall::Prepare,
            PamStep::Starting => PamCall::Start,
            PamStep::Authenticating => PamCall::Authenticate,
            PamStep::Ending(_) => PamCall::End,
            PamStep::Ended(end) => PamCall::Done(pam_result(end)),
        }
    }

    /// Takes in how the call went.
    pub fn advance(self, outcome: Result<(), String>) -> (next: PamStep)
        ensures
            next@ == self@.after(outcome_view(outcome)),
    {
        match (self, outcome) {
            (PamStep::Preparing, Ok(_)) => PamStep::Starting,
            (PamStep::Preparing, Err(why)) => PamStep::Ended(PamEnd::Unusable(why)),
            (PamStep::Starting, Ok(_)) => PamStep::Authenticating,
            (PamStep::Starting, Err(_)) => PamStep::Ended(PamEnd::NotStarted),
            (PamStep::Authenticating, Ok(_)) => PamStep::Ending(PamEnd::Accepted),
            (PamStep::Authenticating, Err(code)) => PamStep::Ending(PamEnd::Refused(code)),
            (PamStep::Ending(end), _) => PamStep::Ended(end),
            (PamStep::Ended(end), _) => PamStep::Ended(end),
        }
    }
}

/// A transaction that is over stays as it is and makes no calls.
pub proof fn law_ended_transaction_is_silent(
    end: PamEndView,
    outcomes: Seq<Result<(), Seq<char>>>,
)
    ensures
        PamStepView::Ended(end).after_all(outcomes) == PamStepView::Ended(end),
        PamStepView::Ended(end).calls(outcomes) == Seq::<PamCallView>::empty(),
    decreases outcomes.len(),
{
    if outcomes.len() > 0 {
        law_ended_transaction_is_silent(end, outcomes.drop_first());
    }
}

/// How many calls a transaction makes over a series of outcomes.
pub open spec fn call_count(outcomes: Seq<Result<(), Seq<char>>>) -> int {
    if outcomes.len() >= 1 && outcomes[0] is Err {
        1
    } else if outcomes.len() >= 2 && outcomes[1] is Err {
        2
    } else if outcomes.len() >= 4 {
        4
    } else {
        outcomes.len() as int
    }
}

/// The calls of a transaction come in one order, each at most once: PAM is started only with
/// a usable password, asked only if it was started, and ended exactly once if it was asked,
/// whatever it answered; a transaction that was not started is not ended.
pub proof fn law_calls_come_in_order(outcomes: Seq<Result<(), Seq<char>>>)
    ensures
        PamStepView::Preparing.calls(outcomes) == seq![
            PamCallView::Prepare,
            PamCallView::Start,
            PamCallView::Authenticate,
            PamCallView::End,
        ].take(call_count(outcomes)),
{
    reveal_with_fuel(PamStepView::calls, 6);
    assert(PamStepView::Preparing.calls(outcomes) =~= seq![
        PamCallView::Prepare,
        PamCallView::Start,
        PamCallView::Authenticate,
        PamCallView::End,
    ].take(call_count(outcomes)));
}

/// How a transaction ends: it succeeds exactly when the password was usable, PAM was started,
/// PAM accepted it and the transaction was ended; how its end goes does not matter. A failure
/// ends it with its own reason.
pub proof fn law_success_needs_every_call(outcomes: Seq<Result<(), Seq<char>>>)
    ensures
        ({
            let step = PamStepView::Preparing.after_all(outcomes);
            let usable = outcomes.len() >= 1 && outcomes[0] is Ok;
            let started = usable && outcomes.len() >= 2 && outcomes[1] is Ok;
            let over = started && outcomes.len() >= 4;
            &&& step.call() == PamCallView::Done(Ok(())) <==> over && outcomes[2] is Ok
            &&& outcomes.len() >= 1 && !usable ==> step == PamStepView::Ended(
                PamEndView::Unusable(outcomes[0]->Err_0),
            )
            &&& usable && outcomes.len() >= 2 && !started ==> step == PamStepView::Ended(
                PamEndView::NotStarted,
            )
            &&& over && outcomes[2] is Err ==> step == PamStepView::Ended(
                PamEndView::Refused(outcomes[2]->Err_0),
            )
        }),
{
    reveal_with_fuel(PamStepView::after_all, 5);
    if outcomes.len() >= 1 {
        let rest1 = outcomes.drop_first();
        if outcomes[0] is Err {
            law_ended_transaction_is_silent(PamEndView::Unusable(outcomes[0]->Err_0), rest1);
        } else if outcomes.len() >= 2 {
            let rest2 = rest1.drop_first();
            if outcomes[1] is Err {
                law_ended_transaction_is_silent(PamEndView::NotStarted, rest2);
            } else if outcomes.len() >= 4 {
                let ending = PamStepView::Authenticating.after(outcomes[2]);
                law_ended_transaction_is_silent(
                    ending->Ending_0,
                    rest2.drop_first().drop_first(),
                );
            }
        }
    }
}

/// Where a transaction stands decides the call that it needs, and how the call went decides
/// where it stands next, in every step.
pub proof fn law_every_step_has_its_call(
    end: PamEndView,
    outcome: Result<(), Seq<char>>,
    text: Seq<char>,
)
    ensures
        PamStepView::Preparing.call() == PamCallView::Prepare,
        PamStepView::Starting.call() == PamCallView::Start,
        PamStepView::Authenticating.call() == PamCallView::Authenticate,
        PamStepView::Ending(end).call() == PamCallView::End,
        PamStepView::Preparing.after(Ok(())) == PamStepView::Starting,
        PamStepView::Preparing.after(Err(text)) == PamStepView::Ended(PamEndView::Unusable(text)),
        PamStepView::Starting.after(Ok(())) == PamStepView::Authenticating,
        PamStepView::Starting.after(Err(text)) == PamStepView::Ended(PamEndView::NotStarted),
        PamStepView::Authenticating.after(Ok(())) == PamStepView::Ending(PamEndView::Accepted),
        PamStepView::Authenticating.after(Err(text)) == PamStepView::Ending(
            PamEndView::Refused(text),
        ),
        PamStepView::Ending(end).after(outcome) == PamStepView::Ended(end),
        PamStepView::Ended(end).after(outcome) == PamStepView::Ended(end),
{
}

/// A transaction that is over gives its result: success where PAM accepted the password, and
/// else the reason, with the name of PAM's code where PAM refused it.
pub proof fn law_ended_transaction_gives_its_result(text: Seq<char>)
    ensures
        PamStepView::Ended(PamEndView::Accepted).call() == PamCallView::Done(Ok(())),
        PamStepView::Ended(PamEndView::NotStarted).call() == PamCallView::Done(
            Err("Failed to start PAM"@),
        ),
        PamStepView::Ended(PamEndView::Refused(text)).call() == PamCallView::Done(
            Err("Incorrect password (PAM: "@ + text + ")"@),
        ),
        PamStepView::Ended(PamEndView::Unusable(text)).call() == PamCallView::Done(Err(text)),
        PamEndView::Accepted.meaning() == Ok::<(), Seq<char>>(()),
        PamEndView::NotStarted.meaning() == Err::<(), Seq<char>>("Failed to start PAM"@),
        PamEndView::Refused(text).meaning() == Err::<(), Seq<char>>(
            "Incorrect password (PAM: "@ + text + ")"@,
        ),
        PamEndView::Unusable(text).meaning() == Err::<(), Seq<char>>(text),
{
}

/// The views of a transaction show its steps, its calls and its texts as they are.
pub proof fn law_pam_views_show_everything(end: PamEnd, text: String)
    ensures
        PamEnd::Unusable(text)@ == PamEndView::Unusable(text@),
        PamEnd::NotStarted@ == PamEndView::NotStarted,
        PamEnd::Refused(text)@ == PamEndView::Refused(text@),
        PamEnd::Accepted@ == PamEndView::Accepted,
        PamStep::Preparing@ == PamStepView::Preparing,
        PamStep::Starting@ == PamStepView::Starting,
        PamStep::Authenticating@ == PamStepView::Authenticating,
        PamStep::Ending(end)@ == PamStepView::Ending(end@),
        PamStep::Ended(end)@ == PamStepView::Ended(end@),
        PamCall::Prepare@ == PamCallView::Prepare,
        PamCall::Start@ == PamCallView::Start,
        PamCall::Authenticate@ == PamCallView::Authenticate,
        PamCall::End@ == PamCallView::End,
        PamCall::Done(Ok(()))@ == PamCallView::Done(Ok(())),
        PamCall::Done(Err(text))@ == PamCallView::Done(Err(text@)),
        PAM_SERVICE@ == "system-local-login"@,
{
}

} // verus!
