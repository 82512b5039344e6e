//! What holds of the dialog over everything that can happen to it.

use vstd::prelude::*;
use crate::dialog::{closes, AppView, EffectView, RequestView, RETRIES};
use crate::helper::{kills, slot_report, SlotEvent};
use crate::helper::{law_success_needs_the_exit_status, line_meaning, verdict};
use crate::message::{MessageView, ResultView};
use crate::request::{answers, cancelled_answer, law_answered_exactly_once, Ending};

verus! {

/// What can happen to a dialog that stands open.
pub enum DialogEvent {
    /// A message came.
    Message(MessageView),
    /// The start of the first helper went like this.
    Spawned(Result<(), Seq<char>>),
    /// The start of another helper went like this.
    Restarted(Result<(), Seq<char>>),
    /// The dialog started what it runs by itself; this is the current user.
    Started(Option<Seq<char>>),
    /// The user typed: the password box holds this now.
    Typed(Seq<char>),
}

impl AppView {
    /// After one event.
    pub open spec fn stepped(self, event: DialogEvent) -> AppView {
        match event {
            DialogEvent::Message(msg) => self.after(msg),
            DialogEvent::Spawned(outcome) => self.after_spawn(outcome),
            DialogEvent::Restarted(outcome) => self.after_restart(outcome),
            DialogEvent::Started(user) => self.started(user),
            DialogEvent::Typed(text) => AppView { password_text: text, ..self },
        }
    }

    /// What one event makes the dialog ask for.
    pub open spec fn step_effect(self, event: DialogEvent) -> EffectView {
        match event {
            DialogEvent::Message(msg) => self.effect(msg),
            DialogEvent::Started(user) => self.start_effect(user),
            _ => EffectView::Nothing,
        }
    }

    /// After a series of events.
    pub open spec fn stepped_all(self, events: Seq<DialogEvent>) -> AppView
        decreases events.len(),
    {
        if events.len() == 0 {
            self
        } else {
            self.stepped(events[0]).stepped_all(events.drop_first())
        }
    }

    /// What a series of events makes the dialog ask for, event by event.
    pub open spec fn effects(self, events: Seq<DialogEvent>) -> Seq<EffectView>
        decreases events.len(),
    {
        if events.len() == 0 {
            seq![]
        } else {
            seq![self.step_effect(events[0])] + self.stepped(events[0]).effects(events.drop_first())
        }
    }

    /// How many helpers a series of events makes the dialog ask for.
    pub open spec fn helpers_asked_for(self, events: Seq<DialogEvent>) -> nat
        decreases events.len(),
    {
        if events.len() == 0 {
            0
        } else {
            let rest = self.stepped(events[0]).helpers_asked_for(events.drop_first());
            if self.step_effect(events[0]) is SpawnHelper {
                rest + 1
            } else {
                rest
            }
        }
    }
}

/// A helper was started, or was not.
pub open spec fn concerns_helper(event: DialogEvent) -> bool {
    event is Spawned || event is Restarted
}

/// A dialog stays well formed whatever happens, and never changes whether it serves a live
/// request. Helpers are started for live requests only.
pub proof fn law_dialog_stays_well_formed(app: AppView, events: Seq<DialogEvent>)
    requires
        app.wf(),
        !app.polkit_mode ==> forall|i: int|
            0 <= i < events.len() ==> !concerns_helper(#[trigger] events[i]),
    ensures
        app.stepped_all(events).wf(),
        app.stepped_all(events).polkit_mode == app.polkit_mode,
        app.stepped_all(events).username == app.username,
        app.stepped_all(events).cookie == app.cookie,
    decreases events.len(),
{
    if events.len() > 0 {
        let rest = events.drop_first();
        assert(forall|i: int| 0 <= i < rest.len() ==> rest[i] == events[i + 1]);
        assert(!app.polkit_mode ==> !concerns_helper(events[0]));
        law_dialog_stays_well_formed(app.stepped(events[0]), rest);
    }
}

/// A live request is never simulated: not when its window opens, whatever the environment
/// asks for and whoever runs it, and not at any time later, whatever happens.
pub proof fn law_live_request_is_never_simulated(
    request: RequestView,
    env_requested: bool,
    uid: u32,
    events: Seq<DialogEvent>,
)
    ensures
        ({
            let app = AppView::opened(Some(request), env_requested, uid);
            !app.simulate_mode && !app.stepped_all(events).simulate_mode
        }),
{
    law_dialog_stays_well_formed(AppView::opened(Some(request), env_requested, uid), events);
}

/// A request is granted exactly when it is live and an attempt is reported as a success.
pub proof fn law_grant_needs_a_success(app: AppView, msg: MessageView)
    ensures
        app.effect(msg) is Grant <==> app.polkit_mode && msg == MessageView::AuthDone(
            ResultView::Success,
        ),
{
}

/// Where the messages of a live request's dialog come from.
pub enum Source {
    /// A line of the helper's output.
    HelperLine(Seq<char>),
    /// The helper's end, as `verdict` takes it.
    HelperEnded { abandoned: bool, succeeded: bool },
    /// The buttons, the keys, and a cancellation by the daemon.
    Verify,
    Scan,
    Cancel,
    /// The end of the time that a granted window stays.
    WindowTimer,
}

impl Source {
    /// The message that comes from here.
    pub open spec fn message(self) -> Option<MessageView> {
        match self {
            Source::HelperLine(line) => line_meaning(line),
            Source::HelperEnded { abandoned, succeeded } => verdict(abandoned, succeeded),
            Source::Verify => Some(MessageView::PasswordVerify),
            Source::Scan => Some(MessageView::FingerprintScanStart),
            Source::Cancel => Some(MessageView::Cancel),
            Source::WindowTimer => Some(MessageView::AuthDone(ResultView::ExitWindow)),
        }
    }
}

/// A live request is granted exactly when its helper ended with success and was not
/// abandoned, in whatever state the dialog is: nothing that the helper prints, and nothing
/// that the user does, grants it.
pub proof fn law_grant_needs_a_successful_helper(app: AppView, source: Source)
    requires
        app.polkit_mode,
    ensures
        (source.message() matches Some(msg) && app.effect(msg) is Grant) <==> source
            == (Source::HelperEnded { abandoned: false, succeeded: true }),
{
    if let Source::HelperLine(line) = source {
        law_success_needs_the_exit_status(line, false, false);
    }
}

/// With a live request the dialog asks only for what goes through the helper, and for the
/// grant. It never has the password or a finger verified in the local or the simulated way,
/// never has a result sent to itself, and never ends the program.
pub open spec fn helper_only(effect: EffectView) -> bool {
    ||| effect is Nothing
    ||| effect is SpawnHelper
    ||| effect is WriteHelper
    ||| effect is KillHelper
    ||| effect is Grant
}

/// Whatever happens, the dialog of a live request asks only for what goes through the helper:
/// nothing that it starts can report a success but a helper.
pub proof fn law_live_request_goes_through_the_helper(app: AppView, events: Seq<DialogEvent>)
    requires
        app.wf(),
        app.polkit_mode,
    ensures
        forall|i: int|
            0 <= i < app.effects(events).len() ==> helper_only(#[trigger] app.effects(events)[i]),
    decreases events.len(),
{
    if events.len() > 0 {
        let next = app.stepped(events[0]);
        let rest = events.drop_first();
        law_live_request_goes_through_the_helper(next, rest);
        assert forall|i: int| 0 <= i < app.effects(events).len() implies helper_only(
            #[trigger] app.effects(events)[i],
        ) by {
            if i > 0 {
                assert(app.effects(events)[i] == next.effects(rest)[i - 1]);
            }
        }
    }
}

/// What a dialog starts by itself depends on the current user exactly where it runs for them:
/// with a live request, or simulated, it is the same whoever that is.
pub proof fn law_user_counts_only_standalone(
    app: AppView,
    user: Option<Seq<char>>,
    other: Option<Seq<char>>,
)
    ensures
        !app.runs_for_user() ==> app.started(user) == app.started(other) && app.start_effect(user)
            == app.start_effect(other),
        app.runs_for_user() ==> {
            ||| user == other
            ||| app.start_effect(user) != app.start_effect(other)
        },
{
}

/// A standalone dialog never deals with a helper or a request.
pub proof fn law_standalone_has_no_helper(app: AppView, msg: MessageView)
    requires
        app.wf(),
        !app.polkit_mode,
    ensures
        ({
            let effect = app.effect(msg);
            &&& !(effect is SpawnHelper)
            &&& !(effect is WriteHelper)
            &&& !(effect is KillHelper)
            &&& !(effect is Grant)
        }),
        app.opening_effect() is Nothing,
{
}

/// Retries are bounded: whatever happens, the dialog asks for no more helpers than it has
/// retries left, and each one that it asks for uses one up.
pub proof fn law_retries_are_bounded(app: AppView, events: Seq<DialogEvent>)
    ensures
        app.helpers_asked_for(events) <= app.retries_left,
        app.stepped_all(events).retries_left + app.helpers_asked_for(events) == app.retries_left,
    decreases events.len(),
{
    if events.len() > 0 {
        law_retries_are_bounded(app.stepped(events[0]), events.drop_first());
    }
}

/// A request gets at most `RETRIES` helpers beside its first one, whatever happens.
pub proof fn law_request_gets_few_helpers(
    request: RequestView,
    env_requested: bool,
    uid: u32,
    events: Seq<DialogEvent>,
)
    ensures
        AppView::opened(Some(request), env_requested, uid).helpers_asked_for(events) <= RETRIES,
{
    law_retries_are_bounded(AppView::opened(Some(request), env_requested, uid), events);
}

/// Every helper is started for the user and the cookie of the request that the window was
/// opened for.
pub proof fn law_helpers_serve_the_request(app: AppView, msg: MessageView)
    ensures
        app.effect(msg) matches EffectView::SpawnHelper(username, cookie) ==> username
            == app.username && cookie == app.cookie,
        app.after(msg).username == app.username,
        app.after(msg).cookie == app.cookie,
{
}

/// A line is written only to a helper that is there. It is the password, which then leaves
/// the box.
pub proof fn law_password_goes_to_an_open_helper(app: AppView, msg: MessageView)
    ensures
        app.effect(msg) matches EffectView::WriteHelper(line) ==> {
            &&& app.helper_open
            &&& app.polkit_mode
            &&& msg == MessageView::PasswordVerify
            &&& line == app.password_text + "\n"@
            &&& app.after(msg).password_text == Seq::<char>::empty()
        },
{
}

/// After the helper failed, nothing is written until another one was started: verifying
/// says that there is none.
pub proof fn law_failed_helper_is_given_up(app: AppView, error: Seq<char>, typed: Seq<char>)
    requires
        app.polkit_mode,
        !app.status_is_success,
    ensures
        ({
            let failed = app.after(MessageView::AuthDone(ResultView::Failure(error)));
            let again = failed.stepped(DialogEvent::Typed(typed));
            &&& !failed.helper_open
            &&& failed.password_text == Seq::<char>::empty()
            &&& again.effect(MessageView::PasswordVerify) is Nothing
            &&& again.after(MessageView::PasswordVerify).status_is_error
        }),
{
}

/// While a success is shown, verifying and scanning change nothing and ask for nothing.
pub proof fn law_success_settles_the_dialog(app: AppView)
    ensures
        ({
            let done = app.after(MessageView::AuthDone(ResultView::Success));
            &&& done.status_is_success
            &&& done.after(MessageView::PasswordVerify) == done
            &&& done.effect(MessageView::PasswordVerify) is Nothing
            &&& done.after(MessageView::FingerprintScanStart) == done
            &&& done.effect(MessageView::FingerprintScanStart) is Nothing
        }),
{
}

/// A cancelled window closes, and its request is not granted.
pub proof fn law_cancel_closes_without_a_grant(app: AppView)
    ensures
        closes(MessageView::Cancel),
        !(app.effect(MessageView::Cancel) is Grant),
        app.helper_open ==> app.effect(MessageView::Cancel) is KillHelper,
{
}

/// A message has the helper taken out of its slot and killed, `held` telling whether it is
/// still there.
pub open spec fn kills_helper(app: AppView, msg: MessageView, held: bool) -> bool {
    app.effect(msg) is KillHelper && kills(held, SlotEvent::Cancelled)
}

/// The helper is still in its slot after a message.
pub open spec fn still_held(app: AppView, msg: MessageView, held: bool) -> bool {
    held && !(app.effect(msg) is KillHelper)
}

/// A cancellation closes the window and leaves the dialog as it is. A helper that is in its
/// slot is taken out and killed; a second cancellation closes again, finds the slot empty and
/// kills nothing. The end of the killed helper's output reports nothing, and no cancellation
/// answers the request.
pub proof fn law_second_cancel_kills_nothing(app: AppView, held: bool, succeeded: bool)
    requires
        held ==> app.helper_open,
    ensures
        closes(MessageView::Cancel),
        app.after(MessageView::Cancel) == app,
        kills_helper(app, MessageView::Cancel, held) == held,
        ({
            let left = still_held(app, MessageView::Cancel, held);
            let again = app.after(MessageView::Cancel);
            &&& !left
            &&& !kills_helper(again, MessageView::Cancel, left)
            &&& again.after(MessageView::Cancel) == app
            &&& slot_report(left, SlotEvent::OutputEnded { succeeded }) is None
        }),
        drawn_by(app.effect(MessageView::Cancel)) is None,
{
}

/// Only a cancellation has a helper killed, and only one that is in its slot.
pub proof fn law_only_cancel_kills(app: AppView, msg: MessageView, held: bool)
    ensures
        kills_helper(app, msg, held) <==> msg == MessageView::Cancel && app.helper_open && held,
{
}

/// What an effect means to the request in the slot.
pub open spec fn drawn_by(effect: EffectView) -> Option<Ending> {
    if effect is Grant {
        Some(Ending::Granted)
    } else {
        None
    }
}

impl AppView {
    /// The endings that a series of events brings to the request in the slot.
    pub open spec fn endings(self, events: Seq<DialogEvent>) -> Seq<Ending>
        decreases events.len(),
    {
        if events.len() == 0 {
            seq![]
        } else {
            let rest = self.stepped(events[0]).endings(events.drop_first());
            match drawn_by(self.step_effect(events[0])) {
                Some(ending) => seq![ending] + rest,
                None => rest,
            }
        }
    }
}

/// An event that reports a success.
pub open spec fn is_success(event: DialogEvent) -> bool {
    event == DialogEvent::Message(MessageView::AuthDone(ResultView::Success))
}

/// Some event of the series reports a success.
pub open spec fn has_success(events: Seq<DialogEvent>) -> bool {
    exists|i: int| 0 <= i < events.len() && is_success(#[trigger] events[i])
}

proof fn lemma_endings_are_grants(app: AppView, events: Seq<DialogEvent>)
    requires
        app.polkit_mode,
    ensures
        app.endings(events).len() > 0 <==> has_success(events),
        forall|i: int| 0 <= i < app.endings(events).len() ==> app.endings(events)[i] is Granted,
    decreases events.len(),
{
    if events.len() > 0 {
        let rest = events.drop_first();
        lemma_endings_are_grants(app.stepped(events[0]), rest);
        assert(forall|i: int| 0 <= i < rest.len() ==> rest[i] == events[i + 1]);
        if has_success(rest) {
            let i = choose|i: int| 0 <= i < rest.len() && is_success(#[trigger] rest[i]);
            assert(is_success(events[i + 1]));
        }
        if has_success(events) && !is_success(events[0]) {
            let i = choose|i: int| 0 <= i < events.len() && is_success(#[trigger] events[i]);
            assert(is_success(rest[i - 1]));
        }
        if is_success(events[0]) {
            assert(app.step_effect(events[0]) is Grant);
        } else {
            assert(drawn_by(app.step_effect(events[0])) is None);
        }
    }
}

/// Over any series of events a live request is granted once, when the first success is
/// reported: as long as none was, it has no answer; from the first one on it has the grant
/// and nothing more, whatever follows. The end of the window then adds nothing, and answers a
/// request that was not granted as cancelled.
pub proof fn law_granted_once_at_the_first_success(app: AppView, events: Seq<DialogEvent>)
    requires
        app.polkit_mode,
    ensures
        !has_success(events) ==> answers(true, app.endings(events)) == Seq::<
            Result<(), Seq<char>>,
        >::empty(),
        has_success(events) ==> answers(true, app.endings(events)) == seq![
            Ok::<(), Seq<char>>(()),
        ],
        answers(true, app.endings(events).push(Ending::Closed)) == seq![
            if has_success(events) {
                Ok::<(), Seq<char>>(())
            } else {
                cancelled_answer()
            },
        ],
{
    lemma_endings_are_grants(app, events);
    let endings = app.endings(events);
    law_answered_exactly_once(endings.push(Ending::Closed));
    if has_success(events) {
        law_answered_exactly_once(endings);
        assert(endings[0] is Granted);
        assert(endings.push(Ending::Closed)[0] == endings[0]);
    }
}

} // verus!
