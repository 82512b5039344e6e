//! The line protocol of the authentication helper.
//!
//! The helper runs one PAM conversation per process. It prints each prompt and message on
//! a line of its own, reads the answers as lines, and its exit status is the verdict.

use vstd::prelude::*;
use vstd::string::*;
use crate::message::{AppMessage, AuthResult, MessageView, ResultView};
use crate::text::{behind, starts_with, strip_prefix};

verus! {

/// The helper's program.
pub const HELPER_PROGRAM: &'static str = "/usr/lib/polkit-1/polkit-agent-helper-1";

/// What one line of the helper's output says: a prompt whose answer stays hidden or may be
/// echoed, an error, or a notice. Any other line says nothing.
pub open spec fn line_meaning(line: Seq<char>) -> Option<MessageView> {
    if let Some(prompt) = behind(line, "PAM_PROMPT_ECHO_OFF "@) {
        Some(MessageView::PromptReceived(prompt, false))
    } else if let Some(prompt) = behind(line, "PAM_PROMPT_ECHO_ON "@) {
        Some(MessageView::PromptReceived(prompt, true))
    } else if let Some(msg) = behind(line, "PAM_ERROR_MSG "@) {
        Some(MessageView::StatusReceived(msg, true))
    } else if let Some(msg) = behind(line, "PAM_TEXT_INFO "@) {
        Some(MessageView::StatusReceived(msg, false))
    } else {
        None
    }
}

/// Reads one line of the helper's output.
pub fn parse_helper_line(line: &str) -> (msg: Option<AppMessage>)
    ensures
        msg.deep_view() == line_meaning(line@),
{
    if let Some(prompt) = strip_prefix(line, "PAM_PROMPT_ECHO_OFF ") {
        Some(AppMessage::PromptReceived(prompt, false))
    } else if let Some(prompt) = strip_prefix(line, "PAM_PROMPT_ECHO_ON ") {
        Some(AppMessage::PromptReceived(prompt, true))
    } else if let Some(msg) = strip_prefix(line, "PAM_ERROR_MSG ") {
        Some(AppMessage::StatusReceived(msg, true))
    } else if let Some(msg) = strip_prefix(line, "PAM_TEXT_INFO ") {
        Some(AppMessage::StatusReceived(msg, false))
    } else {
        None
    }
}

/// The verdict of an attempt whose helper ended: `abandoned` when its process was taken
/// away to be killed, `succeeded` when it exited with success.
pub open spec fn verdict(abandoned: bool, succeeded: bool) -> Option<MessageView> {
    if abandoned {
        None
    } else if succeeded {
        Some(MessageView::AuthDone(ResultView::Success))
    } else {
        Some(MessageView::AuthDone(ResultView::Failure("Authentication failed"@)))
    }
}

/// What to report when the helper's output has ended. An attempt that was abandoned
/// deliberately owes no verdict; otherwise the exit status is the verdict.
pub fn helper_verdict(abandoned: bool, succeeded: bool) -> (msg: Option<AppMessage>)
    ensures
        msg.deep_view() == verdict(abandoned, succeeded),
{
    if abandoned {
        None
    } else if succeeded {
        Some(AppMessage::AuthDone(AuthResult::Success))
    } else {
        Some(AppMessage::AuthDone(AuthResult::Failure("Authentication failed".to_owned())))
    }
}

/// The line that hands an answer to the helper.
pub fn answer_line(answer: &str) -> (line: String)
    ensures
        line@ == answer@ + "\n"@,
{
    answer.to_owned().concat("\n")
}

/// The helper's process, until someone takes it: a cancellation, which kills it and waits for
/// it, or the end of its output, which waits for it to learn its exit status.
#[derive(Debug)]
pub struct HelperSlot<C> {
    child: Option<C>,
}

impl<C> View for HelperSlot<C> {
    type V = Option<C>;

    closed spec fn view(&self) -> Option<C> {
        self.child
    }
}

impl<C> HelperSlot<C> {
    /// The slot of a helper that was just started.
    pub fn holding(child: C) -> (slot: HelperSlot<C>)
        ensures
            slot@ == Some(child),
    {
        HelperSlot { child: Some(child) }
    }

    /// Takes the process out, if it is still there. Whoever takes it owes it a wait, a
    /// cancellation a kill before that.
    pub fn take(&mut self) -> (child: Option<C>)
        ensures
            child == old(self)@,
            final(self)@ is None,
    {
        self.child.take()
    }
}

/// What makes someone take the process out of its slot.
pub enum SlotEvent {
    /// The attempt was cancelled.
    Cancelled,
    /// The helper's output ended; `succeeded` is what its exit status says.
    OutputEnded { succeeded: bool },
}

/// What is done to the process when `event` finds it in its slot, or does not.
pub open spec fn kills(held: bool, event: SlotEvent) -> bool {
    held && event is Cancelled
}

/// What is reported when `event` finds the process in its slot, or does not.
pub open spec fn slot_report(held: bool, event: SlotEvent) -> Option<MessageView> {
    match event {
        SlotEvent::Cancelled => None,
        SlotEvent::OutputEnded { succeeded } => verdict(!held, succeeded),
    }
}

/// How often the process is killed over a series of events, each of which leaves its slot
/// empty.
pub open spec fn kill_count(held: bool, events: Seq<SlotEvent>) -> nat
    decreases events.len(),
{
    if events.len() == 0 {
        0
    } else {
        let rest = kill_count(false, events.drop_first());
        if kills(held, events[0]) {
            rest + 1
        } else {
            rest
        }
    }
}

/// How often the process is waited for over a series of events: once for each time that it
/// is taken.
pub open spec fn wait_count(held: bool, events: Seq<SlotEvent>) -> nat
    decreases events.len(),
{
    if events.len() == 0 {
        0
    } else if held {
        1 + wait_count(false, events.drop_first())
    } else {
        wait_count(false, events.drop_first())
    }
}

/// What is reported over a series of events.
pub open spec fn slot_reports(held: bool, events: Seq<SlotEvent>) -> Seq<MessageView>
    decreases events.len(),
{
    if events.len() == 0 {
        seq![]
    } else {
        let rest = slot_reports(false, events.drop_first());
        match slot_report(held, events[0]) {
            Some(msg) => seq![msg] + rest,
            None => rest,
        }
    }
}

/// An empty slot: whatever happens, nothing is killed, waited for or reported.
pub proof fn law_empty_slot_is_left_alone(events: Seq<SlotEvent>)
    ensures
        kill_count(false, events) == 0,
        wait_count(false, events) == 0,
        slot_reports(false, events) == Seq::<MessageView>::empty(),
    decreases events.len(),
{
    if events.len() > 0 {
        law_empty_slot_is_left_alone(events.drop_first());
    }
}

/// A helper is cancelled once: the first cancellation kills it, it is waited for exactly once
/// and so leaves no zombie, a second cancellation kills nothing, and the end of its output
/// finds the attempt abandoned and reports nothing.
pub proof fn law_cancelled_helper_is_killed_once(later: Seq<SlotEvent>)
    ensures
        kill_count(true, seq![SlotEvent::Cancelled] + later) == 1,
        wait_count(true, seq![SlotEvent::Cancelled] + later) == 1,
        slot_reports(true, seq![SlotEvent::Cancelled] + later) == Seq::<MessageView>::empty(),
{
    assert((seq![SlotEvent::Cancelled] + later).drop_first() =~= later);
    law_empty_slot_is_left_alone(later);
}

/// A helper whose output ended first has its exit status reported, and is waited for exactly
/// once; a cancellation that comes later kills nothing.
pub proof fn law_ended_helper_is_not_killed(succeeded: bool, later: Seq<SlotEvent>)
    ensures
        ({
            let events = seq![SlotEvent::OutputEnded { succeeded }] + later;
            &&& kill_count(true, events) == 0
            &&& wait_count(true, events) == 1
            &&& slot_reports(true, events) == seq![verdict(false, succeeded)->0]
        }),
{
    let events = seq![SlotEvent::OutputEnded { succeeded }] + later;
    assert(events.drop_first() =~= later);
    law_empty_slot_is_left_alone(later);
    assert(slot_reports(true, events) =~= seq![verdict(false, succeeded)->0]);
}

/// What the lines of a helper's output tell the dialog.
pub open spec fn line_messages(lines: Seq<Seq<char>>) -> Seq<MessageView>
    decreases lines.len(),
{
    if lines.len() == 0 {
        seq![]
    } else {
        let before = line_messages(lines.drop_last());
        match line_meaning(lines.last()) {
            Some(msg) => before.push(msg),
            None => before,
        }
    }
}

/// What one run of the helper tells the dialog: its lines in turn, and at its end its exit
/// status, unless the attempt was abandoned.
pub open spec fn run_messages(lines: Seq<Seq<char>>, abandoned: bool, succeeded: bool) -> Seq<
    MessageView,
> {
    match verdict(abandoned, succeeded) {
        Some(msg) => line_messages(lines).push(msg),
        None => line_messages(lines),
    }
}

proof fn lemma_behind(prefix: Seq<char>, rest: Seq<char>)
    ensures
        behind(prefix + rest, prefix) == Some(rest),
{
    assert((prefix + rest).take(prefix.len() as int) =~= prefix);
    assert((prefix + rest).skip(prefix.len() as int) =~= rest);
}

/// Two prefixes that differ at position `at` never begin the same line.
proof fn lemma_not_behind(prefix: Seq<char>, rest: Seq<char>, other: Seq<char>, at: int)
    requires
        0 <= at < prefix.len(),
        at < other.len(),
        prefix[at] != other[at],
    ensures
        behind(prefix + rest, other) is None,
{
    let line = prefix + rest;
    if starts_with(line, other) {
        assert(line.take(other.len() as int)[at] == line[at]);
    }
}

/// Every text of the four kinds is read back as it was written, of the kind as which it
/// was written: no kind's mark is mistaken for another's.
pub proof fn law_lines_are_read_back(text: Seq<char>)
    ensures
        line_meaning("PAM_PROMPT_ECHO_OFF "@ + text) == Some(
            MessageView::PromptReceived(text, false),
        ),
        line_meaning("PAM_PROMPT_ECHO_ON "@ + text) == Some(
            MessageView::PromptReceived(text, true),
        ),
        line_meaning("PAM_ERROR_MSG "@ + text) == Some(MessageView::StatusReceived(text, true)),
        line_meaning("PAM_TEXT_INFO "@ + text) == Some(MessageView::StatusReceived(text, false)),
{
    reveal_strlit("PAM_PROMPT_ECHO_OFF ");
    reveal_strlit("PAM_PROMPT_ECHO_ON ");
    reveal_strlit("PAM_ERROR_MSG ");
    reveal_strlit("PAM_TEXT_INFO ");
    let off = "PAM_PROMPT_ECHO_OFF "@;
    let on = "PAM_PROMPT_ECHO_ON "@;
    let error = "PAM_ERROR_MSG "@;
    let info = "PAM_TEXT_INFO "@;
    lemma_behind(off, text);
    lemma_behind(on, text);
    lemma_behind(error, text);
    lemma_behind(info, text);
    lemma_not_behind(on, text, off, 17);
    lemma_not_behind(error, text, off, 4);
    lemma_not_behind(error, text, on, 4);
    lemma_not_behind(info, text, off, 4);
    lemma_not_behind(info, text, on, 4);
    lemma_not_behind(info, text, error, 4);
}

/// A line says something exactly when it begins with one of the four marks.
pub proof fn law_only_marked_lines_speak(line: Seq<char>)
    ensures
        line_meaning(line) is Some <==> {
            ||| starts_with(line, "PAM_PROMPT_ECHO_OFF "@)
            ||| starts_with(line, "PAM_PROMPT_ECHO_ON "@)
            ||| starts_with(line, "PAM_ERROR_MSG "@)
            ||| starts_with(line, "PAM_TEXT_INFO "@)
        },
{
}

/// What the helper prints never ends an attempt: success comes only from an exit
/// status, and only when the attempt was not abandoned.
pub proof fn law_success_needs_the_exit_status(line: Seq<char>, abandoned: bool, succeeded: bool)
    ensures
        line_meaning(line) matches Some(msg) ==> !(msg is AuthDone),
        verdict(abandoned, succeeded) == Some(MessageView::AuthDone(ResultView::Success)) <==> !abandoned
            && succeeded,
{
}

proof fn lemma_lines_have_no_verdict(lines: Seq<Seq<char>>)
    ensures
        forall|i: int|
            0 <= i < line_messages(lines).len() ==> !(#[trigger] line_messages(lines)[i] is AuthDone),
    decreases lines.len(),
{
    if lines.len() > 0 {
        lemma_lines_have_no_verdict(lines.drop_last());
    }
}

/// One run of the helper ends the attempt at most once, and with its last message; a run that
/// was not abandoned always does, with success exactly where the exit status says so.
pub proof fn law_run_ends_with_its_verdict(
    lines: Seq<Seq<char>>,
    abandoned: bool,
    succeeded: bool,
)
    ensures
        ({
            let told = run_messages(lines, abandoned, succeeded);
            &&& forall|i: int| 0 <= i < told.len() && #[trigger] told[i] is AuthDone ==> i
                == told.len() - 1 && !abandoned
            &&& !abandoned ==> told.len() > 0 && told.last() == verdict(false, succeeded)->0
            &&& told.contains(MessageView::AuthDone(ResultView::Success)) <==> !abandoned
                && succeeded
        }),
{
    lemma_lines_have_no_verdict(lines);
    let told = run_messages(lines, abandoned, succeeded);
    if !abandoned {
        assert(told.last() == verdict(false, succeeded)->0);
        assert(told[told.len() - 1] == told.last());
    }
}

/// An abandoned attempt has no verdict, however its process ended; every other one has the
/// verdict of its exit status.
pub proof fn law_verdict_is_the_exit_status(succeeded: bool)
    ensures
        verdict(true, succeeded) is None,
        verdict(false, true) == Some(MessageView::AuthDone(ResultView::Success)),
        verdict(false, false) == Some(
            MessageView::AuthDone(ResultView::Failure("Authentication failed"@)),
        ),
{
}

/// The program that runs the conversation is the policy daemon's own helper.
pub proof fn law_helper_is_the_daemons_own()
    ensures
        HELPER_PROGRAM@ == "/usr/lib/polkit-1/polkit-agent-helper-1"@,
{
}

} // verus!
