//! What keys and clicks mean to the dialog.

use vstd::prelude::*;
use crate::message::{AppMessage, MessageView};

verus! {

/// A key, as far as the dialog tells keys apart.
#[derive(Clone, Copy, Debug, PartialEq, Eq, Structural)]
pub enum KeyKind {
    Tab,
    Escape,
    Enter,
    Other,
}

/// A control that the keyboard can be on.
#[derive(Clone, Copy, Debug, PartialEq, Eq, Structural)]
pub enum Control {
    Password,
    Verify,
    Cancel,
}

/// Which controls say that the keyboard is on them.
#[derive(Clone, Copy, Debug, PartialEq, Eq, Structural)]
pub struct Focus {
    pub password: bool,
    pub verify: bool,
    pub cancel: bool,
}

/// What a key does.
#[derive(Debug, PartialEq, Eq)]
pub enum KeyOutcome {
    /// The keyboard moves from one control to another.
    MoveFocus { from: Control, to: Control },
    /// The dialog gets this message.
    Emit(AppMessage),
    /// The password box gets the key.
    Route,
}

/// A `KeyOutcome`, its message taken by its view.
pub enum OutcomeView {
    MoveFocus(Control, Control),
    Emit(MessageView),
    Route,
}

impl View for KeyOutcome {
    type V = OutcomeView;

    open spec fn view(&self) -> OutcomeView {
        match self {
            KeyOutcome::MoveFocus { from, to } => OutcomeView::MoveFocus(*from, *to),
            KeyOutcome::Emit(msg) => OutcomeView::Emit(msg@),
            KeyOutcome::Route => OutcomeView::Route,
        }
    }
}

impl Focus {
    /// From where and to where the Tab key moves the keyboard: password, verify, cancel, and
    /// round again.
    pub open spec fn tab_move(self) -> (Control, Control) {
        if self.password {
            (Control::Password, Control::Verify)
        } else if self.verify {
            (Control::Verify, Control::Cancel)
        } else {
            (Control::Cancel, Control::Password)
        }
    }

    /// `control` is said to have the keyboard, or not to have it.
    pub open spec fn with(self, control: Control, on: bool) -> Focus {
        match control {
            Control::Password => Focus { password: on, ..self },
            Control::Verify => Focus { verify: on, ..self },
            Control::Cancel => Focus { cancel: on, ..self },
        }
    }

    /// After the Tab key.
    pub open spec fn tabbed(self) -> Focus {
        self.with(self.tab_move().0, false).with(self.tab_move().1, true)
    }

    /// The keyboard is on this control alone.
    pub open spec fn only(control: Control) -> Focus {
        (Focus { password: false, verify: false, cancel: false }).with(control, true)
    }
}

/// What a key does. Only a fresh press of the three keys that the dialog knows does anything
/// of its own; Enter only from the password box.
pub open spec fn key_meaning(key: KeyKind, pressed: bool, repeat: bool, focus: Focus) -> OutcomeView {
    if !pressed || repeat {
        OutcomeView::Route
    } else {
        match key {
            KeyKind::Tab => OutcomeView::MoveFocus(focus.tab_move().0, focus.tab_move().1),
            KeyKind::Escape => OutcomeView::Emit(MessageView::Cancel),
            KeyKind::Enter => if focus.password {
                OutcomeView::Emit(MessageView::PasswordVerify)
            } else {
                OutcomeView::Route
            },
            KeyKind::Other => OutcomeView::Route,
        }
    }
}

/// Decides what a key does.
pub fn handle_key_input(key: KeyKind, pressed: bool, repeat: bool, focus: Focus) -> (outcome:
    KeyOutcome)
    ensures
        outcome@ == key_meaning(key, pressed, repeat, focus),
{
    if pressed && !repeat {
        match key {
            KeyKind::Tab => {
                return if focus.password {
                    KeyOutcome::MoveFocus { from: Control::Password, to: Control::Verify }
                } else if focus.verify {
                    KeyOutcome::MoveFocus { from: Control::Verify, to: Control::Cancel }
                } else {
                    KeyOutcome::MoveFocus { from: Control::Cancel, to: Control::Password }
                };
            },
            KeyKind::Escape => {
                return KeyOutcome::Emit(AppMessage::Cancel);
            },
            KeyKind::Enter => {
                if focus.password {
                    return KeyOutcome::Emit(AppMessage::PasswordVerify);
                }
            },
            KeyKind::Other => {},
        }
    }
    KeyOutcome::Route
}

/// A control that a click is offered to.
#[derive(Clone, Copy, Debug, PartialEq, Eq, Structural)]
pub enum ClickTarget {
    Verify,
    Cancel,
    Fingerprint,
    Password,
}

/// What follows when a click was offered to a control.
#[derive(Debug, PartialEq, Eq)]
pub enum ClickStep {
    /// The dialog gets this message.
    Emit(AppMessage),
    /// The click is offered to this control next.
    Offer(ClickTarget),
    /// Nobody is left to offer it to.
    Done,
}

/// A `ClickStep`, its message taken by its view.
pub enum ClickView {
    Emit(MessageView),
    Offer(ClickTarget),
    Done,
}

impl View for ClickStep {
    type V = ClickView;

    open spec fn view(&self) -> ClickView {
        match self {
            ClickStep::Emit(msg) => ClickView::Emit(msg@),
            ClickStep::Offer(target) => ClickView::Offer(*target),
            ClickStep::Done => ClickView::Done,
        }
    }
}

/// What follows when a click was offered to `target`, `clicked` telling whether that control
/// took it as a click. The buttons come in turn, the password box last.
pub open spec fn click_meaning(target: ClickTarget, clicked: bool) -> ClickView {
    match target {
        ClickTarget::Verify => if clicked {
            ClickView::Emit(MessageView::PasswordVerify)
        } else {
            ClickView::Offer(ClickTarget::Cancel)
        },
        ClickTarget::Cancel => if clicked {
            ClickView::Emit(MessageView::Cancel)
        } else {
            ClickView::Offer(ClickTarget::Fingerprint)
        },
        ClickTarget::Fingerprint => if clicked {
            ClickView::Emit(MessageView::FingerprintScanStart)
        } else {
            ClickView::Offer(ClickTarget::Password)
        },
        ClickTarget::Password => ClickView::Done,
    }
}

/// The control that a click is offered to first.
pub fn first_target() -> (target: ClickTarget)
    ensures
        target == ClickTarget::Verify,
{
    ClickTarget::Verify
}

/// Decides what follows when a click was offered to `target`.
pub fn handle_click(target: ClickTarget, clicked: bool) -> (step: ClickStep)
    ensures
        step@ == click_meaning(target, clicked),
{
    match target {
        ClickTarget::Verify => if clicked {
            ClickStep::Emit(AppMessage::PasswordVerify)
        } else {
            ClickStep::Offer(ClickTarget::Cancel)
        },
        ClickTarget::Cancel => if clicked {
            ClickStep::Emit(AppMessage::Cancel)
        } else {
            ClickStep::Offer(ClickTarget::Fingerprint)
        },
        ClickTarget::Fingerprint => if clicked {
            ClickStep::Emit(AppMessage::FingerprintScanStart)
        } else {
            ClickStep::Offer(ClickTarget::Password)
        },
        ClickTarget::Password => ClickStep::Done,
    }
}

/// Whether the password box loses the keyboard: on a press that lands elsewhere.
pub fn leaves_password(pressed: bool, on_password: bool) -> (leaves: bool)
    ensures
        leaves == (pressed && !on_password),
{
    pressed && !on_password
}

/// The Tab key goes round: three presses bring the keyboard back to where it was.
pub proof fn law_tab_goes_round(control: Control)
    ensures
        Focus::only(control).tabbed().tabbed().tabbed() == Focus::only(control),
        Focus::only(control).tabbed() != Focus::only(control),
{
}

/// Escape cancels from wherever the keyboard is.
pub proof fn law_escape_always_cancels(focus: Focus)
    ensures
        key_meaning(KeyKind::Escape, true, false, focus) == OutcomeView::Emit(MessageView::Cancel),
{
}

/// The messages that one click sends when it is offered to the controls in turn, `clicked`
/// telling which of them take it as a click.
pub open spec fn click_messages(
    target: ClickTarget,
    clicked: spec_fn(ClickTarget) -> bool,
    rounds: nat,
) -> Seq<MessageView>
    decreases rounds,
{
    if rounds == 0 {
        seq![]
    } else {
        match click_meaning(target, clicked(target)) {
            ClickView::Emit(msg) => seq![msg],
            ClickView::Offer(next) => click_messages(next, clicked, (rounds - 1) as nat),
            ClickView::Done => seq![],
        }
    }
}

/// A click sends at most one message, that of the first button that takes it, and is offered
/// to no more than the four controls.
pub proof fn law_click_sends_one_message(clicked: spec_fn(ClickTarget) -> bool, more: nat)
    ensures
        click_messages(ClickTarget::Verify, clicked, 4 + more) == if clicked(ClickTarget::Verify) {
            seq![MessageView::PasswordVerify]
        } else if clicked(ClickTarget::Cancel) {
            seq![MessageView::Cancel]
        } else if clicked(ClickTarget::Fingerprint) {
            seq![MessageView::FingerprintScanStart]
        } else {
            Seq::<MessageView>::empty()
        },
{
    reveal_with_fuel(click_messages, 5);
}

/// The Tab key moves the keyboard on from where it is: off the password box to the verify
/// button, off that to the cancel button, and from anywhere else to the password box.
pub proof fn law_tab_moves_on(focus: Focus)
    ensures
        ({
            let moved = key_meaning(KeyKind::Tab, true, false, focus);
            &&& focus.password ==> moved == OutcomeView::MoveFocus(
                Control::Password,
                Control::Verify,
            )
            &&& !focus.password && focus.verify ==> moved == OutcomeView::MoveFocus(
                Control::Verify,
                Control::Cancel,
            )
            &&& !focus.password && !focus.verify ==> moved == OutcomeView::MoveFocus(
                Control::Cancel,
                Control::Password,
            )
        }),
{
}

/// Enter verifies exactly when the keyboard is on the password box. Every other key, every
/// repeated one and every key that is let go is left to the password box.
pub proof fn law_other_keys_are_typed(key: KeyKind, pressed: bool, repeat: bool, focus: Focus)
    ensures
        focus.password ==> key_meaning(KeyKind::Enter, true, false, focus) == OutcomeView::Emit(
            MessageView::PasswordVerify,
        ),
        !focus.password ==> key_meaning(KeyKind::Enter, true, false, focus) == OutcomeView::Route,
        key_meaning(KeyKind::Other, pressed, repeat, focus) == OutcomeView::Route,
        !pressed || repeat ==> key_meaning(key, pressed, repeat, focus) == OutcomeView::Route,
{
}

/// A click that a button takes sends that button's message. One that it does not take goes to
/// the next control, and ends with the password box.
pub proof fn law_click_goes_on_until_taken(clicked: bool)
    ensures
        click_meaning(ClickTarget::Verify, true) == ClickView::Emit(MessageView::PasswordVerify),
        click_meaning(ClickTarget::Cancel, true) == ClickView::Emit(MessageView::Cancel),
        click_meaning(ClickTarget::Fingerprint, true) == ClickView::Emit(
            MessageView::FingerprintScanStart,
        ),
        click_meaning(ClickTarget::Verify, false) == ClickView::Offer(ClickTarget::Cancel),
        click_meaning(ClickTarget::Cancel, false) == ClickView::Offer(ClickTarget::Fingerprint),
        click_meaning(ClickTarget::Fingerprint, false) == ClickView::Offer(ClickTarget::Password),
        click_meaning(ClickTarget::Password, clicked) == ClickView::Done,
{
}

/// The views of outcomes show every kind and every message as it is.
pub proof fn law_outcome_views_show_everything(
    msg: AppMessage,
    from: Control,
    to: Control,
    target: ClickTarget,
)
    ensures
        (KeyOutcome::MoveFocus { from, to })@ == OutcomeView::MoveFocus(from, to),
        KeyOutcome::Emit(msg)@ == OutcomeView::Emit(msg@),
        KeyOutcome::Route@ == OutcomeView::Route,
        ClickStep::Emit(msg)@ == ClickView::Emit(msg@),
        ClickStep::Offer(target)@ == ClickView::Offer(target),
        ClickStep::Done@ == ClickView::Done,
{
}

} // verus!
