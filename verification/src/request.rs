//! Requests of the policy daemon: admitted to the window one at a time, and each answered
//! once.

use vstd::prelude::*;
use vstd::string::*;
use crate::cookies::{law_cancellation_survives_every_ordering, law_taking_undoes_recording};
use crate::cookies::{take_cancelled, CookieEvent, CookieModel, CookieState};
use crate::identity::Resolution;

verus! {

/// A request to authenticate `username`. `tx_result` is where its answer goes.
pub struct GuiRequest<T> {
    pub username: String,
    pub message: String,
    pub cookie: String,
    pub tx_result: T,
}

/// The request that a call of the daemon makes: for whoever it resolved to, with the message
/// and the cookie as they came and the way back for its answer. A call that resolved to
/// nobody makes none, and is refused with the resolution's reason.
pub fn request_for<T>(r: Resolution, message: String, cookie: String, tx: T) -> (req: Result<
    GuiRequest<T>,
    String,
>)
    ensures
        match req {
            Ok(req) => r.username == Ok::<String, String>(req.username) && req.message == message
                && req.cookie == cookie && req.tx_result == tx,
            Err(text) => r.username == Err::<String, String>(text),
        },
{
    match r.username {
        Ok(username) => Ok(GuiRequest { username, message, cookie, tx_result: tx }),
        Err(text) => Err(text),
    }
}

/// What becomes of a request whose turn has come.
pub enum Admission<T> {
    /// Its window is to be opened.
    Open(GuiRequest<T>),
    /// No window: the answer, and where it goes.
    Refused(T, Result<(), String>),
}

/// A success, or a failure with its text taken as a sequence of characters.
pub open spec fn outcome_view(outcome: Result<(), String>) -> Result<(), Seq<char>> {
    match outcome {
        Ok(_) => Ok(()),
        Err(text) => Err(text@),
    }
}

/// The answer to a request that ended without a grant.
pub open spec fn cancelled_answer() -> Result<(), Seq<char>> {
    Err("Authentication cancelled"@)
}

/// The cookies after a request for `cookie` had its turn: it has the window, unless it was
/// cancelled before, in which case the cancellation is consumed and nothing has the window.
pub open spec fn admitted(m: CookieModel, cookie: Seq<char>) -> CookieModel {
    if m.is_cancelled(cookie) {
        m.claimed(cookie).taken(cookie).released()
    } else {
        m.claimed(cookie)
    }
}

/// Lets a request have its turn.
///
/// The cookie is claimed before the cancellations are looked at: one that comes later finds
/// the cookie active. The daemon may well give up on a request before its turn comes.
pub fn take_turn<T>(cookies: &mut CookieState, req: GuiRequest<T>) -> (admission: Admission<T>)
    ensures
        final(cookies)@ == admitted(old(cookies)@, req.cookie@),
        old(cookies)@.wf() ==> final(cookies)@.wf(),
        match admission {
            Admission::Open(open) => !old(cookies)@.is_cancelled(req.cookie@) && open == req,
            Admission::Refused(to, answer) => old(cookies)@.is_cancelled(req.cookie@) && to
                == req.tx_result && outcome_view(answer) == cancelled_answer(),
        },
{
    proof {
        cookies@.cancelled.index_of_first_ensures(req.cookie@);
    }
    cookies.claim(req.cookie.as_str());
    if take_cancelled(cookies, req.cookie.as_str()) {
        cookies.release();
        Admission::Refused(req.tx_result, Err("Authentication cancelled".to_owned()))
    } else {
        Admission::Open(req)
    }
}

/// What ends the wait of a request that has the window.
pub enum Ending {
    /// The authentication succeeded.
    Granted,
    /// The window is gone.
    Closed,
}

impl Ending {
    /// The answer that this ending gives a request.
    pub open spec fn answer(self) -> Result<(), Seq<char>> {
        match self {
            Ending::Granted => Ok(()),
            Ending::Closed => cancelled_answer(),
        }
    }
}

/// The answer that an ending draws from the slot, `waiting` telling whether a request is in
/// it.
pub open spec fn drawn(waiting: bool, ending: Ending) -> Option<Result<(), Seq<char>>> {
    if waiting {
        Some(ending.answer())
    } else {
        None
    }
}

/// Answers the request that has the window, if it was not answered yet: with a grant when
/// the authentication succeeded, as cancelled when the window is gone. Gives the answer and
/// where it goes.
pub fn settle<T>(slot: &mut Option<GuiRequest<T>>, ending: Ending) -> (answer: Option<
    (T, Result<(), String>),
>)
    ensures
        *final(slot) is None,
        match answer {
            Some((to, result)) => *old(slot) is Some && to == (*old(slot))->0.tx_result
                && drawn(true, ending) == Some(outcome_view(result)),
            None => drawn(*old(slot) is Some, ending) is None,
        },
{
    match slot.take() {
        Some(req) => {
            let result: Result<(), String> = match ending {
                Ending::Granted => Ok(()),
                Ending::Closed => Err("Authentication cancelled".to_owned()),
            };
            Some((req.tx_result, result))
        },
        None => None,
    }
}

/// The reply to the daemon: the answer that the request got, or that the window went away
/// without one.
pub fn daemon_reply(answer: Option<Result<(), String>>) -> (reply: Result<(), String>)
    ensures
        answer matches Some(given) ==> reply == given,
        answer is None ==> outcome_view(reply) == Err::<(), Seq<char>>("GUI closed"@),
{
    match answer {
        Some(given) => given,
        None => Err("GUI closed".to_owned()),
    }
}

/// The answers that a series of endings draws from the slot, which each of them empties.
pub open spec fn answers(waiting: bool, endings: Seq<Ending>) -> Seq<Result<(), Seq<char>>>
    decreases endings.len(),
{
    if endings.len() == 0 {
        seq![]
    } else {
        let rest = answers(false, endings.drop_first());
        match drawn(waiting, endings[0]) {
            Some(answer) => seq![answer] + rest,
            None => rest,
        }
    }
}

/// An empty slot answers nobody, whatever ends.
pub proof fn law_empty_slot_answers_nobody(endings: Seq<Ending>)
    ensures
        answers(false, endings) == Seq::<Result<(), Seq<char>>>::empty(),
    decreases endings.len(),
{
    if endings.len() > 0 {
        law_empty_slot_answers_nobody(endings.drop_first());
    }
}

/// A request is answered once, by the first ending that comes; no later one answers it
/// again. It is granted only if a success came before the window closed.
pub proof fn law_answered_exactly_once(endings: Seq<Ending>)
    requires
        endings.len() > 0,
    ensures
        answers(true, endings) == seq![endings[0].answer()],
        answers(true, endings)[0] is Ok <==> endings[0] is Granted,
{
    law_empty_slot_answers_nobody(endings.drop_first());
    assert(answers(true, endings) =~= seq![endings[0].answer()]);
}

/// The answers that a request for `cookie` gets over its life, from its turn on.
pub open spec fn request_answers(m: CookieModel, cookie: Seq<char>, endings: Seq<Ending>) -> Seq<
    Result<(), Seq<char>>,
> {
    if m.is_cancelled(cookie) {
        seq![cancelled_answer()]
    } else {
        answers(true, endings)
    }
}

/// Every request whose turn comes gets one answer and no more: as cancelled if it was
/// cancelled before, else by the first ending. Only an uncancelled one whose authentication
/// succeeded before its window was gone is granted.
pub proof fn law_every_request_is_answered(
    m: CookieModel,
    cookie: Seq<char>,
    endings: Seq<Ending>,
)
    requires
        endings.len() > 0,
    ensures
        request_answers(m, cookie, endings).len() == 1,
        request_answers(m, cookie, endings)[0] is Ok <==> !m.is_cancelled(cookie)
            && endings[0] is Granted,
        request_answers(m, cookie, endings)[0] is Err ==> request_answers(m, cookie, endings)[0]
            == cancelled_answer(),
{
    law_answered_exactly_once(endings);
}

/// A request that is cancelled while it waits for its turn never gets the window, whatever
/// else happens before its turn comes.
pub proof fn law_cancelled_request_never_opens(
    m: CookieModel,
    cookie: Seq<char>,
    events: Seq<CookieEvent>,
)
    requires
        forall|i: int|
            0 <= i < events.len() ==> #[trigger] events[i] != CookieEvent::Take(cookie) && events[i]
                != CookieEvent::Finish(cookie),
    ensures
        ({
            let now = m.recorded(cookie).after_all(events);
            now.is_cancelled(cookie) && admitted(now, cookie).active is None
        }),
{
    law_cancellation_survives_every_ordering(m, cookie, events);
}

/// A request that is refused leaves the cookies as if it had never come, but for its own
/// cancellation, which is consumed.
pub proof fn law_refusal_consumes_the_cancellation(m: CookieModel, cookie: Seq<char>)
    requires
        m.wf(),
        m.active is None,
        !m.is_cancelled(cookie),
    ensures
        admitted(m.recorded(cookie), cookie) == m,
{
    law_taking_undoes_recording(m, cookie);
    assert(m.cancelled.push(cookie).last() == cookie);
}

/// A request whose turn comes gets the window and leaves the cancellations alone, unless its
/// own stands among them: that one is consumed, and nobody has the window. A request that was
/// given the window before does not keep it.
pub proof fn law_turn_gives_the_window(m: CookieModel, cookie: Seq<char>)
    ensures
        !m.cancelled.contains(cookie) ==> admitted(m, cookie) == (CookieModel {
            active: Some(cookie),
            cancelled: m.cancelled,
        }),
        m.cancelled.contains(cookie) ==> admitted(m, cookie) == (CookieModel {
            active: None,
            cancelled: m.cancelled.remove_value(cookie),
        }),
{
}

/// A grant is answered with success, the end of the window as cancelled, and a slot that is
/// empty not at all.
pub proof fn law_ending_decides_the_answer(ending: Ending)
    ensures
        drawn(true, Ending::Granted) == Some(Ok::<(), Seq<char>>(())),
        drawn(true, Ending::Closed) == Some(Err::<(), Seq<char>>("Authentication cancelled"@)),
        drawn(false, ending) is None,
        Ending::Granted.answer() == Ok::<(), Seq<char>>(()),
        Ending::Closed.answer() == Err::<(), Seq<char>>("Authentication cancelled"@),
        cancelled_answer() == Err::<(), Seq<char>>("Authentication cancelled"@),
{
}

/// An outcome shows its success, or the text of its failure.
pub proof fn law_outcome_view_shows_everything(text: String)
    ensures
        outcome_view(Ok(())) == Ok::<(), Seq<char>>(()),
        outcome_view(Err(text)) == Err::<(), Seq<char>>(text@),
{
}

} // verus!
