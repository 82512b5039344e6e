//! Cancellation state for every cookie that the policy daemon has handed over.
//!
//! Requests queue, one window at a time, so a cancellation can arrive for a cookie
//! whose window has not opened yet, or has not finished starting. It is recorded for
//! whoever owns the cookie to consume.

use vstd::prelude::*;
use vstd::string::*;

verus! {

/// Which cookie has the window, and which cookies have a cancellation waiting.
#[derive(Debug)]
pub struct CookieState {
    pub active: Option<String>,
    pub cancelled: Vec<String>,
}

/// What a `CookieState` holds: the active cookie and the recorded cancellations in the
/// order in which they came.
#[verifier::ext_equal]
pub struct CookieModel {
    pub active: Option<Seq<char>>,
    pub cancelled: Seq<Seq<char>>,
}

impl View for CookieState {
    type V = CookieModel;

    open spec fn view(&self) -> CookieModel {
        CookieModel { active: self.active.deep_view(), cancelled: self.cancelled.deep_view() }
    }
}

/// Tells the cookies apart from `cookie`.
pub open spec fn other_than(cookie: Seq<char>) -> spec_fn(Seq<char>) -> bool {
    |c: Seq<char>| c != cookie
}

impl CookieModel {
    /// No cookie has two cancellations recorded.
    pub open spec fn wf(self) -> bool {
        self.cancelled.no_duplicates()
    }

    /// A cancellation of `cookie` is waiting to be consumed.
    pub open spec fn is_cancelled(self, cookie: Seq<char>) -> bool {
        self.cancelled.contains(cookie)
    }

    /// After `cookie` was given the window.
    pub open spec fn claimed(self, cookie: Seq<char>) -> CookieModel {
        CookieModel { active: Some(cookie), ..self }
    }

    /// After the window was given back.
    pub open spec fn released(self) -> CookieModel {
        CookieModel { active: None, ..self }
    }

    /// After a cancellation of `cookie` was recorded.
    pub open spec fn recorded(self, cookie: Seq<char>) -> CookieModel {
        if self.is_cancelled(cookie) {
            self
        } else {
            CookieModel { cancelled: self.cancelled.push(cookie), ..self }
        }
    }

    /// After a waiting cancellation of `cookie` was consumed.
    pub open spec fn taken(self, cookie: Seq<char>) -> CookieModel {
        CookieModel { cancelled: self.cancelled.remove_value(cookie), ..self }
    }

    /// After the window of `cookie` closed.
    pub open spec fn finished(self, cookie: Seq<char>) -> CookieModel {
        CookieModel { active: None, cancelled: self.cancelled.filter(other_than(cookie)) }
    }
}

impl CookieState {
    /// No window is up and nothing was cancelled.
    pub fn new() -> (st: CookieState)
        ensures
            st@ == (CookieModel { active: None, cancelled: seq![] }),
            st@.wf(),
    {
        CookieState { active: None, cancelled: Vec::new() }
    }

    /// Whether `cookie` is the one that has the window.
    pub fn is_active(&self, cookie: &str) -> (is_active: bool)
        ensures
            is_active == (self@.active == Some(cookie@)),
    {
        match &self.active {
            Some(active) => *active == cookie.to_owned(),
            None => false,
        }
    }

    /// The position of the first recorded cancellation of `cookie`.
    fn position(&self, cookie: &str) -> (at: Option<usize>)
        ensures
            match at {
                Some(i) => i < self.cancelled@.len() && self@.cancelled[i as int] == cookie@
                    && forall|k: int| 0 <= k < i ==> self@.cancelled[k] != cookie@,
                None => !self@.is_cancelled(cookie@),
            },
    {
        let wanted: String = cookie.to_owned();
        let mut i: usize = 0;
        while i < self.cancelled.len()
            invariant
                i <= self.cancelled@.len(),
                wanted@ == cookie@,
                forall|k: int| 0 <= k < i ==> self@.cancelled[k] != cookie@,
            decreases self.cancelled@.len() - i,
        {
            if self.cancelled[i] == wanted {
                return Some(i);
            }
            i += 1;
        }
        None
    }

    /// Gives the window to `cookie`.
    pub fn claim(&mut self, cookie: &str)
        ensures
            final(self)@ == old(self)@.claimed(cookie@),
    {
        self.active = Some(cookie.to_owned());
    }

    /// Takes the window back from whoever has it.
    pub fn release(&mut self)
        ensures
            final(self)@ == old(self)@.released(),
    {
        self.active = None;
    }

    /// Records a cancellation of any cookie, and answers whether that cookie is the one
    /// that has the window, so that the cancellation is to be delivered there.
    pub fn cancel_authentication(&mut self, cookie: &str) -> (is_active: bool)
        ensures
            final(self)@ == old(self)@.recorded(cookie@),
            old(self)@.wf() ==> final(self)@.wf(),
            is_active == (old(self)@.active == Some(cookie@)),
    {
        if self.position(cookie).is_none() {
            self.cancelled.push(cookie.to_owned());
            proof {
                assert(self@.cancelled =~= old(self)@.cancelled.push(cookie@));
            }
        }
        proof {
            if old(self)@.wf() {
                law_operations_keep_records_unique(old(self)@, cookie@);
            }
        }
        self.is_active(cookie)
    }

    /// Closes the window of `cookie`: nothing has the window, and nothing recorded for
    /// `cookie` is left.
    pub fn finish(&mut self, cookie: &str)
        ensures
            final(self)@ == old(self)@.finished(cookie@),
            old(self)@.wf() ==> final(self)@.wf(),
    {
        let wanted: String = cookie.to_owned();
        let ghost before = self@.cancelled;
        let ghost keep = other_than(cookie@);
        let ghost mut seen: int = 0;
        self.active = None;
        let mut i: usize = 0;
        proof {
            assert(before.take(0) =~= seq![]);
            reveal(Seq::filter);
            assert(before.take(0).filter(keep) =~= seq![]);
            assert(self@.cancelled =~= before.take(0).filter(keep) + before.skip(0));
        }
        while i < self.cancelled.len()
            invariant
                wanted@ == cookie@,
                keep == other_than(cookie@),
                self.active is None,
                0 <= seen <= before.len(),
                i == before.take(seen).filter(keep).len(),
                self@.cancelled == before.take(seen).filter(keep) + before.skip(seen),
            decreases before.len() - seen,
        {
            let ghost done = before.take(seen).filter(keep);
            let ghost now = self@.cancelled;
            proof {
                assert(now[i as int] == before[seen]);
                assert(before.take(seen + 1).drop_last() =~= before.take(seen));
                reveal(Seq::filter);
            }
            if self.cancelled[i] == wanted {
                self.cancelled.remove(i);
                proof {
                    assert(self@.cancelled =~= now.remove(i as int));
                    assert(self@.cancelled =~= done + before.skip(seen + 1));
                }
            } else {
                i += 1;
                proof {
                    assert(before.take(seen + 1).filter(keep) =~= done.push(before[seen]));
                    assert(self@.cancelled =~= done.push(before[seen]) + before.skip(seen + 1));
                }
            }
            proof {
                seen = seen + 1;
            }
        }
        proof {
            assert(seen == before.len());
            assert(before.take(seen) =~= before);
            assert(before.filter(keep) + before.skip(seen) =~= before.filter(keep));
            if old(self)@.wf() {
                law_operations_keep_records_unique(old(self)@, cookie@);
            }
        }
    }
}

/// Consumes a waiting cancellation of `cookie`, reporting whether one was there.
pub fn take_cancelled(st: &mut CookieState, cookie: &str) -> (was_there: bool)
    ensures
        was_there == old(st)@.is_cancelled(cookie@),
        final(st)@ == old(st)@.taken(cookie@),
        old(st)@.wf() ==> final(st)@.wf() && !final(st)@.is_cancelled(cookie@),
{
    proof {
        st@.cancelled.index_of_first_ensures(cookie@);
        if st@.wf() {
            law_operations_keep_records_unique(st@, cookie@);
            law_consumed_cancellation_is_gone(st@, cookie@);
        }
    }
    match st.position(cookie) {
        Some(pos) => {
            let ghost before = st@.cancelled;
            st.cancelled.remove(pos);
            proof {
                assert(st@.cancelled =~= before.remove(pos as int));
            }
            true
        },
        None => false,
    }
}

/// What can happen to the cookies, one at a time and in any order.
pub enum CookieEvent {
    Claim(Seq<char>),
    Release,
    Cancel(Seq<char>),
    Take(Seq<char>),
    Finish(Seq<char>),
}

impl CookieModel {
    /// After one event.
    pub open spec fn after(self, event: CookieEvent) -> CookieModel {
        match event {
            CookieEvent::Claim(cookie) => self.claimed(cookie),
            CookieEvent::Release => self.released(),
            CookieEvent::Cancel(cookie) => self.recorded(cookie),
            CookieEvent::Take(cookie) => self.taken(cookie),
            CookieEvent::Finish(cookie) => self.finished(cookie),
        }
    }

    /// After a series of events.
    pub open spec fn after_all(self, events: Seq<CookieEvent>) -> CookieModel
        decreases events.len(),
    {
        if events.len() == 0 {
            self
        } else {
            self.after_all(events.drop_last()).after(events.last())
        }
    }
}

proof fn lemma_remove_value(s: Seq<Seq<char>>, v: Seq<char>, other: Seq<char>)
    ensures
        s.no_duplicates() ==> s.remove_value(v).no_duplicates(),
        s.no_duplicates() ==> !s.remove_value(v).contains(v),
        other != v ==> (s.remove_value(v).contains(other) <==> s.contains(other)),
        !s.contains(other) ==> !s.remove_value(v).contains(other),
{
    s.index_of_first_ensures(v);
    if s.contains(v) {
        let at = s.index_of_first(v)->0;
        let r = s.remove(at);
        assert(forall|i: int| 0 <= i < r.len() ==> r[i] == s[if i < at { i } else { i + 1 }]);
        if other != v && s.contains(other) {
            let i = choose|i: int| 0 <= i < s.len() && s[i] == other;
            assert(r[if i < at { i } else { i - 1 }] == other);
        }
    }
}

proof fn lemma_filter_out(s: Seq<Seq<char>>, v: Seq<char>, other: Seq<char>)
    ensures
        s.no_duplicates() ==> s.filter(other_than(v)).no_duplicates(),
        !s.filter(other_than(v)).contains(v),
        other != v ==> (s.filter(other_than(v)).contains(other) <==> s.contains(other)),
        !s.contains(other) ==> !s.filter(other_than(v)).contains(other),
    decreases s.len(),
{
    let keep = other_than(v);
    reveal(Seq::filter);
    if s.len() > 0 {
        let rest = s.drop_last();
        let last = s.last();
        lemma_filter_out(rest, v, other);
        lemma_filter_out(rest, v, last);
        assert(s =~= rest.push(last));
        if s.no_duplicates() {
            assert(!rest.contains(last));
        }
        if last != v {
            let r = rest.filter(keep);
            assert(s.filter(keep) == r.push(last));
            assert forall|c: Seq<char>| r.push(last).contains(c) == (r.contains(c) || c == last) by {
                if r.contains(c) {
                    let i = choose|i: int| 0 <= i < r.len() && r[i] == c;
                    assert(r.push(last)[i] == c);
                }
                assert(r.push(last)[r.len() as int] == last);
            }
        }
        if other != v && s.contains(other) && other != last {
            let i = choose|i: int| 0 <= i < s.len() && s[i] == other;
            assert(rest[i] == other);
        }
    }
}

/// Every operation keeps the records free of duplicates.
pub proof fn law_operations_keep_records_unique(m: CookieModel, cookie: Seq<char>)
    requires
        m.wf(),
    ensures
        m.claimed(cookie).wf(),
        m.released().wf(),
        m.recorded(cookie).wf(),
        m.taken(cookie).wf(),
        m.finished(cookie).wf(),
{
    lemma_remove_value(m.cancelled, cookie, cookie);
    lemma_filter_out(m.cancelled, cookie, cookie);
}

/// No series of events records a cancellation twice.
pub proof fn law_records_stay_unique(m: CookieModel, events: Seq<CookieEvent>)
    requires
        m.wf(),
    ensures
        m.after_all(events).wf(),
    decreases events.len(),
{
    if events.len() > 0 {
        law_records_stay_unique(m, events.drop_last());
        let before = m.after_all(events.drop_last());
        match events.last() {
            CookieEvent::Claim(cookie) => law_operations_keep_records_unique(before, cookie),
            CookieEvent::Release => {},
            CookieEvent::Cancel(cookie) => law_operations_keep_records_unique(before, cookie),
            CookieEvent::Take(cookie) => law_operations_keep_records_unique(before, cookie),
            CookieEvent::Finish(cookie) => law_operations_keep_records_unique(before, cookie),
        }
    }
}

/// A consumed cancellation is gone: it is acted on once.
pub proof fn law_consumed_cancellation_is_gone(m: CookieModel, cookie: Seq<char>)
    requires
        m.wf(),
    ensures
        !m.taken(cookie).is_cancelled(cookie),
{
    lemma_remove_value(m.cancelled, cookie, cookie);
}

/// A cancellation survives every ordering: whatever happens after it, it waits until its
/// own cookie consumes it or closes. Claiming the cookie, claiming others, cancelling,
/// and the windows of other cookies opening and closing do not lose it.
pub proof fn law_cancellation_survives_every_ordering(
    m: CookieModel,
    cookie: Seq<char>,
    events: Seq<CookieEvent>,
)
    requires
        forall|i: int|
            0 <= i < events.len() ==> #[trigger] events[i] != CookieEvent::Take(cookie) && events[i]
                != CookieEvent::Finish(cookie),
    ensures
        m.recorded(cookie).after_all(events).is_cancelled(cookie),
    decreases events.len(),
{
    let start = m.recorded(cookie);
    if events.len() == 0 {
        assert(m.cancelled.push(cookie).last() == cookie);
    } else {
        let rest = events.drop_last();
        assert(forall|i: int| 0 <= i < rest.len() ==> rest[i] == events[i]);
        law_cancellation_survives_every_ordering(m, cookie, rest);
        let before = start.after_all(rest);
        assert(events.last() == events[events.len() - 1]);
        match events.last() {
            CookieEvent::Claim(_) => {},
            CookieEvent::Release => {},
            CookieEvent::Cancel(other) => {
                let i = choose|i: int| 0 <= i < before.cancelled.len() && before.cancelled[i] == cookie;
                assert(before.cancelled.push(other)[i] == cookie);
            },
            CookieEvent::Take(other) => {
                lemma_remove_value(before.cancelled, other, cookie);
            },
            CookieEvent::Finish(other) => {
                lemma_filter_out(before.cancelled, other, cookie);
            },
        }
    }
}

/// A cookie that was never cancelled is never seen as cancelled, whatever happens to
/// other cookies.
pub proof fn law_only_cancelled_cookies_are_cancelled(
    m: CookieModel,
    cookie: Seq<char>,
    events: Seq<CookieEvent>,
)
    requires
        !m.is_cancelled(cookie),
        forall|i: int|
            0 <= i < events.len() ==> #[trigger] events[i] != CookieEvent::Cancel(cookie),
    ensures
        !m.after_all(events).is_cancelled(cookie),
    decreases events.len(),
{
    if events.len() > 0 {
        let rest = events.drop_last();
        assert(forall|i: int| 0 <= i < rest.len() ==> rest[i] == events[i]);
        law_only_cancelled_cookies_are_cancelled(m, cookie, rest);
        let before = m.after_all(rest);
        assert(events.last() == events[events.len() - 1]);
        match events.last() {
            CookieEvent::Claim(_) => {},
            CookieEvent::Release => {},
            CookieEvent::Cancel(_) => {},
            CookieEvent::Take(other) => {
                lemma_remove_value(before.cancelled, other, cookie);
            },
            CookieEvent::Finish(other) => {
                lemma_filter_out(before.cancelled, other, cookie);
            },
        }
    }
}

/// Consuming a cancellation undoes its recording.
pub proof fn law_taking_undoes_recording(m: CookieModel, cookie: Seq<char>)
    requires
        !m.is_cancelled(cookie),
    ensures
        m.recorded(cookie).taken(cookie) == m,
{
    let s = m.cancelled.push(cookie);
    assert(s.last() == cookie);
    s.index_of_first_ensures(cookie);
    let at = s.index_of_first(cookie)->0;
    assert(at == m.cancelled.len()) by {
        if at < m.cancelled.len() {
            assert(m.cancelled[at] == cookie);
        }
    }
    assert(s.remove(at) =~= m.cancelled);
}

/// A closed window leaves nothing behind: no cookie has the window, its own cookie has no
/// cancellation waiting, and the cancellations of all others are as they were.
pub proof fn law_finished_leaves_nothing_behind(
    m: CookieModel,
    cookie: Seq<char>,
    other: Seq<char>,
)
    ensures
        m.finished(cookie).active is None,
        !m.finished(cookie).is_cancelled(cookie),
        other != cookie ==> (m.finished(cookie).is_cancelled(other) <==> m.is_cancelled(other)),
{
    lemma_filter_out(m.cancelled, cookie, other);
}

/// Giving the window to a cookie and taking it back touch no cancellation, and recording and
/// consuming one do not touch who has the window.
pub proof fn law_window_and_cancellations_are_apart(m: CookieModel, cookie: Seq<char>)
    ensures
        m.claimed(cookie).active == Some(cookie),
        m.claimed(cookie).cancelled == m.cancelled,
        m.released().active is None,
        m.released().cancelled == m.cancelled,
        m.recorded(cookie).active == m.active,
        m.taken(cookie).active == m.active,
{
}

/// A cookie is cancelled exactly when its cancellation stands among the recorded ones. The
/// first cancellation of a cookie is recorded behind the others, and every further one changes
/// nothing.
pub proof fn law_cancellations_queue(m: CookieModel, cookie: Seq<char>)
    ensures
        m.is_cancelled(cookie) <==> exists|i: int|
            0 <= i < m.cancelled.len() && #[trigger] m.cancelled[i] == cookie,
        m.is_cancelled(cookie) ==> m.recorded(cookie) == m,
        !m.is_cancelled(cookie) ==> m.recorded(cookie).cancelled == m.cancelled + seq![cookie],
        m.recorded(cookie).is_cancelled(cookie),
        m.recorded(cookie).recorded(cookie) == m.recorded(cookie),
{
    if !m.is_cancelled(cookie) {
        assert(m.cancelled.push(cookie) =~= m.cancelled + seq![cookie]);
        assert(m.cancelled.push(cookie)[m.cancelled.len() as int] == cookie);
    }
}

/// Consuming takes out the cookie's first cancellation and nothing else, wherever it stands;
/// where there is none nothing changes.
pub proof fn law_taking_removes_one(
    active: Option<Seq<char>>,
    before: Seq<Seq<char>>,
    cookie: Seq<char>,
    after: Seq<Seq<char>>,
)
    requires
        !before.contains(cookie),
    ensures
        (CookieModel { active, cancelled: before + seq![cookie] + after }).taken(cookie) == (
        CookieModel { active, cancelled: before + after }),
        (CookieModel { active, cancelled: before }).taken(cookie) == (CookieModel {
            active,
            cancelled: before,
        }),
{
    before.index_of_first_ensures(cookie);
    let s = before + seq![cookie] + after;
    let n = before.len() as int;
    assert(s[n] == cookie);
    s.index_of_first_ensures(cookie);
    let at = s.index_of_first(cookie)->0;
    if at < n {
        assert(before[at] == cookie);
    }
    assert(s.remove(n) =~= before + after);
}

/// Closing the window of a cookie goes through the recorded cancellations one by one: it drops
/// those of the cookie and keeps the others in their order.
pub proof fn law_finishing_keeps_the_others_in_order(
    active: Option<Seq<char>>,
    cancelled: Seq<Seq<char>>,
    last: Seq<char>,
    cookie: Seq<char>,
)
    ensures
        (CookieModel { active, cancelled: seq![] }).finished(cookie) == (CookieModel {
            active: None,
            cancelled: seq![],
        }),
        ({
            let shorter = (CookieModel { active, cancelled }).finished(cookie);
            let longer = (CookieModel { active, cancelled: cancelled.push(last) }).finished(cookie);
            &&& shorter.active is None
            &&& last == cookie ==> longer == shorter
            &&& last != cookie ==> longer == (CookieModel {
                active: None,
                cancelled: shorter.cancelled.push(last),
            })
        }),
{
    reveal(Seq::filter);
    let nothing = Seq::<Seq<char>>::empty();
    assert(nothing.filter(other_than(cookie)) =~= nothing);
    assert(cancelled.push(last).drop_last() =~= cancelled);
    assert(cancelled.push(last).last() == last);
}

/// The view of the cookies shows who has the window and every recorded cancellation in its
/// place.
pub proof fn law_cookie_view_shows_everything(st: CookieState)
    ensures
        st.active is None <==> st@.active is None,
        st.active matches Some(cookie) ==> st@.active == Some(cookie@),
        st@.cancelled.len() == st.cancelled@.len(),
        forall|i: int|
            0 <= i < st.cancelled@.len() ==> #[trigger] st@.cancelled[i] == st.cancelled@[i]@,
{
}

} // verus!
