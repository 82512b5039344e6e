//! Captions shortened to the column they are shown in.

use vstd::prelude::*;
use vstd::string::*;
use crate::text::{characters, last_index, slice, trim_end_len};
use crate::text::{last_position, lemma_last_position, trimmed_end, whitespace};

verus! {

/// The least number of characters that a caption is ever cut to.
pub const MIN_ROOM: usize = 8;

/// How many characters a caption may have in a column with room for `room`.
pub open spec fn limit(room: nat) -> nat {
    if room < MIN_ROOM {
        MIN_ROOM as nat
    } else {
        room
    }
}

/// Where the last word of `head` that may have been broken begins: at the last space,
/// or at the end if there is none.
pub open spec fn word_cut(head: Seq<char>) -> int {
    if head.contains(' ') {
        last_position(head, ' ')
    } else {
        head.len() as int
    }
}

/// What a cut caption keeps of `text`.
pub open spec fn kept(text: Seq<char>, room: nat) -> Seq<char> {
    let head = text.take(limit(room) - 1);
    trimmed_end(head.take(word_cut(head)))
}

/// `text` as a column with room for `room` characters shows it.
pub open spec fn fitted(text: Seq<char>, room: nat) -> Seq<char> {
    if text.len() <= limit(room) {
        text
    } else {
        kept(text, room) + "…"@
    }
}

proof fn lemma_trimmed_end(s: Seq<char>)
    ensures
        trimmed_end(s).len() <= s.len(),
        trimmed_end(s) == s.take(trimmed_end(s).len() as int),
        forall|i: int| trimmed_end(s).len() <= i < s.len() ==> whitespace(#[trigger] s[i]),
    decreases s.len(),
{
    if s.len() > 0 && whitespace(s.last()) {
        let rest = s.drop_last();
        lemma_trimmed_end(rest);
        assert(rest.take(trimmed_end(rest).len() as int) =~= s.take(trimmed_end(rest).len() as int));
        assert forall|i: int| trimmed_end(s).len() <= i < s.len() implies whitespace(
            #[trigger] s[i],
        ) by {
            if i < s.len() - 1 {
                assert(rest[i] == s[i]);
            }
        }
    } else {
        assert(s =~= s.take(s.len() as int));
    }
}

/// A fitted caption is never longer than its column allows, and fitting it once more
/// changes nothing. Only the empty text is shown as nothing.
pub proof fn law_fitted_fits(text: Seq<char>, room: nat)
    ensures
        fitted(text, room).len() <= limit(room),
        fitted(fitted(text, room), room) == fitted(text, room),
        text.len() > 0 ==> fitted(text, room).len() > 0,
{
    reveal_strlit("…");
    let head = text.take(limit(room) - 1);
    if text.len() > limit(room) {
        if head.contains(' ') {
            lemma_last_position(head, ' ');
        }
        lemma_trimmed_end(head.take(word_cut(head)));
    }
}

/// A caption that is cut is never cut in the middle of a word that a space precedes:
/// what it keeps is a real beginning of the text, and the first character that it drops
/// is a blank.
pub proof fn law_cut_at_word_boundary(text: Seq<char>, room: nat)
    requires
        text.len() > limit(room),
        text.take(limit(room) - 1).contains(' '),
    ensures
        fitted(text, room) == kept(text, room) + "…"@,
        kept(text, room).len() < limit(room) - 1,
        kept(text, room) == text.take(kept(text, room).len() as int),
        whitespace(text[kept(text, room).len() as int]),
{
    let head = text.take(limit(room) - 1);
    lemma_last_position(head, ' ');
    let cut = word_cut(head);
    let part = head.take(cut);
    lemma_trimmed_end(part);
    let n = trimmed_end(part).len() as int;
    assert(part.take(n) =~= text.take(n));
    if n < cut {
        assert(part[n] == text[n]);
    } else {
        assert(head[cut] == text[cut]);
    }
}

/// A cut caption whose head has no space to break at keeps as much of the text as fits
/// beside the ellipsis, but for blanks at its end.
pub proof fn law_unbroken_text_is_cut_at_the_limit(text: Seq<char>, room: nat)
    requires
        text.len() > limit(room),
        !text.take(limit(room) - 1).contains(' '),
    ensures
        fitted(text, room) == trimmed_end(text.take(limit(room) - 1)) + "…"@,
{
    let head = text.take(limit(room) - 1);
    assert(head.take(head.len() as int) =~= head);
}

/// A caption that fits is shown as it is, one that does not is shown cut, with an ellipsis at
/// its end. A column is never taken to be narrower than eight characters.
pub proof fn law_caption_is_cut_only_if_too_long(text: Seq<char>, room: nat)
    ensures
        room >= 8 && text.len() <= room ==> fitted(text, room) == text,
        room >= 8 && text.len() > room ==> fitted(text, room).len() <= room && fitted(
            text,
            room,
        ).last() == '…',
        room < 8 ==> fitted(text, room) == fitted(text, 8),
{
    reveal_strlit("…");
    law_fitted_fits(text, room);
}

/// A cut caption keeps as many whole words as fit beside the ellipsis. It is a beginning of the
/// text that does not end in whitespace. Up to the last space that would fit nothing else is
/// dropped but whitespace, and nothing from that space on is kept; where no space would fit,
/// nothing but whitespace is dropped of what fits.
pub proof fn law_cut_keeps_every_whole_word(text: Seq<char>, room: nat)
    requires
        room >= 8,
        text.len() > room,
    ensures
        ({
            let k = fitted(text, room).len() - 1;
            let end = room - 1;
            &&& 0 <= k <= end
            &&& fitted(text, room) == text.take(k) + "…"@
            &&& k > 0 ==> !whitespace(text[k - 1])
            &&& forall|i: int, j: int|
                k <= j < i < end && #[trigger] text[i] == ' ' ==> whitespace(#[trigger] text[j])
            &&& forall|at: int|
                0 <= at < end && #[trigger] text[at] == ' ' && (forall|i: int|
                    at < i < end ==> text[i] != ' ') ==> k <= at && whitespace(text[k])
            &&& (forall|i: int| 0 <= i < end ==> text[i] != ' ') ==> (forall|i: int|
                k <= i < end ==> whitespace(#[trigger] text[i]))
        }),
{
    reveal_strlit("…");
    let end = room - 1;
    let head = text.take(end);
    if head.contains(' ') {
        lemma_last_position(head, ' ');
    }
    let cut = word_cut(head);
    let part = head.take(cut);
    lemma_trimmed_end(part);
    lemma_trimmed_end_is_tight(part);
    let k = kept(text, room).len() as int;
    assert(part =~= text.take(cut));
    assert(part.take(k) =~= text.take(k));
    assert(fitted(text, room) == kept(text, room) + "…"@);
    assert(forall|i: int| k <= i < cut ==> part[i] == text[i]);
    assert(forall|i: int| 0 <= i < end ==> head[i] == text[i]);
    if k > 0 {
        assert(text[k - 1] == part[k - 1]);
    }
    assert forall|i: int, j: int| k <= j < i < end && #[trigger] text[i] == ' ' implies whitespace(
        #[trigger] text[j],
    ) by {
        assert(head[i] == ' ');
        assert(head.contains(' '));
        assert(i <= cut);
        assert(part[j] == text[j]);
    }
    assert forall|at: int|
        0 <= at < end && #[trigger] text[at] == ' ' && (forall|i: int|
            at < i < end ==> text[i] != ' ') implies k <= at && whitespace(text[k]) by {
        assert(head[at] == ' ');
        assert(head.contains(' '));
        assert(head[cut] == ' ');
        assert(text[cut] == ' ');
        assert(cut == at);
        if k < at {
            assert(part[k] == text[k]);
        }
    }
    if forall|i: int| 0 <= i < end ==> text[i] != ' ' {
        assert(!head.contains(' '));
        assert forall|i: int| k <= i < end implies whitespace(#[trigger] text[i]) by {
            assert(part[i] == text[i]);
        }
    }
}

proof fn lemma_trimmed_end_is_tight(s: Seq<char>)
    ensures
        trimmed_end(s).len() > 0 ==> !whitespace(trimmed_end(s).last()),
    decreases s.len(),
{
    if s.len() > 0 && whitespace(s.last()) {
        lemma_trimmed_end_is_tight(s.drop_last());
    }
}

/// How much of `text` a column with room for `room` characters shows.
pub open spec fn shown(text: Seq<char>, room: nat) -> Seq<char> {
    if text.len() <= limit(room) {
        text
    } else {
        kept(text, room)
    }
}

proof fn lemma_trimmed_end_grows(text: Seq<char>, n: int, m: int)
    requires
        0 <= n <= m <= text.len(),
    ensures
        trimmed_end(text.take(n)).len() <= trimmed_end(text.take(m)).len(),
    decreases m,
{
    lemma_trimmed_end(text.take(n));
    if n < m {
        assert(text.take(m).drop_last() =~= text.take(m - 1));
        lemma_trimmed_end_grows(text, n, m - 1);
    }
}

proof fn lemma_cut_grows(text: Seq<char>, narrow: nat, wide: nat)
    requires
        narrow <= wide,
        text.len() > limit(narrow),
    ensures
        shown(text, narrow).len() < limit(narrow),
        shown(text, narrow).len() <= shown(text, wide).len(),
        shown(text, narrow) == shown(text, wide).take(shown(text, narrow).len() as int),
{
    let head = text.take(limit(narrow) - 1);
    if head.contains(' ') {
        lemma_last_position(head, ' ');
    }
    let cut = word_cut(head);
    assert(head.take(cut) =~= text.take(cut));
    lemma_trimmed_end(text.take(cut));
    let n = kept(text, narrow).len() as int;
    assert(kept(text, narrow) =~= text.take(n));
    if text.len() > limit(wide) {
        let longer = text.take(limit(wide) - 1);
        if longer.contains(' ') {
            lemma_last_position(longer, ' ');
        }
        let further = word_cut(longer);
        assert(longer.take(further) =~= text.take(further));
        if head.contains(' ') {
            assert(longer[cut] == ' ');
        } else if longer.contains(' ') && further < head.len() {
            assert(head[further] == ' ');
        }
        assert(cut <= further);
        lemma_trimmed_end_grows(text, cut, further);
        lemma_trimmed_end(text.take(further));
        let m = kept(text, wide).len() as int;
        assert(kept(text, wide) =~= text.take(m));
        assert(text.take(m).take(n) =~= text.take(n));
    }
}

/// A wider column never shows less of a caption: what the narrower one shows of the text is a
/// beginning of what the wider one shows, and the wider caption is at least as long.
pub proof fn law_wider_column_shows_no_less(text: Seq<char>, narrow: nat, wide: nat)
    requires
        narrow <= wide,
    ensures
        shown(text, narrow).len() <= shown(text, wide).len(),
        shown(text, narrow) == shown(text, wide).take(shown(text, narrow).len() as int),
        fitted(text, narrow).len() <= fitted(text, wide).len(),
{
    reveal_strlit("…");
    if text.len() <= limit(narrow) {
        assert(text.take(text.len() as int) =~= text);
    } else {
        lemma_cut_grows(text, narrow, wide);
    }
}

/// Shortens a caption to what a column with room for `room` characters can show,
/// breaking at a word boundary.
///
/// Captions are arbitrary-length strings from the authentication stack and from bus
/// errors. A clip rectangle would cut them in the middle of a word and give no hint
/// that anything is missing; an ellipsis does.
pub fn fit_column(text: &str, room: usize) -> (shown: String)
    ensures
        shown@ == fitted(text@, room as nat),
{
    let max_chars: usize = if room < MIN_ROOM {
        MIN_ROOM
    } else {
        room
    };
    let chars: Vec<char> = characters(text);
    if chars.len() <= max_chars {
        return text.to_owned();
    }
    let head_len: usize = max_chars - 1;
    let ghost head = text@.take(head_len as int);
    let cut: usize = match last_index(&chars, head_len, ' ') {
        Some(at) => at,
        None => head_len,
    };
    let len: usize = trim_end_len(&chars, cut);
    proof {
        assert(head.take(cut as int) =~= text@.take(cut as int));
        assert(text@.subrange(0, len as int) =~= text@.take(len as int));
    }
    slice(text, 0, len).concat("…")
}

} // verus!
