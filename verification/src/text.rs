//! Text as a sequence of characters: comparing, searching, cutting and trimming.

use vstd::prelude::*;
use vstd::string::*;

verus! {

/// The characters with the Unicode property `White_Space`.
pub open spec fn whitespace(c: char) -> bool {
    ||| '\u{9}' <= c <= '\u{d}'
    ||| c == ' '
    ||| c == '\u{85}'
    ||| c == '\u{a0}'
    ||| c == '\u{1680}'
    ||| '\u{2000}' <= c <= '\u{200a}'
    ||| c == '\u{2028}'
    ||| c == '\u{2029}'
    ||| c == '\u{202f}'
    ||| c == '\u{205f}'
    ||| c == '\u{3000}'
}

/// `char::is_whitespace`: answers whether the character has the Unicode property
/// `White_Space`, whose members are those of `whitespace`.
pub assume_specification[ char::is_whitespace ](c: char) -> (b: bool)
    ensures
        b == whitespace(c),
;

/// The lowercase equivalent of a text, by the Unicode property `Lowercase`.
pub uninterp spec fn lowercased(s: Seq<char>) -> Seq<char>;

/// A text of ASCII characters alone.
pub open spec fn ascii(s: Seq<char>) -> bool {
    forall|i: int| 0 <= i < s.len() ==> #[trigger] s[i] <= '\u{7f}'
}

/// An ASCII character with a capital letter made small.
pub open spec fn ascii_small(c: char) -> char {
    if 'A' <= c <= 'Z' {
        (c as u32 + 32) as char
    } else {
        c
    }
}

/// An ASCII text with its capital letters made small.
pub open spec fn ascii_lowered(s: Seq<char>) -> Seq<char> {
    s.map_values(|c: char| ascii_small(c))
}

/// `str::to_lowercase`: gives the lowercase equivalent of the text as a new string. For an
/// ASCII text that is the text with its capital letters made small. For others the mapping
/// is Unicode's and is not spelled out.
pub assume_specification[ str::to_lowercase ](s: &str) -> (r: String)
    ensures
        r@ == lowercased(s@),
        ascii(s@) ==> r@ == ascii_lowered(s@),
;

/// `prefix` is the beginning of `s`.
pub open spec fn starts_with(s: Seq<char>, prefix: Seq<char>) -> bool {
    prefix.len() <= s.len() && s.take(prefix.len() as int) == prefix
}

/// `needle` stands in `s` at position `at`.
pub open spec fn stands_at(s: Seq<char>, needle: Seq<char>, at: int) -> bool {
    0 <= at && at + needle.len() <= s.len() && s.subrange(at, at + needle.len()) == needle
}

/// `needle` stands somewhere in `s`.
pub open spec fn occurs_in(needle: Seq<char>, s: Seq<char>) -> bool {
    exists|at: int| stands_at(s, needle, at)
}

/// What is left of `s` behind `prefix`, if `s` begins with it.
pub open spec fn behind(s: Seq<char>, prefix: Seq<char>) -> Option<Seq<char>> {
    if starts_with(s, prefix) {
        Some(s.skip(prefix.len() as int))
    } else {
        None
    }
}

/// `s` without the whitespace at its end.
pub open spec fn trimmed_end(s: Seq<char>) -> Seq<char>
    decreases s.len(),
{
    if s.len() > 0 && whitespace(s.last()) {
        trimmed_end(s.drop_last())
    } else {
        s
    }
}

/// `s` without the whitespace at its beginning.
pub open spec fn trimmed_start(s: Seq<char>) -> Seq<char>
    decreases s.len(),
{
    if s.len() > 0 && whitespace(s[0]) {
        trimmed_start(s.drop_first())
    } else {
        s
    }
}

/// `s` without the whitespace around it.
pub open spec fn trimmed(s: Seq<char>) -> Seq<char> {
    trimmed_end(trimmed_start(s))
}

/// `at` is the last position of `c` in `s`.
pub open spec fn is_last_index(s: Seq<char>, c: char, at: int) -> bool {
    &&& 0 <= at < s.len()
    &&& s[at] == c
    &&& forall|i: int| at < i < s.len() ==> s[i] != c
}

/// The last position of `c` in a text that has it.
pub open spec fn last_position(s: Seq<char>, c: char) -> int {
    choose|at: int| is_last_index(s, c, at)
}

/// There is only one last position.
pub proof fn lemma_last_position_unique(s: Seq<char>, c: char, at: int)
    requires
        is_last_index(s, c, at),
    ensures
        s.contains(c),
        at == last_position(s, c),
{
    let other = last_position(s, c);
    assert(is_last_index(s, c, other));
    if other < at {
        assert(s[at] != c);
    } else if at < other {
        assert(s[other] != c);
    }
}

/// A text that has a character has a last position of it.
pub proof fn lemma_last_position(s: Seq<char>, c: char)
    requires
        s.contains(c),
    ensures
        is_last_index(s, c, last_position(s, c)),
    decreases s.len(),
{
    if s.last() == c {
        assert(is_last_index(s, c, s.len() - 1));
    } else {
        let i = choose|i: int| 0 <= i < s.len() && s[i] == c;
        assert(s.drop_last()[i] == c);
        lemma_last_position(s.drop_last(), c);
        let at = last_position(s.drop_last(), c);
        assert forall|k: int| at < k < s.len() implies s[k] != c by {
            if k < s.len() - 1 {
                assert(s.drop_last()[k] == s[k]);
            }
        }
        assert(is_last_index(s, c, at));
    }
}

/// Whether two texts are the same.
pub fn same_text(a: &str, b: &str) -> (same: bool)
    ensures
        same == (a@ == b@),
{
    a.to_owned() == b.to_owned()
}

/// The characters of `s`, in order.
pub fn characters(s: &str) -> (chars: Vec<char>)
    ensures
        chars@ == s@,
{
    let mut chars: Vec<char> = Vec::new();
    for c in it: s.chars()
        invariant
            it.seq() == s@,
            chars@ == s@.take(it.index() as int),
    {
        proof {
            assert(s@.take(it.index() + 1) =~= s@.take(it.index() as int).push(c));
        }
        chars.push(c);
    }
    proof {
        assert(s@.take(s@.len() as int) =~= s@);
    }
    chars
}

/// Whether `needle` stands somewhere in `s`.
pub fn contains(s: &str, needle: &str) -> (found: bool)
    ensures
        found == occurs_in(needle@, s@),
{
    let hay: Vec<char> = characters(s);
    let pin: Vec<char> = characters(needle);
    let mut at: usize = 0;
    while hay.len() - at >= pin.len()
        invariant
            hay@ == s@,
            pin@ == needle@,
            at <= hay.len(),
            forall|k: int| 0 <= k < at ==> !stands_at(s@, needle@, k),
        decreases hay.len() - at,
    {
        let mut n: usize = 0;
        while n < pin.len() && hay[at + n] == pin[n]
            invariant
                n <= pin.len(),
                at + pin.len() <= hay.len(),
                forall|k: int| 0 <= k < n ==> hay@[at + k] == pin@[k],
            decreases pin.len() - n,
        {
            n += 1;
        }
        if n == pin.len() {
            proof {
                assert(s@.subrange(at as int, at + needle@.len()) =~= needle@);
                assert(stands_at(s@, needle@, at as int));
            }
            return true;
        }
        proof {
            if stands_at(s@, needle@, at as int) {
                assert(s@.subrange(at as int, at + needle@.len())[n as int] == needle@[n as int]);
            }
        }
        at += 1;
    }
    false
}

/// The text of `s` from character `from` up to character `to`.
pub fn slice(s: &str, from: usize, to: usize) -> (part: String)
    requires
        from <= to <= s@.len(),
    ensures
        part@ == s@.subrange(from as int, to as int),
{
    s.substring_char(from, to).to_owned()
}

/// What is left of `s` behind `prefix`, if `s` begins with it.
pub fn strip_prefix(s: &str, prefix: &str) -> (rest: Option<String>)
    ensures
        rest.deep_view() == behind(s@, prefix@),
{
    let n: usize = prefix.unicode_len();
    let len: usize = s.unicode_len();
    if len < n {
        return None;
    }
    proof {
        assert(s@.subrange(0, n as int) =~= s@.take(n as int));
        assert(s@.subrange(n as int, len as int) =~= s@.skip(n as int));
    }
    if same_text(s.substring_char(0, n), prefix) {
        Some(slice(s, n, len))
    } else {
        None
    }
}

/// How many of the first `n` characters are left when the whitespace at their end is
/// dropped.
pub fn trim_end_len(chars: &Vec<char>, n: usize) -> (kept: usize)
    requires
        n <= chars@.len(),
    ensures
        kept <= n,
        chars@.take(kept as int) == trimmed_end(chars@.take(n as int)),
        forall|i: int| kept <= i < n ==> whitespace(chars@[i]),
{
    let mut kept: usize = n;
    while kept > 0 && chars[kept - 1].is_whitespace()
        invariant
            kept <= n <= chars@.len(),
            trimmed_end(chars@.take(kept as int)) == trimmed_end(chars@.take(n as int)),
            forall|i: int| kept <= i < n ==> whitespace(chars@[i]),
        decreases kept,
    {
        proof {
            assert(chars@.take(kept as int).drop_last() =~= chars@.take(kept - 1));
        }
        kept -= 1;
    }
    kept
}

/// `s` without the whitespace around it.
pub fn trim(s: &str) -> (r: String)
    ensures
        r@ == trimmed(s@),
{
    let chars: Vec<char> = characters(s);
    let len: usize = chars.len();
    let mut from: usize = 0;
    proof {
        assert(chars@.skip(0) =~= chars@);
    }
    while from < len && chars[from].is_whitespace()
        invariant
            from <= len == chars@.len(),
            trimmed_start(chars@.skip(from as int)) == trimmed_start(chars@),
        decreases len - from,
    {
        proof {
            assert(chars@.skip(from as int).drop_first() =~= chars@.skip(from + 1));
        }
        from += 1;
    }
    let mut to: usize = len;
    proof {
        assert(chars@.subrange(from as int, len as int) =~= chars@.skip(from as int));
    }
    while to > from && chars[to - 1].is_whitespace()
        invariant
            from <= to <= chars@.len(),
            trimmed_end(chars@.subrange(from as int, to as int)) == trimmed(chars@),
        decreases to,
    {
        proof {
            assert(chars@.subrange(from as int, to as int).drop_last() =~= chars@.subrange(
                from as int,
                to - 1,
            ));
        }
        to -= 1;
    }
    slice(s, from, to)
}

/// The last position of `c` among the first `n` characters.
pub fn last_index(chars: &Vec<char>, n: usize, c: char) -> (at: Option<usize>)
    requires
        n <= chars@.len(),
    ensures
        match at {
            Some(i) => is_last_index(chars@.take(n as int), c, i as int)
                && chars@.take(n as int).contains(c) && i == last_position(chars@.take(n as int), c),
            None => !chars@.take(n as int).contains(c),
        },
{
    let mut i: usize = n;
    while i > 0
        invariant
            i <= n <= chars@.len(),
            forall|k: int| i <= k < n ==> chars@[k] != c,
        decreases i,
    {
        i -= 1;
        if chars[i] == c {
            proof {
                lemma_last_position_unique(chars@.take(n as int), c, i as int);
            }
            return Some(i);
        }
    }
    None
}

/// A text stands in another exactly where something before it and something behind it make
/// up the whole.
pub proof fn law_occurrence_is_a_part(
    needle: Seq<char>,
    s: Seq<char>,
    before: Seq<char>,
    after: Seq<char>,
)
    ensures
        occurs_in(needle, before + needle + after),
        occurs_in(needle, s) <==> exists|at: int|
            0 <= at <= s.len() - needle.len() && #[trigger] s.subrange(at, at + needle.len())
                == needle,
{
    let at = before.len() as int;
    let whole = before + needle + after;
    assert(whole.subrange(at, at + needle.len()) =~= needle);
    assert(stands_at(whole, needle, at));
    if exists|at: int|
        0 <= at <= s.len() - needle.len() && #[trigger] s.subrange(at, at + needle.len())
            == needle {
        let at = choose|at: int|
            0 <= at <= s.len() - needle.len() && #[trigger] s.subrange(at, at + needle.len())
                == needle;
        assert(stands_at(s, needle, at));
    }
    if occurs_in(needle, s) {
        let at = choose|at: int| stands_at(s, needle, at);
        assert(s.subrange(at, at + needle.len()) == needle);
    }
}

/// What stands behind a beginning is the rest: put together again they are the whole, and
/// every text that is put together so is taken apart so.
pub proof fn law_behind_is_the_rest(s: Seq<char>, prefix: Seq<char>, rest: Seq<char>)
    ensures
        behind(prefix + rest, prefix) == Some(rest),
        starts_with(prefix + rest, prefix),
        behind(s, prefix) == Some(rest) ==> s == prefix + rest,
        behind(s, prefix) is Some <==> starts_with(s, prefix),
        starts_with(s, prefix) ==> s == prefix + s.skip(prefix.len() as int),
{
    assert((prefix + rest).take(prefix.len() as int) =~= prefix);
    assert((prefix + rest).skip(prefix.len() as int) =~= rest);
    if starts_with(s, prefix) {
        assert(s =~= s.take(prefix.len() as int) + s.skip(prefix.len() as int));
    }
}

proof fn lemma_trimmed_start_drops(before: Seq<char>, rest: Seq<char>)
    requires
        forall|i: int| 0 <= i < before.len() ==> whitespace(#[trigger] before[i]),
    ensures
        trimmed_start(before + rest) == trimmed_start(rest),
    decreases before.len(),
{
    if before.len() > 0 {
        assert((before + rest).drop_first() =~= before.drop_first() + rest);
        assert((before + rest)[0] == before[0]);
        lemma_trimmed_start_drops(before.drop_first(), rest);
    } else {
        assert(before + rest =~= rest);
    }
}

/// Trimming the end drops exactly the whitespace there: whatever of it follows a text that is
/// empty or ends in something else.
pub proof fn law_trimmed_end_drops_whitespace(core: Seq<char>, after: Seq<char>)
    requires
        core.len() > 0 ==> !whitespace(core.last()),
        forall|i: int| 0 <= i < after.len() ==> whitespace(#[trigger] after[i]),
    ensures
        trimmed_end(core + after) == core,
    decreases after.len(),
{
    if after.len() > 0 {
        assert((core + after).drop_last() =~= core + after.drop_last());
        assert((core + after).last() == after[after.len() - 1]);
        law_trimmed_end_drops_whitespace(core, after.drop_last());
    } else {
        assert(core + after =~= core);
    }
}

/// Trimming drops exactly the whitespace around a text: whatever of it stands before and
/// behind one that is empty, or begins and ends in something else.
pub proof fn law_trimmed_drops_whitespace(before: Seq<char>, core: Seq<char>, after: Seq<char>)
    requires
        forall|i: int| 0 <= i < before.len() ==> whitespace(#[trigger] before[i]),
        core.len() > 0 ==> !whitespace(core[0]) && !whitespace(core.last()),
        forall|i: int| 0 <= i < after.len() ==> whitespace(#[trigger] after[i]),
    ensures
        trimmed(before + core + after) == core,
{
    assert(before + core + after =~= before + (core + after));
    lemma_trimmed_start_drops(before, core + after);
    if core.len() > 0 {
        assert((core + after)[0] == core[0]);
        law_trimmed_end_drops_whitespace(core, after);
    } else {
        assert(core + after =~= after + core);
        lemma_trimmed_start_drops(after, core);
    }
}

/// The last position of a character is the one that it does not occur behind.
pub proof fn law_last_position_has_none_behind(before: Seq<char>, c: char, after: Seq<char>)
    requires
        !after.contains(c),
    ensures
        is_last_index(before.push(c) + after, c, before.len() as int),
        last_position(before.push(c) + after, c) == before.len(),
{
    let s = before.push(c) + after;
    assert forall|i: int| before.len() < i < s.len() implies s[i] != c by {
        assert(s[i] == after[i - before.len() - 1]);
    }
    assert(is_last_index(s, c, before.len() as int));
    lemma_last_position_unique(s, c, before.len() as int);
}

} // verus!
