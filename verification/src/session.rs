//! Which login session the agent registers for.

use vstd::prelude::*;
use vstd::string::*;
use crate::text::{characters, last_index, same_text, slice, trim};
use crate::text::{is_last_index, last_position, lemma_last_position_unique, trimmed};
use crate::text::{law_trimmed_drops_whitespace, whitespace};

verus! {

/// The session that the kernel's record names: its text without the blanks around it, unless
/// that is empty or the number that stands for no session.
pub open spec fn recorded_session(contents: Seq<char>) -> Option<Seq<char>> {
    let id = trimmed(contents);
    if id.len() > 0 && id != "4294967295"@ {
        Some(id)
    } else {
        None
    }
}

/// The session that is known without asking the login manager: what the environment says,
/// else what the kernel's record says.
pub open spec fn session_at_hand(env: Option<Seq<char>>, record: Option<Seq<char>>) -> Option<
    Seq<char>,
> {
    if env is Some {
        env
    } else if record is Some {
        recorded_session(record->0)
    } else {
        None
    }
}

/// The last component of a path.
pub open spec fn last_component(path: Seq<char>) -> Option<Seq<char>> {
    if path.contains('/') {
        Some(path.skip(last_position(path, '/') + 1))
    } else {
        None
    }
}

/// The session that an object path of the login manager stands for: its last component,
/// without the underscore that the manager escapes a leading digit with.
pub open spec fn session_of_path(path: Seq<char>) -> Option<Seq<char>> {
    match last_component(path) {
        Some(id) => if id.len() > 0 && id[0] == '_' {
            Some(id.drop_first())
        } else {
            Some(id)
        },
        None => None,
    }
}

/// The session in the kernel's record.
pub fn session_from_record(contents: &str) -> (id: Option<String>)
    ensures
        id.deep_view() == recorded_session(contents@),
{
    let id: String = trim(contents);
    if !id.as_str().is_empty() && !same_text(id.as_str(), "4294967295") {
        Some(id)
    } else {
        None
    }
}

/// The session that is known without asking the login manager. `env` is the environment's
/// `$XDG_SESSION_ID`, taken as it is; `record` holds the kernel's record of the process's
/// session.
pub fn known_session(env: Option<String>, record: Option<String>) -> (id: Option<String>)
    ensures
        id.deep_view() == session_at_hand(env.deep_view(), record.deep_view()),
{
    match env {
        Some(id) => Some(id),
        None => match record {
            Some(contents) => session_from_record(contents.as_str()),
            None => None,
        },
    }
}

/// The session that the login manager's reply stands for.
pub fn session_from_path(path: &str) -> (id: Result<String, String>)
    ensures
        match id {
            Ok(id) => session_of_path(path@) == Some(id@),
            Err(text) => session_of_path(path@) is None && text@ == "Session ID not found"@,
        },
{
    let chars: Vec<char> = characters(path);
    let len: usize = chars.len();
    proof {
        assert(path@.take(len as int) =~= path@);
    }
    match last_index(&chars, len, '/') {
        Some(pos) => {
            let ghost id = path@.skip(pos + 1);
            proof {
                assert(path@.subrange(pos + 1, len as int) =~= id);
            }
            if pos + 1 < len && chars[pos + 1] == '_' {
                proof {
                    assert(path@.subrange(pos + 2, len as int) =~= id.drop_first());
                }
                Ok(slice(path, pos + 2, len))
            } else {
                Ok(slice(path, pos + 1, len))
            }
        },
        None => Err("Session ID not found".to_owned()),
    }
}

/// A session is read back out of the object path that stands for it: with the escaping
/// underscore or, where it does not begin with one, without.
pub proof fn law_session_is_read_back(dir: Seq<char>, id: Seq<char>)
    requires
        !id.contains('/'),
    ensures
        session_of_path(dir + "/_"@ + id) == Some(id),
        id.len() == 0 || id[0] != '_' ==> session_of_path(dir + "/"@ + id) == Some(id),
{
    reveal_strlit("/_");
    reveal_strlit("/");
    let escaped = dir + "/_"@ + id;
    let plain = dir + "/"@ + id;
    let at = dir.len() as int;
    assert forall|i: int| at < i < escaped.len() implies escaped[i] != '/' by {
        if i >= at + 2 {
            assert(escaped[i] == id[i - at - 2]);
        }
    }
    assert(is_last_index(escaped, '/', at));
    lemma_last_position_unique(escaped, '/', at);
    assert(escaped.skip(at + 1).drop_first() =~= id);
    assert forall|i: int| at < i < plain.len() implies plain[i] != '/' by {
        assert(plain[i] == id[i - at - 1]);
    }
    assert(is_last_index(plain, '/', at));
    lemma_last_position_unique(plain, '/', at);
    assert(plain.skip(at + 1) =~= id);
}

/// The environment's session is the answer whenever there is one, whatever the kernel's record
/// says and whether it was read at all. The record counts only without it.
pub proof fn law_environment_comes_first(id: Seq<char>, record: Option<Seq<char>>)
    ensures
        session_at_hand(Some(id), record) == Some(id),
        record is Some ==> session_at_hand(None, record) == recorded_session(record->0),
        session_at_hand(None, None) is None,
{
}

/// The kernel's record gives its text without the whitespace around it; a record of whitespace
/// alone, or of the number that stands for no session, gives none.
pub proof fn law_record_is_read_trimmed(before: Seq<char>, id: Seq<char>, after: Seq<char>)
    requires
        forall|i: int| 0 <= i < before.len() ==> whitespace(#[trigger] before[i]),
        id.len() > 0 ==> !whitespace(id[0]) && !whitespace(id.last()),
        forall|i: int| 0 <= i < after.len() ==> whitespace(#[trigger] after[i]),
    ensures
        id.len() > 0 && id != "4294967295"@ ==> recorded_session(before + id + after) == Some(id)
            && session_at_hand(None, Some(before + id + after)) == Some(id),
        id.len() == 0 || id == "4294967295"@ ==> recorded_session(before + id + after) is None
            && session_at_hand(None, Some(before + id + after)) is None,
{
    law_trimmed_drops_whitespace(before, id, after);
}

/// A path without a slash stands for no session; every other path does for one.
pub proof fn law_session_needs_a_slash(path: Seq<char>)
    ensures
        session_of_path(path) is None <==> !path.contains('/'),
{
}

} // verus!
