//! Who is to be authenticated.

use vstd::prelude::*;
use vstd::string::*;
use crate::accounts::{account_of, own_account, Account, OwnAccount};
use crate::text::same_text;

verus! {

/// A value among an identity's details, as far as it can be a user's number.
#[derive(Clone, Copy, Debug)]
pub enum DetailValue {
    U32(u32),
    I32(i32),
    U64(u64),
    I64(i64),
    Other,
}

/// An identity that the policy daemon would accept: its kind, and its details by key.
#[derive(Debug)]
pub struct Identity {
    pub kind: String,
    pub details: Vec<(String, DetailValue)>,
}

/// The user's number that a detail holds: the low 32 bits of an integer.
pub open spec fn detail_uid(value: DetailValue) -> Option<u32> {
    match value {
        DetailValue::U32(n) => Some(n),
        DetailValue::I32(n) => Some((n as int % 0x1_0000_0000) as u32),
        DetailValue::U64(n) => Some((n as int % 0x1_0000_0000) as u32),
        DetailValue::I64(n) => Some((n as int % 0x1_0000_0000) as u32),
        DetailValue::Other => None,
    }
}

/// The value of the first detail with the key `key`.
pub open spec fn detail(details: Seq<(String, DetailValue)>, key: Seq<char>) -> Option<DetailValue>
    decreases details.len(),
{
    if details.len() == 0 {
        None
    } else if details[0].0@ == key {
        Some(details[0].1)
    } else {
        detail(details.drop_first(), key)
    }
}

/// The user whom the daemon names: only the first identity counts, and only if it is a
/// user with a number.
pub open spec fn named_uid(identities: Seq<Identity>) -> Option<u32> {
    if identities.len() > 0 && identities[0].kind@ == "unix-user"@ {
        match detail(identities[0].details@, "uid"@) {
            Some(value) => detail_uid(value),
            None => None,
        }
    } else {
        None
    }
}

/// Reads a user's number out of a detail.
pub fn uid_of(value: DetailValue) -> (uid: Option<u32>)
    ensures
        uid == detail_uid(value),
{
    match value {
        DetailValue::U32(n) => Some(n),
        DetailValue::I32(n) => {
            assert(n as u32 == (n as int) % 0x1_0000_0000) by (bit_vector);
            Some(#[verifier::truncate] (n as u32))
        },
        DetailValue::U64(n) => {
            assert(n as u32 == (n as int) % 0x1_0000_0000) by (bit_vector);
            Some(#[verifier::truncate] (n as u32))
        },
        DetailValue::I64(n) => {
            assert(n as u32 == (n as int) % 0x1_0000_0000) by (bit_vector);
            Some(#[verifier::truncate] (n as u32))
        },
        DetailValue::Other => None,
    }
}

/// The number of the user whom the daemon names, if it names one.
pub fn requested_uid(identities: &Vec<Identity>) -> (uid: Option<u32>)
    ensures
        uid == named_uid(identities@),
{
    if identities.len() == 0 || !same_text(identities[0].kind.as_str(), "unix-user") {
        return None;
    }
    let details: &Vec<(String, DetailValue)> = &identities[0].details;
    let mut i: usize = 0;
    proof {
        assert(details@.skip(0) =~= details@);
    }
    while i < details.len()
        invariant
            identities@.len() > 0,
            identities@[0].kind@ == "unix-user"@,
            *details == identities@[0].details,
            i <= details@.len(),
            detail(details@.skip(i as int), "uid"@) == detail(details@, "uid"@),
        decreases details@.len() - i,
    {
        proof {
            assert(details@.skip(i as int).drop_first() =~= details@.skip(i + 1));
        }
        if same_text(details[i].0.as_str(), "uid") {
            return uid_of(details[i].1);
        }
        i += 1;
    }
    None
}

/// Whom the process runs as: `account` is what the account database says, and `env_user`
/// what the environment says, which counts only where the database knows nobody. An empty
/// name names nobody.
pub open spec fn own_name(
    account: Option<Seq<char>>,
    env_user: Option<Seq<char>>,
) -> Option<Seq<char>> {
    let name = if account is Some {
        account
    } else {
        env_user
    };
    if name is Some && name->0.len() > 0 {
        name
    } else {
        None
    }
}

/// Picks the name that the process runs under.
pub fn pick_own_name(account: Option<String>, env_user: Option<String>) -> (name: Option<String>)
    ensures
        name.deep_view() == own_name(account.deep_view(), env_user.deep_view()),
{
    let found: Option<String> = match account {
        Some(name) => Some(name),
        None => env_user,
    };
    match found {
        Some(name) => if name.as_str().is_empty() {
            None
        } else {
            Some(name)
        },
        None => None,
    }
}

/// Who is authenticated when nothing more specific is known, and what the account database
/// said of them.
#[derive(Debug)]
pub struct CurrentUser {
    pub account: OwnAccount,
    pub name: Option<String>,
}

/// Asks the account database who runs the process, and picks the name that they are
/// authenticated under.
///
/// The database is asked first and `env_user`, the environment's `$USER`, is only a
/// fallback: a session's environment is whatever it was told to carry, so the variable can
/// be absent or wrong.
pub fn current_user(env_user: Option<String>) -> (user: CurrentUser)
    ensures
        user.name.deep_view() == own_name(user.account@, env_user.deep_view()),
{
    let account: OwnAccount = own_account();
    let name: Option<String> = pick_own_name(account.name(), env_user);
    CurrentUser { account, name }
}

/// The name of the current user.
pub fn current_username(env_user: Option<String>) -> (name: Option<String>)
    ensures
        exists|account: OwnAccount|
            name.deep_view() == own_name(#[trigger] account@, env_user.deep_view()),
        name matches Some(text) ==> text@.len() > 0,
{
    current_user(env_user).name
}

/// Whom a request is for: `named` is the name that the account database has for the user
/// whom the daemon names, `own` the name that the process runs under. A user who cannot be
/// resolved falls back to our own; with neither the request is refused, because the wrong
/// identity means prompting for a password that cannot authorize the action.
pub open spec fn request_name(named: Option<Seq<char>>, own: Option<Seq<char>>) -> Result<
    Seq<char>,
    Seq<char>,
> {
    if named is Some && named->0.len() > 0 {
        Ok(named->0)
    } else if own is Some {
        Ok(own->0)
    } else {
        Err("no resolvable unix-user identity"@)
    }
}

/// A name or a refusal, its text taken as a sequence of characters.
pub open spec fn name_view(name: Result<String, String>) -> Result<Seq<char>, Seq<char>> {
    match name {
        Ok(text) => Ok(text@),
        Err(text) => Err(text@),
    }
}

/// Picks whom a request is for.
pub fn pick_request_name(named: Option<String>, own: Option<String>) -> (name: Result<
    String,
    String,
>)
    ensures
        name_view(name) == request_name(named.deep_view(), own.deep_view()),
{
    match named {
        Some(name) => if !name.as_str().is_empty() {
            return Ok(name);
        },
        None => {},
    }
    match own {
        Some(name) => Ok(name),
        None => Err("no resolvable unix-user identity".to_owned()),
    }
}

/// Whom a request turned out to be for, and what the account database said on the way.
#[derive(Debug)]
pub struct Resolution {
    /// What it said of the user whom the daemon named.
    pub account: Option<Account>,
    /// What it said of the user who runs the process, where that had to be asked.
    pub own: Option<OwnAccount>,
    /// Who is to be authenticated, or why nobody is.
    pub username: Result<String, String>,
}

impl Resolution {
    /// The name that the account database has for the user whom the daemon named.
    pub open spec fn named(self) -> Option<Seq<char>> {
        match self.account {
            Some(account) => account@.name,
            None => None,
        }
    }
}

/// Resolves whom a request is for.
///
/// The account database is asked for exactly the user whom the daemon names, if it names
/// one. Only where that gives no name is the process's own user asked for.
pub fn resolve_request(identities: &Vec<Identity>, env_user: Option<String>) -> (r: Resolution)
    ensures
        match r.account {
            Some(account) => named_uid(identities@) == Some(account@.uid),
            None => named_uid(identities@) is None,
        },
        match r.own {
            None => r.named() is Some && r.named()->0.len() > 0 && name_view(r.username) == Ok::<
                Seq<char>,
                Seq<char>,
            >(r.named()->0),
            Some(own) => (r.named() is None || r.named()->0.len() == 0) && name_view(r.username)
                == request_name(r.named(), own_name(own@, env_user.deep_view())),
        },
        r.username matches Ok(name) ==> name@.len() > 0,
{
    let account: Option<Account> = match requested_uid(identities) {
        Some(uid) => Some(account_of(uid)),
        None => None,
    };
    let named: Option<String> = match &account {
        Some(found) => found.name(),
        None => None,
    };
    match named {
        Some(name) => if !name.as_str().is_empty() {
            return Resolution { account, own: None, username: Ok(name) };
        },
        None => {},
    }
    let user: CurrentUser = current_user(env_user);
    let username: Result<String, String> = pick_request_name(None, user.name);
    Resolution { account, own: Some(user.account), username }
}

/// Nobody is ever authenticated under an empty name, and a request is refused only when
/// neither the daemon's user nor the process's own could be resolved.
pub proof fn law_requests_have_a_name(
    named: Option<Seq<char>>,
    account: Option<Seq<char>>,
    env_user: Option<Seq<char>>,
)
    ensures
        request_name(named, own_name(account, env_user)) matches Ok(name) ==> name.len() > 0,
        request_name(named, own_name(account, env_user)) is Err ==> {
            &&& named is None || named->0.len() == 0
            &&& own_name(account, env_user) is None
        },
{
}

/// A number among the details stands for the user whose number agrees with it in the low 32
/// bits, so a number that is a user's stands for that user. Anything else stands for nobody.
pub proof fn law_numbers_agree_in_the_low_bits(a: u32, b: i32, c: u64, d: i64)
    ensures
        detail_uid(DetailValue::U32(a)) == Some(a),
        detail_uid(DetailValue::I32(b)) matches Some(uid) && (b - uid) % 0x1_0000_0000 == 0,
        detail_uid(DetailValue::U64(c)) matches Some(uid) && (c - uid) % 0x1_0000_0000 == 0,
        detail_uid(DetailValue::I64(d)) matches Some(uid) && (d - uid) % 0x1_0000_0000 == 0,
        b >= 0 ==> detail_uid(DetailValue::I32(b)) == Some(b as u32),
        c < 0x1_0000_0000 ==> detail_uid(DetailValue::U64(c)) == Some(c as u32),
        0 <= d < 0x1_0000_0000 ==> detail_uid(DetailValue::I64(d)) == Some(d as u32),
        detail_uid(DetailValue::Other) is None,
{
}

/// A detail is the value at the first place where its key stands; a key that stands nowhere
/// has none.
pub proof fn law_detail_is_the_first_of_its_key(
    details: Seq<(String, DetailValue)>,
    key: Seq<char>,
    at: int,
)
    ensures
        0 <= at < details.len() && details[at].0@ == key && (forall|i: int|
            0 <= i < at ==> (#[trigger] details[i]).0@ != key) ==> detail(details, key) == Some(
            details[at].1,
        ),
        (forall|i: int| 0 <= i < details.len() ==> (#[trigger] details[i]).0@ != key) ==> detail(
            details,
            key,
        ) is None,
    decreases details.len(),
{
    if details.len() > 0 {
        let rest = details.drop_first();
        law_detail_is_the_first_of_its_key(rest, key, at - 1);
        assert(forall|i: int| 0 <= i < rest.len() ==> rest[i] == details[i + 1]);
        if forall|i: int| 0 <= i < details.len() ==> (#[trigger] details[i]).0@ != key {
            assert(details[0].0@ != key);
        }
        if 0 < at < details.len() && (forall|i: int|
            0 <= i < at ==> (#[trigger] details[i]).0@ != key) {
            assert(details[0].0@ != key);
            assert(rest[at - 1] == details[at]);
        }
    }
}

/// The user whom the daemon names is named by the first identity alone, whatever follows it:
/// with the number that its first detail `uid` holds, if it is a user and has one.
pub proof fn law_first_identity_names_the_user(first: Identity, rest: Seq<Identity>, at: int)
    ensures
        named_uid(Seq::<Identity>::empty()) is None,
        named_uid(seq![first] + rest) == named_uid(seq![first]),
        first.kind@ != "unix-user"@ ==> named_uid(seq![first] + rest) is None,
        (forall|i: int| 0 <= i < first.details@.len() ==> (#[trigger] first.details@[i]).0@ != "uid"@)
            ==> named_uid(seq![first] + rest) is None,
        ({
            let details = first.details@;
            first.kind@ == "unix-user"@ && 0 <= at < details.len() && details[at].0@ == "uid"@ && (
            forall|i: int| 0 <= i < at ==> (#[trigger] details[i]).0@ != "uid"@)
        }) ==> {
            &&& named_uid(seq![first] + rest) == detail_uid(first.details@[at].1)
            &&& first.details@[at].1 matches DetailValue::U32(n) ==> named_uid(seq![first] + rest)
                == Some(n)
        },
{
    assert((seq![first] + rest)[0] == first);
    law_detail_is_the_first_of_its_key(first.details@, "uid"@, at);
}

/// The process runs under the name that the account database has, whatever the environment
/// says; the environment's name counts only where the database knows nobody. An empty name of
/// either is no name, and an empty one of the database does not let the environment in.
pub proof fn law_database_comes_first(account: Seq<char>, env_user: Option<Seq<char>>, name: Seq<char>)
    ensures
        account.len() > 0 ==> own_name(Some(account), env_user) == Some(account),
        account.len() == 0 ==> own_name(Some(account), env_user) is None,
        name.len() > 0 ==> own_name(None, Some(name)) == Some(name),
        name.len() == 0 ==> own_name(None, Some(name)) is None,
        own_name(None, None) is None,
{
}

/// A request is for the user whom the daemon names, whoever runs the process; for our own only
/// where the named one has no name, and refused where there is neither.
pub proof fn law_named_user_comes_first(named: Seq<char>, own: Option<Seq<char>>, name: Seq<char>)
    ensures
        named.len() > 0 ==> request_name(Some(named), own) == Ok::<Seq<char>, Seq<char>>(named),
        named.len() == 0 ==> request_name(Some(named), own) == request_name(None, own),
        request_name(None, Some(name)) == Ok::<Seq<char>, Seq<char>>(name),
        request_name(None, None) == Err::<Seq<char>, Seq<char>>(
            "no resolvable unix-user identity"@,
        ),
{
}

/// A resolution shows the name or the reason that it holds, and names whom the account
/// database named.
pub proof fn law_resolution_shows_what_it_holds(r: Resolution, text: String)
    ensures
        name_view(Ok(text)) == Ok::<Seq<char>, Seq<char>>(text@),
        name_view(Err(text)) == Err::<Seq<char>, Seq<char>>(text@),
        r.account matches Some(account) ==> r.named() == account@.name,
        r.account is None ==> r.named() is None,
{
}

} // verus!
