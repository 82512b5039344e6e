//! The system's account database, and who runs the process. What was answered cannot be made
//! up elsewhere: only the lookups here give an `Account`, an `OwnAccount` or an `OwnUid`.

use vstd::prelude::*;
use vstd::string::*;

verus! {

/// What the account database answered when it was asked for the user `uid`.
#[derive(Debug)]
pub struct Account {
    uid: u32,
    name: Option<String>,
}

/// What an `Account` holds: the number that was asked for, and the login name, if there is
/// such a user.
pub struct AccountView {
    pub uid: u32,
    pub name: Option<Seq<char>>,
}

impl View for Account {
    type V = AccountView;

    closed spec fn view(&self) -> AccountView {
        AccountView { uid: self.uid, name: self.name.deep_view() }
    }
}

impl Account {
    /// The number that was asked for.
    pub fn uid(&self) -> (uid: u32)
        ensures
            uid == self@.uid,
    {
        self.uid
    }

    /// The login name, if there is such a user.
    pub fn name(&self) -> (name: Option<String>)
        ensures
            name.deep_view() == self@.name,
    {
        match &self.name {
            Some(name) => Some(name.clone()),
            None => None,
        }
    }
}

/// What the account database answered when it was asked for the user who runs the process.
#[derive(Debug)]
pub struct OwnAccount {
    name: Option<String>,
}

impl View for OwnAccount {
    type V = Option<Seq<char>>;

    closed spec fn view(&self) -> Option<Seq<char>> {
        self.name.deep_view()
    }
}

impl OwnAccount {
    /// The login name, if the database knows the user.
    pub fn name(&self) -> (name: Option<String>)
        ensures
            name.deep_view() == self@,
    {
        match &self.name {
            Some(name) => Some(name.clone()),
            None => None,
        }
    }
}

/// The number of the user who runs the process, as the system gave it.
#[derive(Debug)]
pub struct OwnUid {
    uid: u32,
}

impl View for OwnUid {
    type V = u32;

    closed spec fn view(&self) -> u32 {
        self.uid
    }
}

impl OwnUid {
    /// The number itself.
    pub fn uid(&self) -> (uid: u32)
        ensures
            uid == self@,
    {
        self.uid
    }
}

/// `users::get_user_by_uid`: looks the user `uid` up in the system's account database and
/// gives their login name, read as text; `None` where there is no such user. The answer is
/// labelled with the number that was asked for. Nothing is claimed of the name: it is
/// whatever the machine's database holds.
#[verifier::external_body]
pub(crate) fn account_of(uid: u32) -> (account: Account)
    ensures
        account@.uid == uid,
{
    let name = match users::get_user_by_uid(uid) {
        Some(user) => Some(user.name().to_string_lossy().into_owned()),
        None => None,
    };
    Account { uid, name }
}

/// `users::get_current_username`: gives the login name of the user who runs the process,
/// read as text, out of the system's account database. Nothing is claimed of the answer: it
/// rests on the process and on the machine.
#[verifier::external_body]
pub(crate) fn own_account() -> (account: OwnAccount) {
    let name = match users::get_current_username() {
        Some(name) => Some(name.to_string_lossy().into_owned()),
        None => None,
    };
    OwnAccount { name }
}

/// `users::get_current_uid`: gives the number of the user who runs the process. Nothing is
/// claimed of it: it rests on the process.
#[verifier::external_body]
pub(crate) fn current_uid() -> (own: OwnUid) {
    OwnUid { uid: users::get_current_uid() }
}

/// What was answered is shown as it was answered, whole and unchanged.
proof fn law_answers_are_shown_whole(account: Account, own: OwnAccount, number: OwnUid)
    ensures
        account@.uid == account.uid,
        account@.name == account.name.deep_view(),
        own@ == own.name.deep_view(),
        number@ == number.uid,
{
}

} // verus!
