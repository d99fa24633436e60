//! The records of the service: confirmations, accounts and the identity that
//! a session carries.

use vstd::prelude::*;

use crate::clock::{in_calendar, now, CONFIRMATION_LIFETIME};
use crate::ids::{fresh_id, is_random_id};

verus! {

/// An invitation to set a password for an email address. Its identifier is
/// the token that redeems it.
#[derive(Debug)]
pub struct Confirmation {
    pub id: u128,
    pub email: String,
    pub expires_at: i64,
}

/// A [`Confirmation`] with its email as a sequence of characters.
pub struct ConfirmationView {
    pub id: u128,
    pub email: Seq<char>,
    pub expires_at: i64,
}

impl View for Confirmation {
    type V = ConfirmationView;

    open spec fn view(&self) -> ConfirmationView {
        ConfirmationView { id: self.id, email: self.email@, expires_at: self.expires_at }
    }
}

/// An account: an email address and the hash of its password.
#[derive(Debug)]
pub struct User {
    pub id: u128,
    pub email: String,
    pub hash: String,
    pub created_at: i64,
}

/// A [`User`] with its texts as sequences of characters.
pub struct UserView {
    pub id: u128,
    pub email: Seq<char>,
    pub hash: Seq<char>,
    pub created_at: i64,
}

impl View for User {
    type V = UserView;

    open spec fn view(&self) -> UserView {
        UserView {
            id: self.id,
            email: self.email@,
            hash: self.hash@,
            created_at: self.created_at,
        }
    }
}

/// What a session says of its holder: the account's identifier and email as
/// they were when the session was issued.
#[derive(Debug)]
pub struct SessionUser {
    pub id: u128,
    pub email: String,
}

/// A [`SessionUser`] with its email as a sequence of characters.
pub struct SessionUserView {
    pub id: u128,
    pub email: Seq<char>,
}

impl View for SessionUser {
    type V = SessionUserView;

    open spec fn view(&self) -> SessionUserView {
        SessionUserView { id: self.id, email: self.email@ }
    }
}

/// A text that may be missing, as a sequence of characters.
pub open spec fn text_view(text: Option<String>) -> Option<Seq<char>> {
    match text {
        Some(t) => Some(t@),
        None => None,
    }
}

/// The confirmation issued at an instant: it expires 24 hours later.
pub open spec fn issued(id: u128, email: Seq<char>, at: i64) -> ConfirmationView {
    ConfirmationView { id, email, expires_at: (at + CONFIRMATION_LIFETIME) as i64 }
}

/// Whether an instant is early enough for a confirmation issued then to have
/// an expiry.
pub open spec fn can_issue_at(at: i64) -> bool {
    at + CONFIRMATION_LIFETIME <= i64::MAX
}

/// The identity that a session for an account carries.
pub open spec fn identity_of(user: UserView) -> SessionUserView {
    SessionUserView { id: user.id, email: user.email }
}

impl Confirmation {
    /// The confirmation for an email address under a given identifier, issued
    /// at a given instant.
    pub fn issue(id: u128, email: String, at: i64) -> (c: Confirmation)
        requires
            can_issue_at(at),
        ensures
            c@ == issued(id, email@, at),
    {
        Confirmation { id, email, expires_at: at + CONFIRMATION_LIFETIME }
    }

    /// A confirmation for an email address, under a fresh random identifier
    /// and issued now: it expires 24 hours after the instant that the clock
    /// shows.
    pub fn from(email: String) -> (c: Confirmation)
        ensures
            is_random_id(c.id),
            exists|at: i64| in_calendar(at) && can_issue_at(at) && c@ == issued(c.id, email@, at),
    {
        let id: u128 = fresh_id();
        let at: i64 = now();
        let c = Confirmation::issue(id, email, at);
        assert(in_calendar(at) && can_issue_at(at) && c@ == issued(c.id, email@, at));
        c
    }

    /// Whether the confirmation can still be redeemed at an instant: only
    /// before its expiry.
    pub fn is_live(&self, at: i64) -> (r: bool)
        ensures
            r == (self.expires_at > at),
    {
        self.expires_at > at
    }
}

impl User {
    /// The account for an email address and a password hash, under a given
    /// identifier and created at a given instant.
    pub fn create(id: u128, email: String, hash: String, at: i64) -> (u: User)
        ensures
            u@ == (UserView { id, email: email@, hash: hash@, created_at: at }),
    {
        User { id, email, hash, created_at: at }
    }

    /// An account for an email address and a password hash, under a fresh
    /// random identifier and created at the instant that the clock shows.
    /// The hash is kept as it is given.
    pub fn from(email: String, hash: String) -> (u: User)
        ensures
            u.email@ == email@,
            u.hash@ == hash@,
            is_random_id(u.id),
            in_calendar(u.created_at),
    {
        let id: u128 = fresh_id();
        let at: i64 = now();
        User::create(id, email, hash, at)
    }
}

impl vstd::std_specs::convert::FromSpecImpl<User> for SessionUser {
    open spec fn obeys_from_spec() -> bool {
        true
    }

    open spec fn from_spec(user: User) -> SessionUser {
        SessionUser { id: user.id, email: user.email }
    }
}

impl From<User> for SessionUser {
    /// The identity of an account: its identifier and its email.
    fn from(user: User) -> (s: SessionUser)
        ensures
            s@ == identity_of(user@),
    {
        SessionUser { id: user.id, email: user.email }
    }
}

} // verus!
