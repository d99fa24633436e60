//! Activation: a confirmation is redeemed for an account, and the new
//! account's holder is signed in.

use vstd::prelude::*;
use vstd::string::*;

use crate::errors::{
    outcome_view, settled_view, translated, AuthError, AuthErrorView, Blocked, StorageFailure,
    StorageFailureView,
};
use crate::ids::{parse_uuid, parsed_id};
use crate::models::{
    identity_of, text_view, Confirmation, ConfirmationView, SessionUser, SessionUserView, User,
    UserView,
};
use crate::reply::{
    answer, redirect, refusal, Body, BodyView, Reply, ReplyView, CREATED, FOUND,
    MOVED_PERMANENTLY, OK,
};
use crate::session::{encoded, Session};
use crate::store::{
    after_insert_user, confirmation_views, confirmation_with_id, inserted_view, rows_of,
    MemoryStore, StoreView,
};
use crate::templates::{Password, PasswordView};
use crate::utils::{hash_outcome, hash_password, is_signed_in, set_current_user, to_home};

verus! {

/// The failure of redeeming a confirmation that is not there or has expired:
/// one error for both, so that a caller cannot tell them apart.
pub open spec fn invalid_confirmation() -> AuthErrorView {
    AuthErrorView::AuthenticationError("Invalid confirmation"@)
}

/// The failure of a lookup that the store could not answer.
pub open spec fn confirmation_not_found() -> AuthErrorView {
    AuthErrorView::NotFound("Confirmation not found"@)
}

/// What a lookup of confirmations gave, by its view.
pub open spec fn loaded_confirmations(loaded: Result<Vec<Confirmation>, StorageFailure>) -> Result<
    Seq<ConfirmationView>,
    StorageFailureView,
> {
    match loaded {
        Ok(rows) => Ok(confirmation_views(rows@)),
        Err(failure) => Err(failure@),
    }
}

/// The identifier that a path names, or `BadId`.
pub open spec fn path_id_read(path_id: Seq<char>) -> Result<u128, AuthErrorView> {
    match parsed_id(path_id) {
        Some(id) => Ok(id),
        None => Err(AuthErrorView::BadId),
    }
}

/// The confirmation that is redeemed from what a lookup gave at an instant:
/// the last row, if there is one and it has not expired.
pub open spec fn redeemed(
    loaded: Result<Seq<ConfirmationView>, StorageFailureView>,
    at: i64,
) -> Result<ConfirmationView, AuthErrorView> {
    match loaded {
        Err(_) => Err(confirmation_not_found()),
        Ok(rows) => if rows.len() > 0 && rows.last().expires_at > at {
            Ok(rows.last())
        } else {
            Err(invalid_confirmation())
        },
    }
}

/// What the insert of an account means to the caller: the identity of the
/// new account, or the store's failure in the service's own terms.
pub open spec fn creation_outcome(inserted: Result<UserView, StorageFailureView>) -> Result<
    SessionUserView,
    AuthErrorView,
> {
    match inserted {
        Ok(user) => Ok(identity_of(user)),
        Err(failure) => Err(translated(failure)),
    }
}

/// The store after an activation with the identifier of a confirmation, and
/// what the activation gives. The confirmation must be there and not
/// expired; the password must have been hashed; and the store must accept
/// the account, which it does not where the email address has one already.
pub open spec fn activation(
    store: StoreView,
    token: u128,
    hashed: Option<Seq<char>>,
    id: u128,
    at: i64,
) -> (StoreView, Result<SessionUserView, AuthErrorView>) {
    match redeemed(Ok(rows_of(confirmation_with_id(store.confirmations, token))), at) {
        Err(error) => (store, Err(error)),
        Ok(confirmation) => match hash_outcome(hashed) {
            Err(error) => (store, Err(error)),
            Ok(hash) => {
                let account = UserView { id, email: confirmation.email, hash, created_at: at };
                let (after, inserted) = after_insert_user(store, account);
                (after, creation_outcome(inserted))
            },
        },
    }
}

/// The store after an activation with a path, and what the activation gives:
/// the path must name an identifier, and the rest is the activation with
/// that identifier.
pub open spec fn user_creation(
    store: StoreView,
    path_id: Seq<char>,
    hashed: Option<Seq<char>>,
    id: u128,
    at: i64,
) -> (StoreView, Result<SessionUserView, AuthErrorView>) {
    match path_id_read(path_id) {
        Err(error) => (store, Err(error)),
        Ok(token) => activation(store, token, hashed, id, at),
    }
}

/// The invitation that a path names in a store at an instant: the
/// confirmation under the identifier that the path names, as it would be
/// redeemed then. One that has expired is as little an invitation as one
/// that is not there.
pub open spec fn invitation_found(store: StoreView, path_id: Seq<char>, at: i64) -> Result<
    ConfirmationView,
    AuthErrorView,
> {
    match path_id_read(path_id) {
        Err(error) => Err(error),
        Ok(token) => redeemed(Ok(rows_of(confirmation_with_id(store.confirmations, token))), at),
    }
}

/// Reads the identifier that a path names.
pub fn parse_path_id(path_id: &str) -> (r: Result<u128, AuthError>)
    ensures
        outcome_view_id(r) == path_id_read(path_id@),
{
    match parse_uuid(path_id) {
        Ok(id) => Ok(id),
        Err(error) => Err(AuthError::from(error)),
    }
}

/// The outcome of reading an identifier, by its view.
pub open spec fn outcome_view_id(outcome: Result<u128, AuthError>) -> Result<u128, AuthErrorView> {
    match outcome {
        Ok(id) => Ok(id),
        Err(error) => Err(error@),
    }
}

/// Redeems a confirmation from what a lookup gave, at an instant.
pub fn redeem(loaded: Result<Vec<Confirmation>, StorageFailure>, at: i64) -> (r: Result<
    Confirmation,
    AuthError,
>)
    ensures
        outcome_view(r) == redeemed(loaded_confirmations(loaded), at),
{
    match loaded {
        Err(_) => Err(AuthError::NotFound(String::from_str("Confirmation not found"))),
        Ok(rows) => {
            let mut rows = rows;
            let ghost all = rows@;
            match rows.pop() {
                Some(confirmation) => {
                    proof {
                        assert(confirmation_views(all).last() == confirmation@);
                    }
                    if confirmation.is_live(at) {
                        Ok(confirmation)
                    } else {
                        Err(
                            AuthError::AuthenticationError(
                                String::from_str("Invalid confirmation"),
                            ),
                        )
                    }
                },
                None => Err(
                    AuthError::AuthenticationError(String::from_str("Invalid confirmation")),
                ),
            }
        },
    }
}

/// What the insert of an account means to the caller.
pub fn created(inserted: Result<User, StorageFailure>) -> (r: Result<SessionUser, AuthError>)
    ensures
        outcome_view(r) == creation_outcome(inserted_view(inserted)),
{
    match inserted {
        Ok(user) => Ok(SessionUser::from(user)),
        Err(failure) => Err(AuthError::from(failure)),
    }
}

/// The confirmation under an identifier, as it would be redeemed at an
/// instant: there is none where no confirmation has the identifier or the
/// one that has it has expired, and the error is the same for both.
pub fn find_invitation(token: u128, store: &MemoryStore, at: i64) -> (r: Result<
    Confirmation,
    AuthError,
>)
    ensures
        outcome_view(r) == redeemed(
            Ok(rows_of(confirmation_with_id(store@.confirmations, token))),
            at,
        ),
{
    redeem(Ok(store.find_confirmation(token)), at)
}

/// The confirmation that a path names, as it would be redeemed at an
/// instant.
pub fn get_invitation(path_id: &str, store: &MemoryStore, at: i64) -> (r: Result<
    Confirmation,
    AuthError,
>)
    ensures
        outcome_view(r) == invitation_found(store@, path_id@, at),
{
    match parse_path_id(path_id) {
        Err(error) => Err(error),
        Ok(token) => find_invitation(token, store, at),
    }
}

/// Redeems the confirmation under an identifier for an account with the
/// given password hash, identifier and instant of creation: the attempt goes
/// from requested over confirmed to activated, or is rejected on the way.
pub fn activate(
    token: u128,
    hashed: Option<String>,
    store: &mut MemoryStore,
    id: u128,
    at: i64,
) -> (r: Result<SessionUser, AuthError>)
    ensures
        (final(store)@, outcome_view(r)) == activation(
            old(store)@,
            token,
            text_view(hashed),
            id,
            at,
        ),
{
    let confirmation = match find_invitation(token, store, at) {
        Ok(confirmation) => confirmation,
        Err(error) => {
            return Err(error);
        },
    };
    let hash = match hash_password(hashed) {
        Ok(hash) => hash,
        Err(error) => {
            return Err(error);
        },
    };
    created(store.insert_user(User::create(id, confirmation.email, hash, at)))
}

/// Redeems the confirmation that a path names for an account with the given
/// password hash, identifier and instant of creation.
pub fn create_user(
    path_id: &str,
    hashed: Option<String>,
    store: &mut MemoryStore,
    id: u128,
    at: i64,
) -> (r: Result<SessionUser, AuthError>)
    ensures
        (final(store)@, outcome_view(r)) == user_creation(
            old(store)@,
            path_id@,
            text_view(hashed),
            id,
            at,
        ),
{
    match parse_path_id(path_id) {
        Ok(token) => activate(token, hashed, store, id, at),
        Err(error) => Err(error),
    }
}

/// The page on which a password is set, as a reply.
pub open spec fn password_page(
    path_id: Seq<char>,
    email: Seq<char>,
    error: Option<Seq<char>>,
) -> ReplyView {
    answer(OK, BodyView::PasswordPage(PasswordView { email, path_id, error }))
}

/// The reply to a caller who asked for the password page: the page for the
/// invited email address, or the way back to registration.
pub open spec fn password_form_reply(
    path_id: Seq<char>,
    invitation: Result<ConfirmationView, AuthErrorView>,
) -> ReplyView {
    match invitation {
        Ok(confirmation) => password_page(path_id, confirmation.email, None),
        Err(_) => redirect(MOVED_PERMANENTLY, "/register"@),
    }
}

/// The session's token and the reply after an activation asked for in JSON:
/// the new account's holder is signed in and gets the identity; a failure
/// leaves the session as it was and is handed on.
pub open spec fn account_answer(
    token: Option<Seq<char>>,
    outcome: Result<SessionUserView, AuthErrorView>,
) -> (Option<Seq<char>>, Result<ReplyView, AuthErrorView>) {
    match outcome {
        Ok(user) => (Some(encoded(user)), Ok(answer(CREATED, BodyView::User(user)))),
        Err(error) => (token, Err(error)),
    }
}

/// The session's token and the reply after an activation asked for from a
/// page: the new account's holder is signed in and sent home; every failure
/// shows the page again with one and the same message.
pub open spec fn browser_account_answer(
    token: Option<Seq<char>>,
    path_id: Seq<char>,
    outcome: Result<SessionUserView, AuthErrorView>,
) -> (Option<Seq<char>>, ReplyView) {
    match outcome {
        Ok(user) => (Some(encoded(user)), redirect(FOUND, "/me"@)),
        Err(_) => (
            token,
            password_page(
                path_id,
                "unknown@email.com"@,
                Some("Invalid/expired confirmation id"@),
            ),
        ),
    }
}

/// The reply to a caller who asked for the password page, from the
/// invitation that was found.
pub fn password_form(path_id: &str, invitation: Result<Confirmation, AuthError>) -> (r: Reply)
    ensures
        r@ == password_form_reply(path_id@, outcome_view(invitation)),
{
    match invitation {
        Ok(confirmation) => Reply::with_body(
            OK,
            Body::PasswordPage(
                Password {
                    email: confirmation.email,
                    path_id: String::from_str(path_id),
                    error: None,
                },
            ),
        ),
        Err(_) => Reply::redirect_to(MOVED_PERMANENTLY, "/register"),
    }
}

/// Ends an activation asked for in JSON: signs the new holder in and
/// answers.
pub fn account_reply(session: &mut Session, outcome: Blocked<SessionUser>) -> (r: Result<
    Reply,
    AuthError,
>)
    ensures
        (final(session).token(), outcome_view(r)) == account_answer(
            old(session).token(),
            settled_view(outcome),
        ),
{
    match outcome.settle() {
        Ok(user) => {
            set_current_user(session, &user);
            Ok(Reply::with_body(CREATED, Body::User(user)))
        },
        Err(error) => Err(error),
    }
}

/// Ends an activation asked for from a page: signs the new holder in and
/// answers.
pub fn browser_account_reply(
    session: &mut Session,
    path_id: &str,
    outcome: Blocked<SessionUser>,
) -> (r: Reply)
    ensures
        (final(session).token(), r@) == browser_account_answer(
            old(session).token(),
            path_id@,
            settled_view(outcome),
        ),
{
    match outcome.settle() {
        Ok(user) => {
            set_current_user(session, &user);
            to_home()
        },
        Err(_) => Reply::with_body(
            OK,
            Body::PasswordPage(
                Password {
                    email: String::from_str("unknown@email.com"),
                    path_id: String::from_str(path_id),
                    error: Some(String::from_str("Invalid/expired confirmation id")),
                },
            ),
        ),
    }
}

/// Activation asked for in JSON. A caller who is signed in already is
/// refused and nothing changes; otherwise the confirmation is redeemed and
/// the new account's holder signed in.
pub fn create_account(
    session: &mut Session,
    path_id: &str,
    hashed: Option<String>,
    store: &mut MemoryStore,
    id: u128,
    at: i64,
) -> (r: Result<Reply, AuthError>)
    ensures
        old(session).holder() is Some ==> {
            &&& outcome_view(r) == Err::<ReplyView, AuthErrorView>(AuthErrorView::AlreadySignedIn)
            &&& final(session).token() == old(session).token()
            &&& final(store)@ == old(store)@
        },
        old(session).holder() is None ==> {
            let (after, outcome) = user_creation(
                old(store)@,
                path_id@,
                text_view(hashed),
                id,
                at,
            );
            &&& final(store)@ == after
            &&& (final(session).token(), outcome_view(r)) == account_answer(
                old(session).token(),
                outcome,
            )
        },
{
    if is_signed_in(session) {
        return Err(AuthError::AlreadySignedIn);
    }
    let outcome = create_user(path_id, hashed, store, id, at);
    account_reply(session, Blocked::Finished(outcome))
}

/// The password page for the confirmation that a path names, at an instant.
/// A caller who is signed in is sent home. A path that names no identifier,
/// an identifier that no confirmation has and a confirmation that has
/// expired all lead back to registration, and no email address is shown.
pub fn show_password_form(session: &Session, path_id: &str, store: &MemoryStore, at: i64) -> (r:
    Reply)
    ensures
        r@ == if session.holder() is Some {
            redirect(FOUND, "/me"@)
        } else {
            password_form_reply(path_id@, invitation_found(store@, path_id@, at))
        },
{
    if is_signed_in(session) {
        to_home()
    } else {
        password_form(path_id, get_invitation(path_id, store, at))
    }
}

/// Activation asked for from a page. A caller who is signed in already is
/// refused and nothing changes; otherwise the confirmation is redeemed and
/// the new account's holder signed in and sent home.
pub fn create_account_for_browser(
    path_id: &str,
    hashed: Option<String>,
    session: &mut Session,
    store: &mut MemoryStore,
    id: u128,
    at: i64,
) -> (r: Reply)
    ensures
        old(session).holder() is Some ==> {
            &&& r@ == refusal(AuthErrorView::AlreadySignedIn)
            &&& final(session).token() == old(session).token()
            &&& final(store)@ == old(store)@
        },
        old(session).holder() is None ==> {
            let (after, outcome) = user_creation(
                old(store)@,
                path_id@,
                text_view(hashed),
                id,
                at,
            );
            &&& final(store)@ == after
            &&& (final(session).token(), r@) == browser_account_answer(
                old(session).token(),
                path_id@,
                outcome,
            )
        },
{
    if is_signed_in(session) {
        return AuthError::AlreadySignedIn.error_response();
    }
    let outcome = create_user(path_id, hashed, store, id, at);
    browser_account_reply(session, path_id, Blocked::Finished(outcome))
}

} // verus!
