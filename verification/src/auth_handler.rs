//! Signing in and out, and the page of the session's holder.

use vstd::prelude::*;
use vstd::string::*;

use crate::errors::{
    display_text, outcome_view, translated, AuthError, AuthErrorView, StorageFailure,
    StorageFailureView,
};
use crate::models::{identity_of, SessionUser, SessionUserView, User, UserView};
use crate::reply::{
    answer, redirect, Body, BodyView, Reply, ReplyView, FOUND, MOVED_PERMANENTLY, NO_CONTENT, OK,
    UNAUTHORIZED,
};
use crate::session::{encoded, Session};
use crate::store::{rows_of, user_views, user_with_email, MemoryStore};
use crate::templates::{Me, MeView, SignIn, SignInView};
use crate::utils::{get_current_user, set_current_user, to_home, verify};

verus! {

/// What a request to sign in carries.
#[derive(Debug)]
pub struct AuthData {
    pub email: String,
    pub password: String,
}

/// The one failure of every sign-in that does not go through, whether no
/// account has the email address or the password is not the account's: a
/// caller cannot tell which.
pub open spec fn user_not_found() -> AuthErrorView {
    AuthErrorView::NotFound("User not found"@)
}

/// What a lookup of accounts gave, by its view.
pub open spec fn loaded_users(loaded: Result<Vec<User>, StorageFailure>) -> Result<
    Seq<UserView>,
    StorageFailureView,
> {
    match loaded {
        Ok(rows) => Ok(user_views(rows@)),
        Err(failure) => Err(failure@),
    }
}

/// The identity that a sign-in gives, from what the lookup by email address
/// gave and from the verifier's answer for the password against that
/// account's hash (`None` where the verifier failed or was not asked).
pub open spec fn user_found(
    loaded: Result<Seq<UserView>, StorageFailureView>,
    verdict: Option<bool>,
) -> Result<SessionUserView, AuthErrorView> {
    match loaded {
        Err(failure) => Err(translated(failure)),
        Ok(rows) => if rows.len() > 0 && verdict == Some(true) {
            Ok(identity_of(rows.last()))
        } else {
            Err(user_not_found())
        },
    }
}

/// The page on which email address and password are entered, as a reply.
pub open spec fn sign_in_page(error: Option<Seq<char>>) -> ReplyView {
    answer(OK, BodyView::SignInPage(SignInView { error }))
}

/// The session's token and the reply after a sign-in. The holder is signed
/// in and gets the identity, or is sent home; a failure leaves the session
/// as it was and is told, as an unauthorized request or on the page.
pub open spec fn sign_in_answer(
    token: Option<Seq<char>>,
    outcome: Result<SessionUserView, AuthErrorView>,
    is_json: bool,
) -> (Option<Seq<char>>, ReplyView) {
    match outcome {
        Ok(user) => (
            Some(encoded(user)),
            if is_json {
                answer(OK, BodyView::User(user))
            } else {
                redirect(FOUND, "/me"@)
            },
        ),
        Err(error) => (
            token,
            if is_json {
                answer(UNAUTHORIZED, BodyView::Message(display_text(error)))
            } else {
                sign_in_page(Some(display_text(error)))
            },
        ),
    }
}

/// The reply to a caller who asks who they are.
pub open spec fn me_answer(holder: Option<SessionUserView>, is_json: bool) -> ReplyView {
    match holder {
        Some(user) => if is_json {
            answer(OK, BodyView::User(user))
        } else {
            answer(OK, BodyView::MePage(MeView { user }))
        },
        None => if is_json {
            answer(UNAUTHORIZED, BodyView::Message("Unauthorized"@))
        } else {
            redirect(MOVED_PERMANENTLY, "/signin"@)
        },
    }
}

/// The reply to a caller who signed out.
pub open spec fn sign_out_answer(is_json: bool) -> ReplyView {
    if is_json {
        answer(NO_CONTENT, BodyView::Empty)
    } else {
        redirect(MOVED_PERMANENTLY, "/signin"@)
    }
}

/// The account whose password a sign-in has to verify: the last of the rows
/// that the lookup gave, if it gave any.
pub fn candidate(rows: &Vec<User>) -> (r: Option<&User>)
    ensures
        match r {
            Some(user) => rows@.len() > 0 && *user == rows@.last(),
            None => rows@.len() == 0,
        },
{
    if rows.len() > 0 {
        Some(&rows[rows.len() - 1])
    } else {
        None
    }
}

/// The identity that a sign-in gives, from what the lookup gave and the
/// verifier's answer.
pub fn checked_user(loaded: Result<Vec<User>, StorageFailure>, verdict: Option<bool>) -> (r:
    Result<SessionUser, AuthError>)
    ensures
        outcome_view(r) == user_found(loaded_users(loaded), verdict),
{
    match loaded {
        Err(failure) => Err(AuthError::from(failure)),
        Ok(rows) => {
            let mut items = rows;
            let ghost all = items@;
            if let Some(user) = items.pop() {
                proof {
                    assert(user_views(all).last() == user@);
                }
                if let Ok(matching) = verify(verdict) {
                    if matching {
                        return Ok(SessionUser::from(user));
                    }
                }
            }
            Err(AuthError::NotFound(String::from_str("User not found")))
        },
    }
}

/// Looks the account up by the email address of the request and gives its
/// identity where the verifier accepted the password.
pub fn find_user(data: &AuthData, store: &MemoryStore, verdict: Option<bool>) -> (r: Result<
    SessionUser,
    AuthError,
>)
    ensures
        outcome_view(r) == user_found(
            Ok(rows_of(user_with_email(store@.users, data.email@))),
            verdict,
        ),
{
    checked_user(Ok(store.find_users_by_email(data.email.as_str())), verdict)
}

/// Ends a sign-in: signs the holder in and answers.
pub fn sign_in_reply(
    session: &mut Session,
    outcome: Result<SessionUser, AuthError>,
    is_json: bool,
) -> (r: Reply)
    ensures
        (final(session).token(), r@) == sign_in_answer(
            old(session).token(),
            outcome_view(outcome),
            is_json,
        ),
{
    match outcome {
        Ok(user) => {
            set_current_user(session, &user);
            if is_json {
                Reply::with_body(OK, Body::User(user))
            } else {
                to_home()
            }
        },
        Err(error) => {
            if is_json {
                Reply::with_body(UNAUTHORIZED, Body::Message(error.to_string()))
            } else {
                Reply::with_body(OK, Body::SignInPage(SignIn { error: Some(error.to_string()) }))
            }
        },
    }
}

/// A sign-in, whoever holds the session: the account is looked up, and the
/// caller is signed in where the verifier accepted the password.
pub fn handle_sign_in(
    data: &AuthData,
    session: &mut Session,
    is_json: bool,
    store: &MemoryStore,
    verdict: Option<bool>,
) -> (r: Reply)
    ensures
        (final(session).token(), r@) == sign_in_answer(
            old(session).token(),
            user_found(Ok(rows_of(user_with_email(store@.users, data.email@))), verdict),
            is_json,
        ),
{
    let result = find_user(data, store, verdict);
    sign_in_reply(session, result, is_json)
}

/// A sign-in asked for in JSON. A caller who is signed in already gets the
/// identity of the session back and nothing changes; nobody is looked up.
pub fn sign_in(
    data: &AuthData,
    session: &mut Session,
    is_json: bool,
    store: &MemoryStore,
    verdict: Option<bool>,
) -> (r: Reply)
    ensures
        (final(session).token(), r@) == match old(session).holder() {
            Some(user) => (old(session).token(), answer(OK, BodyView::User(user))),
            None => sign_in_answer(
                old(session).token(),
                user_found(Ok(rows_of(user_with_email(store@.users, data.email@))), verdict),
                is_json,
            ),
        },
{
    match get_current_user(session) {
        Ok(user) => Reply::with_body(OK, Body::User(user)),
        Err(_) => handle_sign_in(data, session, is_json, store, verdict),
    }
}

/// The page on which email address and password are entered. A caller who is
/// signed in is sent home.
pub fn show_sign_in_form(session: &Session) -> (r: Reply)
    ensures
        r@ == if session.holder() is Some {
            redirect(FOUND, "/me"@)
        } else {
            sign_in_page(None)
        },
{
    match get_current_user(session) {
        Ok(_) => to_home(),
        Err(_) => Reply::with_body(OK, Body::SignInPage(SignIn { error: None })),
    }
}

/// A sign-in asked for from a page. As with every sign-in, a caller who is
/// signed in already gets the identity of the session back and nothing
/// changes; nobody is looked up.
pub fn sign_in_for_browser(
    data: &AuthData,
    session: &mut Session,
    is_json: bool,
    store: &MemoryStore,
    verdict: Option<bool>,
) -> (r: Reply)
    ensures
        (final(session).token(), r@) == match old(session).holder() {
            Some(user) => (old(session).token(), answer(OK, BodyView::User(user))),
            None => sign_in_answer(
                old(session).token(),
                user_found(Ok(rows_of(user_with_email(store@.users, data.email@))), verdict),
                is_json,
            ),
        },
{
    sign_in(data, session, is_json, store, verdict)
}

/// Who the caller is: the holder of the session, read from its token alone.
pub fn me(session: &Session, is_json: bool) -> (r: Reply)
    ensures
        r@ == me_answer(session.holder(), is_json),
{
    match get_current_user(session) {
        Ok(user) => {
            if is_json {
                Reply::with_body(OK, Body::User(user))
            } else {
                Reply::with_body(OK, Body::MePage(Me { user }))
            }
        },
        Err(_) => {
            if is_json {
                Reply::with_body(UNAUTHORIZED, Body::Message(String::from_str("Unauthorized")))
            } else {
                Reply::redirect_to(MOVED_PERMANENTLY, "/signin")
            }
        },
    }
}

/// Signs the caller out, whoever it was: the session forgets its holder.
pub fn sign_out(session: &mut Session, is_json: bool) -> (r: Reply)
    ensures
        final(session).token() is None,
        r@ == sign_out_answer(is_json),
{
    session.clear();
    if is_json {
        Reply::with_body(NO_CONTENT, Body::Empty)
    } else {
        Reply::redirect_to(MOVED_PERMANENTLY, "/signin")
    }
}

} // verus!
