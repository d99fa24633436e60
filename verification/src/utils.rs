//! What the handlers share: the outcome of hashing and of verifying a
//! password, the kind of a request, and the holder of a session.

use vstd::prelude::*;
use vstd::string::*;

use crate::errors::{AuthError, AuthErrorView};
use crate::models::{text_view, SessionUser};
use crate::reply::{redirect, Reply, FOUND};
use crate::session::{
    decode, encode, encoded, lemma_decode_encode, no_session, Session,
};

verus! {

/// The failure of hashing a password.
pub open spec fn hashing_failed() -> AuthErrorView {
    AuthErrorView::AuthenticationError("Could not hash password"@)
}

/// The failure of verifying a password.
pub open spec fn verification_failed() -> AuthErrorView {
    AuthErrorView::AuthenticationError("Could not verify password"@)
}

/// What a flow makes of the hasher's answer: the hash, or an authentication
/// error where the hasher failed or gave an empty hash, which no account may
/// hold.
pub open spec fn hash_outcome(hashed: Option<Seq<char>>) -> Result<Seq<char>, AuthErrorView> {
    match hashed {
        Some(hash) if hash.len() > 0 => Ok(hash),
        _ => Err(hashing_failed()),
    }
}

/// The outcome of hashing a password, from the hasher's answer: `None` where
/// the hasher failed.
pub fn hash_password(hashed: Option<String>) -> (r: Result<String, AuthError>)
    ensures
        match hash_outcome(text_view(hashed)) {
            Ok(hash) => r matches Ok(h) && h@ == hash,
            Err(error) => r matches Err(e) && e@ == error,
        },
{
    match hashed {
        Some(hash) => {
            if hash.as_str().unicode_len() > 0 {
                Ok(hash)
            } else {
                Err(AuthError::AuthenticationError(String::from_str("Could not hash password")))
            }
        },
        None => Err(AuthError::AuthenticationError(String::from_str("Could not hash password"))),
    }
}

/// The outcome of verifying a password against a hash, from the verifier's
/// answer: `None` where the verifier failed, as on a malformed hash.
pub fn verify(verdict: Option<bool>) -> (r: Result<bool, AuthError>)
    ensures
        match verdict {
            Some(matching) => r == Ok::<bool, AuthError>(matching),
            None => r matches Err(e) && e@ == verification_failed(),
        },
{
    match verdict {
        Some(matching) => Ok(matching),
        None => Err(AuthError::AuthenticationError(String::from_str("Could not verify password"))),
    }
}

/// Whether a request asks for JSON: its content type is exactly
/// `application/json`.
pub fn is_json_request(content_type: Option<&str>) -> (r: bool)
    ensures
        r == (content_type matches Some(kind) && kind@ == "application/json"@),
{
    match content_type {
        Some(kind) => String::from_str(kind) == String::from_str("application/json"),
        None => false,
    }
}

/// The holder of a session, or the one error that every session without a
/// holder gives: whether it keeps no token or one that cannot be read.
pub fn get_current_user(session: &Session) -> (r: Result<SessionUser, AuthError>)
    ensures
        match session.holder() {
            Some(user) => r matches Ok(found) && found@ == user,
            None => r matches Err(error) && error@ == no_session(),
        },
{
    match &session.user {
        Some(token) => decode(token.as_str()),
        None => Err(
            AuthError::AuthenticationError(
                String::from_str("Could not retrieve user from session"),
            ),
        ),
    }
}

/// Whether a session has a holder.
pub fn is_signed_in(session: &Session) -> (r: bool)
    ensures
        r == (session.holder() is Some),
{
    match get_current_user(session) {
        Ok(_) => true,
        Err(_) => false,
    }
}

/// Makes a user the holder of a session.
pub fn set_current_user(session: &mut Session, user: &SessionUser)
    ensures
        final(session).token() == Some(encoded(user@)),
        final(session).holder() == Some(user@),
{
    session.user = Some(encode(user));
    proof {
        lemma_decode_encode(user@);
    }
}

/// The reply that sends a signed-in caller to their own page.
pub fn to_home() -> (r: Reply)
    ensures
        r@ == redirect(FOUND, "/me"@),
{
    Reply::redirect_to(FOUND, "/me")
}

} // verus!
