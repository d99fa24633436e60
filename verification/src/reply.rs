//! What a request is answered with, as plain values: a status, the place to
//! go to where the answer redirects, and a body. The boundary layer turns a
//! reply into its transport's response.

use vstd::prelude::*;
use vstd::string::*;

use crate::errors::{response_text, AuthError, AuthErrorView};
use crate::models::{SessionUser, SessionUserView};
use crate::templates::{
    Me, MeView, Password, PasswordView, Register, RegisterView, SignIn, SignInView,
};

verus! {

pub const OK: u16 = 200;

pub const CREATED: u16 = 201;

pub const NO_CONTENT: u16 = 204;

pub const MOVED_PERMANENTLY: u16 = 301;

pub const FOUND: u16 = 302;

pub const BAD_REQUEST: u16 = 400;

pub const UNAUTHORIZED: u16 = 401;

/// The body of a reply.
#[derive(Debug)]
pub enum Body {
    /// Nothing.
    Empty,
    /// A text, sent as a JSON string.
    Message(String),
    /// An identity, sent as a JSON object.
    User(SessionUser),
    /// A page.
    RegisterPage(Register),
    /// A page.
    PasswordPage(Password),
    /// A page.
    MePage(Me),
    /// A page.
    SignInPage(SignIn),
}

/// A [`Body`] by its view.
pub enum BodyView {
    Empty,
    Message(Seq<char>),
    User(SessionUserView),
    RegisterPage(RegisterView),
    PasswordPage(PasswordView),
    MePage(MeView),
    SignInPage(SignInView),
}

impl View for Body {
    type V = BodyView;

    open spec fn view(&self) -> BodyView {
        match *self {
            Body::Empty => BodyView::Empty,
            Body::Message(text) => BodyView::Message(text@),
            Body::User(user) => BodyView::User(user@),
            Body::RegisterPage(page) => BodyView::RegisterPage(page@),
            Body::PasswordPage(page) => BodyView::PasswordPage(page@),
            Body::MePage(page) => BodyView::MePage(page@),
            Body::SignInPage(page) => BodyView::SignInPage(page@),
        }
    }
}

/// The answer to a request.
#[derive(Debug)]
pub struct Reply {
    pub status: u16,
    pub location: Option<String>,
    pub body: Body,
}

/// A [`Reply`] by its view.
pub struct ReplyView {
    pub status: u16,
    pub location: Option<Seq<char>>,
    pub body: BodyView,
}

impl View for Reply {
    type V = ReplyView;

    open spec fn view(&self) -> ReplyView {
        ReplyView {
            status: self.status,
            location: match self.location {
                Some(place) => Some(place@),
                None => None,
            },
            body: self.body@,
        }
    }
}

/// A reply with a body and no place to go to.
pub open spec fn answer(status: u16, body: BodyView) -> ReplyView {
    ReplyView { status, location: None, body }
}

/// A reply that sends the caller elsewhere.
pub open spec fn redirect(status: u16, place: Seq<char>) -> ReplyView {
    ReplyView { status, location: Some(place), body: BodyView::Empty }
}

/// The reply to a request that failed: a bad request with the error's
/// message, or with nothing where the caller was signed in already.
pub open spec fn refusal(error: AuthErrorView) -> ReplyView {
    match error {
        AuthErrorView::AlreadySignedIn => answer(BAD_REQUEST, BodyView::Empty),
        _ => answer(BAD_REQUEST, BodyView::Message(response_text(error))),
    }
}

impl Reply {
    /// A reply with a body and no place to go to.
    pub fn with_body(status: u16, body: Body) -> (r: Reply)
        ensures
            r@ == answer(status, body@),
    {
        Reply { status, location: None, body }
    }

    /// A reply that sends the caller elsewhere.
    pub fn redirect_to(status: u16, place: &str) -> (r: Reply)
        ensures
            r@ == redirect(status, place@),
    {
        Reply { status, location: Some(String::from_str(place)), body: Body::Empty }
    }
}

impl AuthError {
    /// The reply to a request that failed with this error.
    pub fn error_response(&self) -> (r: Reply)
        ensures
            r@ == refusal(self@),
    {
        match self {
            AuthError::AlreadySignedIn => Reply::with_body(BAD_REQUEST, Body::Empty),
            _ => Reply::with_body(BAD_REQUEST, Body::Message(self.response_message())),
        }
    }
}

} // verus!
