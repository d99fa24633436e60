//! What the pages of the service are filled with. Rendering is the caller's.

use vstd::prelude::*;

use crate::models::{text_view, SessionUser, SessionUserView};

verus! {

/// The page on which an email address is entered.
#[derive(Debug)]
pub struct Register {
    pub sent: bool,
    pub error: Option<String>,
}

/// A [`Register`] page by its view.
pub struct RegisterView {
    pub sent: bool,
    pub error: Option<Seq<char>>,
}

impl View for Register {
    type V = RegisterView;

    open spec fn view(&self) -> RegisterView {
        RegisterView { sent: self.sent, error: text_view(self.error) }
    }
}

/// The page on which the password for a confirmed email address is set.
#[derive(Debug)]
pub struct Password {
    pub email: String,
    pub path_id: String,
    pub error: Option<String>,
}

/// A [`Password`] page by its view.
pub struct PasswordView {
    pub email: Seq<char>,
    pub path_id: Seq<char>,
    pub error: Option<Seq<char>>,
}

impl View for Password {
    type V = PasswordView;

    open spec fn view(&self) -> PasswordView {
        PasswordView { email: self.email@, path_id: self.path_id@, error: text_view(self.error) }
    }
}

/// The page that shows the holder of the session.
#[derive(Debug)]
pub struct Me {
    pub user: SessionUser,
}

/// A [`Me`] page by its view.
pub struct MeView {
    pub user: SessionUserView,
}

impl View for Me {
    type V = MeView;

    open spec fn view(&self) -> MeView {
        MeView { user: self.user@ }
    }
}

/// The page on which email address and password are entered.
#[derive(Debug)]
pub struct SignIn {
    pub error: Option<String>,
}

/// A [`SignIn`] page by its view.
pub struct SignInView {
    pub error: Option<Seq<char>>,
}

impl View for SignIn {
    type V = SignInView;

    open spec fn view(&self) -> SignInView {
        SignInView { error: text_view(self.error) }
    }
}

} // verus!
