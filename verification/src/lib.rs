//! Account provisioning and session authentication: the decisions of the
//! service, stated and proved over plain values.
//!
//! Users register by email address, redeem a confirmation that lasts 24
//! hours for an account with a password, and sign in to a session. The
//! store, the password hasher and the mail transport are the caller's; the
//! library is handed their answers and says what follows from them.

pub mod auth_handler;
pub mod clock;
pub mod email_service;
pub mod errors;
pub mod ids;
pub mod laws;
pub mod models;
pub mod password_handler;
pub mod register_handler;
pub mod reply;
pub mod session;
pub mod store;
pub mod templates;
pub mod utils;
pub mod vars;
