//! The closed set of failures that the flows hand to the boundary layer, and
//! the one place where a failure of the store becomes one of them.

use vstd::prelude::*;
use vstd::string::*;

verus! {

/// What a flow can fail with.
#[derive(Debug)]
pub enum AuthError {
    /// A value that must be unique is already stored; the detail comes from the store.
    DuplicateValue(String),
    /// An identifier that cannot be read as one.
    BadId,
    /// Something asked for is not there.
    NotFound(String),
    /// The caller could not be authenticated, or a confirmation is not valid.
    AuthenticationError(String),
    /// The caller already holds a valid session.
    AlreadySignedIn,
    /// The confirmation mail could not be handed over.
    NotificationFailed(String),
    /// Any other failure of the store or of the process, in the library's own
    /// words.
    GenericError(String),
}

/// An [`AuthError`] with its detail as a sequence of characters.
pub enum AuthErrorView {
    DuplicateValue(Seq<char>),
    BadId,
    NotFound(Seq<char>),
    AuthenticationError(Seq<char>),
    AlreadySignedIn,
    NotificationFailed(Seq<char>),
    GenericError(Seq<char>),
}

impl View for AuthError {
    type V = AuthErrorView;

    open spec fn view(&self) -> AuthErrorView {
        match *self {
            AuthError::DuplicateValue(m) => AuthErrorView::DuplicateValue(m@),
            AuthError::BadId => AuthErrorView::BadId,
            AuthError::NotFound(m) => AuthErrorView::NotFound(m@),
            AuthError::AuthenticationError(m) => AuthErrorView::AuthenticationError(m@),
            AuthError::AlreadySignedIn => AuthErrorView::AlreadySignedIn,
            AuthError::NotificationFailed(m) => AuthErrorView::NotificationFailed(m@),
            AuthError::GenericError(m) => AuthErrorView::GenericError(m@),
        }
    }
}

/// The text that an error is shown as: the name of its kind and, where it has
/// one, a colon, a space and the detail.
pub open spec fn display_text(error: AuthErrorView) -> Seq<char> {
    match error {
        AuthErrorView::DuplicateValue(m) => "DuplicateValue: "@ + m,
        AuthErrorView::BadId => "BadId"@,
        AuthErrorView::NotFound(m) => "NotFound: "@ + m,
        AuthErrorView::AuthenticationError(m) => "AuthenticationError: "@ + m,
        AuthErrorView::AlreadySignedIn => "AlreadySignedIn"@,
        AuthErrorView::NotificationFailed(m) => "NotificationFailed: "@ + m,
        AuthErrorView::GenericError(m) => "GenericError: "@ + m,
    }
}

/// The text sent to a caller for an error: the detail alone, so that nothing
/// of the taxonomy's names leaves the service; the two errors without a
/// detail are answered with a fixed sentence each.
pub open spec fn response_text(error: AuthErrorView) -> Seq<char> {
    match error {
        AuthErrorView::DuplicateValue(m) => m,
        AuthErrorView::BadId => "Invalid ID"@,
        AuthErrorView::NotFound(m) => m,
        AuthErrorView::AuthenticationError(m) => m,
        AuthErrorView::AlreadySignedIn => "Already signed in"@,
        AuthErrorView::NotificationFailed(m) => m,
        AuthErrorView::GenericError(m) => m,
    }
}

/// What a flow gave, by its view.
pub open spec fn outcome_view<T: View>(outcome: Result<T, AuthError>) -> Result<T::V, AuthErrorView> {
    match outcome {
        Ok(value) => Ok(value@),
        Err(error) => Err(error@),
    }
}

/// The failure of work that was given up before it finished.
pub open spec fn not_completed() -> AuthErrorView {
    AuthErrorView::GenericError("Could not complete the process"@)
}

/// How work that ran elsewhere ended.
#[derive(Debug)]
pub enum Blocked<T> {
    /// It ran to its end, with this outcome.
    Finished(Result<T, AuthError>),
    /// It was given up before it finished.
    Canceled,
}

impl<T> Blocked<T> {
    /// The outcome of the work: its own, or a generic error where it was
    /// given up.
    pub fn settle(self) -> (r: Result<T, AuthError>)
        ensures
            match self {
                Blocked::Finished(outcome) => r == outcome,
                Blocked::Canceled => r matches Err(error) && error@ == not_completed(),
            },
    {
        match self {
            Blocked::Finished(outcome) => outcome,
            Blocked::Canceled => Err(
                AuthError::GenericError(String::from_str("Could not complete the process")),
            ),
        }
    }
}

/// How blocked work ended, by its view.
pub open spec fn settled_view<T: View>(outcome: Blocked<T>) -> Result<T::V, AuthErrorView> {
    match outcome {
        Blocked::Finished(result) => outcome_view(result),
        Blocked::Canceled => Err(not_completed()),
    }
}

fn labelled(label: &str, detail: &String) -> (r: String)
    ensures
        r@ == label@ + detail@,
{
    String::from_str(label).concat(detail.as_str())
}

impl AuthError {
    /// The error as a line of text.
    pub fn to_string(&self) -> (r: String)
        ensures
            r@ == display_text(self@),
    {
        match self {
            AuthError::DuplicateValue(m) => labelled("DuplicateValue: ", m),
            AuthError::BadId => String::from_str("BadId"),
            AuthError::NotFound(m) => labelled("NotFound: ", m),
            AuthError::AuthenticationError(m) => labelled("AuthenticationError: ", m),
            AuthError::AlreadySignedIn => String::from_str("AlreadySignedIn"),
            AuthError::NotificationFailed(m) => labelled("NotificationFailed: ", m),
            AuthError::GenericError(m) => labelled("GenericError: ", m),
        }
    }

    /// The message that answers a request which failed with this error.
    pub fn response_message(&self) -> (r: String)
        ensures
            r@ == response_text(self@),
    {
        match self {
            AuthError::DuplicateValue(m) => m.clone(),
            AuthError::BadId => String::from_str("Invalid ID"),
            AuthError::NotFound(m) => m.clone(),
            AuthError::AuthenticationError(m) => m.clone(),
            AuthError::AlreadySignedIn => String::from_str("Already signed in"),
            AuthError::NotificationFailed(m) => m.clone(),
            AuthError::GenericError(m) => m.clone(),
        }
    }
}

/// Which constraint of the store a write ran into, as far as the flows care.
#[derive(Debug, Clone, Copy, PartialEq, Eq, Structural)]
pub enum StorageErrorKind {
    /// A unique key is already taken.
    UniqueViolation,
    /// Any other constraint or failure that the store names.
    Other,
}

/// A failure of the store, reduced to what the translation reads.
#[derive(Debug)]
pub enum StorageFailure {
    /// The store refused a statement and said why.
    Database { kind: StorageErrorKind, details: Option<String>, message: String },
    /// The statement did not reach the store, or its answer could not be read.
    Unclassified,
}

/// A [`StorageFailure`] with its texts as sequences of characters.
pub enum StorageFailureView {
    Database { kind: StorageErrorKind, details: Option<Seq<char>>, message: Seq<char> },
    Unclassified,
}

impl View for StorageFailure {
    type V = StorageFailureView;

    open spec fn view(&self) -> StorageFailureView {
        match *self {
            StorageFailure::Database { kind, details, message } => StorageFailureView::Database {
                kind,
                details: match details {
                    Some(d) => Some(d@),
                    None => None,
                },
                message: message@,
            },
            StorageFailure::Unclassified => StorageFailureView::Unclassified,
        }
    }
}

/// The failure of the store that the flows do not tell apart: one fixed text,
/// so that nothing of the store's own words (tables, columns, constraints)
/// reaches a caller.
pub open spec fn store_failed() -> AuthErrorView {
    AuthErrorView::GenericError("Some database error occured"@)
}

/// What a failure of the store means to the flows. A unique key already
/// taken is a duplicate value, with the store's detail, its longer form where
/// it gave one. Everything else is one generic error, whatever the store said
/// of it.
pub open spec fn translated(failure: StorageFailureView) -> AuthErrorView {
    match failure {
        StorageFailureView::Database { kind, details, message } => {
            if kind == StorageErrorKind::UniqueViolation {
                AuthErrorView::DuplicateValue(
                    match details {
                        Some(d) => d,
                        None => message,
                    },
                )
            } else {
                store_failed()
            }
        },
        StorageFailureView::Unclassified => store_failed(),
    }
}

impl vstd::std_specs::convert::FromSpecImpl<uuid::Error> for AuthError {
    open spec fn obeys_from_spec() -> bool {
        true
    }

    open spec fn from_spec(error: uuid::Error) -> AuthError {
        AuthError::BadId
    }
}

impl From<uuid::Error> for AuthError {
    /// A text that is no identifier is a bad identifier, whatever was wrong
    /// with it.
    fn from(error: uuid::Error) -> (r: AuthError)
        ensures
            r == AuthError::BadId,
    {
        AuthError::BadId
    }
}

/// The translation is pinned down by the view of its result (see `from`), not
/// as a value: two strings with the same characters need not be one value.
impl vstd::std_specs::convert::FromSpecImpl<StorageFailure> for AuthError {
    open spec fn obeys_from_spec() -> bool {
        false
    }

    open spec fn from_spec(failure: StorageFailure) -> AuthError {
        choose|e: AuthError| e@ == translated(failure@)
    }
}

impl From<StorageFailure> for AuthError {
    fn from(failure: StorageFailure) -> (r: AuthError)
        ensures
            r@ == translated(failure@),
    {
        match failure {
            StorageFailure::Database { kind, details, message } => {
                match kind {
                    StorageErrorKind::UniqueViolation => AuthError::DuplicateValue(
                        match details {
                            Some(d) => d,
                            None => message,
                        },
                    ),
                    StorageErrorKind::Other => AuthError::GenericError(
                        String::from_str("Some database error occured"),
                    ),
                }
            },
            StorageFailure::Unclassified => AuthError::GenericError(
                String::from_str("Some database error occured"),
            ),
        }
    }
}

} // verus!
