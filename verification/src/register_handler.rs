//! Registration: a confirmation is recorded for an email address and the
//! mail that carries its link is sent.

use vstd::prelude::*;
use vstd::string::*;

use crate::email_service::{
    after_dispatch, send_confirmation_mail, MailSettings, MailView, Outbox,
};
use crate::errors::{
    display_text, outcome_view, settled_view, translated, AuthError, AuthErrorView, Blocked, StorageFailure,
    StorageFailureView,
};
use crate::models::{can_issue_at, issued, Confirmation, ConfirmationView};
use crate::reply::{answer, redirect, refusal, Body, BodyView, Reply, ReplyView, FOUND, OK};
use crate::session::Session;
use crate::store::{after_insert_confirmation, inserted_view, MemoryStore, StoreView};
use crate::templates::{Register, RegisterView};
use crate::utils::{is_signed_in, to_home};

verus! {

/// What a request to register carries.
#[derive(Debug)]
pub struct RegisterData {
    pub email: String,
}

/// What the insert of a confirmation means to the caller: the row, or the
/// store's failure in the service's own terms.
pub open spec fn record_outcome(
    inserted: Result<ConfirmationView, StorageFailureView>,
) -> Result<ConfirmationView, AuthErrorView> {
    match inserted {
        Ok(row) => Ok(row),
        Err(failure) => Err(translated(failure)),
    }
}

/// The store after a confirmation for an email address was recorded, and
/// what recording gives. No look is taken at the confirmations or accounts
/// that the address has already.
pub open spec fn record_insertion(store: StoreView, email: Seq<char>, id: u128, at: i64) -> (
    StoreView,
    Result<ConfirmationView, AuthErrorView>,
) {
    let (after, inserted) = after_insert_confirmation(store, issued(id, email, at));
    (after, record_outcome(inserted))
}

/// The store and the mails after a registration, and what it gives. A mail
/// that cannot be sent fails the registration and leaves the confirmation
/// recorded.
pub open spec fn confirmation_creation(
    store: StoreView,
    mails: Seq<MailView>,
    open: bool,
    email: Seq<char>,
    domain_url: Seq<char>,
    sender_name: Seq<char>,
    id: u128,
    at: i64,
) -> (StoreView, Seq<MailView>, Result<(), AuthErrorView>) {
    let (after, recorded) = record_insertion(store, email, id, at);
    match recorded {
        Err(error) => (after, mails, Err(error)),
        Ok(confirmation) => {
            let (sent, outcome) = after_dispatch(
                mails,
                open,
                confirmation,
                domain_url,
                sender_name,
            );
            (after, sent, outcome)
        },
    }
}

/// The page on which an email address is entered, as a reply.
pub open spec fn register_page(sent: bool, error: Option<Seq<char>>) -> ReplyView {
    answer(OK, BodyView::RegisterPage(RegisterView { sent, error }))
}

/// The reply after a registration asked for in JSON: nothing to say where
/// it went through; a failure is handed on.
pub open spec fn confirmation_answer(outcome: Result<(), AuthErrorView>) -> Result<
    ReplyView,
    AuthErrorView,
> {
    match outcome {
        Ok(_) => Ok(answer(OK, BodyView::Empty)),
        Err(error) => Err(error),
    }
}

/// The reply after a registration asked for from a page: the page again,
/// with the news that the mail was sent or with what went wrong.
pub open spec fn browser_confirmation_answer(outcome: Blocked<()>) -> ReplyView {
    match outcome {
        Blocked::Finished(Ok(_)) => register_page(true, None),
        Blocked::Finished(Err(error)) => register_page(false, Some(display_text(error@))),
        Blocked::Canceled => register_page(false, Some("Could not complete the process"@)),
    }
}

/// What the insert of a confirmation means to the caller.
pub fn recorded(inserted: Result<Confirmation, StorageFailure>) -> (r: Result<
    Confirmation,
    AuthError,
>)
    ensures
        outcome_view(r) == record_outcome(inserted_view(inserted)),
{
    match inserted {
        Ok(row) => Ok(row),
        Err(failure) => Err(AuthError::from(failure)),
    }
}

/// Records a confirmation for an email address, under the given identifier
/// and issued at the given instant.
pub fn insert_record(email: String, store: &mut MemoryStore, id: u128, at: i64) -> (r: Result<
    Confirmation,
    AuthError,
>)
    requires
        can_issue_at(at),
    ensures
        (final(store)@, outcome_view(r)) == record_insertion(old(store)@, email@, id, at),
{
    let new_record = Confirmation::issue(id, email, at);
    recorded(store.insert_confirmation(new_record))
}

/// Records a confirmation for an email address and sends the mail for it.
pub fn create_confirmation(
    email: String,
    store: &mut MemoryStore,
    settings: &MailSettings,
    outbox: &mut Outbox,
    id: u128,
    at: i64,
) -> (r: Result<(), AuthError>)
    requires
        can_issue_at(at),
    ensures
        final(outbox).open == old(outbox).open,
        (final(store)@, final(outbox).mails(), outcome_view(r)) == confirmation_creation(
            old(store)@,
            old(outbox).mails(),
            old(outbox).open,
            email@,
            settings.domain_url@,
            settings.sender_name@,
            id,
            at,
        ),
{
    let confirmation = match insert_record(email, store, id, at) {
        Ok(confirmation) => confirmation,
        Err(error) => {
            return Err(error);
        },
    };
    send_confirmation_mail(&confirmation, settings, outbox)
}

/// Ends a registration asked for in JSON.
pub fn confirmation_reply(outcome: Blocked<()>) -> (r: Result<Reply, AuthError>)
    ensures
        outcome_view(r) == confirmation_answer(settled_view(outcome)),
{
    match outcome.settle() {
        Ok(_) => Ok(Reply::with_body(OK, Body::Empty)),
        Err(error) => Err(error),
    }
}

/// Ends a registration asked for from a page.
pub fn browser_confirmation_reply(outcome: Blocked<()>) -> (r: Reply)
    ensures
        r@ == browser_confirmation_answer(outcome),
{
    let page = match outcome {
        Blocked::Finished(Ok(_)) => Register { sent: true, error: None },
        Blocked::Finished(Err(error)) => Register { sent: false, error: Some(error.to_string()) },
        Blocked::Canceled => Register {
            sent: false,
            error: Some(String::from_str("Could not complete the process")),
        },
    };
    Reply::with_body(OK, Body::RegisterPage(page))
}

/// Registration asked for in JSON. A caller who is signed in already is
/// refused and nothing changes; otherwise a confirmation is recorded and its
/// mail sent.
pub fn send_confirmation(
    session: &Session,
    data: RegisterData,
    store: &mut MemoryStore,
    settings: &MailSettings,
    outbox: &mut Outbox,
    id: u128,
    at: i64,
) -> (r: Result<Reply, AuthError>)
    requires
        can_issue_at(at),
    ensures
        final(outbox).open == old(outbox).open,
        session.holder() is Some ==> {
            &&& outcome_view(r) == Err::<ReplyView, AuthErrorView>(AuthErrorView::AlreadySignedIn)
            &&& final(store)@ == old(store)@
            &&& final(outbox).mails() == old(outbox).mails()
        },
        session.holder() is None ==> {
            let (after, mails, outcome) = confirmation_creation(
                old(store)@,
                old(outbox).mails(),
                old(outbox).open,
                data.email@,
                settings.domain_url@,
                settings.sender_name@,
                id,
                at,
            );
            &&& final(store)@ == after
            &&& final(outbox).mails() == mails
            &&& outcome_view(r) == confirmation_answer(outcome)
        },
{
    if is_signed_in(session) {
        return Err(AuthError::AlreadySignedIn);
    }
    let outcome = create_confirmation(data.email, store, settings, outbox, id, at);
    confirmation_reply(Blocked::Finished(outcome))
}

/// The page on which an email address is entered. A caller who is signed in
/// is sent home.
pub fn show_confirmation_form(session: &Session) -> (r: Reply)
    ensures
        r@ == if session.holder() is Some {
            redirect(FOUND, "/me"@)
        } else {
            register_page(false, None)
        },
{
    if is_signed_in(session) {
        to_home()
    } else {
        Reply::with_body(OK, Body::RegisterPage(Register { sent: false, error: None }))
    }
}

/// Registration asked for from a page. A caller who is signed in already is
/// refused and nothing changes; otherwise a confirmation is recorded and its
/// mail sent, and the page says how it went.
pub fn send_confirmation_for_browser(
    session: &Session,
    data: RegisterData,
    store: &mut MemoryStore,
    settings: &MailSettings,
    outbox: &mut Outbox,
    id: u128,
    at: i64,
) -> (r: Reply)
    requires
        can_issue_at(at),
    ensures
        final(outbox).open == old(outbox).open,
        session.holder() is Some ==> {
            &&& r@ == refusal(AuthErrorView::AlreadySignedIn)
            &&& final(store)@ == old(store)@
            &&& final(outbox).mails() == old(outbox).mails()
        },
        session.holder() is None ==> {
            let (after, mails, outcome) = confirmation_creation(
                old(store)@,
                old(outbox).mails(),
                old(outbox).open,
                data.email@,
                settings.domain_url@,
                settings.sender_name@,
                id,
                at,
            );
            &&& final(store)@ == after
            &&& final(outbox).mails() == mails
            &&& r@ == match outcome {
                Ok(_) => register_page(true, None),
                Err(error) => register_page(false, Some(display_text(error))),
            }
        },
{
    if is_signed_in(session) {
        return AuthError::AlreadySignedIn.error_response();
    }
    let outcome = create_confirmation(data.email, store, settings, outbox, id, at);
    browser_confirmation_reply(Blocked::Finished(outcome))
}

} // verus!
