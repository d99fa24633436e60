//! The confirmation mail: what it says, and what its dispatch means to the
//! flow. Handing a mail to a transport is the caller's; the outbox here is a
//! transport in memory.

use vstd::prelude::*;
use vstd::string::*;

use crate::clock::{format_time, formatted_time};
use crate::errors::{outcome_view, AuthError, AuthErrorView};
use crate::ids::{format_uuid, id_text};
use crate::models::{Confirmation, ConfirmationView};

verus! {

/// A mail, ready for a transport.
#[derive(Debug)]
pub struct Mail {
    pub to: String,
    pub from_address: String,
    pub from_name: String,
    pub subject: String,
    pub text: String,
    pub html: String,
}

/// A [`Mail`] by its view.
pub struct MailView {
    pub to: Seq<char>,
    pub from_address: Seq<char>,
    pub from_name: Seq<char>,
    pub subject: Seq<char>,
    pub text: Seq<char>,
    pub html: Seq<char>,
}

impl View for Mail {
    type V = MailView;

    open spec fn view(&self) -> MailView {
        MailView {
            to: self.to@,
            from_address: self.from_address@,
            from_name: self.from_name@,
            subject: self.subject@,
            text: self.text@,
            html: self.html@,
        }
    }
}

/// What the service's mails are written with: the address under which the
/// service is reached, and the name that its mails are sent under.
#[derive(Debug)]
pub struct MailSettings {
    pub domain_url: String,
    pub sender_name: String,
}

/// The pattern under which the expiry is written: the hour on a 12-hour
/// clock, the minute, the half of the day, the weekday, the day of the month,
/// the month and the year.
pub open spec fn expiry_pattern() -> Seq<char> {
    "%I:%M %p %A, %-d %B, %C%y"@
}

/// The link that redeems the confirmation whose identifier is written as
/// the given text.
pub open spec fn registration_link(domain_url: Seq<char>, id: Seq<char>) -> Seq<char> {
    domain_url + "/register/"@ + id
}

/// The mail's body as HTML.
pub open spec fn html_text(link: Seq<char>, expires: Seq<char>) -> Seq<char> {
    "Please click on the link below to complete registration. <br/>\n       <a href=\""@ + link
        + "\">Complete registration</a> <br/>\n      This link expires on <strong>"@ + expires
        + "</strong>"@
}

/// The mail's body as plain text.
pub open spec fn plain_text(link: Seq<char>, expires: Seq<char>) -> Seq<char> {
    "Please visit the link below to complete registration:\n\n      "@ + link
        + "\n\n      This link expires on "@ + expires + "."@
}

/// The mail to an email address about the confirmation whose identifier and
/// expiry are written as the given texts.
pub open spec fn written(
    to: Seq<char>,
    id: Seq<char>,
    expires: Seq<char>,
    domain_url: Seq<char>,
    sender_name: Seq<char>,
) -> MailView {
    let link = registration_link(domain_url, id);
    MailView {
        to,
        from_address: "noreply@auth-service.com"@,
        from_name: sender_name,
        subject: "Complete your registration on our one-of-a-kind Auth Service"@,
        text: plain_text(link, expires),
        html: html_text(link, expires),
    }
}

/// The mail for a confirmation: to its email address, with the link that
/// redeems it and the instant at which it expires. There is none where that
/// instant cannot be written.
pub open spec fn composed(
    confirmation: ConfirmationView,
    domain_url: Seq<char>,
    sender_name: Seq<char>,
) -> Option<MailView> {
    match formatted_time(confirmation.expires_at, expiry_pattern()) {
        None => None,
        Some(expires) => Some(
            written(
                confirmation.email,
                id_text(confirmation.id),
                expires,
                domain_url,
                sender_name,
            ),
        ),
    }
}

/// The failure of a dispatch.
pub open spec fn not_sent() -> AuthErrorView {
    AuthErrorView::NotificationFailed("Could not send confirmation email"@)
}

/// A mail that may be missing, by its view.
pub open spec fn mail_view(mail: Option<Mail>) -> Option<MailView> {
    match mail {
        Some(m) => Some(m@),
        None => None,
    }
}

/// Writes the mail to an email address about the confirmation whose
/// identifier and expiry are written as the given texts.
pub fn write_mail(to: &str, id: &str, expires: &str, settings: &MailSettings) -> (mail: Mail)
    ensures
        mail@ == written(to@, id@, expires@, settings.domain_url@, settings.sender_name@),
{
    let link = settings.domain_url.clone().concat("/register/").concat(id);
    let html = String::from_str(
        "Please click on the link below to complete registration. <br/>\n       <a href=\"",
    ).concat(link.as_str()).concat(
        "\">Complete registration</a> <br/>\n      This link expires on <strong>",
    ).concat(expires).concat("</strong>");
    let text = String::from_str(
        "Please visit the link below to complete registration:\n\n      ",
    ).concat(link.as_str()).concat("\n\n      This link expires on ").concat(expires).concat(
        ".",
    );
    Mail {
        to: String::from_str(to),
        from_address: String::from_str("noreply@auth-service.com"),
        from_name: settings.sender_name.clone(),
        subject: String::from_str("Complete your registration on our one-of-a-kind Auth Service"),
        text,
        html,
    }
}

/// Writes the mail for a confirmation.
pub fn confirmation_mail(confirmation: &Confirmation, settings: &MailSettings) -> (r: Option<Mail>)
    ensures
        mail_view(r) == composed(confirmation@, settings.domain_url@, settings.sender_name@),
{
    match format_time(confirmation.expires_at, "%I:%M %p %A, %-d %B, %C%y") {
        Some(expires) => {
            let id = format_uuid(confirmation.id);
            Some(write_mail(confirmation.email.as_str(), id.as_str(), expires.as_str(), settings))
        },
        None => None,
    }
}

/// What a dispatch means to the flow: nothing where the transport took the
/// mail, a notification failure where it did not.
pub fn mail_outcome(delivered: bool) -> (r: Result<(), AuthError>)
    ensures
        outcome_view(r) == if delivered {
            Ok::<(), AuthErrorView>(())
        } else {
            Err(not_sent())
        },
{
    if delivered {
        Ok(())
    } else {
        Err(AuthError::NotificationFailed(String::from_str("Could not send confirmation email")))
    }
}

/// A transport in memory: it keeps the mails it took, oldest first, and
/// takes none while it is closed.
#[derive(Debug)]
pub struct Outbox {
    pub open: bool,
    pub sent: Vec<Mail>,
}

/// The mails of an outbox, each by its view.
pub open spec fn mail_views(mails: Seq<Mail>) -> Seq<MailView> {
    mails.map_values(|mail: Mail| mail@)
}

impl Outbox {
    /// The mails that the outbox took.
    pub open spec fn mails(&self) -> Seq<MailView> {
        mail_views(self.sent@)
    }

    /// An empty outbox, open or closed.
    pub fn new(open: bool) -> (outbox: Outbox)
        ensures
            outbox.open == open,
            outbox.mails().len() == 0,
    {
        Outbox { open, sent: Vec::new() }
    }

    /// Hands a mail to the outbox, and says whether it took it.
    pub fn deliver(&mut self, mail: Mail) -> (taken: bool)
        ensures
            taken == old(self).open,
            final(self).open == old(self).open,
            final(self).mails() == if taken {
                old(self).mails().push(mail@)
            } else {
                old(self).mails()
            },
    {
        if self.open {
            let ghost before = self.sent@;
            self.sent.push(mail);
            proof {
                assert(mail_views(self.sent@) =~= mail_views(before).push(mail@));
            }
            true
        } else {
            false
        }
    }
}

/// The mails of an outbox after the dispatch of the mail for a confirmation,
/// and what the dispatch gives: the mail is added where it can be written
/// and the outbox is open; every other case is a notification failure.
pub open spec fn after_dispatch(
    mails: Seq<MailView>,
    open: bool,
    confirmation: ConfirmationView,
    domain_url: Seq<char>,
    sender_name: Seq<char>,
) -> (Seq<MailView>, Result<(), AuthErrorView>) {
    match composed(confirmation, domain_url, sender_name) {
        Some(mail) if open => (mails.push(mail), Ok(())),
        _ => (mails, Err(not_sent())),
    }
}

/// Writes the mail for a confirmation and hands it to the outbox.
pub fn send_confirmation_mail(
    confirmation: &Confirmation,
    settings: &MailSettings,
    outbox: &mut Outbox,
) -> (r: Result<(), AuthError>)
    ensures
        final(outbox).open == old(outbox).open,
        (final(outbox).mails(), outcome_view(r)) == after_dispatch(
            old(outbox).mails(),
            old(outbox).open,
            confirmation@,
            settings.domain_url@,
            settings.sender_name@,
        ),
{
    match confirmation_mail(confirmation, settings) {
        Some(mail) => {
            let taken = outbox.deliver(mail);
            mail_outcome(taken)
        },
        None => mail_outcome(false),
    }
}

} // verus!
