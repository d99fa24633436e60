use auth_service::email_service::{
    confirmation_mail, mail_outcome, send_confirmation_mail, write_mail, MailSettings, Outbox,
};
use auth_service::errors::AuthError;
use auth_service::models::Confirmation;
use auth_service::register_handler::create_confirmation;
use auth_service::store::MemoryStore;

fn settings() -> MailSettings {
    MailSettings { domain_url: "https://auth.example".to_string(), sender_name: "Auth".to_string() }
}

fn confirmation() -> Confirmation {
    Confirmation {
        id: 0x936DA01F9ABD4D9D80C702AF85C822A8,
        email: "a@x.com".to_string(),
        expires_at: 1_584_277_500_000_000,
    }
}

#[test]
fn mail_says_where_to_go_and_until_when() {
    let mail = confirmation_mail(&confirmation(), &settings()).unwrap();
    assert_eq!(mail.to, "a@x.com");
    assert_eq!(mail.from_address, "noreply@auth-service.com");
    assert_eq!(mail.from_name, "Auth");
    assert_eq!(mail.subject, "Complete your registration on our one-of-a-kind Auth Service");
    assert_eq!(
        mail.text,
        "Please visit the link below to complete registration:\n\n      \
         https://auth.example/register/936da01f-9abd-4d9d-80c7-02af85c822a8\n\n      \
         This link expires on 01:05 PM Sunday, 15 March, 2020."
    );
    assert_eq!(
        mail.html,
        "Please click on the link below to complete registration. <br/>\n       \
         <a href=\"https://auth.example/register/936da01f-9abd-4d9d-80c7-02af85c822a8\">\
         Complete registration</a> <br/>\n      \
         This link expires on <strong>01:05 PM Sunday, 15 March, 2020</strong>"
    );
}

#[test]
fn expiry_is_written_on_a_twelve_hour_clock() {
    let mut late = confirmation();
    late.expires_at = 1_638_318_600_000_000;
    let mail = confirmation_mail(&late, &settings()).unwrap();
    assert!(mail.text.ends_with("This link expires on 12:30 AM Wednesday, 1 December, 2021."));
}

#[test]
fn no_mail_for_an_expiry_beyond_the_calendar() {
    let mut never = confirmation();
    never.expires_at = i64::MAX;
    assert!(confirmation_mail(&never, &settings()).is_none());
    let mut outbox = Outbox::new(true);
    assert!(matches!(
        send_confirmation_mail(&never, &settings(), &mut outbox),
        Err(AuthError::NotificationFailed(_))
    ));
    assert!(outbox.sent.is_empty());
}

#[test]
fn dispatch_outcome() {
    assert!(mail_outcome(true).is_ok());
    match mail_outcome(false) {
        Err(AuthError::NotificationFailed(detail)) => {
            assert_eq!(detail, "Could not send confirmation email")
        }
        other => panic!("expected NotificationFailed, got {:?}", other),
    }
}

#[test]
fn open_outbox_takes_the_mail() {
    let mut outbox = Outbox::new(true);
    assert!(send_confirmation_mail(&confirmation(), &settings(), &mut outbox).is_ok());
    assert_eq!(outbox.sent.len(), 1);
    assert_eq!(outbox.sent[0].to, "a@x.com");
}

#[test]
fn failed_dispatch_leaves_the_confirmation_recorded() {
    let mut store = MemoryStore::new();
    let mut outbox = Outbox::new(false);
    let outcome = create_confirmation(
        "a@x.com".to_string(),
        &mut store,
        &settings(),
        &mut outbox,
        7,
        1_584_277_500_000_000,
    );
    assert!(matches!(outcome, Err(AuthError::NotificationFailed(_))));
    assert!(outbox.sent.is_empty());
    assert_eq!(store.find_confirmation(7).len(), 1);

    let mut open = Outbox::new(true);
    let again = create_confirmation(
        "a@x.com".to_string(),
        &mut store,
        &settings(),
        &mut open,
        8,
        1_584_277_500_000_000,
    );
    assert!(again.is_ok());
    assert_eq!(store.find_confirmation(8).len(), 1);
    assert!(open.sent[0].text.contains("/register/00000000-0000-0000-0000-000000000008\n"));
}

#[test]
fn duplicate_confirmation_sends_no_mail() {
    let mut store = MemoryStore::new();
    let mut outbox = Outbox::new(true);
    create_confirmation("a@x.com".to_string(), &mut store, &settings(), &mut outbox, 7, 0)
        .unwrap();
    let second =
        create_confirmation("b@x.com".to_string(), &mut store, &settings(), &mut outbox, 7, 0);
    assert!(matches!(second, Err(AuthError::DuplicateValue(_))));
    assert_eq!(outbox.sent.len(), 1);
}

#[test]
fn mail_from_its_parts() {
    let mail = write_mail("b@x.com", "ID", "NOON", &settings());
    assert_eq!(mail.to, "b@x.com");
    assert_eq!(mail.from_address, "noreply@auth-service.com");
    assert_eq!(mail.from_name, "Auth");
    assert_eq!(
        mail.text,
        "Please visit the link below to complete registration:\n\n      \
         https://auth.example/register/ID\n\n      This link expires on NOON."
    );
    assert_eq!(
        mail.html,
        "Please click on the link below to complete registration. <br/>\n       \
         <a href=\"https://auth.example/register/ID\">Complete registration</a> <br/>\n      \
         This link expires on <strong>NOON</strong>"
    );
}
