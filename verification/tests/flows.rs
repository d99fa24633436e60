use auth_service::auth_handler::{candidate, checked_user, find_user, AuthData};
use auth_service::clock::{now, CONFIRMATION_LIFETIME};
use auth_service::errors::{AuthError, StorageErrorKind, StorageFailure};
use auth_service::ids::{fresh_id, id_to_string, parse_id};
use auth_service::models::{Confirmation, SessionUser, User};
use auth_service::password_handler::{
    activate, create_user, created, find_invitation, get_invitation, parse_path_id, redeem,
};
use auth_service::register_handler::{insert_record, recorded};
use auth_service::store::{violation, MemoryStore};
use auth_service::utils::{hash_password, verify};

const T0: i64 = 1_584_277_500_000_000;

fn fake_hash(password: &str) -> Option<String> {
    if password.is_empty() {
        None
    } else {
        Some(format!("$fake${}", password.chars().rev().collect::<String>()))
    }
}

fn fake_verify(hash: &str, password: &str) -> Option<bool> {
    if !hash.starts_with("$fake$") {
        return None;
    }
    Some(fake_hash(password).as_deref() == Some(hash))
}

fn sign_in(store: &MemoryStore, email: &str, password: &str) -> Result<SessionUser, AuthError> {
    let rows = store.find_users_by_email(email);
    let verdict = match candidate(&rows) {
        Some(account) => fake_verify(&account.hash, password),
        None => None,
    };
    let data = AuthData { email: email.to_string(), password: password.to_string() };
    find_user(&data, store, verdict)
}

fn not_found(outcome: Result<SessionUser, AuthError>) -> String {
    match outcome {
        Err(AuthError::NotFound(detail)) => detail,
        other => panic!("expected NotFound, got {:?}", other),
    }
}

#[test]
fn register_activate_sign_in_scenario() {
    let mut store = MemoryStore::new();
    let token = insert_record("a@x.com".to_string(), &mut store, 11, T0).unwrap();
    assert_eq!(token.id, 11);
    assert_eq!(token.email, "a@x.com");
    assert_eq!(token.expires_at, T0 + 86_400_000_000);

    let path = id_to_string(token.id);
    let identity = create_user(&path, fake_hash("secret123"), &mut store, 21, T0 + 5).unwrap();
    assert_eq!(identity.id, 21);
    assert_eq!(identity.email, "a@x.com");

    let signed_in = sign_in(&store, "a@x.com", "secret123").unwrap();
    assert_eq!(signed_in.id, 21);
    assert_eq!(signed_in.email, "a@x.com");

    assert_eq!(not_found(sign_in(&store, "a@x.com", "wrong")), "User not found");
}

#[test]
fn activation_succeeds_exactly_once() {
    let mut store = MemoryStore::new();
    let token = insert_record("b@x.com".to_string(), &mut store, 12, T0).unwrap();
    let path = id_to_string(token.id);
    assert!(create_user(&path, fake_hash("one"), &mut store, 22, T0 + 1).is_ok());
    match create_user(&path, fake_hash("two"), &mut store, 23, T0 + 2) {
        Err(AuthError::DuplicateValue(detail)) => {
            assert_eq!(detail, "Key (email)=(b@x.com) already exists.")
        }
        other => panic!("expected DuplicateValue, got {:?}", other),
    }
    assert_eq!(store.find_users_by_email("b@x.com").len(), 1);
    assert_eq!(store.find_users_by_email("b@x.com")[0].id, 22);
}

#[test]
fn activation_with_unknown_token_is_refused() {
    let mut store = MemoryStore::new();
    let path = id_to_string(99);
    match create_user(&path, fake_hash("pw"), &mut store, 1, T0) {
        Err(AuthError::AuthenticationError(detail)) => assert_eq!(detail, "Invalid confirmation"),
        other => panic!("expected AuthenticationError, got {:?}", other),
    }
    assert!(store.find_users_by_email("a@x.com").is_empty());
}

#[test]
fn activation_with_malformed_token_is_bad_id() {
    let mut store = MemoryStore::new();
    assert!(matches!(
        create_user("not-a-uuid", fake_hash("pw"), &mut store, 1, T0),
        Err(AuthError::BadId)
    ));
    assert!(matches!(parse_path_id(""), Err(AuthError::BadId)));
}

#[test]
fn expired_token_fails_like_unknown_token() {
    let mut store = MemoryStore::new();
    let token = insert_record("c@x.com".to_string(), &mut store, 13, T0).unwrap();
    let path = id_to_string(token.id);
    let at_expiry = T0 + CONFIRMATION_LIFETIME;
    let expired = create_user(&path, fake_hash("pw"), &mut store, 24, at_expiry);
    let unknown = create_user(&id_to_string(77), fake_hash("pw"), &mut store, 25, at_expiry);
    match (expired, unknown) {
        (Err(AuthError::AuthenticationError(a)), Err(AuthError::AuthenticationError(b))) => {
            assert_eq!(a, "Invalid confirmation");
            assert_eq!(a, b);
        }
        other => panic!("expected two AuthenticationErrors, got {:?}", other),
    }
    assert!(store.find_users_by_email("c@x.com").is_empty());
    assert!(create_user(&path, fake_hash("pw"), &mut store, 26, at_expiry - 1).is_ok());
}

#[test]
fn wrong_password_and_unknown_email_fail_alike() {
    let mut store = MemoryStore::new();
    let token = insert_record("d@x.com".to_string(), &mut store, 14, T0).unwrap();
    create_user(&id_to_string(token.id), fake_hash("right"), &mut store, 27, T0).unwrap();
    let wrong = not_found(sign_in(&store, "d@x.com", "left"));
    let unknown = not_found(sign_in(&store, "nobody@x.com", "right"));
    assert_eq!(wrong, unknown);
    assert_eq!(wrong, "User not found");
}

#[test]
fn verifier_failure_is_not_found_too() {
    let rows = vec![User::create(1, "e@x.com".to_string(), "h".to_string(), T0)];
    assert_eq!(not_found(checked_user(Ok(rows), None)), "User not found");
    let rows = vec![User::create(1, "e@x.com".to_string(), "h".to_string(), T0)];
    assert_eq!(not_found(checked_user(Ok(rows), Some(false))), "User not found");
    assert_eq!(not_found(checked_user(Ok(Vec::new()), Some(true))), "User not found");
}

#[test]
fn sign_in_takes_the_last_row() {
    let rows = vec![
        User::create(1, "e@x.com".to_string(), "h1".to_string(), T0),
        User::create(2, "e@x.com".to_string(), "h2".to_string(), T0),
    ];
    assert_eq!(candidate(&rows).unwrap().id, 2);
    let found = checked_user(Ok(rows), Some(true)).unwrap();
    assert_eq!(found.id, 2);
    assert!(candidate(&Vec::new()).is_none());
}

#[test]
fn failed_lookup_of_accounts_is_translated() {
    match checked_user(Err(StorageFailure::Unclassified), Some(true)) {
        Err(AuthError::GenericError(detail)) => assert_eq!(detail, "Some database error occured"),
        other => panic!("expected GenericError, got {:?}", other),
    }
}

#[test]
fn two_tokens_for_one_email_give_one_account() {
    let mut store = MemoryStore::new();
    let first = insert_record("f@x.com".to_string(), &mut store, 15, T0).unwrap();
    let second = insert_record("f@x.com".to_string(), &mut store, 16, T0 + 10).unwrap();
    let later = create_user(&id_to_string(second.id), fake_hash("pw"), &mut store, 28, T0 + 20);
    let earlier = create_user(&id_to_string(first.id), fake_hash("pw"), &mut store, 29, T0 + 21);
    assert_eq!(later.unwrap().id, 28);
    assert!(matches!(earlier, Err(AuthError::DuplicateValue(_))));
    assert_eq!(store.find_users_by_email("f@x.com").len(), 1);
}

#[test]
fn registration_does_not_look_at_earlier_ones() {
    let mut store = MemoryStore::new();
    assert!(insert_record("g@x.com".to_string(), &mut store, 17, T0).is_ok());
    assert!(insert_record("g@x.com".to_string(), &mut store, 18, T0).is_ok());
    assert_eq!(store.find_confirmation(17).len(), 1);
    assert_eq!(store.find_confirmation(18)[0].email, "g@x.com");
    assert!(store.find_confirmation(19).is_empty());
}

#[test]
fn second_confirmation_under_one_id_is_a_duplicate() {
    let mut store = MemoryStore::new();
    insert_record("h@x.com".to_string(), &mut store, 0x936DA01F9ABD4D9D80C702AF85C822A8, T0)
        .unwrap();
    match insert_record("i@x.com".to_string(), &mut store, 0x936DA01F9ABD4D9D80C702AF85C822A8, T0)
    {
        Err(AuthError::DuplicateValue(detail)) => assert_eq!(
            detail,
            "Key (id)=(936da01f-9abd-4d9d-80c7-02af85c822a8) already exists."
        ),
        other => panic!("expected DuplicateValue, got {:?}", other),
    }
}

#[test]
fn account_under_a_taken_id_is_a_duplicate() {
    let mut store = MemoryStore::new();
    store.insert_user(User::create(5, "j@x.com".to_string(), "h".to_string(), T0)).unwrap();
    match store.insert_user(User::create(5, "k@x.com".to_string(), "h".to_string(), T0)) {
        Err(StorageFailure::Database { kind, details, message }) => {
            assert_eq!(kind, StorageErrorKind::UniqueViolation);
            assert_eq!(
                details.unwrap(),
                "Key (id)=(00000000-0000-0000-0000-000000000005) already exists."
            );
            assert_eq!(message, "duplicate key value violates unique constraint \"users_pkey\"");
        }
        other => panic!("expected a unique violation, got {:?}", other),
    }
    match store.insert_user(User::create(6, "j@x.com".to_string(), "h".to_string(), T0)) {
        Err(StorageFailure::Database { message, .. }) => assert_eq!(
            message,
            "duplicate key value violates unique constraint \"users_email_key\""
        ),
        other => panic!("expected a unique violation, got {:?}", other),
    }
}

#[test]
fn redeem_reads_the_last_row_and_its_expiry() {
    let live = Confirmation::issue(1, "l@x.com".to_string(), T0);
    assert!(live.is_live(T0 + CONFIRMATION_LIFETIME - 1));
    assert!(!live.is_live(T0 + CONFIRMATION_LIFETIME));
    assert_eq!(redeem(Ok(vec![live]), T0).unwrap().email, "l@x.com");
    assert!(matches!(redeem(Ok(Vec::new()), T0), Err(AuthError::AuthenticationError(_))));
    match redeem(Err(StorageFailure::Unclassified), T0) {
        Err(AuthError::NotFound(detail)) => assert_eq!(detail, "Confirmation not found"),
        other => panic!("expected NotFound, got {:?}", other),
    }
}

#[test]
fn expired_invitation_is_found_as_little_as_an_unknown_one() {
    let mut store = MemoryStore::new();
    insert_record("m@x.com".to_string(), &mut store, 30, T0).unwrap();
    let path = id_to_string(30);
    let expiry = T0 + CONFIRMATION_LIFETIME;
    assert_eq!(get_invitation(&path, &store, expiry - 1).unwrap().email, "m@x.com");
    let expired = get_invitation(&path, &store, expiry);
    let unknown = get_invitation(&id_to_string(31), &store, expiry);
    match (expired, unknown) {
        (Err(AuthError::AuthenticationError(a)), Err(AuthError::AuthenticationError(b))) => {
            assert_eq!(a, "Invalid confirmation");
            assert_eq!(a, b);
        }
        other => panic!("expected two AuthenticationErrors, got {:?}", other),
    }
    assert!(matches!(get_invitation("zz", &store, T0), Err(AuthError::BadId)));
}

#[test]
fn store_failures_of_inserts_are_translated() {
    let unique = StorageFailure::Database {
        kind: StorageErrorKind::UniqueViolation,
        details: None,
        message: "taken".to_string(),
    };
    assert!(matches!(created(Err(unique)), Err(AuthError::DuplicateValue(m)) if m == "taken"));
    let other = StorageFailure::Database {
        kind: StorageErrorKind::Other,
        details: Some("long".to_string()),
        message: "short".to_string(),
    };
    assert!(matches!(
        recorded(Err(other)),
        Err(AuthError::GenericError(m)) if m == "Some database error occured"
    ));
    let account = User::create(3, "n@x.com".to_string(), "h".to_string(), T0);
    let identity = created(Ok(account)).unwrap();
    assert_eq!((identity.id, identity.email.as_str()), (3, "n@x.com"));
}

#[test]
fn hashing_and_verifying_outcomes() {
    assert_eq!(hash_password(Some("$argon2id$abc".to_string())).unwrap(), "$argon2id$abc");
    for failed in [None, Some(String::new())] {
        match hash_password(failed) {
            Err(AuthError::AuthenticationError(detail)) => {
                assert_eq!(detail, "Could not hash password")
            }
            other => panic!("expected AuthenticationError, got {:?}", other),
        }
    }
    assert!(verify(Some(true)).unwrap());
    assert!(!verify(Some(false)).unwrap());
    match verify(None) {
        Err(AuthError::AuthenticationError(detail)) => {
            assert_eq!(detail, "Could not verify password")
        }
        other => panic!("expected AuthenticationError, got {:?}", other),
    }
}

#[test]
fn activation_without_a_hash_creates_nothing() {
    let mut store = MemoryStore::new();
    insert_record("o@x.com".to_string(), &mut store, 40, T0).unwrap();
    assert!(matches!(
        create_user(&id_to_string(40), None, &mut store, 41, T0),
        Err(AuthError::AuthenticationError(_))
    ));
    assert!(store.find_users_by_email("o@x.com").is_empty());
}

#[test]
fn identifiers_are_written_and_read_as_uuids() {
    let id: u128 = 0x936DA01F9ABD4D9D80C702AF85C822A8;
    assert_eq!(id_to_string(id), "936da01f-9abd-4d9d-80c7-02af85c822a8");
    assert_eq!(parse_id("936DA01F-9ABD-4D9D-80C7-02AF85C822A8"), Some(id));
    assert_eq!(parse_id("936da01f9abd4d9d80c702af85c822a8"), Some(id));
    assert_eq!(parse_id("936da01f"), None);
    let fresh = fresh_id();
    assert_eq!(parse_id(&id_to_string(fresh)), Some(fresh));
    assert_ne!(fresh_id(), fresh);
}

#[test]
fn fresh_records_keep_what_they_are_given() {
    let before = now();
    let confirmation = Confirmation::from("p@x.com".to_string());
    let after = now();
    assert_eq!(confirmation.email, "p@x.com");
    assert_eq!((confirmation.id >> 76) & 0xf, 4);
    assert_eq!((confirmation.id >> 62) & 0x3, 2);
    assert!(before + CONFIRMATION_LIFETIME <= confirmation.expires_at);
    assert!(confirmation.expires_at <= after + CONFIRMATION_LIFETIME);
    let account = User::from("p@x.com".to_string(), "h".to_string());
    let later = now();
    assert_eq!((account.email.as_str(), account.hash.as_str()), ("p@x.com", "h"));
    assert_eq!((account.id >> 76) & 0xf, 4);
    assert_eq!((account.id >> 62) & 0x3, 2);
    assert_ne!(account.id, confirmation.id);
    assert!(after <= account.created_at && account.created_at <= later);
    let identity = SessionUser::from(account);
    assert_eq!(identity.email, "p@x.com");
}

#[test]
fn activation_by_identifier() {
    let mut store = MemoryStore::new();
    insert_record("q@x.com".to_string(), &mut store, 50, T0).unwrap();
    let identity = activate(50, fake_hash("pw"), &mut store, 51, T0).unwrap();
    assert_eq!((identity.id, identity.email.as_str()), (51, "q@x.com"));
    assert!(matches!(
        activate(50, fake_hash("pw"), &mut store, 52, T0),
        Err(AuthError::DuplicateValue(_))
    ));
    assert!(matches!(
        activate(53, fake_hash("pw"), &mut store, 54, T0),
        Err(AuthError::AuthenticationError(_))
    ));
    assert_eq!(find_invitation(50, &store, T0).unwrap().id, 50);
    assert!(matches!(
        find_invitation(50, &store, T0 + CONFIRMATION_LIFETIME),
        Err(AuthError::AuthenticationError(_))
    ));
    assert!(matches!(find_invitation(53, &store, T0), Err(AuthError::AuthenticationError(_))));
}

#[test]
fn refusal_of_a_second_record_under_one_key() {
    match violation("email", "a@x.com", "users_email_key") {
        StorageFailure::Database { kind, details, message } => {
            assert_eq!(kind, StorageErrorKind::UniqueViolation);
            assert_eq!(details.unwrap(), "Key (email)=(a@x.com) already exists.");
            assert_eq!(
                message,
                "duplicate key value violates unique constraint \"users_email_key\""
            );
        }
        other => panic!("expected a unique violation, got {:?}", other),
    }
}

#[test]
fn fresh_identifiers_are_of_version_four() {
    for _ in 0..64 {
        let id = fresh_id();
        assert_eq!((id >> 76) & 0xf, 4);
        assert_eq!((id >> 62) & 0x3, 2);
        let text = id_to_string(id);
        assert_eq!(&text[14..15], "4");
        assert!(matches!(&text[19..20], "8" | "9" | "a" | "b"));
    }
}

#[test]
fn the_clock_shows_an_instant_in_the_calendar() {
    let span: i64 = 265_000 * 366 * 86_400 * 1_000_000;
    let at = now();
    assert!(-span <= at && at <= span);
    assert!(at.checked_add(CONFIRMATION_LIFETIME).is_some());
    assert!(at > 1_500_000_000_000_000);
    assert!(now() >= at);
}

#[test]
fn identifier_text_is_its_digits_in_five_groups() {
    let mut ids: Vec<u128> = vec![0, 1, 15, 16, u128::MAX, 0x0123456789abcdef0011223344556677];
    for _ in 0..32 {
        ids.push(fresh_id());
    }
    for id in ids {
        let digits: Vec<char> = (0..32)
            .map(|place| {
                let digit = ((id >> (4 * (31 - place))) & 0xf) as u32;
                std::char::from_digit(digit, 16).unwrap()
            })
            .collect();
        let mut expected = String::new();
        for (place, digit) in digits.iter().enumerate() {
            if place == 8 || place == 12 || place == 16 || place == 20 {
                expected.push('-');
            }
            expected.push(*digit);
        }
        assert_eq!(id_to_string(id), expected);
        assert_eq!(parse_id(&expected), Some(id));
    }
}
