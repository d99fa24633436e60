use auth_service::errors::{AuthError, Blocked, StorageErrorKind, StorageFailure};
use auth_service::reply::Body;

#[test]
fn errors_as_text() {
    let cases = [
        (AuthError::DuplicateValue("d".to_string()), "DuplicateValue: d"),
        (AuthError::BadId, "BadId"),
        (AuthError::NotFound("n".to_string()), "NotFound: n"),
        (AuthError::AuthenticationError("a".to_string()), "AuthenticationError: a"),
        (AuthError::AlreadySignedIn, "AlreadySignedIn"),
        (AuthError::NotificationFailed("m".to_string()), "NotificationFailed: m"),
        (AuthError::GenericError("g".to_string()), "GenericError: g"),
    ];
    for (error, text) in cases {
        assert_eq!(error.to_string(), text);
    }
}

#[test]
fn errors_as_replies() {
    let cases = [
        (AuthError::DuplicateValue("d".to_string()), "d"),
        (AuthError::BadId, "Invalid ID"),
        (AuthError::NotFound("n".to_string()), "n"),
        (AuthError::AuthenticationError("a".to_string()), "a"),
        (AuthError::NotificationFailed("m".to_string()), "m"),
        (AuthError::GenericError("g".to_string()), "g"),
    ];
    for (error, text) in cases {
        let reply = error.error_response();
        assert_eq!(reply.status, 400);
        assert!(reply.location.is_none());
        assert!(matches!(reply.body, Body::Message(m) if m == text));
    }
    let reply = AuthError::AlreadySignedIn.error_response();
    assert_eq!(reply.status, 400);
    assert!(matches!(reply.body, Body::Empty));
}

#[test]
fn unique_violation_is_a_duplicate_value() {
    let failure = StorageFailure::Database {
        kind: StorageErrorKind::UniqueViolation,
        details: Some("Key (email)=(a@x.com) already exists.".to_string()),
        message: "duplicate key value violates unique constraint".to_string(),
    };
    match AuthError::from(failure) {
        AuthError::DuplicateValue(detail) => {
            assert_eq!(detail, "Key (email)=(a@x.com) already exists.")
        }
        other => panic!("expected DuplicateValue, got {:?}", other),
    }
}

#[test]
fn message_stands_in_for_missing_details() {
    let failure = StorageFailure::Database {
        kind: StorageErrorKind::UniqueViolation,
        details: None,
        message: "duplicate key".to_string(),
    };
    assert!(matches!(AuthError::from(failure), AuthError::DuplicateValue(m) if m == "duplicate key"));
}

#[test]
fn other_store_failures_are_generic() {
    let failure = StorageFailure::Database {
        kind: StorageErrorKind::Other,
        details: None,
        message: "null value in column".to_string(),
    };
    assert!(matches!(
        AuthError::from(failure),
        AuthError::GenericError(m) if m == "Some database error occured"
    ));
    let failure = StorageFailure::Database {
        kind: StorageErrorKind::Other,
        details: Some("Key (user_id)=(7) is not present in table \"users\".".to_string()),
        message: "violates foreign key constraint \"sessions_user_id_fkey\"".to_string(),
    };
    assert!(matches!(
        AuthError::from(failure),
        AuthError::GenericError(m) if m == "Some database error occured"
    ));
    assert!(matches!(
        AuthError::from(StorageFailure::Unclassified),
        AuthError::GenericError(m) if m == "Some database error occured"
    ));
}

#[test]
fn malformed_uuid_is_a_bad_id() {
    let error = uuid::Uuid::parse_str("nope").unwrap_err();
    assert!(matches!(AuthError::from(error), AuthError::BadId));
}

#[test]
fn canceled_work_is_a_generic_error() {
    let canceled: Blocked<u8> = Blocked::Canceled;
    assert!(matches!(
        canceled.settle(),
        Err(AuthError::GenericError(m)) if m == "Could not complete the process"
    ));
    assert_eq!(Blocked::Finished(Ok(3u8)).settle().unwrap(), 3);
    let failed: Blocked<u8> = Blocked::Finished(Err(AuthError::BadId));
    assert!(matches!(failed.settle(), Err(AuthError::BadId)));
}
