use wotan::credential::{CredentialError, CredentialHasher};
use wotan::registration::{
    classify_store_error, Action, Event, Field, NewUser, Phase, Registration, RegistrationError,
};

fn request(username: &str, email: &str, password: &str) -> NewUser {
    NewUser {
        username: username.to_string(),
        email: email.to_string(),
        password: password.to_string(),
    }
}

fn is_random_uuid(id: u128) -> bool {
    (id >> 76) & 0xf == 4 && (id >> 62) & 3 == 2
}

fn unique_violation(constraint: &str) -> RegistrationError {
    classify_store_error(Some("23505".to_string()), Some(constraint.to_string()))
}

#[test]
fn hash_then_verify_round_trip() {
    let hasher = CredentialHasher::new();
    let artifact = hasher.hash("secret123").unwrap();
    assert!(artifact.starts_with("$argon2id$"));
    assert_ne!(artifact, "secret123");
    assert!(hasher.verify("secret123", &artifact));
    assert!(!hasher.verify("secret124", &artifact));
    assert!(!hasher.verify("", &artifact));
}

#[test]
fn hashes_are_salted() {
    let hasher = CredentialHasher::new();
    let a = hasher.hash("hunter2").unwrap();
    let b = hasher.hash("hunter2").unwrap();
    assert_ne!(a, b);
    assert!(hasher.verify("hunter2", &a));
    assert!(hasher.verify("hunter2", &b));
}

#[test]
fn verify_rejects_malformed_artifact() {
    let hasher = CredentialHasher::new();
    assert!(!hasher.verify("secret123", "not a hash"));
    assert!(!hasher.verify("secret123", ""));
}

#[test]
fn empty_password_is_refused() {
    let hasher = CredentialHasher::new();
    assert_eq!(hasher.hash(""), Err(CredentialError::EmptyPassword));
    let (reg, action) = Registration::start(request("bob", "b@x.com", ""), &hasher);
    assert!(matches!(
        action,
        Action::Report { outcome: Err(RegistrationError::ValidationFailed) }
    ));
    assert!(matches!(
        reg.phase,
        Phase::Finished { outcome: Err(RegistrationError::ValidationFailed) }
    ));
    assert!(reg.password_hash.is_empty());
}

#[test]
fn hashing_failure_asks_nothing_of_the_store() {
    let (mut reg, action) = Registration::after_hashing(
        request("carol", "c@x.com", "pw"),
        7,
        Err(CredentialError::HashingFailed),
    );
    assert!(matches!(
        action,
        Action::Report { outcome: Err(RegistrationError::HashingFailed) }
    ));
    assert!(matches!(reg.on_event(Event::Opened { ok: true }), Action::Ignore));
    assert!(matches!(
        reg.phase,
        Phase::Finished { outcome: Err(RegistrationError::HashingFailed) }
    ));
}

#[test]
fn alice_registers_then_duplicate_is_refused() {
    let hasher = CredentialHasher::new();
    let (mut first, action) = Registration::start(request("alice", "a@x.com", "secret123"), &hasher);
    assert!(matches!(action, Action::BeginTransaction));
    assert!(is_random_uuid(first.user_id));
    let u1 = first.user_id;
    match first.on_event(Event::Opened { ok: true }) {
        Action::InsertRow { row } => {
            assert_eq!(row.id, u1);
            assert_eq!(row.username, "alice");
            assert_eq!(row.email, "a@x.com");
            assert!(hasher.verify("secret123", &row.password_hash));
        }
        other => panic!("unexpected action {:?}", other),
    }
    assert!(matches!(
        first.on_event(Event::InsertReported { result: Ok(()) }),
        Action::Commit
    ));
    match first.on_event(Event::Committed { ok: true }) {
        Action::Report { outcome } => assert_eq!(outcome, Ok(u1)),
        other => panic!("unexpected action {:?}", other),
    }

    let (mut second, action) = Registration::start(request("alice", "a@x.com", "secret123"), &hasher);
    assert!(matches!(action, Action::BeginTransaction));
    assert_ne!(second.user_id, u1);
    assert!(matches!(second.on_event(Event::Opened { ok: true }), Action::InsertRow { .. }));
    let violation = unique_violation("users_username_key");
    assert_eq!(violation, RegistrationError::ConstraintViolation(Field::Username));
    assert!(matches!(
        second.on_event(Event::InsertReported { result: Err(violation) }),
        Action::Rollback
    ));
    match second.on_event(Event::RolledBack) {
        Action::Report { outcome } => {
            assert_eq!(outcome, Err(RegistrationError::ConstraintViolation(Field::Username)))
        }
        other => panic!("unexpected action {:?}", other),
    }
}

#[test]
fn concurrent_same_username_one_wins() {
    let mut results = Vec::new();
    let mut commits = 0;
    for (i, insert) in [Ok(()), Err(unique_violation("users_username_key"))].into_iter().enumerate() {
        let (mut reg, _) = Registration::after_hashing(
            request("dave", &format!("d{}@x.com", i), "pw"),
            100 + i as u128,
            Ok("$argon2id$stub".to_string()),
        );
        reg.on_event(Event::Opened { ok: true });
        let mut action = reg.on_event(Event::InsertReported { result: insert });
        loop {
            action = match action {
                Action::Commit => {
                    commits += 1;
                    reg.on_event(Event::Committed { ok: true })
                }
                Action::Rollback => reg.on_event(Event::RolledBack),
                Action::Report { outcome } => {
                    results.push(outcome);
                    break;
                }
                other => panic!("unexpected action {:?}", other),
            };
        }
    }
    assert_eq!(commits, 1);
    assert_eq!(results[0], Ok(100));
    assert_eq!(
        results[1],
        Err(RegistrationError::ConstraintViolation(Field::Username))
    );
}

#[test]
fn begin_failure_is_reported() {
    let (mut reg, _) = Registration::after_hashing(request("e", "e@x.com", "pw"), 1, Ok("h".to_string()));
    assert!(matches!(
        reg.on_event(Event::Opened { ok: false }),
        Action::Report { outcome: Err(RegistrationError::TransactionBeginFailed) }
    ));
}

#[test]
fn commit_failure_is_reported() {
    let (mut reg, _) = Registration::after_hashing(request("f", "f@x.com", "pw"), 2, Ok("h".to_string()));
    reg.on_event(Event::Opened { ok: true });
    reg.on_event(Event::InsertReported { result: Ok(()) });
    assert!(matches!(
        reg.on_event(Event::Committed { ok: false }),
        Action::Report { outcome: Err(RegistrationError::TransactionCommitFailed) }
    ));
    assert!(matches!(reg.on_event(Event::Committed { ok: true }), Action::Ignore));
}

#[test]
fn out_of_order_event_is_ignored() {
    let (mut reg, _) = Registration::after_hashing(request("g", "g@x.com", "pw"), 3, Ok("h".to_string()));
    assert!(matches!(reg.on_event(Event::Committed { ok: true }), Action::Ignore));
    assert!(matches!(reg.phase, Phase::Opening));
}

#[test]
fn store_errors_are_classified() {
    assert_eq!(
        unique_violation("users_email_key"),
        RegistrationError::ConstraintViolation(Field::Email)
    );
    assert_eq!(unique_violation("users_pkey"), RegistrationError::StoreUnavailable);
    assert_eq!(
        classify_store_error(Some("08006".to_string()), Some("users_email_key".to_string())),
        RegistrationError::StoreUnavailable
    );
    assert_eq!(classify_store_error(None, None), RegistrationError::StoreUnavailable);
}

#[test]
fn fresh_ids_differ() {
    let hasher = CredentialHasher::new();
    let (a, _) = Registration::start(request("h", "h@x.com", ""), &hasher);
    let (b, _) = Registration::start(request("h", "h@x.com", ""), &hasher);
    assert!(is_random_uuid(a.user_id));
    assert!(is_random_uuid(b.user_id));
    assert_ne!(a.user_id, b.user_id);
}
