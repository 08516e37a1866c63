use home_dashboard::store::{SessionStore, Validation, SESSION_TIMEOUT_SECS};

#[test]
fn unknown_token_is_not_found() {
    let mut store = SessionStore::new();
    assert!(matches!(store.validate("never-issued", 0), Validation::NotFound));
    assert!(matches!(store.validate("", 1_000_000), Validation::NotFound));
}

#[test]
fn expiry_is_a_single_transition() {
    let started: u64 = 1_000;
    let mut store = SessionStore::new();
    assert!(store.try_insert("tok".to_string(), "admin".to_string(), started));

    match store.validate("tok", started + SESSION_TIMEOUT_SECS - 1) {
        Validation::Active(user) => assert_eq!(user, "admin"),
        _ => panic!("expected the session to be active just before the timeout"),
    }
    assert!(matches!(
        store.validate("tok", started + SESSION_TIMEOUT_SECS + 1),
        Validation::Expired
    ));
    assert!(matches!(
        store.validate("tok", started + SESSION_TIMEOUT_SECS + 2),
        Validation::NotFound
    ));
}

#[test]
fn boundary_instant_is_still_active() {
    let started: u64 = 50;
    let mut store = SessionStore::new();
    assert!(store.try_insert("tok".to_string(), "admin".to_string(), started));
    assert!(matches!(
        store.validate("tok", started + SESSION_TIMEOUT_SECS),
        Validation::Active(_)
    ));
}

#[test]
fn validate_does_not_slide_the_window() {
    let started: u64 = 0;
    let mut store = SessionStore::new();
    assert!(store.try_insert("tok".to_string(), "admin".to_string(), started));

    // Repeated lookups within the window keep reporting against the same
    // creation time: activity does not extend the session.
    assert!(matches!(store.validate("tok", 100), Validation::Active(_)));
    assert!(matches!(store.validate("tok", 250), Validation::Active(_)));
    assert!(matches!(
        store.validate("tok", SESSION_TIMEOUT_SECS + 1),
        Validation::Expired
    ));
}

#[test]
fn created_tokens_are_distinct_from_active_ones() {
    let mut store = SessionStore::new();
    let first = store
        .create("admin".to_string(), 10)
        .expect("a fresh token on an empty store");
    let second = store
        .create("admin".to_string(), 11)
        .expect("a fresh token distinct from the one active session");
    assert_ne!(first, second);
    assert!(store.contains(&first));
    assert!(store.contains(&second));
}

#[test]
fn try_insert_refuses_a_taken_token() {
    let mut store = SessionStore::new();
    assert!(store.try_insert("tok".to_string(), "admin".to_string(), 5));
    assert!(!store.try_insert("tok".to_string(), "admin".to_string(), 6));
    // The earlier session is untouched: it still expires from its own start.
    assert!(matches!(
        store.validate("tok", 5 + SESSION_TIMEOUT_SECS),
        Validation::Active(_)
    ));
}

#[test]
fn revoke_removes_and_tolerates_absence() {
    let mut store = SessionStore::new();
    assert!(store.try_insert("tok".to_string(), "admin".to_string(), 5));
    store.revoke("tok");
    assert!(matches!(store.validate("tok", 6), Validation::NotFound));
    // Revoking an absent token is a no-op.
    store.revoke("tok");
    assert!(!store.contains("tok"));
}

#[test]
fn create_records_the_username() {
    let mut store = SessionStore::new();
    let token = store
        .create("admin".to_string(), 42)
        .expect("a fresh token on an empty store");
    match store.validate(&token, 43) {
        Validation::Active(user) => assert_eq!(user, "admin"),
        _ => panic!("expected the freshly created session to be active"),
    }
}
