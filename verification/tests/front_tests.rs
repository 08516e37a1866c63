use home_dashboard::front::{handle_login, index_page, LoginOutcome, Page};
use home_dashboard::store::{SessionStore, SESSION_TIMEOUT_SECS};

#[test]
fn no_cookie_means_not_logged_in() {
    let mut store = SessionStore::new();
    assert_eq!(index_page(&mut store, None, 0), Page::NotLoggedIn);
}

#[test]
fn stale_cookie_means_not_logged_in() {
    let mut store = SessionStore::new();
    assert_eq!(index_page(&mut store, Some("stale"), 0), Page::NotLoggedIn);
}

#[test]
fn failed_login_changes_nothing() {
    let mut store = SessionStore::new();
    let outcome = handle_login(&mut store, "admin".to_string(), "wrong".to_string(), 0);
    assert!(matches!(outcome, LoginOutcome::Failure));
    let outcome = handle_login(&mut store, "Admin".to_string(), "raspberry".to_string(), 0);
    assert!(matches!(outcome, LoginOutcome::Failure));
}

#[test]
fn login_then_dashboard_then_expiry_then_not_logged_in() {
    let started: u64 = 100;
    let mut store = SessionStore::new();

    let token = match handle_login(&mut store, "admin".to_string(), "raspberry".to_string(), started) {
        LoginOutcome::Success(token) => token,
        LoginOutcome::Failure => panic!("the configured pair must log in"),
    };

    // With the fresh cookie the dashboard is served.
    assert_eq!(index_page(&mut store, Some(&token), started + 1), Page::Dashboard);

    // Replayed after the timeout window, the same cookie gets the expiry
    // notice, and the lookup that saw the expiry removed the session.
    assert_eq!(
        index_page(&mut store, Some(&token), started + SESSION_TIMEOUT_SECS + 1),
        Page::SessionExpired
    );

    // A second replay finds nothing: the visitor is simply not logged in.
    assert_eq!(
        index_page(&mut store, Some(&token), started + SESSION_TIMEOUT_SECS + 2),
        Page::NotLoggedIn
    );
}

#[test]
fn two_logins_coexist() {
    let mut store = SessionStore::new();
    let first = match handle_login(&mut store, "admin".to_string(), "raspberry".to_string(), 0) {
        LoginOutcome::Success(token) => token,
        LoginOutcome::Failure => panic!("the configured pair must log in"),
    };
    let second = match handle_login(&mut store, "admin".to_string(), "raspberry".to_string(), 5) {
        LoginOutcome::Success(token) => token,
        LoginOutcome::Failure => panic!("the configured pair must log in"),
    };
    assert_ne!(first, second);
    assert_eq!(index_page(&mut store, Some(&first), 10), Page::Dashboard);
    assert_eq!(index_page(&mut store, Some(&second), 10), Page::Dashboard);
}
