//! Request-level decisions of the HTTP front: which page the index route
//! serves for a given cookie, and what a login attempt does to the session
//! table. The surrounding I/O — routing, cookies, template files — stays
//! outside the library; these functions take plain values and return plain
//! decisions.

use crate::creds;
use crate::store::{SessionInfo, SessionStore, SpecValidation, Validation};
use vstd::prelude::*;

verus! {

/// Which body the index route serves.
#[derive(PartialEq, Eq, Structural, Clone, Copy, Debug)]
pub enum Page {
    Dashboard,
    SessionExpired,
    NotLoggedIn,
}

/// The page owed to a given lookup report.
pub open spec fn page_for(v: SpecValidation) -> Page {
    match v {
        SpecValidation::Active(_) => Page::Dashboard,
        SpecValidation::Expired => Page::SessionExpired,
        SpecValidation::NotFound => Page::NotLoggedIn,
    }
}

/// What a login attempt decides: on success, the token to hand back as the
/// session cookie; on failure, nothing.
pub enum LoginOutcome {
    Success(String),
    Failure,
}

/// Decides the index route: with no cookie the visitor is not logged in;
/// with a cookie, the session table is consulted at time `now` and the
/// page follows the lookup report, an expired entry being removed by that
/// very lookup.
pub fn index_page(store: &mut SessionStore, cookie: Option<&str>, now: u64) -> (r: Page)
    ensures
        match cookie {
            Some(token) => r == page_for(crate::store::spec_validate(old(store)@, token@, now))
                && final(store)@ == crate::store::spec_validate_store(old(store)@, token@, now),
            None => r == Page::NotLoggedIn && final(store)@ == old(store)@,
        },
{
    match cookie {
        None => Page::NotLoggedIn,
        Some(token) => match store.validate(token, now) {
            Validation::Active(_) => Page::Dashboard,
            Validation::Expired => Page::SessionExpired,
            Validation::NotFound => Page::NotLoggedIn,
        },
    }
}

/// Decides a login attempt at time `now`: a pair other than the configured
/// one fails and leaves the table untouched; the configured pair records a
/// fresh session and succeeds with its token, unless the freshly drawn
/// token collides with an active one, in which case nothing is recorded —
/// so on an empty table the configured pair always logs in.
pub fn handle_login(store: &mut SessionStore, username: String, password: String, now: u64) -> (r: LoginOutcome)
    ensures
        !(username@ == creds::accepted_username() && password@ == creds::accepted_password())
            ==> r == LoginOutcome::Failure && final(store)@ == old(store)@,
        (username@ == creds::accepted_username() && password@ == creds::accepted_password()
            && old(store)@.dom() =~= Set::<Seq<char>>::empty()) ==> r is Success,
        (username@ == creds::accepted_username() && password@ == creds::accepted_password())
            ==> match r {
                LoginOutcome::Success(token) => !old(store)@.dom().contains(token@)
                    && final(store)@ == old(store)@.insert(
                    token@,
                    SessionInfo { username: username@, started_at: now },
                ),
                LoginOutcome::Failure => final(store)@ == old(store)@,
            },
{
    if creds::check(username.as_str(), password.as_str()) {
        match store.create(username, now) {
            Some(token) => LoginOutcome::Success(token),
            None => LoginOutcome::Failure,
        }
    } else {
        LoginOutcome::Failure
    }
}

} // verus!
