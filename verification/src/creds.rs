//! Credential check: exact string equality against one fixed
//! username/password pair, a stand-in for a real identity provider.

use crate::text::str_eq;
use vstd::prelude::*;

verus! {

/// The one username the check accepts.
pub open spec fn accepted_username() -> Seq<char> {
    "admin"@
}

/// The one password the check accepts.
pub open spec fn accepted_password() -> Seq<char> {
    "raspberry"@
}

/// Returns true exactly for the configured pair; any other pair, case
/// variants and empty strings included, is rejected.
pub fn check(username: &str, password: &str) -> (r: bool)
    ensures
        r == (username@ == accepted_username() && password@ == accepted_password()),
{
    str_eq(username, "admin") && str_eq(password, "raspberry")
}

} // verus!
