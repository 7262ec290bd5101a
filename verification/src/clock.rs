//! Access to the ambient clock.

use vstd::prelude::*;

verus! {

/// Relies on chrono::Utc::now / DateTime::timestamp: the current time as Unix
/// seconds. Nothing is promised of the value; callers must hold for every
/// outcome.
#[verifier::external_body]
pub fn now_unix_seconds() -> (r: i64) {
    chrono::Utc::now().timestamp()
}

} // verus!
