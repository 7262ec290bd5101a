//! Freshly drawn random identifiers.

use vstd::prelude::*;

verus! {

/// Relies on uuid::Uuid::new_v4 and its hyphenated Display form: a random
/// version-4 UUID rendered as 36 characters. The value is random, so nothing
/// more is promised.
#[verifier::external_body]
pub fn fresh_token_id() -> (r: String)
    ensures
        r@.len() == 36,
{
    uuid::Uuid::new_v4().to_string()
}

/// Whether `c` is a lowercase hexadecimal digit.
pub open spec fn is_lower_hex_digit(c: char) -> bool {
    ('0' <= c && c <= '9') || ('a' <= c && c <= 'f')
}

/// Relies on uuid::Uuid::new_v4 and its Simple form: a random version-4 UUID
/// rendered as 32 lowercase hexadecimal characters without hyphens. The
/// value is random, so nothing more is promised.
#[verifier::external_body]
pub fn fresh_trace_id() -> (r: String)
    ensures
        r@.len() == 32,
        forall|i: int| 0 <= i < r@.len() ==> is_lower_hex_digit(#[trigger] r@[i]),
{
    uuid::Uuid::new_v4().simple().to_string()
}

} // verus!
