//! Deciding whether an otherwise-valid token must be treated as revoked,
//! from the three revocation entries read out of the shared cache.
//!
//! The cache is read elsewhere; every function here takes the raw read
//! results as values, so the decision itself is verified for every outcome a
//! read can have, and a failed read is never mistaken for "not revoked".

use vstd::prelude::*;
use crate::errors::AuthError;
use crate::jwt::ClaimsMethods;

verus! {

/// The revocation state held in the shared cache, as this core understands
/// it.
pub ghost struct RevocationView {
    /// Epoch second at or before which every token's issuance is revoked, if
    /// set.
    pub global_before: Option<u64>,
    /// Per-user epoch second at or before which that user's issuances are
    /// revoked.
    pub user_before: Map<Seq<char>, u64>,
    /// Ids of individually revoked tokens.
    pub revoked_tokens: Set<Seq<char>>,
}

/// Whether the state revokes a claim with subject `sub`, issuance time `iat`
/// and token id `jti`: any one of the three entries suffices.
pub open spec fn revoked_in(sub: Seq<char>, iat: u64, jti: Seq<char>, rv: RevocationView) -> bool {
    ||| (rv.global_before matches Some(g) && g >= iat)
    ||| (rv.user_before.contains_key(sub) && rv.user_before[sub] >= iat)
    ||| rv.revoked_tokens.contains(jti)
}

/// Whether `c` is a decimal digit.
pub open spec fn is_digit(c: char) -> bool {
    '0' <= c && c <= '9'
}

/// The value of the digit `c`.
pub open spec fn digit_of(c: char) -> int {
    c as int - '0' as int
}

/// Whether every character of `s` is a decimal digit.
pub open spec fn all_digits(s: Seq<char>) -> bool {
    forall|i: int| 0 <= i < s.len() ==> is_digit(#[trigger] s[i])
}

/// The number a digit string denotes, most significant digit first.
pub open spec fn spec_digits_value(s: Seq<char>) -> int
    decreases s.len(),
{
    if s.len() == 0 {
        0
    } else {
        spec_digits_value(s.drop_last()) * 10 + digit_of(s.last())
    }
}

/// What parsing a cache entry as an epoch timestamp yields: the denoted
/// value for a non-empty, all-digit string whose value is representable,
/// nothing otherwise.
pub open spec fn spec_parse_epoch(s: Seq<char>) -> Option<u64> {
    if s.len() > 0 && all_digits(s) && spec_digits_value(s) <= u64::MAX {
        Some(spec_digits_value(s) as u64)
    } else {
        None
    }
}

proof fn lemma_digits_value_nonneg(s: Seq<char>)
    requires
        all_digits(s),
    ensures
        spec_digits_value(s) >= 0,
    decreases s.len(),
{
    if s.len() > 0 {
        assert(all_digits(s.drop_last())) by {
            assert(forall|i: int|
                0 <= i < s.drop_last().len() ==> #[trigger] s.drop_last()[i] == s[i]);
        }
        lemma_digits_value_nonneg(s.drop_last());
    }
}

proof fn lemma_digits_value_prefix_le(s: Seq<char>, i: int)
    requires
        all_digits(s),
        0 <= i <= s.len(),
    ensures
        spec_digits_value(s.subrange(0, i)) <= spec_digits_value(s),
    decreases s.len() - i,
{
    if i == s.len() {
        assert(s.subrange(0, i) =~= s);
    } else {
        assert(all_digits(s.drop_last())) by {
            assert(forall|j: int|
                0 <= j < s.drop_last().len() ==> #[trigger] s.drop_last()[j] == s[j]);
        }
        assert(s.drop_last().subrange(0, i) =~= s.subrange(0, i));
        lemma_digits_value_prefix_le(s.drop_last(), i);
        lemma_digits_value_nonneg(s.drop_last());
    }
}

/// Parses a cache entry as a decimal epoch timestamp.
pub fn parse_epoch(s: &str) -> (r: Option<u64>)
    ensures
        r == spec_parse_epoch(s@),
{
    let ghost sv = s@;
    let n = s.unicode_len();
    if n == 0 {
        return None;
    }
    let mut value: u64 = 0;
    let mut i: usize = 0;
    while i < n
        invariant
            n == sv.len(),
            sv == s@,
            0 < n,
            i <= n,
            all_digits(sv.subrange(0, i as int)),
            value == spec_digits_value(sv.subrange(0, i as int)),
        decreases n - i,
    {
        let c = s.get_char(i);
        proof {
            assert(sv.subrange(0, i as int + 1).drop_last() =~= sv.subrange(0, i as int));
            assert(sv.subrange(0, i as int + 1).last() == sv[i as int]);
        }
        if c < '0' || c > '9' {
            proof {
                assert(!all_digits(sv));
            }
            return None;
        }
        let d: u64 = (c as u32 - 48) as u64;
        let stepped = match value.checked_mul(10) {
            Some(v10) => v10.checked_add(d),
            None => None,
        };
        match stepped {
            Some(v) => {
                value = v;
            },
            None => {
                proof {
                    if all_digits(sv) {
                        lemma_digits_value_prefix_le(sv, i as int + 1);
                    }
                }
                return None;
            },
        }
        i = i + 1;
    }
    proof {
        assert(sv.subrange(0, n as int) =~= sv);
    }
    Some(value)
}

/// What checking one revoke-before entry against an issuance time yields: no
/// entry never revokes, a malformed entry is an infrastructure failure
/// carrying the offending text, and a parsed bound revokes every issuance at
/// or before it.
pub open spec fn spec_check_entry(iat: u64, raw: Option<String>) -> Result<bool, AuthError> {
    match raw {
        Some(s) => match spec_parse_epoch(s@) {
            Some(bound) => Ok(bound >= iat),
            None => Err(AuthError::RedisError(s)),
        },
        None => Ok(false),
    }
}

fn check_entry(iat: u64, raw: &Option<String>) -> (r: Result<bool, AuthError>)
    ensures
        r == spec_check_entry(iat, *raw),
{
    match raw {
        Some(s) => match parse_epoch(s.as_str()) {
            Some(bound) => Ok(bound >= iat),
            None => Err(AuthError::RedisError(s.clone())),
        },
        None => Ok(false),
    }
}

/// Checks the global revoke-before entry against a claim's issuance time.
pub fn is_global_revoked<T: ClaimsMethods>(claims: &T, raw: &Option<String>) -> (r: Result<
    bool,
    AuthError,
>)
    ensures
        r == spec_check_entry(claims.spec_iat(), *raw),
{
    check_entry(claims.get_iat(), raw)
}

/// Checks the claim's owner's revoke-before entry against its issuance time.
pub fn is_user_revoked<T: ClaimsMethods>(claims: &T, raw: &Option<String>) -> (r: Result<
    bool,
    AuthError,
>)
    ensures
        r == spec_check_entry(claims.spec_iat(), *raw),
{
    check_entry(claims.get_iat(), raw)
}

/// What the whole revocation decision yields from the three reads, in their
/// fixed order: a failed read or a malformed entry is an infrastructure
/// failure — never "not revoked" — and otherwise the checks are combined by
/// short-circuit disjunction.
pub open spec fn spec_is_revoked(
    iat: u64,
    global_read: Result<Option<String>, String>,
    user_read: Result<Option<String>, String>,
    token_read: Result<bool, String>,
) -> Result<bool, AuthError> {
    match global_read {
        Err(e) => Err(AuthError::RedisError(e)),
        Ok(graw) => match spec_check_entry(iat, graw) {
            Err(e) => Err(e),
            Ok(true) => Ok(true),
            Ok(false) => match user_read {
                Err(e) => Err(AuthError::RedisError(e)),
                Ok(uraw) => match spec_check_entry(iat, uraw) {
                    Err(e) => Err(e),
                    Ok(true) => Ok(true),
                    Ok(false) => match token_read {
                        Err(e) => Err(AuthError::RedisError(e)),
                        Ok(present) => Ok(present),
                    },
                },
            },
        },
    }
}

/// Decides whether the claim set must be treated as revoked, from the three
/// cache reads: the global revoke-before entry, the claim owner's
/// revoke-before entry, and the membership of the claim's token id in the
/// revoked-token set.
pub fn is_revoked<T: ClaimsMethods>(
    claims: &T,
    global_read: Result<Option<String>, String>,
    user_read: Result<Option<String>, String>,
    token_read: Result<bool, String>,
) -> (r: Result<bool, AuthError>)
    ensures
        r == spec_is_revoked(claims.spec_iat(), global_read, user_read, token_read),
{
    let iat = claims.get_iat();
    match global_read {
        Err(e) => Err(AuthError::RedisError(e)),
        Ok(graw) => match check_entry(iat, &graw) {
            Err(e) => Err(e),
            Ok(true) => Ok(true),
            Ok(false) => match user_read {
                Err(e) => Err(AuthError::RedisError(e)),
                Ok(uraw) => match check_entry(iat, &uraw) {
                    Err(e) => Err(e),
                    Ok(true) => Ok(true),
                    Ok(false) => match token_read {
                        Err(e) => Err(AuthError::RedisError(e)),
                        Ok(present) => Ok(present),
                    },
                },
            },
        },
    }
}

/// Whether a raw entry is well formed: either absent, or a parseable digit
/// string.
pub open spec fn wf_entry(raw: Option<String>) -> bool {
    raw matches Some(s) ==> spec_parse_epoch(s@) is Some
}

/// The bound a raw entry denotes.
pub open spec fn entry_value(raw: Option<String>) -> Option<u64> {
    match raw {
        Some(s) => spec_parse_epoch(s@),
        None => None,
    }
}

/// That the three reads are exactly what a cache in state `rv` answers for a
/// claim with subject `sub` and token id `jti`.
pub open spec fn reads_of_state(
    rv: RevocationView,
    sub: Seq<char>,
    jti: Seq<char>,
    global_read: Result<Option<String>, String>,
    user_read: Result<Option<String>, String>,
    token_read: Result<bool, String>,
) -> bool {
    &&& global_read matches Ok(graw) && wf_entry(graw) && entry_value(graw) == rv.global_before
    &&& user_read matches Ok(uraw) && wf_entry(uraw) && entry_value(uraw) == (
        if rv.user_before.contains_key(sub) {
            Some(rv.user_before[sub])
        } else {
            None::<u64>
        }
    )
    &&& token_read == Ok::<bool, String>(rv.revoked_tokens.contains(jti))
}

/// Against a faithful set of reads, the executable decision agrees exactly
/// with the abstract revocation predicate over the cache state.
pub proof fn lemma_is_revoked_matches_state(
    rv: RevocationView,
    sub: Seq<char>,
    iat: u64,
    jti: Seq<char>,
    global_read: Result<Option<String>, String>,
    user_read: Result<Option<String>, String>,
    token_read: Result<bool, String>,
)
    requires
        reads_of_state(rv, sub, jti, global_read, user_read, token_read),
    ensures
        spec_is_revoked(iat, global_read, user_read, token_read) == Ok::<bool, AuthError>(
            revoked_in(sub, iat, jti, rv),
        ),
{
}

/// A global revoke-before bound at or after a token's issuance time revokes
/// it, regardless of any user- or token-specific state.
pub proof fn lemma_global_revocation_dominates(
    sub: Seq<char>,
    iat: u64,
    jti: Seq<char>,
    rv: RevocationView,
)
    requires
        rv.global_before matches Some(g) && g >= iat,
    ensures
        revoked_in(sub, iat, jti, rv),
{
}

/// Revoking one user's tokens leaves every other user's tokens exactly as
/// revoked or valid as they were: writing a revoke-before bound for `other`
/// does not change the decision for a claim whose subject differs from
/// `other`.
pub proof fn lemma_user_revocation_is_isolated(
    sub: Seq<char>,
    iat: u64,
    jti: Seq<char>,
    rv: RevocationView,
    other: Seq<char>,
    bound: u64,
)
    requires
        sub != other,
    ensures
        revoked_in(
            sub,
            iat,
            jti,
            RevocationView { user_before: rv.user_before.insert(other, bound), ..rv },
        ) == revoked_in(sub, iat, jti, rv),
{
}

} // verus!
