//! Verifying plaintext passwords against stored hashes, and deriving new
//! hashes for storage.

use vstd::prelude::*;
use vstd::string::StringSliceAdditionalSpecFns;
use crate::decimal::spec_decimal;
use crate::errors::AuthError;

verus! {

/// Memory cost of a newly derived hash, in KiB.
pub const ARGON2_M_COST: u32 = 15 * 1024;

/// Iteration count of a newly derived hash.
pub const ARGON2_T_COST: u32 = 2;

/// Lane count of a newly derived hash.
pub const ARGON2_P_COST: u32 = 1;

/// The longest password, in bytes, the hash function accepts.
pub const MAX_PASSWORD_BYTES: usize = 0xFFFFFFFF;

/// Whether `phc` parses as a PHC-format password hash string.
///
/// The result of `argon2::password_hash::PasswordHash::new`, which depends on
/// the string alone.
pub uninterp spec fn phc_valid(phc: Seq<char>) -> bool;

/// Whether recomputing the digest of `password`, under the algorithm,
/// parameters and salt embedded in the hash string `phc`, reproduces the
/// digest embedded there.
///
/// The result of `argon2::PasswordVerifier::verify_password` (with no keyed
/// secret), which depends on the two strings alone.
pub uninterp spec fn password_matches(password: Seq<char>, phc: Seq<char>) -> bool;

/// The prefix a PHC string derived under the given cost parameters carries:
/// the Argon2id identifier, the algorithm version, and the three costs in
/// decimal, before the salt and digest segments.
pub open spec fn phc_prefix(m_cost: u32, t_cost: u32, p_cost: u32) -> Seq<char> {
    "$argon2id$v=19$m="@ + spec_decimal(m_cost as int) + ",t="@ + spec_decimal(t_cost as int)
        + ",p="@ + spec_decimal(p_cost as int) + "$"@
}

/// Relies on argon2::password_hash::PasswordHash::new: whether a PHC string
/// parses depends on the string alone.
#[verifier::external_body]
fn phc_string_parses(phc: &str) -> (r: bool)
    ensures
        r == phc_valid(phc@),
{
    argon2::password_hash::PasswordHash::new(phc).is_ok()
}

/// Relies on argon2::PasswordVerifier::verify_password for Argon2: the hash's
/// own embedded parameters and salt are used, so the outcome depends on the
/// password and the hash string alone; an unparseable hash string verifies
/// nothing.
#[verifier::external_body]
fn argon2_verify(password: &str, phc: &str) -> (r: bool)
    ensures
        r == (phc_valid(phc@) && password_matches(password@, phc@)),
{
    match argon2::password_hash::PasswordHash::new(phc) {
        Ok(parsed) => argon2::PasswordVerifier::verify_password(
            &argon2::Argon2::default(),
            password.as_bytes(),
            &parsed,
        ).is_ok(),
        Err(_) => false,
    }
}

/// Whether `salt` is a B64 salt string the Argon2 hashing path accepts: it
/// parses as a PHC salt and decodes to a byte length the algorithm allows.
///
/// The result of argon2::password_hash::Salt::from_b64 together with its
/// B64 decoding, which depends on the string alone.
pub uninterp spec fn valid_salt(salt: Seq<char>) -> bool;

/// Relies on argon2::password_hash::SaltString::generate with the operating
/// system's randomness: a fresh 16-byte salt, rendered as 22 characters of
/// PHC B64, which the hashing path accepts. The value is random, so nothing
/// more is promised.
#[verifier::external_body]
fn fresh_salt_b64() -> (r: String)
    ensures
        r@.len() == 22,
        valid_salt(r@),
{
    argon2::password_hash::SaltString::generate(&mut argon2::password_hash::rand_core::OsRng)
        .as_str()
        .to_owned()
}

/// Relies on argon2::PasswordHasher::hash_password. For an accepted salt
/// and within the stated parameter and length bounds every failure path of
/// the call is excluded, so hashing succeeds; the returned PHC string opens
/// with the algorithm, version and cost parameters, carries the salt
/// verbatim right after them (before the digest segment), parses back, and
/// verifies the same password. That no other password verifies against it
/// is the collision resistance the algorithm is trusted for.
#[verifier::external_body]
fn argon2_hash_with_salt(
    password: &str,
    salt_b64: &str,
    m_cost: u32,
    t_cost: u32,
    p_cost: u32,
) -> (r: Option<String>)
    requires
        8 <= m_cost,
        1 <= t_cost,
        1 <= p_cost <= 0xFFFFFF,
        p_cost * 8 <= m_cost,
        password.spec_bytes().len() as usize <= MAX_PASSWORD_BYTES,
    ensures
        valid_salt(salt_b64@) ==> r is Some,
        r matches Some(phc) ==> {
            &&& phc_valid(phc@)
            &&& password_matches(password@, phc@)
            &&& forall|other: Seq<char>| other != password@ ==> !password_matches(other, phc@)
            &&& phc@.len() > phc_prefix(m_cost, t_cost, p_cost).len() + salt_b64@.len()
            &&& phc@.subrange(0, phc_prefix(m_cost, t_cost, p_cost).len() as int) == phc_prefix(
                m_cost,
                t_cost,
                p_cost,
            )
            &&& phc@.subrange(
                phc_prefix(m_cost, t_cost, p_cost).len() as int,
                phc_prefix(m_cost, t_cost, p_cost).len() as int + salt_b64@.len() as int,
            ) == salt_b64@
        },
{
    let params = argon2::Params::new(m_cost, t_cost, p_cost, None).ok()?;
    let hasher = argon2::Argon2::new(argon2::Algorithm::Argon2id, argon2::Version::V0x13, params);
    let salt = argon2::password_hash::Salt::from_b64(salt_b64).ok()?;
    let hashed = argon2::PasswordHasher::hash_password(&hasher, password.as_bytes(), salt).ok()?;
    Some(hashed.to_string())
}

/// What `compare` returns, as a function of the two strings.
pub open spec fn spec_compare(password: Seq<char>, hashed_password: Seq<char>) -> Result<
    bool,
    AuthError,
> {
    if password.len() == 0 {
        Err(AuthError::EmptyPassword)
    } else if !phc_valid(hashed_password) {
        Err(AuthError::InvalidHashFormat)
    } else {
        Ok(password_matches(password, hashed_password))
    }
}

/// Decides whether `password` is the password that `hashed_password` was
/// derived from. An empty password and an unparseable hash are rejected as
/// errors; a genuine mismatch is `Ok(false)`, never an error.
pub fn compare(password: &str, hashed_password: &str) -> (r: Result<bool, AuthError>)
    ensures
        r == spec_compare(password@, hashed_password@),
{
    if password.is_empty() {
        return Err(AuthError::EmptyPassword);
    }
    if !phc_string_parses(hashed_password) {
        return Err(AuthError::InvalidHashFormat);
    }
    Ok(argon2_verify(password, hashed_password))
}

/// Derives a self-describing hash string for a new password, under a fresh
/// random salt and this module's fixed cost parameters.
///
/// An empty password is rejected with `EmptyPassword`, and one longer in
/// bytes than the algorithm accepts with `HashingError`; every other
/// password is hashed. The returned string opens with
/// `$argon2id$v=19$m=15360,t=2,p=1$`, carries its 22-character salt segment
/// next, parses back, and verifies the hashed password and no other.
pub fn hash(password: &str) -> (r: Result<String, AuthError>)
    ensures
        password@.len() == 0 ==> r == Err::<String, AuthError>(AuthError::EmptyPassword),
        password@.len() > 0 && password.spec_bytes().len() as usize > MAX_PASSWORD_BYTES ==> r == Err::<
            String,
            AuthError,
        >(AuthError::HashingError),
        password@.len() > 0 && password.spec_bytes().len() as usize <= MAX_PASSWORD_BYTES ==> (r matches Ok(
            phc,
        ) && {
            &&& phc_valid(phc@)
            &&& password_matches(password@, phc@)
            &&& forall|other: Seq<char>| other != password@ ==> !password_matches(other, phc@)
            &&& phc@.len() > 53
            &&& phc@.subrange(0, 31) == "$argon2id$v=19$m=15360,t=2,p=1$"@
            &&& valid_salt(phc@.subrange(31, 53))
        }),
{
    if password.is_empty() {
        return Err(AuthError::EmptyPassword);
    }
    if password.len() > MAX_PASSWORD_BYTES {
        return Err(AuthError::HashingError);
    }
    proof {
        lemma_fixed_phc_prefix();
    }
    let salt = fresh_salt_b64();
    match argon2_hash_with_salt(
        password,
        salt.as_str(),
        ARGON2_M_COST,
        ARGON2_T_COST,
        ARGON2_P_COST,
    ) {
        Some(phc) => Ok(phc),
        None => Err(AuthError::HashingError),
    }
}

/// Hashes derived under distinct salts are distinct strings: the salt is
/// embedded verbatim between the parameter prefix and the digest, so two
/// derived hash strings coincide only if the salts drawn for them do — with
/// an independent random salt per call, no two stored hashes are
/// bit-identical.
pub proof fn lemma_distinct_salts_distinct_hashes(
    phc1: Seq<char>,
    phc2: Seq<char>,
    salt1: Seq<char>,
    salt2: Seq<char>,
    prefix_len: int,
)
    requires
        0 <= prefix_len,
        salt1.len() == salt2.len(),
        salt1 != salt2,
        phc1.len() >= prefix_len + salt1.len(),
        phc2.len() >= prefix_len + salt2.len(),
        phc1.subrange(prefix_len, prefix_len + salt1.len() as int) == salt1,
        phc2.subrange(prefix_len, prefix_len + salt2.len() as int) == salt2,
    ensures
        phc1 != phc2,
{
    if phc1 == phc2 {
        assert(phc1.subrange(prefix_len, prefix_len + salt1.len() as int) == phc2.subrange(
            prefix_len,
            prefix_len + salt2.len() as int,
        ));
    }
}

/// The prefix under this module's fixed cost parameters, written out.
proof fn lemma_fixed_phc_prefix()
    ensures
        phc_prefix(ARGON2_M_COST, ARGON2_T_COST, ARGON2_P_COST)
            == "$argon2id$v=19$m=15360,t=2,p=1$"@,
        "$argon2id$v=19$m=15360,t=2,p=1$"@.len() == 31,
{
    reveal_strlit("$argon2id$v=19$m=");
    reveal_strlit(",t=");
    reveal_strlit(",p=");
    reveal_strlit("$");
    reveal_strlit("$argon2id$v=19$m=15360,t=2,p=1$");
    reveal_with_fuel(spec_decimal, 6);
    assert(spec_decimal(15360) =~= seq!['1', '5', '3', '6', '0']);
    assert(spec_decimal(2) =~= seq!['2']);
    assert(spec_decimal(1) =~= seq!['1']);
    assert(phc_prefix(ARGON2_M_COST, ARGON2_T_COST, ARGON2_P_COST) =~=
        "$argon2id$v=19$m=15360,t=2,p=1$"@);
}

/// Verifying a password against a hash freshly derived from it succeeds:
/// whenever `hash(password)` returned `hashed` (so `hashed` parses and
/// verifies `password`), `compare(password, hashed)` is `Ok(true)`.
pub proof fn lemma_verify_own_hash(password: Seq<char>, hashed: Seq<char>)
    requires
        password.len() > 0,
        phc_valid(hashed),
        password_matches(password, hashed),
    ensures
        spec_compare(password, hashed) == Ok::<bool, AuthError>(true),
{
}

/// A hash verifies only its own password: whenever `hash(other)` returned
/// `hashed` for some `other` different from `password` (so no string but
/// `other` verifies against `hashed`), `compare(password, hashed)` is
/// `Ok(false)`.
pub proof fn lemma_verify_foreign_hash(password: Seq<char>, other: Seq<char>, hashed: Seq<char>)
    requires
        password.len() > 0,
        password != other,
        phc_valid(hashed),
        forall|q: Seq<char>| q != other ==> !password_matches(q, hashed),
    ensures
        spec_compare(password, hashed) == Ok::<bool, AuthError>(false),
{
}

} // verus!
