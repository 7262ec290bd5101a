//! Parsing and cryptographic verification of session tokens, and the claims
//! they carry.

use vstd::prelude::*;
use crate::config::Config;
use crate::errors::AuthError;

verus! {

/// The claim set carried by a session token.
#[derive(Debug)]
pub struct AccessClaim {
    /// Subject: the owning user's id.
    pub sub: String,
    /// Unique id of this one issuance.
    pub jti: String,
    /// Issuance time, Unix seconds.
    pub iat: u64,
    /// Expiry time, Unix seconds.
    pub exp: u64,
    /// Token kind tag.
    pub typ: u8,
    /// Role string carried verbatim from the user.
    pub roles: String,
}

/// Mathematical view of a claim set.
pub ghost struct ClaimSpec {
    pub sub: Seq<char>,
    pub jti: Seq<char>,
    pub iat: u64,
    pub exp: u64,
    pub typ: u8,
    pub roles: Seq<char>,
}

impl View for AccessClaim {
    type V = ClaimSpec;

    open spec fn view(&self) -> ClaimSpec {
        ClaimSpec {
            sub: self.sub@,
            jti: self.jti@,
            iat: self.iat,
            exp: self.exp,
            typ: self.typ,
            roles: self.roles@,
        }
    }
}

/// The kind a token's `typ` tag names.
#[derive(Debug, Clone, Copy, PartialEq, Eq, Structural)]
pub enum JwtTokenType {
    AccessToken,
    RefreshToken,
    UnknownToken,
}

impl core::convert::From<u8> for JwtTokenType {
    /// Tag 0 is an access token, 1 a refresh token, anything else unknown.
    fn from(value: u8) -> (r: Self) {
        if value == 0 {
            JwtTokenType::AccessToken
        } else if value == 1 {
            JwtTokenType::RefreshToken
        } else {
            JwtTokenType::UnknownToken
        }
    }
}

impl vstd::std_specs::convert::FromSpecImpl<u8> for JwtTokenType {
    open spec fn obeys_from_spec() -> bool {
        true
    }

    open spec fn from_spec(value: u8) -> Self {
        if value == 0 {
            JwtTokenType::AccessToken
        } else if value == 1 {
            JwtTokenType::RefreshToken
        } else {
            JwtTokenType::UnknownToken
        }
    }
}

/// Read access to the fields every claim variant must offer.
pub trait ClaimsMethods {
    /// The subject field.
    spec fn spec_sub(&self) -> Seq<char>;

    /// The expiry field.
    spec fn spec_exp(&self) -> u64;

    /// The issuance-time field.
    spec fn spec_iat(&self) -> u64;

    /// The token-id field.
    spec fn spec_jti(&self) -> Seq<char>;

    fn get_sub(&self) -> (r: &str)
        ensures
            r@ == self.spec_sub(),
    ;

    fn get_exp(&self) -> (r: u64)
        ensures
            r == self.spec_exp(),
    ;

    fn get_iat(&self) -> (r: u64)
        ensures
            r == self.spec_iat(),
    ;

    fn get_jti(&self) -> (r: &str)
        ensures
            r@ == self.spec_jti(),
    ;
}

impl ClaimsMethods for AccessClaim {
    open spec fn spec_sub(&self) -> Seq<char> {
        self.sub@
    }

    open spec fn spec_exp(&self) -> u64 {
        self.exp
    }

    open spec fn spec_iat(&self) -> u64 {
        self.iat
    }

    open spec fn spec_jti(&self) -> Seq<char> {
        self.jti@
    }

    fn get_sub(&self) -> (r: &str) {
        self.sub.as_str()
    }

    fn get_exp(&self) -> (r: u64) {
        self.exp
    }

    fn get_iat(&self) -> (r: u64) {
        self.iat
    }

    fn get_jti(&self) -> (r: &str) {
        self.jti.as_str()
    }
}

/// What a token string carries under a given secret: the claim set whose
/// signature the secret verifies and whose payload holds the six expected
/// fields, or nothing. Signing and parsing depend on the token and the
/// secret alone.
pub uninterp spec fn claims_of(token: Seq<char>, secret: Seq<char>) -> Option<ClaimSpec>;

/// Relies on jsonwebtoken::encode with the default header (HMAC-SHA256):
/// signing is deterministic in the claims and the secret, and a token it
/// returns verifies and parses back, under the same secret, to exactly the
/// claims that were signed. Signing cannot fail here: the key family
/// matches the default header's, serializing a string-keyed JSON map cannot
/// fail, and the HMAC itself is infallible.
#[verifier::external_body]
pub(crate) fn encode_claims(claim: &AccessClaim, secret: &str) -> (r: Option<String>)
    ensures
        r is Some,
        r matches Some(token) ==> claims_of(token@, secret@) == Some(claim@),
{
    let mut payload = serde_json::Map::new();
    payload.insert("sub".to_owned(), serde_json::Value::from(claim.sub.as_str()));
    payload.insert("jti".to_owned(), serde_json::Value::from(claim.jti.as_str()));
    payload.insert("iat".to_owned(), serde_json::Value::from(claim.iat));
    payload.insert("exp".to_owned(), serde_json::Value::from(claim.exp));
    payload.insert("typ".to_owned(), serde_json::Value::from(claim.typ));
    payload.insert("roles".to_owned(), serde_json::Value::from(claim.roles.as_str()));
    let key = jsonwebtoken::EncodingKey::from_secret(secret.as_bytes());
    jsonwebtoken::encode(
        &jsonwebtoken::Header::default(),
        &serde_json::Value::Object(payload),
        &key,
    ).ok()
}

/// Relies on jsonwebtoken::decode with signature validation alone (the expiry
/// check is the caller's): the outcome depends on the token and the secret
/// alone, and is exactly the claim set the token carries when its signature
/// verifies, its payload holds the six expected fields, and it passes the
/// remaining deterministic checks (a token carrying an audience claim is
/// rejected, as no audience is configured).
#[verifier::external_body]
fn verify_and_parse(token: &str, secret: &str) -> (r: Option<AccessClaim>)
    ensures
        r matches Some(claim) ==> claims_of(token@, secret@) == Some(claim@),
        r is None ==> claims_of(token@, secret@) is None,
{
    let mut validation = jsonwebtoken::Validation::default();
    validation.validate_exp = false;
    validation.required_spec_claims.clear();
    let key = jsonwebtoken::DecodingKey::from_secret(secret.as_bytes());
    let data = jsonwebtoken::decode::<serde_json::Value>(token, &key, &validation).ok()?;
    let c = data.claims;
    Some(AccessClaim {
        sub: c.get("sub")?.as_str()?.to_owned(),
        jti: c.get("jti")?.as_str()?.to_owned(),
        iat: c.get("iat")?.as_u64()?,
        exp: c.get("exp")?.as_u64()?,
        typ: u8::try_from(c.get("typ")?.as_u64()?).ok()?,
        roles: c.get("roles")?.as_str()?.to_owned(),
    })
}

/// The expiry a token issued at `iat` under a lifetime of `ttl` seconds
/// carries: their sum, held inside the representable range.
pub open spec fn exp_of(iat: u64, ttl: i64) -> u64 {
    if iat + ttl < 0 {
        0
    } else if iat + ttl > u64::MAX {
        u64::MAX
    } else {
        (iat + ttl) as u64
    }
}

/// The expiry, as an executable value.
pub fn exp_at(iat: u64, ttl: i64) -> (r: u64)
    ensures
        r == exp_of(iat, ttl),
{
    if ttl >= 0 {
        let t: u64 = ttl as u64;
        if iat <= u64::MAX - t {
            iat + t
        } else {
            u64::MAX
        }
    } else {
        let neg: u64 = ((-(ttl + 1)) as u64) + 1;
        if iat >= neg {
            iat - neg
        } else {
            0
        }
    }
}

/// The clock-skew tolerance a configured leeway grants: negative
/// configuration values grant none.
pub open spec fn leeway_of(leeway_seconds: i64) -> u64 {
    if leeway_seconds >= 0 {
        leeway_seconds as u64
    } else {
        0
    }
}

/// That `token`, under `secret`, carries a claim set issued for subject
/// `sub` with role string `roles` under lifetime `ttl`: an access-token tag,
/// an expiry that is the issuance time plus `ttl`, and a 36-character token
/// id.
pub open spec fn issued_for(
    token: Seq<char>,
    secret: Seq<char>,
    sub: Seq<char>,
    roles: Seq<char>,
    ttl: i64,
) -> bool {
    match claims_of(token, secret) {
        Some(c) => {
            &&& c.sub == sub
            &&& c.roles == roles
            &&& c.typ == 0
            &&& c.exp == exp_of(c.iat, ttl)
            &&& c.jti.len() == 36
        },
        None => false,
    }
}

/// What decoding a token at time `now` yields: its claim set when the
/// signature verifies and the expiry lies no more than `leeway` seconds
/// before `now`; otherwise the one opaque bearer-token failure.
pub open spec fn spec_decode(token: Seq<char>, secret: Seq<char>, leeway: u64, now: u64) -> Result<
    ClaimSpec,
    AuthError,
> {
    match claims_of(token, secret) {
        Some(c) => if now <= c.exp + leeway {
            Ok(c)
        } else {
            Err(AuthError::InvalidBearerToken)
        },
        None => Err(AuthError::InvalidBearerToken),
    }
}

/// The model of a decode result.
pub open spec fn claim_result_model(r: Result<AccessClaim, AuthError>) -> Result<
    ClaimSpec,
    AuthError,
> {
    match r {
        Ok(c) => Ok(c@),
        Err(e) => Err(e),
    }
}

/// Parses and verifies a presented token against the configured secret and
/// checks its expiry against the given time, allowing the configured leeway.
/// Every failure collapses to the one opaque `InvalidBearerToken`.
pub fn decode_token_at(token: &str, config: &Config, now: u64) -> (r: Result<
    AccessClaim,
    AuthError,
>)
    ensures
        claim_result_model(r) == spec_decode(
            token@,
            config.jwt_secret@,
            leeway_of(config.jwt_validation_leeway_seconds),
            now,
        ),
{
    let leeway: u64 = if config.jwt_validation_leeway_seconds >= 0 {
        config.jwt_validation_leeway_seconds as u64
    } else {
        0
    };
    match verify_and_parse(token, config.jwt_secret.as_str()) {
        Some(claim) => match claim.exp.checked_add(leeway) {
            Some(limit) => if now <= limit {
                Ok(claim)
            } else {
                Err(AuthError::InvalidBearerToken)
            },
            None => Ok(claim),
        },
        None => Err(AuthError::InvalidBearerToken),
    }
}

/// Parses and verifies a presented token against the configured secret, and
/// its expiry against the current time. Whatever the clock read: the result
/// is the decode outcome at some instant, so a returned claim set is exactly
/// what the token carries, and a token that does not verify is rejected as
/// `InvalidBearerToken`.
pub fn decode_token(token: &str, config: &Config) -> (r: Result<AccessClaim, AuthError>)
    ensures
        r matches Ok(claim) ==> claims_of(token@, config.jwt_secret@) == Some(claim@),
        r matches Err(e) ==> e == AuthError::InvalidBearerToken,
        claims_of(token@, config.jwt_secret@) is None ==> r is Err,
        exists|now: u64|
            claim_result_model(r) == #[trigger] spec_decode(
                token@,
                config.jwt_secret@,
                leeway_of(config.jwt_validation_leeway_seconds),
                now,
            ),
{
    let now_signed = crate::clock::now_unix_seconds();
    let now: u64 = if now_signed >= 0 {
        now_signed as u64
    } else {
        0
    };
    let r = decode_token_at(token, config, now);
    proof {
        assert(claim_result_model(r) == spec_decode(
            token@,
            config.jwt_secret@,
            leeway_of(config.jwt_validation_leeway_seconds),
            now,
        ));
    }
    r
}

/// Under a non-negative lifetime a token's expiry never lies before its
/// issuance time, so a token decoded no later than its expiry — in
/// particular right after issuance — is within its lifetime.
pub proof fn lemma_exp_not_before_iat(iat: u64, ttl: i64)
    requires
        ttl >= 0,
    ensures
        exp_of(iat, ttl) >= iat,
{
}

/// A freshly issued token decodes back to its own subject: when `token`
/// carries claims issued for `sub` (as `create_token` guarantees of its
/// output) and the decode time lies within the token's lifetime plus leeway,
/// decoding yields claims whose subject is `sub` and whose role string is
/// `roles`.
pub proof fn lemma_issue_then_decode(
    token: Seq<char>,
    secret: Seq<char>,
    sub: Seq<char>,
    roles: Seq<char>,
    ttl: i64,
    leeway: u64,
    now: u64,
)
    requires
        issued_for(token, secret, sub, roles, ttl),
        now <= claims_of(token, secret).unwrap().exp + leeway,
    ensures
        spec_decode(token, secret, leeway, now) matches Ok(c) && c.sub == sub && c.roles == roles,
{
}

/// A token whose expiry lies more than `leeway` seconds in the past fails to
/// decode with `InvalidBearerToken`, however it was signed.
pub proof fn lemma_expired_token_rejected(
    token: Seq<char>,
    secret: Seq<char>,
    leeway: u64,
    now: u64,
)
    requires
        claims_of(token, secret) matches Some(c) && c.exp + leeway < now,
    ensures
        spec_decode(token, secret, leeway, now) == Err::<ClaimSpec, AuthError>(
            AuthError::InvalidBearerToken,
        ),
{
}

} // verus!
