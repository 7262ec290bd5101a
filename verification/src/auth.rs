//! The authentication flow: minting a session token for a user whose
//! credentials held, and gating authenticated requests on header shape,
//! token validity and revocation.

use vstd::prelude::*;
use crate::clock::now_unix_seconds;
use crate::config::Config;
use crate::errors::AuthError;
use crate::ids::fresh_token_id;
use crate::jwt::{claims_of, decode_token, encode_claims, exp_at, exp_of, issued_for};
use crate::jwt::{AccessClaim, ClaimSpec, ClaimsMethods};
use crate::password::{compare, spec_compare};
use crate::revocation::{is_revoked, spec_is_revoked};
use crate::user::User;

verus! {

/// The signed token handed to a client after a successful login.
#[derive(Debug)]
pub struct JwtToken {
    pub access_token: String,
}

/// Signs the claim set issued for `user` at time `iat` under token id
/// `jti`: the claim-building step, with the drawn clock and id values taken
/// as arguments, so the minted token is pinned to them exactly.
pub fn issue_at(user: &User, config: &Config, iat: u64, jti: String) -> (r: Result<
    JwtToken,
    AuthError,
>)
    ensures
        r matches Ok(t) && claims_of(t.access_token@, config.jwt_secret@) == Some(
            (ClaimSpec {
                sub: user.id@,
                jti: jti@,
                iat,
                exp: exp_of(iat, config.jwt_exp_access_token_second),
                typ: 0,
                roles: user.roles@,
            }),
        ),
{
    let exp = exp_at(iat, config.jwt_exp_access_token_second);
    let claim = AccessClaim {
        sub: user.id.clone(),
        jti,
        iat,
        exp,
        typ: 0,
        roles: user.roles.clone(),
    };
    match encode_claims(&claim, config.jwt_secret.as_str()) {
        Some(token) => Ok(JwtToken { access_token: token }),
        None => Err(AuthError::TokenCreationError),
    }
}

/// Mints a signed access token for `user`: a fresh random token id, the
/// current time as issuance time, an expiry one configured lifetime later,
/// and the user's id and role string as claims. Signing an access claim
/// cannot fail, so a token is always handed out, and whatever the clock and
/// the id draw returned it carries exactly those claims under the
/// configured secret.
pub fn create_token(user: &User, config: &Config) -> (r: Result<JwtToken, AuthError>)
    ensures
        r is Ok,
        r matches Ok(t) ==> issued_for(
            t.access_token@,
            config.jwt_secret@,
            user.id@,
            user.roles@,
            config.jwt_exp_access_token_second,
        ),
{
    let now_signed = now_unix_seconds();
    let iat: u64 = if now_signed >= 0 {
        now_signed as u64
    } else {
        0
    };
    let jti = fresh_token_id();
    issue_at(user, config, iat, jti)
}

/// Whether a login attempt must be accepted: a user was found, is active,
/// and the presented password verifies against the stored hash.
pub open spec fn login_accepts(data: Option<User>, password: Seq<char>) -> bool {
    data matches Some(u) && u.active && spec_compare(password, u.password_hash@) == Ok::<
        bool,
        AuthError,
    >(true)
}

/// Decides a login attempt against the user row the store answered (or did
/// not answer). Every way the credentials can fail — unknown identifier,
/// inactive account, empty or wrong password, unreadable stored hash —
/// collapses to the one `WrongCredentials` failure, so a caller cannot tell
/// them apart; on acceptance a token for the user is always minted.
pub fn login(data: Option<User>, password: &str, config: &Config) -> (r: Result<
    JwtToken,
    AuthError,
>)
    ensures
        !login_accepts(data, password@) ==> r == Err::<JwtToken, AuthError>(
            AuthError::WrongCredentials,
        ),
        login_accepts(data, password@) ==> (r matches Ok(t) && issued_for(
            t.access_token@,
            config.jwt_secret@,
            data.unwrap().id@,
            data.unwrap().roles@,
            config.jwt_exp_access_token_second,
        )),
{
    let user = match data {
        Some(u) => u,
        None => {
            return Err(AuthError::WrongCredentials);
        },
    };
    if !user.active {
        return Err(AuthError::WrongCredentials);
    }
    let matched = match compare(password, user.password_hash.as_str()) {
        Ok(b) => b,
        Err(_) => {
            return Err(AuthError::WrongCredentials);
        },
    };
    if !matched {
        return Err(AuthError::WrongCredentials);
    }
    create_token(&user, config)
}

/// What gating a claim set on the revocation reads yields: a revoked claim
/// is reported as `WrongCredentials` — indistinguishable from a bad-password
/// failure — and a failed read propagates as the infrastructure failure it
/// is.
pub open spec fn spec_validate_revoked(
    iat: u64,
    global_read: Result<Option<String>, String>,
    user_read: Result<Option<String>, String>,
    token_read: Result<bool, String>,
) -> Result<(), AuthError> {
    match spec_is_revoked(iat, global_read, user_read, token_read) {
        Ok(true) => Err(AuthError::WrongCredentials),
        Ok(false) => Ok(()),
        Err(e) => Err(e),
    }
}

/// Gates an authenticated request on the revocation state: the claim set
/// passes only if none of the three cache entries revokes it and every read
/// succeeded.
pub fn validate_revoked<T: ClaimsMethods>(
    claims: &T,
    global_read: Result<Option<String>, String>,
    user_read: Result<Option<String>, String>,
    token_read: Result<bool, String>,
) -> (r: Result<(), AuthError>)
    ensures
        r == spec_validate_revoked(claims.spec_iat(), global_read, user_read, token_read),
{
    match is_revoked(claims, global_read, user_read, token_read) {
        Ok(true) => Err(AuthError::WrongCredentials),
        Ok(false) => Ok(()),
        Err(e) => Err(e),
    }
}

/// The token a well-formed `Authorization` header value presents: the rest
/// after a literal `Bearer ` scheme prefix, which must be non-empty.
pub open spec fn spec_bearer_token(h: Seq<char>) -> Option<Seq<char>> {
    if h.len() > 7 && h.subrange(0, 7) == "Bearer "@ {
        Some(h.subrange(7, h.len() as int))
    } else {
        None
    }
}

/// Extracts the bearer token from an `Authorization` header value. A missing
/// header, a scheme other than `Bearer`, and an empty token are all rejected
/// as `InvalidAuthorizationHeader`.
pub fn extract_bearer_token(header: Option<&str>) -> (r: Result<String, AuthError>)
    ensures
        match header {
            Some(h) => match spec_bearer_token(h@) {
                Some(t) => r matches Ok(s) && s@ == t,
                None => r == Err::<String, AuthError>(AuthError::InvalidAuthorizationHeader),
            },
            None => r == Err::<String, AuthError>(AuthError::InvalidAuthorizationHeader),
        },
{
    proof {
        reveal_strlit("Bearer ");
    }
    let h = match header {
        Some(h) => h,
        None => {
            return Err(AuthError::InvalidAuthorizationHeader);
        },
    };
    let n = h.unicode_len();
    if n <= 7 {
        return Err(AuthError::InvalidAuthorizationHeader);
    }
    let mut i: usize = 0;
    while i < 7
        invariant
            header == Some(h),
            i <= 7,
            n == h@.len(),
            n > 7,
            "Bearer "@.len() == 7,
            forall|j: int| 0 <= j < i ==> h@[j] == "Bearer "@[j],
        decreases 7 - i,
    {
        let c = h.get_char(i);
        let expected = "Bearer ".get_char(i);
        if c != expected {
            proof {
                assert(h@[i as int] != "Bearer "@[i as int]);
                assert(h@.subrange(0, 7)[i as int] == h@[i as int]);
                assert(h@.subrange(0, 7) != "Bearer "@);
                assert(spec_bearer_token(h@) is None);
            }
            return Err(AuthError::InvalidAuthorizationHeader);
        }
        i = i + 1;
    }
    proof {
        assert(h@.subrange(0, 7) =~= "Bearer "@);
    }
    let token = h.substring_char(7, n);
    Ok(token.to_owned())
}

/// Recovers the claim set an authenticated request presented: the header
/// must carry a `Bearer` token, and the token must verify under the
/// configured secret and be unexpired. Header-shape failures and token
/// failures are reported distinctly, but nothing finer is disclosed.
pub fn decode_token_from_header(header: Option<&str>, config: &Config) -> (r: Result<
    AccessClaim,
    AuthError,
>)
    ensures
        header is None ==> r == Err::<AccessClaim, AuthError>(
            AuthError::InvalidAuthorizationHeader,
        ),
        header matches Some(h) && spec_bearer_token(h@) is None ==> r == Err::<
            AccessClaim,
            AuthError,
        >(AuthError::InvalidAuthorizationHeader),
        r matches Ok(claim) ==> header matches Some(h) && spec_bearer_token(h@) matches Some(t)
            && claims_of(t, config.jwt_secret@) == Some(claim@),
        r matches Err(e) ==> e == AuthError::InvalidAuthorizationHeader || e
            == AuthError::InvalidBearerToken,
{
    match extract_bearer_token(header) {
        Ok(token) => decode_token(token.as_str(), config),
        Err(e) => Err(e),
    }
}

} // verus!
