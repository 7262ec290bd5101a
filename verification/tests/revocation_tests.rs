use auth_core::auth::validate_revoked;
use auth_core::errors::AuthError;
use auth_core::jwt::AccessClaim;
use auth_core::revocation::{is_global_revoked, is_revoked, is_user_revoked, parse_epoch};

fn claim_issued_at(iat: u64) -> AccessClaim {
    AccessClaim {
        sub: "user-a".to_owned(),
        jti: "token-1".to_owned(),
        iat,
        exp: iat + 3600,
        typ: 0,
        roles: "user".to_owned(),
    }
}

#[test]
fn parse_epoch_reads_digits() {
    assert_eq!(parse_epoch("95"), Some(95));
    assert_eq!(parse_epoch("0"), Some(0));
    assert_eq!(parse_epoch("1700000000"), Some(1_700_000_000));
    assert_eq!(parse_epoch("18446744073709551615"), Some(u64::MAX));
}

#[test]
fn parse_epoch_rejects_junk() {
    assert_eq!(parse_epoch(""), None);
    assert_eq!(parse_epoch("12a"), None);
    assert_eq!(parse_epoch("-5"), None);
    assert_eq!(parse_epoch(" 5"), None);
    assert_eq!(parse_epoch("18446744073709551616"), None);
}

#[test]
fn fresh_state_revokes_nothing() {
    let claim = claim_issued_at(1000);
    let r = is_revoked(&claim, Ok(None), Ok(None), Ok(false));
    assert_eq!(r.unwrap(), false);
}

#[test]
fn global_bound_at_or_after_issuance_revokes() {
    let claim = claim_issued_at(1000);
    // Bound equal to the issuance time: revoked.
    let r = is_revoked(&claim, Ok(Some("1000".to_owned())), Ok(None), Ok(false));
    assert_eq!(r.unwrap(), true);
    // Bound after the issuance time, with every other entry clear of this
    // claim: still revoked.
    let r = is_revoked(
        &claim,
        Ok(Some("2000".to_owned())),
        Ok(Some("1".to_owned())),
        Ok(false),
    );
    assert_eq!(r.unwrap(), true);
    // Bound strictly before the issuance time: not revoked by it.
    let r = is_revoked(&claim, Ok(Some("999".to_owned())), Ok(None), Ok(false));
    assert_eq!(r.unwrap(), false);
}

#[test]
fn user_bound_revokes_only_its_user() {
    // The claim's owner was revoked at or after issuance: revoked.
    let claim = claim_issued_at(1000);
    let r = is_revoked(&claim, Ok(None), Ok(Some("1500".to_owned())), Ok(false));
    assert_eq!(r.unwrap(), true);
    // Another user's revocation shows up as no entry for this claim's
    // owner, so an identical claim of user B stays valid.
    let r = is_revoked(&claim, Ok(None), Ok(None), Ok(false));
    assert_eq!(r.unwrap(), false);
}

#[test]
fn token_id_membership_revokes() {
    let claim = claim_issued_at(1000);
    let r = is_revoked(&claim, Ok(None), Ok(None), Ok(true));
    assert_eq!(r.unwrap(), true);
}

#[test]
fn failed_read_is_never_not_revoked() {
    let claim = claim_issued_at(1000);
    let r = is_revoked(&claim, Err("connection reset".to_owned()), Ok(None), Ok(false));
    assert!(matches!(r, Err(AuthError::RedisError(m)) if m == "connection reset"));
    let r = is_revoked(&claim, Ok(None), Ok(None), Err("timed out".to_owned()));
    assert!(matches!(r, Err(AuthError::RedisError(m)) if m == "timed out"));
}

#[test]
fn malformed_entry_is_an_infrastructure_failure() {
    let claim = claim_issued_at(1000);
    let r = is_revoked(&claim, Ok(Some("not-a-number".to_owned())), Ok(None), Ok(false));
    assert!(matches!(r, Err(AuthError::RedisError(m)) if m == "not-a-number"));
}

#[test]
fn single_checks_match_the_combined_decision() {
    let claim = claim_issued_at(1000);
    assert_eq!(
        is_global_revoked(&claim, &Some("1700".to_owned())).unwrap(),
        true
    );
    assert_eq!(is_global_revoked(&claim, &None).unwrap(), false);
    assert_eq!(
        is_user_revoked(&claim, &Some("999".to_owned())).unwrap(),
        false
    );
}

#[test]
fn revoked_claim_is_reported_as_wrong_credentials() {
    let claim = claim_issued_at(1000);
    let r = validate_revoked(&claim, Ok(None), Ok(None), Ok(true));
    assert!(matches!(r, Err(AuthError::WrongCredentials)));
    let r = validate_revoked(&claim, Ok(None), Ok(None), Ok(false));
    assert!(r.is_ok());
}
