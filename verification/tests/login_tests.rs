use auth_core::auth::{extract_bearer_token, login, validate_revoked};
use auth_core::config::Config;
use auth_core::errors::{ApiError, AuthError};
use auth_core::jwt::decode_token;
use auth_core::password::hash;
use auth_core::user::User;

fn test_config() -> Config {
    Config {
        service_port: 8080,
        database_url: String::new(),
        jwt_secret: "login-test-secret".to_owned(),
        jwt_exp_access_token_second: 3600,
        jwt_validation_leeway_seconds: 60,
        jwt_enable_revoked_tokens: true,
        redis_host: String::new(),
        redis_port: 6379,
    }
}

fn stored_user(password: &str, active: bool) -> User {
    User {
        id: "11111111-2222-4333-8444-555555555555".to_owned(),
        name: "U One".to_owned(),
        username: "u1".to_owned(),
        email: "u1@example.com".to_owned(),
        password_hash: hash(password).expect("hashing must succeed"),
        active,
        roles: "user".to_owned(),
        created_at: Some(1_700_000_000),
        updated_at: Some(1_700_000_000),
    }
}

#[test]
fn login_with_correct_credentials_returns_token_for_user() {
    let config = test_config();
    let user = stored_user("correct-pass", true);
    let token = login(Some(user), "correct-pass", &config).expect("login must succeed");
    let claim = decode_token(&token.access_token, &config).expect("token must decode");
    assert_eq!(claim.sub, "11111111-2222-4333-8444-555555555555");
    assert_eq!(claim.roles, "user");
}

#[test]
fn login_with_wrong_password_is_unauthorized() {
    let config = test_config();
    let user = stored_user("correct-pass", true);
    let r = login(Some(user), "wrong-pass", &config);
    let err = match r {
        Err(e) => e,
        Ok(_) => panic!("login must fail"),
    };
    assert!(matches!(err, AuthError::WrongCredentials));
    let api = ApiError::from_auth(&err, false);
    assert_eq!(api.status, 401);
    assert_eq!(
        api.errors[0].code.as_deref(),
        Some("authentication_wrong_credentials")
    );
    assert_eq!(api.errors[0].kind.as_deref(), Some("authentication_error"));
    assert_eq!(api.errors[0].message, "invalid credential combination");
}

#[test]
fn login_with_unknown_identifier_is_unauthorized() {
    let config = test_config();
    let r = login(None, "whatever", &config);
    assert!(matches!(r, Err(AuthError::WrongCredentials)));
}

#[test]
fn login_of_inactive_user_is_unauthorized() {
    let config = test_config();
    let user = stored_user("correct-pass", false);
    let r = login(Some(user), "correct-pass", &config);
    assert!(matches!(r, Err(AuthError::WrongCredentials)));
}

#[test]
fn login_with_empty_password_is_unauthorized() {
    let config = test_config();
    let user = stored_user("correct-pass", true);
    let r = login(Some(user), "", &config);
    assert!(matches!(r, Err(AuthError::WrongCredentials)));
}

#[test]
fn revoked_token_id_yields_wrong_credentials_response() {
    let config = test_config();
    let user = stored_user("correct-pass", true);
    let token = login(Some(user), "correct-pass", &config).expect("login must succeed");
    let claim = decode_token(&token.access_token, &config).expect("token must decode");
    // The token's id is in the revoked-token set.
    let r = validate_revoked(&claim, Ok(None), Ok(None), Ok(true));
    let err = match r {
        Err(e) => e,
        Ok(_) => panic!("revoked token must be rejected"),
    };
    let api = ApiError::from_auth(&err, false);
    assert_eq!(api.status, 401);
    assert_eq!(
        api.errors[0].code.as_deref(),
        Some("authentication_wrong_credentials")
    );
    // No field of the response names revocation.
    assert_eq!(api.errors[0].message, "invalid credential combination");
    assert!(api.errors[0].description.is_none());
    assert!(api.errors[0].reason.is_none());
}

#[test]
fn malformed_authorization_header_yields_missing_credentials_response() {
    let r = extract_bearer_token(Some("Token abc"));
    let err = match r {
        Err(e) => e,
        Ok(_) => panic!("wrong scheme must be rejected"),
    };
    assert!(matches!(err, AuthError::InvalidAuthorizationHeader));
    let api = ApiError::from_auth(&err, false);
    assert_eq!(api.status, 400);
    assert_eq!(
        api.errors[0].code.as_deref(),
        Some("authentication_missing_credentials")
    );
    assert_eq!(api.errors[0].message, "invalid authorization header");
}
