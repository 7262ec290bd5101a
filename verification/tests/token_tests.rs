use auth_core::auth::{create_token, decode_token_from_header, extract_bearer_token};
use auth_core::config::Config;
use auth_core::errors::AuthError;
use auth_core::jwt::{decode_token, decode_token_at, AccessClaim, ClaimsMethods, JwtTokenType};
use auth_core::user::User;

fn test_config(secret: &str, ttl: i64, leeway: i64) -> Config {
    Config {
        service_port: 8080,
        database_url: String::new(),
        jwt_secret: secret.to_owned(),
        jwt_exp_access_token_second: ttl,
        jwt_validation_leeway_seconds: leeway,
        jwt_enable_revoked_tokens: true,
        redis_host: String::new(),
        redis_port: 6379,
    }
}

fn test_user(id: &str) -> User {
    User {
        id: id.to_owned(),
        name: "Test User".to_owned(),
        username: "testuser".to_owned(),
        email: "test@example.com".to_owned(),
        password_hash: String::new(),
        active: true,
        roles: "user".to_owned(),
        created_at: Some(1_700_000_000),
        updated_at: Some(1_700_000_000),
    }
}

#[test]
fn issued_token_decodes_to_same_subject() {
    let config = test_config("a-signing-secret", 3600, 60);
    let user = test_user("3f2c8f04-6f43-4a8e-9a44-2f41fb688b92");
    let token = create_token(&user, &config).expect("issuance must succeed");
    let claim = decode_token(&token.access_token, &config).expect("fresh token must decode");
    assert_eq!(claim.sub, "3f2c8f04-6f43-4a8e-9a44-2f41fb688b92");
    assert_eq!(claim.roles, "user");
    assert_eq!(claim.typ, 0);
    assert_eq!(claim.exp, claim.iat + 3600);
    assert_eq!(claim.jti.len(), 36);
    // A sanity floor on the clock: issuance must lie after 2020.
    assert!(claim.iat > 1_577_836_800);
}

#[test]
fn token_has_three_base64url_segments() {
    let config = test_config("a-signing-secret", 3600, 60);
    let user = test_user("3f2c8f04-6f43-4a8e-9a44-2f41fb688b92");
    let token = create_token(&user, &config).expect("issuance must succeed");
    let segments: Vec<&str> = token.access_token.split('.').collect();
    assert_eq!(segments.len(), 3);
    for segment in segments {
        assert!(!segment.is_empty());
        assert!(segment
            .chars()
            .all(|c| c.is_ascii_alphanumeric() || c == '-' || c == '_'));
    }
}

#[test]
fn two_issuances_differ_in_token_id() {
    let config = test_config("a-signing-secret", 3600, 60);
    let user = test_user("5b2e5a2e-0000-4a8e-9a44-2f41fb688b92");
    let first = create_token(&user, &config).expect("issuance must succeed");
    let second = create_token(&user, &config).expect("issuance must succeed");
    assert_ne!(first.access_token, second.access_token);
    let c1 = decode_token(&first.access_token, &config).unwrap();
    let c2 = decode_token(&second.access_token, &config).unwrap();
    assert_ne!(c1.jti, c2.jti);
}

#[test]
fn expired_token_is_rejected() {
    // A negative lifetime mints a token that is already expired by more
    // than the configured leeway.
    let config = test_config("a-signing-secret", -3600, 60);
    let user = test_user("3f2c8f04-6f43-4a8e-9a44-2f41fb688b92");
    let token = create_token(&user, &config).expect("issuance must succeed");
    let r = decode_token(&token.access_token, &config);
    assert!(matches!(r, Err(AuthError::InvalidBearerToken)));
}

#[test]
fn expiry_leeway_is_honoured() {
    let config = test_config("a-signing-secret", 3600, 60);
    let user = test_user("3f2c8f04-6f43-4a8e-9a44-2f41fb688b92");
    let token = create_token(&user, &config).expect("issuance must succeed");
    let claim = decode_token(&token.access_token, &config).unwrap();
    // Just inside the leeway after expiry: still accepted.
    let within = decode_token_at(&token.access_token, &config, claim.exp + 60);
    assert!(within.is_ok());
    // Just past the leeway: rejected.
    let past = decode_token_at(&token.access_token, &config, claim.exp + 61);
    assert!(matches!(past, Err(AuthError::InvalidBearerToken)));
}

#[test]
fn token_under_other_secret_is_rejected() {
    let config = test_config("the-right-secret", 3600, 60);
    let other = test_config("a-different-secret", 3600, 60);
    let user = test_user("3f2c8f04-6f43-4a8e-9a44-2f41fb688b92");
    let token = create_token(&user, &config).expect("issuance must succeed");
    let r = decode_token(&token.access_token, &other);
    assert!(matches!(r, Err(AuthError::InvalidBearerToken)));
}

#[test]
fn tampered_token_is_rejected() {
    let config = test_config("a-signing-secret", 3600, 60);
    let user = test_user("3f2c8f04-6f43-4a8e-9a44-2f41fb688b92");
    let token = create_token(&user, &config).expect("issuance must succeed");
    let mut tampered = token.access_token.clone();
    tampered.pop();
    let r = decode_token(&tampered, &config);
    assert!(matches!(r, Err(AuthError::InvalidBearerToken)));
}

#[test]
fn foreign_token_with_expected_fields_decodes() {
    // A token signed by another party with the shared secret and the six
    // expected claims is accepted.
    let mut payload = serde_json::Map::new();
    payload.insert("sub".to_owned(), serde_json::Value::from("some-user"));
    payload.insert("jti".to_owned(), serde_json::Value::from("some-token-id"));
    payload.insert("iat".to_owned(), serde_json::Value::from(1_700_000_000u64));
    payload.insert("exp".to_owned(), serde_json::Value::from(4_100_000_000u64));
    payload.insert("typ".to_owned(), serde_json::Value::from(0u8));
    payload.insert("roles".to_owned(), serde_json::Value::from("admin"));
    let token = jsonwebtoken::encode(
        &jsonwebtoken::Header::default(),
        &serde_json::Value::Object(payload),
        &jsonwebtoken::EncodingKey::from_secret(b"shared-secret"),
    )
    .unwrap();
    let config = test_config("shared-secret", 3600, 60);
    let claim = decode_token(&token, &config).expect("well-formed foreign token must decode");
    assert_eq!(claim.sub, "some-user");
    assert_eq!(claim.roles, "admin");
    assert_eq!(claim.iat, 1_700_000_000);
}

#[test]
fn foreign_token_missing_claims_is_rejected() {
    let mut payload = serde_json::Map::new();
    payload.insert("sub".to_owned(), serde_json::Value::from("some-user"));
    let token = jsonwebtoken::encode(
        &jsonwebtoken::Header::default(),
        &serde_json::Value::Object(payload),
        &jsonwebtoken::EncodingKey::from_secret(b"shared-secret"),
    )
    .unwrap();
    let config = test_config("shared-secret", 3600, 60);
    let r = decode_token(&token, &config);
    assert!(matches!(r, Err(AuthError::InvalidBearerToken)));
}

#[test]
fn claims_methods_read_the_fields() {
    let claim = AccessClaim {
        sub: "the-subject".to_owned(),
        jti: "the-token-id".to_owned(),
        iat: 100,
        exp: 200,
        typ: 0,
        roles: "user".to_owned(),
    };
    assert_eq!(claim.get_sub(), "the-subject");
    assert_eq!(claim.get_jti(), "the-token-id");
    assert_eq!(claim.get_iat(), 100);
    assert_eq!(claim.get_exp(), 200);
}

#[test]
fn token_type_tags() {
    assert_eq!(JwtTokenType::from(0u8), JwtTokenType::AccessToken);
    assert_eq!(JwtTokenType::from(1u8), JwtTokenType::RefreshToken);
    assert_eq!(JwtTokenType::from(7u8), JwtTokenType::UnknownToken);
}

#[test]
fn bearer_token_is_extracted() {
    let r = extract_bearer_token(Some("Bearer abc.def.ghi"));
    assert_eq!(r.unwrap(), "abc.def.ghi");
}

#[test]
fn missing_header_is_rejected() {
    let r = extract_bearer_token(None);
    assert!(matches!(r, Err(AuthError::InvalidAuthorizationHeader)));
}

#[test]
fn wrong_scheme_is_rejected() {
    let r = extract_bearer_token(Some("Basic dXNlcjpwdw=="));
    assert!(matches!(r, Err(AuthError::InvalidAuthorizationHeader)));
}

#[test]
fn empty_bearer_token_is_rejected() {
    let r = extract_bearer_token(Some("Bearer "));
    assert!(matches!(r, Err(AuthError::InvalidAuthorizationHeader)));
}

#[test]
fn header_round_trip_authenticates() {
    let config = test_config("a-signing-secret", 3600, 60);
    let user = test_user("3f2c8f04-6f43-4a8e-9a44-2f41fb688b92");
    let token = create_token(&user, &config).expect("issuance must succeed");
    let header = format!("Bearer {}", token.access_token);
    let claim = decode_token_from_header(Some(&header), &config).expect("must authenticate");
    assert_eq!(claim.sub, "3f2c8f04-6f43-4a8e-9a44-2f41fb688b92");
}
