use auth_core::errors::AuthError;
use auth_core::password::{compare, hash};

#[test]
fn verify_own_hash_succeeds() {
    let hashed = hash("correct horse battery").expect("hashing must succeed");
    let matched = compare("correct horse battery", &hashed).expect("comparison must succeed");
    assert!(matched);
}

#[test]
fn verify_other_password_fails() {
    let hashed = hash("password-one").expect("hashing must succeed");
    let matched = compare("password-two", &hashed).expect("comparison must succeed");
    assert!(!matched);
}

#[test]
fn hash_is_salted_per_call() {
    let first = hash("same password").expect("hashing must succeed");
    let second = hash("same password").expect("hashing must succeed");
    // The 22-character salt segment follows the 31-character parameter
    // prefix; an independent draw per call keeps the strings distinct.
    assert_ne!(&first[31..53], &second[31..53]);
    assert_ne!(first, second);
    assert!(compare("same password", &first).unwrap());
    assert!(compare("same password", &second).unwrap());
}

#[test]
fn hash_of_empty_password_is_rejected() {
    let r = hash("");
    assert!(matches!(r, Err(AuthError::EmptyPassword)));
}

#[test]
fn verify_with_empty_password_is_rejected() {
    let hashed = hash("nonempty").expect("hashing must succeed");
    let r = compare("", &hashed);
    assert!(matches!(r, Err(AuthError::EmptyPassword)));
}

#[test]
fn verify_against_malformed_hash_is_rejected() {
    let r = compare("nonempty", "not-a-hash");
    assert!(matches!(r, Err(AuthError::InvalidHashFormat)));
}

#[test]
fn hash_output_is_phc_formatted() {
    let hashed = hash("some password").expect("hashing must succeed");
    assert!(hashed.starts_with("$argon2id$v=19$m=15360,t=2,p=1$"));
}
