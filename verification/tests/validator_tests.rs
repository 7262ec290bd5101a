use auth_core::validator::{validate_email, validate_identifier, validate_password};

#[test]
fn well_formed_emails_are_accepted() {
    assert!(validate_email("a@b.c"));
    assert!(validate_email("user.name+tag@example.com"));
    assert!(validate_email("User_99@sub-domain.example.co.uk"));
    assert!(validate_email("a-b@x9.z"));
}

#[test]
fn malformed_emails_are_rejected() {
    assert!(!validate_email(""));
    assert!(!validate_email("plainaddress"));
    assert!(!validate_email("@example.com"));
    assert!(!validate_email("user@"));
    assert!(!validate_email("user@nodot"));
    assert!(!validate_email("user@.com"));
    assert!(!validate_email("user@domain."));
    assert!(!validate_email("us er@domain.com"));
    assert!(!validate_email("user@@domain.com"));
    assert!(!validate_email("user@dom_ain.com"));
    assert!(!validate_email("user@domain.com@x.y"));
}

#[test]
fn identifier_with_at_sign_must_be_an_email() {
    assert!(validate_identifier("user@example.com").is_ok());
    let e = validate_identifier("user@bad").expect_err("not an email");
    assert_eq!(e.code, "invalid_email_format");
    assert_eq!(e.message.as_deref(), Some("invalid email format"));
}

#[test]
fn username_must_have_three_characters() {
    assert!(validate_identifier("abc").is_ok());
    assert!(validate_identifier("a.much.longer.name").is_ok());
    let e = validate_identifier("ab").expect_err("too short");
    assert_eq!(e.code, "short_username");
    assert_eq!(
        e.message.as_deref(),
        Some("username must be at least 3 characters long")
    );
}

#[test]
fn password_length_bounds() {
    assert!(validate_password("abc").is_ok());
    assert!(validate_password("exactly-twenty-chars").is_ok());
    assert!(validate_password("ab").is_err());
    assert!(validate_password("this-password-is-far-too-long").is_err());
    let e = validate_password("x").expect_err("too short");
    assert_eq!(e.code, "length");
}
