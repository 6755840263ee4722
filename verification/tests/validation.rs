use serve::domain::errors::ErrorCode;
use serve::domain::validation::{
    validate_comment_content, validate_dm_content, validate_email, validate_password,
    validate_post_content, validate_username,
};

#[test]
fn username_accepts_letters_digits_and_underscores() {
    assert!(validate_username("ferro_dev").is_ok());
    assert!(validate_username("abc").is_ok());
    assert!(validate_username(&"a".repeat(50)).is_ok());
    assert!(validate_username("  bob_42  ").is_ok());
}

#[test]
fn username_length_is_checked_after_trimming() {
    let e = validate_username("ab").unwrap_err();
    assert_eq!(e.code, ErrorCode::AuthInvalidUsername);
    assert_eq!(e.message, "AUTH_INVALID_USERNAME");
    assert!(validate_username("  ab  ").is_err());
    assert!(validate_username(&"a".repeat(51)).is_err());
    assert!(validate_username("").is_err());
}

#[test]
fn username_rejects_other_characters() {
    assert!(validate_username("bob-smith").is_err());
    assert!(validate_username("bob smith").is_err());
    assert!(validate_username("bób").is_err());
    assert!(validate_username("bob.smith").is_err());
}

#[test]
fn username_rejects_reserved_names_in_any_case() {
    for name in ["admin", "Admin", "ROOT", "graphql", "GraphiQL", "Ferro", "support", "null"] {
        let e = validate_username(name).unwrap_err();
        assert_eq!(e.code, ErrorCode::AuthInvalidUsername, "{name}");
    }
    assert!(validate_username("administrator").is_err());
    assert!(validate_username("admins").is_ok());
}

#[test]
fn email_accepts_simple_addresses() {
    assert!(validate_email("user@example.com").is_ok());
    assert!(validate_email("  a@b.co  ").is_ok());
}

#[test]
fn email_rejects_malformed_addresses() {
    for bad in [
        "a@b.",
        "abcd",
        "userexample.com",
        "@example.com",
        "user@@example.com",
        "user@example",
        "user@.example.com",
        "user@example.com.",
        "a@b@c.com",
    ] {
        let e = validate_email(bad).unwrap_err();
        assert_eq!(e.code, ErrorCode::AuthInvalidEmail, "{bad}");
        assert_eq!(e.message, "AUTH_INVALID_EMAIL");
    }
    let long = format!("{}@example.com", "a".repeat(250));
    assert!(validate_email(&long).is_err());
}

#[test]
fn password_length_bounds() {
    assert!(validate_password("12345678").is_ok());
    assert!(validate_password(&"x".repeat(128)).is_ok());
    let e = validate_password("1234567").unwrap_err();
    assert_eq!(e.code, ErrorCode::AuthPasswordTooShort);
    assert_eq!(e.message, "AUTH_PASSWORD_TOO_SHORT");
    let e = validate_password(&"x".repeat(129)).unwrap_err();
    assert_eq!(e.code, ErrorCode::AuthPasswordTooShort);
}

#[test]
fn password_length_counts_bytes() {
    // four two-byte characters are eight bytes
    assert!(validate_password("éééé").is_ok());
    assert!(validate_password("ééé").is_err());
}

#[test]
fn post_content_is_trimmed_and_bounded() {
    assert_eq!(validate_post_content("  hello world \n").unwrap(), "hello world");
    assert!(validate_post_content(&"a".repeat(2000)).is_ok());
    assert!(validate_post_content(&"é".repeat(2000)).is_ok());
    let e = validate_post_content(&"a".repeat(2001)).unwrap_err();
    assert_eq!(e.code, ErrorCode::PostContentInvalid);
    assert_eq!(e.message, "POST_CONTENT_INVALID");
    assert!(validate_post_content("   \t\n ").is_err());
    assert!(validate_post_content("").is_err());
}

#[test]
fn post_content_trims_unicode_white_space() {
    assert_eq!(validate_post_content("\u{3000}hi\u{2003}").unwrap(), "hi");
    assert!(validate_post_content("\u{a0}\u{2028}").is_err());
}

#[test]
fn comment_content_is_bounded_by_500_characters() {
    assert_eq!(validate_comment_content(" nice ").unwrap(), "nice");
    assert!(validate_comment_content(&"b".repeat(500)).is_ok());
    let e = validate_comment_content(&"b".repeat(501)).unwrap_err();
    assert_eq!(e.code, ErrorCode::CommentContentInvalid);
    assert_eq!(e.message, "COMMENT_CONTENT_INVALID");
    assert!(validate_comment_content(" ").is_err());
}

#[test]
fn dm_content_is_bounded_by_2000_characters() {
    assert_eq!(validate_dm_content("\they\n").unwrap(), "hey");
    assert!(validate_dm_content(&"c".repeat(2000)).is_ok());
    let e = validate_dm_content(&"c".repeat(2001)).unwrap_err();
    assert_eq!(e.code, ErrorCode::DmContentInvalid);
    assert_eq!(e.message, "DM_CONTENT_INVALID");
    assert!(validate_dm_content("").is_err());
}

#[test]
fn validated_content_validates_to_itself() {
    for s in ["  hello  ", "\u{3000}x y\t", "word"] {
        let once = validate_post_content(s).unwrap();
        assert_eq!(validate_post_content(&once).unwrap(), once);
        let once = validate_comment_content(s).unwrap();
        assert_eq!(validate_comment_content(&once).unwrap(), once);
        let once = validate_dm_content(s).unwrap();
        assert_eq!(validate_dm_content(&once).unwrap(), once);
    }
}
