use serve::application::totp_service::TotpService;
use serve::domain::errors::ErrorCode;

#[test]
fn generated_secret_is_base32_of_160_bits() {
    let (secret, uri) = TotpService::generate_secret("alice", "Ferro");
    assert_eq!(secret.len(), 32);
    assert!(secret.chars().all(|c| c.is_ascii_uppercase() || ('2'..='7').contains(&c)));
    assert!(uri.starts_with("otpauth://totp/Ferro:alice?"));
    assert!(uri.contains(&format!("secret={secret}")));
    assert!(uri.contains("issuer=Ferro"));
    let (other, _) = TotpService::generate_secret("alice", "Ferro");
    assert_ne!(secret, other);
}

#[test]
fn malformed_secret_is_refused() {
    let e = TotpService::verify_code("not base32 !!", "123456").unwrap_err();
    assert_eq!(e.code, ErrorCode::TotpInvalidCode);
    assert_eq!(e.message, "Invalid TOTP secret format");
}

#[test]
fn short_secret_is_refused() {
    // 10 bytes: below the 128 bits the generator requires
    let e = TotpService::verify_code("GEZDGNBVGY3TQOJQ", "123456").unwrap_err();
    assert_eq!(e.code, ErrorCode::TotpInvalidCode);
    assert_eq!(e.message, "Failed to initialize TOTP");
}

#[test]
fn wrong_code_is_refused() {
    let (secret, _) = TotpService::generate_secret("bob", "Ferro");
    let e = TotpService::verify_code(&secret, "abcdef").unwrap_err();
    assert_eq!(e.code, ErrorCode::TotpInvalidCode);
    assert_eq!(e.message, "Invalid 6-digit authentication code");
}

#[test]
fn code_outcome_maps_the_check() {
    assert_eq!(TotpService::code_outcome(true).unwrap(), true);
    let e = TotpService::code_outcome(false).unwrap_err();
    assert_eq!(e.code, ErrorCode::TotpInvalidCode);
}

// RFC 6238 test secret "12345678901234567890"; at T = 59 the SHA-1 code is
// 94287082, whose last six digits are 287082.
const RFC_SECRET: &str = "GEZDGNBVGY3TQOJQGEZDGNBVGY3TQOJQ";

#[test]
fn code_is_accepted_within_one_step_of_skew() {
    assert_eq!(TotpService::verify_code_at(RFC_SECRET, "287082", 59).unwrap(), true);
    assert_eq!(TotpService::verify_code_at(RFC_SECRET, "287082", 30).unwrap(), true);
    assert_eq!(TotpService::verify_code_at(RFC_SECRET, "287082", 89).unwrap(), true);
}

#[test]
fn code_is_refused_outside_the_skew() {
    let e = TotpService::verify_code_at(RFC_SECRET, "287082", 149).unwrap_err();
    assert_eq!(e.code, ErrorCode::TotpInvalidCode);
    assert_eq!(e.message, "Invalid 6-digit authentication code");
    assert!(e.params.is_empty());
}

#[test]
fn secret_errors_come_first_at_any_time() {
    let e = TotpService::verify_code_at("not base32 !!", "287082", 59).unwrap_err();
    assert_eq!(e.message, "Invalid TOTP secret format");
    let e = TotpService::verify_code_at("GEZDGNBVGY3TQOJQ", "287082", 59).unwrap_err();
    assert_eq!(e.message, "Failed to initialize TOTP");
}

#[test]
fn uri_of_a_known_account() {
    let (secret, uri) = TotpService::generate_secret("bob_2", "Serve");
    assert_eq!(uri, format!("otpauth://totp/Serve:bob_2?secret={secret}&issuer=Serve"));
    let (_, uri) = TotpService::generate_secret("a b", "My App");
    assert!(uri.starts_with("otpauth://totp/My%20App:a%20b?secret="));
    assert!(uri.ends_with("&issuer=My%20App"));
}
