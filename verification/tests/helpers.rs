use serve::application::helpers::{require_auth, resolve_user_id};
use serve::domain::errors::ErrorCode;

#[test]
fn explicit_user_id_wins_over_the_token() {
    let r = resolve_user_id(Some("123e4567-e89b-12d3-a456-426614174000"), Some(5));
    assert_eq!(r.unwrap(), 0x123e4567_e89b_12d3_a456_426614174000);
}

#[test]
fn explicit_user_id_accepts_other_uuid_forms() {
    let r = resolve_user_id(Some("123E4567E89B12D3A456426614174000"), None);
    assert_eq!(r.unwrap(), 0x123e4567_e89b_12d3_a456_426614174000);
}

#[test]
fn malformed_user_id_is_a_bad_request() {
    let e = resolve_user_id(Some("not-a-uuid"), Some(5)).unwrap_err();
    assert_eq!(e.code, ErrorCode::ErrorBadRequest);
    assert_eq!(e.message, "BAD_REQUEST");
}

#[test]
fn without_explicit_id_the_token_user_is_used() {
    assert_eq!(resolve_user_id(None, Some(9)).unwrap(), 9);
    let e = resolve_user_id(None, None).unwrap_err();
    assert_eq!(e.code, ErrorCode::AuthUserIdOrTokenRequired);
    assert_eq!(e.message, "AUTH_USER_ID_OR_TOKEN_REQUIRED");
}

#[test]
fn require_auth_needs_a_user() {
    assert_eq!(require_auth(Some(3)).unwrap(), 3);
    let e = require_auth(None).unwrap_err();
    assert_eq!(e.code, ErrorCode::AuthTokenRequired);
    assert_eq!(e.message, "AUTH_TOKEN_REQUIRED");
}
