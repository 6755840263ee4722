//! Resolution of the acting user of a request.

use vstd::prelude::*;
use crate::domain::errors::{DomainError, ErrorCode};
use crate::ids::{parse_id, uuid_parse};

verus! {

/// Resolves a user ID from either an explicit ID parameter or the
/// authenticated user: an explicit ID must be a UUID (else `ErrorBadRequest`);
/// without one, the authenticated user is used (else
/// `AuthUserIdOrTokenRequired`).
pub fn resolve_user_id(explicit_id: Option<&str>, auth_user: Option<u128>) -> (r: Result<
    u128,
    DomainError,
>)
    ensures
        match explicit_id {
            Some(text) => match uuid_parse(text@) {
                Some(id) => r == Ok::<u128, DomainError>(id),
                None => r matches Err(e) && e.code == ErrorCode::ErrorBadRequest && e.message@
                    == ErrorCode::ErrorBadRequest.name() && e.params@.len() == 0,
            },
            None => match auth_user {
                Some(id) => r == Ok::<u128, DomainError>(id),
                None => r matches Err(e) && e.code == ErrorCode::AuthUserIdOrTokenRequired
                    && e.message@ == ErrorCode::AuthUserIdOrTokenRequired.name() && e.params@.len() == 0,
            },
        },
{
    match explicit_id {
        Some(text) => match parse_id(text) {
            Some(id) => Ok(id),
            None => Err(DomainError::from_code(ErrorCode::ErrorBadRequest)),
        },
        None => match auth_user {
            Some(id) => Ok(id),
            None => Err(DomainError::from_code(ErrorCode::AuthUserIdOrTokenRequired)),
        },
    }
}

/// Requires an authenticated user: its id, or `AuthTokenRequired`.
pub fn require_auth(auth_user: Option<u128>) -> (r: Result<u128, DomainError>)
    ensures
        match auth_user {
            Some(id) => r == Ok::<u128, DomainError>(id),
            None => r matches Err(e) && e.code == ErrorCode::AuthTokenRequired && e.message@
                == ErrorCode::AuthTokenRequired.name() && e.params@.len() == 0,
        },
{
    match auth_user {
        Some(id) => Ok(id),
        None => Err(DomainError::from_code(ErrorCode::AuthTokenRequired)),
    }
}

} // verus!
