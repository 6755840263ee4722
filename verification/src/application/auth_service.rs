//! Sign-up and login.

use vstd::prelude::*;
use std::sync::Arc;
use crate::domain::errors::{DomainError, ErrorCode};
use crate::domain::models::User;
use crate::domain::validation::{
    email_ok, password_ok, username_ok, validate_email, validate_password, validate_username,
};

verus! {

/// Application service for sign-up and login, over a user store `R` and a
/// token-signing configuration `C`.
#[derive(Clone)]
pub struct AuthService<R: ?Sized, C> {
    repository: Arc<R>,
    auth_config: C,
}

/// The one error of a refused login, whether the account is unknown or the
/// password is wrong.
pub open spec fn is_invalid_credentials(e: DomainError) -> bool {
    &&& e.code == ErrorCode::AuthInvalidCredentials
    &&& e.message@ == ErrorCode::AuthInvalidCredentials.name() && e.params@.len() == 0
    &&& e.params@.len() == 0
}

/// Any two refusals of a login are the same error: same code, same message
/// and no parameters, so a refusal does not tell an unknown account from a
/// wrong password.
pub proof fn lemma_login_refusals_agree(e1: DomainError, e2: DomainError)
    requires
        is_invalid_credentials(e1),
        is_invalid_credentials(e2),
    ensures
        e1.code == e2.code,
        e1.message@ == e2.message@,
        e1.params@ == e2.params@,
{
    assert(e1.params@ =~= e2.params@);
}

impl<R: ?Sized, C> AuthService<R, C> {
    /// The user store the service works on.
    pub closed spec fn store(&self) -> Arc<R> {
        self.repository
    }

    /// The token-signing configuration.
    pub closed spec fn config(&self) -> C {
        self.auth_config
    }

    pub fn new(repository: Arc<R>, auth_config: C) -> (s: Self)
        ensures
            s.store() == repository,
            s.config() == auth_config,
    {
        AuthService { repository, auth_config }
    }

    /// The user store the service works on.
    pub fn repository(&self) -> (r: &Arc<R>)
        ensures
            *r == self.store(),
    {
        &self.repository
    }

    /// The token-signing configuration.
    pub fn auth_config(&self) -> (c: &C)
        ensures
            *c == self.config(),
    {
        &self.auth_config
    }

    /// Decides a login from the account found for the identifier, if any,
    /// paired with whether the password matched its hash: the login succeeds
    /// only when the account exists and the password matched. An unknown
    /// account and a wrong password give the same error, so a refusal does
    /// not tell which of the two it was.
    pub fn login_outcome(&self, found: Option<(User, bool)>) -> (r: Result<User, DomainError>)
        ensures
            match found {
                Some((u, true)) => r == Ok::<User, DomainError>(u),
                _ => r matches Err(e) && is_invalid_credentials(e),
            },
    {
        match found {
            Some((u, matched)) => if matched {
                Ok(u)
            } else {
                Err(DomainError::from_code(ErrorCode::AuthInvalidCredentials))
            },
            None => Err(DomainError::from_code(ErrorCode::AuthInvalidCredentials)),
        }
    }

    /// Checks the fields of a sign-up in order: the username, then the
    /// e-mail address, then the password; the first that fails gives its
    /// error.
    pub fn check_signup(&self, username: &str, email: &str, password: &str) -> (r: Result<
        (),
        DomainError,
    >)
        ensures
            r is Ok <==> username_ok(username@) && email_ok(email@) && password_ok(password@),
            !username_ok(username@) ==> (r matches Err(e) && e.code
                == ErrorCode::AuthInvalidUsername && e.message@
                == ErrorCode::AuthInvalidUsername.name() && e.params@.len() == 0),
            username_ok(username@) && !email_ok(email@) ==> (r matches Err(e) && e.code
                == ErrorCode::AuthInvalidEmail && e.message@ == ErrorCode::AuthInvalidEmail.name() && e.params@.len() == 0),
            username_ok(username@) && email_ok(email@) && !password_ok(password@) ==> (r matches Err(
                e,
            ) && e.code == ErrorCode::AuthPasswordTooShort && e.message@
                == ErrorCode::AuthPasswordTooShort.name() && e.params@.len() == 0),
    {
        validate_username(username)?;
        validate_email(email)?;
        validate_password(password)?;
        Ok(())
    }
}

} // verus!
