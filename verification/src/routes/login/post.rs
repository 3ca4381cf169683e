//! POST /login: check a username and a password.

use vstd::prelude::*;
use vstd::string::*;
use crate::authentication::middleware::UserId;
use crate::authentication::password::{AuthError, Credentials};
use crate::secret::SecretText;
use crate::utils::{flashed, see_other, see_other_value, FlashMessage, Level, Reply};

verus! {

/// The form of the request.
pub struct FormData {
    pub username: String,
    pub password: SecretText,
}

/// Why a login failed.
#[derive(Debug, Clone, Copy, PartialEq, Eq, Structural)]
pub enum LoginError {
    /// Bad username or bad password.
    AuthError(AuthError),
    /// A failure of the store or the machinery.
    UnexpectedError(AuthError),
}

/// The message of each error. It says nothing of the cause.
pub open spec fn login_message(e: LoginError) -> Seq<char> {
    match e {
        LoginError::AuthError(_) => "Authentication failed"@,
        LoginError::UnexpectedError(_) => "Something went wrong"@,
    }
}

/// The login error for an error of the credential check.
pub open spec fn login_error_of(e: AuthError) -> LoginError {
    match e {
        AuthError::InvalidCredentials(_) => LoginError::AuthError(e),
        AuthError::UnexpectedError(_) => LoginError::UnexpectedError(e),
    }
}

impl LoginError {
    /// The message of this error.
    pub fn to_string(&self) -> (r: String)
        ensures
            r@ == login_message(*self),
    {
        match self {
            LoginError::AuthError(_) => String::from_str("Authentication failed"),
            LoginError::UnexpectedError(_) => String::from_str("Something went wrong"),
        }
    }
}

/// A failed login: the error, and the response that carries its message
/// back to the login page.
pub struct LoginFailure {
    pub error: LoginError,
    pub response: Reply,
}

/// The first step: the credentials to check are those of the form.
pub fn credentials(form: FormData) -> (r: Credentials)
    ensures
        r.username@ == form.username@,
        r.password@ == form.password@,
{
    Credentials { username: form.username, password: form.password }
}

/// The second step, on the outcome of the credential check: a redirect to
/// the home page for a user, and for every failure a redirect to the login
/// page with the error's message.
pub fn login(outcome: Result<UserId, AuthError>) -> (r: Result<Reply, LoginFailure>)
    ensures
        r is Ok <==> outcome is Ok,
        r matches Ok(reply) ==> reply@ == see_other_value("/"@),
        r matches Err(failure) ==> failure.error == login_error_of(outcome->Err_0)
            && failure.response@ == flashed(
            see_other_value("/login"@),
            Level::Error,
            login_message(failure.error),
        ),
{
    match outcome {
        Ok(_) => Ok(see_other("/")),
        Err(e) => {
            let error = match e {
                AuthError::InvalidCredentials(_) => LoginError::AuthError(e),
                AuthError::UnexpectedError(_) => LoginError::UnexpectedError(e),
            };
            let message = error.to_string();
            let response = see_other("/login").with_flash(FlashMessage::error(message.as_str()));
            Err(LoginFailure { error, response })
        },
    }
}

} // verus!
