//! GET /password-reset/confirm: the form that takes the new password.

use vstd::prelude::*;
use vstd::string::*;
use crate::domain::password_reset_token::{
    is_password_reset_token, reset_token_rejection, PasswordResetToken,
};
use crate::routes::subscriptions_confirm::ConfirmError;

verus! {

/// The query of the request.
pub struct Parameters {
    pub token: String,
}

/// Checks the token of the link. A well-formed token is put into the form
/// that is rendered; a malformed one ends the request with 400 and a
/// message that names it.
pub fn confirm_reset_password_form(parameters: &Parameters) -> (r: Result<
    PasswordResetToken,
    ConfirmError,
>)
    ensures
        r is Ok <==> is_password_reset_token(parameters.token@),
        r matches Ok(token) ==> token@ == parameters.token@,
        r matches Err(e) ==> e matches ConfirmError::ValidationError(message) && message@
            == reset_token_rejection(parameters.token@),
{
    match PasswordResetToken::parse(parameters.token.clone()) {
        Ok(token) => Ok(token),
        Err(message) => Err(ConfirmError::ValidationError(message)),
    }
}

} // verus!
