//! POST /password-reset/confirm: set a new password with a reset token.

use vstd::prelude::*;
use vstd::string::*;
use crate::authentication::middleware::UserId;
use crate::domain::password_reset_token::{is_password_reset_token, PasswordResetToken};
use crate::domain::subscriber_password::{
    password_rejection, rejection_message, SubscriberPassword,
};
use crate::secret::SecretText;
use crate::text::str_eq;
use crate::utils::{
    flashed, see_other, see_other_value, status_of, ErrorKind, Failure, FlashMessage, Level,
    Operation, Reply, Step,
};

verus! {

/// The form of the request.
pub struct FormData {
    pub token: SecretText,
    pub new_password: SecretText,
    pub new_password_check: SecretText,
}

/// Why the request failed.
#[derive(Debug, Clone, Copy, PartialEq, Eq, Structural)]
pub enum ResetPasswordError {
    /// The token is malformed, unknown, used or expired: 400. The caller is
    /// not told which.
    InvalidToken,
    /// Outside work failed: 500.
    Unexpected(Operation),
}

/// The status that goes with each error.
pub open spec fn reset_password_status(e: ResetPasswordError) -> u16 {
    match e {
        ResetPasswordError::InvalidToken => 400,
        ResetPasswordError::Unexpected(_) => 500,
    }
}

/// The message of each error.
pub open spec fn reset_password_message(e: ResetPasswordError) -> Seq<char> {
    match e {
        ResetPasswordError::InvalidToken => "Invalid or expired password reset token."@,
        ResetPasswordError::Unexpected(operation) => crate::utils::context_of(operation),
    }
}

impl ResetPasswordError {
    /// The status of the response for this error.
    pub fn status_code(&self) -> (r: u16)
        ensures
            r == reset_password_status(*self),
    {
        match self {
            ResetPasswordError::InvalidToken => 400,
            ResetPasswordError::Unexpected(_) => 500,
        }
    }

    /// The kind of this error.
    pub fn kind(&self) -> (r: ErrorKind)
        ensures
            r == (match *self {
                ResetPasswordError::InvalidToken => ErrorKind::InvalidToken,
                ResetPasswordError::Unexpected(_) => ErrorKind::Unexpected,
            }),
            status_of(r) == reset_password_status(*self),
    {
        match self {
            ResetPasswordError::InvalidToken => ErrorKind::InvalidToken,
            ResetPasswordError::Unexpected(_) => ErrorKind::Unexpected,
        }
    }

    /// The message of this error.
    pub fn to_string(&self) -> (r: String)
        ensures
            r@ == reset_password_message(*self),
    {
        match self {
            ResetPasswordError::InvalidToken => String::from_str(
                "Invalid or expired password reset token.",
            ),
            ResetPasswordError::Unexpected(operation) => String::from_str(operation.context()),
        }
    }
}

/// What is flashed when the two new passwords differ.
pub open spec fn mismatch_notice() -> Seq<char> {
    "You entered two different new passwords - the field values must match."@
}

/// The page that takes the new password for a token.
pub open spec fn confirm_page(token: Seq<char>) -> Seq<char> {
    "/password-reset/confirm?token="@ + token
}

/// The reply that sends the user back to the form with a message.
pub open spec fn back_to_form(token: Seq<char>, message: Seq<char>) -> crate::utils::ReplyValue {
    flashed(see_other_value(confirm_page(token)), Level::Error, message)
}

/// What the choice of a new password comes to: the passwords must be the
/// same, and the password must meet the policy. The message is the one to
/// flash where the choice is turned down.
pub open spec fn new_password_problem(new_password: Seq<char>, new_password_check: Seq<char>) -> Option<
    Seq<char>,
> {
    if new_password != new_password_check {
        Some(mismatch_notice())
    } else {
        match password_rejection(new_password) {
            Some(why) => Some(rejection_message(why)),
            None => None,
        }
    }
}

/// The token is well-formed; it is to be looked up.
pub struct AwaitingToken {
    token: PasswordResetToken,
    new_password: SecretText,
    new_password_check: SecretText,
}

/// The token was redeemable and the new password accepted; the password is
/// to be changed.
pub struct AwaitingChange {
    user_id: UserId,
    token_hash: String,
    new_password: SubscriberPassword,
}

/// The password was changed; the token is to be marked as used.
pub struct AwaitingMark {
    token_hash: String,
}

/// Sends the user back to the form for `token` with an error to flash.
pub fn redirect_to_form(token: &PasswordResetToken, message: &str) -> (r: Reply)
    ensures
        r@ == back_to_form(token@, message@),
{
    let mut page = String::from_str("/password-reset/confirm?token=");
    page.append(token.as_ref());
    see_other(page.as_str()).with_flash(FlashMessage::error(message))
}

/// The first step: checks the token's format. A malformed token is
/// answered like an unknown one.
pub fn reset_password_confirm(form: FormData) -> (r: Result<AwaitingToken, ResetPasswordError>)
    ensures
        r is Ok <==> is_password_reset_token(form.token@),
        r matches Ok(next) ==> next.token() == form.token@ && next.new_password()
            == form.new_password@ && next.new_password_check() == form.new_password_check@,
        r matches Err(e) ==> e == ResetPasswordError::InvalidToken,
{
    let raw = String::from_str(form.token.expose_secret());
    match PasswordResetToken::parse(raw) {
        Ok(token) => Ok(
            AwaitingToken {
                token,
                new_password: form.new_password,
                new_password_check: form.new_password_check,
            },
        ),
        Err(_) => Err(ResetPasswordError::InvalidToken),
    }
}

impl AwaitingToken {
    /// The token of the request.
    pub closed spec fn token(&self) -> Seq<char> {
        self.token@
    }

    /// The new password of the request.
    pub closed spec fn new_password(&self) -> Seq<char> {
        self.new_password@
    }

    /// The repetition of the new password.
    pub closed spec fn new_password_check(&self) -> Seq<char> {
        self.new_password_check@
    }

    /// The token to look up.
    pub fn reset_token(&self) -> (r: &PasswordResetToken)
        ensures
            r@ == self.token(),
    {
        &self.token
    }

    /// The second step, on the outcome of the lookup. A token that is
    /// unknown, used or expired is an invalid token, whichever it is; a
    /// failed lookup ends the request with 500. For a redeemable token the
    /// new password is checked: where the two entries differ or the
    /// password does not meet the policy, the user is sent back to the form
    /// with the reason, and the token stays redeemable.
    pub fn on_token(self, lookup: Result<Option<(UserId, String)>, Failure>) -> (r: Step<
        AwaitingChange,
        ResetPasswordError,
    >)
        ensures
            match lookup {
                Err(_) => r matches Step::Fail(e) && e == ResetPasswordError::Unexpected(
                    Operation::QueryResetToken,
                ),
                Ok(None) => r matches Step::Fail(e) && e == ResetPasswordError::InvalidToken,
                Ok(Some(found)) => match new_password_problem(
                    self.new_password(),
                    self.new_password_check(),
                ) {
                    Some(message) => r matches Step::Respond(reply) && reply@ == back_to_form(
                        self.token(),
                        message,
                    ),
                    None => r matches Step::Continue(next) && next.user_id() == found.0
                        && next.token_hash() == found.1@ && next.new_password()
                        == self.new_password(),
                },
            },
    {
        let (user_id, token_hash) = match lookup {
            Err(_) => {
                return Step::Fail(ResetPasswordError::Unexpected(Operation::QueryResetToken));
            },
            Ok(None) => {
                return Step::Fail(ResetPasswordError::InvalidToken);
            },
            Ok(Some(found)) => found,
        };
        if !str_eq(self.new_password.expose_secret(), self.new_password_check.expose_secret()) {
            return Step::Respond(
                redirect_to_form(
                    &self.token,
                    "You entered two different new passwords - the field values must match.",
                ),
            );
        }
        match SubscriberPassword::parse(self.new_password) {
            Ok(new_password) => Step::Continue(AwaitingChange { user_id, token_hash, new_password }),
            Err(message) => Step::Respond(redirect_to_form(&self.token, message)),
        }
    }
}

impl AwaitingChange {
    /// The user whose password changes.
    pub closed spec fn user_id(&self) -> UserId {
        self.user_id
    }

    /// The hash of the token that is being redeemed.
    pub closed spec fn token_hash(&self) -> Seq<char> {
        self.token_hash@
    }

    /// The new password.
    pub closed spec fn new_password(&self) -> Seq<char> {
        self.new_password@
    }

    /// The user whose password is to be changed.
    pub fn user(&self) -> (r: UserId)
        ensures
            r == self.user_id(),
    {
        self.user_id
    }

    /// Hands out the new password for hashing, and what is left of the
    /// step.
    pub fn take_password(self) -> (r: (SubscriberPassword, AwaitingChanged))
        ensures
            r.0@ == self.new_password(),
            r.1.token_hash() == self.token_hash(),
    {
        (self.new_password, AwaitingChanged { token_hash: self.token_hash })
    }
}

/// The new password was handed out; the outcome of the change is awaited.
pub struct AwaitingChanged {
    token_hash: String,
}

impl AwaitingChanged {
    /// The hash of the token that is being redeemed.
    pub closed spec fn token_hash(&self) -> Seq<char> {
        self.token_hash@
    }

    /// The third step, on the outcome of the change. The token is marked as
    /// used only after the password was changed; where the change failed,
    /// the request ends with 500 and the token stays redeemable.
    pub fn on_changed(self, changed: Result<(), Failure>) -> (r: Result<
        AwaitingMark,
        ResetPasswordError,
    >)
        ensures
            r is Ok <==> changed is Ok,
            r matches Ok(next) ==> next.token_hash() == self.token_hash(),
            r matches Err(e) ==> e == ResetPasswordError::Unexpected(Operation::ChangePassword),
    {
        match changed {
            Ok(_) => Ok(AwaitingMark { token_hash: self.token_hash }),
            Err(_) => Err(ResetPasswordError::Unexpected(Operation::ChangePassword)),
        }
    }
}

impl AwaitingMark {
    /// The hash of the token that is being redeemed.
    pub closed spec fn token_hash(&self) -> Seq<char> {
        self.token_hash@
    }

    /// The hash to mark as used.
    pub fn hash(&self) -> (r: &String)
        ensures
            r@ == self.token_hash(),
    {
        &self.token_hash
    }

    /// The last step, on the outcome of the mark: a redirect to the login
    /// page with a notice of success, or 500 where the mark failed.
    pub fn on_marked(self, marked: Result<(), Failure>) -> (r: Result<Reply, ResetPasswordError>)
        ensures
            r is Ok <==> marked is Ok,
            r matches Ok(reply) ==> reply@ == flashed(
                see_other_value("/login"@),
                Level::Success,
                "Your password has been reset."@,
            ),
            r matches Err(e) ==> e == ResetPasswordError::Unexpected(Operation::MarkTokenUsed),
    {
        match marked {
            Ok(_) => Ok(
                see_other("/login").with_flash(FlashMessage::success("Your password has been reset.")),
            ),
            Err(_) => Err(ResetPasswordError::Unexpected(Operation::MarkTokenUsed)),
        }
    }
}

} // verus!
