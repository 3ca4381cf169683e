//! POST /admin/password: change the password of the logged-in user.

use vstd::prelude::*;
use vstd::string::*;
use crate::authentication::middleware::UserId;
use crate::authentication::password::{AuthError, Credentials};
use crate::domain::subscriber_password::{
    password_rejection, rejection_message, SubscriberPassword,
};
use crate::secret::SecretText;
use crate::text::str_eq;
use crate::utils::{
    flashed, see_other, see_other_value, Failure, FlashMessage, Level, Operation, Reply,
    ReplyValue, Step,
};

verus! {

/// The form of the request.
pub struct FormData {
    pub current_password: SecretText,
    pub new_password: SecretText,
    pub new_password_check: SecretText,
}

/// The reply that sends the user back to the form with a message.
pub open spec fn back_to_form(message: Seq<char>) -> ReplyValue {
    flashed(see_other_value("/admin/password"@), Level::Error, message)
}

/// What is flashed when the two new passwords differ.
pub open spec fn mismatch_notice() -> Seq<char> {
    "You entered two different new passwords - the field values must match."@
}

/// Sends the user back to the form with a message to flash.
pub fn redirect_to_form(message: &str) -> (r: Reply)
    ensures
        r@ == back_to_form(message@),
{
    see_other("/admin/password").with_flash(FlashMessage::error(message))
}

/// The two new passwords agree; the user's name is to be fetched.
pub struct AwaitingUsername {
    user_id: UserId,
    current_password: SecretText,
    new_password: SecretText,
}

/// The current password is to be checked.
pub struct AwaitingValidation {
    user_id: UserId,
    new_password: SecretText,
}

/// The new password is to be stored.
pub struct AwaitingChange {
    user_id: UserId,
}

/// The first step: the two entries of the new password must be the same.
pub fn change_password(form: FormData, user_id: UserId) -> (r: Step<AwaitingUsername, Operation>)
    ensures
        form.new_password@ != form.new_password_check@ ==> (r matches Step::Respond(reply)
            && reply@ == back_to_form(mismatch_notice())),
        form.new_password@ == form.new_password_check@ ==> (r matches Step::Continue(next)
            && next.user_id() == user_id && next.current_password() == form.current_password@
            && next.new_password() == form.new_password@),
{
    if !str_eq(form.new_password.expose_secret(), form.new_password_check.expose_secret()) {
        return Step::Respond(
            redirect_to_form(
                "You entered two different new passwords - the field values must match.",
            ),
        );
    }
    Step::Continue(
        AwaitingUsername {
            user_id,
            current_password: form.current_password,
            new_password: form.new_password,
        },
    )
}

impl AwaitingUsername {
    /// The user who is logged in.
    pub closed spec fn user_id(&self) -> UserId {
        self.user_id
    }

    /// The current password of the form.
    pub closed spec fn current_password(&self) -> Seq<char> {
        self.current_password@
    }

    /// The new password of the form.
    pub closed spec fn new_password(&self) -> Seq<char> {
        self.new_password@
    }

    /// The user whose name is to be fetched.
    pub fn user(&self) -> (r: UserId)
        ensures
            r == self.user_id(),
    {
        self.user_id
    }

    /// The second step, on the user's name: the credentials to check are
    /// that name and the current password of the form.
    pub fn on_username(self, fetched: Result<String, Failure>) -> (r: Result<
        (Credentials, AwaitingValidation),
        Operation,
    >)
        ensures
            r is Ok <==> fetched is Ok,
            r matches Ok(next) ==> next.0.username@ == fetched->Ok_0@ && next.0.password@
                == self.current_password() && next.1.user_id() == self.user_id()
                && next.1.new_password() == self.new_password(),
            r matches Err(operation) ==> operation == Operation::GetUsername,
    {
        match fetched {
            Ok(username) => Ok(
                (
                    Credentials { username, password: self.current_password },
                    AwaitingValidation { user_id: self.user_id, new_password: self.new_password },
                ),
            ),
            Err(_) => Err(Operation::GetUsername),
        }
    }
}

impl AwaitingValidation {
    /// The user who is logged in.
    pub closed spec fn user_id(&self) -> UserId {
        self.user_id
    }

    /// The new password of the form.
    pub closed spec fn new_password(&self) -> Seq<char> {
        self.new_password@
    }

    /// The third step, on the outcome of the credential check. The new
    /// password is looked at only where the current one was right; it is
    /// handed out for hashing only where it meets the policy.
    pub fn on_validated(self, outcome: Result<UserId, AuthError>) -> (r: Step<
        (SubscriberPassword, AwaitingChange),
        Operation,
    >)
        ensures
            match outcome {
                Err(AuthError::InvalidCredentials(_)) => r matches Step::Respond(reply) && reply@
                    == back_to_form("The current password is incorrect."@),
                Err(AuthError::UnexpectedError(_)) => r matches Step::Fail(operation) && operation
                    == Operation::ValidateCredentials,
                Ok(_) => match password_rejection(self.new_password()) {
                    Some(why) => r matches Step::Respond(reply) && reply@ == back_to_form(
                        rejection_message(why),
                    ),
                    None => r matches Step::Continue(next) && next.0@ == self.new_password()
                        && next.1.user_id() == self.user_id(),
                },
            },
    {
        match outcome {
            Err(AuthError::InvalidCredentials(_)) => {
                return Step::Respond(redirect_to_form("The current password is incorrect."));
            },
            Err(AuthError::UnexpectedError(_)) => {
                return Step::Fail(Operation::ValidateCredentials);
            },
            Ok(_) => {},
        }
        match SubscriberPassword::parse(self.new_password) {
            Ok(new_password) => Step::Continue(
                (new_password, AwaitingChange { user_id: self.user_id }),
            ),
            Err(message) => Step::Respond(redirect_to_form(message)),
        }
    }
}

impl AwaitingChange {
    /// The user whose password changes.
    pub closed spec fn user_id(&self) -> UserId {
        self.user_id
    }

    /// The user whose password is to be stored.
    pub fn user(&self) -> (r: UserId)
        ensures
            r == self.user_id(),
    {
        self.user_id
    }

    /// The last step, on the outcome of the change: back to the form with a
    /// notice, or 500 where the change failed.
    pub fn on_changed(self, changed: Result<(), Failure>) -> (r: Result<Reply, Operation>)
        ensures
            r is Ok <==> changed is Ok,
            r matches Ok(reply) ==> reply@ == back_to_form("Your password has been changed."@),
            r matches Err(operation) ==> operation == Operation::ChangePassword,
    {
        match changed {
            Ok(_) => Ok(redirect_to_form("Your password has been changed.")),
            Err(_) => Err(Operation::ChangePassword),
        }
    }
}

} // verus!
