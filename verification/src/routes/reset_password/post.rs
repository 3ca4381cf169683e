//! POST /password-reset: mail a reset link to the user with this address.

use vstd::prelude::*;
use vstd::string::*;
use crate::authentication::middleware::UserId;
use crate::domain::password_reset_token::{is_password_reset_token, PasswordResetToken};
use crate::domain::subscriber_email::{is_email_address, SubscriberEmail};
use crate::email_client::EmailContent;
use crate::utils::{
    flashed, ok_value, status_of, ErrorKind, Failure, FlashMessage, Level, Operation, Reply,
    ReplyValue, Step,
};

verus! {

/// The form of the request.
pub struct FormData {
    pub email: String,
}

/// Why the request failed.
#[derive(Debug, Clone, Copy, PartialEq, Eq, Structural)]
pub enum ForgotPasswordError {
    /// The address is malformed: 400.
    InvalidEmailError,
    /// Outside work failed: 500.
    UnexpectedError(Operation),
}

/// The status that goes with each error.
pub open spec fn forgot_password_status(e: ForgotPasswordError) -> u16 {
    match e {
        ForgotPasswordError::InvalidEmailError => 400,
        ForgotPasswordError::UnexpectedError(_) => 500,
    }
}

/// The message of each error.
pub open spec fn forgot_password_message(e: ForgotPasswordError) -> Seq<char> {
    match e {
        ForgotPasswordError::InvalidEmailError => "Invalid Email"@,
        ForgotPasswordError::UnexpectedError(_) => "Something went wrong"@,
    }
}

impl ForgotPasswordError {
    /// The status of the response for this error.
    pub fn status_code(&self) -> (r: u16)
        ensures
            r == forgot_password_status(*self),
    {
        match self {
            ForgotPasswordError::InvalidEmailError => 400,
            ForgotPasswordError::UnexpectedError(_) => 500,
        }
    }

    /// The kind of this error.
    pub fn kind(&self) -> (r: ErrorKind)
        ensures
            r == (match *self {
                ForgotPasswordError::InvalidEmailError => ErrorKind::Validation,
                ForgotPasswordError::UnexpectedError(_) => ErrorKind::Unexpected,
            }),
            status_of(r) == forgot_password_status(*self),
    {
        match self {
            ForgotPasswordError::InvalidEmailError => ErrorKind::Validation,
            ForgotPasswordError::UnexpectedError(_) => ErrorKind::Unexpected,
        }
    }

    /// The message of this error.
    pub fn to_string(&self) -> (r: String)
        ensures
            r@ == forgot_password_message(*self),
    {
        match self {
            ForgotPasswordError::InvalidEmailError => String::from_str("Invalid Email"),
            ForgotPasswordError::UnexpectedError(_) => String::from_str("Something went wrong"),
        }
    }
}

/// What is flashed whether or not the address belongs to a user.
pub open spec fn sent_notice() -> Seq<char> {
    "If that email is in our system, we sent a reset link."@
}

/// The reply to a well-formed request that met no failure: 200 with the
/// notice. It is the same whether or not the address belongs to a user, so
/// that it does not tell which.
pub open spec fn reset_request_reply() -> ReplyValue {
    flashed(ok_value(), Level::Info, sent_notice())
}

/// Builds the reply to a well-formed request that met no failure.
pub fn accepted_reply() -> (r: Reply)
    ensures
        r@ == reset_request_reply(),
{
    Reply::ok().with_flash(
        FlashMessage::info("If that email is in our system, we sent a reset link."),
    )
}

/// The link that redeems a token.
pub open spec fn reset_link(base_url: Seq<char>, token: Seq<char>) -> Seq<char> {
    base_url + "/password-reset?token="@ + token
}

/// The HTML body of the reset mail.
pub open spec fn reset_html_body(username: Seq<char>, link: Seq<char>) -> Seq<char> {
    "Dear "@ + username + ",<br />Click <a href=\""@ + link
        + "\">here</a> to reset your password."@
}

/// The plain body of the reset mail.
pub open spec fn reset_plain_body(username: Seq<char>, link: Seq<char>) -> Seq<char> {
    "Dear "@ + username + ",\nVisit "@ + link + " to reset your password."@
}

/// Composes the mail that carries a reset link: the link is the base URL,
/// the path of the reset page and the token.
pub fn send_password_reset_email(username: &str, base_url: &str, reset_token: &PasswordResetToken) -> (r:
    EmailContent)
    ensures
        r.subject@ == "Password Reset Request"@,
        r.html_body@ == reset_html_body(username@, reset_link(base_url@, reset_token@)),
        r.text_body@ == reset_plain_body(username@, reset_link(base_url@, reset_token@)),
{
    let mut link = String::from_str(base_url);
    link.append("/password-reset?token=");
    link.append(reset_token.as_ref());
    let mut html_body = String::from_str("Dear ");
    html_body.append(username);
    html_body.append(",<br />Click <a href=\"");
    html_body.append(link.as_str());
    html_body.append("\">here</a> to reset your password.");
    let mut text_body = String::from_str("Dear ");
    text_body.append(username);
    text_body.append(",\nVisit ");
    text_body.append(link.as_str());
    text_body.append(" to reset your password.");
    EmailContent { subject: String::from_str("Password Reset Request"), html_body, text_body }
}

/// The address was accepted; the user with it is to be looked up.
pub struct AwaitingUser {
    email: SubscriberEmail,
}

/// A token was drawn for the user; it is to be stored.
pub struct AwaitingStore {
    email: SubscriberEmail,
    user_id: UserId,
    username: String,
    reset_token: PasswordResetToken,
}

/// The token is stored; the mail is to be sent.
pub struct AwaitingMail {
    email: SubscriberEmail,
    username: String,
    reset_token: PasswordResetToken,
}

/// The first step: checks the address. A malformed address ends the
/// request with 400.
pub fn reset_password(form: FormData) -> (r: Result<AwaitingUser, ForgotPasswordError>)
    ensures
        r is Ok <==> is_email_address(form.email@),
        r matches Ok(next) ==> next.email() == form.email@,
        r matches Err(e) ==> e == ForgotPasswordError::InvalidEmailError,
{
    match SubscriberEmail::parse(form.email) {
        Ok(email) => Ok(AwaitingUser { email }),
        Err(_) => Err(ForgotPasswordError::InvalidEmailError),
    }
}

impl AwaitingUser {
    /// The address of the request.
    pub closed spec fn email(&self) -> Seq<char> {
        self.email@
    }

    /// The address to look the user up by.
    pub fn address(&self) -> (r: &SubscriberEmail)
        ensures
            r@ == self.email(),
    {
        &self.email
    }

    /// The second step, on the outcome of the lookup. Where no user has
    /// the address, the answer is 200 with the same notice as for a user,
    /// so that the reply does not tell whether the address is known. Where
    /// a user has it, a fresh token is drawn for storing. A failed lookup
    /// ends the request with 500.
    pub fn on_user(self, lookup: Result<Option<(UserId, String)>, Failure>) -> (r: Step<
        AwaitingStore,
        ForgotPasswordError,
    >)
        ensures
            match lookup {
                Ok(Some(user)) => r matches Step::Continue(next) && next.user_id() == user.0
                    && next.username() == user.1@ && next.email() == self.email()
                    && is_password_reset_token(next.reset_token()),
                Ok(None) => r matches Step::Respond(reply) && reply@ == reset_request_reply(),
                Err(_) => r matches Step::Fail(e) && e == ForgotPasswordError::UnexpectedError(
                    Operation::FindUserByEmail,
                ),
            },
    {
        match lookup {
            Ok(Some((user_id, username))) => {
                let reset_token = PasswordResetToken::default();
                Step::Continue(AwaitingStore { email: self.email, user_id, username, reset_token })
            },
            Ok(None) => Step::Respond(accepted_reply()),
            Err(_) => Step::Fail(ForgotPasswordError::UnexpectedError(Operation::FindUserByEmail)),
        }
    }
}

impl AwaitingStore {
    /// The address of the request.
    pub closed spec fn email(&self) -> Seq<char> {
        self.email@
    }

    /// The user that asked.
    pub closed spec fn user_id(&self) -> UserId {
        self.user_id
    }

    /// The user's name.
    pub closed spec fn username(&self) -> Seq<char> {
        self.username@
    }

    /// The token that was drawn.
    pub closed spec fn reset_token(&self) -> Seq<char> {
        self.reset_token@
    }

    /// The user to store the token for.
    pub fn user(&self) -> (r: UserId)
        ensures
            r == self.user_id(),
    {
        self.user_id
    }

    /// The token to store.
    pub fn token(&self) -> (r: &PasswordResetToken)
        ensures
            r@ == self.reset_token(),
    {
        &self.reset_token
    }

    /// The third step, on the outcome of storing the token. The mail is
    /// sent only for a token that was stored; a failure ends the request
    /// with 500.
    pub fn on_stored(self, stored: Result<(), Failure>) -> (r: Result<
        AwaitingMail,
        ForgotPasswordError,
    >)
        ensures
            r is Ok <==> stored is Ok,
            r matches Ok(next) ==> next.email() == self.email() && next.username()
                == self.username() && next.reset_token() == self.reset_token(),
            r matches Err(e) ==> e == ForgotPasswordError::UnexpectedError(
                Operation::StoreResetToken,
            ),
    {
        match stored {
            Ok(_) => Ok(
                AwaitingMail {
                    email: self.email,
                    username: self.username,
                    reset_token: self.reset_token,
                },
            ),
            Err(_) => Err(ForgotPasswordError::UnexpectedError(Operation::StoreResetToken)),
        }
    }
}

impl AwaitingMail {
    /// The address of the request.
    pub closed spec fn email(&self) -> Seq<char> {
        self.email@
    }

    /// The user's name.
    pub closed spec fn username(&self) -> Seq<char> {
        self.username@
    }

    /// The token that was stored.
    pub closed spec fn reset_token(&self) -> Seq<char> {
        self.reset_token@
    }

    /// The address to send the mail to.
    pub fn recipient(&self) -> (r: &SubscriberEmail)
        ensures
            r@ == self.email(),
    {
        &self.email
    }

    /// The mail to send: it carries the link with the raw token.
    pub fn mail(&self, base_url: &str) -> (r: EmailContent)
        ensures
            r.subject@ == "Password Reset Request"@,
            r.html_body@ == reset_html_body(
                self.username(),
                reset_link(base_url@, self.reset_token()),
            ),
            r.text_body@ == reset_plain_body(
                self.username(),
                reset_link(base_url@, self.reset_token()),
            ),
    {
        send_password_reset_email(self.username.as_str(), base_url, &self.reset_token)
    }

    /// The last step, on the outcome of sending the mail: the same reply
    /// as for an address that no user has, or 500 where sending failed.
    pub fn on_sent(self, sent: Result<(), Failure>) -> (r: Result<Reply, ForgotPasswordError>)
        ensures
            r is Ok <==> sent is Ok,
            r matches Ok(reply) ==> reply@ == reset_request_reply(),
            r matches Err(e) ==> e == ForgotPasswordError::UnexpectedError(
                Operation::SendResetEmail,
            ),
    {
        match sent {
            Ok(_) => Ok(accepted_reply()),
            Err(_) => Err(ForgotPasswordError::UnexpectedError(Operation::SendResetEmail)),
        }
    }
}

} // verus!
