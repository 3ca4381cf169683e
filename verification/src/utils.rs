//! What the handlers answer with: replies, flash messages and the outside
//! work whose failure they report.

use vstd::prelude::*;
use vstd::string::*;

verus! {

/// The weight of a flash message.
#[derive(Debug, Clone, Copy, PartialEq, Eq, Structural)]
pub enum Level {
    Info,
    Success,
    Error,
}

/// A message shown once on the next page.
#[derive(Debug)]
pub struct FlashMessage {
    pub level: Level,
    pub content: String,
}

/// A reply to a request: the status, where to go next, and what to flash.
#[derive(Debug)]
pub struct Reply {
    pub status_code: u16,
    pub location: Option<String>,
    pub flash: Option<FlashMessage>,
}

/// A reply as a mathematical value.
pub struct ReplyValue {
    pub status_code: u16,
    pub location: Option<Seq<char>>,
    pub flash: Option<(Level, Seq<char>)>,
}

impl View for FlashMessage {
    type V = (Level, Seq<char>);

    open spec fn view(&self) -> (Level, Seq<char>) {
        (self.level, self.content@)
    }
}

impl View for Reply {
    type V = ReplyValue;

    open spec fn view(&self) -> ReplyValue {
        ReplyValue {
            status_code: self.status_code,
            location: match self.location {
                Some(location) => Some(location@),
                None => None,
            },
            flash: match self.flash {
                Some(message) => Some(message@),
                None => None,
            },
        }
    }
}

/// 200 OK without a body.
pub open spec fn ok_value() -> ReplyValue {
    ReplyValue { status_code: 200, location: None, flash: None }
}

/// 303 See Other to `location`.
pub open spec fn see_other_value(location: Seq<char>) -> ReplyValue {
    ReplyValue { status_code: 303, location: Some(location), flash: None }
}

/// A reply with a flash message attached.
pub open spec fn flashed(reply: ReplyValue, level: Level, content: Seq<char>) -> ReplyValue {
    ReplyValue { flash: Some((level, content)), ..reply }
}

impl FlashMessage {
    /// An informational message.
    pub fn info(content: &str) -> (r: Self)
        ensures
            r@ == (Level::Info, content@),
    {
        FlashMessage { level: Level::Info, content: String::from_str(content) }
    }

    /// A message of success.
    pub fn success(content: &str) -> (r: Self)
        ensures
            r@ == (Level::Success, content@),
    {
        FlashMessage { level: Level::Success, content: String::from_str(content) }
    }

    /// A message of an error.
    pub fn error(content: &str) -> (r: Self)
        ensures
            r@ == (Level::Error, content@),
    {
        FlashMessage { level: Level::Error, content: String::from_str(content) }
    }
}

impl Reply {
    /// 200 OK without a body.
    pub fn ok() -> (r: Self)
        ensures
            r@ == ok_value(),
    {
        Reply { status_code: 200, location: None, flash: None }
    }

    /// The same reply with `message` to flash.
    pub fn with_flash(self, message: FlashMessage) -> (r: Self)
        ensures
            r@ == flashed(self@, message.level, message.content@),
    {
        Reply { status_code: self.status_code, location: self.location, flash: Some(message) }
    }
}

/// 303 See Other to `location`.
pub fn see_other(location: &str) -> (r: Reply)
    ensures
        r@ == see_other_value(location@),
{
    Reply { status_code: 303, location: Some(String::from_str(location)), flash: None }
}

/// A piece of outside work that can fail.
#[derive(Debug, Clone, Copy, PartialEq, Eq, Structural)]
pub enum Operation {
    FindUserByEmail,
    StoreResetToken,
    SendResetEmail,
    QueryResetToken,
    ChangePassword,
    MarkTokenUsed,
    GetUsername,
    ValidateCredentials,
    AcquireConnection,
    InsertSubscriber,
    StoreSubscriptionToken,
    CommitSubscriber,
    SendConfirmationEmail,
    FetchSubscriberId,
    ConfirmSubscriber,
    StartIdempotentRequest,
    GetConfirmedSubscribers,
    SendNewsletterIssue,
    SaveResponse,
}

/// What the operator's log says of a failed operation.
pub open spec fn context_of(operation: Operation) -> Seq<char> {
    match operation {
        Operation::FindUserByEmail => "Failed to look the user up by email."@,
        Operation::StoreResetToken => "Failed to store the password reset token."@,
        Operation::SendResetEmail => "Failed to send the password reset email."@,
        Operation::QueryResetToken => "Failed to query password reset token"@,
        Operation::ChangePassword => "Failed to change user's password in the database."@,
        Operation::MarkTokenUsed => "Failed to mark token as used"@,
        Operation::GetUsername => "Failed to perform a query to retrieve a username."@,
        Operation::ValidateCredentials => "Failed to validate the credentials."@,
        Operation::AcquireConnection => "Failed to acquire a Postgres connection from the pool"@,
        Operation::InsertSubscriber => "Failed to insert new subscriber in the database."@,
        Operation::StoreSubscriptionToken =>
            "Failed to store the confirmation token for a new subscriber."@,
        Operation::CommitSubscriber => "Failed to commit SQL transaction to store a new subscriber."@,
        Operation::SendConfirmationEmail => "Failed to send a confirmation email."@,
        Operation::FetchSubscriberId => "Failed to fetch subscriber id from token."@,
        Operation::ConfirmSubscriber => "Failed to update subscriber status to `confirmed`."@,
        Operation::StartIdempotentRequest => "Failed to start processing the request."@,
        Operation::GetConfirmedSubscribers => "Failed to get the confirmed subscribers."@,
        Operation::SendNewsletterIssue => "Failed to send newsletter issue"@,
        Operation::SaveResponse => "Failed to save the response."@,
    }
}

impl Operation {
    /// What the operator's log says when this operation failed.
    pub fn context(&self) -> (r: &'static str)
        ensures
            r@ == context_of(*self),
    {
        match self {
            Operation::FindUserByEmail => "Failed to look the user up by email.",
            Operation::StoreResetToken => "Failed to store the password reset token.",
            Operation::SendResetEmail => "Failed to send the password reset email.",
            Operation::QueryResetToken => "Failed to query password reset token",
            Operation::ChangePassword => "Failed to change user's password in the database.",
            Operation::MarkTokenUsed => "Failed to mark token as used",
            Operation::GetUsername => "Failed to perform a query to retrieve a username.",
            Operation::ValidateCredentials => "Failed to validate the credentials.",
            Operation::AcquireConnection => "Failed to acquire a Postgres connection from the pool",
            Operation::InsertSubscriber => "Failed to insert new subscriber in the database.",
            Operation::StoreSubscriptionToken =>
                "Failed to store the confirmation token for a new subscriber.",
            Operation::CommitSubscriber =>
                "Failed to commit SQL transaction to store a new subscriber.",
            Operation::SendConfirmationEmail => "Failed to send a confirmation email.",
            Operation::FetchSubscriberId => "Failed to fetch subscriber id from token.",
            Operation::ConfirmSubscriber => "Failed to update subscriber status to `confirmed`.",
            Operation::StartIdempotentRequest => "Failed to start processing the request.",
            Operation::GetConfirmedSubscribers => "Failed to get the confirmed subscribers.",
            Operation::SendNewsletterIssue => "Failed to send newsletter issue",
            Operation::SaveResponse => "Failed to save the response.",
        }
    }
}

/// The outcome of a piece of outside work that failed. The cause stays
/// with the caller, who logs it.
#[derive(Debug, Clone, Copy, PartialEq, Eq, Structural)]
pub struct Failure;

/// What a handler does after a step: go on to the next piece of outside
/// work, answer the request, or fail with an error.
pub enum Step<S, E> {
    Continue(S),
    Respond(Reply),
    Fail(E),
}

/// The kinds of error that a handler can end with. The status of the
/// response depends on the kind alone.
#[derive(Debug, Clone, Copy, PartialEq, Eq, Structural)]
pub enum ErrorKind {
    /// Malformed input; the message says what is wrong and is safe to show.
    Validation,
    /// A reset token that cannot be redeemed, whatever the reason.
    InvalidToken,
    /// Missing or wrong credentials, or a token that nobody goes with.
    Unauthorized,
    /// The same request is being processed.
    Conflict,
    /// A failure of the store or the machinery; the user learns no detail.
    Unexpected,
}

/// The status for each kind of error.
pub open spec fn status_of(kind: ErrorKind) -> u16 {
    match kind {
        ErrorKind::Validation => 400,
        ErrorKind::InvalidToken => 400,
        ErrorKind::Unauthorized => 401,
        ErrorKind::Conflict => 409,
        ErrorKind::Unexpected => 500,
    }
}

impl ErrorKind {
    /// The status of the response for an error of this kind.
    pub fn status_code(&self) -> (r: u16)
        ensures
            r == status_of(*self),
            400 <= r < 600,
            r >= 500 <==> *self == ErrorKind::Unexpected,
    {
        match self {
            ErrorKind::Validation => 400,
            ErrorKind::InvalidToken => 400,
            ErrorKind::Unauthorized => 401,
            ErrorKind::Conflict => 409,
            ErrorKind::Unexpected => 500,
        }
    }
}

} // verus!
