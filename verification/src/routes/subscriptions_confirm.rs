//! GET /subscriptions/confirm: confirm a pending subscriber.

use vstd::prelude::*;
use vstd::string::*;
use crate::domain::subscription_token::{
    is_subscription_token, subscription_token_rejection, SubscriptionToken,
};
use crate::utils::{ok_value, status_of, ErrorKind, Failure, Operation, Reply};

verus! {

/// The query of the request.
pub struct Parameters {
    pub subscription_token: String,
}

/// Why a confirmation failed.
#[derive(Debug)]
pub enum ConfirmError {
    /// No subscriber goes with the token: 401.
    UnknownToken,
    /// The token is malformed: 400, with a message that names it.
    ValidationError(String),
    /// Outside work failed: 500.
    UnexpectedError(Operation),
}

/// The status that goes with each error.
pub open spec fn confirm_status(e: ConfirmError) -> u16 {
    match e {
        ConfirmError::UnknownToken => 401,
        ConfirmError::ValidationError(_) => 400,
        ConfirmError::UnexpectedError(_) => 500,
    }
}

/// The message of each error.
pub open spec fn confirm_message(e: ConfirmError) -> Seq<char> {
    match e {
        ConfirmError::UnknownToken => "No subscriber associated with the provided token."@,
        ConfirmError::ValidationError(message) => message@,
        ConfirmError::UnexpectedError(operation) => crate::utils::context_of(operation),
    }
}

impl ConfirmError {
    /// The status of the response for this error.
    pub fn status_code(&self) -> (r: u16)
        ensures
            r == confirm_status(*self),
    {
        match self {
            ConfirmError::UnknownToken => 401,
            ConfirmError::ValidationError(_) => 400,
            ConfirmError::UnexpectedError(_) => 500,
        }
    }

    /// The kind of this error.
    pub fn kind(&self) -> (r: ErrorKind)
        ensures
            r == (match *self {
                ConfirmError::UnknownToken => ErrorKind::Unauthorized,
                ConfirmError::ValidationError(_) => ErrorKind::Validation,
                ConfirmError::UnexpectedError(_) => ErrorKind::Unexpected,
            }),
            status_of(r) == confirm_status(*self),
    {
        match self {
            ConfirmError::UnknownToken => ErrorKind::Unauthorized,
            ConfirmError::ValidationError(_) => ErrorKind::Validation,
            ConfirmError::UnexpectedError(_) => ErrorKind::Unexpected,
        }
    }

    /// The message of this error.
    pub fn to_string(&self) -> (r: String)
        ensures
            r@ == confirm_message(*self),
    {
        match self {
            ConfirmError::UnknownToken => String::from_str(
                "No subscriber associated with the provided token.",
            ),
            ConfirmError::ValidationError(message) => message.clone(),
            ConfirmError::UnexpectedError(operation) => String::from_str(operation.context()),
        }
    }
}

/// The token was accepted; the subscriber that it belongs to is to be
/// looked up.
pub struct AwaitingSubscriber {
    subscription_token: SubscriptionToken,
}

/// The subscriber is known and is to be marked as confirmed.
pub struct AwaitingConfirmation {
    subscriber_id: u128,
}

/// The first step: checks the token's format.
pub fn confirm(parameters: &Parameters) -> (r: Result<AwaitingSubscriber, ConfirmError>)
    ensures
        r is Ok <==> is_subscription_token(parameters.subscription_token@),
        r matches Ok(next) ==> next.token() == parameters.subscription_token@,
        r matches Err(e) ==> e matches ConfirmError::ValidationError(message) && message@
            == subscription_token_rejection(parameters.subscription_token@),
{
    match SubscriptionToken::parse(parameters.subscription_token.clone()) {
        Ok(subscription_token) => Ok(AwaitingSubscriber { subscription_token }),
        Err(message) => Err(ConfirmError::ValidationError(message)),
    }
}

impl AwaitingSubscriber {
    /// The token of the request.
    pub closed spec fn token(&self) -> Seq<char> {
        self.subscription_token@
    }

    /// The token to look the subscriber up by.
    pub fn subscription_token(&self) -> (r: &SubscriptionToken)
        ensures
            r@ == self.token(),
    {
        &self.subscription_token
    }

    /// The second step, on the outcome of the lookup: a token that no
    /// subscriber goes with ends the request with 401, a failed lookup
    /// with 500.
    pub fn on_subscriber(self, lookup: Result<Option<u128>, Failure>) -> (r: Result<
        AwaitingConfirmation,
        ConfirmError,
    >)
        ensures
            match lookup {
                Ok(Some(id)) => r matches Ok(next) && next.subscriber() == id,
                Ok(None) => r matches Err(ConfirmError::UnknownToken),
                Err(_) => r matches Err(ConfirmError::UnexpectedError(operation)) && operation
                    == Operation::FetchSubscriberId,
            },
    {
        match lookup {
            Ok(Some(subscriber_id)) => Ok(AwaitingConfirmation { subscriber_id }),
            Ok(None) => Err(ConfirmError::UnknownToken),
            Err(_) => Err(ConfirmError::UnexpectedError(Operation::FetchSubscriberId)),
        }
    }
}

impl AwaitingConfirmation {
    /// The subscriber that the token belongs to.
    pub closed spec fn subscriber(&self) -> u128 {
        self.subscriber_id
    }

    /// The subscriber to mark as confirmed.
    pub fn subscriber_id(&self) -> (r: u128)
        ensures
            r == self.subscriber(),
    {
        self.subscriber_id
    }

    /// The last step, on the outcome of the update: 200, or 500 where it
    /// failed.
    pub fn on_confirmed(self, updated: Result<(), Failure>) -> (r: Result<Reply, ConfirmError>)
        ensures
            r is Ok <==> updated is Ok,
            r matches Ok(reply) ==> reply@ == ok_value(),
            r matches Err(e) ==> e matches ConfirmError::UnexpectedError(operation) && operation
                == Operation::ConfirmSubscriber,
    {
        match updated {
            Ok(_) => Ok(Reply::ok()),
            Err(_) => Err(ConfirmError::UnexpectedError(Operation::ConfirmSubscriber)),
        }
    }
}

} // verus!
