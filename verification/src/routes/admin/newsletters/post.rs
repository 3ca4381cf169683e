//! POST /admin/newsletters: send an issue to every confirmed subscriber,
//! once for each idempotency key.

use vstd::prelude::*;
use vstd::string::*;
use crate::authentication::middleware::UserId;
use crate::domain::subscriber_email::{email_rejection, is_email_address, SubscriberEmail};
use crate::idempotency::key::{key_rejection, IdempotencyKey, KeyRejection};
use crate::idempotency::persistence::{IdempotencyError, NextAction, SavedResponse};
use crate::text::texts;
use crate::utils::{
    flashed, see_other, see_other_value, status_of, ErrorKind, Failure, FlashMessage, Level,
    Operation, Reply, ReplyValue,
};

verus! {

/// The form of the request. The idempotency key travels in the form, since
/// a form submission cannot set headers.
pub struct FormData {
    pub title: String,
    pub html_content: String,
    pub text_content: String,
    pub idempotency_key: String,
}

/// Why publishing failed.
#[derive(Debug, Clone, Copy, PartialEq, Eq, Structural)]
pub enum PublishError {
    /// The request came without valid credentials: 401.
    AuthError,
    /// Outside work failed: 500.
    UnexpectedError(Operation),
}

/// The response to an error: its status and, for a failed authentication,
/// the challenge.
pub struct ErrorResponse {
    pub status_code: u16,
    pub www_authenticate: Option<String>,
}

/// The status that goes with each error.
pub open spec fn publish_status(e: PublishError) -> u16 {
    match e {
        PublishError::AuthError => 401,
        PublishError::UnexpectedError(_) => 500,
    }
}

/// The challenge that goes with each error.
pub open spec fn publish_challenge(e: PublishError) -> Option<Seq<char>> {
    match e {
        PublishError::AuthError => Some("Basic realm=\"publish\""@),
        PublishError::UnexpectedError(_) => None,
    }
}

/// The message of each error.
pub open spec fn publish_message(e: PublishError) -> Seq<char> {
    match e {
        PublishError::AuthError => "Authentication failed"@,
        PublishError::UnexpectedError(operation) => crate::utils::context_of(operation),
    }
}

impl PublishError {
    /// The response for this error: 401 with a `WWW-Authenticate` challenge
    /// for a failed authentication, 500 for the rest.
    pub fn error_response(&self) -> (r: ErrorResponse)
        ensures
            r.status_code == publish_status(*self),
            match publish_challenge(*self) {
                Some(challenge) => r.www_authenticate matches Some(value) && value@ == challenge,
                None => r.www_authenticate is None,
            },
    {
        match self {
            PublishError::UnexpectedError(_) => ErrorResponse {
                status_code: 500,
                www_authenticate: None,
            },
            PublishError::AuthError => ErrorResponse {
                status_code: 401,
                www_authenticate: Some(String::from_str("Basic realm=\"publish\"")),
            },
        }
    }

    /// The kind of this error.
    pub fn kind(&self) -> (r: ErrorKind)
        ensures
            r == (match *self {
                PublishError::AuthError => ErrorKind::Unauthorized,
                PublishError::UnexpectedError(_) => ErrorKind::Unexpected,
            }),
            status_of(r) == publish_status(*self),
    {
        match self {
            PublishError::AuthError => ErrorKind::Unauthorized,
            PublishError::UnexpectedError(_) => ErrorKind::Unexpected,
        }
    }

    /// The message of this error.
    pub fn to_string(&self) -> (r: String)
        ensures
            r@ == publish_message(*self),
    {
        match self {
            PublishError::AuthError => String::from_str("Authentication failed"),
            PublishError::UnexpectedError(operation) => String::from_str(operation.context()),
        }
    }
}

/// What is flashed when an issue went out.
pub open spec fn published_notice() -> Seq<char> {
    "The newsletter issue has been published!"@
}

/// The notice that an issue went out.
pub fn success_message() -> (r: FlashMessage)
    ensures
        r@ == (Level::Info, published_notice()),
{
    FlashMessage::info("The newsletter issue has been published!")
}

/// The reply to a request that was processed: a redirect to the form.
pub open spec fn published_reply() -> ReplyValue {
    see_other_value("/admin/newsletters"@)
}

/// The stored addresses that are still accepted, among the first `n`, in
/// their order.
pub open spec fn accepted(emails: Seq<Seq<char>>, n: int) -> Seq<Seq<char>>
    decreases n,
{
    if n <= 0 {
        Seq::<Seq<char>>::empty()
    } else if is_email_address(emails[n - 1]) {
        accepted(emails, n - 1).push(emails[n - 1])
    } else {
        accepted(emails, n - 1)
    }
}

/// The messages for the stored addresses that are no longer accepted,
/// among the first `n`, in their order.
pub open spec fn rejected(emails: Seq<Seq<char>>, n: int) -> Seq<Seq<char>>
    decreases n,
{
    if n <= 0 {
        Seq::<Seq<char>>::empty()
    } else if is_email_address(emails[n - 1]) {
        rejected(emails, n - 1)
    } else {
        rejected(emails, n - 1).push(email_rejection(emails[n - 1]))
    }
}

/// The texts of a vector of addresses.
pub open spec fn addresses(v: Seq<SubscriberEmail>) -> Seq<Seq<char>> {
    Seq::new(v.len(), |i: int| v[i]@)
}

/// The confirmed subscribers, split by whether their stored address is
/// still accepted.
pub struct ConfirmedSubscribers {
    /// Those to send to.
    pub valid: Vec<SubscriberEmail>,
    /// For each of the others, the message that names the address.
    pub skipped: Vec<String>,
}

/// Checks the stored addresses of the confirmed subscribers again: what was
/// valid when it was stored may not be now. The accepted ones are sent to,
/// the others are skipped with a message for the operator.
pub fn get_confirmed_subscribers(emails: Vec<String>) -> (r: ConfirmedSubscribers)
    ensures
        addresses(r.valid@) == accepted(texts(emails@), emails@.len() as int),
        texts(r.skipped@) == rejected(texts(emails@), emails@.len() as int),
{
    let mut valid: Vec<SubscriberEmail> = Vec::new();
    let mut skipped: Vec<String> = Vec::new();
    let mut i: usize = 0;
    assert(addresses(valid@) =~= accepted(texts(emails@), 0));
    assert(texts(skipped@) =~= rejected(texts(emails@), 0));
    while i < emails.len()
        invariant
            i <= emails.len(),
            addresses(valid@) == accepted(texts(emails@), i as int),
            texts(skipped@) == rejected(texts(emails@), i as int),
        decreases emails.len() - i,
    {
        let ghost before_valid = valid@;
        let ghost before_skipped = skipped@;
        assert(texts(emails@)[i as int] == emails@[i as int]@);
        match SubscriberEmail::parse(emails[i].clone()) {
            Ok(email) => {
                valid.push(email);
                assert(addresses(valid@) =~= addresses(before_valid).push(email@));
            },
            Err(message) => {
                skipped.push(message);
                assert(texts(skipped@) =~= texts(before_skipped).push(message@));
            },
        }
        i = i + 1;
    }
    ConfirmedSubscribers { valid, skipped }
}

/// The key was accepted; the request is to be started or replayed.
pub struct AwaitingStart {
    user_id: UserId,
    idempotency_key: IdempotencyKey,
    title: String,
    html_content: String,
    text_content: String,
}

/// The request was started; the confirmed subscribers are to be fetched.
pub struct AwaitingSubscribers {
    user_id: UserId,
    idempotency_key: IdempotencyKey,
    title: String,
    html_content: String,
    text_content: String,
}

/// The issue is going out: the recipient at `position` is next.
pub struct Delivery {
    user_id: UserId,
    idempotency_key: IdempotencyKey,
    title: String,
    html_content: String,
    text_content: String,
    recipients: Vec<SubscriberEmail>,
    position: usize,
}

/// The issue went out to everyone; the response is to be saved.
pub struct AwaitingSave {
    user_id: UserId,
    idempotency_key: IdempotencyKey,
}

/// What follows the start of a request.
pub enum Start {
    /// Process the request: fetch the subscribers.
    Process(AwaitingSubscribers),
    /// The request was processed before: answer with the saved response
    /// and the notice, and send nothing.
    Replay(SavedResponse, FlashMessage),
    /// The same request is being processed: answer 409 and send nothing.
    Conflict,
    /// The start failed: answer 500.
    Fail(Operation),
}

/// What follows a mail or the list of subscribers.
pub enum Progress {
    /// Send the issue to the next recipient.
    Send(Delivery),
    /// Every recipient was sent to: save the response.
    Done(AwaitingSave),
}

/// The first step: checks the idempotency key. A key that is turned down
/// ends the request with 400.
pub fn publish_newsletter(form: FormData, user_id: UserId) -> (r: Result<
    AwaitingStart,
    KeyRejection,
>)
    ensures
        r is Ok <==> key_rejection(form.idempotency_key@) is None,
        r matches Ok(next) ==> next.key() == form.idempotency_key@ && next.user_id() == user_id
            && next.title() == form.title@ && next.html_content() == form.html_content@
            && next.text_content() == form.text_content@,
        r matches Err(why) ==> key_rejection(form.idempotency_key@) == Some(why),
{
    match IdempotencyKey::try_from(form.idempotency_key) {
        Ok(idempotency_key) => Ok(
            AwaitingStart {
                user_id,
                idempotency_key,
                title: form.title,
                html_content: form.html_content,
                text_content: form.text_content,
            },
        ),
        Err(why) => Err(why),
    }
}

impl AwaitingStart {
    /// The user who publishes.
    pub closed spec fn user_id(&self) -> UserId {
        self.user_id
    }

    /// The idempotency key of the request.
    pub closed spec fn key(&self) -> Seq<char> {
        self.idempotency_key@
    }

    /// The title of the issue.
    pub closed spec fn title(&self) -> Seq<char> {
        self.title@
    }

    /// The HTML body of the issue.
    pub closed spec fn html_content(&self) -> Seq<char> {
        self.html_content@
    }

    /// The plain body of the issue.
    pub closed spec fn text_content(&self) -> Seq<char> {
        self.text_content@
    }

    /// The user to start the request for.
    pub fn user(&self) -> (r: UserId)
        ensures
            r == self.user_id(),
    {
        self.user_id
    }

    /// The key to start the request under.
    pub fn idempotency_key(&self) -> (r: &IdempotencyKey)
        ensures
            r@ == self.key(),
    {
        &self.idempotency_key
    }

    /// The second step, on the outcome of the start. Only a request that
    /// was started goes on to send; a replayed one returns what was saved.
    pub fn on_started(self, outcome: Result<Result<NextAction, IdempotencyError>, Failure>) -> (r:
        Start)
        ensures
            match outcome {
                Err(_) => r matches Start::Fail(operation) && operation
                    == Operation::StartIdempotentRequest,
                Ok(Err(IdempotencyError::InFlight)) => r is Conflict,
                Ok(Err(IdempotencyError::NotProcessing)) => r matches Start::Fail(operation)
                    && operation == Operation::StartIdempotentRequest,
                Ok(Ok(NextAction::ReturnSavedResponse(saved))) => r matches Start::Replay(
                    response,
                    notice,
                ) && response@ == saved@ && notice@ == (Level::Info, published_notice()),
                Ok(Ok(NextAction::StartProcessing)) => r matches Start::Process(next)
                    && next.user_id() == self.user_id() && next.key() == self.key() && next.title()
                    == self.title() && next.html_content() == self.html_content()
                    && next.text_content() == self.text_content(),
            },
    {
        match outcome {
            Err(_) => Start::Fail(Operation::StartIdempotentRequest),
            Ok(Err(IdempotencyError::InFlight)) => Start::Conflict,
            Ok(Err(IdempotencyError::NotProcessing)) => Start::Fail(
                Operation::StartIdempotentRequest,
            ),
            Ok(Ok(NextAction::ReturnSavedResponse(saved))) => Start::Replay(saved, success_message()),
            Ok(Ok(NextAction::StartProcessing)) => Start::Process(
                AwaitingSubscribers {
                    user_id: self.user_id,
                    idempotency_key: self.idempotency_key,
                    title: self.title,
                    html_content: self.html_content,
                    text_content: self.text_content,
                },
            ),
        }
    }
}

impl AwaitingSubscribers {
    /// The user who publishes.
    pub closed spec fn user_id(&self) -> UserId {
        self.user_id
    }

    /// The idempotency key of the request.
    pub closed spec fn key(&self) -> Seq<char> {
        self.idempotency_key@
    }

    /// The title of the issue.
    pub closed spec fn title(&self) -> Seq<char> {
        self.title@
    }

    /// The HTML body of the issue.
    pub closed spec fn html_content(&self) -> Seq<char> {
        self.html_content@
    }

    /// The plain body of the issue.
    pub closed spec fn text_content(&self) -> Seq<char> {
        self.text_content@
    }

    /// The third step, on the stored addresses of the confirmed
    /// subscribers: the issue goes to those whose address is still
    /// accepted, in their order, and the others are skipped. A failed fetch
    /// ends the request with 500.
    pub fn on_subscribers(self, fetched: Result<Vec<String>, Failure>) -> (r: Result<
        (Progress, Vec<String>),
        Operation,
    >)
        ensures
            r is Ok <==> fetched is Ok,
            r matches Err(operation) ==> operation == Operation::GetConfirmedSubscribers,
            r matches Ok(next) ==> texts(next.1@) == rejected(
                texts(fetched->Ok_0@),
                fetched->Ok_0@.len() as int,
            ) && match next.0 {
                Progress::Send(delivery) => delivery.remaining() == accepted(
                    texts(fetched->Ok_0@),
                    fetched->Ok_0@.len() as int,
                ) && delivery.user_id() == self.user_id() && delivery.key() == self.key()
                    && delivery.title() == self.title() && delivery.html_content()
                    == self.html_content() && delivery.text_content() == self.text_content(),
                Progress::Done(save) => accepted(
                    texts(fetched->Ok_0@),
                    fetched->Ok_0@.len() as int,
                ).len() == 0 && save.user_id() == self.user_id() && save.key() == self.key(),
            },
    {
        let emails = match fetched {
            Ok(emails) => emails,
            Err(_) => {
                return Err(Operation::GetConfirmedSubscribers);
            },
        };
        let subscribers = get_confirmed_subscribers(emails);
        let recipients = subscribers.valid;
        if recipients.len() == 0 {
            Ok(
                (
                    Progress::Done(
                        AwaitingSave { user_id: self.user_id, idempotency_key: self.idempotency_key },
                    ),
                    subscribers.skipped,
                ),
            )
        } else {
            let delivery = Delivery {
                user_id: self.user_id,
                idempotency_key: self.idempotency_key,
                title: self.title,
                html_content: self.html_content,
                text_content: self.text_content,
                recipients,
                position: 0,
            };
            assert(delivery.remaining() =~= addresses(recipients@));
            Ok((Progress::Send(delivery), subscribers.skipped))
        }
    }
}

impl Delivery {
    #[verifier::type_invariant]
    spec fn well_formed(&self) -> bool {
        self.position < self.recipients@.len()
    }

    /// The user who publishes.
    pub closed spec fn user_id(&self) -> UserId {
        self.user_id
    }

    /// The idempotency key of the request.
    pub closed spec fn key(&self) -> Seq<char> {
        self.idempotency_key@
    }

    /// The title of the issue.
    pub closed spec fn title(&self) -> Seq<char> {
        self.title@
    }

    /// The HTML body of the issue.
    pub closed spec fn html_content(&self) -> Seq<char> {
        self.html_content@
    }

    /// The plain body of the issue.
    pub closed spec fn text_content(&self) -> Seq<char> {
        self.text_content@
    }

    /// The addresses that the issue has yet to go to, the next one first.
    pub closed spec fn remaining(&self) -> Seq<Seq<char>> {
        addresses(self.recipients@).subrange(
            self.position as int,
            self.recipients@.len() as int,
        )
    }

    /// The address to send the issue to now.
    pub fn recipient(&self) -> (r: &SubscriberEmail)
        ensures
            self.remaining().len() > 0,
            r@ == self.remaining()[0],
    {
        proof {
            use_type_invariant(self);
        }
        &self.recipients[self.position]
    }

    /// The title of the issue, for the mail's subject.
    pub fn subject(&self) -> (r: &str)
        ensures
            r@ == self.title(),
    {
        self.title.as_str()
    }

    /// The HTML body of the mail.
    pub fn html_body(&self) -> (r: &str)
        ensures
            r@ == self.html_content(),
    {
        self.html_content.as_str()
    }

    /// The plain body of the mail.
    pub fn text_body(&self) -> (r: &str)
        ensures
            r@ == self.text_content(),
    {
        self.text_content.as_str()
    }

    /// The next step, on the outcome of one mail. A mail that failed ends
    /// the request with 500, and the response is not saved, so that a retry
    /// processes the request again. A mail that went out leads to the next
    /// recipient, and after the last to saving the response.
    pub fn on_sent(self, sent: Result<(), Failure>) -> (r: Result<Progress, Operation>)
        ensures
            self.remaining().len() > 0,
            r is Ok <==> sent is Ok,
            r matches Err(operation) ==> operation == Operation::SendNewsletterIssue,
            r matches Ok(next) ==> match next {
                Progress::Send(delivery) => delivery.remaining() == self.remaining().drop_first()
                    && delivery.remaining().len() > 0 && delivery.user_id() == self.user_id()
                    && delivery.key() == self.key() && delivery.title() == self.title()
                    && delivery.html_content() == self.html_content() && delivery.text_content()
                    == self.text_content(),
                Progress::Done(save) => self.remaining().len() == 1 && save.user_id()
                    == self.user_id() && save.key() == self.key(),
            },
    {
        proof {
            use_type_invariant(&self);
        }
        match sent {
            Err(_) => Err(Operation::SendNewsletterIssue),
            Ok(_) => {
                let count = self.recipients.len();
                if self.position + 1 < count {
                    let next = Delivery {
                        user_id: self.user_id,
                        idempotency_key: self.idempotency_key,
                        title: self.title,
                        html_content: self.html_content,
                        text_content: self.text_content,
                        recipients: self.recipients,
                        position: self.position + 1,
                    };
                    assert(next.remaining() =~= self.remaining().drop_first());
                    Ok(Progress::Send(next))
                } else {
                    Ok(
                        Progress::Done(
                            AwaitingSave {
                                user_id: self.user_id,
                                idempotency_key: self.idempotency_key,
                            },
                        ),
                    )
                }
            },
        }
    }
}

impl AwaitingSave {
    /// The user who publishes.
    pub closed spec fn user_id(&self) -> UserId {
        self.user_id
    }

    /// The idempotency key of the request.
    pub closed spec fn key(&self) -> Seq<char> {
        self.idempotency_key@
    }

    /// The user to save the response for.
    pub fn user(&self) -> (r: UserId)
        ensures
            r == self.user_id(),
    {
        self.user_id
    }

    /// The key to save the response under.
    pub fn idempotency_key(&self) -> (r: &IdempotencyKey)
        ensures
            r@ == self.key(),
    {
        &self.idempotency_key
    }

    /// The response of the request, which is saved and then returned: a
    /// redirect to the form, with the notice to flash.
    pub fn response(&self) -> (r: Reply)
        ensures
            r@ == flashed(published_reply(), Level::Info, published_notice()),
    {
        see_other("/admin/newsletters").with_flash(success_message())
    }

    /// The last step, on the outcome of saving the response: the response
    /// itself, or 500 where it could not be saved.
    pub fn on_saved(self, saved: Result<(), Failure>) -> (r: Result<Reply, Operation>)
        ensures
            r is Ok <==> saved is Ok,
            r matches Ok(reply) ==> reply@ == flashed(
                published_reply(),
                Level::Info,
                published_notice(),
            ),
            r matches Err(operation) ==> operation == Operation::SaveResponse,
    {
        match saved {
            Ok(_) => Ok(self.response()),
            Err(_) => Err(Operation::SaveResponse),
        }
    }
}

} // verus!
