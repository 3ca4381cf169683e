//! POST /subscriptions: take a new subscriber and mail the confirmation
//! link.

use vstd::prelude::*;
use vstd::string::*;
use crate::domain::new_subscriber::NewSubscriber;
use crate::domain::subscriber_email::{email_rejection, is_email_address, SubscriberEmail};
use crate::domain::subscriber_name::{is_subscriber_name, name_rejection, SubscriberName};
use crate::domain::subscription_token::{is_subscription_token, SubscriptionToken};
use crate::email_client::EmailContent;
use crate::utils::{context_of, ok_value, status_of, ErrorKind, Failure, Operation, Reply, Step};
use crate::text::texts;

verus! {

/// The form of the request.
pub struct FormData {
    pub email: String,
    pub name: String,
}

/// What the form comes to: the name is checked first, then the address,
/// and the first that fails gives the message.
pub open spec fn form_rejection(name: Seq<char>, email: Seq<char>) -> Option<Seq<char>> {
    if !is_subscriber_name(name) {
        Some(name_rejection(name))
    } else if !is_email_address(email) {
        Some(email_rejection(email))
    } else {
        None
    }
}

impl NewSubscriber {
    /// Accepts a form whose name and address are both accepted; otherwise
    /// returns the message of the first that is not, the name first.
    pub fn try_from(value: FormData) -> (r: Result<NewSubscriber, String>)
        ensures
            r is Ok <==> form_rejection(value.name@, value.email@) is None,
            r matches Ok(subscriber) ==> subscriber.name@ == value.name@ && subscriber.email@
                == value.email@,
            r matches Err(message) ==> form_rejection(value.name@, value.email@) == Some(message@),
    {
        let name = match SubscriberName::parse(value.name) {
            Ok(name) => name,
            Err(message) => {
                return Err(message);
            },
        };
        let email = match SubscriberEmail::parse(value.email) {
            Ok(email) => email,
            Err(message) => {
                return Err(message);
            },
        };
        Ok(NewSubscriber { email, name })
    }
}

/// Why a subscription failed.
#[derive(Debug)]
pub enum SubscribeError {
    /// The form was turned down: 400, with the reason.
    ValidationError(String),
    /// Outside work failed: 500.
    UnexpectedError(Operation),
}

/// The status that goes with each error.
pub open spec fn subscribe_status(e: SubscribeError) -> u16 {
    match e {
        SubscribeError::ValidationError(_) => 400,
        SubscribeError::UnexpectedError(_) => 500,
    }
}

/// The message of each error.
pub open spec fn subscribe_message(e: SubscribeError) -> Seq<char> {
    match e {
        SubscribeError::ValidationError(message) => message@,
        SubscribeError::UnexpectedError(operation) => context_of(operation),
    }
}

impl SubscribeError {
    /// The status of the response for this error.
    pub fn status_code(&self) -> (r: u16)
        ensures
            r == subscribe_status(*self),
    {
        match self {
            SubscribeError::ValidationError(_) => 400,
            SubscribeError::UnexpectedError(_) => 500,
        }
    }

    /// The kind of this error.
    pub fn kind(&self) -> (r: ErrorKind)
        ensures
            r == (match *self {
                SubscribeError::ValidationError(_) => ErrorKind::Validation,
                SubscribeError::UnexpectedError(_) => ErrorKind::Unexpected,
            }),
            status_of(r) == subscribe_status(*self),
    {
        match self {
            SubscribeError::ValidationError(_) => ErrorKind::Validation,
            SubscribeError::UnexpectedError(_) => ErrorKind::Unexpected,
        }
    }

    /// The message of this error.
    pub fn to_string(&self) -> (r: String)
        ensures
            r@ == subscribe_message(*self),
    {
        match self {
            SubscribeError::ValidationError(message) => message.clone(),
            SubscribeError::UnexpectedError(operation) => String::from_str(operation.context()),
        }
    }
}

/// The error of a subscription token that could not be stored.
#[derive(Debug, Clone, Copy, PartialEq, Eq, Structural)]
pub struct StoreTokenError(pub Failure);

impl StoreTokenError {
    /// The message of this error.
    pub fn to_string(&self) -> (r: String)
        ensures
            r@ == "A database error was encountered while trying to store a subscription token."@,
    {
        String::from_str(
            "A database error was encountered while trying to store a subscription token.",
        )
    }
}

/// The lines that name the causes from position `from` on: for each cause
/// `Caused by:`, a line break, a tab, the cause and a line break.
pub open spec fn cause_lines(causes: Seq<Seq<char>>, from: int) -> Seq<char>
    decreases causes.len() - from,
{
    if from < 0 || from >= causes.len() {
        Seq::<char>::empty()
    } else {
        "Caused by:\n\t"@ + causes[from] + "\n"@ + cause_lines(causes, from + 1)
    }
}

/// The report of an error and its chain of causes: the error's message, an
/// empty line, then the causes, outermost first.
pub open spec fn error_chain(message: Seq<char>, causes: Seq<Seq<char>>) -> Seq<char> {
    message + "\n\n"@ + cause_lines(causes, 0)
}

/// Writes an error and the chain of its causes for the operator's log.
pub fn error_chain_fmt(message: &str, causes: &Vec<String>) -> (r: String)
    ensures
        r@ == error_chain(message@, texts(causes@)),
{
    let mut out = String::from_str(message);
    out.append("\n\n");
    let mut i: usize = 0;
    proof {
        lemma_cause_lines_end(texts(causes@));
    }
    while i < causes.len()
        invariant
            i <= causes.len(),
            out@ + cause_lines(texts(causes@), i as int) == error_chain(message@, texts(causes@)),
        decreases causes.len() - i,
    {
        let ghost before = out@;
        out.append("Caused by:\n\t");
        out.append(causes[i].as_str());
        out.append("\n");
        proof {
            let all = texts(causes@);
            assert(all[i as int] == causes@[i as int]@);
            assert(cause_lines(all, i as int) == "Caused by:\n\t"@ + all[i as int] + "\n"@
                + cause_lines(all, i + 1));
            assert(out@ + cause_lines(all, i + 1) =~= before + cause_lines(all, i as int));
        }
        i = i + 1;
    }
    proof {
        assert(cause_lines(texts(causes@), i as int) =~= Seq::<char>::empty());
        assert(out@ + Seq::<char>::empty() =~= out@);
    }
    out
}

/// Past the last cause there are no lines.
pub proof fn lemma_cause_lines_end(causes: Seq<Seq<char>>)
    ensures
        cause_lines(causes, causes.len() as int) == Seq::<char>::empty(),
{
}

/// The link that confirms a subscription.
pub open spec fn confirmation_link(base_url: Seq<char>, token: Seq<char>) -> Seq<char> {
    base_url + "/subscriptions/confirm?subscription_token="@ + token
}

/// The HTML body of the welcome mail.
pub open spec fn welcome_html_body(link: Seq<char>) -> Seq<char> {
    "Welcome to our newsletter!<br />Click <a href=\""@ + link
        + "\">here</a> to confirm your subscription."@
}

/// The plain body of the welcome mail.
pub open spec fn welcome_plain_body(link: Seq<char>) -> Seq<char> {
    "Welcome to our newsletter!\nVisit "@ + link + " to confirm your subscription."@
}

/// Composes the mail that carries the confirmation link: the base URL, the
/// path of the confirmation and the token.
pub fn send_confirmation_email(base_url: &str, subscription_token: &SubscriptionToken) -> (r:
    EmailContent)
    ensures
        r.subject@ == "Welcome!"@,
        r.html_body@ == welcome_html_body(confirmation_link(base_url@, subscription_token@)),
        r.text_body@ == welcome_plain_body(confirmation_link(base_url@, subscription_token@)),
{
    let mut link = String::from_str(base_url);
    link.append("/subscriptions/confirm?subscription_token=");
    link.append(subscription_token.as_ref());
    let mut html_body = String::from_str("Welcome to our newsletter!<br />Click <a href=\"");
    html_body.append(link.as_str());
    html_body.append("\">here</a> to confirm your subscription.");
    let mut text_body = String::from_str("Welcome to our newsletter!\nVisit ");
    text_body.append(link.as_str());
    text_body.append(" to confirm your subscription.");
    EmailContent { subject: String::from_str("Welcome!"), html_body, text_body }
}

/// The outside work of a subscription, in its order.
#[derive(Debug, Clone, Copy, PartialEq, Eq, Structural)]
pub enum Stage {
    /// Open a transaction.
    Begin,
    /// Insert the subscriber, pending confirmation.
    InsertSubscriber,
    /// Store the token for the subscriber.
    StoreToken,
    /// Commit the transaction.
    Commit,
    /// Send the welcome mail.
    SendEmail,
}

/// The work that follows a stage, or `None` after the last.
pub open spec fn stage_after(stage: Stage) -> Option<Stage> {
    match stage {
        Stage::Begin => Some(Stage::InsertSubscriber),
        Stage::InsertSubscriber => Some(Stage::StoreToken),
        Stage::StoreToken => Some(Stage::Commit),
        Stage::Commit => Some(Stage::SendEmail),
        Stage::SendEmail => None,
    }
}

/// The operation that is reported when a stage fails.
pub open spec fn operation_of(stage: Stage) -> Operation {
    match stage {
        Stage::Begin => Operation::AcquireConnection,
        Stage::InsertSubscriber => Operation::InsertSubscriber,
        Stage::StoreToken => Operation::StoreSubscriptionToken,
        Stage::Commit => Operation::CommitSubscriber,
        Stage::SendEmail => Operation::SendConfirmationEmail,
    }
}

/// A subscription under way: the subscriber, the token drawn for the
/// confirmation link, and the work that is to be done next.
pub struct Subscription {
    new_subscriber: NewSubscriber,
    subscription_token: SubscriptionToken,
    stage: Stage,
}

/// The first step: checks the form and draws the token. A form that is
/// turned down ends the request with 400; no outside work is done for it.
pub fn subscribe(form: FormData) -> (r: Result<Subscription, SubscribeError>)
    ensures
        r is Ok <==> form_rejection(form.name@, form.email@) is None,
        r matches Ok(next) ==> next.stage() == Stage::Begin && next.name() == form.name@
            && next.email() == form.email@ && is_subscription_token(next.token()),
        r matches Err(e) ==> e matches SubscribeError::ValidationError(message) && Some(message@)
            == form_rejection(form.name@, form.email@),
{
    match NewSubscriber::try_from(form) {
        Ok(new_subscriber) => Ok(
            Subscription {
                new_subscriber,
                subscription_token: SubscriptionToken::default(),
                stage: Stage::Begin,
            },
        ),
        Err(message) => Err(SubscribeError::ValidationError(message)),
    }
}

impl Subscription {
    /// The work that is to be done next.
    pub closed spec fn stage(&self) -> Stage {
        self.stage
    }

    /// The subscriber's name.
    pub closed spec fn name(&self) -> Seq<char> {
        self.new_subscriber.name@
    }

    /// The subscriber's address.
    pub closed spec fn email(&self) -> Seq<char> {
        self.new_subscriber.email@
    }

    /// The token of the confirmation link.
    pub closed spec fn token(&self) -> Seq<char> {
        self.subscription_token@
    }

    /// The work to do now.
    pub fn next(&self) -> (r: Stage)
        ensures
            r == self.stage(),
    {
        self.stage
    }

    /// The subscriber to insert and to write to.
    pub fn new_subscriber(&self) -> (r: &NewSubscriber)
        ensures
            r.name@ == self.name(),
            r.email@ == self.email(),
    {
        &self.new_subscriber
    }

    /// The token to store and to mail.
    pub fn subscription_token(&self) -> (r: &SubscriptionToken)
        ensures
            r@ == self.token(),
    {
        &self.subscription_token
    }

    /// The welcome mail, with the link that holds the token.
    pub fn mail(&self, base_url: &str) -> (r: EmailContent)
        ensures
            r.subject@ == "Welcome!"@,
            r.html_body@ == welcome_html_body(confirmation_link(base_url@, self.token())),
            r.text_body@ == welcome_plain_body(confirmation_link(base_url@, self.token())),
    {
        send_confirmation_email(base_url, &self.subscription_token)
    }

    /// The next step, on the outcome of the work that was due. A failure
    /// ends the request with 500 and names the work; a success leads to
    /// the work after it, and after the last to 200. The subscriber is
    /// committed before the mail is sent.
    pub fn advance(self, outcome: Result<(), Failure>) -> (r: Step<Subscription, SubscribeError>)
        ensures
            match outcome {
                Err(_) => r matches Step::Fail(SubscribeError::UnexpectedError(operation))
                    && operation == operation_of(self.stage()),
                Ok(_) => match stage_after(self.stage()) {
                    Some(stage) => r matches Step::Continue(next) && next.stage() == stage
                        && next.name() == self.name() && next.email() == self.email()
                        && next.token() == self.token(),
                    None => r matches Step::Respond(reply) && reply@ == ok_value(),
                },
            },
    {
        let (operation, after) = match self.stage {
            Stage::Begin => (Operation::AcquireConnection, Some(Stage::InsertSubscriber)),
            Stage::InsertSubscriber => (Operation::InsertSubscriber, Some(Stage::StoreToken)),
            Stage::StoreToken => (Operation::StoreSubscriptionToken, Some(Stage::Commit)),
            Stage::Commit => (Operation::CommitSubscriber, Some(Stage::SendEmail)),
            Stage::SendEmail => (Operation::SendConfirmationEmail, None),
        };
        match outcome {
            Err(_) => Step::Fail(SubscribeError::UnexpectedError(operation)),
            Ok(_) => match after {
                Some(stage) => Step::Continue(
                    Subscription {
                        new_subscriber: self.new_subscriber,
                        subscription_token: self.subscription_token,
                        stage,
                    },
                ),
                None => Step::Respond(Reply::ok()),
            },
        }
    }
}

} // verus!
