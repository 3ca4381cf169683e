//! What is handed to the mail provider.

use vstd::prelude::*;
use vstd::string::*;
use crate::domain::subscriber_email::SubscriberEmail;

verus! {

/// A mail ready to be sent: subject and the two bodies.
#[derive(Debug)]
pub struct EmailContent {
    pub subject: String,
    pub html_body: String,
    pub text_body: String,
}

/// The path of the provider's endpoint for sending a mail.
pub const SEND_PATH: &'static str = "/email";

/// The header that carries the authorization token.
pub const TOKEN_HEADER: &'static str = "X-Postmark-Server-Token";

/// The body of the request that sends one mail.
#[derive(Debug)]
pub struct SendEmailRequest {
    pub from: String,
    pub to: String,
    pub subject: String,
    pub html_body: String,
    pub text_body: String,
}

/// Fills the request for one mail from the sender to the recipient.
pub fn send_email_request(
    sender: &SubscriberEmail,
    recipient: &SubscriberEmail,
    subject: &str,
    html_content: &str,
    text_content: &str,
) -> (r: SendEmailRequest)
    ensures
        r.from@ == sender@,
        r.to@ == recipient@,
        r.subject@ == subject@,
        r.html_body@ == html_content@,
        r.text_body@ == text_content@,
{
    SendEmailRequest {
        from: String::from_str(sender.as_ref()),
        to: String::from_str(recipient.as_ref()),
        subject: String::from_str(subject),
        html_body: String::from_str(html_content),
        text_body: String::from_str(text_content),
    }
}

} // verus!
