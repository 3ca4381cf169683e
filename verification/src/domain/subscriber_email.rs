//! The address a subscriber or user gives.

use vstd::prelude::*;
use vstd::string::*;
use validator::ValidateEmail;

verus! {

/// Whether a text is an email address by the HTML5 rules, as the
/// `validator` crate decides it.
pub uninterp spec fn is_email_address(s: Seq<char>) -> bool;

/// `ValidateEmail::validate_email` checks the text against the HTML5 rules
/// for an email address; the answer depends on the text alone.
#[verifier::external_body]
pub(crate) fn validate_email(s: &String) -> (r: bool)
    ensures
        r == is_email_address(s@),
{
    ValidateEmail::validate_email(s)
}

/// The message that goes with a rejected address.
pub open spec fn email_rejection(s: Seq<char>) -> Seq<char> {
    s + " is not a valid subscriber email."@
}

/// An email address that passed validation.
#[derive(Debug)]
pub struct SubscriberEmail(String);

impl View for SubscriberEmail {
    type V = Seq<char>;

    closed spec fn view(&self) -> Seq<char> {
        self.0@
    }
}

impl SubscriberEmail {
    #[verifier::type_invariant]
    spec fn well_formed(&self) -> bool {
        is_email_address(self.0@)
    }

    /// Accepts `s` exactly when it is an email address; otherwise the error
    /// names the rejected input.
    pub fn parse(s: String) -> (r: Result<SubscriberEmail, String>)
        ensures
            r is Ok <==> is_email_address(s@),
            r matches Ok(email) ==> email@ == s@,
            r matches Err(message) ==> message@ == email_rejection(s@),
    {
        let valid = validate_email(&s);
        Self::from_validation(s, valid)
    }

    /// Wraps `s` where the validation said yes, and words the rejection
    /// where it said no.
    pub fn from_validation(s: String, valid: bool) -> (r: Result<SubscriberEmail, String>)
        requires
            valid ==> is_email_address(s@),
        ensures
            r is Ok <==> valid,
            r matches Ok(email) ==> email@ == s@,
            r matches Err(message) ==> message@ == email_rejection(s@),
    {
        if valid {
            Ok(SubscriberEmail(s))
        } else {
            let mut message = s;
            message.append(" is not a valid subscriber email.");
            Err(message)
        }
    }

    /// The address as an owned string.
    pub fn to_string(&self) -> (r: String)
        ensures
            r@ == self@,
    {
        self.0.clone()
    }

    /// The address's text.
    pub fn as_ref(&self) -> (r: &str)
        ensures
            r@ == self@,
            is_email_address(r@),
    {
        proof {
            use_type_invariant(self);
        }
        self.0.as_str()
    }
}

} // verus!
