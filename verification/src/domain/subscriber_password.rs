//! The password a user chooses.

use vstd::prelude::*;
use vstd::string::*;
use vstd::utf8::is_ascii_chars;
use crate::secret::{secret_text, SecretText};
use crate::text::{all_whitespace, is_blank};

verus! {

/// Shortest accepted password, in characters.
pub const PASSWORD_MIN_LENGTH: usize = 8;

/// Longest accepted password, in characters.
pub const PASSWORD_MAX_LENGTH: usize = 128;

/// Why a password was turned down. The checks run in this order, and the
/// first that fails decides.
#[derive(Debug, Clone, Copy, PartialEq, Eq, Structural)]
pub enum PasswordRejection {
    /// Empty, or nothing but whitespace.
    Blank,
    /// Holds a character outside ASCII.
    NotAscii,
    /// Fewer than 8 characters.
    TooShort,
    /// More than 128 characters.
    TooLong,
}

/// The policy: what, if anything, is wrong with the text `s`.
pub open spec fn password_rejection(s: Seq<char>) -> Option<PasswordRejection> {
    if all_whitespace(s) {
        Some(PasswordRejection::Blank)
    } else if !is_ascii_chars(s) {
        Some(PasswordRejection::NotAscii)
    } else if s.len() < PASSWORD_MIN_LENGTH {
        Some(PasswordRejection::TooShort)
    } else if s.len() > PASSWORD_MAX_LENGTH {
        Some(PasswordRejection::TooLong)
    } else {
        None
    }
}

/// A password meets the policy: ASCII only, 8 to 128 characters, not blank.
pub open spec fn is_acceptable_password(s: Seq<char>) -> bool {
    password_rejection(s) is None
}

/// The message shown to the user for each rejection.
pub open spec fn rejection_message(why: PasswordRejection) -> Seq<char> {
    match why {
        PasswordRejection::Blank => "Password cannot be empty or only whitespace."@,
        PasswordRejection::NotAscii => "Password must contain ASCII characters only"@,
        PasswordRejection::TooShort => "Password must be 8 characters or longer."@,
        PasswordRejection::TooLong => "Password must be 128 characters or shorter."@,
    }
}

impl PasswordRejection {
    /// The user-facing message for this rejection.
    pub fn message(&self) -> (r: &'static str)
        ensures
            r@ == rejection_message(*self),
    {
        match self {
            PasswordRejection::Blank => "Password cannot be empty or only whitespace.",
            PasswordRejection::NotAscii => "Password must contain ASCII characters only",
            PasswordRejection::TooShort => "Password must be 8 characters or longer.",
            PasswordRejection::TooLong => "Password must be 128 characters or shorter.",
        }
    }
}

/// Checks a candidate text against the password policy.
pub fn check_password(s: &str) -> (r: Option<PasswordRejection>)
    ensures
        r == password_rejection(s@),
{
    if is_blank(s) {
        return Some(PasswordRejection::Blank);
    }
    if !s.is_ascii() {
        return Some(PasswordRejection::NotAscii);
    }
    proof {
        is_ascii_spec_bytes(s);
    }
    let n = s.as_bytes().len();
    if n < PASSWORD_MIN_LENGTH {
        return Some(PasswordRejection::TooShort);
    }
    if n > PASSWORD_MAX_LENGTH {
        return Some(PasswordRejection::TooLong);
    }
    None
}

/// A password that meets the policy. It stays sealed until it is hashed.
pub struct SubscriberPassword(SecretText);

impl View for SubscriberPassword {
    type V = Seq<char>;

    closed spec fn view(&self) -> Seq<char> {
        secret_text(self.0)
    }
}

impl SubscriberPassword {
    #[verifier::type_invariant]
    spec fn well_formed(&self) -> bool {
        is_acceptable_password(secret_text(self.0))
    }

    /// Accepts the secret exactly when its text meets the policy; otherwise
    /// returns the message of the first check that failed.
    pub fn parse(s: SecretText) -> (r: Result<Self, &'static str>)
        ensures
            r is Ok <==> is_acceptable_password(secret_text(s)),
            r matches Ok(password) ==> password@ == secret_text(s),
            r matches Err(message) ==> password_rejection(secret_text(s)) matches Some(why)
                && message@ == rejection_message(why),
    {
        let verdict = check_password(s.expose_secret());
        match verdict {
            Some(why) => Err(why.message()),
            None => Ok(SubscriberPassword(s)),
        }
    }

    /// The password's text.
    pub fn expose(&self) -> (r: &str)
        ensures
            r@ == self@,
            is_acceptable_password(r@),
    {
        proof {
            use_type_invariant(self);
        }
        self.0.expose_secret()
    }
}

/// The policy in one sentence: a password is accepted exactly when it is
/// not blank, holds ASCII characters only and has 8 to 128 of them. The
/// two bounds themselves are accepted.
pub proof fn lemma_password_policy(s: Seq<char>)
    ensures
        is_acceptable_password(s) <==> !all_whitespace(s) && is_ascii_chars(s)
            && PASSWORD_MIN_LENGTH <= s.len() <= PASSWORD_MAX_LENGTH,
        s.len() < PASSWORD_MIN_LENGTH || s.len() > PASSWORD_MAX_LENGTH ==> password_rejection(s) is Some,
        !is_ascii_chars(s) ==> password_rejection(s) is Some,
        all_whitespace(s) ==> password_rejection(s) == Some(PasswordRejection::Blank),
{
}

} // verus!
