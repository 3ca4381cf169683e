//! The key a client sends to mark the retries of one request.

use vstd::prelude::*;
use vstd::string::*;

verus! {

/// A key must be shorter than this many bytes.
pub const IDEMPOTENCY_KEY_MAX_LENGTH: usize = 50;

/// Why a key was turned down.
#[derive(Debug, Clone, Copy, PartialEq, Eq, Structural)]
pub enum KeyRejection {
    /// The key is empty.
    Empty,
    /// The key has 50 bytes or more.
    TooLong,
}

/// What, if anything, is wrong with a key: it must not be empty, and its
/// UTF-8 form must be shorter than 50 bytes.
pub open spec fn key_rejection(s: Seq<char>) -> Option<KeyRejection> {
    if s.len() == 0 {
        Some(KeyRejection::Empty)
    } else if vstd::utf8::encode_utf8(s).len() >= IDEMPOTENCY_KEY_MAX_LENGTH {
        Some(KeyRejection::TooLong)
    } else {
        None
    }
}

/// The message for each rejection.
pub open spec fn key_rejection_message(why: KeyRejection) -> Seq<char> {
    match why {
        KeyRejection::Empty => "The idempotency key cannot be empty"@,
        KeyRejection::TooLong => "The idempotency key must be shorter than 50 characters"@,
    }
}

impl KeyRejection {
    /// The message for this rejection.
    pub fn message(&self) -> (r: &'static str)
        ensures
            r@ == key_rejection_message(*self),
    {
        match self {
            KeyRejection::Empty => "The idempotency key cannot be empty",
            KeyRejection::TooLong => "The idempotency key must be shorter than 50 characters",
        }
    }
}

/// An idempotency key that passed the check.
#[derive(Debug)]
pub struct IdempotencyKey(String);

impl View for IdempotencyKey {
    type V = Seq<char>;

    closed spec fn view(&self) -> Seq<char> {
        self.0@
    }
}

impl IdempotencyKey {
    #[verifier::type_invariant]
    spec fn well_formed(&self) -> bool {
        key_rejection(self.0@) is None
    }

    /// Accepts a key exactly when it is not empty and shorter than 50
    /// bytes.
    pub fn try_from(s: String) -> (r: Result<Self, KeyRejection>)
        ensures
            r is Ok <==> key_rejection(s@) is None,
            r matches Ok(key) ==> key@ == s@,
            r matches Err(why) ==> key_rejection(s@) == Some(why),
    {
        if s.as_str().is_empty() {
            return Err(KeyRejection::Empty);
        }
        if s.as_str().as_bytes().len() >= IDEMPOTENCY_KEY_MAX_LENGTH {
            return Err(KeyRejection::TooLong);
        }
        Ok(IdempotencyKey(s))
    }

    /// The key's text.
    pub fn as_ref(&self) -> (r: &str)
        ensures
            r@ == self@,
            key_rejection(r@) is None,
    {
        proof {
            use_type_invariant(self);
        }
        self.0.as_str()
    }

    /// The key as an owned string.
    pub fn into_string(self) -> (r: String)
        ensures
            r@ == self@,
    {
        self.0
    }
}

} // verus!
