//! The token mailed to a new subscriber to confirm the address.

use vstd::prelude::*;
use vstd::string::*;
use crate::random::random_alphanumeric;
use crate::text::{
    all_alphanumeric_bytes, all_ascii_alphanumeric, alphanumeric_len, spell_alphanumeric, spelled,
};

verus! {

/// The length of every subscription token, in characters.
pub const SUBSCRIPTION_TOKEN_LENGTH: usize = 25;

/// What a well-formed subscription token looks like: exactly 25 ASCII
/// letters and digits.
pub open spec fn is_subscription_token(s: Seq<char>) -> bool {
    &&& s.len() == SUBSCRIPTION_TOKEN_LENGTH
    &&& all_ascii_alphanumeric(s)
}

/// The message that goes with a rejected token.
pub open spec fn subscription_token_rejection(s: Seq<char>) -> Seq<char> {
    s + " is not a valid subscription token."@
}

/// A subscription token that passed the format check.
#[derive(Debug)]
pub struct SubscriptionToken(String);

impl View for SubscriptionToken {
    type V = Seq<char>;

    closed spec fn view(&self) -> Seq<char> {
        self.0@
    }
}

impl SubscriptionToken {
    #[verifier::type_invariant]
    spec fn well_formed(&self) -> bool {
        is_subscription_token(self.0@)
    }

    /// Accepts `s` exactly when it is 25 ASCII letters and digits; otherwise
    /// the error names the rejected input.
    pub fn parse(s: String) -> (r: Result<Self, String>)
        ensures
            r is Ok <==> is_subscription_token(s@),
            r matches Ok(token) ==> token@ == s@,
            r matches Err(message) ==> message@ == subscription_token_rejection(s@),
    {
        let length = alphanumeric_len(s.as_str());
        match length {
            Some(n) => {
                if n == SUBSCRIPTION_TOKEN_LENGTH {
                    return Ok(SubscriptionToken(s));
                }
            },
            None => {},
        }
        let mut message = s;
        message.append(" is not a valid subscription token.");
        Err(message)
    }

    /// The token's text.
    pub fn as_ref(&self) -> (r: &str)
        ensures
            r@ == self@,
            is_subscription_token(r@),
    {
        proof {
            use_type_invariant(self);
        }
        self.0.as_str()
    }
}

/// Draws that spell a subscription token: exactly 25 codes of ASCII
/// letters and digits.
pub open spec fn are_subscription_token_draws(draws: Seq<u8>) -> bool {
    &&& draws.len() == SUBSCRIPTION_TOKEN_LENGTH
    &&& all_alphanumeric_bytes(draws)
}

impl SubscriptionToken {
    /// The token that the drawn character codes spell, in their order, or
    /// `None` where they are not exactly 25 codes of ASCII letters and
    /// digits.
    pub fn from_draws(draws: &Vec<u8>) -> (r: Option<Self>)
        ensures
            r is Some <==> are_subscription_token_draws(draws@),
            r matches Some(token) ==> token@ == spelled(draws@),
    {
        if draws.len() != SUBSCRIPTION_TOKEN_LENGTH {
            return None;
        }
        match spell_alphanumeric(draws) {
            Some(text) => Some(SubscriptionToken(text)),
            None => None,
        }
    }
}

impl Default for SubscriptionToken {
    /// A fresh random token of 25 characters, each drawn from the ASCII
    /// letters and digits; the token is what the draws spell. Whatever is
    /// drawn, the token has the accepted format.
    fn default() -> (r: Self)
        ensures
            is_subscription_token(r@),
    {
        let mut draws: Vec<u8> = Vec::new();
        let mut i: usize = 0;
        while i < SUBSCRIPTION_TOKEN_LENGTH
            invariant
                i <= SUBSCRIPTION_TOKEN_LENGTH,
                draws@.len() == i,
                all_alphanumeric_bytes(draws@),
            decreases SUBSCRIPTION_TOKEN_LENGTH - i,
        {
            draws.push(random_alphanumeric());
            i = i + 1;
        }
        let token = Self::from_draws(&draws).unwrap();
        proof {
            use_type_invariant(&token);
        }
        token
    }
}

} // verus!
