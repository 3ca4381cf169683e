//! The token mailed to a user who asked to reset a password.

use vstd::prelude::*;
use vstd::string::*;
use crate::random::{random_alphanumeric, random_length};
use crate::text::{
    all_alphanumeric_bytes, all_ascii_alphanumeric, alphanumeric_len, spell_alphanumeric, spelled,
};

verus! {

/// Shortest accepted token, in characters.
pub const PASSWORD_RESET_TOKEN_MIN_LENGTH: usize = 16;

/// Longest accepted token, in characters.
pub const PASSWORD_RESET_TOKEN_MAX_LENGTH: usize = 32;

/// What a well-formed reset token looks like: 16 to 32 ASCII letters and digits.
pub open spec fn is_password_reset_token(s: Seq<char>) -> bool {
    &&& PASSWORD_RESET_TOKEN_MIN_LENGTH <= s.len() <= PASSWORD_RESET_TOKEN_MAX_LENGTH
    &&& all_ascii_alphanumeric(s)
}

/// The message that goes with a rejected token.
pub open spec fn reset_token_rejection(s: Seq<char>) -> Seq<char> {
    s + " is not a valid password reset token."@
}

/// A password reset token that passed the format check.
#[derive(Debug)]
pub struct PasswordResetToken(String);

impl View for PasswordResetToken {
    type V = Seq<char>;

    closed spec fn view(&self) -> Seq<char> {
        self.0@
    }
}

impl PasswordResetToken {
    #[verifier::type_invariant]
    spec fn well_formed(&self) -> bool {
        is_password_reset_token(self.0@)
    }

    /// Accepts `s` exactly when it is 16 to 32 ASCII letters and digits;
    /// otherwise the error names the rejected input.
    pub fn parse(s: String) -> (r: Result<Self, String>)
        ensures
            r is Ok <==> is_password_reset_token(s@),
            r matches Ok(token) ==> token@ == s@,
            r matches Err(message) ==> message@ == reset_token_rejection(s@),
    {
        let length = alphanumeric_len(s.as_str());
        match length {
            Some(n) => {
                if PASSWORD_RESET_TOKEN_MIN_LENGTH <= n && n <= PASSWORD_RESET_TOKEN_MAX_LENGTH {
                    return Ok(PasswordResetToken(s));
                }
            },
            None => {},
        }
        let mut message = s;
        message.append(" is not a valid password reset token.");
        Err(message)
    }

    /// The token's text.
    pub fn as_ref(&self) -> (r: &str)
        ensures
            r@ == self@,
            is_password_reset_token(r@),
    {
        proof {
            use_type_invariant(self);
        }
        self.0.as_str()
    }
}

/// Draws that spell a reset token: 16 to 32 codes of ASCII letters and
/// digits.
pub open spec fn are_reset_token_draws(draws: Seq<u8>) -> bool {
    &&& PASSWORD_RESET_TOKEN_MIN_LENGTH <= draws.len() <= PASSWORD_RESET_TOKEN_MAX_LENGTH
    &&& all_alphanumeric_bytes(draws)
}

impl PasswordResetToken {
    /// The token that the drawn character codes spell, in their order, or
    /// `None` where they are not 16 to 32 codes of ASCII letters and digits.
    pub fn from_draws(draws: &Vec<u8>) -> (r: Option<Self>)
        ensures
            r is Some <==> are_reset_token_draws(draws@),
            r matches Some(token) ==> token@ == spelled(draws@),
    {
        let n = draws.len();
        if n < PASSWORD_RESET_TOKEN_MIN_LENGTH || n > PASSWORD_RESET_TOKEN_MAX_LENGTH {
            return None;
        }
        match spell_alphanumeric(draws) {
            Some(text) => Some(PasswordResetToken(text)),
            None => None,
        }
    }
}

impl Default for PasswordResetToken {
    /// A fresh random token: its length is drawn from 16 to 32, each
    /// character from the ASCII letters and digits, and the token is what
    /// the draws spell. Whatever is drawn, the token has the accepted
    /// format.
    fn default() -> (r: Self)
        ensures
            is_password_reset_token(r@),
    {
        let length = random_length(
            PASSWORD_RESET_TOKEN_MIN_LENGTH,
            PASSWORD_RESET_TOKEN_MAX_LENGTH,
        );
        let mut draws: Vec<u8> = Vec::new();
        let mut i: usize = 0;
        while i < length
            invariant
                i <= length,
                draws@.len() == i,
                all_alphanumeric_bytes(draws@),
            decreases length - i,
        {
            draws.push(random_alphanumeric());
            i = i + 1;
        }
        let token = Self::from_draws(&draws).unwrap();
        proof {
            use_type_invariant(&token);
        }
        token
    }
}

} // verus!
