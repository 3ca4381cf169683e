//! Secrets held in memory: passwords, the pepper, stored hashes.
//!
//! The text stays inside a `secrecy::Secret`, which wipes it when dropped and
//! keeps it out of debug output. Contracts speak of the text through
//! [`secret_text`].

use vstd::prelude::*;
use secrecy::{ExposeSecret, Secret};

verus! {

/// A string kept in a `secrecy::Secret<String>`. The struct is opaque to
/// the verifier, which cannot take `Secret<S>` with its bound on an outside
/// trait; what is known of a value is what [`secret_text`] says.
#[verifier::external_body]
pub struct SecretText {
    inner: Secret<String>,
}

/// The text that a secret holds.
pub uninterp spec fn secret_text(s: SecretText) -> Seq<char>;

impl View for SecretText {
    type V = Seq<char>;

    open spec fn view(&self) -> Seq<char> {
        secret_text(*self)
    }
}

impl SecretText {
    /// `Secret::new` takes ownership of the string and keeps it unchanged:
    /// the secret's text is the string's.
    #[verifier::external_body]
    pub fn new(text: String) -> (r: SecretText)
        ensures
            secret_text(r) == text@,
    {
        SecretText { inner: Secret::new(text) }
    }

    /// `ExposeSecret::expose_secret` hands out a reference to the string
    /// inside, whose text is the secret's.
    #[verifier::external_body]
    pub fn expose_secret(&self) -> (r: &str)
        ensures
            r@ == secret_text(*self),
    {
        self.inner.expose_secret().as_str()
    }
}

} // verus!
