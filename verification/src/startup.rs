//! Values that the application is built with.

use vstd::prelude::*;
use crate::secret::SecretText;

verus! {

/// The base URL of the application, as a type of its own so that no other
/// string is taken for it.
pub struct ApplicationBaseUrl(pub String);

/// The secret that signs cookies and flash messages.
pub struct HmacSecret(pub SecretText);

impl HmacSecret {
    /// The secret's text.
    pub fn expose(&self) -> (r: &str)
        ensures
            r@ == self.0@,
    {
        self.0.expose_secret()
    }
}

} // verus!
