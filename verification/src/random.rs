//! The randomness that tokens are made of.

use vstd::prelude::*;
use rand::Rng;
use rand::distributions::Alphanumeric;
use crate::text::is_alphanumeric_byte;

verus! {

/// `Rng::gen_range` on the thread's generator draws a value from the
/// inclusive range; it panics on an empty range, which `requires` leaves out.
#[verifier::external_body]
pub(crate) fn random_length(low: usize, high: usize) -> (r: usize)
    requires
        low <= high,
    ensures
        low <= r <= high,
{
    rand::thread_rng().gen_range(low..=high)
}

/// Sampling `Alphanumeric` on the thread's generator yields the code of one
/// of a-z, A-Z and 0-9.
#[verifier::external_body]
pub(crate) fn random_alphanumeric() -> (r: u8)
    ensures
        is_alphanumeric_byte(r),
{
    rand::thread_rng().sample(Alphanumeric)
}

} // verus!
