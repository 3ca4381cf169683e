//! At most one execution for each idempotency key of each user.

pub mod key;
pub mod persistence;

pub use key::IdempotencyKey;
pub use persistence::{save_response, try_processing, NextAction};
