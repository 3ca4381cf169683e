//! Asking for a password reset and redeeming the token.

pub mod confirm;
pub mod post;
