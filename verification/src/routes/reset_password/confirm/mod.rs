//! Redeeming a password reset token.

pub mod get;
pub mod post;
