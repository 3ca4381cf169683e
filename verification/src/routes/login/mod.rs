//! Logging in.

pub mod post;
