//! Changing the password of the user who is logged in.

pub mod post;
