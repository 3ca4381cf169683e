//! Publishing a newsletter issue.

pub mod post;
