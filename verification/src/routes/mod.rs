//! The decisions of the HTTP handlers. Each handler is a chain of steps:
//! a step takes what the outside work before it returned and says what is
//! done next. The caller does the outside work and nothing else.

pub mod reset_password;
pub mod subscriptions_confirm;
pub mod login;
pub mod admin;
pub mod subscriptions;
pub mod newsletters;
