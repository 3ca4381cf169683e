//! The routes behind the guard.

pub mod newsletters;
pub mod password;
