//! The rows that the core logic keeps, and the rules that select and change
//! them.

pub mod password_resets;
