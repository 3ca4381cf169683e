//! Who a request speaks for: credentials, password hashes and the guard in
//! front of the protected routes.

pub mod middleware;
pub mod password;

pub use middleware::{reject_anonymous_users, UserId};
pub use password::{AuthError, Credentials, PasswordService};
