//! The guard in front of the protected routes.

use vstd::prelude::*;

verus! {

/// The identity of a user. It is a type of its own so that no other
/// identifier can be taken for it.
#[derive(Debug, Clone, Copy, PartialEq, Eq, Structural)]
pub struct UserId(pub u128);

impl UserId {
    /// Wraps the number of a user's identifier.
    pub fn from(value: u128) -> (r: UserId)
        ensures
            r == UserId(value),
    {
        UserId(value)
    }

    /// The number of the identifier.
    pub fn into_inner(self) -> (r: u128)
        ensures
            r == self.0,
    {
        self.0
    }
}

/// What a request is, as far as the guard is concerned.
#[derive(Debug, Clone, Copy, PartialEq, Eq, Structural)]
pub enum Principal {
    /// No valid session came with the request.
    Anonymous,
    /// The session names this user.
    Authenticated(UserId),
}

/// What the guard does with a request for a protected route.
#[derive(Debug, Clone, Copy, PartialEq, Eq, Structural)]
pub enum AccessDecision {
    /// Run the handler, with this user bound to the request.
    Proceed(UserId),
    /// Do not run the handler: answer 303 See Other with `Location: /login`.
    RedirectToLogin,
}

/// The principal that a session lookup yields: the user the session names,
/// if it names one.
pub open spec fn principal_of(session_user: Option<UserId>) -> Principal {
    match session_user {
        Some(user_id) => Principal::Authenticated(user_id),
        None => Principal::Anonymous,
    }
}

/// The guard's rule: the handler runs for an authenticated principal and for
/// no other.
pub open spec fn access_rule(principal: Principal) -> AccessDecision {
    match principal {
        Principal::Authenticated(user_id) => AccessDecision::Proceed(user_id),
        Principal::Anonymous => AccessDecision::RedirectToLogin,
    }
}

/// Classifies a request by what its session holds.
pub fn principal(session_user: Option<UserId>) -> (r: Principal)
    ensures
        r == principal_of(session_user),
{
    match session_user {
        Some(user_id) => Principal::Authenticated(user_id),
        None => Principal::Anonymous,
    }
}

/// Decides on a request for a protected route, given the user that its
/// session names. The handler is reached with a user, or not at all.
pub fn reject_anonymous_users(session_user: Option<UserId>) -> (r: AccessDecision)
    ensures
        r == access_rule(principal_of(session_user)),
        r is Proceed <==> session_user is Some,
        r matches AccessDecision::Proceed(user_id) ==> session_user == Some(user_id),
{
    match principal(session_user) {
        Principal::Authenticated(user_id) => AccessDecision::Proceed(user_id),
        Principal::Anonymous => AccessDecision::RedirectToLogin,
    }
}

/// Where the guard sends an anonymous request.
pub fn login_location() -> (r: &'static str)
    ensures
        r@ == "/login"@,
{
    "/login"
}

} // verus!
