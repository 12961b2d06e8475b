//! The authentication context of a request, as the auth middleware left it.
use vstd::prelude::*;
use vstd::string::*;

use crate::tenant::AuthContext;

verus! {

/// Rejection when a request carries no authentication context.
#[derive(Debug, Clone, Copy, PartialEq, Eq, Structural)]
pub struct MissingAuthContext;

impl MissingAuthContext {
    /// HTTP status of the rejection.
    pub fn status(&self) -> (s: u16)
        ensures
            s == 401,
    {
        401
    }

    /// Error text of the rejection.
    pub fn message(&self) -> (m: String)
        ensures
            m@ == "missing auth context"@,
    {
        "missing auth context".to_owned()
    }
}

/// The context the middleware stored, or the rejection.
pub fn extract_auth_context(stored: Option<AuthContext>) -> (r: Result<AuthContext, MissingAuthContext>)
    ensures
        match stored {
            Some(c) => r == Ok::<AuthContext, MissingAuthContext>(c),
            None => r is Err,
        },
{
    match stored {
        Some(c) => Ok(c),
        None => Err(MissingAuthContext),
    }
}

} // verus!
