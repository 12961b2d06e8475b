//! Configuration endpoints: which server bind addresses a patch may set.
use vstd::prelude::*;
use vstd::string::*;

use crate::error::{AivyxError, ServerError};
use crate::text::str_eq;

verus! {

/// Whether a bind address listens on every interface.
pub open spec fn is_wildcard_address(a: Seq<char>) -> bool {
    a == "0.0.0.0"@ || a == "::"@
}

/// Refuses a bind address that would expose the server on all interfaces.
pub fn check_bind_address(addr: &str) -> (r: Result<(), ServerError>)
    ensures
        !is_wildcard_address(addr@) ==> r is Ok,
        is_wildcard_address(addr@) ==> (r matches Err(ServerError(AivyxError::Config(m))) && m@
            == "bind_address '"@ + addr@
            + "' would expose the server on all interfaces; use '127.0.0.1' or '::1' instead"@),
{
    if str_eq(addr, "0.0.0.0") || str_eq(addr, "::") {
        let mut m = "bind_address '".to_owned();
        m.append(addr);
        m.append("' would expose the server on all interfaces; use '127.0.0.1' or '::1' instead");
        Err(ServerError(AivyxError::Config(m)))
    } else {
        Ok(())
    }
}

} // verus!
