//! Health check: the scaling mode reported.
use vstd::prelude::*;
use vstd::string::*;

use crate::text::str_eq;

verus! {

/// The scaling mode reported by `GET /health`: `stateless` when the
/// `AIVYX_STATELESS_MODE` variable is `1`.
pub fn scaling_mode(stateless_var: Option<&str>) -> (m: Option<String>)
    ensures
        match stateless_var {
            Some(v) => if v@ == "1"@ {
                m matches Some(s) && s@ == "stateless"@
            } else {
                m is None
            },
            None => m is None,
        },
{
    match stateless_var {
        Some(v) => if str_eq(v, "1") {
            Some("stateless".to_owned())
        } else {
            None
        },
        None => None,
    }
}

} // verus!
