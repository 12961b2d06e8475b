//! Federation endpoints: the answers when federation is off or a peer
//! fails.
use vstd::prelude::*;
use vstd::string::*;

verus! {

/// Status and error text when federation is not configured.
pub fn federation_not_configured() -> (r: (u16, String))
    ensures
        r.0 == 404,
        r.1@ == "federation not configured"@,
{
    (404, "federation not configured".to_owned())
}

/// Status and error text when a peer call fails.
pub fn peer_failure(detail: String) -> (r: (u16, String))
    ensures
        r.0 == 502,
        r.1 == detail,
{
    (502, detail)
}

} // verus!
