//! Tenant administration endpoints: bodies and errors.
use vstd::prelude::*;
use vstd::string::*;

use crate::error::{AivyxError, ServerError};
use crate::ids::{parse_uuid, uuid_parsed, uuid_text};

verus! {

/// Request body for suspending a tenant.
#[derive(Debug, Clone, PartialEq, Eq)]
pub struct SuspendRequest {
    /// Why the tenant is suspended.
    pub reason: String,
}

/// The error when multi-tenancy is off.
pub fn multi_tenancy_disabled() -> (e: ServerError)
    ensures
        e.0 matches AivyxError::Config(m) && m@ == "multi-tenancy not enabled"@,
{
    ServerError(AivyxError::Config("multi-tenancy not enabled".to_owned()))
}

/// `invalid tenant ID: <id>`.
pub fn invalid_tenant_id(id: &str) -> (e: ServerError)
    ensures
        e.0 matches AivyxError::Config(m) && m@ == "invalid tenant ID: "@ + id@,
{
    let mut m = "invalid tenant ID: ".to_owned();
    m.append(id);
    ServerError(AivyxError::Config(m))
}

/// `tenant not found: <id>`.
pub fn tenant_not_found(id: &str) -> (e: ServerError)
    ensures
        e.0 matches AivyxError::Config(m) && m@ == "tenant not found: "@ + id@,
{
    let mut m = "tenant not found: ".to_owned();
    m.append(id);
    ServerError(AivyxError::Config(m))
}

/// Identifier of a tenant: a UUID.
#[derive(Debug, Clone, Copy, PartialEq, Eq)]
pub struct TenantId {
    /// The UUID's bytes.
    pub bytes: [u8; 16],
}

/// Parses the tenant ID of a request path; text that is no UUID is refused
/// with `invalid tenant ID: <text>`. The text of any tenant ID parses back
/// to it.
pub fn parse_tenant_id(id: &str) -> (r: Result<TenantId, ServerError>)
    ensures
        match uuid_parsed(id@) {
            Some(b) => r matches Ok(t) && t.bytes@ == b,
            None => r matches Err(ServerError(AivyxError::Config(m))) && m@ == "invalid tenant ID: "@
                + id@,
        },
        forall|b: Seq<u8>|
            b.len() == 16 && id@ == #[trigger] uuid_text(b) ==> (r matches Ok(t) && t.bytes@ == b),
{
    match parse_uuid(id) {
        Some(bytes) => Ok(TenantId { bytes }),
        None => Err(invalid_tenant_id(id)),
    }
}

} // verus!
