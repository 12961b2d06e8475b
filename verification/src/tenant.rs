//! Roles, tenants and the authentication context of a request.
use vstd::prelude::*;
use vstd::string::*;

use crate::error::{AivyxError, ServerError};

verus! {

/// Role-based access levels, from least to most privileged.
#[derive(Debug, Clone, Copy, PartialEq, Eq, Structural)]
pub enum AivyxRole {
    /// Read-only access.
    Viewer,
    /// May run agents and change resources.
    Operator,
    /// May read usage and billing data.
    Billing,
    /// Full access.
    Admin,
}

/// The privilege order of roles.
pub open spec fn role_rank(r: AivyxRole) -> int {
    match r {
        AivyxRole::Viewer => 0,
        AivyxRole::Operator => 1,
        AivyxRole::Billing => 2,
        AivyxRole::Admin => 3,
    }
}

impl AivyxRole {
    /// Position of the role in the privilege order.
    pub fn rank(&self) -> (r: u8)
        ensures
            r == role_rank(*self),
    {
        match self {
            AivyxRole::Viewer => 0,
            AivyxRole::Operator => 1,
            AivyxRole::Billing => 2,
            AivyxRole::Admin => 3,
        }
    }

    /// Whether this role is at least as privileged as `other`.
    pub fn at_least(&self, other: AivyxRole) -> (b: bool)
        ensures
            b == (role_rank(*self) >= role_rank(other)),
    {
        self.rank() >= other.rank()
    }
}

/// Law: the roles are ordered by privilege as declared: Viewer, then
/// Operator, then Billing, then Admin; each is strictly above the one
/// before it, so `at_least` holds exactly from a role up.
pub proof fn lemma_privilege_order()
    ensures
        role_rank(AivyxRole::Viewer) < role_rank(AivyxRole::Operator),
        role_rank(AivyxRole::Operator) < role_rank(AivyxRole::Billing),
        role_rank(AivyxRole::Billing) < role_rank(AivyxRole::Admin),
        forall|a: AivyxRole, b: AivyxRole| role_rank(a) == role_rank(b) ==> a == b,
{
}

/// Lifecycle state of a tenant.
#[derive(Debug, Clone, PartialEq, Eq)]
pub enum TenantStatus {
    /// The tenant may use the platform.
    Active,
    /// The tenant is suspended, with the reason given.
    Suspended { reason: String },
    /// The tenant has been deleted.
    Deleted,
}

/// Who is making a request, and with which rights.
#[derive(Debug, Clone, PartialEq, Eq)]
pub struct AuthContext {
    /// Tenant the request is scoped to (`None` for the single-user mode).
    pub tenant_id: Option<String>,
    /// Tenant display name.
    pub tenant_name: Option<String>,
    /// API key that authenticated the request.
    pub key_id: Option<String>,
    /// Role granted to the request.
    pub role: AivyxRole,
    /// Cost allocation tags, in header order, one entry per key.
    pub tags: Vec<(String, String)>,
}

impl AuthContext {
    /// The context of the legacy single-user bearer token: an administrator
    /// without tenant.
    pub fn single_user() -> (c: Self)
        ensures
            c.role == AivyxRole::Admin,
            c.tenant_id is None,
            c.tenant_name is None,
            c.key_id is None,
            c.tags@.len() == 0,
    {
        AuthContext {
            tenant_id: None,
            tenant_name: None,
            key_id: None,
            role: AivyxRole::Admin,
            tags: Vec::new(),
        }
    }

    /// The context of a tenant's API key.
    pub fn tenant_user(tenant_id: String, tenant_name: String, key_id: String, role: AivyxRole) -> (c: Self)
        ensures
            c.role == role,
            c.tenant_id == Some(tenant_id),
            c.tenant_name == Some(tenant_name),
            c.key_id == Some(key_id),
            c.tags@.len() == 0,
    {
        AuthContext {
            tenant_id: Some(tenant_id),
            tenant_name: Some(tenant_name),
            key_id: Some(key_id),
            role,
            tags: Vec::new(),
        }
    }

    /// Fails unless the context's role is at least `min`.
    pub fn require_role(&self, min: AivyxRole) -> (r: Result<(), ServerError>)
        ensures
            r is Ok <==> role_rank(self.role) >= role_rank(min),
            r matches Err(ServerError(e)) ==> e is CapabilityDenied,
    {
        if self.role.at_least(min) {
            Ok(())
        } else {
            Err(ServerError(AivyxError::CapabilityDenied("insufficient role for this operation".to_owned())))
        }
    }
}

} // verus!
