//! Workflow endpoints: the engine is not available in this server, so every
//! request that passes its role check is answered as such.
use vstd::prelude::*;
use vstd::string::*;

use crate::error::{AivyxError, ServerError};
use crate::tenant::{role_rank, AivyxRole, AuthContext};

verus! {

/// A workflow endpoint.
#[derive(Debug, Clone, Copy, PartialEq, Eq, Structural)]
pub enum WorkflowAction {
    /// `POST /workflows`
    Create,
    /// `GET /workflows`
    List,
    /// `GET /workflows/:id`
    Get,
    /// `POST /workflows/:id/pause`
    Pause,
    /// `POST /workflows/:id/resume`
    Resume,
}

/// The role an action needs: reading needs Viewer, changing needs
/// Operator.
pub open spec fn workflow_role(a: WorkflowAction) -> AivyxRole {
    match a {
        WorkflowAction::List | WorkflowAction::Get => AivyxRole::Viewer,
        _ => AivyxRole::Operator,
    }
}

/// Answers a workflow request: refused for an insufficient role, otherwise
/// `workflow engine not configured`.
pub fn workflow_request(ctx: &AuthContext, action: WorkflowAction) -> (e: ServerError)
    ensures
        role_rank(ctx.role) < role_rank(workflow_role(action)) ==> e.0 is CapabilityDenied,
        role_rank(ctx.role) >= role_rank(workflow_role(action)) ==> (e.0 matches AivyxError::NotInitialized(m)
            && m@ == "workflow engine not configured"@),
{
    let needed = match action {
        WorkflowAction::List | WorkflowAction::Get => AivyxRole::Viewer,
        _ => AivyxRole::Operator,
    };
    match ctx.require_role(needed) {
        Err(e) => e,
        Ok(()) => ServerError(AivyxError::NotInitialized("workflow engine not configured".to_owned())),
    }
}

} // verus!
