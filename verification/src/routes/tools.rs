//! Tool listing: which tools an agent's listing includes.
use vstd::prelude::*;
use vstd::string::*;

verus! {

/// Query parameters for `GET /tools`.
#[derive(Debug, Clone, PartialEq, Eq)]
pub struct ToolsQuery {
    /// List the tools of this agent only.
    pub agent: Option<String>,
}

/// The tools to register: the agent's tool IDs, or all tools (an empty
/// list) without an agent.
pub fn allowed_tool_names(agent_tools: Option<Vec<String>>) -> (v: Vec<String>)
    ensures
        match agent_tools {
            Some(t) => v == t,
            None => v@.len() == 0,
        },
{
    match agent_tools {
        Some(t) => t,
        None => Vec::new(),
    }
}

} // verus!
