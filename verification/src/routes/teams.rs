//! Team endpoints: bodies, session IDs and the record of a run.
use vstd::prelude::*;
use vstd::string::*;

use crate::error::{AivyxError, ServerError};
use crate::ids::{is_v4_uuid_text, random_uuid_text};
use crate::text::{decimal, u64_to_decimal};

verus! {

/// Response item for team listing.
#[derive(Debug, Clone, PartialEq, Eq)]
pub struct TeamSummary {
    /// Team name.
    pub name: String,
    /// What the team does.
    pub description: String,
}

/// Request body for running a team.
#[derive(Debug, Clone, PartialEq, Eq)]
pub struct TeamRunRequest {
    /// Goal of the run.
    pub prompt: String,
    /// Session to record the run under (default: a fresh one).
    pub session_id: Option<String>,
}

/// Response body of a team run.
#[derive(Debug, Clone, PartialEq, Eq)]
pub struct TeamRunResponse {
    /// The lead agent's answer.
    pub response: String,
    /// Session the run is recorded under.
    pub session_id: String,
}

/// A recorded team session.
#[derive(Debug, Clone, PartialEq, Eq)]
pub struct TeamSessionSummary {
    /// Session ID.
    pub session_id: String,
    /// Messages of the lead agent.
    pub lead_message_count: usize,
    /// Specialists that took part.
    pub specialist_count: usize,
    /// Recorded pieces of completed work.
    pub completed_work_count: usize,
    /// Last update, RFC 3339.
    pub updated_at: String,
}

/// The session a run is recorded under: the requested one, else a fresh
/// random UUID.
pub fn run_session_id(requested: Option<String>) -> (s: String)
    ensures
        match requested {
            Some(r) => s == r,
            None => is_v4_uuid_text(s@),
        },
{
    match requested {
        Some(r) => r,
        None => random_uuid_text(),
    }
}

/// The record of a run's work: `Goal: <prompt>` and the length of the
/// answer in bytes.
pub fn completed_work_line(prompt: &str, response: &str) -> (s: String)
    ensures
        s@ == "Goal: "@ + prompt@ + "\nResult: "@ + decimal(vstd::utf8::encode_utf8(response@).len())
            + " chars output"@,
{
    let mut s = "Goal: ".to_owned();
    s.append(prompt);
    s.append("\nResult: ");
    s.append(u64_to_decimal(response.as_bytes().len() as u64).as_str());
    s.append(" chars output");
    s
}

/// `team not found: <name>`.
pub fn team_not_found(name: &str) -> (e: ServerError)
    ensures
        e.0 matches AivyxError::Config(m) && m@ == "team not found: "@ + name@,
{
    let mut m = "team not found: ".to_owned();
    m.append(name);
    ServerError(AivyxError::Config(m))
}

} // verus!
