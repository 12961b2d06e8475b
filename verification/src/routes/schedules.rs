//! Schedule and notification endpoints: summaries and limits.
use vstd::prelude::*;
use vstd::string::*;

use crate::error::{AivyxError, ServerError};

verus! {

/// Response item for schedule listing.
#[derive(Debug, Clone, PartialEq, Eq)]
pub struct ScheduleSummary {
    /// Schedule name.
    pub name: String,
    /// Cron expression.
    pub cron: String,
    /// Agent that runs the prompt.
    pub agent: String,
    /// Prompt.
    pub prompt: String,
    /// Whether results are stored as notifications.
    pub notify: bool,
    /// Whether the schedule fires.
    pub enabled: bool,
    /// Last run, RFC 3339.
    pub last_run_at: Option<String>,
}

/// Request body for `POST /schedules`.
#[derive(Debug, Clone, PartialEq, Eq)]
pub struct CreateScheduleRequest {
    /// Schedule name.
    pub name: String,
    /// Cron expression.
    pub cron: String,
    /// Agent that runs the prompt.
    pub agent: String,
    /// Prompt.
    pub prompt: String,
    /// Whether results are stored as notifications (default true).
    pub notify: bool,
}

/// Default of `notify`.
pub fn default_true() -> (b: bool)
    ensures
        b,
{
    true
}

/// The summary of a new schedule: enabled, never run.
pub fn created_summary(req: CreateScheduleRequest) -> (s: ScheduleSummary)
    ensures
        s.name == req.name,
        s.cron == req.cron,
        s.agent == req.agent,
        s.prompt == req.prompt,
        s.notify == req.notify,
        s.enabled,
        s.last_run_at is None,
{
    ScheduleSummary {
        name: req.name,
        cron: req.cron,
        agent: req.agent,
        prompt: req.prompt,
        notify: req.notify,
        enabled: true,
        last_run_at: None,
    }
}

/// A stored notification in a response.
#[derive(Debug, Clone, PartialEq, Eq)]
pub struct NotificationItem {
    /// Notification ID.
    pub id: String,
    /// Schedule that produced it.
    pub source: String,
    /// Content.
    pub content: String,
    /// Creation time, RFC 3339.
    pub created_at: String,
    /// The user's rating, if rated.
    pub rating: Option<String>,
}

/// Number of rated notifications returned: 50 by default, at most 200.
pub fn history_limit(limit: Option<usize>) -> (n: usize)
    ensures
        n == match limit {
            Some(l) => if l < 200 {
                l
            } else {
                200
            },
            None => 50,
        },
{
    match limit {
        Some(l) => if l < 200 {
            l
        } else {
            200
        },
        None => 50,
    }
}

/// `invalid notification ID: <id>`.
pub fn invalid_notification_id(id: &str) -> (e: ServerError)
    ensures
        e.0 matches AivyxError::Other(m) && m@ == "invalid notification ID: "@ + id@,
{
    let mut m = "invalid notification ID: ".to_owned();
    m.append(id);
    ServerError(AivyxError::Other(m))
}

/// The error when the master key does not have the length of a key.
pub fn key_length_mismatch() -> (e: ServerError)
    ensures
        e.0 matches AivyxError::Crypto(m) && m@ == "master key byte length mismatch"@,
{
    ServerError(AivyxError::Crypto("master key byte length mismatch".to_owned()))
}

} // verus!
