//! Audit log endpoints: query parameters, limits and filters.
use vstd::prelude::*;
use vstd::string::*;

verus! {

/// Query parameters for `GET /audit`.
#[derive(Debug, Clone, Copy, PartialEq, Eq, Structural)]
pub struct AuditQuery {
    /// Number of recent entries to return (default: 10).
    pub last: usize,
}

/// Default number of recent entries.
pub fn default_last() -> (n: usize)
    ensures
        n == 10,
{
    10
}

/// Response body for `POST /audit/verify`.
#[derive(Debug, Clone, Copy, PartialEq, Eq, Structural)]
pub struct VerifyResponse {
    /// Whether the chain is valid.
    pub valid: bool,
    /// Number of entries checked.
    pub entries_checked: u64,
}

/// Query parameters for `GET /audit/search`.
#[derive(Debug, Clone, PartialEq, Eq)]
pub struct SearchQuery {
    /// Filter by event type (serde tag name, e.g. "AgentCreated").
    pub event_type: Option<String>,
    /// Start of date range (RFC 3339).
    pub from: Option<String>,
    /// End of date range (RFC 3339).
    pub to: Option<String>,
    /// Maximum number of results (default: 100, capped at 1000).
    pub limit: usize,
}

/// Default search limit.
pub fn default_search_limit() -> (n: usize)
    ensures
        n == 100,
{
    100
}

/// Largest number of entries any audit query returns.
pub const MAX_AUDIT_RESULTS: usize = 1000;

/// A requested number of entries, capped at 1000.
pub fn capped_limit(n: usize) -> (r: usize)
    ensures
        r == if n < MAX_AUDIT_RESULTS {
            n
        } else {
            MAX_AUDIT_RESULTS
        },
{
    if n < MAX_AUDIT_RESULTS {
        n
    } else {
        MAX_AUDIT_RESULTS
    }
}

/// The UTC instant (milliseconds since the Unix epoch) that an RFC 3339
/// text names, `None` when it is no such text.
pub uninterp spec fn rfc3339_millis(text: Seq<char>) -> Option<i64>;

/// Parses an RFC 3339 time, by `chrono::DateTime::parse_from_rfc3339`,
/// `DateTime::to_utc` and `DateTime::timestamp_millis`.
#[verifier::external_body]
pub(crate) fn parse_rfc3339(text: &str) -> (r: Option<i64>)
    ensures
        r == rfc3339_millis(text@),
{
    chrono::DateTime::parse_from_rfc3339(text).ok().map(|t| t.to_utc().timestamp_millis())
}

/// What `GET /audit/search` asks of the audit log.
#[derive(Debug, Clone, PartialEq, Eq)]
pub struct AuditFilter {
    /// Event types to keep, when filtering by type.
    pub event_types: Option<Vec<String>>,
    /// Earliest time, in milliseconds since the Unix epoch.
    pub from: Option<i64>,
    /// Latest time, in milliseconds since the Unix epoch.
    pub to: Option<i64>,
    /// Maximum number of results.
    pub limit: Option<usize>,
}

/// The time bound of an optional RFC 3339 text: dropped when it does not
/// parse.
pub open spec fn time_bound(t: Option<String>) -> Option<i64> {
    match t {
        Some(s) => rfc3339_millis(s@),
        None => None,
    }
}

fn bound_of(t: Option<String>) -> (r: Option<i64>)
    ensures
        r == time_bound(t),
{
    match t {
        Some(s) => parse_rfc3339(s.as_str()),
        None => None,
    }
}

/// The filter of a search query: its type, its date range (bounds that do
/// not parse are dropped) and its limit capped at 1000.
pub fn search_filter(q: SearchQuery) -> (f: AuditFilter)
    ensures
        match q.event_type {
            Some(t) => f.event_types matches Some(v) && v@ == seq![t],
            None => f.event_types is None,
        },
        f.from == time_bound(q.from),
        f.to == time_bound(q.to),
        f.limit == Some(
            if q.limit < MAX_AUDIT_RESULTS {
                q.limit
            } else {
                MAX_AUDIT_RESULTS
            },
        ),
{
    let event_types = match q.event_type {
        Some(t) => {
            let mut v: Vec<String> = Vec::new();
            v.push(t);
            Some(v)
        },
        None => None,
    };
    AuditFilter {
        event_types,
        from: bound_of(q.from),
        to: bound_of(q.to),
        limit: Some(capped_limit(q.limit)),
    }
}

} // verus!
