//! Metrics endpoints: the reporting window.
use vstd::prelude::*;

verus! {

/// Query parameters for the metrics endpoints.
#[derive(Debug, Clone, Copy, PartialEq, Eq, Structural)]
pub struct MetricsQuery {
    /// Number of days to report (default 7, between 1 and 30).
    pub days: u64,
}

/// Default reporting window in days.
pub fn default_days() -> (d: u64)
    ensures
        d == 7,
{
    7
}

/// The reporting window: the requested days clamped to 1..=30.
pub fn window_days(days: u64) -> (d: u64)
    ensures
        d == if days < 1 {
            1
        } else if days > 30 {
            30
        } else {
            days
        },
{
    if days < 1 {
        1
    } else if days > 30 {
        30
    } else {
        days
    }
}

/// The start of a window of `days` days that ends at `to` (milliseconds).
pub fn window_start(to: i64, days: u64) -> (from: i64)
    requires
        1 <= days <= 30,
        to >= i64::MIN + 30 * 86400000,
    ensures
        from == to - days * 86400000,
{
    to - (days as i64) * 86400000
}

} // verus!
