//! Usage endpoints: the daily reporting window.
use vstd::prelude::*;

verus! {

/// Query parameters for `GET /usage/daily`.
#[derive(Debug, Clone, Copy, PartialEq, Eq, Structural)]
pub struct DailyQuery {
    /// Number of days (default 30, between 1 and 90).
    pub days: u64,
}

/// Default number of days.
pub fn default_days() -> (d: u64)
    ensures
        d == 30,
{
    30
}

/// The number of days reported: the request clamped to 1..=90.
pub fn daily_window(days: u64) -> (d: u64)
    ensures
        d == if days < 1 {
            1
        } else if days > 90 {
            90
        } else {
            days
        },
{
    if days < 1 {
        1
    } else if days > 90 {
        90
    } else {
        days
    }
}

} // verus!
