//! Reading the wall clock.
use vstd::prelude::*;

verus! {

/// A bound above every time (milliseconds since the Unix epoch) that
/// `chrono` can represent: its latest date is in the year 262142, about
/// 8.2e15 milliseconds after the epoch.
pub const CLOCK_MILLIS_LIMIT: i64 = 10_000_000_000_000_000;

/// Whether `t` is a value the wall clock can read: not before the Unix
/// epoch, and inside `chrono`'s range.
pub open spec fn clock_reading(t: i64) -> bool {
    0 <= t < CLOCK_MILLIS_LIMIT
}

/// Milliseconds since the Unix epoch, by `chrono::Utc::now().timestamp_millis()`.
///
/// Which instant comes back depends on the moment of the call and is not
/// stated. `Utc::now` panics on a system time before the Unix epoch and
/// builds a `DateTime`, whose range ends in the year 262142, so a value it
/// returns lies between 0 and that bound.
#[verifier::external_body]
pub(crate) fn now_unix_millis() -> (t: i64)
    ensures
        clock_reading(t),
{
    chrono::Utc::now().timestamp_millis()
}

} // verus!
