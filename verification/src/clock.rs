//! Time as the service reads it, through the `chrono` crate.

use vstd::prelude::*;

verus! {

/// The largest number of seconds, either way, that a `chrono::TimeDelta`
/// holds: `i64::MAX` milliseconds.
pub open spec fn max_delta_seconds() -> int {
    i64::MAX as int / 1000
}

/// The last second that chrono's `DateTime<Utc>` can hold: the end of the
/// year 262142.
pub open spec fn max_clock_seconds() -> int {
    8_210_266_876_799
}

/// Calls `chrono::Utc::now()` and reads its `timestamp()`: the seconds since
/// the Unix epoch. Which second it is depends on the clock; chrono's source
/// panics for a system time before the epoch and builds the value through
/// `DateTime::from_timestamp`, which refuses years past 262142, so every
/// value returned lies between 0 and `max_clock_seconds()`.
#[verifier::external_body]
pub(crate) fn now_timestamp() -> (t: i64)
    ensures
        0 <= t <= max_clock_seconds(),
{
    chrono::Utc::now().timestamp()
}

/// Calls `chrono::Duration::hours` and reads the result's `num_seconds()`.
/// chrono's source builds the delta from `hours * 3600` seconds and panics
/// when that product overflows or lies beyond `max_delta_seconds()` either
/// way; such inputs are left out.
#[verifier::external_body]
pub(crate) fn hours_in_seconds(hours: i64) -> (secs: i64)
    requires
        -max_delta_seconds() <= hours * 3600 <= max_delta_seconds(),
    ensures
        secs == hours * 3600,
{
    chrono::Duration::hours(hours).num_seconds()
}

} // verus!
