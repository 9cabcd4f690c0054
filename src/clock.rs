//! Wall-clock time as Unix seconds.

use vstd::prelude::*;

verus! {

/// Bound on any Unix time the clock can report: chrono's `DateTime<Utc>` spans
/// about 262,000 years on either side of the epoch, under 10^13 seconds.
pub const CLOCK_BOUND: i64 = 10_000_000_000_000;

/// Relies on `chrono::Utc::now().timestamp()`: the current time, not before the
/// epoch (`Utc::now` panics on a system clock set before 1970) and within the range
/// of `DateTime<Utc>`.
#[verifier::external_body]
pub fn now_timestamp() -> (r: i64)
    ensures
        0 <= r <= CLOCK_BOUND,
{
    chrono::Utc::now().timestamp()
}

} // verus!
