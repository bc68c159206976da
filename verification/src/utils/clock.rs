//! The time of day, from the `chrono` crate.

use vstd::prelude::*;

verus! {

/// Reads the system clock and has `chrono` turn the reading into a moment
/// in UTC (its `From<SystemTime>` for `DateTime<Utc>`), of which it gives
/// the number of microseconds since the Unix epoch (`timestamp_micros`).
/// A clock that stands before the epoch gives a negative number; `chrono`
/// holds every moment within some 262,000 years of the epoch, and the
/// microseconds of each of them fit the result. Nothing is promised of the
/// number: two readings may come in any order.
#[verifier::external_body]
pub(crate) fn utc_now() -> (now: i64) {
    chrono::DateTime::<chrono::Utc>::from(std::time::SystemTime::now()).timestamp_micros()
}

} // verus!
