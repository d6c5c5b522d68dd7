//! The wall clock, read once for each stored row.

use vstd::prelude::*;

verus! {

/// A point in time in UTC: whole seconds since 1970-01-01 00:00:00, and the
/// nanoseconds into that second.
#[derive(Clone, Copy, Debug, PartialEq, Eq, Structural)]
pub struct Timestamp {
    pub secs: i64,
    pub nanos: u32,
}

/// Reads the clock with `chrono::Utc::now` and takes the reading apart with
/// `timestamp` and `timestamp_subsec_nanos`. Which time it is cannot be
/// claimed. The contract claims what `chrono` documents of every time that
/// it hands out: the nanoseconds stay below 2,000,000,000, where those from
/// 1,000,000,000 on stand for a leap second. `chrono` panics where the
/// system clock stands before 1970.
#[verifier::external_body]
fn utc_now() -> (now: Timestamp)
    ensures
        now.is_well_formed(),
{
    let now = ::chrono::Utc::now();
    Timestamp { secs: now.timestamp(), nanos: now.timestamp_subsec_nanos() }
}

impl Timestamp {
    /// The nanoseconds are a part of one second or, inside a leap second, of
    /// two: they stay below 2,000,000,000.
    pub open spec fn is_well_formed(self) -> bool {
        self.nanos < 2_000_000_000
    }

    /// The current time in UTC, as the clock gives it. Which time that is
    /// depends on the clock alone; it is always a well-formed one.
    pub fn now() -> (now: Timestamp)
        ensures
            now.is_well_formed(),
    {
        utc_now()
    }
}

} // verus!
