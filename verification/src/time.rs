//! Timestamps.

use vstd::prelude::*;

verus! {

/// Milliseconds in one second.
pub const SECOND_UNIT: i64 = 1000;

/// Milliseconds in one minute.
pub const MINUTE_UNIT: i64 = SECOND_UNIT * 60;

/// A point in time, in milliseconds since 1970-01-01 00:00 UTC.
#[derive(Debug, Clone, Copy, PartialEq, Eq, Structural)]
pub struct Time {
    pub time: i64,
}

impl Time {
    /// The time `time` milliseconds after the epoch.
    pub fn new(time: i64) -> (r: Self)
        ensures
            r.time == time,
    {
        Self { time }
    }

    /// The number of milliseconds since the epoch.
    pub fn as_i64(&self) -> (r: i64)
        ensures
            r == self.time,
    {
        self.time
    }
}

} // verus!
