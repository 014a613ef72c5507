//! Price bars as they arrive, before any merging.

use crate::time::Time;
use vstd::prelude::*;

verus! {

/// The open, high, low and close of one time bucket, in ticks.
#[derive(Debug, Clone, Copy, PartialEq, Eq, Structural)]
pub struct Bar {
    pub time: Time,
    pub open: i64,
    pub high: i64,
    pub low: i64,
    pub close: i64,
}

impl Bar {
    /// The bar with these five values.
    pub fn new(time: Time, open: i64, high: i64, low: i64, close: i64) -> (r: Self)
        ensures
            r == (Bar { time, open, high, low, close }),
    {
        Self { time, open, high, low, close }
    }
}

} // verus!
