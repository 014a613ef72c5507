//! A price at a time.

use crate::time::Time;
use vstd::prelude::*;

verus! {

/// A time and a price. Prices are whole numbers of ticks, the smallest
/// increment in which the instrument is quoted.
#[derive(Debug, Clone, Copy, PartialEq, Eq, Structural)]
pub struct Point {
    pub time: Time,
    pub price: i64,
}

impl Point {
    /// The point at `time` and `price`.
    pub fn new(time: Time, price: i64) -> (r: Self)
        ensures
            r == (Point { time, price }),
    {
        Self { time, price }
    }
}

} // verus!
