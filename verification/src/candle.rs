//! Merged candles and the rule that merges a bar into one.

use crate::bar::Bar;
use crate::direction::Direction;
use crate::time::Time;
use vstd::prelude::*;

verus! {

/// A bar, or a run of bars merged because each stood in containment with the
/// candle before it.
#[derive(Debug, Clone, Copy, PartialEq, Eq, Structural)]
pub struct Candle {
    /// The position of the candle in the stream of merged candles. Fractals
    /// carry it, so that their distance can be told without the candles.
    pub index: u64,
    pub time: Time,
    pub high: i64,
    pub low: i64,
}

impl Candle {
    /// Whether one of the two ranges encloses the other (a shared end counts).
    pub open spec fn in_containment(self, high: i64, low: i64) -> bool {
        (self.high >= high && self.low <= low) || (self.high <= high && self.low >= low)
    }

    /// The direction in which `k2` is merged, given its predecessor `k1`:
    /// down when the predecessor's high and low add up to more, else up.
    pub open spec fn spec_direction(k1: Candle, k2: Candle) -> Direction {
        if k1.high + k1.low > k2.high + k2.low {
            Direction::Down
        } else {
            Direction::Up
        }
    }

    /// The candle that absorbs `bar` in `direction`: going up it keeps the
    /// higher high and the higher low, going down the lower of each. It takes
    /// the bar's time when the bar sets the new extreme, and keeps its index.
    pub open spec fn merged(self, direction: Direction, bar: Bar) -> Candle {
        match direction {
            Direction::Up => Candle {
                index: self.index,
                time: if self.high < bar.high {
                    bar.time
                } else {
                    self.time
                },
                high: if bar.high > self.high {
                    bar.high
                } else {
                    self.high
                },
                low: if bar.low > self.low {
                    bar.low
                } else {
                    self.low
                },
            },
            Direction::Down => Candle {
                index: self.index,
                time: if self.low > bar.low {
                    bar.time
                } else {
                    self.time
                },
                high: if bar.high < self.high {
                    bar.high
                } else {
                    self.high
                },
                low: if bar.low < self.low {
                    bar.low
                } else {
                    self.low
                },
            },
        }
    }

    /// The candle made of `bar` alone.
    pub open spec fn of_bar(index: u64, bar: Bar) -> Candle {
        Candle { index, time: bar.time, high: bar.high, low: bar.low }
    }

    /// The candle with these four values.
    pub fn new(index: u64, time: Time, high: i64, low: i64) -> (r: Self)
        ensures
            r == (Candle { index, time, high, low }),
    {
        Self { index, time, high, low }
    }

    /// The candle made of `bar` alone.
    pub fn from_bar(index: u64, bar: &Bar) -> (r: Self)
        ensures
            r == Self::of_bar(index, *bar),
    {
        Self { index, time: bar.time, high: bar.high, low: bar.low }
    }

    /// The direction in which `k2` is merged, given its predecessor `k1`.
    pub fn check_direction(k1: &Candle, k2: &Candle) -> (r: Direction)
        ensures
            r == Self::spec_direction(*k1, *k2),
    {
        let s1: i128 = k1.high as i128 + k1.low as i128;
        let s2: i128 = k2.high as i128 + k2.low as i128;
        if s1 > s2 {
            Direction::Down
        } else {
            Direction::Up
        }
    }

    /// Merges `bar` into `current` if the two stand in containment, and says
    /// whether they did.
    pub fn merge(direction: Direction, current: &mut Candle, bar: &Bar) -> (r: bool)
        ensures
            r == old(current).in_containment(bar.high, bar.low),
            r ==> *final(current) == old(current).merged(direction, *bar),
            !r ==> *final(current) == *old(current),
    {
        if (current.high >= bar.high && current.low <= bar.low) || (current.high <= bar.high
            && current.low >= bar.low) {
            match direction {
                Direction::Down => {
                    if current.low > bar.low {
                        current.time = bar.time;
                    }
                    if bar.high < current.high {
                        current.high = bar.high;
                    }
                    if bar.low < current.low {
                        current.low = bar.low;
                    }
                },
                Direction::Up => {
                    if current.high < bar.high {
                        current.time = bar.time;
                    }
                    if bar.high > current.high {
                        current.high = bar.high;
                    }
                    if bar.low > current.low {
                        current.low = bar.low;
                    }
                },
            }
            true
        } else {
            false
        }
    }
}

} // verus!
