//! Fractals: turning points on the sequence of merged candles.

use crate::time::Time;
use vstd::prelude::*;

verus! {

/// The kind of a turning point.
#[derive(Debug, Clone, Copy, PartialEq, Eq, Structural)]
pub enum FxType {
    Top,
    Bottom,
}

impl FxType {
    /// The other kind.
    pub open spec fn opposite(self) -> FxType {
        match self {
            FxType::Top => FxType::Bottom,
            FxType::Bottom => FxType::Top,
        }
    }
}

/// A fractal: the middle one of three merged candles, higher than both its
/// neighbours (a top) or lower than both (a bottom).
#[derive(Debug, Clone, Copy, PartialEq, Eq, Structural)]
pub struct Fx {
    pub fx_type: FxType,
    /// The index of the middle candle.
    pub index: u64,
    /// The time of the middle candle.
    pub time: Time,
    /// The extreme: the high of a top, the low of a bottom.
    pub price: i64,
    /// The other end of the middle candle.
    pub aux: i64,
}

/// The minimal distance between the two fractals of a pen.
pub const PEN_DISTANCE: u64 = 4;

impl Fx {
    /// The number of merged candles from one fractal's middle to the other's.
    pub open spec fn spec_distance(self, other: Fx) -> int {
        if other.index > self.index {
            other.index - self.index
        } else {
            self.index - other.index
        }
    }

    /// The upper end of the middle candle.
    pub open spec fn spec_range_high(self) -> i64 {
        if self.fx_type == FxType::Top {
            self.price
        } else {
            self.aux
        }
    }

    /// The lower end of the middle candle.
    pub open spec fn spec_range_low(self) -> i64 {
        if self.fx_type == FxType::Top {
            self.aux
        } else {
            self.price
        }
    }

    /// The fractal with these five values.
    pub fn new(fx_type: FxType, index: u64, time: Time, price: i64, aux: i64) -> (r: Self)
        ensures
            r == (Fx { fx_type, index, time, price, aux }),
    {
        Self { fx_type, index, time, price, aux }
    }

    /// The number of merged candles from one fractal's middle to the other's.
    pub fn distance(&self, other: &Fx) -> (r: u64)
        ensures
            r == self.spec_distance(*other),
    {
        if other.index > self.index {
            other.index - self.index
        } else {
            self.index - other.index
        }
    }

    /// Whether the two fractals lie far enough apart to bound a pen.
    pub fn has_enough_distance(&self, other: &Fx) -> (r: bool)
        ensures
            r == (self.spec_distance(*other) >= PEN_DISTANCE),
    {
        self.distance(other) >= PEN_DISTANCE
    }

    /// Whether both are tops or both are bottoms.
    pub fn is_same_type(&self, other: &Fx) -> (r: bool)
        ensures
            r == (self.fx_type == other.fx_type),
    {
        self.fx_type == other.fx_type
    }

    /// The time of the middle candle.
    pub fn time(&self) -> (r: Time)
        ensures
            r == self.time,
    {
        self.time
    }

    /// Top or bottom.
    pub fn fx_type(&self) -> (r: FxType)
        ensures
            r == self.fx_type,
    {
        self.fx_type
    }

    /// The extreme price.
    pub fn price(&self) -> (r: i64)
        ensures
            r == self.price,
    {
        self.price
    }

    /// The upper end of the middle candle.
    pub fn range_high(&self) -> (r: i64)
        ensures
            r == self.spec_range_high(),
    {
        if self.fx_type == FxType::Top {
            self.price
        } else {
            self.aux
        }
    }

    /// The lower end of the middle candle.
    pub fn range_low(&self) -> (r: i64)
        ensures
            r == self.spec_range_low(),
    {
        if self.fx_type == FxType::Top {
            self.aux
        } else {
            self.price
        }
    }
}

} // verus!
