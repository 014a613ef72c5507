//! The rules by which two fractals bound a pen, and by which a fractal gives
//! way to a later one of its own kind.

use crate::fx::{Fx, FxType, PEN_DISTANCE};
use vstd::prelude::*;

verus! {

/// Whether to keep a fractal or to replace it by a later one of its kind.
#[derive(Debug, Clone, Copy, PartialEq, Eq, Structural)]
pub enum MergeAction {
    Keep,
    Replace,
}

/// Whether the middle candle of `rhs` lies wholly beyond that of `lhs` on the
/// side of the extreme of `lhs`: above a top, with both ends higher, or below
/// a bottom, with both ends lower.
pub open spec fn spec_fx_is_contain(lhs: Fx, rhs: Fx) -> bool {
    ||| (lhs.fx_type == FxType::Top && lhs.spec_range_low() < rhs.spec_range_low()
        && lhs.spec_range_high() < rhs.spec_range_high())
    ||| (lhs.fx_type == FxType::Bottom && lhs.spec_range_high() > rhs.spec_range_high()
        && lhs.spec_range_low() > rhs.spec_range_low())
}

/// Whether `f2` lies beyond `f1` in the direction in which a pen from `f1`
/// runs: strictly lower than a top, strictly higher than a bottom.
pub open spec fn runs_from(f1: Fx, f2: Fx) -> bool {
    match f1.fx_type {
        FxType::Top => f2.price < f1.price,
        FxType::Bottom => f2.price > f1.price,
    }
}

/// Whether a pen runs from `f1` to `f2`: the two are of opposite kinds, at
/// least four candles apart, the second lies strictly beyond the first in
/// the pen's direction, and the two are not in fractal containment.
pub open spec fn is_pen(f1: Fx, f2: Fx) -> bool {
    &&& f1.fx_type != f2.fx_type
    &&& f1.spec_distance(f2) >= PEN_DISTANCE
    &&& runs_from(f1, f2)
    &&& !spec_fx_is_contain(f1, f2)
}

/// Whether `next` is strictly more extreme than `prev`, a fractal of the same
/// kind: a higher top, a lower bottom. An equal price does not exceed.
pub open spec fn exceeds(prev: Fx, next: Fx) -> bool {
    match prev.fx_type {
        FxType::Top => next.price > prev.price,
        FxType::Bottom => next.price < prev.price,
    }
}

/// Whether a pen runs from `f1` to `f2`.
pub fn detect_is_pen(f1: &Fx, f2: &Fx) -> (r: bool)
    ensures
        r == is_pen(*f1, *f2),
{
    if f1.fx_type == FxType::Top && f2.fx_type == FxType::Bottom && f1.has_enough_distance(f2)
        && f2.price() < f1.price() && !fx_is_contain(f1, f2) {
        return true;
    }
    if f1.fx_type == FxType::Bottom && f2.fx_type == FxType::Top && f1.has_enough_distance(f2)
        && f2.price() > f1.price() && !fx_is_contain(f1, f2) {
        return true;
    }
    false
}

/// Whether `lhs` and `rhs` are in fractal containment.
pub fn fx_is_contain(lhs: &Fx, rhs: &Fx) -> (r: bool)
    ensures
        r == spec_fx_is_contain(*lhs, *rhs),
{
    (lhs.fx_type == FxType::Top && lhs.range_low() < rhs.range_low() && lhs.range_high()
        < rhs.range_high()) || (lhs.fx_type == FxType::Bottom && lhs.range_high()
        > rhs.range_high() && lhs.range_low() > rhs.range_low())
}

/// Of two fractals of one kind, says whether the later one takes the place
/// of the earlier one.
pub fn merge_same_fx_type(prev: &Fx, next: &Fx) -> (r: MergeAction)
    requires
        prev.fx_type == next.fx_type,
    ensures
        r == if exceeds(*prev, *next) {
            MergeAction::Replace
        } else {
            MergeAction::Keep
        },
{
    if prev.fx_type == FxType::Top {
        if next.price > prev.price {
            MergeAction::Replace
        } else {
            MergeAction::Keep
        }
    } else {
        if next.price < prev.price {
            MergeAction::Replace
        } else {
            MergeAction::Keep
        }
    }
}

} // verus!
