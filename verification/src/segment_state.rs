//! The third layer as a mathematical object: the state of the segment
//! detector and the function that takes it from one pen event to the next.
//!
//! A segment is a run of pens. The pens that run against it form its
//! characteristic sequence, and the segment ends where that sequence, once
//! its elements are merged, forms a fractal. The detector keeps the pen
//! endpoints since the start of the segment in progress and up to two
//! hypotheses: a fractal that may end the segment and, where its first two
//! elements leave a gap, a fractal of the other kind that may end the
//! segment after it.

use crate::direction::Direction;
use crate::event::{PenEvent, SegmentEventView};
use crate::fx::FxType;
use crate::point::Point;
use crate::time::Time;
use vstd::prelude::*;

verus! {

/// One element of a characteristic sequence: the price range of a pen, or of
/// several merged ones.
#[derive(Debug, Clone, Copy, PartialEq, Eq, Structural)]
pub struct SeqRange {
    pub high: i64,
    pub low: i64,
}

impl SeqRange {
    /// The range between two prices, given in either order.
    pub open spec fn spanning(from: i64, to: i64) -> SeqRange {
        if from > to {
            SeqRange { high: from, low: to }
        } else {
            SeqRange { high: to, low: from }
        }
    }

    /// Whether one of the two ranges lies strictly inside the other.
    pub open spec fn nests_with(self, other: SeqRange) -> bool {
        (self.high > other.high && self.low < other.low) || (self.high < other.high && self.low
            > other.low)
    }

    /// The two ranges merged in `direction`: going up, the higher high and
    /// the higher low; going down, the lower of each.
    pub open spec fn absorbed(self, other: SeqRange, direction: Direction) -> SeqRange {
        match direction {
            Direction::Up => SeqRange {
                high: if self.high > other.high {
                    self.high
                } else {
                    other.high
                },
                low: if self.low > other.low {
                    self.low
                } else {
                    other.low
                },
            },
            Direction::Down => SeqRange {
                high: if self.high < other.high {
                    self.high
                } else {
                    other.high
                },
                low: if self.low < other.low {
                    self.low
                } else {
                    other.low
                },
            },
        }
    }

    /// The range between two prices, given in either order.
    pub fn new(from: i64, to: i64) -> (r: Self)
        ensures
            r == Self::spanning(from, to),
    {
        if from > to {
            Self { high: from, low: to }
        } else {
            Self { high: to, low: from }
        }
    }

    /// Merges the range between `from` and `to` into this one if one of the
    /// two lies strictly inside the other, and says whether it did.
    pub fn merge(&mut self, from: i64, to: i64, direction: Direction) -> (r: bool)
        ensures
            r == old(self).nests_with(Self::spanning(from, to)),
            r ==> *final(self) == old(self).absorbed(Self::spanning(from, to), direction),
            !r ==> *final(self) == *old(self),
    {
        let other = Self::new(from, to);
        let prev_include_next = self.high > other.high && self.low < other.low;
        let next_include_prev = self.high < other.high && self.low > other.low;
        if !prev_include_next && !next_include_prev {
            return false;
        }
        match direction {
            Direction::Up => {
                if other.high > self.high {
                    self.high = other.high;
                }
                if other.low > self.low {
                    self.low = other.low;
                }
            },
            Direction::Down => {
                if other.high < self.high {
                    self.high = other.high;
                }
                if other.low < self.low {
                    self.low = other.low;
                }
            },
        }
        true
    }
}

/// A hypothesis: a fractal of the characteristic sequence that may end a
/// segment.
#[derive(Debug, Clone, Copy, PartialEq, Eq, Structural)]
pub struct State {
    /// The time of the extreme point.
    pub time: Time,
    /// The price of the extreme point.
    pub price: i64,
    /// The position of the extreme point among the detector's points.
    pub potential_index: usize,
    /// A top ends a segment that runs up, a bottom one that runs down.
    pub fx_type: FxType,
    /// Whether the first two elements of the fractal leave a gap.
    pub has_gap: bool,
    /// The second element of the fractal, with what has been merged into it.
    pub k2: SeqRange,
    /// Whether a third element has refused to merge with the second, which
    /// completes the fractal.
    pub confirm: bool,
}

impl State {
    /// A hypothesis that is not confirmed yet.
    pub fn new(
        time: Time,
        price: i64,
        potential_index: usize,
        fx_type: FxType,
        has_gap: bool,
        k2: SeqRange,
    ) -> (r: Self)
        ensures
            r == (State { time, price, potential_index, fx_type, has_gap, k2, confirm: false }),
    {
        Self { time, price, potential_index, fx_type, has_gap, k2, confirm: false }
    }
}

/// The kind of fractal that ends a segment running in `direction`.
pub open spec fn terminator(direction: Direction) -> FxType {
    match direction {
        Direction::Up => FxType::Top,
        Direction::Down => FxType::Bottom,
    }
}

/// The direction of a segment that a fractal of kind `fx_type` ends.
pub open spec fn running_to(fx_type: FxType) -> Direction {
    match fx_type {
        FxType::Top => Direction::Up,
        FxType::Bottom => Direction::Down,
    }
}

/// Whether price `a` lies strictly beyond price `b` on the side of the
/// extreme of a fractal of kind `fx_type`: above for a top, below for a
/// bottom.
pub open spec fn beyond(fx_type: FxType, a: i64, b: i64) -> bool {
    match fx_type {
        FxType::Top => a > b,
        FxType::Bottom => a < b,
    }
}

/// Whether the last three points go down and up again, or up and down
/// again. Fewer than three points always do.
pub open spec fn alternates_at_tail(points: Seq<Point>) -> bool {
    let len = points.len() as int;
    len < 3 || {
        let p1 = points[len - 1].price;
        let p2 = points[len - 2].price;
        let p3 = points[len - 3].price;
        (p1 < p2 && p2 > p3) || (p1 > p2 && p3 > p2)
    }
}

/// The direction of the first segment, as the last four points show it: up
/// if they rise, fall back less than they rose, and rise beyond the first
/// peak; down if they do the reverse. No direction shows with fewer than four
/// points or in any other shape.
pub open spec fn first_segment(points: Seq<Point>) -> Option<Direction> {
    let len = points.len() as int;
    if len < 4 {
        None
    } else {
        let p1 = points[len - 4].price;
        let p2 = points[len - 3].price;
        let p3 = points[len - 2].price;
        let p4 = points[len - 1].price;
        if p1 < p2 && p2 > p3 && p3 > p1 && p4 > p3 && p4 > p2 {
            Some(Direction::Up)
        } else if p1 > p2 && p2 < p3 && p3 < p1 && p4 < p3 && p4 < p2 {
            Some(Direction::Down)
        } else {
            None
        }
    }
}

/// The candidate for a segment's end among the points after position
/// `start`: with at least five of them, the last point but two, if it is not
/// lower than the point two before it and higher than the point two after it
/// (a top), or not higher and lower (a bottom).
pub open spec fn potential_point(points: Seq<Point>, start: int) -> Option<(FxType, int)> {
    let len = points.len() as int;
    if len - start < 5 {
        None
    } else {
        let p1 = points[len - 5].price;
        let p2 = points[len - 3].price;
        let p3 = points[len - 1].price;
        if p1 <= p2 && p2 > p3 {
            Some((FxType::Top, len - 3))
        } else if p1 >= p2 && p2 < p3 {
            Some((FxType::Bottom, len - 3))
        } else {
            None
        }
    }
}

/// The most extreme price met on the walk back from position `pos` in steps
/// of two, `best` included. The walk ends before position `start`, and before
/// any point that lies beyond `extreme`.
pub open spec fn secondary_price(
    points: Seq<Point>,
    pos: int,
    start: int,
    fx_type: FxType,
    extreme: i64,
    best: i64,
) -> i64
    recommends
        0 <= start,
        pos < points.len(),
    decreases pos + 2,
{
    if pos <= start || pos < 0 {
        best
    } else if beyond(fx_type, points[pos].price, extreme) {
        best
    } else {
        secondary_price(
            points,
            pos - 2,
            start,
            fx_type,
            extreme,
            if beyond(fx_type, points[pos].price, best) {
                points[pos].price
            } else {
                best
            },
        )
    }
}

/// The hypothesis that the points after position `start` give rise to, if
/// any: the candidate, provided that it has a neighbour two before it that is
/// not the very first point. There is a gap if the point after the candidate
/// lies beyond the most extreme of the points two, four, ... before it.
pub open spec fn potential_fx(points: Seq<Point>, start: int) -> Option<State> {
    match potential_point(points, start) {
        None => None,
        Some((fx_type, index)) => if index < 3 {
            None
        } else {
            let extreme = points[index].price;
            let to = points[index + 1].price;
            let secondary = secondary_price(
                points,
                index - 4,
                start,
                fx_type,
                extreme,
                points[index - 2].price,
            );
            Some(
                State {
                    time: points[index].time,
                    price: extreme,
                    potential_index: index as usize,
                    fx_type,
                    has_gap: beyond(fx_type, to, secondary),
                    k2: SeqRange::spanning(extreme, to),
                    confirm: false,
                },
            )
        },
    }
}

/// The state of the detector as a mathematical value.
pub struct SegState {
    /// The pen endpoints from the start of the segment in progress on.
    pub points: Seq<Point>,
    /// The fractal that may end the segment in progress.
    pub potential_state: Option<State>,
    /// The fractal of the other kind that may end the segment after it.
    pub state_for_case2: Option<State>,
    /// The direction of the segment in progress, once a segment has been
    /// reported.
    pub direction: Option<Direction>,
    /// Whether no segment has been reported yet.
    pub is_first_segment: bool,
}

impl SegState {
    /// The state before any event.
    pub open spec fn init() -> SegState {
        SegState {
            points: Seq::empty(),
            potential_state: None,
            state_for_case2: None,
            direction: None,
            is_first_segment: true,
        }
    }

    /// Whether the latest point lies beyond the extreme of the first
    /// hypothesis, which refutes it.
    pub open spec fn broken(self) -> bool {
        let fx1 = self.potential_state->0;
        beyond(fx1.fx_type, self.points.last().price, self.points[fx1.potential_index as int].price)
    }

    /// Both hypotheses dropped if the first one is refuted.
    pub open spec fn after_break_check(self) -> SegState {
        if self.broken() {
            SegState { potential_state: None, state_for_case2: None, ..self }
        } else {
            self
        }
    }

    /// The search for a first hypothesis: one is adopted if it is of the kind
    /// that ends a segment in the current direction, or of any kind while
    /// there is no direction.
    pub open spec fn after_search_fx1(self) -> SegState {
        match potential_fx(self.points, 0) {
            Some(found) if self.direction is None || found.fx_type == terminator(
                self.direction->0,
            ) => SegState { potential_state: Some(found), ..self },
            _ => self,
        }
    }

    /// The search for a second hypothesis among the points after the first
    /// one: it must be of the other kind than the first, which is the kind
    /// that ends a segment against the current direction.
    pub open spec fn after_search_fx2(self) -> SegState {
        let fx1 = self.potential_state->0;
        match potential_fx(self.points, fx1.potential_index as int) {
            Some(found) if found.fx_type != fx1.fx_type && (self.direction is None
                || found.fx_type == terminator(self.direction->0).opposite()) => SegState {
                state_for_case2: Some(found),
                ..self
            },
            _ => self,
        }
    }

    /// Where the segment that ends at position `end_index` starts: at the
    /// first point, but at the second if this is the first segment and an
    /// even number of pens precede `end_index`. A segment is made of an odd
    /// number of pens, so one of the two positions is its start.
    pub open spec fn start_offset(self, end_index: int) -> int {
        if self.is_first_segment && end_index % 2 == 0 {
            1
        } else {
            0
        }
    }

    /// The latest pen as an element of the characteristic sequence.
    pub open spec fn latest_element(self) -> SeqRange {
        let len = self.points.len() as int;
        SeqRange::spanning(self.points[len - 2].price, self.points[len - 1].price)
    }

    /// The segment in progress ends at the first hypothesis. The points
    /// before its end leave the detector; those strictly between start and
    /// end go into the event. The direction is now against that segment.
    pub open spec fn confirm_one(self) -> (SegState, Option<SegmentEventView>) {
        let fx1 = self.potential_state->0;
        let end = fx1.potential_index as int;
        let start = self.start_offset(end);
        (
            SegState {
                points: self.points.subrange(end, self.points.len() as int),
                potential_state: None,
                direction: Some(running_to(fx1.fx_type).reversed()),
                is_first_segment: false,
                ..self
            },
            Some(
                SegmentEventView::New(
                    self.points[start],
                    self.points[end],
                    self.points.subrange(start + 1, end),
                ),
            ),
        )
    }

    /// The second hypothesis is confirmed, and with it the first. If the
    /// second has no gap, two segments end at once, and the direction is
    /// again that of the first. If it has one, only the first segment ends:
    /// the second hypothesis becomes the first, confirmed and counted from
    /// the new start, and awaits a hypothesis of the other kind in its turn.
    pub open spec fn confirm_two(self) -> (SegState, Option<SegmentEventView>) {
        let fx1 = self.potential_state->0;
        let fx2 = self.state_for_case2->0;
        let end = fx1.potential_index as int;
        let end2 = fx2.potential_index as int;
        let start = self.start_offset(end);
        if !fx2.has_gap {
            (
                SegState {
                    points: self.points.subrange(end2, self.points.len() as int),
                    potential_state: None,
                    state_for_case2: None,
                    direction: Some(running_to(fx1.fx_type)),
                    is_first_segment: false,
                },
                Some(
                    SegmentEventView::New2(
                        self.points[start],
                        self.points[end],
                        self.points[end2],
                        self.points.subrange(start + 1, end),
                        self.points.subrange(end + 1, end2),
                    ),
                ),
            )
        } else {
            (
                SegState {
                    points: self.points.subrange(end, self.points.len() as int),
                    potential_state: Some(
                        State { potential_index: (end2 - end) as usize, confirm: true, ..fx2 },
                    ),
                    state_for_case2: None,
                    direction: Some(running_to(fx1.fx_type).reversed()),
                    is_first_segment: false,
                },
                Some(
                    SegmentEventView::New(
                        self.points[start],
                        self.points[end],
                        self.points.subrange(start + 1, end),
                    ),
                ),
            )
        }
    }

    /// The latest pen is held against the second element of the first
    /// hypothesis. If the two merge, the hypothesis stays open. If not, it is
    /// confirmed, and without a gap the segment ends at once.
    pub open spec fn after_fx1_confirm(self) -> (SegState, Option<SegmentEventView>) {
        let fx1 = self.potential_state->0;
        let third = self.latest_element();
        if fx1.k2.nests_with(third) {
            (
                SegState {
                    potential_state: Some(
                        State { k2: fx1.k2.absorbed(third, running_to(fx1.fx_type)), ..fx1 },
                    ),
                    ..self
                },
                None,
            )
        } else {
            let confirmed = SegState {
                potential_state: Some(State { confirm: true, ..fx1 }),
                ..self
            };
            if !fx1.has_gap {
                confirmed.confirm_one()
            } else {
                (confirmed, None)
            }
        }
    }

    /// The latest pen is held against the second element of the second
    /// hypothesis. If the two merge, the hypothesis stays open. If not, both
    /// hypotheses are confirmed.
    pub open spec fn after_fx2_confirm(self) -> (SegState, Option<SegmentEventView>) {
        let fx2 = self.state_for_case2->0;
        let third = self.latest_element();
        if fx2.k2.nests_with(third) {
            (
                SegState {
                    state_for_case2: Some(
                        State { k2: fx2.k2.absorbed(third, running_to(fx2.fx_type)), ..fx2 },
                    ),
                    ..self
                },
                None,
            )
        } else {
            SegState { state_for_case2: Some(State { confirm: true, ..fx2 }), ..self }.confirm_two()
        }
    }

    /// Whether the number of points from position `index` on is even: the
    /// latest pen then runs against the segment that would end at `index`.
    pub open spec fn even_from(self, index: usize) -> bool {
        (self.points.len() - index) % 2 == 0
    }

    /// What the detector makes of its points once the latest of them is
    /// final.
    ///
    /// Without a hypothesis it looks for one, at every other point once
    /// there is a direction. A hypothesis is tested at every other point,
    /// where the number of points from its extreme on is even: the first
    /// one for confirmation, until it is confirmed; then, if it has a gap, a
    /// second one is sought there, and tested for confirmation in its turn.
    /// At the points in between, the first hypothesis is tested for
    /// refutation.
    ///
    /// So each point serves one test only. The point that confirms the
    /// second hypothesis is not held against the first, though it may lie
    /// beyond it: both segments stand then. The detector reports more
    /// segments this way than it would if every point were held against the
    /// first hypothesis before anything else.
    pub open spec fn process(self) -> (SegState, Option<SegmentEventView>) {
        match (self.potential_state, self.state_for_case2) {
            (None, _) => if self.points.len() % 2 == 0 || self.direction is None {
                (self.after_search_fx1(), None)
            } else {
                (self, None)
            },
            (Some(fx1), fx2) => if !fx1.confirm {
                if self.even_from(fx1.potential_index) {
                    self.after_fx1_confirm()
                } else {
                    (self.after_break_check(), None)
                }
            } else if !fx1.has_gap {
                (self, None)
            } else {
                match fx2 {
                    None => if self.even_from(fx1.potential_index) {
                        (self.after_search_fx2(), None)
                    } else {
                        (self.after_break_check(), None)
                    },
                    Some(fx2) => if fx2.confirm {
                        (self, None)
                    } else if self.even_from(fx2.potential_index) {
                        self.after_fx2_confirm()
                    } else {
                        (self.after_break_check(), None)
                    },
                }
            },
        }
    }

    /// What one pen event does: the state after it and the event it causes.
    ///
    /// A first pen adds its two ends. A new pen makes the latest point
    /// final: the detector takes its decisions on the points it has, and
    /// then adds the end of the new pen. An update replaces the latest
    /// point.
    pub open spec fn step(self, event: PenEvent) -> (SegState, Option<SegmentEventView>) {
        match event {
            PenEvent::New(_) => {
                let (next, out) = self.process();
                (SegState { points: event.applied_to(next.points), ..next }, out)
            },
            _ => (SegState { points: event.applied_to(self.points), ..self }, None),
        }
    }

    /// Whether a hypothesis fits the points: its extreme has two points
    /// before it and two after it, and it holds the time and the price of
    /// the point at its extreme.
    pub open spec fn fits(self, fx: State) -> bool {
        &&& 2 <= fx.potential_index
        &&& fx.potential_index + 3 <= self.points.len()
        &&& self.points[fx.potential_index as int] == (Point { time: fx.time, price: fx.price })
    }

    /// The decisions keep the state well-formed.
    pub proof fn lemma_process_wf(self)
        requires
            self.wf(),
        ensures
            self.process().0.wf(),
    {
        match self.potential_state {
            None => {
                assert(self.after_search_fx1().wf());
            },
            Some(fx1) => {
                assert(self.after_break_check().wf());
                if !fx1.confirm {
                    assert(self.after_fx1_confirm().0.wf());
                } else {
                    match self.state_for_case2 {
                        None => {
                            assert(self.after_search_fx2().wf());
                        },
                        Some(fx2) => {
                            assert(self.after_fx2_confirm().0.wf());
                        },
                    }
                }
            },
        }
    }

    /// One pen event keeps the state well-formed, as long as the points can
    /// be counted.
    pub proof fn lemma_step_wf(self, event: PenEvent)
        requires
            self.wf(),
            self.points.len() + 2 <= usize::MAX,
        ensures
            self.step(event).0.wf(),
            self.step(event).0.points.len() <= self.points.len() + 2,
    {
        self.lemma_process_wf();
    }

    /// What holds of every state that the detector reaches.
    ///
    /// The points can be counted, and there is a direction from the first
    /// segment on. A first hypothesis
    /// fits the points, is of the kind that ends a segment in the current
    /// direction, and if confirmed has a gap. A second hypothesis stands
    /// only beside a confirmed first one, at least two points after it, is of
    /// the other kind, and is not confirmed.
    pub open spec fn wf(self) -> bool {
        &&& self.points.len() <= usize::MAX
        &&& self.is_first_segment == (self.direction is None)
        &&& match self.potential_state {
            None => self.state_for_case2 is None,
            Some(fx1) => {
                &&& self.fits(fx1)
                &&& fx1.confirm ==> fx1.has_gap
                &&& self.direction matches Some(d) ==> fx1.fx_type == terminator(d)
                &&& match self.state_for_case2 {
                    None => true,
                    Some(fx2) => {
                        &&& fx1.confirm
                        &&& !fx2.confirm
                        &&& self.fits(fx2)
                        &&& fx1.potential_index + 2 <= fx2.potential_index
                        &&& fx2.fx_type != fx1.fx_type
                    },
                }
            },
        }
    }
}

} // verus!
