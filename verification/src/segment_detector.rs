//! The third layer: groups pens into segments.

use crate::direction::Direction;
use crate::event::{PenEvent, SegmentEvent, SegmentEventView};
use crate::fx::FxType;
use crate::point::Point;
use crate::segment_state::{
    alternates_at_tail, beyond, first_segment, potential_fx, potential_point, running_to,
    secondary_price, SegState, SeqRange, State,
};
use vstd::prelude::*;

verus! {

/// An optional segment event with sequences in place of vectors.
pub open spec fn view_of(event: Option<SegmentEvent>) -> Option<SegmentEventView> {
    match event {
        Some(e) => Some(e@),
        None => None,
    }
}

/// The segment detector.
#[derive(Debug)]
pub struct SegmentDetector {
    points: Vec<Point>,
    potential_state: Option<State>,
    state_for_case2: Option<State>,
    direction: Option<Direction>,
    is_first_segment: bool,
}

impl View for SegmentDetector {
    type V = SegState;

    closed spec fn view(&self) -> SegState {
        SegState {
            points: self.points@,
            potential_state: self.potential_state,
            state_for_case2: self.state_for_case2,
            direction: self.direction,
            is_first_segment: self.is_first_segment,
        }
    }
}

fn lies_beyond(fx_type: FxType, a: i64, b: i64) -> (r: bool)
    ensures
        r == beyond(fx_type, a, b),
{
    match fx_type {
        FxType::Top => a > b,
        FxType::Bottom => a < b,
    }
}

fn direction_to(fx_type: FxType) -> (r: Direction)
    ensures
        r == running_to(fx_type),
{
    match fx_type {
        FxType::Top => Direction::Up,
        FxType::Bottom => Direction::Down,
    }
}

impl SegmentDetector {
    /// The detector is in a state that `new` and its methods can reach.
    pub open spec fn wf(&self) -> bool {
        self@.wf()
    }

    /// A detector that has seen no event.
    pub fn new() -> (r: Self)
        ensures
            r.wf(),
            r@ == SegState::init(),
    {
        Self {
            points: Vec::new(),
            potential_state: None,
            state_for_case2: None,
            direction: None,
            is_first_segment: true,
        }
    }

    /// The pen endpoints from the start of the segment in progress on.
    pub fn points(&self) -> (r: &Vec<Point>)
        ensures
            r@ == self@.points,
    {
        &self.points
    }

    /// The fractal that may end the segment in progress.
    pub fn potential_state(&self) -> (r: Option<State>)
        ensures
            r == self@.potential_state,
    {
        self.potential_state
    }

    /// The fractal that may end the segment after the one in progress.
    pub fn state_for_case2(&self) -> (r: Option<State>)
        ensures
            r == self@.state_for_case2,
    {
        self.state_for_case2
    }

    /// The direction of the segment in progress.
    pub fn direction(&self) -> (r: Option<Direction>)
        ensures
            r == self@.direction,
    {
        self.direction
    }

    /// Whether no segment has been reported yet.
    pub fn is_first_segment(&self) -> (r: bool)
        ensures
            r == self@.is_first_segment,
    {
        self.is_first_segment
    }

    /// Whether the last three points go down and up again, or up and down
    /// again, as the ends of pens do.
    pub fn verify_point(&self) -> (r: bool)
        ensures
            r == alternates_at_tail(self@.points),
    {
        let len = self.points.len();
        if len < 3 {
            return true;
        }
        let p1 = self.points[len - 1].price;
        let p2 = self.points[len - 2].price;
        let p3 = self.points[len - 3].price;
        let is_down = p1 < p2 && p2 > p3;
        let is_up = p1 > p2 && p3 > p2;
        is_down || is_up
    }

    /// While no segment has been reported: the direction in which the first
    /// segment runs, if the last four points show one.
    pub fn find_first_segment(&self) -> (r: Option<Direction>)
        ensures
            r == if self@.direction is None {
                first_segment(self@.points)
            } else {
                None
            },
    {
        let len = self.points.len();
        if self.direction.is_some() || len < 4 {
            return None;
        }
        let p1 = self.points[len - 4].price;
        let p2 = self.points[len - 3].price;
        let p3 = self.points[len - 2].price;
        let p4 = self.points[len - 1].price;
        if p1 < p2 && p2 > p3 && p3 > p1 && p4 > p3 && p4 > p2 {
            Some(Direction::Up)
        } else if p1 > p2 && p2 < p3 && p3 < p1 && p4 < p3 && p4 < p2 {
            Some(Direction::Down)
        } else {
            None
        }
    }

    // Takes the first `at` points out of the detector.
    fn take_front(&mut self, at: usize) -> (front: Vec<Point>)
        requires
            at <= old(self)@.points.len(),
        ensures
            front@ == old(self)@.points.subrange(0, at as int),
            final(self)@ == (SegState {
                points: old(self)@.points.subrange(at as int, old(self)@.points.len() as int),
                ..old(self)@
            }),
    {
        let mut rest = self.points.split_off(at);
        std::mem::swap(&mut self.points, &mut rest);
        rest
    }

    // Finds the start of the segment among the points before its end, and
    // leaves in `points` what lies strictly between start and end.
    fn check_is_first_segment(&mut self, points: &mut Vec<Point>) -> (start: Point)
        requires
            old(points)@.len() >= 2,
        ensures
            start == old(points)@[old(self)@.start_offset(old(points)@.len() as int)],
            final(points)@ == old(points)@.subrange(
                old(self)@.start_offset(old(points)@.len() as int) + 1,
                old(points)@.len() as int,
            ),
            final(self)@ == (SegState { is_first_segment: false, ..old(self)@ }),
    {
        if self.is_first_segment {
            if points.len() % 2 == 0 {
                points.remove(0);
            }
            self.is_first_segment = false;
        }
        let start = points.remove(0);
        assert(points@ =~= old(points)@.subrange(
            old(self)@.start_offset(old(points)@.len() as int) + 1,
            old(points)@.len() as int,
        ));
        start
    }

    // The segment in progress ends at the first hypothesis.
    fn post_case1_segment_confirmed(&mut self) -> (r: Option<SegmentEvent>)
        requires
            old(self)@.potential_state is Some,
            old(self)@.fits(old(self)@.potential_state->0),
        ensures
            (final(self)@, view_of(r)) == old(self)@.confirm_one(),
    {
        let fx1 = self.potential_state.unwrap();
        let end_index = fx1.potential_index;
        let end = self.points[end_index];
        let mut points = self.take_front(end_index);
        let start = self.check_is_first_segment(&mut points);
        assert(points@ =~= old(self)@.points.subrange(
            old(self)@.start_offset(end_index as int) + 1,
            end_index as int,
        ));
        let event = SegmentEvent::New(start, end, points);
        self.direction = Some(direction_to(fx1.fx_type).reverse());
        self.potential_state = None;
        Some(event)
    }

    // Both hypotheses are confirmed.
    fn post_case2_segment_confirmed(&mut self) -> (r: Option<SegmentEvent>)
        requires
            old(self)@.potential_state is Some,
            old(self)@.state_for_case2 is Some,
            old(self)@.fits(old(self)@.potential_state->0),
            old(self)@.fits(old(self)@.state_for_case2->0),
            old(self)@.potential_state->0.potential_index + 2 <= old(
                self,
            )@.state_for_case2->0.potential_index,
        ensures
            (final(self)@, view_of(r)) == old(self)@.confirm_two(),
    {
        let fx1 = self.potential_state.unwrap();
        let fx2 = self.state_for_case2.unwrap();
        let end_index = fx1.potential_index;
        let end = self.points[end_index];
        let end2_index = fx2.potential_index;
        let end2 = self.points[end2_index];
        let mut points = self.take_front(end_index);
        let start = self.check_is_first_segment(&mut points);
        assert(points@ =~= old(self)@.points.subrange(
            old(self)@.start_offset(end_index as int) + 1,
            end_index as int,
        ));
        if !fx2.has_gap {
            let mut points2 = self.take_front(end2_index - end_index);
            points2.remove(0);
            assert(points2@ =~= old(self)@.points.subrange(end_index + 1, end2_index as int));
            assert(self.points@ =~= old(self)@.points.subrange(
                end2_index as int,
                old(self)@.points.len() as int,
            ));
            let event = SegmentEvent::New2(start, end, end2, points, points2);
            self.direction = Some(direction_to(fx1.fx_type));
            self.state_for_case2 = None;
            self.potential_state = None;
            Some(event)
        } else {
            let event = SegmentEvent::New(start, end, points);
            self.direction = Some(direction_to(fx1.fx_type).reverse());
            let mut promoted = fx2;
            promoted.potential_index = end2_index - end_index;
            promoted.confirm = true;
            self.potential_state = Some(promoted);
            self.state_for_case2 = None;
            Some(event)
        }
    }

    fn check_potential_point_is_broken(&self) -> (r: bool)
        requires
            self@.potential_state is Some,
            self@.fits(self@.potential_state->0),
        ensures
            r == self@.broken(),
    {
        let state = self.potential_state.unwrap();
        let extreme_price = self.points[state.potential_index].price;
        let now_price = self.points[self.points.len() - 1].price;
        lies_beyond(state.fx_type, now_price, extreme_price)
    }

    fn check_fx1_is_broken(&mut self) -> (r: bool)
        requires
            old(self)@.potential_state is Some,
            old(self)@.fits(old(self)@.potential_state->0),
        ensures
            r == old(self)@.broken(),
            final(self)@ == old(self)@.after_break_check(),
    {
        if self.check_potential_point_is_broken() {
            self.potential_state = None;
            self.state_for_case2 = None;
            return true;
        }
        false
    }

    // The candidate among the points after position `start`.
    fn find_potential_point(&self, start: usize) -> (r: Option<(FxType, usize)>)
        requires
            start <= self@.points.len(),
        ensures
            match r {
                Some((fx_type, index)) => potential_point(self@.points, start as int) == Some(
                    (fx_type, index as int),
                ),
                None => potential_point(self@.points, start as int) is None,
            },
    {
        let len = self.points.len();
        let current_len = len - start;
        if current_len < 5 {
            return None;
        }
        let p3 = &self.points[len - 1];
        let p2 = &self.points[len - 3];
        let p1 = &self.points[len - 5];
        let is_top = p1.price <= p2.price && p2.price > p3.price;
        let is_bottom = p1.price >= p2.price && p2.price < p3.price;
        if is_top {
            Some((FxType::Top, len - 3))
        } else if is_bottom {
            Some((FxType::Bottom, len - 3))
        } else {
            None
        }
    }

    // The hypothesis that the points after position `start` give rise to.
    fn find_potential_fx(&self, start: usize) -> (r: Option<State>)
        requires
            start <= self@.points.len(),
        ensures
            r == potential_fx(self@.points, start as int),
    {
        let result = self.find_potential_point(start);
        if result.is_none() {
            return None;
        }
        let (fx_type, potential_index) = result.unwrap();
        if potential_index < 3 {
            return None;
        }
        let extreme_price = self.points[potential_index].price;
        let mut best = self.points[potential_index - 2].price;
        let mut pos: usize = potential_index - 2;
        let mut stopped = false;
        while !stopped && pos >= 2 && pos - 2 > start
            invariant
                pos <= potential_index - 2,
                potential_index + 3 == self.points.len(),
                stopped ==> secondary_price(
                    self@.points,
                    potential_index - 4,
                    start as int,
                    fx_type,
                    extreme_price,
                    self@.points[potential_index - 2].price,
                ) == best,
                !stopped ==> secondary_price(
                    self@.points,
                    potential_index - 4,
                    start as int,
                    fx_type,
                    extreme_price,
                    self@.points[potential_index - 2].price,
                ) == secondary_price(
                    self@.points,
                    pos - 2,
                    start as int,
                    fx_type,
                    extreme_price,
                    best,
                ),
            decreases pos + (if stopped { 0int } else { 1int }),
        {
            let price = self.points[pos - 2].price;
            if lies_beyond(fx_type, price, extreme_price) {
                stopped = true;
            } else {
                if lies_beyond(fx_type, price, best) {
                    best = price;
                }
                pos -= 2;
            }
        }
        let time = self.points[potential_index].time;
        let to_price = self.points[potential_index + 1].price;
        let has_gap = lies_beyond(fx_type, to_price, best);
        let k2 = SeqRange::new(extreme_price, to_price);
        Some(State::new(time, extreme_price, potential_index, fx_type, has_gap, k2))
    }

    // Looks for a first hypothesis.
    fn search_fx1(&mut self)
        ensures
            final(self)@ == old(self)@.after_search_fx1(),
    {
        let state = self.find_potential_fx(0);
        if let Some(found) = state {
            match self.direction {
                None => {
                    self.potential_state = state;
                },
                Some(Direction::Up) => {
                    if found.fx_type == FxType::Top {
                        self.potential_state = state;
                    }
                },
                Some(Direction::Down) => {
                    if found.fx_type == FxType::Bottom {
                        self.potential_state = state;
                    }
                },
            }
        }
    }

    // Looks for a second hypothesis among the points after the first one.
    fn search_fx2(&mut self)
        requires
            old(self)@.potential_state is Some,
            old(self)@.fits(old(self)@.potential_state->0),
        ensures
            final(self)@ == old(self)@.after_search_fx2(),
    {
        let fx1 = self.potential_state.unwrap();
        let state = self.find_potential_fx(fx1.potential_index);
        if let Some(found) = state {
            if found.fx_type != fx1.fx_type {
                match self.direction {
                    None => {
                        self.state_for_case2 = state;
                    },
                    Some(Direction::Up) => {
                        if found.fx_type == FxType::Bottom {
                            self.state_for_case2 = state;
                        }
                    },
                    Some(Direction::Down) => {
                        if found.fx_type == FxType::Top {
                            self.state_for_case2 = state;
                        }
                    },
                }
            }
        }
    }

    // Tests the first hypothesis for confirmation by the latest pen.
    fn search_fx1_confirm(&mut self) -> (r: Option<SegmentEvent>)
        requires
            old(self)@.potential_state is Some,
            old(self)@.fits(old(self)@.potential_state->0),
        ensures
            (final(self)@, view_of(r)) == old(self)@.after_fx1_confirm(),
    {
        let mut fx1 = self.potential_state.unwrap();
        let len = self.points.len();
        let direction = direction_to(fx1.fx_type);
        let merge = fx1.k2.merge(self.points[len - 2].price, self.points[len - 1].price, direction);
        if !merge {
            fx1.confirm = true;
            self.potential_state = Some(fx1);
            if !fx1.has_gap {
                return self.post_case1_segment_confirmed();
            }
        } else {
            self.potential_state = Some(fx1);
        }
        None
    }

    // Tests the second hypothesis for confirmation by the latest pen.
    fn search_fx2_confirm(&mut self) -> (r: Option<SegmentEvent>)
        requires
            old(self)@.potential_state is Some,
            old(self)@.state_for_case2 is Some,
            old(self)@.fits(old(self)@.potential_state->0),
            old(self)@.fits(old(self)@.state_for_case2->0),
            old(self)@.potential_state->0.potential_index + 2 <= old(
                self,
            )@.state_for_case2->0.potential_index,
        ensures
            (final(self)@, view_of(r)) == old(self)@.after_fx2_confirm(),
    {
        let mut fx2 = self.state_for_case2.unwrap();
        let len = self.points.len();
        let direction = direction_to(fx2.fx_type);
        let merge = fx2.k2.merge(self.points[len - 2].price, self.points[len - 1].price, direction);
        if !merge {
            fx2.confirm = true;
            self.state_for_case2 = Some(fx2);
            return self.post_case2_segment_confirmed();
        }
        self.state_for_case2 = Some(fx2);
        None
    }

    /// Takes the decisions that are due once the latest point is final, and
    /// returns the segments that this confirms, if any.
    pub fn process(&mut self) -> (r: Option<SegmentEvent>)
        requires
            old(self).wf(),
            alternates_at_tail(old(self)@.points),
        ensures
            final(self).wf(),
            (final(self)@, view_of(r)) == old(self)@.process(),
    {
        proof {
            old(self)@.lemma_process_wf();
        }
        let len = self.points.len();
        match self.potential_state {
            None => {
                if len % 2 == 0 || self.direction.is_none() {
                    self.search_fx1();
                }
                None
            },
            Some(fx1) => {
                if !fx1.confirm {
                    if (len - fx1.potential_index) % 2 == 0 {
                        self.search_fx1_confirm()
                    } else {
                        self.check_fx1_is_broken();
                        None
                    }
                } else if !fx1.has_gap {
                    None
                } else {
                    match self.state_for_case2 {
                        None => {
                            if (len - fx1.potential_index) % 2 == 0 {
                                self.search_fx2();
                            } else {
                                self.check_fx1_is_broken();
                            }
                            None
                        },
                        Some(fx2) => {
                            if fx2.confirm {
                                None
                            } else if (len - fx2.potential_index) % 2 == 0 {
                                self.search_fx2_confirm()
                            } else {
                                self.check_fx1_is_broken();
                                None
                            }
                        },
                    }
                }
            },
        }
    }

    /// Takes the next pen event of the stream and returns the segments that
    /// it confirms, if any.
    pub fn on_pen_event(&mut self, pen_event: PenEvent) -> (r: Option<SegmentEvent>)
        requires
            old(self).wf(),
            pen_event is New ==> alternates_at_tail(old(self)@.points),
        ensures
            final(self).wf(),
            (final(self)@, view_of(r)) == old(self)@.step(pen_event),
    {
        let event = match pen_event {
            PenEvent::First(a, b) => {
                self.points.push(a);
                self.points.push(b);
                None
            },
            PenEvent::New(a) => {
                let event = self.process();
                self.points.push(a);
                event
            },
            PenEvent::UpdateTo(a) => {
                self.points.pop();
                self.points.push(a);
                None
            },
        };
        assert(self.points@.len() == self.points.len());
        event
    }
}

} // verus!
