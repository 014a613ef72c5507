//! The second layer: turns the stream of fractals into pens.
//!
//! Every decision is taken when a fractal arrives and is never revised.
//! No pen ends on a second-best high or low: a fractal that does not yet
//! bound a pen is held back until a later one settles the matter.

use crate::event::PenEvent;
use crate::fx::Fx;
use crate::pen_rule::{detect_is_pen, exceeds, is_pen, merge_same_fx_type, runs_from, MergeAction};
use crate::point::Point;
use crate::ringbuffer::RingBuffer;
use vstd::prelude::*;

verus! {

/// The number of fractals the detector keeps.
pub const WINDOW_SIZE: usize = 3;

/// The point that an event carries for a fractal.
pub open spec fn point_of(f: Fx) -> Point {
    Point { time: f.time, price: f.price }
}

/// The state of the detector as a mathematical value.
pub struct PenState {
    /// The fractals held, oldest first: at most three.
    pub window: Seq<Fx>,
    /// Whether the first pen has been reported.
    pub has_pen: bool,
}

impl PenState {
    /// The state before any fractal.
    pub open spec fn init() -> PenState {
        PenState { window: Seq::empty(), has_pen: false }
    }

    /// With one fractal `a` held and no pen yet. A fractal of the kind of
    /// `a` replaces it if it exceeds it. One of the other kind is kept as
    /// well, and the two are the first pen if they bound one.
    pub open spec fn step_single(self, f: Fx) -> (PenState, Option<PenEvent>) {
        let a = self.window[0];
        if a.fx_type == f.fx_type {
            if exceeds(a, f) {
                (PenState { window: seq![f], has_pen: false }, None)
            } else {
                (self, None)
            }
        } else if is_pen(a, f) {
            (
                PenState { window: seq![a, f], has_pen: true },
                Some(PenEvent::First(point_of(a), point_of(f))),
            )
        } else {
            (PenState { window: seq![a, f], has_pen: false }, None)
        }
    }

    /// With two fractals `a` and `b` held that bound no pen, and no pen yet.
    /// If `b` and the new fractal bound a pen, that is the first pen and `a`
    /// is dropped. Else a fractal of the kind of `b` that exceeds it takes
    /// its place, and makes the first pen if it bounds one with `a`; one of
    /// the kind of `a` that exceeds it starts over from itself.
    pub open spec fn step_pair(self, f: Fx) -> (PenState, Option<PenEvent>) {
        let a = self.window[0];
        let b = self.window[1];
        if is_pen(b, f) {
            (
                PenState { window: seq![b, f], has_pen: true },
                Some(PenEvent::First(point_of(b), point_of(f))),
            )
        } else if b.fx_type == f.fx_type {
            if !exceeds(b, f) {
                (self, None)
            } else if is_pen(a, f) {
                (
                    PenState { window: seq![a, f], has_pen: true },
                    Some(PenEvent::First(point_of(a), point_of(f))),
                )
            } else {
                (PenState { window: seq![a, f], has_pen: false }, None)
            }
        } else if exceeds(a, f) {
            (PenState { window: seq![f], has_pen: false }, None)
        } else {
            (self, None)
        }
    }

    /// With the pen from `a` to `b` in progress. If `b` and the new fractal
    /// bound a pen, the pen in progress is sealed at `b` and a new one runs
    /// to the new fractal. A fractal of the kind of `b` that exceeds it moves
    /// the end of the pen in progress. One of the other kind that bounds no
    /// pen with `b` is held back.
    pub open spec fn step_pen(self, f: Fx) -> (PenState, Option<PenEvent>) {
        let a = self.window[0];
        let b = self.window[1];
        if is_pen(b, f) {
            (PenState { window: seq![b, f], has_pen: true }, Some(PenEvent::New(point_of(f))))
        } else if b.fx_type == f.fx_type {
            if exceeds(b, f) {
                (
                    PenState { window: seq![a, f], has_pen: true },
                    Some(PenEvent::UpdateTo(point_of(f))),
                )
            } else {
                (self, None)
            }
        } else {
            (PenState { window: seq![a, b, f], has_pen: true }, None)
        }
    }

    /// With the pen from `a` to `b` in progress and `c` held back. A fractal
    /// of the kind of `c` that exceeds it takes its place, and if it bounds a
    /// pen with `b`, the pen in progress is sealed at `b`. A fractal of the
    /// kind of `b` that exceeds it moves the end of the pen in progress
    /// there, and `c` is forgotten.
    pub open spec fn step_held(self, f: Fx) -> (PenState, Option<PenEvent>) {
        let a = self.window[0];
        let b = self.window[1];
        let c = self.window[2];
        if c.fx_type == f.fx_type {
            if !exceeds(c, f) {
                (self, None)
            } else if is_pen(b, f) {
                (PenState { window: seq![b, f], has_pen: true }, Some(PenEvent::New(point_of(f))))
            } else {
                (PenState { window: seq![a, b, f], has_pen: true }, None)
            }
        } else if exceeds(b, f) {
            (PenState { window: seq![a, f], has_pen: true }, Some(PenEvent::UpdateTo(point_of(f))))
        } else {
            (self, None)
        }
    }

    /// What one fractal does: the state after it and the event it causes.
    pub open spec fn step(self, f: Fx) -> (PenState, Option<PenEvent>) {
        if !self.has_pen {
            if self.window.len() == 0 {
                (PenState { window: seq![f], has_pen: false }, None)
            } else if self.window.len() == 1 {
                self.step_single(f)
            } else {
                self.step_pair(f)
            }
        } else if self.window.len() == 2 {
            self.step_pen(f)
        } else {
            self.step_held(f)
        }
    }

    /// One fractal keeps the state well-formed.
    pub proof fn lemma_step_wf(self, f: Fx)
        requires
            self.wf(),
        ensures
            self.step(f).0.wf(),
    {
    }

    /// Before the first pen at most two fractals are held, and two that are
    /// held are of opposite kinds and bound no pen. After it two or three are
    /// held: the ends of the pen in progress, the second strictly beyond the
    /// first, and perhaps a fractal held back, of the other kind than the
    /// pen's end and bounding no pen with it.
    pub open spec fn wf(self) -> bool {
        let w = self.window;
        if !self.has_pen {
            &&& w.len() <= 2
            &&& w.len() == 2 ==> w[0].fx_type != w[1].fx_type && !is_pen(w[0], w[1])
        } else {
            &&& 2 <= w.len() <= 3
            &&& w[0].fx_type != w[1].fx_type
            &&& runs_from(w[0], w[1])
            &&& w.len() == 3 ==> w[1].fx_type != w[2].fx_type && !is_pen(w[1], w[2])
        }
    }
}

/// The pen detector.
#[derive(Debug)]
pub struct PenDetector {
    window: RingBuffer<Fx>,
    has_pen: bool,
}

impl View for PenDetector {
    type V = PenState;

    closed spec fn view(&self) -> PenState {
        PenState { window: self.window@, has_pen: self.has_pen }
    }
}

impl PenDetector {
    /// The window was made for three fractals.
    pub closed spec fn window_fits(&self) -> bool {
        self.window.capacity() == WINDOW_SIZE
    }

    /// The detector is in a state that `new` and its methods can reach.
    pub open spec fn wf(&self) -> bool {
        &&& self.window_fits()
        &&& self@.wf()
    }

    /// A detector that has seen no fractal.
    pub fn new() -> (r: Self)
        ensures
            r.wf(),
            r@ == PenState::init(),
    {
        Self { window: RingBuffer::new(WINDOW_SIZE), has_pen: false }
    }

    fn is_pen_at(&self, start_index: usize) -> (r: bool)
        requires
            self@.window.len() >= 2 + start_index,
        ensures
            r == is_pen(self@.window[start_index as int], self@.window[start_index + 1]),
    {
        let len = self.window.len();
        assert(start_index + 2 <= len);
        detect_is_pen(
            self.window.get(start_index).unwrap(),
            self.window.get(start_index + 1).unwrap(),
        )
    }

    fn bc_is_pen(&self) -> (r: bool)
        requires
            self@.window.len() == 3,
        ensures
            r == is_pen(self@.window[1], self@.window[2]),
    {
        self.is_pen_at(1)
    }

    fn ab_is_pen(&self) -> (r: bool)
        requires
            self@.window.len() >= 2,
        ensures
            r == is_pen(self@.window[0], self@.window[1]),
    {
        self.is_pen_at(0)
    }

    fn first_event(&self) -> (r: PenEvent)
        requires
            self@.window.len() >= 2,
        ensures
            r == PenEvent::First(point_of(self@.window[0]), point_of(self@.window[1])),
    {
        let from = self.window.get(0).unwrap();
        let to = self.window.get(1).unwrap();
        PenEvent::First(Point::new(from.time, from.price), Point::new(to.time, to.price))
    }

    fn state0(&mut self, f: Fx) -> (r: Option<PenEvent>)
        requires
            old(self).wf(),
            !old(self)@.has_pen,
            old(self)@.window.len() == 0,
        ensures
            final(self).wf(),
            (final(self)@, r) == old(self)@.step(f),
    {
        self.window.push(f);
        assert(self.window@ =~= seq![f]);
        None
    }

    fn state1(&mut self, f: Fx) -> (r: Option<PenEvent>)
        requires
            old(self).wf(),
            !old(self)@.has_pen,
            old(self)@.window.len() == 1,
        ensures
            final(self).wf(),
            (final(self)@, r) == old(self)@.step(f),
    {
        let last = self.window.get_from_end(1).unwrap();
        if last.is_same_type(&f) {
            let action = merge_same_fx_type(last, &f);
            if action == MergeAction::Replace {
                self.window.pop_back();
                self.window.push(f);
                assert(self.window@ =~= seq![f]);
            }
        } else {
            self.window.push(f);
            assert(self.window@ =~= seq![old(self)@.window[0], f]);
            if self.ab_is_pen() {
                self.has_pen = true;
                return Some(self.first_event());
            }
        }
        None
    }

    fn state2(&mut self, f: Fx) -> (r: Option<PenEvent>)
        requires
            old(self).wf(),
            !old(self)@.has_pen,
            old(self)@.window.len() == 2,
        ensures
            final(self).wf(),
            (final(self)@, r) == old(self)@.step(f),
    {
        let b = self.window.get_from_end(1).unwrap();
        let bc_is_pen = detect_is_pen(b, &f);
        if bc_is_pen {
            self.window.push(f);
            self.window.pop_front();
            assert(self.window@ =~= seq![old(self)@.window[1], f]);
            self.has_pen = true;
            return Some(self.first_event());
        } else {
            if b.is_same_type(&f) {
                let action = merge_same_fx_type(b, &f);
                if action == MergeAction::Replace {
                    self.window.pop_back();
                    self.window.push(f);
                    assert(self.window@ =~= seq![old(self)@.window[0], f]);
                    if self.ab_is_pen() {
                        self.has_pen = true;
                        return Some(self.first_event());
                    }
                }
            } else {
                let a = self.window.get(0).unwrap();
                let action = merge_same_fx_type(a, &f);
                if action == MergeAction::Replace {
                    self.window.clear();
                    self.window.push(f);
                    assert(self.window@ =~= seq![f]);
                }
            }
        }
        None
    }

    fn state3(&mut self, f: Fx) -> (r: Option<PenEvent>)
        requires
            old(self).wf(),
            old(self)@.has_pen,
            old(self)@.window.len() == 2,
        ensures
            final(self).wf(),
            (final(self)@, r) == old(self)@.step(f),
    {
        let b = self.window.get_from_end(1).unwrap();
        let bc_is_pen = detect_is_pen(b, &f);
        if bc_is_pen {
            let c = Point::new(f.time, f.price());
            self.window.pop_front();
            self.window.push(f);
            assert(self.window@ =~= seq![old(self)@.window[1], f]);
            return Some(PenEvent::New(c));
        } else {
            if b.is_same_type(&f) {
                let action = merge_same_fx_type(b, &f);
                if action == MergeAction::Replace {
                    self.window.pop_back();
                    let c = Point::new(f.time, f.price());
                    self.window.push(f);
                    assert(self.window@ =~= seq![old(self)@.window[0], f]);
                    return Some(PenEvent::UpdateTo(c));
                }
            } else {
                self.window.push(f);
                assert(self.window@ =~= seq![old(self)@.window[0], old(self)@.window[1], f]);
            }
        }
        None
    }

    fn state4(&mut self, f: Fx) -> (r: Option<PenEvent>)
        requires
            old(self).wf(),
            old(self)@.has_pen,
            old(self)@.window.len() == 3,
        ensures
            final(self).wf(),
            (final(self)@, r) == old(self)@.step(f),
    {
        let c = self.window.get_from_end(1).unwrap();
        if c.is_same_type(&f) {
            let action = merge_same_fx_type(c, &f);
            if action == MergeAction::Replace {
                self.window.pop_back();
                self.window.push(f);
                assert(self.window@ =~= seq![old(self)@.window[0], old(self)@.window[1], f]);
                if self.bc_is_pen() {
                    self.window.pop_front();
                    assert(self.window@ =~= seq![old(self)@.window[1], f]);
                    let end = self.window.get_from_end(1).unwrap();
                    let c = Point::new(end.time, end.price);
                    return Some(PenEvent::New(c));
                }
            }
        } else {
            let b = self.window.get_from_end(2).unwrap();
            let action = merge_same_fx_type(b, &f);
            if action == MergeAction::Replace {
                self.window.pop_back();
                self.window.pop_back();
                let c = Point::new(f.time, f.price);
                self.window.push(f);
                assert(self.window@ =~= seq![old(self)@.window[0], f]);
                return Some(PenEvent::UpdateTo(c));
            }
        }
        None
    }

    /// Takes the next fractal of the stream and returns the event that it
    /// causes, if any.
    pub fn on_new_fractal(&mut self, f: Fx) -> (r: Option<PenEvent>)
        requires
            old(self).wf(),
        ensures
            final(self).wf(),
            (final(self)@, r) == old(self)@.step(f),
    {
        let len = self.window.len();
        if !self.has_pen {
            if len == 0 {
                self.state0(f)
            } else if len == 1 {
                self.state1(f)
            } else {
                self.state2(f)
            }
        } else if len == 2 {
            self.state3(f)
        } else {
            self.state4(f)
        }
    }
}

} // verus!
