//! The first layer: merges bars into candles and finds fractals.

use crate::bar::Bar;
use crate::candle::Candle;
use crate::fx::{Fx, FxType};
use crate::ringbuffer::RingBuffer;
use vstd::prelude::*;

verus! {

/// The number of candles the detector keeps.
pub const WINDOW_SIZE: usize = 3;

/// The state of the detector as a mathematical value.
pub struct FxState {
    /// The latest merged candles, oldest first: at most three.
    pub window: Seq<Candle>,
    /// The index that the next candle gets.
    pub next_index: u64,
}

/// Whether `k2` is higher than both its neighbours.
pub open spec fn is_top(k1: Candle, k2: Candle, k3: Candle) -> bool {
    k1.high < k2.high && k2.high > k3.high
}

/// Whether `k2` is lower than both its neighbours.
pub open spec fn is_bottom(k1: Candle, k2: Candle, k3: Candle) -> bool {
    k1.low > k2.low && k2.low < k3.low
}

/// The fractal that three candles in a row form around the middle one, if any.
pub open spec fn fractal_of(k1: Candle, k2: Candle, k3: Candle) -> Option<Fx> {
    if is_top(k1, k2, k3) {
        Some(
            Fx { fx_type: FxType::Top, index: k2.index, time: k2.time, price: k2.high, aux: k2.low },
        )
    } else if is_bottom(k1, k2, k3) {
        Some(
            Fx {
                fx_type: FxType::Bottom,
                index: k2.index,
                time: k2.time,
                price: k2.low,
                aux: k2.high,
            },
        )
    } else {
        None
    }
}

impl FxState {
    /// The state before any bar.
    pub open spec fn init() -> FxState {
        FxState { window: Seq::empty(), next_index: 0 }
    }

    /// The state after `bar` has become a candle of its own.
    pub open spec fn appended(self, bar: Bar) -> FxState {
        FxState {
            window: RingBuffer::<Candle>::pushed(
                self.window,
                WINDOW_SIZE as nat,
                Candle::of_bar(self.next_index, bar),
            ),
            next_index: (self.next_index + 1) as u64,
        }
    }

    /// The state after `bar` has been merged into the latest candle.
    pub open spec fn absorbed(self, bar: Bar) -> FxState {
        let n = self.window.len() as int;
        let direction = Candle::spec_direction(self.window[n - 2], self.window[n - 1]);
        FxState {
            window: self.window.update(n - 1, self.window[n - 1].merged(direction, bar)),
            next_index: self.next_index,
        }
    }

    /// What one bar does: the state after it and the fractal it confirms.
    ///
    /// The first candle swallows every bar that it encloses, and gives way
    /// to the first bar that encloses it. From the second candle on, a bar in
    /// containment with the latest candle is merged into it; any other bar
    /// becomes a candle, and confirms the fractal, if there is one, that the
    /// three candles before it form.
    pub open spec fn step(self, bar: Bar) -> (FxState, Option<Fx>) {
        let n = self.window.len() as int;
        if n == 0 {
            (self.appended(bar), None)
        } else if n == 1 {
            let first = self.window[0];
            if first.high >= bar.high && first.low <= bar.low {
                (self, None)
            } else if first.high <= bar.high && first.low >= bar.low {
                (FxState { window: Seq::empty(), next_index: self.next_index }.appended(bar), None)
            } else {
                (self.appended(bar), None)
            }
        } else if self.window[n - 1].in_containment(bar.high, bar.low) {
            (self.absorbed(bar), None)
        } else if n == 2 {
            (self.appended(bar), None)
        } else {
            (
                self.appended(bar),
                fractal_of(self.window[n - 3], self.window[n - 2], self.window[n - 1]),
            )
        }
    }

    /// The candles are at most three, carry indices that rise along the
    /// window and lie below the next index, and no two neighbours stand in
    /// containment.
    pub open spec fn wf(self) -> bool {
        &&& self.window.len() <= WINDOW_SIZE
        &&& forall|i: int|
            0 <= i < self.window.len() ==> (#[trigger] self.window[i]).index < self.next_index
        &&& forall|i: int, j: int|
            0 <= i < j < self.window.len() ==> (#[trigger] self.window[i]).index < (
            #[trigger] self.window[j]).index
        &&& forall|i: int| 0 < i < self.window.len() ==> #[trigger] self.apart_at(i)
    }

    /// One bar keeps the state well-formed, as long as indices are left.
    pub proof fn lemma_step_wf(self, bar: Bar)
        requires
            self.wf(),
            self.next_index < u64::MAX,
        ensures
            self.step(bar).0.wf(),
            self.step(bar).0.next_index <= self.next_index + 1,
    {
        let n = self.window.len() as int;
        let next = self.step(bar).0;
        assert forall|i: int| 0 < i < next.window.len() implies #[trigger] next.apart_at(i) by {
            if n >= 2 && self.window[n - 1].in_containment(bar.high, bar.low) {
                if i < n - 1 {
                    assert(self.apart_at(i));
                } else {
                    assert(self.apart_at(n - 1));
                }
            } else if i == next.window.len() - 1 {
            } else if n == 3 {
                assert(self.apart_at(i + 1));
            } else {
                assert(self.apart_at(i));
            }
        }
    }

    /// Whether the candle at position `i` and the one before it do not stand
    /// in containment.
    pub open spec fn apart_at(self, i: int) -> bool {
        !self.window[i].in_containment(self.window[i - 1].high, self.window[i - 1].low)
    }
}

/// The fractal detector.
#[derive(Debug)]
pub struct FxDetector {
    window: RingBuffer<Candle>,
    next_index: u64,
}

impl View for FxDetector {
    type V = FxState;

    closed spec fn view(&self) -> FxState {
        FxState { window: self.window@, next_index: self.next_index }
    }
}

impl FxDetector {
    /// The window was made for three candles.
    pub closed spec fn window_fits(&self) -> bool {
        self.window.capacity() == WINDOW_SIZE
    }

    /// The detector is in a state that `new` and its methods can reach.
    pub open spec fn wf(&self) -> bool {
        &&& self.window_fits()
        &&& self@.wf()
    }

    /// A detector that has seen no bar.
    pub fn new() -> (r: Self)
        ensures
            r.wf(),
            r@ == FxState::init(),
    {
        Self { window: RingBuffer::new(WINDOW_SIZE), next_index: 0 }
    }

    /// The number of candles begun so far.
    pub fn next_index(&self) -> (r: u64)
        ensures
            r == self@.next_index,
    {
        self.next_index
    }

    fn add_candle(&mut self, bar: &Bar)
        requires
            old(self).window.capacity() == WINDOW_SIZE,
            old(self).next_index < u64::MAX,
        ensures
            final(self).window.capacity() == WINDOW_SIZE,
            final(self)@ == old(self)@.appended(*bar),
    {
        let c = Candle::from_bar(self.next_index, bar);
        self.next_index += 1;
        self.window.push(c);
    }

    fn build_fx(k1: &Candle, k2: &Candle, k3: &Candle) -> (r: Fx)
        requires
            is_top(*k1, *k2, *k3) || is_bottom(*k1, *k2, *k3),
        ensures
            Some(r) == fractal_of(*k1, *k2, *k3),
    {
        let top = (k1.high < k2.high) && (k2.high > k3.high);
        if top {
            Fx::new(FxType::Top, k2.index, k2.time, k2.high, k2.low)
        } else {
            Fx::new(FxType::Bottom, k2.index, k2.time, k2.low, k2.high)
        }
    }

    fn check_fx(&self) -> (r: Option<Fx>)
        requires
            self@.window.len() == 3,
        ensures
            r == fractal_of(self@.window[0], self@.window[1], self@.window[2]),
    {
        let k1 = self.window.get_from_end(3).unwrap();
        let k2 = self.window.get_from_end(2).unwrap();
        let k3 = self.window.get_from_end(1).unwrap();
        if ((k1.high < k2.high) && (k2.high > k3.high)) || ((k1.low > k2.low) && (k2.low
            < k3.low)) {
            return Some(FxDetector::build_fx(k1, k2, k3));
        }
        None
    }

    fn process_contain_relationship(&mut self, bar: &Bar) -> (r: bool)
        requires
            old(self)@.window.len() >= 2,
        ensures
            final(self).window.capacity() == old(self).window.capacity(),
            r == old(self)@.window.last().in_containment(bar.high, bar.low),
            r ==> final(self)@ == old(self)@.absorbed(*bar),
            !r ==> final(self)@ == old(self)@,
    {
        let direction = {
            let k1 = self.window.get_from_end(2).unwrap();
            let k2 = self.window.get_from_end(1).unwrap();
            Candle::check_direction(k1, k2)
        };
        let n = self.window.len();
        let current = self.window.get_mut(n - 1).unwrap();
        let merged = Candle::merge(direction, current, bar);
        assert(!merged ==> self.window@ =~= old(self).window@);
        merged
    }

    /// Takes the next bar of the stream and returns the fractal that it
    /// confirms, if any.
    pub fn on_new_bar(&mut self, bar: &Bar) -> (r: Option<Fx>)
        requires
            old(self).wf(),
            old(self)@.next_index < u64::MAX,
        ensures
            final(self).wf(),
            (final(self)@, r) == old(self)@.step(*bar),
    {
        proof {
            old(self)@.lemma_step_wf(*bar);
        }
        let len = self.window.len();
        if len == 0 {
            self.add_candle(bar);
        } else if len == 1 {
            let last = self.window.get_from_end(1).unwrap();
            let k1_include_k2 = last.high >= bar.high && last.low <= bar.low;
            let k2_include_k1 = last.high <= bar.high && last.low >= bar.low;
            if k1_include_k2 {
                return None;
            }
            if k2_include_k1 {
                self.window.clear();
            }
            self.add_candle(bar);
        } else if len == 2 {
            let merged = self.process_contain_relationship(bar);
            if !merged {
                self.add_candle(bar);
            }
        } else {
            let merged = self.process_contain_relationship(bar);
            if !merged {
                let result = self.check_fx();
                self.add_candle(bar);
                return result;
            }
        }
        None
    }
}

} // verus!
