//! What holds of the fractals that the first layer reports, whatever the
//! bars.

use crate::bar::Bar;
use crate::fx::Fx;
use crate::fx_detector::FxState;
use vstd::prelude::*;

verus! {

/// The state after a stream of bars, and the fractals reported along the
/// way, in order.
pub open spec fn run(bars: Seq<Bar>) -> (FxState, Seq<Fx>)
    decreases bars.len(),
{
    if bars.len() == 0 {
        (FxState::init(), Seq::empty())
    } else {
        let (state, reported) = run(bars.drop_last());
        let (next, fx) = state.step(bars.last());
        (
            next,
            match fx {
                Some(f) => reported.push(f),
                None => reported,
            },
        )
    }
}

/// The fractals reported for a stream of bars.
pub open spec fn fractals(bars: Seq<Bar>) -> Seq<Fx> {
    run(bars).1
}

/// The index of a reported fractal lies above those of all fractals reported
/// before it: this is what `lemma_monotone_index` rests on.
pub open spec fn ordered_below(state: FxState, reported: Seq<Fx>) -> bool {
    &&& forall|i: int, j: int|
        0 <= i < j < reported.len() ==> (#[trigger] reported[i]).index < (
        #[trigger] reported[j]).index
    &&& reported.len() > 0 ==> state.window.len() == 3 && reported.last().index
        <= state.window[0].index
}

proof fn lemma_run_ordered(bars: Seq<Bar>)
    requires
        bars.len() <= u64::MAX,
    ensures
        run(bars).0.wf(),
        run(bars).0.next_index <= bars.len(),
        ordered_below(run(bars).0, run(bars).1),
    decreases bars.len(),
{
    if bars.len() > 0 {
        lemma_run_ordered(bars.drop_last());
        let (state, reported) = run(bars.drop_last());
        state.lemma_step_wf(bars.last());
        let (next, fx) = state.step(bars.last());
        let n = state.window.len() as int;
        if n >= 2 && state.window[n - 1].in_containment(bars.last().high, bars.last().low) {
            assert(next.window[0].index == state.window[0].index);
        }
    }
}

/// Monotone index: of two fractals that the detector reports for a stream of
/// bars, the later one has the strictly higher index.
pub proof fn lemma_monotone_index(bars: Seq<Bar>, i: int, j: int)
    requires
        bars.len() <= u64::MAX,
        0 <= i < j < fractals(bars).len(),
    ensures
        fractals(bars)[i].index < fractals(bars)[j].index,
{
    lemma_run_ordered(bars);
}

/// A fractal once reported stays reported: the fractals of a stream begin
/// with the fractals of each of its beginnings.
pub proof fn lemma_fractals_extend(bars: Seq<Bar>, k: int)
    requires
        0 <= k <= bars.len(),
    ensures
        fractals(bars.take(k)).is_prefix_of(fractals(bars)),
    decreases bars.len(),
{
    if k == bars.len() {
        assert(bars.take(k) =~= bars);
    } else {
        lemma_fractals_extend(bars.drop_last(), k);
        assert(bars.drop_last().take(k) =~= bars.take(k));
    }
}

} // verus!
