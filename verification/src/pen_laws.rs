//! What holds of the pens that the second layer reports, whatever the
//! fractals.

use crate::event::{pen_points, PenEvent};
use crate::fx::{Fx, PEN_DISTANCE};
use crate::pen_detector::{point_of, PenState};
use crate::pen_rule::runs_from;
use crate::point::Point;
use vstd::prelude::*;

verus! {

/// The state after a stream of fractals, and the events reported along the
/// way, in order.
pub open spec fn run(fxs: Seq<Fx>) -> (PenState, Seq<PenEvent>)
    decreases fxs.len(),
{
    if fxs.len() == 0 {
        (PenState::init(), Seq::empty())
    } else {
        let (state, reported) = run(fxs.drop_last());
        let (next, event) = state.step(fxs.last());
        (
            next,
            match event {
                Some(e) => reported.push(e),
                None => reported,
            },
        )
    }
}

/// The events reported for a stream of fractals.
pub open spec fn events(fxs: Seq<Fx>) -> Seq<PenEvent> {
    run(fxs).1
}

/// The endpoints after one more fractal `f`, which took the detector to the
/// state `next` and caused `event`. The first pen brings its two ends, a new
/// pen the fractal that caused it, and an update puts the fractal that caused
/// it in the place of the last endpoint.
pub open spec fn advanced(before: Seq<Fx>, next: PenState, f: Fx, event: Option<PenEvent>) -> Seq<
    Fx,
> {
    match event {
        None => before,
        Some(PenEvent::First(_, _)) => seq![next.window[0], f],
        Some(PenEvent::New(_)) => before.push(f),
        Some(PenEvent::UpdateTo(_)) => before.drop_last().push(f),
    }
}

/// The fractals at which the pens reported for a stream of fractals begin
/// and end, in order.
pub open spec fn endpoints(fxs: Seq<Fx>) -> Seq<Fx>
    decreases fxs.len(),
{
    if fxs.len() == 0 {
        Seq::empty()
    } else {
        let (next, event) = run(fxs.drop_last()).0.step(fxs.last());
        advanced(endpoints(fxs.drop_last()), next, fxs.last(), event)
    }
}

/// Whether the indices of the fractals rise along the stream, as those of
/// the first layer do.
pub open spec fn rising(fxs: Seq<Fx>) -> bool {
    forall|i: int, j: int|
        0 <= i < j < fxs.len() ==> (#[trigger] fxs[i]).index < (#[trigger] fxs[j]).index
}

// How the state and the endpoints hang together: before the first pen there
// are no endpoints, and from then on the last two are the first two fractals
// that the detector holds.
spec fn linked(state: PenState, ends: Seq<Fx>) -> bool {
    &&& state.wf()
    &&& !state.has_pen ==> ends.len() == 0
    &&& state.has_pen ==> {
        &&& ends.len() >= 2
        &&& ends[ends.len() - 2] == state.window[0]
        &&& ends[ends.len() - 1] == state.window[1]
    }
}

spec fn turns_at(ends: Seq<Fx>, i: int) -> bool {
    ends[i].fx_type != ends[i + 1].fx_type && runs_from(ends[i], ends[i + 1])
}

spec fn zigzag(ends: Seq<Fx>) -> bool {
    forall|i: int| 0 <= i < ends.len() - 1 ==> #[trigger] turns_at(ends, i)
}

spec fn apart_at(ends: Seq<Fx>, i: int) -> bool {
    ends[i].index + PEN_DISTANCE <= ends[i + 1].index
}

spec fn spaced(ends: Seq<Fx>) -> bool {
    forall|i: int| 0 <= i < ends.len() - 1 ==> #[trigger] apart_at(ends, i)
}

spec fn below(state: PenState, bound: int) -> bool {
    forall|k: int| 0 <= k < state.window.len() ==> (#[trigger] state.window[k]).index <= bound
}

/// The points that events carry for a run of fractals.
pub open spec fn points_of(ends: Seq<Fx>) -> Seq<Point> {
    ends.map_values(|f: Fx| point_of(f))
}

proof fn lemma_step_linked(state: PenState, ends: Seq<Fx>, f: Fx)
    requires
        linked(state, ends),
    ensures
        linked(state.step(f).0, advanced(ends, state.step(f).0, f, state.step(f).1)),
{
    state.lemma_step_wf(f);
}

proof fn lemma_step_zigzag(state: PenState, ends: Seq<Fx>, f: Fx)
    requires
        linked(state, ends),
        zigzag(ends),
    ensures
        zigzag(advanced(ends, state.step(f).0, f, state.step(f).1)),
{
    state.lemma_step_wf(f);
    let (next, event) = state.step(f);
    let after = advanced(ends, next, f, event);
    let n = ends.len() as int;
    assert forall|i: int| 0 <= i < after.len() - 1 implies #[trigger] turns_at(after, i) by {
        match event {
            None => {},
            Some(PenEvent::First(_, _)) => {
                assert(after[0] == next.window[0] && after[1] == next.window[1]);
            },
            Some(PenEvent::New(_)) => {
                if i < n - 1 {
                    assert(turns_at(ends, i));
                } else {
                    assert(after[i] == next.window[0] && after[i + 1] == next.window[1]);
                }
            },
            Some(PenEvent::UpdateTo(_)) => {
                if i < n - 2 {
                    assert(turns_at(ends, i));
                } else {
                    assert(after[i] == next.window[0] && after[i + 1] == next.window[1]);
                }
            },
        }
    }
}

proof fn lemma_step_spaced(state: PenState, ends: Seq<Fx>, f: Fx, bound: int)
    requires
        linked(state, ends),
        spaced(ends),
        below(state, bound),
        bound < f.index,
    ensures
        spaced(advanced(ends, state.step(f).0, f, state.step(f).1)),
        below(state.step(f).0, f.index as int),
{
    state.lemma_step_wf(f);
    let (next, event) = state.step(f);
    let after = advanced(ends, next, f, event);
    let n = ends.len() as int;
    assert forall|k: int| 0 <= k < state.window.len() implies (#[trigger] state.window[k]).index
        < f.index by {}
    assert forall|i: int| 0 <= i < after.len() - 1 implies #[trigger] apart_at(after, i) by {
        match event {
            None => {},
            Some(PenEvent::First(_, _)) => {
                assert(after[0] == next.window[0] && after[1] == f);
            },
            Some(PenEvent::New(_)) => {
                if i < n - 1 {
                    assert(apart_at(ends, i));
                } else {
                    assert(after[i] == state.window[1] && after[i + 1] == f);
                }
            },
            Some(PenEvent::UpdateTo(_)) => {
                if i < n - 2 {
                    assert(apart_at(ends, i));
                } else {
                    assert(after[i] == state.window[0] && after[i + 1] == f);
                    assert(apart_at(ends, n - 2));
                }
            },
        }
    }
}

proof fn lemma_step_points(state: PenState, ends: Seq<Fx>, f: Fx)
    requires
        linked(state, ends),
    ensures
        match state.step(f).1 {
            None => advanced(ends, state.step(f).0, f, None) == ends,
            Some(e) => points_of(advanced(ends, state.step(f).0, f, Some(e))) == e.applied_to(
                points_of(ends),
            ),
        },
{
    let (next, event) = state.step(f);
    match event {
        None => {},
        Some(e) => {
            assert(points_of(advanced(ends, next, f, Some(e))) =~= e.applied_to(points_of(ends)));
        },
    }
}

proof fn lemma_run_linked(fxs: Seq<Fx>)
    ensures
        linked(run(fxs).0, endpoints(fxs)),
        zigzag(endpoints(fxs)),
        pen_points(events(fxs)) == points_of(endpoints(fxs)),
    decreases fxs.len(),
{
    if fxs.len() == 0 {
        assert(pen_points(events(fxs)) =~= points_of(endpoints(fxs)));
    } else {
        lemma_run_linked(fxs.drop_last());
        let state = run(fxs.drop_last()).0;
        let before = endpoints(fxs.drop_last());
        let reported = events(fxs.drop_last());
        let f = fxs.last();
        lemma_step_linked(state, before, f);
        lemma_step_zigzag(state, before, f);
        lemma_step_points(state, before, f);
        match state.step(f).1 {
            None => {},
            Some(e) => {
                assert(events(fxs) == reported.push(e));
                assert(events(fxs).drop_last() =~= reported);
                assert(events(fxs).last() == e);
            },
        }
    }
}

proof fn lemma_run_spaced(fxs: Seq<Fx>)
    requires
        rising(fxs),
    ensures
        spaced(endpoints(fxs)),
        fxs.len() == 0 ==> run(fxs).0.window.len() == 0,
        fxs.len() > 0 ==> below(run(fxs).0, fxs.last().index as int),
    decreases fxs.len(),
{
    if fxs.len() > 0 {
        let shorter = fxs.drop_last();
        assert(rising(shorter)) by {
            assert forall|i: int, j: int| 0 <= i < j < shorter.len() implies (
            #[trigger] shorter[i]).index < (#[trigger] shorter[j]).index by {
                assert(shorter[i] == fxs[i] && shorter[j] == fxs[j]);
            }
        }
        lemma_run_spaced(shorter);
        lemma_run_linked(shorter);
        let state = run(shorter).0;
        let f = fxs.last();
        if shorter.len() == 0 {
            lemma_step_spaced(state, endpoints(shorter), f, f.index - 1);
        } else {
            assert(shorter.last() == fxs[fxs.len() - 2]);
            assert(fxs[fxs.len() - 2].index < fxs[fxs.len() - 1].index);
            lemma_step_spaced(state, endpoints(shorter), f, shorter.last().index as int);
        }
    }
}

/// Pen alternation: of two endpoints in a row, one is a top and the other a
/// bottom.
pub proof fn lemma_pen_alternation(fxs: Seq<Fx>, i: int)
    requires
        0 <= i < endpoints(fxs).len() - 1,
    ensures
        endpoints(fxs)[i].fx_type != endpoints(fxs)[i + 1].fx_type,
{
    lemma_run_linked(fxs);
    assert(turns_at(endpoints(fxs), i));
}

/// Pen direction: a pen that begins at a top ends strictly lower, and one
/// that begins at a bottom ends strictly higher.
pub proof fn lemma_pen_direction(fxs: Seq<Fx>, i: int)
    requires
        0 <= i < endpoints(fxs).len() - 1,
    ensures
        runs_from(endpoints(fxs)[i], endpoints(fxs)[i + 1]),
{
    lemma_run_linked(fxs);
    assert(turns_at(endpoints(fxs), i));
}

/// Pen distance: where the indices of the fractals rise along the stream,
/// the two ends of a pen lie at least four candles apart.
pub proof fn lemma_pen_distance(fxs: Seq<Fx>, i: int)
    requires
        rising(fxs),
        0 <= i < endpoints(fxs).len() - 1,
    ensures
        endpoints(fxs)[i].spec_distance(endpoints(fxs)[i + 1]) >= PEN_DISTANCE,
{
    lemma_run_spaced(fxs);
    assert(apart_at(endpoints(fxs), i));
}

/// The points that the events carry are the points of the endpoints: who
/// adds the two ends of the first pen and the end of each new pen, and lets
/// each update move the last endpoint, holds the endpoints' points.
pub proof fn lemma_events_carry_endpoints(fxs: Seq<Fx>)
    ensures
        pen_points(events(fxs)) == points_of(endpoints(fxs)),
{
    lemma_run_linked(fxs);
}

/// No retraction: a further fractal changes no endpoint but the last. All
/// endpoints before the last stay what they are, in their places, whatever
/// follows.
pub proof fn lemma_endpoints_stay(fxs: Seq<Fx>, k: int, i: int)
    requires
        0 <= k <= fxs.len(),
        0 <= i < endpoints(fxs.take(k)).len() - 1,
    ensures
        i < endpoints(fxs).len() - 1,
        endpoints(fxs)[i] == endpoints(fxs.take(k))[i],
    decreases fxs.len(),
{
    if k == fxs.len() {
        assert(fxs.take(k) =~= fxs);
    } else {
        assert(fxs.drop_last().take(k) =~= fxs.take(k));
        lemma_endpoints_stay(fxs.drop_last(), k, i);
        lemma_run_linked(fxs.drop_last());
        lemma_step_linked(run(fxs.drop_last()).0, endpoints(fxs.drop_last()), fxs.last());
    }
}

} // verus!
