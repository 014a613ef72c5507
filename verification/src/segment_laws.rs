//! What holds of the segments that the third layer reports, whatever the
//! pen events.

use crate::direction::Direction;
use crate::event::{pen_points, PenEvent, SegmentEventView};
use crate::point::Point;
use crate::segment_state::{running_to, SegState};
use vstd::prelude::*;

verus! {

/// A segment that has been reported.
pub struct Confirmed {
    /// Where the segment starts.
    pub start: Point,
    /// Where the segment ends.
    pub end: Point,
    /// The pen endpoints strictly between start and end.
    pub pens: Seq<Point>,
    /// The direction in which the segment runs: up to a top, down to a
    /// bottom.
    pub direction: Direction,
    /// The position of the start among the pen endpoints of the stream.
    pub from: int,
    /// The position of the end among the pen endpoints of the stream.
    pub to: int,
}

impl Confirmed {
    /// The pen endpoints of the segment, from start to end.
    pub open spec fn path(self) -> Seq<Point> {
        seq![self.start] + self.pens + seq![self.end]
    }
}

/// How many pen endpoints of the stream lie before the start of the segment
/// in progress.
pub open spec fn drained(segments: Seq<Confirmed>) -> int {
    if segments.len() == 0 {
        0
    } else {
        segments.last().to
    }
}

/// The segments that `event` reports, if the detector was in the state
/// `before` when it took the decisions that led to it, and `offset` pen
/// endpoints of the stream had left it by then.
pub open spec fn confirmed(before: SegState, offset: int, event: Option<SegmentEventView>) -> Seq<
    Confirmed,
> {
    let fx1 = before.potential_state->0;
    let fx2 = before.state_for_case2->0;
    let from = offset + before.start_offset(fx1.potential_index as int);
    let direction = running_to(fx1.fx_type);
    match event {
        Some(SegmentEventView::New(start, end, pens)) => seq![
            Confirmed { start, end, pens, direction, from, to: offset + fx1.potential_index },
        ],
        Some(SegmentEventView::New2(start, mid, end, pens1, pens2)) => seq![
            Confirmed {
                start,
                end: mid,
                pens: pens1,
                direction,
                from,
                to: offset + fx1.potential_index,
            },
            Confirmed {
                start: mid,
                end,
                pens: pens2,
                direction: direction.reversed(),
                from: offset + fx1.potential_index,
                to: offset + fx2.potential_index,
            },
        ],
        _ => Seq::empty(),
    }
}

/// The state after a stream of pen events, and the segments reported along
/// the way, in order.
pub open spec fn run(events: Seq<PenEvent>) -> (SegState, Seq<Confirmed>)
    decreases events.len(),
{
    if events.len() == 0 {
        (SegState::init(), Seq::empty())
    } else {
        let (state, reported) = run(events.drop_last());
        let (next, out) = state.step(events.last());
        (next, reported + confirmed(state, drained(reported), out))
    }
}

/// The segments reported for a stream of pen events.
pub open spec fn segments(events: Seq<PenEvent>) -> Seq<Confirmed> {
    run(events).1
}

/// Whether the path of `segment` is the run of `points` from the position of
/// its start to that of its end, and the end is not the last point.
pub open spec fn covers(points: Seq<Point>, segment: Confirmed) -> bool {
    &&& 0 <= segment.from < segment.to < points.len() - 1
    &&& segment.path() == points.subrange(segment.from, segment.to + 1)
}

/// Whether the segment at position `i` ends where the next one starts, and
/// runs the other way.
pub open spec fn joined(segments: Seq<Confirmed>, i: int) -> bool {
    &&& segments[i].to == segments[i + 1].from
    &&& segments[i].end == segments[i + 1].start
    &&& segments[i].direction != segments[i + 1].direction
}

/// What a report says. The decisions change the points only by reporting:
/// without a report the points and the direction stay. A report of one
/// segment gives its start, the points strictly inside it and its end as
/// they stand among the points, keeps the points from the end on, and turns
/// the direction against the segment. A report of two does so for both, and
/// turns the direction twice.
pub proof fn lemma_process_reports(state: SegState)
    requires
        state.wf(),
    ensures
        match state.process().1 {
            None => {
                &&& state.process().0.points == state.points
                &&& state.process().0.direction == state.direction
            },
            Some(SegmentEventView::New(start, end, pens)) => {
                let fx1 = state.potential_state->0;
                let at = fx1.potential_index as int;
                let from = state.start_offset(at);
                &&& state.potential_state is Some
                &&& seq![start] + pens + seq![end] == state.points.subrange(from, at + 1)
                &&& state.process().0.points == state.points.subrange(at, state.points.len() as int)
                &&& state.process().0.direction == Some(running_to(fx1.fx_type).reversed())
            },
            Some(SegmentEventView::New2(start, mid, end, pens1, pens2)) => {
                let fx1 = state.potential_state->0;
                let fx2 = state.state_for_case2->0;
                let at = fx1.potential_index as int;
                let at2 = fx2.potential_index as int;
                let from = state.start_offset(at);
                &&& state.potential_state is Some
                &&& state.state_for_case2 is Some
                &&& seq![start] + pens1 + seq![mid] == state.points.subrange(from, at + 1)
                &&& seq![mid] + pens2 + seq![end] == state.points.subrange(at, at2 + 1)
                &&& state.process().0.points == state.points.subrange(at2, state.points.len() as int)
                &&& state.process().0.direction == Some(running_to(fx1.fx_type))
            },
            Some(SegmentEventView::UpdateTo(_)) => false,
        },
{
    match state.process().1 {
        None => {},
        Some(SegmentEventView::New(start, end, pens)) => {
            let fx1 = state.potential_state->0;
            let at = fx1.potential_index as int;
            let from = state.start_offset(at);
            assert(seq![start] + pens + seq![end] =~= state.points.subrange(from, at + 1));
        },
        Some(SegmentEventView::New2(start, mid, end, pens1, pens2)) => {
            let fx1 = state.potential_state->0;
            let fx2 = state.state_for_case2->0;
            let at = fx1.potential_index as int;
            let at2 = fx2.potential_index as int;
            let from = state.start_offset(at);
            assert(seq![start] + pens1 + seq![mid] =~= state.points.subrange(from, at + 1));
            assert(seq![mid] + pens2 + seq![end] =~= state.points.subrange(at, at2 + 1));
        },
        Some(SegmentEventView::UpdateTo(_)) => {},
    }
}

// Every segment covers its stretch of the points, and each is joined to the
// next.
spec fn chained(reported: Seq<Confirmed>, points: Seq<Point>) -> bool {
    &&& forall|i: int| 0 <= i < reported.len() ==> covers(points, #[trigger] reported[i])
    &&& forall|i: int| 0 <= i < reported.len() - 1 ==> #[trigger] joined(reported, i)
}

// How the state, the segments reported and the pen endpoints of the stream
// hang together.
spec fn follows(state: SegState, reported: Seq<Confirmed>, points: Seq<Point>) -> bool {
    let offset = drained(reported);
    &&& 0 <= offset <= points.len()
    &&& state.points == points.subrange(offset, points.len() as int)
    &&& state.is_first_segment == (state.direction is None)
    &&& reported.len() == 0 ==> state.is_first_segment
    &&& reported.len() > 0 ==> state.direction == Some(reported.last().direction.reversed())
        && state.points.len() >= 2
    &&& chained(reported, points)
}

proof fn lemma_covers_stays(points: Seq<Point>, later: Seq<Point>, segment: Confirmed)
    requires
        covers(points, segment),
        points.len() <= later.len(),
        forall|j: int| 0 <= j < points.len() - 1 ==> points[j] == later[j],
    ensures
        covers(later, segment),
{
    assert(points.subrange(segment.from, segment.to + 1) =~= later.subrange(
        segment.from,
        segment.to + 1,
    ));
}

proof fn lemma_covers_ends(points: Seq<Point>, segment: Confirmed)
    requires
        covers(points, segment),
    ensures
        segment.start == points[segment.from],
        segment.end == points[segment.to],
{
    let path = segment.path();
    assert(path[0] == segment.start);
    assert(path[path.len() - 1] == segment.end);
    assert(path.len() == segment.to + 1 - segment.from);
}

proof fn lemma_chain_later(reported: Seq<Confirmed>, points: Seq<Point>, later: Seq<Point>)
    requires
        chained(reported, points),
        points.len() <= later.len(),
        forall|j: int| 0 <= j < points.len() - 1 ==> points[j] == later[j],
    ensures
        chained(reported, later),
{
    assert forall|i: int| 0 <= i < reported.len() implies covers(later, #[trigger] reported[i]) by {
        lemma_covers_stays(points, later, reported[i]);
    }
}

proof fn lemma_chain_push(reported: Seq<Confirmed>, points: Seq<Point>, segment: Confirmed)
    requires
        chained(reported, points),
        covers(points, segment),
        reported.len() > 0 ==> reported.last().to == segment.from && reported.last().direction
            != segment.direction,
    ensures
        chained(reported.push(segment), points),
{
    let all = reported.push(segment);
    let n = reported.len() as int;
    assert forall|i: int| 0 <= i < all.len() implies covers(points, #[trigger] all[i]) by {
        if i < n {
            assert(all[i] == reported[i]);
        }
    }
    assert forall|i: int| 0 <= i < all.len() - 1 implies #[trigger] joined(all, i) by {
        if i < n - 1 {
            assert(joined(reported, i));
            assert(all[i] == reported[i] && all[i + 1] == reported[i + 1]);
        } else {
            assert(all[i] == reported[n - 1] && all[i + 1] == segment);
            lemma_covers_ends(points, reported[n - 1]);
            lemma_covers_ends(points, segment);
        }
    }
}

// One segment is reported: it ends at position `at` of the state's points
// and starts at position `from`.
proof fn lemma_follows_report(
    state: SegState,
    reported: Seq<Confirmed>,
    points: Seq<Point>,
    decided: SegState,
    segment: Confirmed,
    from: int,
    at: int,
)
    requires
        follows(state, reported, points),
        0 <= from < at,
        at + 3 <= state.points.len(),
        from == 0 || state.is_first_segment,
        segment.from == drained(reported) + from,
        segment.to == drained(reported) + at,
        segment.path() == state.points.subrange(from, at + 1),
        state.direction matches Some(d) ==> segment.direction == d,
        decided.points == state.points.subrange(at, state.points.len() as int),
        decided.direction == Some(segment.direction.reversed()),
        !decided.is_first_segment,
    ensures
        follows(decided, reported.push(segment), points),
        decided.points.len() >= 3,
{
    let offset = drained(reported);
    let all = reported.push(segment);
    assert(decided.points =~= points.subrange(offset + at, points.len() as int));
    assert(state.points.subrange(from, at + 1) =~= points.subrange(offset + from, offset + at + 1));
    assert(covers(points, segment));
    lemma_chain_push(reported, points, segment);
    assert(drained(all) == offset + at);
}

// An event changes the points at their end.
proof fn lemma_follows_applied(
    state: SegState,
    reported: Seq<Confirmed>,
    points: Seq<Point>,
    event: PenEvent,
)
    requires
        follows(state, reported, points),
    ensures
        follows(
            SegState { points: event.applied_to(state.points), ..state },
            reported,
            event.applied_to(points),
        ),
{
    let later = event.applied_to(points);
    let next = SegState { points: event.applied_to(state.points), ..state };
    let offset = drained(reported);
    assert(next.points =~= later.subrange(offset, later.len() as int));
    lemma_chain_later(reported, points, later);
}

// A new pen lets the detector decide on the points it has, and adds a point.
proof fn lemma_follows_decided(state: SegState, reported: Seq<Confirmed>, points: Seq<Point>)
    requires
        state.wf(),
        follows(state, reported, points),
    ensures
        follows(
            state.process().0,
            reported + confirmed(state, drained(reported), state.process().1),
            points,
        ),
{
    let (decided, out) = state.process();
    let offset = drained(reported);
    let fresh = confirmed(state, offset, out);
    state.lemma_process_wf();
    lemma_process_reports(state);
    match out {
        None => {
            assert(reported + fresh =~= reported);
        },
        Some(SegmentEventView::New(start, end, pens)) => {
            let fx1 = state.potential_state->0;
            let at = fx1.potential_index as int;
            let from = state.start_offset(at);
            lemma_follows_report(state, reported, points, decided, fresh[0], from, at);
            assert(reported + fresh =~= reported.push(fresh[0]));
        },
        Some(SegmentEventView::New2(start, mid, end, pens1, pens2)) => {
            let fx1 = state.potential_state->0;
            let fx2 = state.state_for_case2->0;
            let at = fx1.potential_index as int;
            let at2 = fx2.potential_index as int;
            let from = state.start_offset(at);
            let between = SegState {
                points: state.points.subrange(at, state.points.len() as int),
                direction: Some(fresh[0].direction.reversed()),
                is_first_segment: false,
                ..state
            };
            lemma_follows_report(state, reported, points, between, fresh[0], from, at);
            assert(between.points.subrange(0, at2 - at + 1) =~= state.points.subrange(at, at2 + 1));
            assert(between.points.subrange(at2 - at, between.points.len() as int)
                =~= state.points.subrange(at2, state.points.len() as int));
            lemma_follows_report(
                between,
                reported.push(fresh[0]),
                points,
                decided,
                fresh[1],
                0,
                at2 - at,
            );
            assert(reported + fresh =~= reported.push(fresh[0]).push(fresh[1]));
        },
        Some(SegmentEventView::UpdateTo(_)) => {},
    }
}

proof fn lemma_run_follows(events: Seq<PenEvent>)
    requires
        2 * events.len() <= usize::MAX,
    ensures
        run(events).0.wf(),
        follows(run(events).0, run(events).1, pen_points(events)),
        pen_points(events).len() <= 2 * events.len(),
    decreases events.len(),
{
    if events.len() > 0 {
        let shorter = events.drop_last();
        lemma_run_follows(shorter);
        let (state, reported) = run(shorter);
        let points = pen_points(shorter);
        let event = events.last();
        if event is New {
            let (decided, out) = state.process();
            lemma_follows_decided(state, reported, points);
            state.lemma_process_wf();
            lemma_follows_applied(
                decided,
                reported + confirmed(state, drained(reported), out),
                points,
                event,
            );
        } else {
            lemma_follows_applied(state, reported, points, event);
            assert(reported + confirmed(state, drained(reported), None) =~= reported);
        }
    } else {
        assert(run(events).0.points =~= pen_points(events).subrange(0, 0));
    }
}

/// Segment alternation: of two segments reported one after the other, one
/// runs up and the other down, and the second starts where the first ends.
/// The two segments of a double report are such a pair.
pub proof fn lemma_segment_alternation(events: Seq<PenEvent>, i: int)
    requires
        2 * events.len() <= usize::MAX,
        0 <= i < segments(events).len() - 1,
    ensures
        segments(events)[i].direction != segments(events)[i + 1].direction,
        segments(events)[i].end == segments(events)[i + 1].start,
        segments(events)[i].to == segments(events)[i + 1].from,
{
    lemma_run_follows(events);
    assert(joined(segments(events), i));
}

/// Pen payload completeness: the start of a reported segment, the points
/// that its report carries and its end are, in this order, the pen endpoints
/// of the stream from the segment's start to its end. The end of a segment
/// is never the endpoint that may still move.
pub proof fn lemma_payload_complete(events: Seq<PenEvent>, i: int)
    requires
        2 * events.len() <= usize::MAX,
        0 <= i < segments(events).len(),
    ensures
        covers(pen_points(events), segments(events)[i]),
{
    lemma_run_follows(events);
}

/// No retraction: a segment once reported stays reported. The segments of a
/// stream begin with the segments of each of its beginnings.
pub proof fn lemma_segments_stay(events: Seq<PenEvent>, k: int)
    requires
        0 <= k <= events.len(),
    ensures
        segments(events.take(k)).is_prefix_of(segments(events)),
    decreases events.len(),
{
    if k == events.len() {
        assert(events.take(k) =~= events);
    } else {
        lemma_segments_stay(events.drop_last(), k);
        assert(events.drop_last().take(k) =~= events.take(k));
    }
}

} // verus!
