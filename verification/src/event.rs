//! The events that one layer hands to the next.

use crate::point::Point;
use vstd::prelude::*;

verus! {

/// What the pen detector reports.
#[derive(Debug, Clone, Copy, PartialEq, Eq, Structural)]
pub enum PenEvent {
    /// The first pen of the stream, from the first point to the second.
    First(Point, Point),
    /// The pen in progress is sealed where it stands, and a new pen runs from
    /// there to this point.
    New(Point),
    /// The end of the pen in progress moves to this point.
    UpdateTo(Point),
}

impl PenEvent {
    /// The pen endpoints after this event, given those before it: a first
    /// pen adds its two ends, a new pen adds its end, and an update moves the
    /// last endpoint.
    pub open spec fn applied_to(self, points: Seq<Point>) -> Seq<Point> {
        match self {
            PenEvent::First(a, b) => points.push(a).push(b),
            PenEvent::New(a) => points.push(a),
            PenEvent::UpdateTo(a) => if points.len() > 0 {
                points.drop_last().push(a)
            } else {
                points.push(a)
            },
        }
    }
}

/// The pen endpoints that a stream of pen events amounts to.
pub open spec fn pen_points(events: Seq<PenEvent>) -> Seq<Point>
    decreases events.len(),
{
    if events.len() == 0 {
        Seq::empty()
    } else {
        events.last().applied_to(pen_points(events.drop_last()))
    }
}

/// What the segment detector reports.
#[derive(Debug, PartialEq, Eq)]
pub enum SegmentEvent {
    /// One segment, from the first point to the second; the pen endpoints
    /// strictly between the two, in order.
    New(Point, Point, Vec<Point>),
    /// Two segments at once, from the first point to the second and from the
    /// second to the third, each with the pen endpoints strictly inside it.
    New2(Point, Point, Point, Vec<Point>, Vec<Point>),
    /// The end of the segment in progress moves to this point.
    UpdateTo(Point),
}

/// A segment event with sequences in place of vectors.
pub enum SegmentEventView {
    New(Point, Point, Seq<Point>),
    New2(Point, Point, Point, Seq<Point>, Seq<Point>),
    UpdateTo(Point),
}

impl View for SegmentEvent {
    type V = SegmentEventView;

    open spec fn view(&self) -> SegmentEventView {
        match *self {
            SegmentEvent::New(start, end, pens) => SegmentEventView::New(start, end, pens@),
            SegmentEvent::New2(start, mid, end, pens1, pens2) => SegmentEventView::New2(
                start,
                mid,
                end,
                pens1@,
                pens2@,
            ),
            SegmentEvent::UpdateTo(p) => SegmentEventView::UpdateTo(p),
        }
    }
}

impl Clone for SegmentEvent {
    fn clone(&self) -> (r: Self)
        ensures
            r@ == self@,
    {
        match self {
            SegmentEvent::New(start, end, pens) => {
                let pens = pens.clone();
                SegmentEvent::New(*start, *end, pens)
            },
            SegmentEvent::New2(start, mid, end, pens1, pens2) => {
                let pens1 = pens1.clone();
                let pens2 = pens2.clone();
                SegmentEvent::New2(*start, *mid, *end, pens1, pens2)
            },
            SegmentEvent::UpdateTo(p) => SegmentEvent::UpdateTo(*p),
        }
    }
}

} // verus!
