use czsc::direction::Direction;
use czsc::event::{PenEvent, SegmentEvent};
use czsc::fx::FxType;
use czsc::point::Point;
use czsc::segment_detector::SegmentDetector;
use czsc::segment_state::{SeqRange, State};
use czsc::time::Time;

#[test]
fn range_spans_two_prices_in_either_order() {
    assert_eq!(SeqRange::new(5, 9), SeqRange { high: 9, low: 5 });
    assert_eq!(SeqRange::new(9, 5), SeqRange { high: 9, low: 5 });
    assert_eq!(SeqRange::new(7, 7), SeqRange { high: 7, low: 7 });
}

#[test]
fn range_merges_upwards_with_a_range_inside_it() {
    let mut r = SeqRange::new(10, 20);
    assert!(r.merge(18, 12, Direction::Up));
    assert_eq!(r, SeqRange { high: 20, low: 12 });
}

#[test]
fn range_merges_downwards_with_a_range_around_it() {
    let mut r = SeqRange::new(10, 20);
    assert!(r.merge(5, 25, Direction::Down));
    assert_eq!(r, SeqRange { high: 20, low: 5 });
    let mut r = SeqRange::new(10, 20);
    assert!(r.merge(5, 25, Direction::Up));
    assert_eq!(r, SeqRange { high: 25, low: 10 });
    let mut r = SeqRange::new(10, 20);
    assert!(r.merge(12, 18, Direction::Down));
    assert_eq!(r, SeqRange { high: 18, low: 10 });
}

#[test]
fn range_does_not_merge_with_a_range_that_overlaps_or_shares_an_end() {
    let mut r = SeqRange::new(10, 20);
    assert!(!r.merge(15, 25, Direction::Up));
    assert!(!r.merge(5, 15, Direction::Down));
    assert!(!r.merge(10, 15, Direction::Up));
    assert!(!r.merge(12, 20, Direction::Up));
    assert!(!r.merge(10, 25, Direction::Down));
    assert!(!r.merge(10, 20, Direction::Down));
    assert!(!r.merge(30, 40, Direction::Up));
    assert_eq!(r, SeqRange { high: 20, low: 10 });
}

#[test]
fn hypothesis_starts_unconfirmed() {
    let s = State::new(Time::new(3), 50, 4, FxType::Bottom, true, SeqRange::new(50, 60));
    assert_eq!(
        s,
        State {
            time: Time::new(3),
            price: 50,
            potential_index: 4,
            fx_type: FxType::Bottom,
            has_gap: true,
            k2: SeqRange { high: 60, low: 50 },
            confirm: false,
        }
    );
}

fn p(time: i64, price: i64) -> Point {
    Point::new(Time::new(time), price)
}

fn feed(sd: &mut SegmentDetector, prices: &[i64]) -> Vec<SegmentEvent> {
    let mut out = Vec::new();
    let e = PenEvent::First(p(1, prices[0]), p(2, prices[1]));
    assert_eq!(sd.on_pen_event(e), None);
    for (i, v) in prices.iter().enumerate().skip(2) {
        assert!(sd.verify_point());
        if let Some(s) = sd.on_pen_event(PenEvent::New(p(i as i64 + 1, *v))) {
            out.push(s);
        }
    }
    out
}

// In each of the next three streams the first four points are a segment
// that runs down to 10; it is reported with the tenth point. The segment
// after it runs up and has its top at 100, the sixth point from its start.

#[test]
fn no_gap_where_an_earlier_high_reaches_the_low_after_the_top() {
    // the high two before the top (60) lies below the low after it (70),
    // but the high four before it (75) does not
    let mut sd = SegmentDetector::new();
    let out = feed(&mut sd, &[100, 50, 60, 10, 75, 40, 60, 45, 100, 70, 90, 80]);
    assert_eq!(out, vec![SegmentEvent::New(p(1, 100), p(4, 10), vec![p(2, 50), p(3, 60)])]);
    assert_eq!(sd.direction(), Some(Direction::Up));
    let found = sd.potential_state().unwrap();
    assert_eq!(found.potential_index, 5);
    assert_eq!(found.fx_type, FxType::Top);
    assert!(!found.has_gap);
}

#[test]
fn gap_where_no_earlier_high_reaches_the_low_after_the_top() {
    let mut sd = SegmentDetector::new();
    feed(&mut sd, &[100, 50, 60, 10, 65, 40, 60, 45, 100, 70, 90, 80]);
    let found = sd.potential_state().unwrap();
    assert_eq!(found.potential_index, 5);
    assert_eq!(found.fx_type, FxType::Top);
    assert!(found.has_gap);
    assert_eq!(found.k2, SeqRange { high: 100, low: 70 });
    assert_eq!((found.time, found.price), (Time::new(9), 100));
}

#[test]
fn the_walk_back_stops_at_a_high_beyond_the_top() {
    // the high four before the top (120) lies beyond the top: it ends the
    // walk and does not count
    let mut sd = SegmentDetector::new();
    feed(&mut sd, &[100, 50, 60, 10, 120, 40, 60, 45, 100, 70, 90, 80]);
    let found = sd.potential_state().unwrap();
    assert_eq!(found.potential_index, 5);
    assert_eq!(found.fx_type, FxType::Top);
    assert!(found.has_gap);
}

#[test]
fn a_bottom_is_no_end_for_a_segment_that_runs_up() {
    // of the points 60, 60 and 100 the middle one is a bottom
    let mut sd = SegmentDetector::new();
    let out = feed(&mut sd, &[100, 50, 60, 10, 55, 40, 60, 45, 60, 50, 100, 90]);
    assert_eq!(out.len(), 1);
    assert_eq!(sd.direction(), Some(Direction::Up));
    assert_eq!(sd.points().len(), 9);
    assert_eq!(sd.potential_state(), None);
    // while there is no direction, it is taken
    let mut sd = SegmentDetector::new();
    let out = feed(&mut sd, &[10, 55, 40, 60, 45, 60, 50, 100, 90]);
    assert_eq!(out.len(), 0);
    assert_eq!(sd.direction(), None);
    let found = sd.potential_state().unwrap();
    assert_eq!(found.fx_type, FxType::Bottom);
    assert_eq!(found.potential_index, 5);
}

#[test]
fn a_hypothesis_is_dropped_when_a_later_point_lies_beyond_it() {
    let mut sd = SegmentDetector::new();
    feed(&mut sd, &[100, 200, 150, 1000, 900, 950, 700]);
    assert_eq!(sd.potential_state().unwrap().potential_index, 3);
    // the pen to 800 does not merge with the range from 1000 to 900
    sd.on_pen_event(PenEvent::New(p(8, 800)));
    assert!(sd.potential_state().unwrap().confirm);
    // the next pen, to 1100, runs beyond the top
    sd.on_pen_event(PenEvent::UpdateTo(p(8, 1100)));
    sd.on_pen_event(PenEvent::New(p(9, 1050)));
    assert_eq!(sd.potential_state(), None);
    assert_eq!(sd.state_for_case2(), None);
    assert_eq!(sd.direction(), None);
    assert_eq!(sd.points().len(), 9);
}

#[test]
fn a_pen_inside_the_second_element_is_merged_into_it() {
    let mut sd = SegmentDetector::new();
    feed(&mut sd, &[100, 200, 150, 1000, 900, 950, 920]);
    let found = sd.potential_state().unwrap();
    assert_eq!(found.k2, SeqRange { high: 1000, low: 900 });
    // the pen from 950 to 920 lies inside: merged upwards
    sd.on_pen_event(PenEvent::New(p(8, 940)));
    let merged = sd.potential_state().unwrap();
    assert!(!merged.confirm);
    assert_eq!(merged.k2, SeqRange { high: 1000, low: 920 });
}
