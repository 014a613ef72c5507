use czsc::direction::Direction;
use czsc::event::{PenEvent, SegmentEvent};
use czsc::point::Point;
use czsc::segment_detector::SegmentDetector;
use czsc::time::Time;

fn p(time: i64, price: i64) -> Point {
    Point::new(Time::new(time), price)
}

fn pen_events(prices: &[(i64, i64)]) -> Vec<PenEvent> {
    let mut events: Vec<PenEvent> = Vec::new();
    events.push(PenEvent::First(p(prices[0].0, prices[0].1), p(prices[1].0, prices[1].1)));
    for i in 2..prices.len() {
        events.push(PenEvent::New(p(prices[i].0, prices[i].1)));
    }
    events
}

fn run(sd: &mut SegmentDetector, events: Vec<PenEvent>) -> Vec<SegmentEvent> {
    let mut out: Vec<SegmentEvent> = Vec::new();
    for e in events {
        assert!(sd.verify_point());
        if let Some(s) = sd.on_pen_event(e) {
            out.push(s);
        }
    }
    out
}

fn segment_count(events: &[SegmentEvent]) -> usize {
    let mut n = 0;
    for e in events {
        match e {
            SegmentEvent::New(..) => n += 1,
            SegmentEvent::New2(..) => n += 2,
            SegmentEvent::UpdateTo(..) => {}
        }
    }
    n
}

#[test]
fn test_sd_detector() {
    let vec_pen_events = vec![
        (1, 100),
        (2, 200),
        (3, 150),
        (4, 1000),
        (5, 900),
        (6, 950),
        (7, 700),
        (8, 800),
        (9, 750),
        (10, 850),
        (11, 600),
        (12, 650),
        (13, 400),
        (14, 500),
        (15, 450),
        (16, 610),
        (17, 480),
        (18, 550),
        (19, 50),
        (20, 625),
        (21, 500),
        (22, 800),
        (23, 700),
    ];
    let pen_events = pen_events(&vec_pen_events);
    assert!(pen_events.len() == 22);

    let mut sd = SegmentDetector::new();
    let segment_events = run(&mut sd, pen_events);

    // A second hypothesis is tested for confirmation before the first is
    // tested for refutation: that reading finds four segments here.
    assert_eq!(segment_count(&segment_events), 4);
    assert_eq!(
        segment_events,
        vec![
            SegmentEvent::New(p(1, 100), p(4, 1000), vec![p(2, 200), p(3, 150)]),
            SegmentEvent::New2(
                p(4, 1000),
                p(13, 400),
                p(16, 610),
                vec![
                    p(5, 900),
                    p(6, 950),
                    p(7, 700),
                    p(8, 800),
                    p(9, 750),
                    p(10, 850),
                    p(11, 600),
                    p(12, 650)
                ],
                vec![p(14, 500), p(15, 450)],
            ),
            SegmentEvent::New(p(16, 610), p(19, 50), vec![p(17, 480), p(18, 550)]),
        ]
    );
    assert_eq!(sd.direction(), Some(Direction::Up));
}

#[test]
fn test_80_detector() {
    let vec_pen_events = vec![
        (1, 100),
        (2, 50),
        (3, 60),
        (4, 10),
        (5, 90),
        (6, 50),
        (7, 80),
        (8, 20),
        (9, 55),
        (10, 45),
        (11, 85),
        (12, 51),
        (13, 70),
        (14, 1),
        (15, 10),
    ];
    let mut sd = SegmentDetector::new();
    let segment_events = run(&mut sd, pen_events(&vec_pen_events));
    assert_eq!(
        segment_events,
        vec![
            SegmentEvent::New(p(1, 100), p(4, 10), vec![p(2, 50), p(3, 60)]),
            SegmentEvent::New(
                p(4, 10),
                p(11, 85),
                vec![p(5, 90), p(6, 50), p(7, 80), p(8, 20), p(9, 55), p(10, 45)]
            ),
        ]
    );
}

#[test]
fn test_81_detector() {
    let vec_pen_events = vec![
        (1, 100),
        (2, 50),
        (3, 60),
        (4, 10),
        (5, 90),
        (6, 50),
        (7, 80),
        (8, 20),
        (9, 85),
        (10, 51),
        (11, 70),
        (12, 1),
        (13, 10),
    ];
    let mut sd = SegmentDetector::new();
    let segment_events = run(&mut sd, pen_events(&vec_pen_events));
    assert_eq!(segment_events.len(), 2);
    assert_eq!(segment_events[0], SegmentEvent::New(p(1, 100), p(4, 10), vec![p(2, 50), p(3, 60)]));
    assert_eq!(
        segment_events[1],
        SegmentEvent::New(p(4, 10), p(9, 85), vec![p(5, 90), p(6, 50), p(7, 80), p(8, 20)])
    );
    assert_eq!(sd.direction(), Some(Direction::Down));
}

#[test]
fn simple_stairstep_gives_a_down_segment_first() {
    let prices = [100, 50, 60, 10, 90, 50, 80, 20, 85, 51, 70, 1, 10];
    let points: Vec<(i64, i64)> = prices.iter().enumerate().map(|(i, v)| (i as i64 + 1, *v)).collect();
    let mut sd = SegmentDetector::new();
    let out = run(&mut sd, pen_events(&points));
    match &out[0] {
        SegmentEvent::New(start, end, _) => {
            assert_eq!(*start, p(1, 100));
            assert_eq!(*end, p(4, 10));
        }
        _ => panic!("one segment expected"),
    }
}

#[test]
fn two_segments_at_once() {
    // The top at the fourth point has a gap, so it waits for a bottom after
    // it; the bottom at the seventh point has none. Both are confirmed by
    // the pen from the ninth to the tenth point, which the eleventh seals.
    let prices = [16, 52, 48, 84, 54, 58, 20, 60, 36, 68, 29];
    let points: Vec<(i64, i64)> = prices.iter().enumerate().map(|(i, v)| (i as i64 + 1, *v)).collect();
    let mut sd = SegmentDetector::new();
    let events = pen_events(&points);
    let mut out = Vec::new();
    for (i, e) in events.into_iter().enumerate() {
        let r = sd.on_pen_event(e);
        if i < 9 {
            assert_eq!(r, None);
        }
        if let Some(s) = r {
            out.push(s);
        }
    }
    assert_eq!(
        out,
        vec![SegmentEvent::New2(
            p(1, 16),
            p(4, 84),
            p(7, 20),
            vec![p(2, 52), p(3, 48)],
            vec![p(5, 54), p(6, 58)],
        )]
    );
    // up, then down: the segment in progress runs up again
    assert_eq!(sd.direction(), Some(Direction::Up));
    assert_eq!(sd.points(), &vec![p(7, 20), p(8, 60), p(9, 36), p(10, 68), p(11, 29)]);
    assert_eq!(sd.potential_state(), None);
    assert_eq!(sd.state_for_case2(), None);
    assert!(!sd.is_first_segment());
}

#[test]
fn first_segment_starts_at_the_second_point_when_the_count_is_even() {
    let prices = [28, 63, 50, 68, 48, 86, 69, 98, 87];
    let points: Vec<(i64, i64)> = prices.iter().enumerate().map(|(i, v)| (i as i64 + 1, *v)).collect();
    let mut sd = SegmentDetector::new();
    assert!(sd.is_first_segment());
    let out = run(&mut sd, pen_events(&points));
    assert_eq!(out, vec![SegmentEvent::New(p(2, 63), p(5, 48), vec![p(3, 50), p(4, 68)])]);
    assert!(!sd.is_first_segment());
    assert_eq!(sd.direction(), Some(Direction::Up));
    assert_eq!(sd.points()[0], p(5, 48));
}

#[test]
fn update_moves_the_latest_point_only() {
    let mut sd = SegmentDetector::new();
    assert_eq!(sd.on_pen_event(PenEvent::UpdateTo(p(1, 5))), None);
    assert_eq!(sd.points(), &vec![p(1, 5)]);
    let mut sd = SegmentDetector::new();
    assert_eq!(sd.on_pen_event(PenEvent::First(p(1, 100), p(2, 200))), None);
    assert_eq!(sd.on_pen_event(PenEvent::UpdateTo(p(3, 250))), None);
    assert_eq!(sd.points(), &vec![p(1, 100), p(3, 250)]);
    assert_eq!(sd.on_pen_event(PenEvent::New(p(4, 150))), None);
    assert_eq!(sd.on_pen_event(PenEvent::UpdateTo(p(5, 120))), None);
    assert_eq!(sd.points(), &vec![p(1, 100), p(3, 250), p(5, 120)]);
    assert_eq!(sd.direction(), None);
}

#[test]
fn an_update_before_a_new_pen_changes_what_is_decided() {
    // as in the stream of twenty-three points, but the fourth point arrives
    // low and is moved up before the fifth
    let mut sd = SegmentDetector::new();
    let mut out = Vec::new();
    let mut events = vec![
        PenEvent::First(p(1, 100), p(2, 200)),
        PenEvent::New(p(3, 150)),
        PenEvent::New(p(4, 300)),
        PenEvent::UpdateTo(p(4, 1000)),
    ];
    for (t, v) in [(5, 900), (6, 950), (7, 700), (8, 800), (9, 750), (10, 850), (11, 600)] {
        events.push(PenEvent::New(p(t, v)));
    }
    for e in events {
        if let Some(s) = sd.on_pen_event(e) {
            out.push(s);
        }
    }
    assert_eq!(out, vec![SegmentEvent::New(p(1, 100), p(4, 1000), vec![p(2, 200), p(3, 150)])]);
}

#[test]
fn segments_join_alternate_and_carry_all_their_pens() {
    let prices = [
        100, 200, 150, 1000, 900, 950, 700, 800, 750, 850, 600, 650, 400, 500, 450, 610, 480, 550,
        50, 625, 500, 800, 700,
    ];
    let all: Vec<Point> = prices.iter().enumerate().map(|(i, v)| p(i as i64 + 1, *v)).collect();
    let points: Vec<(i64, i64)> = prices.iter().enumerate().map(|(i, v)| (i as i64 + 1, *v)).collect();
    let mut sd = SegmentDetector::new();
    // each segment as its path from start to end, with its direction
    let mut paths: Vec<(Vec<Point>, Direction)> = Vec::new();
    for e in pen_events(&points) {
        let before = sd.direction();
        let r = sd.on_pen_event(e);
        let after = sd.direction();
        match r {
            None => assert_eq!(before, after),
            Some(SegmentEvent::New(start, end, pens)) => {
                let mut path = vec![start];
                path.extend(pens);
                path.push(end);
                // the direction turns against the segment
                let direction = match after.unwrap() {
                    Direction::Up => Direction::Down,
                    Direction::Down => Direction::Up,
                };
                if let Some(d) = before {
                    assert_eq!(d, direction);
                }
                paths.push((path, direction));
            }
            Some(SegmentEvent::New2(start, mid, end, pens1, pens2)) => {
                let direction = after.unwrap();
                if let Some(d) = before {
                    assert_eq!(d, direction);
                }
                let mut path = vec![start];
                path.extend(pens1);
                path.push(mid);
                paths.push((path, direction));
                let mut path = vec![mid];
                path.extend(pens2);
                path.push(end);
                let reverse = match direction {
                    Direction::Up => Direction::Down,
                    Direction::Down => Direction::Up,
                };
                paths.push((path, reverse));
            }
            Some(SegmentEvent::UpdateTo(_)) => panic!("never reported"),
        }
    }
    assert_eq!(paths.len(), 4);
    let mut at = 0;
    for (i, (path, direction)) in paths.iter().enumerate() {
        // the path is a run of the pen endpoints, and starts where the last ended
        assert_eq!(&all[at..at + path.len()], &path[..]);
        at += path.len() - 1;
        if i > 0 {
            assert!(paths[i - 1].1 != *direction);
            assert_eq!(paths[i - 1].0.last(), path.first());
        }
    }
    assert_eq!(paths[0].1, Direction::Up);
    assert_eq!(at, 18);
}

#[test]
fn first_segment_shows_in_four_points() {
    let mut sd = SegmentDetector::new();
    sd.on_pen_event(PenEvent::First(p(1, 100), p(2, 200)));
    sd.on_pen_event(PenEvent::New(p(3, 150)));
    assert_eq!(sd.find_first_segment(), None);
    sd.on_pen_event(PenEvent::New(p(4, 1000)));
    assert_eq!(sd.find_first_segment(), Some(Direction::Up));
    sd.on_pen_event(PenEvent::UpdateTo(p(4, 200)));
    assert_eq!(sd.find_first_segment(), None);
    sd.on_pen_event(PenEvent::UpdateTo(p(4, 201)));
    assert_eq!(sd.find_first_segment(), Some(Direction::Up));

    let mut sd = SegmentDetector::new();
    sd.on_pen_event(PenEvent::First(p(1, 100), p(2, 50)));
    sd.on_pen_event(PenEvent::New(p(3, 60)));
    sd.on_pen_event(PenEvent::New(p(4, 10)));
    assert_eq!(sd.find_first_segment(), Some(Direction::Down));
    sd.on_pen_event(PenEvent::UpdateTo(p(4, 50)));
    assert_eq!(sd.find_first_segment(), None);

    // a third point beyond the first shows nothing
    let mut sd = SegmentDetector::new();
    sd.on_pen_event(PenEvent::First(p(1, 100), p(2, 200)));
    sd.on_pen_event(PenEvent::New(p(3, 90)));
    sd.on_pen_event(PenEvent::New(p(4, 1000)));
    assert_eq!(sd.find_first_segment(), None);
}

#[test]
fn first_segment_is_not_sought_once_there_is_a_direction() {
    let prices = [28, 63, 50, 68, 48, 86, 69, 98, 87];
    let points: Vec<(i64, i64)> = prices.iter().enumerate().map(|(i, v)| (i as i64 + 1, *v)).collect();
    let mut sd = SegmentDetector::new();
    run(&mut sd, pen_events(&points));
    // the last four points rise, fall back and rise further
    assert_eq!(sd.direction(), Some(Direction::Up));
    assert_eq!(sd.find_first_segment(), None);
}

#[test]
fn verify_point_tells_a_zigzag() {
    let mut sd = SegmentDetector::new();
    assert!(sd.verify_point());
    sd.on_pen_event(PenEvent::First(p(1, 100), p(2, 200)));
    assert!(sd.verify_point());
    sd.on_pen_event(PenEvent::New(p(3, 150)));
    assert!(sd.verify_point());
    sd.on_pen_event(PenEvent::UpdateTo(p(3, 250)));
    assert!(!sd.verify_point());
    sd.on_pen_event(PenEvent::UpdateTo(p(3, 200)));
    assert!(!sd.verify_point());
    let mut sd = SegmentDetector::new();
    sd.on_pen_event(PenEvent::First(p(1, 100), p(2, 50)));
    sd.on_pen_event(PenEvent::New(p(3, 60)));
    assert!(sd.verify_point());
}

#[test]
fn process_decides_without_adding_a_point() {
    let mut sd = SegmentDetector::new();
    sd.on_pen_event(PenEvent::First(p(1, 100), p(2, 200)));
    for (t, v) in [(3, 150), (4, 1000), (5, 900), (6, 950)] {
        sd.on_pen_event(PenEvent::New(p(t, v)));
    }
    assert_eq!(sd.potential_state(), None);
    assert_eq!(sd.process(), None);
    assert_eq!(sd.points().len(), 6);
    // the top at the fourth point, with a gap between 200 and 900
    let found = sd.potential_state().unwrap();
    assert_eq!(found.potential_index, 3);
    assert_eq!(found.fx_type, czsc::fx::FxType::Top);
    assert!(found.has_gap);
    assert!(!found.confirm);
    assert_eq!(found.k2, czsc::segment_state::SeqRange::new(1000, 900));
    assert_eq!(found.price, 1000);
    assert_eq!(found.time, Time::new(4));
}
