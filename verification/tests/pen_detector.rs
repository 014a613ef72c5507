use czsc::event::PenEvent;
use czsc::fx::{Fx, FxType};
use czsc::pen_detector::PenDetector;
use czsc::pen_rule::{detect_is_pen, fx_is_contain, merge_same_fx_type, MergeAction};
use czsc::point::Point;
use czsc::time::Time;

// A top whose candle reaches 5 below its high, at a time ten times its index.
fn top(index: u64, price: i64) -> Fx {
    Fx::new(FxType::Top, index, Time::new(index as i64 * 10), price, price - 5)
}

// A bottom whose candle reaches 5 above its low.
fn bottom(index: u64, price: i64) -> Fx {
    Fx::new(FxType::Bottom, index, Time::new(index as i64 * 10), price, price + 5)
}

fn pt(f: &Fx) -> Point {
    Point::new(f.time(), f.price())
}

fn feed(pd: &mut PenDetector, fxs: &[Fx]) -> Vec<Option<PenEvent>> {
    fxs.iter().map(|f| pd.on_new_fractal(*f)).collect()
}

#[test]
fn minimal_pen_formation() {
    let mut pd = PenDetector::new();
    let (a, b, c) = (top(0, 100), bottom(4, 80), top(8, 105));
    assert_eq!(pd.on_new_fractal(a), None);
    assert_eq!(pd.on_new_fractal(b), Some(PenEvent::First(pt(&a), pt(&b))));
    assert_eq!(pd.on_new_fractal(c), Some(PenEvent::New(Point::new(Time::new(80), 105))));
}

#[test]
fn update_to_on_a_lower_bottom() {
    let mut pd = PenDetector::new();
    let (a, b, c) = (top(0, 100), bottom(4, 80), bottom(8, 75));
    assert_eq!(pd.on_new_fractal(a), None);
    assert_eq!(pd.on_new_fractal(b), Some(PenEvent::First(pt(&a), pt(&b))));
    assert_eq!(pd.on_new_fractal(c), Some(PenEvent::UpdateTo(Point::new(Time::new(80), 75))));
}

#[test]
fn single_fractal_gives_way_to_a_higher_top_only() {
    let mut pd = PenDetector::new();
    let out = feed(&mut pd, &[top(0, 100), top(2, 110), top(3, 105), bottom(6, 90)]);
    // the pen starts at the top of index 2: four candles before the bottom
    assert_eq!(
        out,
        vec![None, None, None, Some(PenEvent::First(pt(&top(2, 110)), pt(&bottom(6, 90))))]
    );
}

#[test]
fn an_equal_price_does_not_replace() {
    let mut pd = PenDetector::new();
    let out = feed(&mut pd, &[top(0, 100), top(2, 100), bottom(4, 90)]);
    assert_eq!(out, vec![None, None, Some(PenEvent::First(pt(&top(0, 100)), pt(&bottom(4, 90))))]);
    assert_eq!(merge_same_fx_type(&top(0, 100), &top(2, 100)), MergeAction::Keep);
    assert_eq!(merge_same_fx_type(&top(0, 100), &top(2, 101)), MergeAction::Replace);
    assert_eq!(merge_same_fx_type(&top(0, 100), &top(2, 99)), MergeAction::Keep);
    assert_eq!(merge_same_fx_type(&bottom(0, 100), &bottom(2, 100)), MergeAction::Keep);
    assert_eq!(merge_same_fx_type(&bottom(0, 100), &bottom(2, 99)), MergeAction::Replace);
    assert_eq!(merge_same_fx_type(&bottom(0, 100), &bottom(2, 101)), MergeAction::Keep);
}

#[test]
fn two_fractals_too_close_wait_for_a_third_that_bounds_a_pen() {
    let mut pd = PenDetector::new();
    let out = feed(&mut pd, &[top(0, 100), bottom(2, 90), top(6, 120)]);
    assert_eq!(out, vec![None, None, Some(PenEvent::First(pt(&bottom(2, 90)), pt(&top(6, 120))))]);
}

#[test]
fn a_lower_bottom_far_enough_makes_the_first_pen_with_the_top() {
    let mut pd = PenDetector::new();
    let out = feed(&mut pd, &[top(0, 100), bottom(2, 90), bottom(3, 85), bottom(4, 80)]);
    assert_eq!(
        out,
        vec![None, None, None, Some(PenEvent::First(pt(&top(0, 100)), pt(&bottom(4, 80))))]
    );
}

#[test]
fn a_higher_top_starts_over() {
    let mut pd = PenDetector::new();
    let out =
        feed(&mut pd, &[top(0, 100), bottom(2, 90), top(3, 95), top(4, 120), bottom(8, 80)]);
    // the top of index 3 is lower than the first and changes nothing; the
    // top of index 4 is higher, and the search starts over from it
    assert_eq!(
        out,
        vec![None, None, None, None, Some(PenEvent::First(pt(&top(4, 120)), pt(&bottom(8, 80))))]
    );
}

#[test]
fn a_pen_in_progress_ignores_a_bottom_that_is_not_lower() {
    let mut pd = PenDetector::new();
    let out = feed(&mut pd, &[top(0, 100), bottom(4, 80), bottom(6, 80), bottom(7, 85)]);
    assert_eq!(out[2], None);
    assert_eq!(out[3], None);
}

#[test]
fn a_held_fractal_that_grows_into_a_pen_seals_the_pen_in_progress() {
    let mut pd = PenDetector::new();
    let out = feed(&mut pd, &[top(0, 100), bottom(4, 80), top(6, 90), top(7, 95), top(8, 96)]);
    // the tops of index 6 and 7 lie too close to the bottom; that of index 8
    // is far enough
    assert_eq!(
        out,
        vec![
            None,
            Some(PenEvent::First(pt(&top(0, 100)), pt(&bottom(4, 80)))),
            None,
            None,
            Some(PenEvent::New(pt(&top(8, 96)))),
        ]
    );
    // the new pen runs from the bottom of index 4 to the top of index 8
    assert_eq!(pd.on_new_fractal(bottom(12, 70)), Some(PenEvent::New(pt(&bottom(12, 70)))));
}

#[test]
fn a_held_fractal_is_kept_against_a_lower_top() {
    let mut pd = PenDetector::new();
    let out = feed(&mut pd, &[top(0, 100), bottom(4, 80), top(6, 90), top(8, 85)]);
    assert_eq!(out[3], None);
    // the top of index 6 is still held: a higher one far enough seals the pen
    assert_eq!(pd.on_new_fractal(top(9, 91)), Some(PenEvent::New(pt(&top(9, 91)))));
}

#[test]
fn a_lower_bottom_moves_the_end_and_forgets_the_held_fractal() {
    let mut pd = PenDetector::new();
    let out = feed(&mut pd, &[top(0, 100), bottom(4, 80), top(6, 90), bottom(8, 85), bottom(9, 70)]);
    assert_eq!(out[2], None);
    assert_eq!(out[3], None);
    assert_eq!(out[4], Some(PenEvent::UpdateTo(pt(&bottom(9, 70)))));
    // the held top is gone: a top too close to the new end is held in its turn
    assert_eq!(pd.on_new_fractal(top(11, 99)), None);
    assert_eq!(pd.on_new_fractal(top(13, 99)), None);
    assert_eq!(pd.on_new_fractal(top(14, 100)), Some(PenEvent::New(pt(&top(14, 100)))));
}

#[test]
fn pen_needs_four_candles_between_its_ends() {
    assert!(!detect_is_pen(&top(0, 100), &bottom(3, 80)));
    assert!(detect_is_pen(&top(0, 100), &bottom(4, 80)));
    assert!(detect_is_pen(&bottom(9, 80), &top(5, 100)));
    assert!(top(0, 100).has_enough_distance(&bottom(4, 80)));
    assert!(!top(3, 100).has_enough_distance(&bottom(0, 80)));
    assert_eq!(top(3, 100).distance(&bottom(10, 80)), 7);
    assert_eq!(top(10, 100).distance(&bottom(3, 80)), 7);
}

#[test]
fn pen_needs_opposite_kinds_and_a_strict_move() {
    assert!(!detect_is_pen(&top(0, 100), &top(4, 80)));
    assert!(!detect_is_pen(&bottom(0, 100), &bottom(4, 120)));
    assert!(!detect_is_pen(&top(0, 100), &bottom(4, 100)));
    assert!(!detect_is_pen(&top(0, 100), &bottom(4, 101)));
    assert!(!detect_is_pen(&bottom(0, 100), &top(4, 100)));
    assert!(detect_is_pen(&bottom(0, 100), &top(4, 106)));
    assert!(detect_is_pen(&top(0, 100), &bottom(4, 94)));
    assert!(top(0, 1).is_same_type(&top(1, 2)));
    assert!(!top(0, 1).is_same_type(&bottom(1, 2)));
}

#[test]
fn fractal_containment_forbids_a_pen() {
    // a top from 90 to 100, and a bottom whose candle runs from 95 to 110
    let a = Fx::new(FxType::Top, 0, Time::new(0), 100, 90);
    let b = Fx::new(FxType::Bottom, 4, Time::new(40), 95, 110);
    assert_eq!((a.range_low(), a.range_high()), (90, 100));
    assert_eq!((b.range_low(), b.range_high()), (95, 110));
    assert!(fx_is_contain(&a, &b));
    assert!(!detect_is_pen(&a, &b));
    // with the bottom's candle reaching no higher than the top, a pen
    let c = Fx::new(FxType::Bottom, 4, Time::new(40), 95, 100);
    assert!(!fx_is_contain(&a, &c));
    assert!(detect_is_pen(&a, &c));
    // the mirror image
    let d = Fx::new(FxType::Bottom, 0, Time::new(0), 100, 110);
    let e = Fx::new(FxType::Top, 4, Time::new(40), 105, 90);
    assert!(fx_is_contain(&d, &e));
    assert!(!detect_is_pen(&d, &e));
    let f = Fx::new(FxType::Top, 4, Time::new(40), 105, 100);
    assert!(!fx_is_contain(&d, &f));
    assert!(detect_is_pen(&d, &f));
}

#[test]
fn endpoints_alternate_lie_apart_and_run_the_right_way() {
    let mut pd = PenDetector::new();
    let fxs = vec![
        top(0, 100),
        bottom(4, 80),
        bottom(6, 75),
        top(8, 90),
        top(10, 95),
        bottom(12, 85),
        bottom(14, 60),
        top(15, 70),
        top(20, 110),
        bottom(24, 50),
    ];
    // the endpoints as fractals, kept as the events say
    let mut ends: Vec<Fx> = Vec::new();
    let mut sealed: Vec<Fx> = Vec::new();
    for f in &fxs {
        match pd.on_new_fractal(*f) {
            Some(PenEvent::First(a, b)) => {
                assert!(ends.is_empty());
                assert_eq!(b, pt(f));
                let start = fxs.iter().find(|x| pt(x) == a).unwrap();
                ends.push(*start);
                ends.push(*f);
            }
            Some(PenEvent::New(p)) => {
                assert_eq!(p, pt(f));
                sealed = ends.clone();
                ends.push(*f);
            }
            Some(PenEvent::UpdateTo(p)) => {
                assert_eq!(p, pt(f));
                ends.pop();
                ends.push(*f);
            }
            None => {}
        }
        // what was sealed stays
        assert_eq!(&ends[..sealed.len()], &sealed[..]);
    }
    assert_eq!(
        ends,
        vec![top(0, 100), bottom(6, 75), top(10, 95), bottom(14, 60), top(20, 110), bottom(24, 50)]
    );
    for i in 1..ends.len() {
        assert!(ends[i - 1].fx_type() != ends[i].fx_type());
        assert!(ends[i - 1].distance(&ends[i]) >= 4);
        if ends[i - 1].fx_type() == FxType::Top {
            assert!(ends[i].price() < ends[i - 1].price());
        } else {
            assert!(ends[i].price() > ends[i - 1].price());
        }
    }
}
