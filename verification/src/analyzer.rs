//! The three layers in a row: bars in, fractals, pen events and segment
//! events out.

use crate::bar::Bar;
use crate::event::{PenEvent, SegmentEvent, SegmentEventView};
use crate::fx::Fx;
use crate::fx_detector::{FxDetector, FxState};
use crate::fx_laws::fractals;
use crate::pen_detector::{point_of, PenDetector, PenState};
use crate::pen_laws::{endpoints, events, lemma_pen_distance};
use crate::fx::PEN_DISTANCE;
use crate::fx_laws::lemma_monotone_index;
use crate::pen_rule::runs_from;
use crate::segment_detector::{view_of, SegmentDetector};
use crate::segment_laws::lemma_process_reports;
use crate::segment_state::{alternates_at_tail, beyond, SegState};
use vstd::prelude::*;

verus! {

/// What one bar brought about in each layer.
#[derive(Debug, PartialEq, Eq)]
pub struct Output {
    /// The fractal that the bar confirmed.
    pub fx: Option<Fx>,
    /// The pen event that the fractal caused.
    pub pen: Option<PenEvent>,
    /// The segment event that the pen event caused.
    pub segment: Option<SegmentEvent>,
}

/// The states of the three layers as one mathematical value.
pub struct AnalyzerState {
    pub fx: FxState,
    pub pen: PenState,
    pub seg: SegState,
}

/// What one bar brings about, as a mathematical value.
pub struct Outcome {
    pub fx: Option<Fx>,
    pub pen: Option<PenEvent>,
    pub segment: Option<SegmentEventView>,
}

impl View for Output {
    type V = Outcome;

    open spec fn view(&self) -> Outcome {
        Outcome { fx: self.fx, pen: self.pen, segment: view_of(self.segment) }
    }
}

/// Whether the second and third layers are in step: the third has no points
/// before the first pen; from then on its last two points are the ends of
/// the pen in progress, and the point before them lies on the far side of
/// that pen's start.
pub open spec fn in_step(pen: PenState, seg: SegState) -> bool {
    let len = seg.points.len() as int;
    if !pen.has_pen {
        len == 0
    } else {
        &&& len >= 2
        &&& seg.points[len - 2] == point_of(pen.window[0])
        &&& seg.points[len - 1] == point_of(pen.window[1])
        &&& len >= 3 ==> beyond(pen.window[0].fx_type, pen.window[0].price, seg.points[len - 3].price)
    }
}

impl AnalyzerState {
    /// The state before any bar.
    pub open spec fn init() -> AnalyzerState {
        AnalyzerState { fx: FxState::init(), pen: PenState::init(), seg: SegState::init() }
    }

    /// Each layer is well-formed, and the second and third are in step.
    pub open spec fn wf(self) -> bool {
        &&& self.fx.wf()
        &&& self.pen.wf()
        &&& self.seg.wf()
        &&& in_step(self.pen, self.seg)
    }

    /// What one bar does: the first layer takes the bar, the second the
    /// fractal that the first reports, and the third the pen event that the
    /// second reports.
    pub open spec fn step(self, bar: Bar) -> (AnalyzerState, Outcome) {
        let (fx_state, fx) = self.fx.step(bar);
        let (pen_state, pen) = match fx {
            Some(f) => self.pen.step(f),
            None => (self.pen, None),
        };
        let (seg_state, segment) = match pen {
            Some(e) => self.seg.step(e),
            None => (self.seg, None),
        };
        (AnalyzerState { fx: fx_state, pen: pen_state, seg: seg_state }, Outcome { fx, pen, segment })
    }
}

/// The pens that the second layer reports never break the third layer's
/// rule: when a new pen arrives, the last three points of the third layer go
/// down and up again, or up and down again.
pub proof fn lemma_in_step_alternates(pen: PenState, seg: SegState)
    requires
        pen.wf(),
        in_step(pen, seg),
    ensures
        alternates_at_tail(seg.points),
{
}

/// A fractal keeps the second and third layers in step.
pub proof fn lemma_in_step_stays(pen: PenState, seg: SegState, f: Fx)
    requires
        pen.wf(),
        seg.wf(),
        in_step(pen, seg),
    ensures
        match pen.step(f).1 {
            Some(e) => in_step(pen.step(f).0, seg.step(e).0),
            None => in_step(pen.step(f).0, seg),
        },
{
    match pen.step(f).1 {
        Some(PenEvent::New(a)) => {
            seg.lemma_process_wf();
            lemma_process_reports(seg);
        },
        _ => {},
    }
}

/// The state of the three layers after a stream of bars.
pub open spec fn run(bars: Seq<Bar>) -> AnalyzerState
    decreases bars.len(),
{
    if bars.len() == 0 {
        AnalyzerState::init()
    } else {
        run(bars.drop_last()).step(bars.last()).0
    }
}

/// The pen events that the layers report for a stream of bars.
pub open spec fn pen_events(bars: Seq<Bar>) -> Seq<PenEvent> {
    events(fractals(bars))
}

/// The layers in a row do what each layer does on what the layer before it
/// reports: after a stream of bars the first layer is where the bars take
/// it, the second where the fractals of the bars take it, and the third
/// where the pen events of those fractals take it. What holds of each layer
/// on every stream thus holds of the layers in a row.
pub proof fn lemma_layers_in_a_row(bars: Seq<Bar>)
    ensures
        run(bars).fx == crate::fx_laws::run(bars).0,
        run(bars).pen == crate::pen_laws::run(fractals(bars)).0,
        run(bars).seg == crate::segment_laws::run(pen_events(bars)).0,
    decreases bars.len(),
{
    if bars.len() > 0 {
        let shorter = bars.drop_last();
        lemma_layers_in_a_row(shorter);
        let before = run(shorter);
        let fxs = fractals(shorter);
        let pens = pen_events(shorter);
        match before.fx.step(bars.last()).1 {
            None => {},
            Some(f) => {
                assert(fractals(bars) == fxs.push(f));
                assert(fractals(bars).drop_last() =~= fxs);
                match before.pen.step(f).1 {
                    None => {},
                    Some(e) => {
                        assert(pen_events(bars) == pens.push(e));
                        assert(pen_events(bars).drop_last() =~= pens);
                    },
                }
            },
        }
    }
}

/// After any stream of bars that leaves indices for the candles, each layer
/// is well-formed and the second and third are in step.
pub proof fn lemma_run_wf(bars: Seq<Bar>)
    requires
        bars.len() <= u64::MAX,
        2 * bars.len() <= usize::MAX,
    ensures
        run(bars).wf(),
        run(bars).fx.next_index <= bars.len(),
        run(bars).seg.points.len() <= 2 * bars.len(),
    decreases bars.len(),
{
    if bars.len() > 0 {
        let shorter = bars.drop_last();
        lemma_run_wf(shorter);
        let before = run(shorter);
        before.fx.lemma_step_wf(bars.last());
        match before.fx.step(bars.last()).1 {
            None => {},
            Some(f) => {
                before.pen.lemma_step_wf(f);
                lemma_in_step_stays(before.pen, before.seg, f);
                match before.pen.step(f).1 {
                    None => {},
                    Some(e) => {
                        before.seg.lemma_step_wf(e);
                    },
                }
            },
        }
    }
}

/// Of the pens that the layers report for a stream of bars, each has its two
/// ends at least four candles apart.
pub proof fn lemma_pens_of_bars_are_long(bars: Seq<Bar>, i: int)
    requires
        bars.len() <= u64::MAX,
        0 <= i < endpoints(fractals(bars)).len() - 1,
    ensures
        endpoints(fractals(bars))[i].spec_distance(endpoints(fractals(bars))[i + 1])
            >= PEN_DISTANCE,
{
    let fxs = fractals(bars);
    assert forall|a: int, b: int| 0 <= a < b < fxs.len() implies (#[trigger] fxs[a]).index < (
    #[trigger] fxs[b]).index by {
        lemma_monotone_index(bars, a, b);
    }
    lemma_pen_distance(fxs, i);
}

/// The whole pipeline.
#[derive(Debug)]
pub struct Analyzer {
    fd: FxDetector,
    pd: PenDetector,
    sd: SegmentDetector,
}

impl View for Analyzer {
    type V = AnalyzerState;

    closed spec fn view(&self) -> AnalyzerState {
        AnalyzerState { fx: self.fd@, pen: self.pd@, seg: self.sd@ }
    }
}

impl Analyzer {
    /// The windows of the first two layers were made for three items each.
    pub closed spec fn windows_fit(&self) -> bool {
        self.fd.window_fits() && self.pd.window_fits()
    }

    /// The analyzer is in a state that `new` and `on_new_bar` can reach.
    pub open spec fn wf(&self) -> bool {
        &&& self.windows_fit()
        &&& self@.wf()
    }

    /// An analyzer that has seen no bar.
    pub fn new() -> (r: Self)
        ensures
            r.wf(),
            r@ == AnalyzerState::init(),
    {
        Self { fd: FxDetector::new(), pd: PenDetector::new(), sd: SegmentDetector::new() }
    }

    /// The number of candles begun so far.
    pub fn candles(&self) -> (r: u64)
        ensures
            r == self@.fx.next_index,
    {
        self.fd.next_index()
    }

    /// Takes the next bar of the stream through the three layers and returns
    /// what each of them reports.
    pub fn on_new_bar(&mut self, bar: &Bar) -> (r: Output)
        requires
            old(self).wf(),
            old(self)@.fx.next_index < u64::MAX,
        ensures
            final(self).wf(),
            (final(self)@, r@) == old(self)@.step(*bar),
    {
        let fx = self.fd.on_new_bar(bar);
        let mut pen: Option<PenEvent> = None;
        let mut segment: Option<SegmentEvent> = None;
        if let Some(f) = fx {
            proof {
                lemma_in_step_stays(self.pd@, self.sd@, f);
                lemma_in_step_alternates(self.pd@, self.sd@);
            }
            pen = self.pd.on_new_fractal(f);
            if let Some(e) = pen {
                segment = self.sd.on_pen_event(e);
            }
        }
        Output { fx, pen, segment }
    }
}

} // verus!
