//! Online analysis of a stream of price bars.
//!
//! Three layers work in a row, each on what the one before it reports, and
//! none of them ever takes back what it has reported:
//!
//! * [`fx_detector`] merges bars that stand in containment into candles and
//!   finds the fractals, the tops and bottoms, among the candles;
//! * [`pen_detector`] turns the fractals into pens, the legs of a zigzag;
//! * [`segment_detector`] groups the pens into segments.
//!
//! [`analyzer`] runs the three in a row. Each detector is a value of its own
//! with one method that takes the next input; what that method does is given
//! by a function on a mathematical state ([`fx_detector::FxState`],
//! [`pen_detector::PenState`], [`segment_state::SegState`]), and what holds
//! of all that a detector reports is proved of that function in [`fx_laws`],
//! [`pen_laws`] and [`segment_laws`].
//!
//! Prices are whole numbers of ticks, the smallest increment in which the
//! instrument is quoted; times are milliseconds since the epoch.

pub mod analyzer;
pub mod bar;
pub mod candle;
pub mod direction;
pub mod event;
pub mod fx;
pub mod fx_detector;
pub mod fx_laws;
pub mod pen_detector;
pub mod pen_laws;
pub mod pen_rule;
pub mod point;
pub mod ringbuffer;
pub mod segment_detector;
pub mod segment_laws;
pub mod segment_state;
pub mod time;
