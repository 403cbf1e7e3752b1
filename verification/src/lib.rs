//! Candlestick price bars: one bar as a value, a columnar store of the bars
//! of one instrument, and a single-pass iterator that turns the store back
//! into bars.
//!
//! Contracts speak of the model in [`model`]: a [`model::Bar`] for a
//! [`Candle`], a [`model::Series`] for a [`Candles`] and a
//! [`model::Cursor`] for a [`CandlesIterator`]. What relates several
//! operations stands in [`laws`].

pub mod time;
pub mod model;
pub mod candle;
pub mod store;
pub mod iter;
pub mod laws;

pub use candle::{Candle, CandleExt};
pub use iter::CandlesIterator;
pub use model::MISSING_VOLUME;
pub use store::{Candles, CandlesExt};
