//! One price bar as a self-contained value.

use vstd::prelude::*;
use chrono::NaiveDateTime;
use crate::model::Bar;

verus! {

/// One price bar of an instrument: four prices, the volume where the series
/// tracks it, the timestamp and the instrument's tag. Prices and volume are
/// bit patterns of binary64 values (see [`crate::model`]). Nothing relates
/// the four prices: a bar whose high lies under its low is a value like any
/// other.
#[derive(Debug)]
pub struct Candle {
    pub open: u64,
    pub high: u64,
    pub low: u64,
    pub close: u64,
    pub volume: Option<u64>,
    pub time: NaiveDateTime,
    pub id: String,
}

impl View for Candle {
    type V = Bar;

    open spec fn view(&self) -> Bar {
        Bar {
            id: self.id@,
            open: self.open,
            high: self.high,
            low: self.low,
            close: self.close,
            volume: self.volume,
            time: self.time,
        }
    }
}

impl Clone for Candle {
    fn clone(&self) -> (r: Self)
        ensures
            r@ == self@,
    {
        Candle {
            open: self.open,
            high: self.high,
            low: self.low,
            close: self.close,
            volume: self.volume,
            time: self.time,
            id: self.id.clone(),
        }
    }
}

/// The model of an optional bar.
pub open spec fn bar_of(candle: Option<Candle>) -> Option<Bar> {
    match candle {
        Some(c) => Some(c@),
        None => None,
    }
}

/// Read access to the fields of one bar.
pub trait CandleExt {
    /// The bar that the value stands for.
    spec fn bar(&self) -> Bar;

    /// The opening price.
    fn open(&self) -> (r: u64)
        ensures
            r == self.bar().open,
    ;

    /// The highest price.
    fn high(&self) -> (r: u64)
        ensures
            r == self.bar().high,
    ;

    /// The lowest price.
    fn low(&self) -> (r: u64)
        ensures
            r == self.bar().low,
    ;

    /// The closing price.
    fn close(&self) -> (r: u64)
        ensures
            r == self.bar().close,
    ;

    /// The traded volume, where the series tracks it.
    fn volume(&self) -> (r: Option<u64>)
        ensures
            r == self.bar().volume,
    ;

    /// The timestamp of the bar.
    fn time(&self) -> (r: NaiveDateTime)
        ensures
            r == self.bar().time,
    ;
}

impl CandleExt for Candle {
    open spec fn bar(&self) -> Bar {
        self@
    }

    fn open(&self) -> (r: u64) {
        self.open
    }

    fn high(&self) -> (r: u64) {
        self.high
    }

    fn low(&self) -> (r: u64) {
        self.low
    }

    fn close(&self) -> (r: u64) {
        self.close
    }

    fn volume(&self) -> (r: Option<u64>) {
        self.volume
    }

    fn time(&self) -> (r: NaiveDateTime) {
        self.time
    }
}

} // verus!
