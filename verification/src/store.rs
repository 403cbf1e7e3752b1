//! The columnar store of the bars of one instrument.

use vstd::prelude::*;
use chrono::NaiveDateTime;
use crate::candle::{bar_of, Candle};
use crate::model::{Series, MISSING_VOLUME};

verus! {

/// The bars of one instrument, one column per field. Index `i` of every
/// column describes bar `i`; bars stand in the order in which they were
/// appended.
///
/// The fields are open to direct assignment. Whoever assigns them keeps the
/// columns level, as [`Series::wf`] says: the readers ask for it.
#[derive(Debug)]
pub struct Candles {
    pub id: String,
    pub open: Vec<u64>,
    pub high: Vec<u64>,
    pub low: Vec<u64>,
    pub close: Vec<u64>,
    pub volume: Option<Vec<u64>>,
    pub time: Vec<NaiveDateTime>,
}

impl View for Candles {
    type V = Series;

    open spec fn view(&self) -> Series {
        Series {
            id: self.id@,
            open: self.open@,
            high: self.high@,
            low: self.low@,
            close: self.close@,
            volume: column_of(self.volume),
            time: self.time@,
        }
    }
}

/// The model of an optional column.
pub open spec fn column_of(column: Option<Vec<u64>>) -> Option<Seq<u64>> {
    match column {
        Some(values) => Some(values@),
        None => None,
    }
}

/// The model of an optional store.
pub open spec fn series_of(candles: Option<Candles>) -> Option<Series> {
    match candles {
        Some(c) => Some(c@),
        None => None,
    }
}

/// A fresh vector of the items of `column` from index `from` on.
fn copy_from<T: Copy>(column: &Vec<T>, from: usize) -> (r: Vec<T>)
    requires
        from <= column.len(),
    ensures
        r@ == column@.skip(from as int),
{
    let mut r: Vec<T> = Vec::new();
    let mut i: usize = from;
    while i < column.len()
        invariant
            from <= i <= column.len(),
            r@ == column@.subrange(from as int, i as int),
        decreases column.len() - i,
    {
        r.push(column[i]);
        i += 1;
    }
    r
}

/// Read access to a store, whether held or borrowed.
pub trait CandlesExt {
    /// What the store holds.
    spec fn series(&self) -> Series;

    /// Bar `index` as a value of its own, or `None` from the length on.
    fn get(&self, index: usize) -> (r: Option<Candle>)
        requires
            self.series().wf(),
        ensures
            bar_of(r) == self.series().get(index as int),
    ;

    /// The column of opening prices.
    fn open(&self) -> (r: &Vec<u64>)
        ensures
            r@ == self.series().open,
    ;

    /// The column of highest prices.
    fn high(&self) -> (r: &Vec<u64>)
        ensures
            r@ == self.series().high,
    ;

    /// The column of lowest prices.
    fn low(&self) -> (r: &Vec<u64>)
        ensures
            r@ == self.series().low,
    ;

    /// The column of closing prices.
    fn close(&self) -> (r: &Vec<u64>)
        ensures
            r@ == self.series().close,
    ;

    /// The column of volumes, where the store tracks them.
    fn volume(&self) -> (r: &Option<Vec<u64>>)
        ensures
            column_of(*r) == self.series().volume,
    ;

    /// The column of timestamps.
    fn time(&self) -> (r: &Vec<NaiveDateTime>)
        ensures
            r@ == self.series().time,
    ;

    /// The bar appended last, or `None` for a store without bars.
    fn last(&self) -> (r: Option<Candle>)
        requires
            self.series().wf(),
        ensures
            bar_of(r) == self.series().last(),
    ;

    /// A store of its own with the last `n` bars in their order, or `None`
    /// where the store has fewer. `take_last(0)` is the store without bars.
    fn take_last(&self, n: usize) -> (r: Option<Candles>)
        requires
            self.series().wf(),
        ensures
            series_of(r) == self.series().take_last(n as nat),
            r matches Some(tail) ==> tail@.wf(),
    ;
}

impl CandlesExt for Candles {
    open spec fn series(&self) -> Series {
        self@
    }

    fn get(&self, index: usize) -> (r: Option<Candle>) {
        if index < self.time.len() {
            let volume = match &self.volume {
                Some(column) => Some(column[index]),
                None => None,
            };
            Some(
                Candle {
                    id: self.id.clone(),
                    open: self.open[index],
                    high: self.high[index],
                    low: self.low[index],
                    close: self.close[index],
                    volume,
                    time: self.time[index],
                },
            )
        } else {
            None
        }
    }

    fn open(&self) -> (r: &Vec<u64>) {
        &self.open
    }

    fn high(&self) -> (r: &Vec<u64>) {
        &self.high
    }

    fn low(&self) -> (r: &Vec<u64>) {
        &self.low
    }

    fn close(&self) -> (r: &Vec<u64>) {
        &self.close
    }

    fn volume(&self) -> (r: &Option<Vec<u64>>) {
        &self.volume
    }

    fn time(&self) -> (r: &Vec<NaiveDateTime>) {
        &self.time
    }

    fn last(&self) -> (r: Option<Candle>) {
        let len = self.time.len();
        if len == 0 {
            None
        } else {
            self.get(len - 1)
        }
    }

    fn take_last(&self, n: usize) -> (r: Option<Candles>) {
        let len = self.time.len();
        if len < n {
            None
        } else {
            let from = len - n;
            let volume = match &self.volume {
                Some(column) => Some(copy_from(column, from)),
                None => None,
            };
            Some(
                Candles {
                    id: self.id.clone(),
                    open: copy_from(&self.open, from),
                    high: copy_from(&self.high, from),
                    low: copy_from(&self.low, from),
                    close: copy_from(&self.close, from),
                    volume,
                    time: copy_from(&self.time, from),
                },
            )
        }
    }
}

/// A borrowed store reads as the store it borrows: every method hands the
/// call on.
impl CandlesExt for &Candles {
    open spec fn series(&self) -> Series {
        (**self)@
    }

    fn get(&self, index: usize) -> (r: Option<Candle>) {
        (**self).get(index)
    }

    fn open(&self) -> (r: &Vec<u64>) {
        (**self).open()
    }

    fn high(&self) -> (r: &Vec<u64>) {
        (**self).high()
    }

    fn low(&self) -> (r: &Vec<u64>) {
        (**self).low()
    }

    fn close(&self) -> (r: &Vec<u64>) {
        (**self).close()
    }

    fn volume(&self) -> (r: &Option<Vec<u64>>) {
        (**self).volume()
    }

    fn time(&self) -> (r: &Vec<NaiveDateTime>) {
        (**self).time()
    }

    fn last(&self) -> (r: Option<Candle>) {
        (**self).last()
    }

    fn take_last(&self, n: usize) -> (r: Option<Candles>) {
        (**self).take_last(n)
    }
}

impl Clone for Candles {
    fn clone(&self) -> (r: Self)
        ensures
            r@ == self@,
    {
        let volume = match &self.volume {
            Some(column) => Some(copy_from(column, 0)),
            None => None,
        };
        Candles {
            id: self.id.clone(),
            open: copy_from(&self.open, 0),
            high: copy_from(&self.high, 0),
            low: copy_from(&self.low, 0),
            close: copy_from(&self.close, 0),
            volume,
            time: copy_from(&self.time, 0),
        }
    }
}

impl Default for Candles {
    /// The store without a tag, without bars, tracking no volume.
    fn default() -> (r: Self)
        ensures
            r@ == Series::empty(Seq::empty()),
            r@.wf(),
    {
        Candles {
            id: String::new(),
            open: Vec::new(),
            high: Vec::new(),
            low: Vec::new(),
            close: Vec::new(),
            volume: None,
            time: Vec::new(),
        }
    }
}

impl Candles {
    /// Whether every column is as long as the time column: what the readers
    /// ask of a store whose fields were assigned by hand.
    pub fn is_well_formed(&self) -> (r: bool)
        ensures
            r == self@.wf(),
    {
        let len = self.time.len();
        let volume_fits = match &self.volume {
            Some(column) => column.len() == len,
            None => true,
        };
        self.open.len() == len && self.high.len() == len && self.low.len() == len
            && self.close.len() == len && volume_fits
    }

    /// Whether the store holds no bar.
    pub fn is_empty(&self) -> (r: bool)
        ensures
            r == (self@.len() == 0),
    {
        self.time.is_empty()
    }

    /// Appends one bar: every column grows by exactly one item, so a level
    /// store stays level.
    ///
    /// The volume column follows [`Series::push_volume`]. A store that tracks
    /// volume records the supplied value, and [`MISSING_VOLUME`] for a bar
    /// that comes without one. A store that tracks no volume drops a
    /// supplied one without complaint and goes on tracking none.
    pub fn push(
        &mut self,
        open: u64,
        high: u64,
        low: u64,
        close: u64,
        volume: Option<u64>,
        time: NaiveDateTime,
    )
        ensures
            final(self)@ == old(self)@.push(open, high, low, close, volume, time),
            old(self)@.volume matches Some(column) ==> final(self)@.volume == Some(
                column.push(
                    match volume {
                        Some(value) => value,
                        None => MISSING_VOLUME,
                    },
                ),
            ),
            old(self)@.volume is None ==> final(self)@.volume is None,
            old(self)@.wf() ==> final(self)@.wf(),
    {
        self.open.push(open);
        self.high.push(high);
        self.low.push(low);
        self.close.push(close);
        if let Some(column) = &mut self.volume {
            let value = match volume {
                Some(value) => value,
                None => MISSING_VOLUME,
            };
            column.push(value);
        }
        self.time.push(time);
    }
}

} // verus!
