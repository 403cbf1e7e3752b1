//! The mathematical model of bars and stores.
//!
//! Prices and volumes are carried as 64-bit patterns: the IEEE 754 binary64
//! encoding of the value they stand for. The library moves them and never
//! computes on them, so a pattern comes out exactly as it went in, whatever
//! it encodes (a NaN with its payload included).

use vstd::prelude::*;
use chrono::NaiveDateTime;

verus! {

/// The volume recorded for a bar that came without one, in a store that
/// tracks volume: the bit pattern of the quiet NaN of binary64, sign clear
/// and payload empty. It reads back as "not a number", so a gap cannot pass
/// for a traded amount.
pub const MISSING_VOLUME: u64 = 0x7ff8_0000_0000_0000;

/// What a store that tracks volume records for a bar that comes with
/// `volume`: the value itself, or [`MISSING_VOLUME`] where there is none.
pub open spec fn recorded_volume(volume: Option<u64>) -> u64 {
    match volume {
        Some(value) => value,
        None => MISSING_VOLUME,
    }
}

/// What one bar holds.
#[verifier::ext_equal]
pub struct Bar {
    pub id: Seq<char>,
    pub open: u64,
    pub high: u64,
    pub low: u64,
    pub close: u64,
    pub volume: Option<u64>,
    pub time: NaiveDateTime,
}

/// What a store holds: the instrument's tag and one sequence per field.
/// Index `i` of every sequence describes bar `i`. Volume is tracked for the
/// whole series or not at all.
#[verifier::ext_equal]
pub struct Series {
    pub id: Seq<char>,
    pub open: Seq<u64>,
    pub high: Seq<u64>,
    pub low: Seq<u64>,
    pub close: Seq<u64>,
    pub volume: Option<Seq<u64>>,
    pub time: Seq<NaiveDateTime>,
}

impl Series {
    /// The number of bars: the length of the time column.
    pub open spec fn len(self) -> nat {
        self.time.len()
    }

    /// Every column is as long as the time column.
    pub open spec fn wf(self) -> bool {
        &&& self.open.len() == self.time.len()
        &&& self.high.len() == self.time.len()
        &&& self.low.len() == self.time.len()
        &&& self.close.len() == self.time.len()
        &&& self.volume matches Some(volume) ==> volume.len() == self.time.len()
    }

    /// The store of `id` without any bar, tracking no volume.
    pub open spec fn empty(id: Seq<char>) -> Series {
        Series {
            id,
            open: Seq::empty(),
            high: Seq::empty(),
            low: Seq::empty(),
            close: Seq::empty(),
            volume: None,
            time: Seq::empty(),
        }
    }

    /// Bar `i`, read across the columns.
    pub open spec fn bar(self, i: int) -> Bar
        recommends
            self.wf(),
            0 <= i < self.len(),
    {
        Bar {
            id: self.id,
            open: self.open[i],
            high: self.high[i],
            low: self.low[i],
            close: self.close[i],
            volume: match self.volume {
                Some(volume) => Some(volume[i]),
                None => None,
            },
            time: self.time[i],
        }
    }

    /// Bar `i` if there is one.
    pub open spec fn get(self, i: int) -> Option<Bar> {
        if 0 <= i < self.len() {
            Some(self.bar(i))
        } else {
            None
        }
    }

    /// The most recently appended bar, if there is any.
    pub open spec fn last(self) -> Option<Bar> {
        if self.len() == 0 {
            None
        } else {
            Some(self.bar(self.len() - 1))
        }
    }

    /// All bars in index order.
    pub open spec fn bars(self) -> Seq<Bar> {
        Seq::new(self.len(), |i: int| self.bar(i))
    }

    /// The store of the bars from index `from` on.
    pub open spec fn suffix(self, from: int) -> Series
        recommends
            self.wf(),
            0 <= from <= self.len(),
    {
        Series {
            id: self.id,
            open: self.open.skip(from),
            high: self.high.skip(from),
            low: self.low.skip(from),
            close: self.close.skip(from),
            volume: match self.volume {
                Some(volume) => Some(volume.skip(from)),
                None => None,
            },
            time: self.time.skip(from),
        }
    }

    /// The store of the last `n` bars, if there are that many. With `n == 0`
    /// this is the store without any bar, not `None`.
    pub open spec fn take_last(self, n: nat) -> Option<Series> {
        if n <= self.len() {
            Some(self.suffix(self.len() - n))
        } else {
            None
        }
    }

    /// The volume column after one more bar came with `volume`. A tracked
    /// column grows by one item with every bar: the supplied value, or
    /// [`MISSING_VOLUME`] where none came. A store that tracks no volume
    /// tracks none afterwards and drops what is supplied.
    pub open spec fn push_volume(self, volume: Option<u64>) -> Option<Seq<u64>> {
        match (self.volume, volume) {
            (Some(column), Some(value)) => Some(column.push(value)),
            (Some(column), None) => Some(column.push(MISSING_VOLUME)),
            (None, _) => None,
        }
    }

    /// The store after one more bar.
    pub open spec fn push(
        self,
        open: u64,
        high: u64,
        low: u64,
        close: u64,
        volume: Option<u64>,
        time: NaiveDateTime,
    ) -> Series {
        Series {
            id: self.id,
            open: self.open.push(open),
            high: self.high.push(high),
            low: self.low.push(low),
            close: self.close.push(close),
            volume: self.push_volume(volume),
            time: self.time.push(time),
        }
    }
}

/// Where an iterator stands: the store it was made over, and how many of
/// its bars it has handed out.
///
/// An iterator is active while its position lies under the length of its
/// store, and exhausted from then on: no call moves it again.
#[verifier::ext_equal]
pub struct Cursor {
    pub series: Series,
    pub position: nat,
}

impl Cursor {
    /// The iterator over `series` that has handed out nothing yet.
    pub open spec fn start(series: Series) -> Cursor {
        Cursor { series, position: 0 }
    }

    /// The store is level and the position is not past its end.
    pub open spec fn wf(self) -> bool {
        &&& self.series.wf()
        &&& self.position <= self.series.len()
    }

    /// Nothing is left to hand out.
    pub open spec fn exhausted(self) -> bool {
        self.position >= self.series.len()
    }

    /// What the next call hands out.
    pub open spec fn peek(self) -> Option<Bar> {
        self.series.get(self.position as int)
    }

    /// Where the iterator stands after the next call: one bar further while
    /// active, unchanged once exhausted.
    pub open spec fn advance(self) -> Cursor {
        if self.exhausted() {
            self
        } else {
            Cursor { series: self.series, position: self.position + 1 }
        }
    }

    /// Where the iterator stands after `calls` calls.
    pub open spec fn after(self, calls: nat) -> Cursor
        decreases calls,
    {
        if calls == 0 {
            self
        } else {
            self.advance().after((calls - 1) as nat)
        }
    }

    /// The bars still to be handed out, in the order in which they come.
    pub open spec fn remaining(self) -> Seq<Bar> {
        self.series.bars().skip(self.position as int)
    }
}

} // verus!
