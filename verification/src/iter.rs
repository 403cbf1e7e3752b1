//! Iteration over the bars of a store.

use vstd::prelude::*;
use crate::candle::{bar_of, Candle};
use crate::model::Cursor;
use crate::store::{Candles, CandlesExt};

verus! {

/// A single pass over the bars of a store, in index order. The iterator owns
/// a copy of the store made when it was created, so what it hands out does
/// not depend on what happens to the store afterwards. Once it has returned
/// `None` it returns `None` forever; a second pass takes a new iterator.
#[derive(Debug)]
pub struct CandlesIterator {
    candles: Candles,
    idx: usize,
}

impl View for CandlesIterator {
    type V = Cursor;

    closed spec fn view(&self) -> Cursor {
        Cursor { series: self.candles@, position: self.idx as nat }
    }
}

impl Clone for CandlesIterator {
    fn clone(&self) -> (r: Self)
        ensures
            r@ == self@,
    {
        CandlesIterator { candles: self.candles.clone(), idx: self.idx }
    }
}

impl CandlesIterator {
    /// Hands out the bar at the position and moves one further, or returns
    /// `None` and stays where it is when no bar is left.
    pub fn next(&mut self) -> (r: Option<Candle>)
        requires
            old(self)@.wf(),
        ensures
            bar_of(r) == old(self)@.peek(),
            final(self)@ == old(self)@.advance(),
            final(self)@.wf(),
    {
        let candle = self.candles.get(self.idx);
        if candle.is_some() {
            assert(self.idx < self.candles.time.len());
            self.idx += 1;
        }
        candle
    }
}

impl Candles {
    /// An iterator over a copy of the store as it is now.
    pub fn iter(&self) -> (r: CandlesIterator)
        ensures
            r@ == Cursor::start(self@),
    {
        CandlesIterator { candles: self.clone(), idx: 0 }
    }

    /// An iterator over the store itself, which it takes over.
    pub fn into_iter(self) -> (r: CandlesIterator)
        ensures
            r@ == Cursor::start(self@),
    {
        CandlesIterator { candles: self, idx: 0 }
    }
}

} // verus!
