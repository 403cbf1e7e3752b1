//! What holds of every store and every iterator, proved over the model.

use vstd::prelude::*;
use chrono::NaiveDateTime;
use crate::model::{recorded_volume, Bar, Cursor, Series};

verus! {

/// The store without bars is level.
pub proof fn lemma_empty_is_level(id: Seq<char>)
    ensures
        Series::empty(id).wf(),
        Series::empty(id).len() == 0,
        Series::empty(id).id == id,
{
}

/// Appending a bar to a level store leaves it level, whether or not the bar
/// comes with a volume.
pub proof fn lemma_push_keeps_level(
    s: Series,
    open: u64,
    high: u64,
    low: u64,
    close: u64,
    volume: Option<u64>,
    time: NaiveDateTime,
)
    requires
        s.wf(),
    ensures
        s.push(open, high, low, close, volume, time).wf(),
{
}

/// Appending a bar makes every tracked column exactly one longer and puts
/// the bar last, behind the bars that were there, which stay as they were.
/// A tracked volume column ends in what [`recorded_volume`] gives: the
/// supplied value, or the missing-volume pattern where none came. A store
/// that tracks no volume tracks none afterwards.
pub proof fn lemma_push_grows(
    s: Series,
    open: u64,
    high: u64,
    low: u64,
    close: u64,
    volume: Option<u64>,
    time: NaiveDateTime,
)
    requires
        s.wf(),
    ensures
        ({
            let t = s.push(open, high, low, close, volume, time);
            &&& t.id == s.id
            &&& t.len() == s.len() + 1
            &&& t.open.len() == s.open.len() + 1
            &&& t.high.len() == s.high.len() + 1
            &&& t.low.len() == s.low.len() + 1
            &&& t.close.len() == s.close.len() + 1
            &&& t.time.len() == s.time.len() + 1
            &&& s.volume is None ==> t.volume is None
            &&& s.volume matches Some(before) ==> {
                &&& t.volume matches Some(after)
                &&& after.len() == before.len() + 1
                &&& after == before.push(recorded_volume(volume))
            }
            &&& t.bars() == s.bars().push(t.bar(s.len() as int))
            &&& t.last() == Some(
                Bar {
                    id: s.id,
                    open,
                    high,
                    low,
                    close,
                    volume: if s.volume is Some {
                        Some(recorded_volume(volume))
                    } else {
                        None
                    },
                    time,
                },
            )
        }),
{
    let t = s.push(open, high, low, close, volume, time);
    assert forall|i: int| 0 <= i < s.len() implies t.bar(i) == s.bar(i) by {}
    assert(t.bars() =~= s.bars().push(t.bar(s.len() as int)));
}

/// In a store with at least one bar, `last` is the bar at `len - 1`.
pub proof fn lemma_last_is_get(s: Series)
    requires
        s.len() > 0,
    ensures
        s.last() is Some,
        s.last() == s.get(s.len() - 1),
{
}

/// A store without bars has no last bar, and no bar at any index.
pub proof fn lemma_empty_has_no_bar(s: Series, i: int)
    requires
        s.len() == 0,
    ensures
        s.last() is None,
        s.get(i) is None,
{
}

/// With `n` no greater than the length, `take_last(n)` is a level store
/// under the same tag whose columns are the last `n` items of the columns
/// it was taken from, in their order: its bar `i` is bar `len - n + i`.
pub proof fn lemma_take_last_is_suffix(s: Series, n: nat)
    requires
        s.wf(),
        n <= s.len(),
    ensures
        ({
            let from = s.len() - n;
            &&& s.take_last(n) matches Some(t)
            &&& t.wf()
            &&& t.id == s.id
            &&& t.len() == n
            &&& t.open == s.open.subrange(from, s.len() as int)
            &&& t.high == s.high.subrange(from, s.len() as int)
            &&& t.low == s.low.subrange(from, s.len() as int)
            &&& t.close == s.close.subrange(from, s.len() as int)
            &&& t.time == s.time.subrange(from, s.len() as int)
            &&& s.volume is None ==> t.volume is None
            &&& s.volume matches Some(column) ==> t.volume == Some(
                column.subrange(from, s.len() as int),
            )
            &&& forall|i: int| 0 <= i < n ==> #[trigger] t.bar(i) == s.bar(from + i)
            &&& t.bars() == s.bars().skip(from)
        }),
{
    let from = s.len() - n;
    let t = s.suffix(from);
    assert forall|i: int| 0 <= i < n implies #[trigger] t.bar(i) == s.bar(from + i) by {}
    assert(t.bars() =~= s.bars().skip(from));
}

/// Taking all bars of a level store gives the store back, and taking none
/// gives the store without bars.
pub proof fn lemma_take_last_ends(s: Series)
    requires
        s.wf(),
    ensures
        s.take_last(s.len()) == Some(s),
        s.take_last(0) matches Some(t) && t.len() == 0 && t.id == s.id,
{
    assert(s.suffix(0) =~~= s);
}

/// Asking for more bars than the store holds gives `None`.
pub proof fn lemma_take_last_short(s: Series, n: nat)
    requires
        n > s.len(),
    ensures
        s.take_last(n) is None,
{
}

/// After `calls` calls a well-formed iterator stands `calls` bars further,
/// or at the end of its store if that comes first, over the same store.
pub proof fn lemma_after(c: Cursor, calls: nat)
    requires
        c.wf(),
    ensures
        c.after(calls).wf(),
        c.after(calls).series == c.series,
        c.after(calls).position == if c.position + calls <= c.series.len() {
            c.position + calls
        } else {
            c.series.len()
        },
    decreases calls,
{
    if calls > 0 {
        lemma_after(c.advance(), (calls - 1) as nat);
    }
}

/// Once exhausted, always exhausted: whatever the number of further calls,
/// the iterator stays where it is and hands out `None`.
pub proof fn lemma_exhausted_is_final(c: Cursor, calls: nat)
    requires
        c.exhausted(),
    ensures
        c.after(calls) == c,
        c.after(calls).peek() is None,
    decreases calls,
{
    if calls > 0 {
        lemma_exhausted_is_final(c, (calls - 1) as nat);
    }
}

/// A well-formed iterator hands out exactly the bars that remain, one per
/// call and in their order, and `None` on every call after them.
pub proof fn lemma_iteration_yields_remaining(c: Cursor)
    requires
        c.wf(),
    ensures
        c.remaining().len() == c.series.len() - c.position,
        forall|i: nat|
            i < c.remaining().len() ==> {
                (#[trigger] c.after(i)).peek() == Some(c.remaining()[i as int])
            },
        forall|j: nat|
            j >= c.remaining().len() ==> {
                &&& (#[trigger] c.after(j)).peek() is None
                &&& c.after(j).exhausted()
            },
{
    assert forall|i: nat| i < c.remaining().len() implies {
        (#[trigger] c.after(i)).peek() == Some(c.remaining()[i as int])
    } by {
        lemma_after(c, i);
    }
    assert forall|j: nat| j >= c.remaining().len() implies {
        &&& (#[trigger] c.after(j)).peek() is None
        &&& c.after(j).exhausted()
    } by {
        lemma_after(c, j);
    }
}

/// Iterating a level store of `k` bars gives `k` bars, call `i` giving the
/// bar that `get(i)` gives, and `None` on every call from the `k`-th on.
pub proof fn lemma_iteration_is_total(s: Series)
    requires
        s.wf(),
    ensures
        Cursor::start(s).wf(),
        Cursor::start(s).remaining() == s.bars(),
        s.bars().len() == s.len(),
        forall|i: nat|
            i < s.len() ==> {
                &&& (#[trigger] Cursor::start(s).after(i)).peek() is Some
                &&& Cursor::start(s).after(i).peek() == s.get(i as int)
            },
        forall|j: nat|
            j >= s.len() ==> {
                &&& (#[trigger] Cursor::start(s).after(j)).peek() is None
                &&& Cursor::start(s).after(j) == Cursor::start(s).after(s.len())
            },
{
    let c = Cursor::start(s);
    assert(c.remaining() =~= s.bars());
    assert forall|i: nat| i < s.len() implies {
        &&& (#[trigger] c.after(i)).peek() is Some
        &&& c.after(i).peek() == s.get(i as int)
    } by {
        lemma_after(c, i);
    }
    lemma_after(c, s.len());
    assert forall|j: nat| j >= s.len() implies {
        &&& (#[trigger] c.after(j)).peek() is None
        &&& c.after(j) == c.after(s.len())
    } by {
        lemma_after(c, j);
    }
}

/// An iterator made from a store hands out the bars that the store held at
/// that moment. A bar appended to the store afterwards is not among them:
/// the store then holds one bar more than the iterator will ever hand out.
pub proof fn lemma_snapshot_isolation(
    s: Series,
    open: u64,
    high: u64,
    low: u64,
    close: u64,
    volume: Option<u64>,
    time: NaiveDateTime,
)
    requires
        s.wf(),
    ensures
        ({
            let c = Cursor::start(s);
            let t = s.push(open, high, low, close, volume, time);
            &&& c.series == s
            &&& c.remaining() == s.bars()
            &&& t.bars().len() == c.remaining().len() + 1
            &&& forall|calls: nat| (#[trigger] c.after(calls)).series == s
            &&& forall|calls: nat| (#[trigger] c.after(calls)).peek() == s.get(calls as int)
        }),
{
    let c = Cursor::start(s);
    assert(c.remaining() =~= s.bars());
    assert forall|calls: nat| {
        &&& (#[trigger] c.after(calls)).series == s
        &&& c.after(calls).peek() == s.get(calls as int)
    } by {
        lemma_after(c, calls);
    }
}

} // verus!
