//! The candles stored for one pair and one timeframe: at most one candle per
//! open time, saved by upsert.

use crate::error::AppError;
use crate::types::{Timeframe, OHLCV};
use vstd::prelude::*;
use vstd::string::*;

verus! {

/// The stored candles by open time after a batch was saved over `stored`:
/// each candle of the batch, in order, takes the place of any candle with the
/// same open time.
pub open spec fn apply_batch(stored: Map<int, OHLCV>, batch: Seq<OHLCV>) -> Map<int, OHLCV>
    decreases batch.len(),
{
    if batch.len() == 0 {
        stored
    } else {
        apply_batch(stored, batch.drop_last()).insert(
            batch.last().timestamp.millis as int,
            batch.last(),
        )
    }
}

/// The candles of a sequence by open time; of two with the same open time
/// the later one counts.
pub open spec fn candle_map(candles: Seq<OHLCV>) -> Map<int, OHLCV> {
    apply_batch(Map::empty(), candles)
}

/// Whether the open times rise strictly along the sequence.
pub open spec fn strictly_rising(candles: Seq<OHLCV>) -> bool {
    forall|i: int, j: int|
        0 <= i < j < candles.len() ==> candles[i].timestamp.millis < candles[j].timestamp.millis
}

/// Whether a candle opens on a boundary of the timeframe and its low and
/// high enclose its open and close.
pub open spec fn valid_candle(timeframe: Timeframe, candle: OHLCV) -> bool {
    timeframe.aligned(candle.timestamp) && candle.consistent()
}

/// Whether every candle of the sequence is valid for the timeframe.
pub open spec fn all_valid(timeframe: Timeframe, candles: Seq<OHLCV>) -> bool {
    forall|i: int| 0 <= i < candles.len() ==> valid_candle(timeframe, #[trigger] candles[i])
}

/// Whether a candle opens on a boundary of the timeframe and its low and
/// high enclose its open and close.
pub fn is_valid_candle(timeframe: Timeframe, candle: &OHLCV) -> (r: bool)
    ensures
        r == valid_candle(timeframe, *candle),
{
    timeframe.is_aligned(candle.timestamp) && candle.is_consistent()
}

/// Whether every candle of the batch is valid for the timeframe.
pub fn are_all_valid(timeframe: Timeframe, candles: &Vec<OHLCV>) -> (r: bool)
    ensures
        r == all_valid(timeframe, candles@),
{
    let mut i: usize = 0;
    while i < candles.len()
        invariant
            i <= candles.len(),
            forall|k: int| 0 <= k < i ==> valid_candle(timeframe, #[trigger] candles@[k]),
        decreases candles.len() - i,
    {
        if !is_valid_candle(timeframe, &candles[i]) {
            return false;
        }
        i = i + 1;
    }
    true
}

/// Saving a batch over stored candles is saving its candles over the stored
/// ones: what the batch holds wins, the rest stays.
pub proof fn lemma_apply_batch_is_union(stored: Map<int, OHLCV>, batch: Seq<OHLCV>)
    ensures
        apply_batch(stored, batch) == stored.union_prefer_right(candle_map(batch)),
    decreases batch.len(),
{
    if batch.len() > 0 {
        lemma_apply_batch_is_union(stored, batch.drop_last());
        let k = batch.last().timestamp.millis as int;
        let earlier = candle_map(batch.drop_last());
        assert(stored.union_prefer_right(earlier).insert(k, batch.last())
            =~= stored.union_prefer_right(earlier.insert(k, batch.last())));
    }
}

/// Saving is idempotent: saving the same batch a second time leaves the
/// stored candles exactly as the first time left them.
pub proof fn lemma_save_is_idempotent(stored: Map<int, OHLCV>, batch: Seq<OHLCV>)
    ensures
        apply_batch(apply_batch(stored, batch), batch) == apply_batch(stored, batch),
{
    lemma_apply_batch_is_union(stored, batch);
    lemma_apply_batch_is_union(apply_batch(stored, batch), batch);
    let b = candle_map(batch);
}

/// Putting a candle into a sequence, before candles that all open at other
/// times, adds it to the map.
proof fn lemma_insert_adds(candles: Seq<OHLCV>, at: int, x: OHLCV)
    requires
        0 <= at <= candles.len(),
        forall|i: int| at <= i < candles.len() ==> candles[i].timestamp.millis != x.timestamp.millis,
    ensures
        candle_map(candles.insert(at, x)) == candle_map(candles).insert(
            x.timestamp.millis as int,
            x,
        ),
    decreases candles.len() - at,
{
    let k = x.timestamp.millis as int;
    if at == candles.len() {
        assert(candles.insert(at, x) =~= candles.push(x));
        assert(candles.push(x).drop_last() =~= candles);
    } else {
        let last = candles.last();
        let shorter = candles.drop_last();
        lemma_insert_adds(shorter, at, x);
        assert(candles.insert(at, x) =~= shorter.insert(at, x).push(last));
        assert(shorter.insert(at, x).push(last).drop_last() =~= shorter.insert(at, x));
        assert(candle_map(shorter).insert(k, x).insert(last.timestamp.millis as int, last)
            =~= candle_map(shorter).insert(last.timestamp.millis as int, last).insert(k, x));
    }
}

/// Replacing a candle by one of the same open time, before candles that all
/// open at other times, puts the new one into the map.
proof fn lemma_update_replaces(candles: Seq<OHLCV>, at: int, x: OHLCV)
    requires
        0 <= at < candles.len(),
        candles[at].timestamp.millis == x.timestamp.millis,
        forall|i: int| at < i < candles.len() ==> candles[i].timestamp.millis != x.timestamp.millis,
    ensures
        candle_map(candles.update(at, x)) == candle_map(candles).insert(
            x.timestamp.millis as int,
            x,
        ),
    decreases candles.len() - at,
{
    let k = x.timestamp.millis as int;
    let last = candles.last();
    let shorter = candles.drop_last();
    if at == candles.len() - 1 {
        assert(candles.update(at, x) =~= shorter.push(x));
        assert(shorter.push(x).drop_last() =~= shorter);
        assert(candle_map(shorter).insert(k, last).insert(k, x) =~= candle_map(shorter).insert(
            k,
            x,
        ));
    } else {
        lemma_update_replaces(shorter, at, x);
        assert(candles.update(at, x) =~= shorter.update(at, x).push(last));
        assert(shorter.update(at, x).push(last).drop_last() =~= shorter.update(at, x));
        assert(candle_map(shorter).insert(k, x).insert(last.timestamp.millis as int, last)
            =~= candle_map(shorter).insert(last.timestamp.millis as int, last).insert(k, x));
    }
}

/// The candles stored for one pair and one timeframe, by rising open time.
pub struct CandleSeries {
    timeframe: Timeframe,
    candles: Vec<OHLCV>,
}

/// What a [`CandleSeries`] holds, as plain values.
pub struct CandleSeriesView {
    pub timeframe: Timeframe,
    /// The candles by rising open time.
    pub candles: Seq<OHLCV>,
}

impl View for CandleSeries {
    type V = CandleSeriesView;

    closed spec fn view(&self) -> CandleSeriesView {
        CandleSeriesView { timeframe: self.timeframe, candles: self.candles@ }
    }
}

impl CandleSeries {
    #[verifier::type_invariant]
    spec fn inv(self) -> bool {
        strictly_rising(self.candles@) && all_valid(self.timeframe, self.candles@)
    }

    /// The timeframe of the series.
    pub open spec fn spec_timeframe(&self) -> Timeframe {
        self@.timeframe
    }

    /// The stored candles by open time.
    pub open spec fn stored(&self) -> Map<int, OHLCV> {
        candle_map(self@.candles)
    }

    /// An empty series for the timeframe.
    pub fn new(timeframe: Timeframe) -> (r: Self)
        ensures
            r@.candles.len() == 0,
            r.spec_timeframe() == timeframe,
            r.stored() == Map::<int, OHLCV>::empty(),
    {
        CandleSeries { timeframe, candles: Vec::new() }
    }

    /// The timeframe of the series.
    pub fn timeframe(&self) -> (r: Timeframe)
        ensures
            r == self.spec_timeframe(),
    {
        self.timeframe
    }

    /// How many candles are stored.
    pub fn len(&self) -> (r: usize)
        ensures
            r == self@.candles.len(),
    {
        self.candles.len()
    }

    /// The stored candles, by rising open time: no two share an open time,
    /// each opens on a boundary of the timeframe, and the low and the high of
    /// each enclose its open and close.
    pub fn candles(&self) -> (r: &Vec<OHLCV>)
        ensures
            r@ == self@.candles,
            strictly_rising(self@.candles),
            all_valid(self.spec_timeframe(), self@.candles),
    {
        proof {
            use_type_invariant(self);
        }
        &self.candles
    }

    /// Saves one candle: it takes the place of the stored candle with the
    /// same open time, or is added where there is none. A candle that does
    /// not open on a boundary of the timeframe, or whose low and high do not
    /// enclose its open and close, is refused with `InvalidInput` and nothing
    /// changes.
    pub fn upsert(&mut self, candle: OHLCV) -> (r: Result<(), AppError>)
        ensures
            r is Ok <==> valid_candle(old(self).spec_timeframe(), candle),
            r is Ok ==> final(self).stored() == old(self).stored().insert(
                candle.timestamp.millis as int,
                candle,
            ),
            r matches Err(e) ==> e is InvalidInput && final(self)@.candles == old(self)@.candles,
            final(self).spec_timeframe() == old(self).spec_timeframe(),
            strictly_rising(final(self)@.candles),
            all_valid(final(self).spec_timeframe(), final(self)@.candles),
            old(self)@.candles.len() <= final(self)@.candles.len() <= old(self)@.candles.len() + 1,
    {
        proof {
            use_type_invariant(&*self);
        }
        if !is_valid_candle(self.timeframe, &candle) {
            return Err(AppError::InvalidInput(String::from_str("candle is not valid for the timeframe")));
        }
        let ghost before = self.candles@;
        let mut work: Vec<OHLCV> = Vec::new();
        core::mem::swap(&mut self.candles, &mut work);
        let mut j: usize = work.len();
        while j > 0 && work[j - 1].timestamp.millis > candle.timestamp.millis
            invariant
                j <= work.len(),
                work@ == before,
                strictly_rising(before),
                forall|i: int|
                    j <= i < before.len() ==> before[i].timestamp.millis > candle.timestamp.millis,
            decreases j,
        {
            j = j - 1;
        }
        if j > 0 && work[j - 1].timestamp.millis == candle.timestamp.millis {
            proof {
                lemma_update_replaces(before, j - 1, candle);
            }
            work.set(j - 1, candle);
        } else {
            proof {
                lemma_insert_adds(before, j as int, candle);
            }
            work.insert(j, candle);
        }
        self.candles = work;
        Ok(())
    }

    /// Saves a batch of candles, one after the other. Saving nothing changes
    /// nothing; saving the same batch again changes nothing more. A batch
    /// that holds a candle which is not valid for the timeframe is refused as
    /// a whole with `InvalidInput`, and nothing changes: every stored candle
    /// is valid at all times.
    pub fn save_klines(&mut self, batch: &Vec<OHLCV>) -> (r: Result<(), AppError>)
        ensures
            r is Ok <==> all_valid(old(self).spec_timeframe(), batch@),
            r is Ok ==> final(self).stored() == apply_batch(old(self).stored(), batch@),
            r matches Err(e) ==> e is InvalidInput && final(self)@.candles == old(self)@.candles,
            final(self).spec_timeframe() == old(self).spec_timeframe(),
            all_valid(final(self).spec_timeframe(), final(self)@.candles),
            strictly_rising(final(self)@.candles),
            batch@.len() == 0 ==> final(self)@.candles == old(self)@.candles,
    {
        proof {
            use_type_invariant(&*self);
        }
        if !are_all_valid(self.timeframe, batch) {
            return Err(AppError::InvalidInput(String::from_str("candle is not valid for the timeframe")));
        }
        let mut i: usize = 0;
        while i < batch.len()
            invariant
                i <= batch.len(),
                all_valid(old(self).spec_timeframe(), batch@),
                self.stored() == apply_batch(old(self).stored(), batch@.take(i as int)),
                self.spec_timeframe() == old(self).spec_timeframe(),
                i == 0 ==> self@.candles == old(self)@.candles,
            decreases batch.len() - i,
        {
            proof {
                assert(batch@.take(i + 1).drop_last() =~= batch@.take(i as int));
            }
            let _ = self.upsert(batch[i]);
            i = i + 1;
        }
        proof {
            assert(batch@.take(i as int) =~= batch@);
            use_type_invariant(&*self);
        }
        Ok(())
    }

    /// The latest candles, newest first, at most `limit` of them.
    pub fn get_klines(&self, limit: usize) -> (r: Vec<OHLCV>)
        ensures
            r@.len() == if limit < self@.candles.len() {
                limit as int
            } else {
                self@.candles.len() as int
            },
            forall|i: int| 0 <= i < r@.len() ==> r@[i] == self@.candles[self@.candles.len() - 1 - i],
            strictly_rising(self@.candles),
            all_valid(self.spec_timeframe(), self@.candles),
    {
        proof {
            use_type_invariant(self);
        }
        let mut out: Vec<OHLCV> = Vec::new();
        let n: usize = self.candles.len();
        let mut i: usize = 0;
        while i < n && i < limit
            invariant
                n == self.candles@.len(),
                i <= n,
                i <= limit,
                out@.len() == i,
                forall|k: int| 0 <= k < i ==> out@[k] == self.candles@[n - 1 - k],
            decreases n - i,
        {
            out.push(self.candles[n - 1 - i]);
            i = i + 1;
        }
        out
    }
}

} // verus!
