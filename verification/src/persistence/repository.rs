//! The store as a whole: the trades with their rules, and the candle cache
//! by pair and timeframe. It says what a durable store must hold after each
//! operation; the file behind it is the caller's affair.

use super::klines::{all_valid, apply_batch, candle_map, strictly_rising, CandleSeries};
use super::ledger::{
    created, has_id, ledger_position, ledger_wf, merged, open_conflict, open_trades_of, update_taken, updated,
    TradeLedger,
};
use super::stats::{balance_walk, dashboard_stats, open_count, total_profit, win_rate_percent, winning_count};
use crate::error::AppError;
use crate::risk::protection::trade_views;
use crate::text::{join2, same_text};
use crate::types::{DashboardStats, Timeframe, Trade, TradeView, OHLCV};
use vstd::prelude::*;
use vstd::string::*;

verus! {

/// The candles cached for one pair and one timeframe.
pub struct CachedSeries {
    pub pair: String,
    pub series: CandleSeries,
}

impl CachedSeries {
    /// Whether the cache entry is that of the pair and the timeframe.
    pub open spec fn is_for(self, pair: Seq<char>, timeframe: Timeframe) -> bool {
        self.pair@ == pair && self.series.spec_timeframe() == timeframe
    }
}

/// The candles cached for a pair and a timeframe, by rising open time:
/// those of the first entry for them, and none where there is no entry.
pub open spec fn cached(entries: Seq<CachedSeries>, pair: Seq<char>, timeframe: Timeframe) -> Seq<
    OHLCV,
>
    decreases entries.len(),
{
    if entries.len() == 0 {
        Seq::empty()
    } else if entries.first().is_for(pair, timeframe) {
        entries.first().series@.candles
    } else {
        cached(entries.drop_first(), pair, timeframe)
    }
}

/// How many entries stand before the first one for the pair and the
/// timeframe.
pub open spec fn position_of_series(
    entries: Seq<CachedSeries>,
    pair: Seq<char>,
    timeframe: Timeframe,
) -> int
    decreases entries.len(),
{
    if entries.len() == 0 {
        0
    } else if entries.first().is_for(pair, timeframe) {
        0
    } else {
        1 + position_of_series(entries.drop_first(), pair, timeframe)
    }
}

/// A new entry behind the others changes what is cached for its own pair
/// and timeframe only, and only where they had no entry.
proof fn lemma_push_entry(
    entries: Seq<CachedSeries>,
    entry: CachedSeries,
    pair: Seq<char>,
    timeframe: Timeframe,
)
    ensures
        cached(entries.push(entry), pair, timeframe) == if position_of_series(
            entries,
            pair,
            timeframe,
        ) < entries.len() {
            cached(entries, pair, timeframe)
        } else if entry.is_for(pair, timeframe) {
            entry.series@.candles
        } else {
            Seq::<OHLCV>::empty()
        },
        position_of_series(entries, pair, timeframe) >= entries.len() ==> cached(
            entries,
            pair,
            timeframe,
        ) == Seq::<OHLCV>::empty(),
    decreases entries.len(),
{
    let longer = entries.push(entry);
    if entries.len() == 0 {
        assert(cached(longer.drop_first(), pair, timeframe) == Seq::<OHLCV>::empty());
    } else {
        assert(longer.drop_first() =~= entries.drop_first().push(entry));
        if !entries.first().is_for(pair, timeframe) {
            lemma_push_entry(entries.drop_first(), entry, pair, timeframe);
            assert(cached(longer, pair, timeframe) == cached(
                entries.drop_first().push(entry),
                pair,
                timeframe,
            ));
            assert(position_of_series(entries, pair, timeframe) == 1 + position_of_series(
                entries.drop_first(),
                pair,
                timeframe,
            ));
        }
    }
}

/// Replacing the first entry for a pair and a timeframe by another entry
/// for them changes what is cached for them to what the new entry holds, and
/// nothing else.
proof fn lemma_replace_entry(
    entries: Seq<CachedSeries>,
    at: int,
    entry: CachedSeries,
    pair: Seq<char>,
    timeframe: Timeframe,
)
    requires
        0 <= at < entries.len(),
        exists|p: Seq<char>, t: Timeframe|
            entries[at].is_for(p, t) && entry.is_for(p, t) && position_of_series(entries, p, t)
                == at,
    ensures
        cached(entries.update(at, entry), pair, timeframe) == if entry.is_for(pair, timeframe) {
            entry.series@.candles
        } else {
            cached(entries, pair, timeframe)
        },
    decreases entries.len(),
{
    let (p, t) = choose|p: Seq<char>, t: Timeframe|
        entries[at].is_for(p, t) && entry.is_for(p, t) && position_of_series(entries, p, t) == at;
    if at == 0 {
        assert(entries.update(at, entry).drop_first() =~= entries.drop_first());
    } else {
        let rest = entries.drop_first();
        assert(entries.update(at, entry).drop_first() =~= rest.update(at - 1, entry));
        lemma_replace_entry(rest, at - 1, entry, pair, timeframe);
    }
}

/// The logical store: the trades, and the candle cache.
pub struct Repository {
    ledger: TradeLedger,
    klines: Vec<CachedSeries>,
}

impl Repository {
    /// The stored trades, newest first by open date.
    pub closed spec fn trades(&self) -> Seq<TradeView> {
        self.ledger@
    }

    /// The candles cached for a pair and a timeframe, by rising open time.
    pub closed spec fn candles(&self, pair: Seq<char>, timeframe: Timeframe) -> Seq<OHLCV> {
        cached(self.klines@, pair, timeframe)
    }

    /// The candles cached for a pair and a timeframe, by open time.
    pub open spec fn klines(&self, pair: Seq<char>, timeframe: Timeframe) -> Map<int, OHLCV> {
        candle_map(self.candles(pair, timeframe))
    }

    /// An empty store.
    pub fn new() -> (r: Self)
        ensures
            r.trades().len() == 0,
            forall|pair: Seq<char>, timeframe: Timeframe|
                r.candles(pair, timeframe) == Seq::<OHLCV>::empty(),
    {
        Repository { ledger: TradeLedger::new(), klines: Vec::new() }
    }

    /// How many trades are stored. The store keeps its rules at all times.
    pub fn trade_count(&self) -> (r: usize)
        ensures
            r == self.trades().len(),
            ledger_wf(self.trades()),
    {
        self.ledger.len()
    }

    /// Stores a new trade. Fails with a `Database` error where its
    /// identifier is already stored, whatever else it holds; with
    /// `InvalidInput` where the trade is inconsistent in its lifecycle; and
    /// with a `Database` error where it is open and its pair already has an
    /// open trade of the same strategy.
    pub fn create_trade(&mut self, trade: &Trade) -> (r: Result<(), AppError>)
        ensures
            ledger_wf(final(self).trades()),
            final(self).trades().len() == old(self).trades().len() + if r is Ok {
                1int
            } else {
                0int
            },
            r is Ok <==> trade@.lifecycle_consistent() && !has_id(old(self).trades(), trade.id)
                && !open_conflict(old(self).trades(), trade@),
            r is Ok ==> final(self).trades() == old(self).trades().insert(
                ledger_position(old(self).trades(), trade@),
                trade@,
            ),
            r is Err ==> final(self).trades() == old(self).trades(),
            has_id(old(self).trades(), trade.id) ==> r matches Err(AppError::Database(_)),
            r matches Err(e) ==> if has_id(old(self).trades(), trade.id) {
                e is Database
            } else if !trade@.lifecycle_consistent() {
                e is InvalidInput
            } else {
                e is Database
            },
            created(old(self).trades(), final(self).trades(), trade@),
            forall|pair: Seq<char>, timeframe: Timeframe|
                final(self).candles(pair, timeframe) == old(self).candles(pair, timeframe),
    {
        self.ledger.create_trade(trade.clone())
    }

    /// Updates the stored trade that has the identifier of `update` in its
    /// mutable fields; a trade that is not stored is not created. Fails with
    /// `InvalidInput` where the updated trade would be inconsistent in its
    /// lifecycle, or where the stored trade is closed and the update would
    /// open it again or change its close rate, close date or exit reason;
    /// nothing changes then.
    pub fn update_trade(&mut self, update: &Trade) -> (r: Result<(), AppError>)
        ensures
            ledger_wf(final(self).trades()),
            final(self).trades().len() == old(self).trades().len(),
            !has_id(old(self).trades(), update.id) ==> r is Ok && final(self).trades() == old(self).trades(),
            has_id(old(self).trades(), update.id) ==> exists|i: int|
                0 <= i < old(self).trades().len() && old(self).trades()[i].id == update.id && {
                    let new = merged(old(self).trades()[i], update@);
                    &&& r is Ok <==> update_taken(old(self).trades()[i], new)
                    &&& r is Ok ==> final(self).trades() == old(self).trades().update(i, new)
                    &&& r is Err ==> final(self).trades() == old(self).trades()
                },
            r matches Err(e) ==> e is InvalidInput,
            updated(old(self).trades(), final(self).trades(), update@),
            forall|pair: Seq<char>, timeframe: Timeframe|
                final(self).candles(pair, timeframe) == old(self).candles(pair, timeframe),
    {
        self.ledger.update_trade(update)
    }

    /// The open trades, newest first by open date.
    pub fn get_open_trades(&self) -> (r: Result<Vec<Trade>, AppError>)
        ensures
            r matches Ok(open) && trade_views(open@) == open_trades_of(self.trades()),
            ledger_wf(self.trades()),
    {
        Ok(self.ledger.get_open_trades())
    }

    /// All the trades, newest first by open date.
    pub fn get_all_trades(&self) -> (r: Result<Vec<Trade>, AppError>)
        ensures
            r matches Ok(all) && trade_views(all@) == self.trades(),
            ledger_wf(self.trades()),
    {
        Ok(self.ledger.get_all_trades())
    }

    /// The dashboard figures of the stored trades.
    pub fn get_dashboard_stats(&self) -> (r: Result<DashboardStats, AppError>)
        ensures
            r matches Ok(stats) && stats.total_profit == total_profit(self.trades())
                && stats.win_rate == win_rate_percent(
                winning_count(self.trades()),
                self.trades().len(),
            ) && stats.open_trades == open_count(self.trades()) && stats.max_drawdown
                == balance_walk(self.trades()).max_drawdown && stats.total_balance == balance_walk(
                self.trades(),
            ).balance,
    {
        let all = self.ledger.get_all_trades();
        Ok(dashboard_stats(&all))
    }

    fn find_series(&self, pair: &str, timeframe: Timeframe) -> (r: Option<usize>)
        ensures
            r is Some <==> position_of_series(self.klines@, pair@, timeframe) < self.klines@.len(),
            r matches Some(i) ==> i == position_of_series(self.klines@, pair@, timeframe)
                && self.klines@[i as int].is_for(pair@, timeframe) && cached(
                self.klines@,
                pair@,
                timeframe,
            ) == self.klines@[i as int].series@.candles,
            r is None ==> cached(self.klines@, pair@, timeframe) == Seq::<OHLCV>::empty(),
    {
        let mut i: usize = 0;
        proof {
            assert(self.klines@.skip(0) =~= self.klines@);
        }
        while i < self.klines.len()
            invariant
                i <= self.klines.len(),
                position_of_series(self.klines@, pair@, timeframe) == i + position_of_series(
                    self.klines@.skip(i as int),
                    pair@,
                    timeframe,
                ),
                cached(self.klines@, pair@, timeframe) == cached(
                    self.klines@.skip(i as int),
                    pair@,
                    timeframe,
                ),
            decreases self.klines.len() - i,
        {
            proof {
                assert(self.klines@.skip(i as int).drop_first() =~= self.klines@.skip(i + 1));
            }
            let entry = &self.klines[i];
            if same_text(entry.pair.as_str(), pair) && entry.series.timeframe() == timeframe {
                return Some(i);
            }
            i = i + 1;
        }
        None
    }

    /// Saves a batch of candles of a pair and a timeframe by upsert. An
    /// empty batch changes nothing, whatever the timeframe. Otherwise the
    /// call fails with `InvalidInput`, and changes nothing, where the
    /// timeframe is none of the fifteen tags, or where a candle of the batch
    /// does not open on a boundary of the timeframe or has a low or a high
    /// that does not enclose its open and close. Saving changes the candles
    /// of that pair and timeframe only; saving the same batch again changes
    /// nothing more. The cached candles of the pair stand by strictly rising
    /// open time, and each of them is valid for the timeframe.
    pub fn save_klines(&mut self, pair: &str, timeframe: &str, klines: &Vec<OHLCV>) -> (r: Result<
        (),
        AppError,
    >)
        ensures
            final(self).trades() == old(self).trades(),
            klines@.len() == 0 ==> r is Ok,
            r matches Err(e) ==> e is InvalidInput,
            r is Err ==> forall|p: Seq<char>, t: Timeframe|
                final(self).candles(p, t) == old(self).candles(p, t),
            klines@.len() > 0 ==> match Timeframe::spec_parse(timeframe@) {
                None => r is Err,
                Some(tf) => r is Ok <==> all_valid(tf, klines@),
            },
            r is Ok ==> match Timeframe::spec_parse(timeframe@) {
                None => forall|p: Seq<char>, t: Timeframe|
                    final(self).candles(p, t) == old(self).candles(p, t),
                Some(tf) => {
                    &&& final(self).klines(pair@, tf) == apply_batch(
                        old(self).klines(pair@, tf),
                        klines@,
                    )
                    &&& forall|p: Seq<char>, t: Timeframe|
                        !(p == pair@ && t == tf) ==> final(self).candles(p, t) == old(self).candles(
                            p,
                            t,
                        )
                },
            },
            Timeframe::spec_parse(timeframe@) matches Some(tf) ==> strictly_rising(
                final(self).candles(pair@, tf),
            ) && all_valid(tf, final(self).candles(pair@, tf)),
    {
        let tf = match Timeframe::parse(timeframe) {
            Some(tf) => tf,
            None => {
                if klines.len() == 0 {
                    return Ok(());
                }
                return Err(AppError::InvalidInput(join2("Invalid timeframe: ", timeframe)));
            },
        };
        let ghost before = self.klines@;
        match self.find_series(pair, tf) {
            Some(i) => {
                let mut entry = self.klines.remove(i);
                let saved = entry.series.save_klines(klines);
                proof {
                    assert(before.remove(i as int).insert(i as int, entry) =~= before.update(
                        i as int,
                        entry,
                    ));
                    assert forall|p: Seq<char>, t: Timeframe|
                        cached(before.update(i as int, entry), p, t) == if p == pair@ && t == tf {
                            entry.series@.candles
                        } else {
                            cached(before, p, t)
                        } by {
                        lemma_replace_entry(before, i as int, entry, p, t);
                    }
                }
                self.klines.insert(i, entry);
                saved
            },
            None => {
                let mut series = CandleSeries::new(tf);
                match series.save_klines(klines) {
                    Ok(()) => {},
                    Err(e) => {
                        return Err(e);
                    },
                }
                if klines.len() == 0 {
                    return Ok(());
                }
                let entry = CachedSeries { pair: pair.to_owned(), series };
                proof {
                    assert forall|p: Seq<char>, t: Timeframe|
                        cached(before.push(entry), p, t) == if p == pair@ && t == tf {
                            entry.series@.candles
                        } else {
                            cached(before, p, t)
                        } by {
                        lemma_push_entry(before, entry, p, t);
                    }
                }
                self.klines.push(entry);
                Ok(())
            },
        }
    }

    /// The latest candles cached for a pair and a timeframe, newest first,
    /// at most `limit` of them. Fails with `InvalidInput` for a timeframe
    /// that is none of the fifteen tags.
    pub fn get_klines(&self, pair: &str, timeframe: &str, limit: usize) -> (r: Result<
        Vec<OHLCV>,
        AppError,
    >)
        ensures
            match Timeframe::spec_parse(timeframe@) {
                None => (r matches Err(AppError::InvalidInput(m)) && m@ == "Invalid timeframe: "@
                    + timeframe@),
                Some(tf) => {
                    let stored = self.candles(pair@, tf);
                    &&& r matches Ok(latest)
                    &&& latest@.len() == if limit < stored.len() {
                        limit as int
                    } else {
                        stored.len() as int
                    }
                    &&& forall|i: int|
                        0 <= i < latest@.len() ==> latest@[i] == stored[stored.len() - 1 - i]
                    &&& strictly_rising(stored)
                    &&& all_valid(tf, stored)
                },
            },
    {
        let tf = match Timeframe::parse(timeframe) {
            Some(tf) => tf,
            None => {
                return Err(AppError::InvalidInput(join2("Invalid timeframe: ", timeframe)));
            },
        };
        match self.find_series(pair, tf) {
            Some(i) => Ok(self.klines[i].series.get_klines(limit)),
            None => Ok(Vec::new()),
        }
    }
}

} // verus!
