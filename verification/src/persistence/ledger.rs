//! The trades the store holds, and the rules it keeps: an identifier is used
//! once, an open trade has no close fields, and a pair has at most one open
//! trade per strategy. A trade is created once and then only updated.

use crate::error::AppError;
use crate::risk::protection::trade_views;
use crate::text::same_text;
use crate::types::{Trade, TradeView};
use vstd::prelude::*;
use vstd::string::*;

verus! {

/// Whether two trades are of the same pair and the same strategy.
pub open spec fn same_slot(a: TradeView, b: TradeView) -> bool {
    a.pair == b.pair && a.strategy == b.strategy
}

/// What the store keeps true of its trades: no identifier occurs twice;
/// every trade is consistent in its lifecycle, so an open trade has no close
/// rate, close date or exit reason; no two open trades share a pair and a
/// strategy; and the trades stand newest first by open date.
pub open spec fn ledger_wf(s: Seq<TradeView>) -> bool {
    &&& forall|i: int, j: int| 0 <= i < j < s.len() ==> s[i].id != s[j].id
    &&& forall|i: int| 0 <= i < s.len() ==> (#[trigger] s[i]).lifecycle_consistent()
    &&& forall|i: int, j: int|
        0 <= i < j < s.len() && s[i].is_open && s[j].is_open ==> !same_slot(s[i], s[j])
    &&& forall|i: int, j: int|
        0 <= i < j < s.len() ==> s[i].open_date.millis >= s[j].open_date.millis
}

/// Whether a trade with the identifier is stored.
pub open spec fn has_id(s: Seq<TradeView>, id: u128) -> bool {
    exists|i: int| 0 <= i < s.len() && s[i].id == id
}

/// Whether storing `t` as an open trade would give its pair a second open
/// trade of the same strategy: another stored trade is open in the same
/// slot.
pub open spec fn open_conflict(s: Seq<TradeView>, t: TradeView) -> bool {
    t.is_open && exists|i: int|
        0 <= i < s.len() && s[i].is_open && s[i].id != t.id && same_slot(s[i], t)
}

/// Where a new trade goes among trades that stand newest first: behind the
/// last one that was not opened earlier.
pub open spec fn ledger_position(s: Seq<TradeView>, t: TradeView) -> int
    decreases s.len(),
{
    if s.len() == 0 {
        0
    } else if s.last().open_date.millis >= t.open_date.millis {
        s.len() as int
    } else {
        ledger_position(s.drop_last(), t)
    }
}

/// A stored trade after an update: the close rate, the close date, the stop
/// loss, the take profit, the exit reason, both profits and the open flag
/// are those of the update; everything else stays.
pub open spec fn merged(stored: TradeView, update: TradeView) -> TradeView {
    TradeView {
        close_rate: update.close_rate,
        close_date: update.close_date,
        stop_loss: update.stop_loss,
        take_profit: update.take_profit,
        exit_reason: update.exit_reason,
        profit_abs: update.profit_abs,
        profit_ratio: update.profit_ratio,
        is_open: update.is_open,
        ..stored
    }
}

/// Whether `after` is what the store holds after an attempt to create
/// `trade` in `before`: the trade stands at its place among the others where
/// it is consistent in its lifecycle, its identifier is new and it is no
/// second open trade of its pair and strategy; otherwise nothing changed.
pub open spec fn created(before: Seq<TradeView>, after: Seq<TradeView>, trade: TradeView) -> bool {
    if trade.lifecycle_consistent() && !has_id(before, trade.id) && !open_conflict(before, trade) {
        after == before.insert(ledger_position(before, trade), trade)
    } else {
        after == before
    }
}

/// Whether an update may turn the stored trade into `new`: a trade that is
/// open may be changed in every mutable field, and so be closed; a trade that
/// is closed stays closed and keeps its close rate, close date and exit
/// reason, which are set in the change from open to closed and at no other
/// time.
pub open spec fn keeps_closure(stored: TradeView, new: TradeView) -> bool {
    stored.is_open || (!new.is_open && new.close_rate == stored.close_rate && new.close_date
        == stored.close_date && new.exit_reason == stored.exit_reason)
}

/// Whether an update that turns the stored trade `stored` into `new` is
/// taken: the new trade is consistent in its lifecycle, and the closure of a
/// closed trade is kept.
pub open spec fn update_taken(stored: TradeView, new: TradeView) -> bool {
    new.lifecycle_consistent() && keeps_closure(stored, new)
}

/// An update that is taken gives no pair a second open trade of one
/// strategy: it changes neither pair nor strategy and opens no trade that was
/// closed.
pub proof fn lemma_update_makes_no_conflict(s: Seq<TradeView>, i: int, update: TradeView)
    requires
        ledger_wf(s),
        0 <= i < s.len(),
        keeps_closure(s[i], merged(s[i], update)),
    ensures
        !open_conflict(s, merged(s[i], update)),
{
    let new = merged(s[i], update);
    if open_conflict(s, new) {
        let j = choose|j: int| 0 <= j < s.len() && s[j].is_open && s[j].id != new.id && same_slot(s[j], new);
        assert(s[i].is_open);
        assert(same_slot(s[j], s[i]));
        if i < j {
            assert(!same_slot(s[i], s[j]));
        } else {
            assert(!same_slot(s[j], s[i]));
        }
    }
}

/// Whether `after` is what the store holds after an attempt to update the
/// trade with the identifier of `update` in `before`: that trade is merged
/// with the update where the update is taken; otherwise, and where no trade
/// has the identifier, nothing changed.
pub open spec fn updated(before: Seq<TradeView>, after: Seq<TradeView>, update: TradeView) -> bool {
    if has_id(before, update.id) {
        exists|i: int|
            0 <= i < before.len() && (#[trigger] before[i]).id == update.id && {
                let new = merged(before[i], update);
                after == if update_taken(before[i], new) {
                    before.update(i, new)
                } else {
                    before
                }
            }
    } else {
        after == before
    }
}

/// The closure of a trade is final: whatever update the store is given, a
/// trade that is stored as closed is closed afterwards, with the close rate,
/// the close date and the exit reason it had.
pub proof fn lemma_closure_is_final(
    before: Seq<TradeView>,
    after: Seq<TradeView>,
    update: TradeView,
    k: int,
)
    requires
        updated(before, after, update),
        0 <= k < before.len(),
        !before[k].is_open,
    ensures
        after.len() == before.len(),
        !after[k].is_open,
        after[k].close_rate == before[k].close_rate,
        after[k].close_date == before[k].close_date,
        after[k].exit_reason == before[k].exit_reason,
{
}

/// An update is idempotent: applied a second time it changes nothing, and
/// the store takes it the second time as it did the first, also where it
/// closed the trade.
pub proof fn lemma_update_is_idempotent(stored: TradeView, update: TradeView)
    ensures
        merged(merged(stored, update), update) == merged(stored, update),
        keeps_closure(merged(stored, update), merged(merged(stored, update), update)),
{
}

/// The open trades among the stored ones, in the same order.
pub open spec fn open_trades_of(s: Seq<TradeView>) -> Seq<TradeView>
    decreases s.len(),
{
    if s.len() == 0 {
        Seq::empty()
    } else if s.last().is_open {
        open_trades_of(s.drop_last()).push(s.last())
    } else {
        open_trades_of(s.drop_last())
    }
}

/// Among the open trades of a well-kept store, no pair has two trades of
/// one strategy, and each open trade is without close rate, close date and
/// exit reason.
pub proof fn lemma_open_trades_are_unique(s: Seq<TradeView>)
    requires
        ledger_wf(s),
    ensures
        forall|k: int| 0 <= k < open_trades_of(s).len() ==> (#[trigger] open_trades_of(s)[k]).is_open
                && open_trades_of(s)[k].close_rate is None && open_trades_of(s)[k].close_date is None
                && open_trades_of(s)[k].exit_reason is None && exists|i: int|
                0 <= i < s.len() && s[i] == open_trades_of(s)[k],
        forall|a: int, b: int|
            0 <= a < b < open_trades_of(s).len() ==> !same_slot(
                open_trades_of(s)[a],
                open_trades_of(s)[b],
            ),
    decreases s.len(),
{
    if s.len() > 0 {
        let shorter = s.drop_last();
        assert(ledger_wf(shorter));
        lemma_open_trades_are_unique(shorter);
        let inner = open_trades_of(shorter);
        let out = open_trades_of(s);
    }
}

/// The trades of the store, newest first by open date.
pub struct TradeLedger {
    trades: Vec<Trade>,
}

impl View for TradeLedger {
    type V = Seq<TradeView>;

    closed spec fn view(&self) -> Seq<TradeView> {
        trade_views(self.trades@)
    }
}

impl TradeLedger {
    #[verifier::type_invariant]
    spec fn inv(self) -> bool {
        ledger_wf(trade_views(self.trades@))
    }

    /// A store without trades.
    pub fn new() -> (r: Self)
        ensures
            r@.len() == 0,
            ledger_wf(r@),
    {
        TradeLedger { trades: Vec::new() }
    }

    /// How many trades are stored. The store keeps its rules at all times.
    pub fn len(&self) -> (r: usize)
        ensures
            r == self@.len(),
            ledger_wf(self@),
    {
        proof {
            use_type_invariant(self);
        }
        self.trades.len()
    }

    fn find_id(trades: &Vec<Trade>, id: u128) -> (r: Option<usize>)
        ensures
            r is Some <==> has_id(trade_views(trades@), id),
            r matches Some(i) ==> i < trades.len() && trades[i as int].id == id,
    {
        let mut i: usize = 0;
        while i < trades.len()
            invariant
                i <= trades.len(),
                forall|k: int| 0 <= k < i ==> trade_views(trades@)[k].id != id,
            decreases trades.len() - i,
        {
            if trades[i].id == id {
                assert(trade_views(trades@)[i as int].id == id);
                return Some(i);
            }
            i = i + 1;
        }
        None
    }

    fn closure_kept(stored: &Trade, new: &Trade) -> (r: bool)
        ensures
            r == keeps_closure(stored@, new@),
    {
        if stored.is_open {
            return true;
        }
        let same_rate: bool = match (stored.close_rate, new.close_rate) {
            (Some(a), Some(b)) => a.identical(&b),
            (None, None) => true,
            _ => false,
        };
        let same_date: bool = match (stored.close_date, new.close_date) {
            (Some(a), Some(b)) => a.millis == b.millis,
            (None, None) => true,
            _ => false,
        };
        let same_reason: bool = match (stored.exit_reason, new.exit_reason) {
            (Some(a), Some(b)) => a == b,
            (None, None) => true,
            _ => false,
        };
        !new.is_open && same_rate && same_date && same_reason
    }

    fn conflicts(trades: &Vec<Trade>, candidate: &Trade) -> (r: bool)
        ensures
            r == open_conflict(trade_views(trades@), candidate@),
    {
        if !candidate.is_open {
            return false;
        }
        let mut i: usize = 0;
        while i < trades.len()
            invariant
                i <= trades.len(),
                candidate.is_open,
                forall|k: int|
                    0 <= k < i ==> !(trade_views(trades@)[k].is_open && trade_views(trades@)[k].id
                        != candidate.id && same_slot(trade_views(trades@)[k], candidate@)),
            decreases trades.len() - i,
        {
            let t = &trades[i];
            if t.is_open && t.id != candidate.id && same_text(t.pair.as_str(), candidate.pair.as_str())
                && same_text(t.strategy.as_str(), candidate.strategy.as_str()) {
                assert(trade_views(trades@)[i as int] == t@);
                return true;
            }
            i = i + 1;
        }
        false
    }

    /// Stores a new trade. Fails with a `Database` error where its
    /// identifier is already stored, whatever else it holds; with
    /// `InvalidInput` where the trade is inconsistent in its lifecycle; and
    /// with a `Database` error where it is open and its pair already has an
    /// open trade of the same strategy. Otherwise the trade is stored among
    /// the others, newest first, and nothing else changes.
    pub fn create_trade(&mut self, trade: Trade) -> (r: Result<(), AppError>)
        ensures
            ledger_wf(final(self)@),
            final(self)@.len() == old(self)@.len() + if r is Ok {
                1int
            } else {
                0int
            },
            r is Ok <==> trade@.lifecycle_consistent() && !has_id(old(self)@, trade.id)
                && !open_conflict(old(self)@, trade@),
            r is Ok ==> final(self)@ == old(self)@.insert(
                ledger_position(old(self)@, trade@),
                trade@,
            ),
            r is Err ==> final(self)@ == old(self)@,
            has_id(old(self)@, trade.id) ==> r matches Err(AppError::Database(_)),
            r matches Err(e) ==> if has_id(old(self)@, trade.id) {
                e is Database
            } else if !trade@.lifecycle_consistent() {
                e is InvalidInput
            } else {
                e is Database
            },
            created(old(self)@, final(self)@, trade@),
    {
        proof {
            use_type_invariant(&*self);
        }
        if Self::find_id(&self.trades, trade.id).is_some() {
            return Err(AppError::Database(String::from_str("UNIQUE constraint failed: trades.id")));
        }
        if !trade.is_lifecycle_consistent() {
            return Err(
                AppError::InvalidInput(
                    String::from_str("close rate, close date and exit reason belong to a closed trade"),
                ),
            );
        }
        if Self::conflicts(&self.trades, &trade) {
            return Err(
                AppError::Database(
                    String::from_str("an open trade exists for this pair and strategy"),
                ),
            );
        }
        let ghost before = trade_views(self.trades@);
        let mut work: Vec<Trade> = Vec::new();
        core::mem::swap(&mut self.trades, &mut work);
        let mut j: usize = work.len();
        proof {
            assert(before.take(j as int) =~= before);
        }
        while j > 0 && work[j - 1].open_date.millis < trade.open_date.millis
            invariant
                j <= work.len(),
                trade_views(work@) == before,
                ledger_position(before, trade@) == ledger_position(before.take(j as int), trade@),
                forall|i: int|
                    j <= i < before.len() ==> before[i].open_date.millis < trade.open_date.millis,
            decreases j,
        {
            proof {
                assert(before.take(j as int).drop_last() =~= before.take(j - 1));
            }
            j = j - 1;
        }
        proof {
            let after = before.insert(j as int, trade@);
            assert(trade_views(work@.insert(j as int, trade)) =~= after);
        }
        work.insert(j, trade);
        self.trades = work;
        Ok(())
    }

    /// Updates the stored trade that has the identifier of `update`: the
    /// close rate, the close date, the stop loss, the take profit, the exit
    /// reason, both profits and the open flag are replaced; the rest stays.
    /// Where no trade has the identifier, nothing changes. Fails with
    /// `InvalidInput` where the updated trade would be inconsistent in its
    /// lifecycle, or where the stored trade is closed and the update would
    /// open it again or change its close rate, close date or exit reason. An
    /// update that is taken leaves each pair with at most one open trade of a
    /// strategy. Applying the same update again changes nothing more.
    pub fn update_trade(&mut self, update: &Trade) -> (r: Result<(), AppError>)
        ensures
            ledger_wf(final(self)@),
            final(self)@.len() == old(self)@.len(),
            !has_id(old(self)@, update.id) ==> r is Ok && final(self)@ == old(self)@,
            has_id(old(self)@, update.id) ==> exists|i: int|
                0 <= i < old(self)@.len() && old(self)@[i].id == update.id && {
                    let new = merged(old(self)@[i], update@);
                    &&& r is Ok <==> update_taken(old(self)@[i], new)
                    &&& r is Ok ==> final(self)@ == old(self)@.update(i, new)
                    &&& r is Err ==> final(self)@ == old(self)@
                },
            r matches Err(e) ==> e is InvalidInput,
            updated(old(self)@, final(self)@, update@),
    {
        proof {
            use_type_invariant(&*self);
        }
        let ghost before = trade_views(self.trades@);
        let index: usize = match Self::find_id(&self.trades, update.id) {
            Some(i) => i,
            None => {
                return Ok(());
            },
        };
        let mut changed = self.trades[index].clone();
        changed.close_rate = update.close_rate;
        changed.close_date = update.close_date;
        changed.stop_loss = update.stop_loss;
        changed.take_profit = update.take_profit;
        changed.exit_reason = update.exit_reason;
        changed.profit_abs = update.profit_abs;
        changed.profit_ratio = update.profit_ratio;
        changed.is_open = update.is_open;
        assert(changed@ == merged(before[index as int], update@));
        if !changed.is_lifecycle_consistent() {
            return Err(
                AppError::InvalidInput(
                    String::from_str("close rate, close date and exit reason belong to a closed trade"),
                ),
            );
        }
        if !Self::closure_kept(&self.trades[index], &changed) {
            return Err(
                AppError::InvalidInput(
                    String::from_str("a closed trade keeps its close rate, close date and exit reason"),
                ),
            );
        }
        proof {
            lemma_update_makes_no_conflict(before, index as int, update@);
            let after = before.update(index as int, changed@);
            assert(trade_views(self.trades@.update(index as int, changed)) =~= after);
        }
        let mut work: Vec<Trade> = Vec::new();
        core::mem::swap(&mut self.trades, &mut work);
        work.set(index, changed);
        self.trades = work;
        Ok(())
    }

    /// All the stored trades, newest first by open date.
    pub fn get_all_trades(&self) -> (r: Vec<Trade>)
        ensures
            trade_views(r@) == self@,
            ledger_wf(self@),
    {
        proof {
            use_type_invariant(self);
        }
        let mut out: Vec<Trade> = Vec::new();
        let mut i: usize = 0;
        while i < self.trades.len()
            invariant
                i <= self.trades.len(),
                trade_views(out@) == trade_views(self.trades@).take(i as int),
            decreases self.trades.len() - i,
        {
            let copy = self.trades[i].clone();
            out.push(copy);
            proof {
                assert(trade_views(self.trades@).take(i + 1) =~= trade_views(self.trades@).take(
                    i as int,
                ).push(self.trades@[i as int]@));
            }
            i = i + 1;
        }
        out
    }

    /// The open trades, newest first by open date. No two of them share a
    /// pair and a strategy, and none has a close rate, a close date or an
    /// exit reason.
    pub fn get_open_trades(&self) -> (r: Vec<Trade>)
        ensures
            trade_views(r@) == open_trades_of(self@),
            ledger_wf(self@),
            forall|k: int| 0 <= k < r@.len() ==> (#[trigger] r@[k]).is_open && r@[k].close_rate is None
                    && r@[k].close_date is None && r@[k].exit_reason is None,
            forall|a: int, b: int| 0 <= a < b < r@.len() ==> !same_slot(r@[a]@, r@[b]@),
    {
        proof {
            use_type_invariant(self);
        }
        let ghost views = trade_views(self.trades@);
        let mut out: Vec<Trade> = Vec::new();
        let mut i: usize = 0;
        while i < self.trades.len()
            invariant
                i <= self.trades.len(),
                views == trade_views(self.trades@),
                trade_views(out@) == open_trades_of(views.take(i as int)),
            decreases self.trades.len() - i,
        {
            proof {
                assert(views.take(i + 1).drop_last() =~= views.take(i as int));
            }
            if self.trades[i].is_open {
                let copy = self.trades[i].clone();
                out.push(copy);
            }
            i = i + 1;
        }
        proof {
            assert(views.take(i as int) =~= views);
            lemma_open_trades_are_unique(views);
            assert forall|k: int| 0 <= k < out@.len() implies (#[trigger] out@[k]).is_open
                && out@[k].close_rate is None && out@[k].close_date is None
                && out@[k].exit_reason is None by {
                assert(open_trades_of(views)[k].is_open);
            }
            assert forall|a: int, b: int| 0 <= a < b < out@.len() implies !same_slot(
                out@[a]@,
                out@[b]@,
            ) by {
                assert(trade_views(out@)[a] == out@[a]@);
                assert(trade_views(out@)[b] == out@[b]@);
            }
        }
        out
    }
}

} // verus!
