//! Max drawdown: where the running equity of the recent closes falls too far
//! below its peak, stop all trading for a while.

use super::protection::{lock_of, lock_view, make_lock, trade_views, IProtection, ProtectionReturn, ProtectionReturnView};
use crate::decimal::{decimal_difference, decimal_product, decimal_quotient, decimal_sum, decimal_text, Decimal};
use crate::text::{i64_text, signed_digits};
use crate::time::Timestamp;
use crate::types::{Trade, TradeView};
use vstd::prelude::*;
use vstd::string::*;

verus! {

/// The settings of the drawdown rule, with durations in minutes and the
/// allowed drawdown in percent.
#[derive(Debug, Clone, Copy, PartialEq)]
pub struct MaxDrawdownProtectionConfig {
    /// The drawdown, in percent, above which trading stops.
    pub max_allowed_drawdown: Decimal,
    /// How far back closes are taken into the equity.
    pub lookback_period: i64,
    /// How long trading stops.
    pub stop_duration: i64,
}

impl Default for MaxDrawdownProtectionConfig {
    fn default() -> (r: Self)
        ensures
            r.max_allowed_drawdown == Decimal::spec_new(20, 0),
            r.lookback_period == 1440,
            r.stop_duration == 60,
    {
        MaxDrawdownProtectionConfig {
            max_allowed_drawdown: Decimal::from_i64(20),
            lookback_period: 1440,
            stop_duration: 60,
        }
    }
}

/// The drawdown rule.
pub struct MaxDrawdownProtection {
    config: MaxDrawdownProtectionConfig,
}

/// What the equity walk reads of a closed trade: when it closed and what it
/// earned.
#[derive(Debug, Clone, Copy, PartialEq)]
pub struct ClosedProfit {
    pub close_date: Timestamp,
    pub profit_abs: Option<Decimal>,
}

/// The closes within the lookback window, in the order of the trades.
pub open spec fn recent_closes(trades: Seq<TradeView>, now: Timestamp, lookback: int) -> Seq<
    ClosedProfit,
>
    decreases trades.len(),
{
    if trades.len() == 0 {
        Seq::empty()
    } else {
        let earlier = recent_closes(trades.drop_last(), now, lookback);
        let t = trades.last();
        if t.closed_within(now, lookback) {
            earlier.push(ClosedProfit { close_date: t.close_date->0, profit_abs: t.profit_abs })
        } else {
            earlier
        }
    }
}

/// Where a close goes into a sequence ordered by close date: behind the last
/// one that did not close later.
pub open spec fn insert_position(sorted: Seq<ClosedProfit>, x: ClosedProfit) -> int
    decreases sorted.len(),
{
    if sorted.len() == 0 {
        0
    } else if sorted.last().close_date.millis <= x.close_date.millis {
        sorted.len() as int
    } else {
        insert_position(sorted.drop_last(), x)
    }
}

/// The closes ordered by close date, earliest first; closes of the same
/// instant keep the order they came in.
pub open spec fn sort_by_close(closes: Seq<ClosedProfit>) -> Seq<ClosedProfit>
    decreases closes.len(),
{
    if closes.len() == 0 {
        Seq::empty()
    } else {
        let sorted = sort_by_close(closes.drop_last());
        sorted.insert(insert_position(sorted, closes.last()), closes.last())
    }
}

/// Whether the closes are in the order of their close dates.
pub open spec fn ordered_by_close(s: Seq<ClosedProfit>) -> bool {
    forall|i: int, j: int| 0 <= i < j < s.len() ==> s[i].close_date.millis <= s[j].close_date.millis
}

/// The position found lies within the sequence, everything before it did
/// not close later than `x`, and, in an ordered sequence, everything from it
/// on closed later.
pub proof fn lemma_insert_position(sorted: Seq<ClosedProfit>, x: ClosedProfit)
    ensures
        0 <= insert_position(sorted, x) <= sorted.len(),
        ordered_by_close(sorted) ==> forall|i: int|
            0 <= i < insert_position(sorted, x) ==> sorted[i].close_date.millis
                <= x.close_date.millis,
        forall|i: int|
            insert_position(sorted, x) <= i < sorted.len() ==> sorted[i].close_date.millis
                > x.close_date.millis,
    decreases sorted.len(),
{
    if sorted.len() > 0 && sorted.last().close_date.millis > x.close_date.millis {
        let shorter = sorted.drop_last();
        lemma_insert_position(shorter, x);
        assert forall|i: int| 0 <= i < shorter.len() implies shorter[i] == sorted[i] by {}
    }
}

/// The sorted closes are in the order of their close dates and are as many
/// as were given.
pub proof fn lemma_sort_by_close_ordered(closes: Seq<ClosedProfit>)
    ensures
        ordered_by_close(sort_by_close(closes)),
        sort_by_close(closes).len() == closes.len(),
        sort_by_close(closes).to_multiset() == closes.to_multiset(),
    decreases closes.len(),
{
    broadcast use vstd::seq_lib::group_to_multiset_ensures;

    if closes.len() > 0 {
        let shorter = closes.drop_last();
        let x = closes.last();
        lemma_sort_by_close_ordered(shorter);
        let sorted = sort_by_close(shorter);
        lemma_insert_position(sorted, x);
        let p = insert_position(sorted, x);
        let out = sorted.insert(p, x);
        assert(closes =~= shorter.push(x));
        vstd::seq_lib::to_multiset_insert(sorted, p, x);
        vstd::seq_lib::to_multiset_build(shorter, x);
    }
}

/// The running equity, its highest value so far, and the largest drawdown
/// so far in percent.
#[derive(Debug, Clone, Copy, PartialEq)]
pub struct EquityState {
    pub equity: Decimal,
    pub peak: Decimal,
    pub worst_drawdown: Decimal,
}

/// The drawdown in percent at one step: `|peak - equity| / peak * 100`
/// where the peak is above zero, and zero where it is not or where the
/// value cannot be held.
pub open spec fn drawdown_percent(peak: Decimal, equity: Decimal) -> Decimal {
    if peak.units() > 0 {
        match decimal_difference(peak, equity) {
            Some(fall) => match decimal_quotient(fall.spec_abs(), peak) {
                Some(ratio) => match decimal_product(ratio, Decimal::spec_new(100, 0)) {
                    Some(percent) => percent,
                    None => Decimal::spec_zero(),
                },
                None => Decimal::spec_zero(),
            },
            None => Decimal::spec_zero(),
        }
    } else {
        Decimal::spec_zero()
    }
}

/// The state after one more close. A close without a profit changes
/// nothing; a profit that cannot be added leaves the equity where it was.
pub open spec fn equity_step(state: EquityState, close: ClosedProfit) -> EquityState {
    match close.profit_abs {
        None => state,
        Some(profit) => {
            let equity = match decimal_sum(state.equity, profit) {
                Some(e) => e,
                None => state.equity,
            };
            let peak = if equity.units() > state.peak.units() {
                equity
            } else {
                state.peak
            };
            let percent = drawdown_percent(peak, equity);
            let worst = if percent.units() > state.worst_drawdown.units() {
                percent
            } else {
                state.worst_drawdown
            };
            EquityState { equity, peak, worst_drawdown: worst }
        },
    }
}

/// The state after all the closes, taken in the order given, starting from
/// an equity of zero.
pub open spec fn equity_walk(closes: Seq<ClosedProfit>) -> EquityState
    decreases closes.len(),
{
    if closes.len() == 0 {
        EquityState {
            equity: Decimal::spec_zero(),
            peak: Decimal::spec_zero(),
            worst_drawdown: Decimal::spec_zero(),
        }
    } else {
        equity_step(equity_walk(closes.drop_last()), closes.last())
    }
}

/// The largest drawdown, in percent, of the running equity of the trades
/// closed within the lookback window, taken by close date.
pub open spec fn max_drawdown_percent(trades: Seq<TradeView>, now: Timestamp, lookback: int) -> Decimal {
    equity_walk(sort_by_close(recent_closes(trades, now, lookback))).worst_drawdown
}

/// The reason a drawdown lock carries.
pub open spec fn drawdown_reason(drawdown: Decimal, allowed: Decimal) -> Seq<char> {
    "Drawdown of "@ + decimal_text(drawdown) + "% exceeds maximum allowed "@ + decimal_text(allowed)
        + "%"@
}

/// The verdict of the drawdown rule: a lock where the largest drawdown is
/// above the allowed one.
pub open spec fn drawdown_verdict(
    config: MaxDrawdownProtectionConfig,
    now: Timestamp,
    trades: Seq<TradeView>,
) -> Option<ProtectionReturnView> {
    let drawdown = max_drawdown_percent(trades, now, config.lookback_period as int);
    if drawdown.units() > config.max_allowed_drawdown.units() {
        lock_of(now, config.stop_duration as int, drawdown_reason(drawdown, config.max_allowed_drawdown))
    } else {
        None
    }
}

/// Puts `x` into a vector ordered by close date, behind the last close that
/// is not later.
pub fn insert_by_close(sorted: &mut Vec<ClosedProfit>, x: ClosedProfit)
    ensures
        final(sorted)@ == old(sorted)@.insert(insert_position(old(sorted)@, x), x),
{
    let mut j: usize = sorted.len();
    proof {
        assert(sorted@.take(j as int) =~= sorted@);
    }
    while j > 0 && sorted[j - 1].close_date.millis > x.close_date.millis
        invariant
            j <= sorted.len(),
            sorted@ == old(sorted)@,
            insert_position(sorted@, x) == insert_position(sorted@.take(j as int), x),
        decreases j,
    {
        proof {
            assert(sorted@.take(j as int).drop_last() =~= sorted@.take(j - 1));
        }
        j = j - 1;
    }
    sorted.insert(j, x);
}

/// The drawdown in percent at one step.
pub fn drawdown_percent_of(peak: Decimal, equity: Decimal) -> (r: Decimal)
    ensures
        r == drawdown_percent(peak, equity),
{
    if peak.is_positive() {
        match peak.checked_sub(equity) {
            Some(fall) => match fall.abs().checked_div(peak) {
                Some(ratio) => match ratio.checked_mul(Decimal::from_i64(100)) {
                    Some(percent) => percent,
                    None => Decimal::zero(),
                },
                None => Decimal::zero(),
            },
            None => Decimal::zero(),
        }
    } else {
        Decimal::zero()
    }
}

impl MaxDrawdownProtection {
    /// The settings of the rule.
    pub closed spec fn spec_config(&self) -> MaxDrawdownProtectionConfig {
        self.config
    }

    /// The rule with the given settings.
    pub closed spec fn spec_new(config: MaxDrawdownProtectionConfig) -> Self {
        MaxDrawdownProtection { config }
    }

    /// A drawdown rule with the given settings.
    pub fn new(config: MaxDrawdownProtectionConfig) -> (r: Self)
        ensures
            r.spec_config() == config,
            r == Self::spec_new(config),
    {
        MaxDrawdownProtection { config }
    }

    /// The settings of the rule.
    pub fn config(&self) -> (r: MaxDrawdownProtectionConfig)
        ensures
            r == self.spec_config(),
    {
        self.config
    }

    /// The closes within the lookback window, ordered by close date,
    /// earliest first: each close of the window once, and closes of the same
    /// instant in the order of the trades.
    pub fn recent_closes_by_date(&self, now: Timestamp, trades: &Vec<Trade>) -> (r: Vec<ClosedProfit>)
        ensures
            r@ == sort_by_close(
                recent_closes(trade_views(trades@), now, self.spec_config().lookback_period as int),
            ),
            ordered_by_close(r@),
            r@.to_multiset() == recent_closes(
                trade_views(trades@),
                now,
                self.spec_config().lookback_period as int,
            ).to_multiset(),
    {
        let lookback: i64 = self.config.lookback_period;
        let ghost views = trade_views(trades@);
        let mut sorted: Vec<ClosedProfit> = Vec::new();
        let mut i: usize = 0;
        while i < trades.len()
            invariant
                i <= trades.len(),
                views == trade_views(trades@),
                sorted@ == sort_by_close(recent_closes(views.take(i as int), now, lookback as int)),
            decreases trades.len() - i,
        {
            let t = &trades[i];
            proof {
                assert(views.take(i + 1).drop_last() =~= views.take(i as int));
            }
            if t.is_closed_within(&now, lookback) {
                let close = ClosedProfit { close_date: t.close_date.unwrap(), profit_abs: t.profit_abs };
                proof {
                    let earlier = recent_closes(views.take(i as int), now, lookback as int);
                    assert(earlier.push(close).drop_last() =~= earlier);
                }
                insert_by_close(&mut sorted, close);
            }
            i = i + 1;
        }
        proof {
            assert(views.take(i as int) =~= views);
            lemma_sort_by_close_ordered(recent_closes(views, now, lookback as int));
        }
        sorted
    }

    /// The largest drawdown, in percent, of the running equity of the
    /// trades closed within the lookback window, taken by close date.
    pub fn calculate_drawdown(&self, now: Timestamp, trades: &Vec<Trade>) -> (r: Decimal)
        ensures
            r == max_drawdown_percent(
                trade_views(trades@),
                now,
                self.spec_config().lookback_period as int,
            ),
    {
        let sorted = self.recent_closes_by_date(now, trades);
        let mut state = EquityState {
            equity: Decimal::zero(),
            peak: Decimal::zero(),
            worst_drawdown: Decimal::zero(),
        };
        let mut k: usize = 0;
        while k < sorted.len()
            invariant
                k <= sorted.len(),
                state == equity_walk(sorted@.take(k as int)),
            decreases sorted.len() - k,
        {
            let close = sorted[k];
            proof {
                assert(sorted@.take(k + 1).drop_last() =~= sorted@.take(k as int));
            }
            if let Some(profit) = close.profit_abs {
                let equity = match state.equity.checked_add(profit) {
                    Some(e) => e,
                    None => state.equity,
                };
                let peak = if equity.gt(&state.peak) {
                    equity
                } else {
                    state.peak
                };
                let percent = drawdown_percent_of(peak, equity);
                let worst = if percent.gt(&state.worst_drawdown) {
                    percent
                } else {
                    state.worst_drawdown
                };
                state = EquityState { equity, peak, worst_drawdown: worst };
            }
            k = k + 1;
        }
        proof {
            assert(sorted@.take(k as int) =~= sorted@);
        }
        state.worst_drawdown
    }
}

impl IProtection for MaxDrawdownProtection {
    open spec fn spec_name(&self) -> Seq<char> {
        "MaxDrawdownProtection"@
    }

    open spec fn spec_short_desc(&self) -> Seq<char> {
        "Stop trading for "@ + signed_digits(self.spec_config().stop_duration as int)
            + " minutes if drawdown exceeds "@ + decimal_text(
            self.spec_config().max_allowed_drawdown,
        ) + "% in last "@ + signed_digits(self.spec_config().lookback_period as int) + " minutes"@
    }

    open spec fn spec_has_global_stop(&self) -> bool {
        true
    }

    open spec fn spec_has_local_stop(&self) -> bool {
        false
    }

    open spec fn spec_global_stop(&self, date_now: Timestamp, trades: Seq<TradeView>) -> Option<
        ProtectionReturnView,
    > {
        drawdown_verdict(self.spec_config(), date_now, trades)
    }

    open spec fn spec_stop_per_pair(
        &self,
        pair: Seq<char>,
        date_now: Timestamp,
        trades: Seq<TradeView>,
    ) -> Option<ProtectionReturnView> {
        None
    }

    fn name(&self) -> (r: &str) {
        "MaxDrawdownProtection"
    }

    fn short_desc(&self) -> (r: String) {
        let mut s = String::from_str("Stop trading for ");
        let stop = i64_text(self.config.stop_duration);
        s.append(stop.as_str());
        s.append(" minutes if drawdown exceeds ");
        let allowed = self.config.max_allowed_drawdown.to_text();
        s.append(allowed.as_str());
        s.append("% in last ");
        let lookback = i64_text(self.config.lookback_period);
        s.append(lookback.as_str());
        s.append(" minutes");
        s
    }

    fn has_global_stop(&self) -> (r: bool) {
        true
    }

    fn has_local_stop(&self) -> (r: bool) {
        false
    }

    fn global_stop(&self, date_now: Timestamp, trades: &Vec<Trade>) -> (r: Option<
        ProtectionReturn,
    >) {
        let drawdown = self.calculate_drawdown(date_now, trades);
        if drawdown.gt(&self.config.max_allowed_drawdown) {
            let mut reason = String::from_str("Drawdown of ");
            let shown = drawdown.to_text();
            reason.append(shown.as_str());
            reason.append("% exceeds maximum allowed ");
            let allowed = self.config.max_allowed_drawdown.to_text();
            reason.append(allowed.as_str());
            reason.append("%");
            make_lock(date_now, self.config.stop_duration, reason)
        } else {
            None
        }
    }

    fn stop_per_pair(&self, pair: &str, date_now: Timestamp, trades: &Vec<Trade>) -> (r: Option<
        ProtectionReturn,
    >) {
        None
    }
}

} // verus!
