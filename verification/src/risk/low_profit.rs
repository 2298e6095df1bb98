//! Low-profit pairs: where the average profit of a pair's recent closes is
//! below a threshold, stop trading the pair for a while.

use super::protection::{lock_of, lock_view, make_lock, trade_views, IProtection, ProtectionReturn, ProtectionReturnView};
use crate::decimal::{decimal_product, decimal_quotient, decimal_sum, decimal_text, Decimal};
use crate::text::{i64_text, signed_digits};
use crate::time::Timestamp;
use crate::types::{Trade, TradeView};
use vstd::prelude::*;
use vstd::string::*;

verus! {

/// The settings of the low-profit rule, with durations in minutes and the
/// required profit in percent.
#[derive(Debug, Clone, Copy, PartialEq)]
pub struct LowProfitPairsConfig {
    /// How long the pair stops.
    pub stop_duration: i64,
    /// How far back closes are averaged.
    pub lookback_period: i64,
    /// The average profit, in percent, below which the pair stops.
    pub required_profit: Decimal,
    /// How many trades of the pair must have closed within the lookback
    /// before the rule applies.
    pub required_trades: usize,
}

impl Default for LowProfitPairsConfig {
    fn default() -> (r: Self)
        ensures
            r.stop_duration == 60,
            r.lookback_period == 1440,
            r.required_profit == Decimal::spec_new(5, 1),
            r.required_trades == 3,
    {
        LowProfitPairsConfig {
            stop_duration: 60,
            lookback_period: 1440,
            required_profit: Decimal::new(5, 1).unwrap(),
            required_trades: 3,
        }
    }
}

/// The low-profit rule.
pub struct LowProfitPairs {
    config: LowProfitPairsConfig,
}

/// How many of the trades were closed within the lookback window.
pub open spec fn recent_close_count(trades: Seq<TradeView>, now: Timestamp, lookback: int) -> nat
    decreases trades.len(),
{
    if trades.len() == 0 {
        0
    } else {
        recent_close_count(trades.drop_last(), now, lookback) + if trades.last().closed_within(
            now,
            lookback,
        ) {
            1nat
        } else {
            0nat
        }
    }
}

/// The total after one more trade: the trade's profit ratio times one
/// hundred is added where the trade was closed within the window, has a
/// ratio, and both the product and the sum can be held; otherwise the total
/// stays.
pub open spec fn percent_total_step(
    total: Decimal,
    t: TradeView,
    now: Timestamp,
    lookback: int,
) -> Decimal {
    if t.closed_within(now, lookback) {
        match t.profit_ratio {
            Some(ratio) => match decimal_product(ratio, Decimal::spec_new(100, 0)) {
                Some(percent) => match decimal_sum(total, percent) {
                    Some(sum) => sum,
                    None => total,
                },
                None => total,
            },
            None => total,
        }
    } else {
        total
    }
}

/// The sum of the profits, in percent, of the trades closed within the
/// lookback window.
pub open spec fn percent_total(trades: Seq<TradeView>, now: Timestamp, lookback: int) -> Decimal
    decreases trades.len(),
{
    if trades.len() == 0 {
        Decimal::spec_zero()
    } else {
        percent_total_step(
            percent_total(trades.drop_last(), now, lookback),
            trades.last(),
            now,
            lookback,
        )
    }
}

/// The average profit, in percent, of the trades closed within the lookback
/// window: their total over their number. `None` where there is no such
/// trade or the quotient cannot be held.
pub open spec fn average_percent(trades: Seq<TradeView>, now: Timestamp, lookback: int) -> Option<
    Decimal,
> {
    let count = recent_close_count(trades, now, lookback);
    if count == 0 {
        None
    } else {
        decimal_quotient(percent_total(trades, now, lookback), Decimal::spec_new(count as int, 0))
    }
}

/// The reason a low-profit lock carries.
pub open spec fn low_profit_reason(average: Decimal, lookback: int, required: Decimal) -> Seq<char> {
    "Average profit of "@ + decimal_text(average) + "% in last "@ + signed_digits(lookback)
        + " minutes is below required "@ + decimal_text(required) + "%"@
}

/// The verdict of the low-profit rule on the trades of one pair: a lock
/// where the required number of the pair's trades were closed within the
/// lookback window and their average profit is below the required profit.
pub open spec fn low_profit_verdict(
    config: LowProfitPairsConfig,
    now: Timestamp,
    trades: Seq<TradeView>,
) -> Option<ProtectionReturnView> {
    if recent_close_count(trades, now, config.lookback_period as int) < config.required_trades {
        None
    } else {
        match average_percent(trades, now, config.lookback_period as int) {
            Some(average) => if average.units() < config.required_profit.units() {
                lock_of(
                    now,
                    config.stop_duration as int,
                    low_profit_reason(average, config.lookback_period as int, config.required_profit),
                )
            } else {
                None
            },
            None => None,
        }
    }
}

impl LowProfitPairs {
    /// The settings of the rule.
    pub closed spec fn spec_config(&self) -> LowProfitPairsConfig {
        self.config
    }

    /// A low-profit rule with the given settings.
    pub fn new(config: LowProfitPairsConfig) -> (r: Self)
        ensures
            r.spec_config() == config,
    {
        LowProfitPairs { config }
    }

    /// The settings of the rule.
    pub fn config(&self) -> (r: LowProfitPairsConfig)
        ensures
            r == self.spec_config(),
    {
        self.config
    }

    /// How many of the trades were closed within the lookback window.
    pub fn recent_closes(&self, now: Timestamp, trades: &Vec<Trade>) -> (r: usize)
        ensures
            r == recent_close_count(
                trade_views(trades@),
                now,
                self.spec_config().lookback_period as int,
            ),
    {
        let lookback: i64 = self.config.lookback_period;
        let mut count: usize = 0;
        let mut i: usize = 0;
        let ghost views = trade_views(trades@);
        while i < trades.len()
            invariant
                i <= trades.len(),
                views == trade_views(trades@),
                lookback == self.config.lookback_period,
                count == recent_close_count(views.take(i as int), now, lookback as int),
                count <= i,
            decreases trades.len() - i,
        {
            proof {
                assert(views.take(i + 1).drop_last() =~= views.take(i as int));
            }
            if trades[i].is_closed_within(&now, lookback) {
                count = count + 1;
            }
            i = i + 1;
        }
        proof {
            assert(views.take(i as int) =~= views);
        }
        count
    }

    /// The average profit, in percent, of the trades closed within the
    /// lookback window.
    pub fn average_profit(&self, now: Timestamp, trades: &Vec<Trade>) -> (r: Option<Decimal>)
        ensures
            r == average_percent(trade_views(trades@), now, self.spec_config().lookback_period as int),
    {
        let lookback: i64 = self.config.lookback_period;
        let mut count: usize = 0;
        let mut total = Decimal::zero();
        let hundred = Decimal::from_i64(100);
        let mut i: usize = 0;
        let ghost views = trade_views(trades@);
        while i < trades.len()
            invariant
                i <= trades.len(),
                views == trade_views(trades@),
                lookback == self.config.lookback_period,
                hundred == Decimal::spec_new(100, 0),
                count == recent_close_count(views.take(i as int), now, lookback as int),
                count <= i,
                total == percent_total(views.take(i as int), now, lookback as int),
            decreases trades.len() - i,
        {
            let t = &trades[i];
            proof {
                assert(views.take(i + 1).drop_last() =~= views.take(i as int));
            }
            if t.is_closed_within(&now, lookback) {
                count = count + 1;
                if let Some(ratio) = t.profit_ratio {
                    if let Some(percent) = ratio.checked_mul(hundred) {
                        if let Some(sum) = total.checked_add(percent) {
                            total = sum;
                        }
                    }
                }
            }
            i = i + 1;
        }
        proof {
            assert(views.take(i as int) =~= views);
        }
        if count == 0 {
            None
        } else {
            let divisor = Decimal::new(count as i128, 0).unwrap();
            total.checked_div(divisor)
        }
    }
}

impl IProtection for LowProfitPairs {
    open spec fn spec_name(&self) -> Seq<char> {
        "LowProfitPairs"@
    }

    open spec fn spec_short_desc(&self) -> Seq<char> {
        "Stop trading a pair for "@ + signed_digits(self.spec_config().stop_duration as int)
            + " minutes if it has less than "@ + decimal_text(self.spec_config().required_profit)
            + "% profit over last "@ + signed_digits(self.spec_config().lookback_period as int)
            + " minutes"@
    }

    open spec fn spec_has_global_stop(&self) -> bool {
        false
    }

    open spec fn spec_has_local_stop(&self) -> bool {
        true
    }

    open spec fn spec_global_stop(&self, date_now: Timestamp, trades: Seq<TradeView>) -> Option<
        ProtectionReturnView,
    > {
        None
    }

    open spec fn spec_stop_per_pair(
        &self,
        pair: Seq<char>,
        date_now: Timestamp,
        trades: Seq<TradeView>,
    ) -> Option<ProtectionReturnView> {
        low_profit_verdict(self.spec_config(), date_now, trades)
    }

    fn name(&self) -> (r: &str) {
        "LowProfitPairs"
    }

    fn short_desc(&self) -> (r: String) {
        let mut s = String::from_str("Stop trading a pair for ");
        let stop = i64_text(self.config.stop_duration);
        s.append(stop.as_str());
        s.append(" minutes if it has less than ");
        let required = self.config.required_profit.to_text();
        s.append(required.as_str());
        s.append("% profit over last ");
        let lookback = i64_text(self.config.lookback_period);
        s.append(lookback.as_str());
        s.append(" minutes");
        s
    }

    fn has_global_stop(&self) -> (r: bool) {
        false
    }

    fn has_local_stop(&self) -> (r: bool) {
        true
    }

    fn global_stop(&self, date_now: Timestamp, trades: &Vec<Trade>) -> (r: Option<
        ProtectionReturn,
    >) {
        None
    }

    fn stop_per_pair(&self, pair: &str, date_now: Timestamp, trades: &Vec<Trade>) -> (r: Option<
        ProtectionReturn,
    >) {
        if self.recent_closes(date_now, trades) < self.config.required_trades {
            return None;
        }
        match self.average_profit(date_now, trades) {
            Some(average) => {
                if average.lt(&self.config.required_profit) {
                    let mut reason = String::from_str("Average profit of ");
                    let shown = average.to_text();
                    reason.append(shown.as_str());
                    reason.append("% in last ");
                    let lookback = i64_text(self.config.lookback_period);
                    reason.append(lookback.as_str());
                    reason.append(" minutes is below required ");
                    let required = self.config.required_profit.to_text();
                    reason.append(required.as_str());
                    reason.append("%");
                    make_lock(date_now, self.config.stop_duration, reason)
                } else {
                    None
                }
            },
            None => None,
        }
    }
}

} // verus!
