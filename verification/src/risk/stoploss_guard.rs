//! Stoploss guard: after enough closes by stop-loss within a lookback
//! window, stop trading for a while.

use super::protection::{lock_of, lock_view, make_lock, trade_views, IProtection, ProtectionReturn, ProtectionReturnView};
use crate::text::{decimal_digits, i64_text, signed_digits, u64_text};
use crate::time::Timestamp;
use crate::types::{Trade, TradeView};
use vstd::prelude::*;
use vstd::string::*;

verus! {

/// The settings of the stoploss guard, with durations in minutes.
#[derive(Debug, Clone, Copy, PartialEq, Eq)]
pub struct StoplossGuardConfig {
    /// How far back closes are counted.
    pub lookback_period: i64,
    /// How long trading stops.
    pub stop_duration: i64,
    /// How many closes by stop-loss stop trading.
    pub max_stoploss_count: usize,
}

impl Default for StoplossGuardConfig {
    fn default() -> (r: Self)
        ensures
            r.lookback_period == 60,
            r.stop_duration == 30,
            r.max_stoploss_count == 2,
    {
        StoplossGuardConfig { lookback_period: 60, stop_duration: 30, max_stoploss_count: 2 }
    }
}

/// The stoploss guard.
pub struct StoplossGuard {
    config: StoplossGuardConfig,
}

/// Whether a trade was closed within the lookback window by a stop-loss,
/// here or at the venue.
pub open spec fn recent_stoploss(t: TradeView, now: Timestamp, lookback: int) -> bool {
    &&& t.closed_within(now, lookback)
    &&& t.exit_reason matches Some(e)
    &&& e.stoploss()
}

/// How many of the trades are recent closes by stop-loss.
pub open spec fn recent_stoploss_count(trades: Seq<TradeView>, now: Timestamp, lookback: int) -> nat
    decreases trades.len(),
{
    if trades.len() == 0 {
        0
    } else {
        recent_stoploss_count(trades.drop_last(), now, lookback) + if recent_stoploss(
            trades.last(),
            now,
            lookback,
        ) {
            1nat
        } else {
            0nat
        }
    }
}

/// The reason a stoploss-guard lock carries.
pub open spec fn stoploss_reason(count: nat, lookback: int) -> Seq<char> {
    "Stoploss triggered "@ + decimal_digits(count) + " times in last "@ + signed_digits(lookback)
        + " minutes"@
}

/// The verdict of the stoploss guard: a lock where the recent closes by
/// stop-loss reach the threshold.
pub open spec fn stoploss_verdict(
    config: StoplossGuardConfig,
    now: Timestamp,
    trades: Seq<TradeView>,
) -> Option<ProtectionReturnView> {
    let count = recent_stoploss_count(trades, now, config.lookback_period as int);
    if count >= config.max_stoploss_count {
        lock_of(now, config.stop_duration as int, stoploss_reason(count, config.lookback_period as int))
    } else {
        None
    }
}

impl StoplossGuard {
    /// The settings of the rule.
    pub closed spec fn spec_config(&self) -> StoplossGuardConfig {
        self.config
    }

    /// A stoploss guard with the given settings.
    pub fn new(config: StoplossGuardConfig) -> (r: Self)
        ensures
            r.spec_config() == config,
    {
        StoplossGuard { config }
    }

    /// The settings of the rule.
    pub fn config(&self) -> (r: StoplossGuardConfig)
        ensures
            r == self.spec_config(),
    {
        self.config
    }

    fn count_recent_stoplosses(&self, now: Timestamp, trades: &Vec<Trade>) -> (n: usize)
        ensures
            n == recent_stoploss_count(
                trade_views(trades@),
                now,
                self.config.lookback_period as int,
            ),
    {
        let mut n: usize = 0;
        let mut i: usize = 0;
        let ghost views = trade_views(trades@);
        while i < trades.len()
            invariant
                i <= trades.len(),
                views == trade_views(trades@),
                n == recent_stoploss_count(
                    views.take(i as int),
                    now,
                    self.config.lookback_period as int,
                ),
                n <= i,
            decreases trades.len() - i,
        {
            let t = &trades[i];
            let hit: bool = t.is_closed_within(&now, self.config.lookback_period) && match t.exit_reason {
                Some(e) => e.is_stoploss(),
                None => false,
            };
            proof {
                assert(views.take(i + 1).drop_last() =~= views.take(i as int));
            }
            if hit {
                n = n + 1;
            }
            i = i + 1;
        }
        proof {
            assert(views.take(i as int) =~= views);
        }
        n
    }
}

impl IProtection for StoplossGuard {
    open spec fn spec_name(&self) -> Seq<char> {
        "StoplossGuard"@
    }

    open spec fn spec_short_desc(&self) -> Seq<char> {
        "Stop trading for "@ + signed_digits(self.spec_config().stop_duration as int)
            + " minutes if stoploss is triggered more than "@ + decimal_digits(
            self.spec_config().max_stoploss_count as nat,
        ) + " times in "@ + signed_digits(self.spec_config().lookback_period as int) + " minutes"@
    }

    open spec fn spec_has_global_stop(&self) -> bool {
        false
    }

    open spec fn spec_has_local_stop(&self) -> bool {
        true
    }

    open spec fn spec_global_stop(&self, date_now: Timestamp, trades: Seq<TradeView>) -> Option<
        ProtectionReturnView,
    > {
        stoploss_verdict(self.spec_config(), date_now, trades)
    }

    open spec fn spec_stop_per_pair(
        &self,
        pair: Seq<char>,
        date_now: Timestamp,
        trades: Seq<TradeView>,
    ) -> Option<ProtectionReturnView> {
        stoploss_verdict(self.spec_config(), date_now, trades)
    }

    fn name(&self) -> (r: &str) {
        "StoplossGuard"
    }

    fn short_desc(&self) -> (r: String) {
        let mut s = String::from_str("Stop trading for ");
        let stop = i64_text(self.config.stop_duration);
        s.append(stop.as_str());
        s.append(" minutes if stoploss is triggered more than ");
        let count = u64_text(self.config.max_stoploss_count as u64);
        s.append(count.as_str());
        s.append(" times in ");
        let lookback = i64_text(self.config.lookback_period);
        s.append(lookback.as_str());
        s.append(" minutes");
        s
    }

    fn has_global_stop(&self) -> (r: bool) {
        false
    }

    fn has_local_stop(&self) -> (r: bool) {
        true
    }

    fn global_stop(&self, date_now: Timestamp, trades: &Vec<Trade>) -> (r: Option<
        ProtectionReturn,
    >) {
        self.stop_per_pair("*", date_now, trades)
    }

    fn stop_per_pair(&self, pair: &str, date_now: Timestamp, trades: &Vec<Trade>) -> (r: Option<
        ProtectionReturn,
    >) {
        let count: usize = self.count_recent_stoplosses(date_now, trades);
        if count >= self.config.max_stoploss_count {
            let mut reason = String::from_str("Stoploss triggered ");
            let digits = u64_text(count as u64);
            reason.append(digits.as_str());
            reason.append(" times in last ");
            let lookback = i64_text(self.config.lookback_period);
            reason.append(lookback.as_str());
            reason.append(" minutes");
            make_lock(date_now, self.config.stop_duration, reason)
        } else {
            None
        }
    }
}

} // verus!
