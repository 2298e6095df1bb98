//! Cooldown: after enough losing closes within a lookback window, stop
//! trading for a while.

use super::protection::{lock_of, lock_view, make_lock, trade_views, IProtection, ProtectionReturn, ProtectionReturnView};
use crate::text::{decimal_digits, i64_text, signed_digits, u64_text};
use crate::time::Timestamp;
use crate::types::{Trade, TradeView};
use vstd::prelude::*;
use vstd::string::*;

verus! {

/// The settings of the cooldown rule, with durations in minutes.
#[derive(Debug, Clone, Copy, PartialEq, Eq)]
pub struct CooldownPeriodConfig {
    /// How long trading stops.
    pub stop_duration: i64,
    /// How far back closes are counted.
    pub lookback_period: i64,
    /// How many losing closes stop trading.
    pub stop_after_losses: usize,
}

impl Default for CooldownPeriodConfig {
    fn default() -> (r: Self)
        ensures
            r.stop_duration == 60,
            r.lookback_period == 1440,
            r.stop_after_losses == 2,
    {
        CooldownPeriodConfig { stop_duration: 60, lookback_period: 1440, stop_after_losses: 2 }
    }
}

/// The cooldown rule.
pub struct CooldownPeriod {
    config: CooldownPeriodConfig,
}

/// Whether a trade was closed within the lookback window with a profit
/// ratio below zero.
pub open spec fn recent_loss(t: TradeView, now: Timestamp, lookback: int) -> bool {
    &&& t.closed_within(now, lookback)
    &&& t.profit_ratio matches Some(r)
    &&& r.units() < 0
}

/// How many of the trades are recent losses.
pub open spec fn recent_loss_count(trades: Seq<TradeView>, now: Timestamp, lookback: int) -> nat
    decreases trades.len(),
{
    if trades.len() == 0 {
        0
    } else {
        recent_loss_count(trades.drop_last(), now, lookback) + if recent_loss(
            trades.last(),
            now,
            lookback,
        ) {
            1nat
        } else {
            0nat
        }
    }
}

/// A recent loss among the trades is counted.
pub proof fn lemma_one_recent_loss_is_counted(
    trades: Seq<TradeView>,
    now: Timestamp,
    lookback: int,
    a: int,
)
    requires
        0 <= a < trades.len(),
        recent_loss(trades[a], now, lookback),
    ensures
        recent_loss_count(trades, now, lookback) >= 1,
    decreases trades.len(),
{
    if a < trades.len() - 1 {
        assert(trades.drop_last()[a] == trades[a]);
        lemma_one_recent_loss_is_counted(trades.drop_last(), now, lookback, a);
    }
}

/// Two recent losses among the trades are both counted.
pub proof fn lemma_two_recent_losses_are_counted(
    trades: Seq<TradeView>,
    now: Timestamp,
    lookback: int,
    a: int,
    b: int,
)
    requires
        0 <= a < b < trades.len(),
        recent_loss(trades[a], now, lookback),
        recent_loss(trades[b], now, lookback),
    ensures
        recent_loss_count(trades, now, lookback) >= 2,
    decreases trades.len(),
{
    assert(trades.drop_last()[a] == trades[a]);
    if b < trades.len() - 1 {
        assert(trades.drop_last()[b] == trades[b]);
        lemma_two_recent_losses_are_counted(trades.drop_last(), now, lookback, a, b);
    } else {
        lemma_one_recent_loss_is_counted(trades.drop_last(), now, lookback, a);
    }
}

/// The reason a cooldown lock carries.
pub open spec fn cooldown_reason(losses: nat, lookback: int) -> Seq<char> {
    decimal_digits(losses) + " losing trades in last "@ + signed_digits(lookback) + " minutes"@
}

/// The verdict of the cooldown rule: a lock where the recent losses reach
/// the threshold.
pub open spec fn cooldown_verdict(
    config: CooldownPeriodConfig,
    now: Timestamp,
    trades: Seq<TradeView>,
) -> Option<ProtectionReturnView> {
    let losses = recent_loss_count(trades, now, config.lookback_period as int);
    if losses >= config.stop_after_losses {
        lock_of(now, config.stop_duration as int, cooldown_reason(losses, config.lookback_period as int))
    } else {
        None
    }
}

impl CooldownPeriod {
    /// The settings of the rule.
    pub closed spec fn spec_config(&self) -> CooldownPeriodConfig {
        self.config
    }

    /// The rule with the given settings.
    pub closed spec fn spec_new(config: CooldownPeriodConfig) -> Self {
        CooldownPeriod { config }
    }

    /// A cooldown rule with the given settings.
    pub fn new(config: CooldownPeriodConfig) -> (r: Self)
        ensures
            r.spec_config() == config,
            r == Self::spec_new(config),
    {
        CooldownPeriod { config }
    }

    /// The settings of the rule.
    pub fn config(&self) -> (r: CooldownPeriodConfig)
        ensures
            r == self.spec_config(),
    {
        self.config
    }

    fn count_recent_losses(&self, now: Timestamp, trades: &Vec<Trade>) -> (n: usize)
        ensures
            n == recent_loss_count(trade_views(trades@), now, self.config.lookback_period as int),
    {
        let mut n: usize = 0;
        let mut i: usize = 0;
        let ghost views = trade_views(trades@);
        while i < trades.len()
            invariant
                i <= trades.len(),
                views == trade_views(trades@),
                n == recent_loss_count(views.take(i as int), now, self.config.lookback_period as int),
                n <= i,
            decreases trades.len() - i,
        {
            let t = &trades[i];
            let loss: bool = t.is_closed_within(&now, self.config.lookback_period) && match t.profit_ratio {
                Some(r) => r.is_negative(),
                None => false,
            };
            proof {
                assert(views.take(i + 1).drop_last() =~= views.take(i as int));
            }
            if loss {
                n = n + 1;
            }
            i = i + 1;
        }
        proof {
            assert(views.take(i as int) =~= views);
        }
        n
    }

    fn verdict(&self, now: Timestamp, trades: &Vec<Trade>) -> (r: Option<ProtectionReturn>)
        ensures
            lock_view(r) == cooldown_verdict(self.config, now, trade_views(trades@)),
            r matches Some(l) ==> l.lock && l.until.millis > now.millis,
    {
        let losses: usize = self.count_recent_losses(now, trades);
        if losses >= self.config.stop_after_losses {
            let mut reason = u64_text(losses as u64);
            reason.append(" losing trades in last ");
            let lookback = i64_text(self.config.lookback_period);
            reason.append(lookback.as_str());
            reason.append(" minutes");
            make_lock(now, self.config.stop_duration, reason)
        } else {
            None
        }
    }
}

impl IProtection for CooldownPeriod {
    open spec fn spec_name(&self) -> Seq<char> {
        "CooldownPeriod"@
    }

    open spec fn spec_short_desc(&self) -> Seq<char> {
        "Stop trading for "@ + signed_digits(self.spec_config().stop_duration as int)
            + " minutes after "@ + decimal_digits(self.spec_config().stop_after_losses as nat)
            + " losing trades in last "@ + signed_digits(self.spec_config().lookback_period as int)
            + " minutes"@
    }

    open spec fn spec_has_global_stop(&self) -> bool {
        true
    }

    open spec fn spec_has_local_stop(&self) -> bool {
        false
    }

    open spec fn spec_global_stop(&self, date_now: Timestamp, trades: Seq<TradeView>) -> Option<
        ProtectionReturnView,
    > {
        cooldown_verdict(self.spec_config(), date_now, trades)
    }

    open spec fn spec_stop_per_pair(
        &self,
        pair: Seq<char>,
        date_now: Timestamp,
        trades: Seq<TradeView>,
    ) -> Option<ProtectionReturnView> {
        cooldown_verdict(self.spec_config(), date_now, trades)
    }

    fn name(&self) -> (r: &str) {
        "CooldownPeriod"
    }

    fn short_desc(&self) -> (r: String) {
        let mut s = String::from_str("Stop trading for ");
        let stop = i64_text(self.config.stop_duration);
        s.append(stop.as_str());
        s.append(" minutes after ");
        let losses = u64_text(self.config.stop_after_losses as u64);
        s.append(losses.as_str());
        s.append(" losing trades in last ");
        let lookback = i64_text(self.config.lookback_period);
        s.append(lookback.as_str());
        s.append(" minutes");
        s
    }

    fn has_global_stop(&self) -> (r: bool) {
        true
    }

    fn has_local_stop(&self) -> (r: bool) {
        false
    }

    fn global_stop(&self, date_now: Timestamp, trades: &Vec<Trade>) -> (r: Option<
        ProtectionReturn,
    >) {
        self.verdict(date_now, trades)
    }

    fn stop_per_pair(&self, pair: &str, date_now: Timestamp, trades: &Vec<Trade>) -> (r: Option<
        ProtectionReturn,
    >) {
        self.verdict(date_now, trades)
    }
}

} // verus!
