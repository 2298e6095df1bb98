//! The pipeline: an ordered list of protection rules, asked in the order in
//! which they were registered. The first rule that returns a lock wins.

use super::cooldown::{CooldownPeriod, CooldownPeriodConfig};
use super::low_profit::LowProfitPairs;
use super::max_drawdown::{MaxDrawdownProtection, MaxDrawdownProtectionConfig};
use super::protection::{lock_view, trade_views, IProtection, ProtectionReturn, ProtectionReturnView};
use super::stoploss_guard::StoplossGuard;
use crate::decimal::Decimal;
use crate::text::same_text;
use crate::time::Timestamp;
use crate::types::{Trade, TradeView};
use vstd::prelude::*;

verus! {

/// Why trading is stopped: the reason, until when, and the rule that said so.
#[derive(Debug, Clone, PartialEq)]
pub struct StopReason {
    pub reason: String,
    pub until: Timestamp,
    pub protection: String,
}

/// What a [`StopReason`] holds, as plain values.
pub struct StopReasonView {
    pub reason: Seq<char>,
    pub until: Timestamp,
    pub protection: Seq<char>,
}

impl View for StopReason {
    type V = StopReasonView;

    open spec fn view(&self) -> StopReasonView {
        StopReasonView { reason: self.reason@, until: self.until, protection: self.protection@ }
    }
}

/// The view of an optional stop.
pub open spec fn stop_view(r: Option<StopReason>) -> Option<StopReasonView> {
    match r {
        Some(s) => Some(s@),
        None => None,
    }
}

/// A rule as the pipeline holds it: one of the four rules of this library,
/// or a rule of the user's own.
pub enum Protection {
    Cooldown(CooldownPeriod),
    LowProfit(LowProfitPairs),
    MaxDrawdown(MaxDrawdownProtection),
    Stoploss(StoplossGuard),
    Custom(Box<dyn IProtection>),
}

impl IProtection for Protection {
    open spec fn spec_name(&self) -> Seq<char> {
        match self {
            Protection::Cooldown(r) => r.spec_name(),
            Protection::LowProfit(r) => r.spec_name(),
            Protection::MaxDrawdown(r) => r.spec_name(),
            Protection::Stoploss(r) => r.spec_name(),
            Protection::Custom(r) => r.spec_name(),
        }
    }

    open spec fn spec_short_desc(&self) -> Seq<char> {
        match self {
            Protection::Cooldown(r) => r.spec_short_desc(),
            Protection::LowProfit(r) => r.spec_short_desc(),
            Protection::MaxDrawdown(r) => r.spec_short_desc(),
            Protection::Stoploss(r) => r.spec_short_desc(),
            Protection::Custom(r) => r.spec_short_desc(),
        }
    }

    open spec fn spec_has_global_stop(&self) -> bool {
        match self {
            Protection::Cooldown(r) => r.spec_has_global_stop(),
            Protection::LowProfit(r) => r.spec_has_global_stop(),
            Protection::MaxDrawdown(r) => r.spec_has_global_stop(),
            Protection::Stoploss(r) => r.spec_has_global_stop(),
            Protection::Custom(r) => r.spec_has_global_stop(),
        }
    }

    open spec fn spec_has_local_stop(&self) -> bool {
        match self {
            Protection::Cooldown(r) => r.spec_has_local_stop(),
            Protection::LowProfit(r) => r.spec_has_local_stop(),
            Protection::MaxDrawdown(r) => r.spec_has_local_stop(),
            Protection::Stoploss(r) => r.spec_has_local_stop(),
            Protection::Custom(r) => r.spec_has_local_stop(),
        }
    }

    open spec fn spec_global_stop(&self, date_now: Timestamp, trades: Seq<TradeView>) -> Option<
        ProtectionReturnView,
    > {
        match self {
            Protection::Cooldown(r) => r.spec_global_stop(date_now, trades),
            Protection::LowProfit(r) => r.spec_global_stop(date_now, trades),
            Protection::MaxDrawdown(r) => r.spec_global_stop(date_now, trades),
            Protection::Stoploss(r) => r.spec_global_stop(date_now, trades),
            Protection::Custom(r) => r.spec_global_stop(date_now, trades),
        }
    }

    open spec fn spec_stop_per_pair(
        &self,
        pair: Seq<char>,
        date_now: Timestamp,
        trades: Seq<TradeView>,
    ) -> Option<ProtectionReturnView> {
        match self {
            Protection::Cooldown(r) => r.spec_stop_per_pair(pair, date_now, trades),
            Protection::LowProfit(r) => r.spec_stop_per_pair(pair, date_now, trades),
            Protection::MaxDrawdown(r) => r.spec_stop_per_pair(pair, date_now, trades),
            Protection::Stoploss(r) => r.spec_stop_per_pair(pair, date_now, trades),
            Protection::Custom(r) => r.spec_stop_per_pair(pair, date_now, trades),
        }
    }

    fn name(&self) -> (r: &str) {
        match self {
            Protection::Cooldown(rule) => rule.name(),
            Protection::LowProfit(rule) => rule.name(),
            Protection::MaxDrawdown(rule) => rule.name(),
            Protection::Stoploss(rule) => rule.name(),
            Protection::Custom(rule) => rule.name(),
        }
    }

    fn short_desc(&self) -> (r: String) {
        match self {
            Protection::Cooldown(rule) => rule.short_desc(),
            Protection::LowProfit(rule) => rule.short_desc(),
            Protection::MaxDrawdown(rule) => rule.short_desc(),
            Protection::Stoploss(rule) => rule.short_desc(),
            Protection::Custom(rule) => rule.short_desc(),
        }
    }

    fn has_global_stop(&self) -> (r: bool) {
        match self {
            Protection::Cooldown(rule) => rule.has_global_stop(),
            Protection::LowProfit(rule) => rule.has_global_stop(),
            Protection::MaxDrawdown(rule) => rule.has_global_stop(),
            Protection::Stoploss(rule) => rule.has_global_stop(),
            Protection::Custom(rule) => rule.has_global_stop(),
        }
    }

    fn has_local_stop(&self) -> (r: bool) {
        match self {
            Protection::Cooldown(rule) => rule.has_local_stop(),
            Protection::LowProfit(rule) => rule.has_local_stop(),
            Protection::MaxDrawdown(rule) => rule.has_local_stop(),
            Protection::Stoploss(rule) => rule.has_local_stop(),
            Protection::Custom(rule) => rule.has_local_stop(),
        }
    }

    fn global_stop(&self, date_now: Timestamp, trades: &Vec<Trade>) -> (r: Option<
        ProtectionReturn,
    >) {
        match self {
            Protection::Cooldown(rule) => rule.global_stop(date_now, trades),
            Protection::LowProfit(rule) => rule.global_stop(date_now, trades),
            Protection::MaxDrawdown(rule) => rule.global_stop(date_now, trades),
            Protection::Stoploss(rule) => rule.global_stop(date_now, trades),
            Protection::Custom(rule) => rule.global_stop(date_now, trades),
        }
    }

    fn stop_per_pair(&self, pair: &str, date_now: Timestamp, trades: &Vec<Trade>) -> (r: Option<
        ProtectionReturn,
    >) {
        match self {
            Protection::Cooldown(rule) => rule.stop_per_pair(pair, date_now, trades),
            Protection::LowProfit(rule) => rule.stop_per_pair(pair, date_now, trades),
            Protection::MaxDrawdown(rule) => rule.stop_per_pair(pair, date_now, trades),
            Protection::Stoploss(rule) => rule.stop_per_pair(pair, date_now, trades),
            Protection::Custom(rule) => rule.stop_per_pair(pair, date_now, trades),
        }
    }
}

/// The stop that follows from a rule's lock: the lock's reason, or the
/// rule's description where the lock has none; the lock's end; the rule's
/// name.
pub open spec fn stop_of(rule: Protection, lock: ProtectionReturnView) -> StopReasonView {
    StopReasonView {
        reason: match lock.reason {
            Some(r) => r,
            None => rule.spec_short_desc(),
        },
        until: lock.until,
        protection: rule.spec_name(),
    }
}

/// Whether a rule's verdict locks trading at `now`: it is there, it is a
/// lock, and its end lies after `now`. A verdict whose end has passed counts
/// as none.
pub open spec fn locks_at(verdict: Option<ProtectionReturnView>, now: Timestamp) -> bool {
    verdict matches Some(l) && l.lock && l.until.millis > now.millis
}

/// The verdict of the pipeline on all trading: that of the first rule, in
/// registration order, that can stop globally and returns a lock.
pub open spec fn first_global_stop(
    rules: Seq<Protection>,
    now: Timestamp,
    trades: Seq<TradeView>,
) -> Option<StopReasonView>
    decreases rules.len(),
{
    if rules.len() == 0 {
        None
    } else {
        let rule = rules.first();
        if rule.spec_has_global_stop() && locks_at(rule.spec_global_stop(now, trades), now) {
            Some(stop_of(rule, rule.spec_global_stop(now, trades)->0))
        } else {
            first_global_stop(rules.drop_first(), now, trades)
        }
    }
}

/// The verdict of the pipeline on one pair, given the trades of that pair:
/// that of the first rule, in registration order, that can stop a pair and
/// returns a lock.
pub open spec fn first_pair_stop(
    rules: Seq<Protection>,
    pair: Seq<char>,
    now: Timestamp,
    trades: Seq<TradeView>,
) -> Option<StopReasonView>
    decreases rules.len(),
{
    if rules.len() == 0 {
        None
    } else {
        let rule = rules.first();
        if rule.spec_has_local_stop() && locks_at(rule.spec_stop_per_pair(pair, now, trades), now) {
            Some(stop_of(rule, rule.spec_stop_per_pair(pair, now, trades)->0))
        } else {
            first_pair_stop(rules.drop_first(), pair, now, trades)
        }
    }
}

/// The trades of one pair, in the order given.
pub open spec fn trades_of_pair(trades: Seq<TradeView>, pair: Seq<char>) -> Seq<TradeView>
    decreases trades.len(),
{
    if trades.len() == 0 {
        Seq::empty()
    } else if trades.last().pair == pair {
        trades_of_pair(trades.drop_last(), pair).push(trades.last())
    } else {
        trades_of_pair(trades.drop_last(), pair)
    }
}

/// The rules without those of the given name, in the order given.
pub open spec fn without_name(rules: Seq<Protection>, name: Seq<char>) -> Seq<Protection>
    decreases rules.len(),
{
    if rules.len() == 0 {
        Seq::empty()
    } else if rules.last().spec_name() == name {
        without_name(rules.drop_last(), name)
    } else {
        without_name(rules.drop_last(), name).push(rules.last())
    }
}

/// Evaluating the pipeline is a function of the rules, the instant and the
/// trade history: histories that hold the same values give the same verdict,
/// for all trading and for every pair.
pub proof fn lemma_evaluation_is_pure(
    rules: Seq<Protection>,
    pair: Seq<char>,
    now: Timestamp,
    history_a: Seq<Trade>,
    history_b: Seq<Trade>,
)
    requires
        trade_views(history_a) == trade_views(history_b),
    ensures
        first_global_stop(rules, now, trade_views(history_a)) == first_global_stop(
            rules,
            now,
            trade_views(history_b),
        ),
        first_pair_stop(rules, pair, now, trades_of_pair(trade_views(history_a), pair))
            == first_pair_stop(rules, pair, now, trades_of_pair(trade_views(history_b), pair)),
{
}

fn active_lock(verdict: Option<ProtectionReturn>, now: Timestamp) -> (r: Option<ProtectionReturn>)
    ensures
        r is Some <==> locks_at(lock_view(verdict), now),
        r is Some ==> r == verdict,
{
    match verdict {
        Some(lock) => {
            if lock.lock && lock.until.millis > now.millis {
                Some(lock)
            } else {
                None
            }
        },
        None => None,
    }
}

fn custom_rule(rule: Box<dyn IProtection>) -> (r: Protection)
    ensures
        r is Custom,
{
    Protection::Custom(rule)
}

/// The ordered list of protection rules.
pub struct RiskManager {
    protections: Vec<Protection>,
}

impl RiskManager {
    /// The rules, in registration order.
    pub closed spec fn rules(&self) -> Seq<Protection> {
        self.protections@
    }

    /// A pipeline without rules.
    pub fn new() -> (r: Self)
        ensures
            r.rules().len() == 0,
    {
        RiskManager { protections: Vec::new() }
    }

    /// The pipeline a coordinator starts with: a cooldown of an hour after
    /// two losses within a day, then a stop of an hour when the drawdown of
    /// the day exceeds twenty percent.
    pub fn with_default_protections() -> (r: Self)
        ensures
            r.rules() == seq![
                Protection::Cooldown(
                    CooldownPeriod::spec_new(
                        CooldownPeriodConfig {
                            stop_duration: 60,
                            lookback_period: 1440,
                            stop_after_losses: 2,
                        },
                    ),
                ),
                Protection::MaxDrawdown(
                    MaxDrawdownProtection::spec_new(
                        MaxDrawdownProtectionConfig {
                            max_allowed_drawdown: Decimal::spec_new(20, 0),
                            lookback_period: 1440,
                            stop_duration: 60,
                        },
                    ),
                ),
            ],
    {
        let mut manager = RiskManager::new();
        let cooldown = CooldownPeriod::new(
            CooldownPeriodConfig { stop_duration: 60, lookback_period: 1440, stop_after_losses: 2 },
        );
        let drawdown = MaxDrawdownProtection::new(
            MaxDrawdownProtectionConfig {
                max_allowed_drawdown: Decimal::from_i64(20),
                lookback_period: 1440,
                stop_duration: 60,
            },
        );
        manager.add_rule(Protection::Cooldown(cooldown));
        manager.add_rule(Protection::MaxDrawdown(drawdown));
        assert(manager.rules() =~= seq![
            Protection::Cooldown(cooldown),
            Protection::MaxDrawdown(drawdown),
        ]);
        manager
    }

    /// Registers a rule behind those already registered.
    pub fn add_rule(&mut self, rule: Protection)
        ensures
            final(self).rules() == old(self).rules().push(rule),
    {
        self.protections.push(rule);
    }

    /// Registers a rule of the user's own behind those already registered.
    /// The rules registered before stay as they are, in their order.
    pub fn add_protection(&mut self, protection: Box<dyn IProtection>)
        ensures
            final(self).rules().len() == old(self).rules().len() + 1,
            final(self).rules().last() is Custom,
            forall|i: int|
                0 <= i < old(self).rules().len() ==> final(self).rules()[i] == old(self).rules()[i],
    {
        let rule = custom_rule(protection);
        self.add_rule(rule);
    }

    /// Removes every rule of the given name and says whether there was one.
    pub fn remove_protection(&mut self, name: &str) -> (removed: bool)
        ensures
            final(self).rules() == without_name(old(self).rules(), name@),
            removed == (final(self).rules().len() < old(self).rules().len()),
    {
        let ghost before = self.protections@;
        let ghost mut k: int = 0;
        let mut i: usize = 0;
        let mut removed: bool = false;
        while i < self.protections.len()
            invariant
                0 <= i <= k <= before.len(),
                i <= self.protections.len(),
                self.protections.len() - i == before.len() - k,
                self.protections@.take(i as int) == without_name(before.take(k), name@),
                self.protections@.skip(i as int) == before.skip(k),
                removed == (i < k),
            decreases self.protections.len() - i,
        {
            let ghost current = self.protections@;
            proof {
                assert(before.skip(k)[0] == before[k]);
                assert(before.take(k + 1).drop_last() =~= before.take(k));
            }
            let matches_name: bool = same_text(self.protections[i].name(), name);
            if matches_name {
                self.protections.remove(i);
                removed = true;
                proof {
                    assert(current.skip(i as int).skip(1) =~= before.skip(k + 1));
                    k = k + 1;
                }
            } else {
                proof {
                    assert(before.skip(k + 1) =~= before.skip(k).skip(1));
                    k = k + 1;
                }
                i = i + 1;
            }
        }
        proof {
            assert(before.take(k) =~= before);
        }
        removed
    }

    /// The names of the rules, in registration order.
    pub fn list_protections(&self) -> (names: Vec<String>)
        ensures
            names@.len() == self.rules().len(),
            forall|i: int| 0 <= i < names@.len() ==> names@[i]@ == self.rules()[i].spec_name(),
    {
        let mut names: Vec<String> = Vec::new();
        let mut i: usize = 0;
        while i < self.protections.len()
            invariant
                i <= self.protections.len(),
                names@.len() == i,
                forall|j: int| 0 <= j < i ==> names@[j]@ == self.protections@[j].spec_name(),
            decreases self.protections.len() - i,
        {
            let name = self.protections[i].name();
            names.push(name.to_owned());
            i = i + 1;
        }
        names
    }

    /// Asks the rules, in registration order, whether all trading must
    /// stop, given the instant and the whole trade history. The first lock
    /// wins.
    pub fn check_global_stop(&self, date_now: Timestamp, all_trades: &Vec<Trade>) -> (r: Option<
        StopReason,
    >)
        ensures
            stop_view(r) == first_global_stop(self.rules(), date_now, trade_views(all_trades@)),
    {
        let ghost views = trade_views(all_trades@);
        let mut i: usize = 0;
        proof {
            assert(self.protections@.skip(0) =~= self.protections@);
        }
        while i < self.protections.len()
            invariant
                i <= self.protections.len(),
                views == trade_views(all_trades@),
                first_global_stop(self.protections@, date_now, views) == first_global_stop(
                    self.protections@.skip(i as int),
                    date_now,
                    views,
                ),
            decreases self.protections.len() - i,
        {
            let rule = &self.protections[i];
            proof {
                assert(self.protections@.skip(i as int).drop_first() =~= self.protections@.skip(
                    i + 1,
                ));
            }
            if rule.has_global_stop() {
                let verdict = rule.global_stop(date_now, all_trades);
                if let Some(lock) = active_lock(verdict, date_now) {
                    let reason = match lock.reason {
                        Some(text) => text,
                        None => rule.short_desc(),
                    };
                    return Some(
                        StopReason {
                            reason,
                            until: lock.until,
                            protection: rule.name().to_owned(),
                        },
                    );
                }
            }
            i = i + 1;
        }
        None
    }

    /// Asks the rules, in registration order, whether one pair must stop,
    /// given the instant and the whole trade history, of which each rule
    /// sees the trades of that pair. The first lock wins.
    pub fn check_pair_stop(&self, pair: &str, date_now: Timestamp, all_trades: &Vec<Trade>) -> (r:
        Option<StopReason>)
        ensures
            stop_view(r) == first_pair_stop(
                self.rules(),
                pair@,
                date_now,
                trades_of_pair(trade_views(all_trades@), pair@),
            ),
    {
        let pair_trades = select_pair(all_trades, pair);
        let ghost views = trade_views(pair_trades@);
        let mut i: usize = 0;
        proof {
            assert(self.protections@.skip(0) =~= self.protections@);
        }
        while i < self.protections.len()
            invariant
                i <= self.protections.len(),
                views == trade_views(pair_trades@),
                views == trades_of_pair(trade_views(all_trades@), pair@),
                first_pair_stop(self.protections@, pair@, date_now, views) == first_pair_stop(
                    self.protections@.skip(i as int),
                    pair@,
                    date_now,
                    views,
                ),
            decreases self.protections.len() - i,
        {
            let rule = &self.protections[i];
            proof {
                assert(self.protections@.skip(i as int).drop_first() =~= self.protections@.skip(
                    i + 1,
                ));
            }
            if rule.has_local_stop() {
                let verdict = rule.stop_per_pair(pair, date_now, &pair_trades);
                if let Some(lock) = active_lock(verdict, date_now) {
                    let reason = match lock.reason {
                        Some(text) => text,
                        None => rule.short_desc(),
                    };
                    return Some(
                        StopReason {
                            reason,
                            until: lock.until,
                            protection: rule.name().to_owned(),
                        },
                    );
                }
            }
            i = i + 1;
        }
        None
    }
}

/// The trades of one pair, in the order given.
pub fn select_pair(trades: &Vec<Trade>, pair: &str) -> (r: Vec<Trade>)
    ensures
        trade_views(r@) == trades_of_pair(trade_views(trades@), pair@),
{
    let mut out: Vec<Trade> = Vec::new();
    let mut i: usize = 0;
    let ghost views = trade_views(trades@);
    while i < trades.len()
        invariant
            i <= trades.len(),
            views == trade_views(trades@),
            trade_views(out@) == trades_of_pair(views.take(i as int), pair@),
        decreases trades.len() - i,
    {
        proof {
            assert(views.take(i + 1).drop_last() =~= views.take(i as int));
        }
        if same_text(trades[i].pair.as_str(), pair) {
            let copy = trades[i].clone();
            out.push(copy);
        }
        i = i + 1;
    }
    proof {
        assert(views.take(i as int) =~= views);
    }
    out
}

} // verus!
