//! What a protection rule is, and the lock it returns.

use crate::time::{clip_i64, Timestamp};
use crate::types::{Trade, TradeView};
use vstd::prelude::*;
use vstd::string::*;

verus! {

/// The verdict of a protection rule: whether trading is locked, until when,
/// why, and for which side (`*` for both).
#[derive(Debug, Clone, PartialEq)]
pub struct ProtectionReturn {
    pub lock: bool,
    pub until: Timestamp,
    pub reason: Option<String>,
    pub lock_side: String,
}

/// What a [`ProtectionReturn`] holds, as plain values.
pub struct ProtectionReturnView {
    pub lock: bool,
    pub until: Timestamp,
    pub reason: Option<Seq<char>>,
    pub lock_side: Seq<char>,
}

impl View for ProtectionReturn {
    type V = ProtectionReturnView;

    open spec fn view(&self) -> ProtectionReturnView {
        ProtectionReturnView {
            lock: self.lock,
            until: self.until,
            reason: match self.reason {
                Some(s) => Some(s@),
                None => None,
            },
            lock_side: self.lock_side@,
        }
    }
}

/// The view of an optional lock.
pub open spec fn lock_view(r: Option<ProtectionReturn>) -> Option<ProtectionReturnView> {
    match r {
        Some(l) => Some(l@),
        None => None,
    }
}

/// The views of a sequence of trades, in the same order.
pub open spec fn trade_views(trades: Seq<Trade>) -> Seq<TradeView> {
    Seq::new(trades.len(), |i: int| trades[i]@)
}

/// The side of a lock that holds for both directions.
pub fn default_lock_side() -> (r: String)
    ensures
        r@ == "*"@,
{
    String::from_str("*")
}

impl ProtectionReturn {
    /// A verdict that locks nothing, as of `now`.
    pub fn unlocked(now: Timestamp) -> (r: ProtectionReturn)
        ensures
            r@ == (ProtectionReturnView { lock: false, until: now, reason: None, lock_side: "*"@ }),
    {
        ProtectionReturn { lock: false, until: now, reason: None, lock_side: default_lock_side() }
    }

    /// Whether the verdict still locks trading at `now`: it is a lock and
    /// its end lies after `now`. A lock whose end has passed counts as none.
    pub open spec fn active_at(self, now: Timestamp) -> bool {
        self.lock && self.until.millis > now.millis
    }

    /// Whether the verdict still locks trading at `now`.
    pub fn is_active_at(&self, now: Timestamp) -> (r: bool)
        ensures
            r == self.active_at(now),
    {
        self.lock && self.until.millis > now.millis
    }
}

/// A lock as the store may keep it.
#[derive(Debug, Clone, PartialEq)]
pub struct ProtectionLock {
    pub id: i64,
    pub pair: String,
    pub protection_name: String,
    pub lock_until: Timestamp,
    pub reason: Option<String>,
    pub created_at: Timestamp,
}

/// The end of a lock of `stop_minutes` minutes that starts at `now`, brought
/// into the range of representable instants.
pub open spec fn lock_until(now: Timestamp, stop_minutes: int) -> Timestamp {
    Timestamp { millis: clip_i64(now.millis + stop_minutes * 60_000) as i64 }
}

/// The lock a rule emits at `now` for `stop_minutes` minutes with the given
/// reason: a lock on both sides, or none where its end would not lie after
/// `now`.
pub open spec fn lock_of(now: Timestamp, stop_minutes: int, reason: Seq<char>) -> Option<
    ProtectionReturnView,
> {
    if lock_until(now, stop_minutes).millis > now.millis {
        Some(
            ProtectionReturnView {
                lock: true,
                until: lock_until(now, stop_minutes),
                reason: Some(reason),
                lock_side: "*"@,
            },
        )
    } else {
        None
    }
}

/// The lock a rule emits at `now` for `stop_minutes` minutes; none where its
/// end would not lie after `now`.
pub fn make_lock(now: Timestamp, stop_minutes: i64, reason: String) -> (r: Option<
    ProtectionReturn,
>)
    ensures
        lock_view(r) == lock_of(now, stop_minutes as int, reason@),
        r matches Some(l) ==> l.lock && l.until.millis > now.millis,
{
    let until = now.plus_minutes_clipped(stop_minutes);
    if until.millis > now.millis {
        Some(
            ProtectionReturn {
                lock: true,
                until,
                reason: Some(reason),
                lock_side: default_lock_side(),
            },
        )
    } else {
        None
    }
}

/// A protection rule. Both checks are functions of the rule's settings, the
/// instant and the trades handed in, and nothing else; a lock that a rule
/// returns ends after the instant it was asked at.
///
/// The `spec_` functions say what the rule answers. A rule that does not
/// define them is taken to answer by some function of itself and its inputs:
/// the pipeline then relies on the rule being pure, which nothing checks.
pub trait IProtection: Send + Sync {
    /// The name of the rule.
    open spec fn spec_name(&self) -> Seq<char> {
        arbitrary::<spec_fn(&Self) -> Seq<char>>()(self)
    }

    /// A one-line description of the rule and its settings.
    open spec fn spec_short_desc(&self) -> Seq<char> {
        arbitrary::<spec_fn(&Self) -> Seq<char>>()(self)
    }

    /// Whether the rule can stop all trading.
    open spec fn spec_has_global_stop(&self) -> bool {
        arbitrary::<spec_fn(&Self) -> bool>()(self)
    }

    /// Whether the rule can stop one pair.
    open spec fn spec_has_local_stop(&self) -> bool {
        arbitrary::<spec_fn(&Self) -> bool>()(self)
    }

    /// The verdict of the rule on all trading.
    open spec fn spec_global_stop(&self, date_now: Timestamp, trades: Seq<TradeView>) -> Option<
        ProtectionReturnView,
    > {
        arbitrary::<spec_fn(&Self, Timestamp, Seq<TradeView>) -> Option<ProtectionReturnView>>()(
            self,
            date_now,
            trades,
        )
    }

    /// The verdict of the rule on one pair, given the trades of that pair.
    open spec fn spec_stop_per_pair(
        &self,
        pair: Seq<char>,
        date_now: Timestamp,
        trades: Seq<TradeView>,
    ) -> Option<ProtectionReturnView> {
        arbitrary::<
            spec_fn(&Self, Seq<char>, Timestamp, Seq<TradeView>) -> Option<ProtectionReturnView>,
        >()(self, pair, date_now, trades)
    }

    /// The name of the rule.
    fn name(&self) -> (r: &str)
        ensures
            r@ == self.spec_name(),
    ;

    /// A one-line description of the rule and its settings.
    fn short_desc(&self) -> (r: String)
        ensures
            r@ == self.spec_short_desc(),
    ;

    /// Whether the rule can stop all trading.
    fn has_global_stop(&self) -> (r: bool)
        ensures
            r == self.spec_has_global_stop(),
    ;

    /// Whether the rule can stop one pair.
    fn has_local_stop(&self) -> (r: bool)
        ensures
            r == self.spec_has_local_stop(),
    ;

    /// Checks all trading: `Some` lock to stop it, `None` to let it go on.
    fn global_stop(&self, date_now: Timestamp, trades: &Vec<Trade>) -> (r: Option<
        ProtectionReturn,
    >)
        ensures
            lock_view(r) == self.spec_global_stop(date_now, trade_views(trades@)),
            r matches Some(l) ==> (l.lock ==> l.until.millis > date_now.millis),
    ;

    /// Checks one pair, given its trades: `Some` lock to stop it, `None` to
    /// let it go on.
    fn stop_per_pair(&self, pair: &str, date_now: Timestamp, trades: &Vec<Trade>) -> (r: Option<
        ProtectionReturn,
    >)
        ensures
            lock_view(r) == self.spec_stop_per_pair(pair@, date_now, trade_views(trades@)),
            r matches Some(l) ==> (l.lock ==> l.until.millis > date_now.millis),
    ;
}

} // verus!
