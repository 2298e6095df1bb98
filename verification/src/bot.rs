//! The trading coordinator's decisions: the lifecycle of its status, what one
//! turn of its loop does, and what one iteration does for one pair. The
//! decisions are functions of what was observed; fetching candles, asking the
//! strategy, submitting orders and writing to the store are the caller's part.

use crate::decimal::{decimal_difference, decimal_product, decimal_quotient, Decimal};
use crate::error::AppError;
use crate::persistence::ledger::{created, ledger_wf, open_trades_of, updated};
use crate::persistence::repository::Repository;
use crate::exchange::traits::Exchange;
use crate::strategy::traits::Strategy;
use crate::config::BotConfig;
use crate::risk::manager::{first_global_stop, first_pair_stop, stop_view, trades_of_pair, Protection, RiskManager, StopReason, StopReasonView};
use crate::risk::cooldown::{
    cooldown_verdict, lemma_two_recent_losses_are_counted, recent_loss, recent_loss_count, CooldownPeriodConfig,
};
use crate::risk::protection::{lock_until, trade_views, IProtection};
use crate::text::{is_space, is_whitespace, join2, same_text, trim, trimmed};
use crate::time::Timestamp;
use crate::types::{BotStatus, ExitType, Order, OrderRequest, OrderRequestView, OrderType, OHLCV, Timeframe, Trade, TradeSide, TradeView};
use vstd::prelude::*;
use vstd::string::*;

verus! {

/// How many candles one iteration asks of the venue for a pair.
pub const CANDLE_WINDOW: usize = 500;

/// How long the loop waits, in milliseconds, before it looks again while
/// paused or when it does not wait for a new candle.
pub const POLL_MILLIS: u64 = 1000;

impl BotStatus {
    /// The transitions of the lifecycle: a stopped coordinator can start;
    /// a running one can pause, stop or fail; a paused one can resume or
    /// stop; a failed one stays failed.
    pub open spec fn admits(self, next: BotStatus) -> bool {
        match self {
            BotStatus::Stopped => next == BotStatus::Running,
            BotStatus::Running => next == BotStatus::Paused || next == BotStatus::Stopped || next
                == BotStatus::Error,
            BotStatus::Paused => next == BotStatus::Running || next == BotStatus::Stopped,
            BotStatus::Error => false,
        }
    }

    /// Whether the lifecycle has the transition from `self` to `next`.
    pub fn can_become(&self, next: BotStatus) -> (r: bool)
        ensures
            r == self.admits(next),
    {
        match self {
            BotStatus::Stopped => match next {
                BotStatus::Running => true,
                _ => false,
            },
            BotStatus::Running => match next {
                BotStatus::Running => false,
                _ => true,
            },
            BotStatus::Paused => match next {
                BotStatus::Running => true,
                BotStatus::Stopped => true,
                _ => false,
            },
            BotStatus::Error => false,
        }
    }
}

/// The status after a request to start: running, from stopped. In any other
/// status the request fails and the status stays.
pub fn start(status: BotStatus) -> (r: Result<BotStatus, AppError>)
    ensures
        status == BotStatus::Stopped ==> r == Ok::<BotStatus, AppError>(BotStatus::Running),
        status != BotStatus::Stopped ==> (r matches Err(AppError::Bot(m)) && m@
            == "Bot is already running"@),
{
    match status {
        BotStatus::Stopped => Ok(BotStatus::Running),
        _ => Err(AppError::Bot(String::from_str("Bot is already running"))),
    }
}

/// The status after a request to stop: stopped, from running or paused;
/// otherwise unchanged.
pub fn stop(status: BotStatus) -> (r: BotStatus)
    ensures
        r == if status.admits(BotStatus::Stopped) {
            BotStatus::Stopped
        } else {
            status
        },
        r == status || status.admits(r),
{
    match status {
        BotStatus::Running => BotStatus::Stopped,
        BotStatus::Paused => BotStatus::Stopped,
        _ => status,
    }
}

/// The status after a request to pause: paused, from running; otherwise
/// unchanged.
pub fn pause(status: BotStatus) -> (r: BotStatus)
    ensures
        r == if status.admits(BotStatus::Paused) {
            BotStatus::Paused
        } else {
            status
        },
        r == status || status.admits(r),
{
    match status {
        BotStatus::Running => BotStatus::Paused,
        _ => status,
    }
}

/// The status after a request to resume: running, from paused; otherwise
/// unchanged.
pub fn resume(status: BotStatus) -> (r: BotStatus)
    ensures
        r == if status == BotStatus::Paused {
            BotStatus::Running
        } else {
            status
        },
        r == status || status.admits(r),
{
    match status {
        BotStatus::Paused => BotStatus::Running,
        _ => status,
    }
}

/// What one turn of the loop does.
#[derive(Debug, Clone, Copy, PartialEq, Eq, Structural)]
pub enum LoopAction {
    /// Leave the loop.
    Leave,
    /// Wait this many milliseconds and look at the status again.
    Wait(u64),
    /// Check the global protections, then process every pair.
    Iterate,
}

/// What a turn of the loop does in a given status: iterate while running,
/// wait while paused, leave when stopped or failed.
pub fn loop_action(status: BotStatus) -> (r: LoopAction)
    ensures
        r == match status {
            BotStatus::Running => LoopAction::Iterate,
            BotStatus::Paused => LoopAction::Wait(POLL_MILLIS),
            BotStatus::Stopped => LoopAction::Leave,
            BotStatus::Error => LoopAction::Leave,
        },
{
    match status {
        BotStatus::Running => LoopAction::Iterate,
        BotStatus::Paused => LoopAction::Wait(POLL_MILLIS),
        BotStatus::Stopped => LoopAction::Leave,
        BotStatus::Error => LoopAction::Leave,
    }
}

/// The status of a running coordinator after the global protections were
/// asked: stopped where one of them locks trading, running otherwise. A veto
/// is no failure.
pub fn status_after_global_check(stop: &Option<StopReason>) -> (r: BotStatus)
    ensures
        r == if stop is Some {
            BotStatus::Stopped
        } else {
            BotStatus::Running
        },
        BotStatus::Running == r || BotStatus::Running.admits(r),
{
    match stop {
        Some(_) => BotStatus::Stopped,
        None => BotStatus::Running,
    }
}

/// The status of a running coordinator after all pairs were processed:
/// failed where the iteration as a whole failed, running otherwise.
pub fn status_after_iteration(outcome: &Result<(), AppError>) -> (r: BotStatus)
    ensures
        r == if outcome is Err {
            BotStatus::Error
        } else {
            BotStatus::Running
        },
        BotStatus::Running == r || BotStatus::Running.admits(r),
{
    match outcome {
        Ok(_) => BotStatus::Running,
        Err(_) => BotStatus::Error,
    }
}

/// The timeframe an iteration works on. Fails with `InvalidInput` for a text
/// that is none of the fifteen tags: no other timeframe takes its place.
pub fn cycle_timeframe(timeframe: &str) -> (r: Result<Timeframe, AppError>)
    ensures
        match Timeframe::spec_parse(timeframe@) {
            Some(tf) => (r matches Ok(t) && t == tf),
            None => (r matches Err(AppError::InvalidInput(m)) && m@ == "Invalid timeframe: "@
                + timeframe@),
        },
{
    match Timeframe::parse(timeframe) {
        Some(tf) => Ok(tf),
        None => Err(AppError::InvalidInput(join2("Invalid timeframe: ", timeframe))),
    }
}

/// How long the loop sleeps after an iteration, in milliseconds: one candle
/// width where only new candles are processed, a short poll otherwise.
pub fn sleep_millis(process_only_new_candles: bool, timeframe: Timeframe) -> (r: u64)
    ensures
        r == if process_only_new_candles {
            timeframe.spec_millis()
        } else {
            POLL_MILLIS as int
        },
{
    if process_only_new_candles {
        timeframe.millis() as u64
    } else {
        POLL_MILLIS
    }
}

/// Whether a text can name a pair: it is not empty and holds no white
/// space.
pub open spec fn valid_pair(pair: Seq<char>) -> bool {
    pair.len() > 0 && forall|i: int| 0 <= i < pair.len() ==> !is_space(#[trigger] pair[i])
}

/// The name of a configured pair, without the white space around it. Fails
/// with a `Config` error where what is left is empty or holds white space.
pub fn normalize_pair(raw: &str) -> (r: Result<String, AppError>)
    ensures
        r is Ok <==> valid_pair(trimmed(raw@)),
        r matches Ok(pair) ==> pair@ == trimmed(raw@),
        r matches Err(e) ==> (e matches AppError::Config(m) && m@ == "Invalid trading pair: "@
            + trimmed(raw@)),
{
    let pair = trim(raw);
    let n: usize = pair.as_str().unicode_len();
    let mut clean: bool = n > 0;
    let mut i: usize = 0;
    while i < n
        invariant
            n == pair@.len(),
            i <= n,
            clean == (n > 0 && forall|k: int| 0 <= k < i ==> !is_space(#[trigger] pair@[k])),
        decreases n - i,
    {
        if is_whitespace(pair.as_str().get_char(i)) {
            clean = false;
        }
        i = i + 1;
    }
    if clean {
        Ok(pair)
    } else {
        Err(AppError::Config(join2("Invalid trading pair: ", pair.as_str())))
    }
}

/// The names of the configured pairs, each without the white space around
/// it. Fails with a `Config` error where no pair is configured, and where
/// one of them is no valid name: the iteration as a whole then fails.
pub fn normalize_pairs(pairs: &Vec<String>) -> (r: Result<Vec<String>, AppError>)
    ensures
        r matches Err(e) ==> e is Config,
        pairs@.len() == 0 ==> (r matches Err(AppError::Config(m)) && m@
            == "No trading_pairs configured"@),
        pairs@.len() > 0 ==> (r is Ok <==> forall|i: int|
            0 <= i < pairs@.len() ==> valid_pair(trimmed((#[trigger] pairs@[i])@))),
        r matches Ok(names) ==> names@.len() == pairs@.len() && forall|i: int|
            0 <= i < names@.len() ==> (#[trigger] names@[i])@ == trimmed(pairs@[i]@),
{
    if pairs.len() == 0 {
        return Err(AppError::Config(String::from_str("No trading_pairs configured")));
    }
    let mut names: Vec<String> = Vec::new();
    let mut i: usize = 0;
    while i < pairs.len()
        invariant
            i <= pairs.len(),
            names@.len() == i,
            forall|k: int| 0 <= k < i ==> valid_pair(trimmed((#[trigger] pairs@[k])@)),
            forall|k: int| 0 <= k < i ==> (#[trigger] names@[k])@ == trimmed(pairs@[k]@),
        decreases pairs.len() - i,
    {
        match normalize_pair(pairs[i].as_str()) {
            Ok(name) => {
                names.push(name);
            },
            Err(e) => {
                return Err(e);
            },
        }
        i = i + 1;
    }
    Ok(names)
}

/// How many trades stand before the first one of the given pair; the number
/// of trades where there is none.
pub open spec fn position_of_pair(trades: Seq<TradeView>, pair: Seq<char>) -> int
    decreases trades.len(),
{
    if trades.len() == 0 {
        0
    } else if trades.first().pair == pair {
        0
    } else {
        1 + position_of_pair(trades.drop_first(), pair)
    }
}

/// Whether one of the trades is of the given pair.
pub open spec fn has_trade_of(trades: Seq<TradeView>, pair: Seq<char>) -> bool {
    position_of_pair(trades, pair) < trades.len()
}

/// The first of the open trades that is of the given pair.
pub fn find_open_trade(open_trades: &Vec<Trade>, pair: &str) -> (r: Option<usize>)
    ensures
        r is Some <==> has_trade_of(crate::risk::protection::trade_views(open_trades@), pair@),
        r matches Some(i) ==> i == position_of_pair(
            crate::risk::protection::trade_views(open_trades@),
            pair@,
        ) && i < open_trades.len() && open_trades[i as int].pair@ == pair@,
{
    let ghost views = crate::risk::protection::trade_views(open_trades@);
    let mut i: usize = 0;
    proof {
        assert(views.skip(0) =~= views);
    }
    while i < open_trades.len()
        invariant
            i <= open_trades.len(),
            views == crate::risk::protection::trade_views(open_trades@),
            position_of_pair(views, pair@) == i + position_of_pair(views.skip(i as int), pair@),
        decreases open_trades.len() - i,
    {
        proof {
            assert(views.skip(i as int).drop_first() =~= views.skip(i + 1));
        }
        if same_text(open_trades[i].pair.as_str(), pair) {
            return Some(i);
        }
        i = i + 1;
    }
    None
}

/// What one iteration intends for a pair, from the open trades and the
/// signals of the strategy on the candle window.
#[derive(Debug, Clone, Copy, PartialEq, Eq)]
pub struct PairPlan {
    /// The open trade to close: the first one of the pair, where there is a
    /// sell signal.
    pub exit_trade: Option<usize>,
    /// Whether an entry is to be considered: there is a buy signal, the pair
    /// has no open trade, and the number of open trades is below the cap.
    pub consider_entry: bool,
}

/// The open trade that an iteration closes: the first one of the pair,
/// where the strategy gave a sell signal.
pub open spec fn planned_exit(open_trades: Seq<TradeView>, pair: Seq<char>, sell_signals: nat) -> Option<
    usize,
> {
    if sell_signals > 0 && has_trade_of(open_trades, pair) {
        Some(position_of_pair(open_trades, pair) as usize)
    } else {
        None
    }
}

/// Whether an iteration considers an entry.
pub open spec fn planned_entry(
    max_open_trades: nat,
    open_trades: Seq<TradeView>,
    pair: Seq<char>,
    buy_signals: nat,
) -> bool {
    open_trades.len() < max_open_trades && buy_signals > 0 && !has_trade_of(open_trades, pair)
}

/// Whether the strategy is asked for buy signals at all: only while the
/// number of open trades is below the cap.
pub fn wants_buy_signals(max_open_trades: usize, open_trades: &Vec<Trade>) -> (r: bool)
    ensures
        r == (open_trades@.len() < max_open_trades),
{
    open_trades.len() < max_open_trades
}

/// The open trade that an iteration closes, given how many sell signals the
/// strategy gave on the candle window: the first open trade of the pair where
/// there is a signal, none otherwise.
pub fn plan_exit(pair: &str, open_trades: &Vec<Trade>, sell_signals: usize) -> (r: Option<usize>)
    ensures
        r == planned_exit(crate::risk::protection::trade_views(open_trades@), pair@, sell_signals as nat),
        r matches Some(i) ==> i == position_of_pair(
            crate::risk::protection::trade_views(open_trades@),
            pair@,
        ) && i < open_trades.len() && open_trades[i as int].pair@ == pair@,
{
    if sell_signals > 0 {
        find_open_trade(open_trades, pair)
    } else {
        None
    }
}

/// Whether an iteration considers an entry, given how many buy signals the
/// strategy gave on the candle window: the number of open trades is below the
/// cap, there is a signal, and no trade of the pair is open.
pub fn plan_entry(max_open_trades: usize, pair: &str, open_trades: &Vec<Trade>, buy_signals: usize) -> (r:
    bool)
    ensures
        r == planned_entry(
            max_open_trades as nat,
            crate::risk::protection::trade_views(open_trades@),
            pair@,
            buy_signals as nat,
        ),
{
    wants_buy_signals(max_open_trades, open_trades) && buy_signals > 0 && find_open_trade(
        open_trades,
        pair,
    ).is_none()
}

/// What one iteration intends for a pair. The exit side is decided first,
/// and a pair is either exited or entered, never both: where a trade of the
/// pair is open, no entry is considered.
pub fn plan_pair(
    max_open_trades: usize,
    pair: &str,
    open_trades: &Vec<Trade>,
    sell_signals: usize,
    buy_signals: usize,
) -> (r: PairPlan)
    ensures
        r.exit_trade == planned_exit(
            crate::risk::protection::trade_views(open_trades@),
            pair@,
            sell_signals as nat,
        ),
        r.consider_entry == planned_entry(
            max_open_trades as nat,
            crate::risk::protection::trade_views(open_trades@),
            pair@,
            buy_signals as nat,
        ),
        !(r.exit_trade is Some && r.consider_entry),
        r.exit_trade matches Some(i) ==> i < open_trades.len() && open_trades[i as int].pair@
            == pair@,
{
    let exit_trade = plan_exit(pair, open_trades, sell_signals);
    let consider_entry = plan_entry(max_open_trades, pair, open_trades, buy_signals);
    PairPlan { exit_trade, consider_entry }
}

/// Exit wins: an iteration that closes a trade of a pair does not consider
/// an entry for that pair, whatever the buy signals and the cap.
pub proof fn lemma_exit_wins(
    max_open_trades: nat,
    open_trades: Seq<TradeView>,
    pair: Seq<char>,
    sell_signals: nat,
    buy_signals: nat,
)
    ensures
        planned_exit(open_trades, pair, sell_signals) is Some ==> !planned_entry(
            max_open_trades,
            open_trades,
            pair,
            buy_signals,
        ),
{
}

/// What to do about a planned exit.
#[derive(Debug, Clone, PartialEq)]
pub enum ExitAction {
    /// The pair is locked: the iteration ends for this pair.
    Vetoed,
    /// A dry run: the intent is logged, nothing is submitted and the trade
    /// stays as it is.
    LogOnly,
    /// Submit this order, then close the trade with what the venue reports.
    Submit(OrderRequest),
}

/// A market order for the whole amount of a trade.
pub open spec fn market_order(pair: Seq<char>, side: TradeSide, amount: Decimal) -> OrderRequestView {
    OrderRequestView { symbol: pair, side, order_type: OrderType::Market, amount, price: None }
}

/// What to do about a planned exit: nothing where the pair is locked, a log
/// line in a dry run, else a market sell for the whole amount of the trade.
pub fn exit_action(dry_run: bool, pair: &str, trade: &Trade, pair_stop: &Option<StopReason>) -> (r:
    ExitAction)
    ensures
        pair_stop is Some ==> r is Vetoed,
        pair_stop is None && dry_run ==> r is LogOnly,
        pair_stop is None && !dry_run ==> (r matches ExitAction::Submit(req) && req@
            == market_order(pair@, TradeSide::Sell, trade.amount)),
{
    if pair_stop.is_some() {
        ExitAction::Vetoed
    } else if dry_run {
        ExitAction::LogOnly
    } else {
        ExitAction::Submit(
            OrderRequest {
                symbol: pair.to_owned(),
                side: TradeSide::Sell,
                order_type: OrderType::Market,
                amount: trade.amount,
                price: None,
            },
        )
    }
}

/// The price at which an order counts as executed: the price the venue
/// reports, else the close of the last candle of the window.
pub open spec fn execution_price(order_price: Option<Decimal>, klines: Seq<OHLCV>) -> Option<
    Decimal,
> {
    match order_price {
        Some(p) => Some(p),
        None => if klines.len() > 0 {
            Some(klines.last().close)
        } else {
            None
        },
    }
}

/// The price at which an order counts as executed: the price the venue
/// reports, else the close of the last candle. Fails with `InvalidInput`
/// where there is neither.
pub fn closing_price(order_price: Option<Decimal>, klines: &Vec<OHLCV>) -> (r: Result<
    Decimal,
    AppError,
>)
    ensures
        r is Ok <==> execution_price(order_price, klines@) is Some,
        r matches Ok(p) ==> Some(p) == execution_price(order_price, klines@),
        r matches Err(e) ==> e matches AppError::InvalidInput(m) && m@
            == "No klines data available"@,
{
    match order_price {
        Some(p) => Ok(p),
        None => {
            if klines.len() > 0 {
                Ok(klines[klines.len() - 1].close)
            } else {
                Err(AppError::InvalidInput(String::from_str("No klines data available")))
            }
        },
    }
}

/// The absolute profit of a close: `(close_rate - open_rate) * amount`.
pub open spec fn profit_abs_of(open_rate: Decimal, close_rate: Decimal, amount: Decimal) -> Option<
    Decimal,
> {
    match decimal_difference(close_rate, open_rate) {
        Some(gain) => decimal_product(gain, amount),
        None => None,
    }
}

/// The profit ratio of a close: `(close_rate - open_rate) / open_rate`.
pub open spec fn profit_ratio_of(open_rate: Decimal, close_rate: Decimal) -> Option<Decimal> {
    match decimal_difference(close_rate, open_rate) {
        Some(gain) => decimal_quotient(gain, open_rate),
        None => None,
    }
}

/// A trade closed by a signal at `close_rate` and at the instant `now`:
/// no longer open, with the close rate, the close date, the exit reason and
/// both profits set, and everything else as it was. `None` where a profit
/// cannot be computed.
pub open spec fn closed_by_signal(t: TradeView, close_rate: Decimal, now: Timestamp) -> Option<
    TradeView,
> {
    match (
        profit_abs_of(t.open_rate, close_rate, t.amount),
        profit_ratio_of(t.open_rate, close_rate),
    ) {
        (Some(profit_abs), Some(profit_ratio)) => Some(
            TradeView {
                is_open: false,
                close_rate: Some(close_rate),
                close_date: Some(now),
                exit_reason: Some(ExitType::Signal),
                profit_abs: Some(profit_abs),
                profit_ratio: Some(profit_ratio),
                ..t
            },
        ),
        _ => None,
    }
}

/// Closes a trade by a signal at `close_rate` and at the instant `now`.
/// Fails with a `Decimal` error where a profit cannot be computed: on
/// overflow, or for an open rate of zero.
pub fn close_trade(trade: &Trade, close_rate: Decimal, now: Timestamp) -> (r: Result<
    Trade,
    AppError,
>)
    ensures
        r is Ok <==> closed_by_signal(trade@, close_rate, now) is Some,
        r matches Ok(t) ==> Some(t@) == closed_by_signal(trade@, close_rate, now) && !t.is_open
            && t@.lifecycle_consistent(),
        r matches Err(e) ==> e is Decimal,
{
    let gain = match close_rate.checked_sub(trade.open_rate) {
        Some(g) => g,
        None => {
            return Err(AppError::Decimal(String::from_str("profit cannot be computed")));
        },
    };
    let profit_abs = match gain.checked_mul(trade.amount) {
        Some(p) => p,
        None => {
            return Err(AppError::Decimal(String::from_str("profit cannot be computed")));
        },
    };
    let profit_ratio = match gain.checked_div(trade.open_rate) {
        Some(p) => p,
        None => {
            return Err(AppError::Decimal(String::from_str("profit ratio cannot be computed")));
        },
    };
    let mut closed = trade.clone();
    closed.is_open = false;
    closed.close_rate = Some(close_rate);
    closed.close_date = Some(now);
    closed.exit_reason = Some(ExitType::Signal);
    closed.profit_abs = Some(profit_abs);
    closed.profit_ratio = Some(profit_ratio);
    Ok(closed)
}

/// What a new trade is made from, besides its price and size.
#[derive(Debug, Clone, PartialEq)]
pub struct EntryContext {
    /// The identifier minted for the trade.
    pub id: u128,
    pub pair: String,
    /// The name of the venue.
    pub exchange: String,
    /// The name of the strategy.
    pub strategy: String,
    pub timeframe: Timeframe,
    /// The instant of the entry.
    pub now: Timestamp,
}

/// A trade opened at `open_rate` for `amount`, with `stake_amount`
/// committed.
pub open spec fn opened_trade(
    id: u128,
    pair: Seq<char>,
    exchange: Seq<char>,
    strategy: Seq<char>,
    timeframe: Timeframe,
    now: Timestamp,
    open_rate: Decimal,
    amount: Decimal,
    stake_amount: Decimal,
) -> TradeView {
    TradeView {
        id,
        pair,
        is_open: true,
        exchange,
        open_rate,
        open_date: now,
        close_rate: None,
        close_date: None,
        amount,
        stake_amount,
        strategy,
        timeframe,
        stop_loss: None,
        take_profit: None,
        exit_reason: None,
        profit_abs: None,
        profit_ratio: None,
    }
}

impl EntryContext {
    /// The trade that this context opens at `open_rate` for `amount`.
    pub open spec fn opens(self, open_rate: Decimal, amount: Decimal, stake_amount: Decimal) -> TradeView {
        opened_trade(
            self.id,
            self.pair@,
            self.exchange@,
            self.strategy@,
            self.timeframe,
            self.now,
            open_rate,
            amount,
            stake_amount,
        )
    }

    /// The trade that this context opens at `open_rate` for `amount`.
    pub fn open_trade(&self, open_rate: Decimal, amount: Decimal, stake_amount: Decimal) -> (r:
        Trade)
        ensures
            r@ == self.opens(open_rate, amount, stake_amount),
            r.is_open,
            r@.lifecycle_consistent(),
    {
        Trade {
            id: self.id,
            pair: self.pair.clone(),
            is_open: true,
            exchange: self.exchange.clone(),
            open_rate,
            open_date: self.now,
            close_rate: None,
            close_date: None,
            amount,
            stake_amount,
            strategy: self.strategy.clone(),
            timeframe: self.timeframe,
            stop_loss: None,
            take_profit: None,
            exit_reason: None,
            profit_abs: None,
            profit_ratio: None,
        }
    }
}

/// The size of an entry: `stake / price`, where the stake is above zero, the
/// free balance covers the stake, and the size comes out above zero. `None`
/// where one of these fails or the quotient cannot be computed.
pub open spec fn entry_amount(stake: Decimal, price: Decimal, free_balance: Decimal) -> Option<
    Decimal,
> {
    if stake.units() > 0 && free_balance.units() >= stake.units() {
        match decimal_quotient(stake, price) {
            Some(amount) => if amount.units() > 0 {
                Some(amount)
            } else {
                None
            },
            None => None,
        }
    } else {
        None
    }
}

/// The size of an entry, `None` where the entry is to be skipped.
pub fn entry_size(stake: Decimal, price: Decimal, free_balance: Decimal) -> (r: Option<Decimal>)
    ensures
        r == entry_amount(stake, price, free_balance),
{
    if stake.is_positive() && free_balance.ge(&stake) {
        match stake.checked_div(price) {
            Some(amount) => {
                if amount.is_positive() {
                    Some(amount)
                } else {
                    None
                }
            },
            None => None,
        }
    } else {
        None
    }
}

/// What to do about a considered entry.
#[derive(Debug, Clone, PartialEq)]
pub enum EntryAction {
    /// The pair is locked: nothing is submitted and nothing recorded.
    Vetoed,
    /// The size or the balance does not allow an entry: skipped silently.
    Skipped,
    /// A dry run: record this trade, submit nothing.
    CreateLocal(Trade),
    /// Submit this order, then record the trade the venue's fill gives.
    Submit(OrderRequest),
}

/// What to do about a considered entry. A locked pair is left alone. The
/// price is the close of the last candle; without candles the iteration
/// fails for this pair with `InvalidInput`. Where the size or the balance
/// does not allow it, the entry is skipped. A dry run records a trade at that
/// price; otherwise a market buy of that size is submitted.
pub fn entry_action(
    dry_run: bool,
    stake_amount: Decimal,
    context: &EntryContext,
    klines: &Vec<OHLCV>,
    pair_stop: &Option<StopReason>,
    free_balance: Decimal,
) -> (r: Result<EntryAction, AppError>)
    ensures
        pair_stop is Some ==> r matches Ok(EntryAction::Vetoed),
        pair_stop is None && klines@.len() == 0 ==> (r matches Err(AppError::InvalidInput(m))
            && m@ == "No klines data available"@),
        pair_stop is None && klines@.len() > 0 ==> match entry_amount(
            stake_amount,
            klines@.last().close,
            free_balance,
        ) {
            None => r matches Ok(EntryAction::Skipped),
            Some(amount) => if dry_run {
                (r matches Ok(EntryAction::CreateLocal(t)) && t@ == context.opens(
                    klines@.last().close,
                    amount,
                    stake_amount,
                ))
            } else {
                (r matches Ok(EntryAction::Submit(req)) && req@ == market_order(
                    context.pair@,
                    TradeSide::Buy,
                    amount,
                ))
            },
        },
{
    if pair_stop.is_some() {
        return Ok(EntryAction::Vetoed);
    }
    if klines.len() == 0 {
        return Err(AppError::InvalidInput(String::from_str("No klines data available")));
    }
    let current_price = klines[klines.len() - 1].close;
    match entry_size(stake_amount, current_price, free_balance) {
        None => Ok(EntryAction::Skipped),
        Some(amount) => {
            if dry_run {
                Ok(EntryAction::CreateLocal(context.open_trade(current_price, amount, stake_amount)))
            } else {
                Ok(
                    EntryAction::Submit(
                        OrderRequest {
                            symbol: context.pair.clone(),
                            side: TradeSide::Buy,
                            order_type: OrderType::Market,
                            amount,
                            price: None,
                        },
                    ),
                )
            }
        },
    }
}

/// The price at which a buy counts as filled: the price the venue reports;
/// else the candle price weighted by the filled share of the amount,
/// `filled * price / amount`, where the amount is above zero; else the candle
/// price. `None` where the weighted price cannot be computed.
pub open spec fn fill_price(
    order_price: Option<Decimal>,
    amount: Decimal,
    filled: Decimal,
    current_price: Decimal,
) -> Option<Decimal> {
    match order_price {
        Some(p) => Some(p),
        None => if amount.units() > 0 {
            match decimal_product(filled, current_price) {
                Some(value) => decimal_quotient(value, amount),
                None => None,
            }
        } else {
            Some(current_price)
        },
    }
}

/// The trade that a filled buy opens: at the fill price, for the filled
/// quantity. Fails with a `Decimal` error where the fill price cannot be
/// computed.
pub fn open_trade_from_fill(
    context: &EntryContext,
    order: &Order,
    current_price: Decimal,
    stake_amount: Decimal,
) -> (r: Result<Trade, AppError>)
    ensures
        r is Ok <==> fill_price(order.price, order.amount, order.filled, current_price) is Some,
        r matches Ok(t) ==> t@ == context.opens(
            fill_price(order.price, order.amount, order.filled, current_price)->0,
            order.filled,
            stake_amount,
        ) && t.is_open && t@.lifecycle_consistent(),
        r matches Err(e) ==> e is Decimal,
{
    let price = match order.price {
        Some(p) => p,
        None => {
            if order.amount.is_positive() {
                let value = match order.filled.checked_mul(current_price) {
                    Some(v) => v,
                    None => {
                        return Err(
                            AppError::Decimal(String::from_str("fill price cannot be computed")),
                        );
                    },
                };
                match value.checked_div(order.amount) {
                    Some(p) => p,
                    None => {
                        return Err(
                            AppError::Decimal(String::from_str("fill price cannot be computed")),
                        );
                    },
                }
            } else {
                current_price
            }
        },
    };
    Ok(context.open_trade(price, order.filled, stake_amount))
}

/// The failure of an iteration for a pair whose buy order the venue refused:
/// an `Exchange` error that carries the venue's failure.
pub fn buy_failure(cause: &AppError) -> (r: AppError)
    ensures
        r matches AppError::Exchange(m) && m@ == "Buy order failed: "@ + cause.spec_prefix()
            + cause.spec_message(),
{
    let described = cause.describe();
    let text = join2("Buy order failed: ", described.as_str());
    AppError::Exchange(text)
}

/// The verdict of an optional pipeline on all trading: none without a
/// pipeline.
pub open spec fn global_verdict(
    rules: Option<Seq<Protection>>,
    now: Timestamp,
    trades: Seq<TradeView>,
) -> Option<StopReasonView> {
    match rules {
        Some(r) => first_global_stop(r, now, trades),
        None => None,
    }
}

/// Cooldown veto: where the first rule of the pipeline is a cooldown rule
/// that stops for some time, and the history holds as many losing closes
/// within its lookback as the rule allows, the pipeline stops all trading, at
/// every instant but the last one that can be written, after which no lock can
/// end. A turn of the loop then stops the coordinator, asks nothing of the
/// venue and leaves the store as it is.
pub proof fn lemma_cooldown_stops_trading(
    rules: Seq<Protection>,
    config: CooldownPeriodConfig,
    now: Timestamp,
    trades: Seq<TradeView>,
)
    requires
        rules.len() > 0,
        rules.first() matches Protection::Cooldown(rule) && rule.spec_config() == config,
        config.stop_duration > 0,
        now.millis < i64::MAX,
        recent_loss_count(trades, now, config.lookback_period as int) >= config.stop_after_losses,
    ensures
        global_verdict(Some(rules), now, trades) is Some,
{
    let rule = rules.first();
    assert(rule.spec_has_global_stop());
    assert(rule.spec_global_stop(now, trades) == cooldown_verdict(config, now, trades));
    assert(lock_until(now, config.stop_duration as int).millis > now.millis) by {
        assert(now.millis + config.stop_duration * 60_000 > now.millis) by (nonlinear_arith)
            requires
                config.stop_duration > 0,
        ;
    }
}

/// Cooldown veto with the usual settings: where the first rule of the
/// pipeline is a cooldown rule that stops for sixty minutes after two losses
/// within a day, and two trades of the history were closed at a loss within
/// the last 1440 minutes, the pipeline stops all trading, at every instant but
/// the last one that can be written.
pub proof fn lemma_two_recent_losses_stop_trading(
    rules: Seq<Protection>,
    now: Timestamp,
    trades: Seq<TradeView>,
    a: int,
    b: int,
)
    requires
        rules.len() > 0,
        rules.first() matches Protection::Cooldown(rule) && rule.spec_config() == (
        CooldownPeriodConfig { stop_duration: 60, lookback_period: 1440, stop_after_losses: 2 }),
        now.millis < i64::MAX,
        0 <= a < b < trades.len(),
        recent_loss(trades[a], now, 1440),
        recent_loss(trades[b], now, 1440),
    ensures
        global_verdict(Some(rules), now, trades) is Some,
{
    lemma_two_recent_losses_are_counted(trades, now, 1440, a, b);
    lemma_cooldown_stops_trading(
        rules,
        CooldownPeriodConfig { stop_duration: 60, lookback_period: 1440, stop_after_losses: 2 },
        now,
        trades,
    );
}

/// The verdict of an optional pipeline on one pair, given the whole trade
/// history: none without a pipeline.
pub open spec fn pair_verdict(
    rules: Option<Seq<Protection>>,
    pair: Seq<char>,
    now: Timestamp,
    trades: Seq<TradeView>,
) -> Option<StopReasonView> {
    match rules {
        Some(r) => first_pair_stop(r, pair, now, trades_of_pair(trades, pair)),
        None => None,
    }
}

/// The coordinator: it owns the status and the protection pipeline, and
/// decides what its loop and each iteration do.
pub struct TradingBot {
    status: BotStatus,
    risk_manager: Option<RiskManager>,
    config: BotConfig,
}

impl TradingBot {
    /// The status.
    pub closed spec fn spec_status(&self) -> BotStatus {
        self.status
    }

    /// The settings.
    pub closed spec fn spec_config(&self) -> BotConfig {
        self.config
    }

    /// The rules of the pipeline, where the coordinator has one.
    pub closed spec fn spec_rules(&self) -> Option<Seq<Protection>> {
        match self.risk_manager {
            Some(m) => Some(m.rules()),
            None => None,
        }
    }

    /// A stopped coordinator with the given pipeline and settings.
    pub fn new(risk_manager: Option<RiskManager>, config: BotConfig) -> (r: Self)
        ensures
            r.spec_status() == BotStatus::Stopped,
            r.spec_config() == config,
            r.spec_rules() == match risk_manager {
                Some(m) => Some(m.rules()),
                None => None,
            },
    {
        TradingBot { status: BotStatus::Stopped, risk_manager, config }
    }

    /// The status.
    pub fn get_status(&self) -> (r: BotStatus)
        ensures
            r == self.spec_status(),
    {
        self.status
    }

    /// The settings.
    pub fn config(&self) -> (r: &BotConfig)
        ensures
            *r == self.spec_config(),
    {
        &self.config
    }

    /// Starts the coordinator: running, from stopped. In any other status
    /// the request fails with a `Bot` error and nothing changes.
    pub fn start(&mut self) -> (r: Result<(), AppError>)
        ensures
            final(self).spec_config() == old(self).spec_config(),
            final(self).spec_rules() == old(self).spec_rules(),
            old(self).spec_status() == BotStatus::Stopped ==> r is Ok && final(self).spec_status()
                == BotStatus::Running,
            old(self).spec_status() != BotStatus::Stopped ==> (r matches Err(AppError::Bot(m))
                && m@ == "Bot is already running"@) && final(self).spec_status() == old(self).spec_status(),
    {
        match start(self.status) {
            Ok(next) => {
                self.status = next;
                Ok(())
            },
            Err(e) => Err(e),
        }
    }

    /// Stops the coordinator: stopped, from running or paused; otherwise
    /// the status stays. The loop leaves at its next turn.
    pub fn stop(&mut self) -> (r: Result<(), AppError>)
        ensures
            r is Ok,
            final(self).spec_config() == old(self).spec_config(),
            final(self).spec_rules() == old(self).spec_rules(),
            final(self).spec_status() == if old(self).spec_status().admits(BotStatus::Stopped) {
                BotStatus::Stopped
            } else {
                old(self).spec_status()
            },
    {
        self.status = stop(self.status);
        Ok(())
    }

    /// Pauses the coordinator: paused, from running; otherwise the status
    /// stays.
    pub fn pause(&mut self) -> (r: Result<(), AppError>)
        ensures
            r is Ok,
            final(self).spec_config() == old(self).spec_config(),
            final(self).spec_rules() == old(self).spec_rules(),
            final(self).spec_status() == if old(self).spec_status().admits(BotStatus::Paused) {
                BotStatus::Paused
            } else {
                old(self).spec_status()
            },
    {
        self.status = pause(self.status);
        Ok(())
    }

    /// Resumes a paused coordinator; otherwise the status stays.
    pub fn resume(&mut self)
        ensures
            final(self).spec_config() == old(self).spec_config(),
            final(self).spec_rules() == old(self).spec_rules(),
            final(self).spec_status() == if old(self).spec_status() == BotStatus::Paused {
                BotStatus::Running
            } else {
                old(self).spec_status()
            },
    {
        self.status = resume(self.status);
    }

    /// What the next turn of the loop does.
    pub fn next_turn(&self) -> (r: LoopAction)
        ensures
            r == match self.spec_status() {
                BotStatus::Running => LoopAction::Iterate,
                BotStatus::Paused => LoopAction::Wait(POLL_MILLIS),
                BotStatus::Stopped => LoopAction::Leave,
                BotStatus::Error => LoopAction::Leave,
            },
    {
        loop_action(self.status)
    }

    /// Asks the pipeline whether all trading must stop, given the instant
    /// and the whole trade history. A running coordinator that is told to
    /// stop is stopped from then on; a veto is no failure.
    pub fn check_global_stop(&mut self, date_now: Timestamp, all_trades: &Vec<Trade>) -> (r: Option<
        StopReason,
    >)
        ensures
            stop_view(r) == global_verdict(old(self).spec_rules(), date_now, trade_views(all_trades@)),
            final(self).spec_config() == old(self).spec_config(),
            final(self).spec_rules() == old(self).spec_rules(),
            final(self).spec_status() == if r is Some && old(self).spec_status()
                == BotStatus::Running {
                BotStatus::Stopped
            } else {
                old(self).spec_status()
            },
    {
        let verdict = match &self.risk_manager {
            Some(manager) => manager.check_global_stop(date_now, all_trades),
            None => None,
        };
        match self.status {
            BotStatus::Running => {
                self.status = status_after_global_check(&verdict);
            },
            _ => {},
        }
        verdict
    }

    /// Asks the pipeline whether one pair must stop, given the instant and
    /// the whole trade history.
    pub fn check_pair_stop(&self, pair: &str, date_now: Timestamp, all_trades: &Vec<Trade>) -> (r:
        Option<StopReason>)
        ensures
            stop_view(r) == pair_verdict(self.spec_rules(), pair@, date_now, trade_views(all_trades@)),
    {
        match &self.risk_manager {
            Some(manager) => manager.check_pair_stop(pair, date_now, all_trades),
            None => None,
        }
    }

    /// Records how an iteration over all pairs ended: a running coordinator
    /// whose iteration failed as a whole has failed.
    pub fn iteration_done(&mut self, outcome: &Result<(), AppError>)
        ensures
            final(self).spec_config() == old(self).spec_config(),
            final(self).spec_rules() == old(self).spec_rules(),
            final(self).spec_status() == if outcome is Err && old(self).spec_status()
                == BotStatus::Running {
                BotStatus::Error
            } else {
                old(self).spec_status()
            },
    {
        match self.status {
            BotStatus::Running => {
                self.status = status_after_iteration(outcome);
            },
            _ => {},
        }
    }

    /// The names of the configured pairs, trimmed and checked.
    pub fn pairs(&self) -> (r: Result<Vec<String>, AppError>)
        ensures
            r matches Err(e) ==> e is Config,
            self.spec_config().trading_pairs@.len() == 0 ==> r is Err,
            self.spec_config().trading_pairs@.len() > 0 ==> (r is Ok <==> forall|i: int|
                0 <= i < self.spec_config().trading_pairs@.len() ==> valid_pair(
                    trimmed((#[trigger] self.spec_config().trading_pairs@[i])@),
                )),
            r matches Ok(names) ==> names@.len() == self.spec_config().trading_pairs@.len()
                && forall|i: int|
                0 <= i < names@.len() ==> (#[trigger] names@[i])@ == trimmed(
                    self.spec_config().trading_pairs@[i]@,
                ),
    {
        normalize_pairs(&self.config.trading_pairs)
    }

    /// How long the loop sleeps after an iteration, in milliseconds: one
    /// candle width of the configured timeframe where only new candles are
    /// processed, a short poll otherwise. Fails with `InvalidInput` where a
    /// candle width is asked for and the configured timeframe is none of the
    /// fifteen tags.
    pub fn sleep_after_iteration(&self) -> (r: Result<u64, AppError>)
        ensures
            !self.spec_config().process_only_new_candles ==> (r matches Ok(millis) && millis
                == POLL_MILLIS),
            self.spec_config().process_only_new_candles ==> match Timeframe::spec_parse(
                self.spec_config().timeframe@,
            ) {
                Some(tf) => (r matches Ok(millis) && millis == tf.spec_millis()),
                None => (r matches Err(AppError::InvalidInput(m)) && m@ == "Invalid timeframe: "@
                    + self.spec_config().timeframe@),
            },
    {
        if !self.config.process_only_new_candles {
            return Ok(POLL_MILLIS);
        }
        match cycle_timeframe(self.config.timeframe.as_str()) {
            Ok(tf) => Ok(sleep_millis(true, tf)),
            Err(e) => Err(e),
        }
    }
}

/// What the venue's answer to a submitted sell leads to. A refused sell is
/// passed over: nothing is closed and the iteration goes on. A sell that was
/// taken closes the trade by a signal at `now`, at the price the venue
/// reports or else at the close of the last candle. Fails with
/// `InvalidInput` where there is neither price, and with a `Decimal` error
/// where a profit cannot be computed.
pub fn settle_exit(
    trade: &Trade,
    answer: Result<Order, AppError>,
    klines: &Vec<OHLCV>,
    now: Timestamp,
) -> (r: Result<Option<Trade>, AppError>)
    ensures
        match answer {
            Err(_) => r matches Ok(None),
            Ok(order) => match execution_price(order.price, klines@) {
                None => (r matches Err(AppError::InvalidInput(m)) && m@
                    == "No klines data available"@),
                Some(price) => match closed_by_signal(trade@, price, now) {
                    Some(closed) => (r matches Ok(Some(t)) && t@ == closed && !t.is_open
                        && t@.lifecycle_consistent()),
                    None => r matches Err(AppError::Decimal(_)),
                },
            },
        },
{
    match answer {
        Err(_) => Ok(None),
        Ok(order) => {
            let price = match closing_price(order.price, klines) {
                Ok(p) => p,
                Err(e) => {
                    return Err(e);
                },
            };
            match close_trade(trade, price, now) {
                Ok(t) => Ok(Some(t)),
                Err(e) => Err(e),
            }
        },
    }
}

/// What the venue's answer to a submitted buy leads to. A refused buy fails
/// the iteration for the pair with an `Exchange` error that carries the
/// venue's failure. A buy that was taken opens a trade at the fill price for
/// the filled quantity; where the fill price cannot be computed, the
/// iteration fails with a `Decimal` error.
pub fn settle_entry(
    context: &EntryContext,
    answer: Result<Order, AppError>,
    current_price: Decimal,
    stake_amount: Decimal,
) -> (r: Result<Trade, AppError>)
    ensures
        match answer {
            Err(cause) => (r matches Err(AppError::Exchange(m)) && m@ == "Buy order failed: "@
                + cause.spec_prefix() + cause.spec_message()),
            Ok(order) => match fill_price(order.price, order.amount, order.filled, current_price) {
                Some(price) => (r matches Ok(t) && t@ == context.opens(
                    price,
                    order.filled,
                    stake_amount,
                ) && t.is_open && t@.lifecycle_consistent()),
                None => r matches Err(AppError::Decimal(_)),
            },
        },
{
    match answer {
        Err(cause) => Err(buy_failure(&cause)),
        Ok(order) => open_trade_from_fill(context, &order, current_price, stake_amount),
    }
}

/// What one iteration did for a pair: the trade it closed, to be updated in
/// the store; the trade it opened, to be created there; and how it ended.
#[derive(Debug, PartialEq)]
pub struct CycleOutcome {
    pub closed: Option<Trade>,
    pub opened: Option<Trade>,
    pub result: Result<(), AppError>,
}

/// The rules of an optional pipeline.
pub open spec fn rules_of(risk_manager: Option<&RiskManager>) -> Option<Seq<Protection>> {
    match risk_manager {
        Some(m) => Some(m.rules()),
        None => None,
    }
}

/// The view of a trade that may be there.
pub open spec fn trade_view_of(trade: Option<Trade>) -> Option<TradeView> {
    match trade {
        Some(t) => Some(t@),
        None => None,
    }
}

/// What holds of the trades one iteration closes and opens for a pair,
/// whatever the venue and the strategy answer: a pair is either exited or
/// entered, never both; where a trade of the pair is open, none is opened;
/// a dry run closes nothing; a locked pair is left alone, and so is every pair
/// where the timeframe is none of the fifteen tags; a trade is closed only by
/// a signal at `now`, and it is the first open trade of the pair; a trade is
/// opened only under the cap, for this pair, with the new identifier, the
/// configured stake and the timeframe of the iteration.
pub open spec fn cycle_bounds(
    config: BotConfig,
    rules: Option<Seq<Protection>>,
    open_trades: Seq<TradeView>,
    all_trades: Seq<TradeView>,
    pair: Seq<char>,
    timeframe: Seq<char>,
    now: Timestamp,
    new_id: u128,
    closed: Option<TradeView>,
    opened: Option<TradeView>,
) -> bool {
    &&& Timeframe::spec_parse(timeframe) is None ==> closed is None && opened is None
    &&& !(closed is Some && opened is Some)
    &&& has_trade_of(open_trades, pair) ==> opened is None
    &&& !has_trade_of(open_trades, pair) ==> closed is None
    &&& config.dry_run ==> closed is None
    &&& pair_verdict(rules, pair, now, all_trades) is Some ==> closed is None && opened is None
    &&& closed matches Some(t) ==> {
        let held = open_trades[position_of_pair(open_trades, pair)];
        &&& exists|price: Decimal| Some(t) == closed_by_signal(held, price, now)
        &&& !t.is_open
        &&& t.lifecycle_consistent()
    }
    &&& opened matches Some(t) ==> {
        &&& open_trades.len() < config.max_open_trades
        &&& t.id == new_id
        &&& t.pair == pair
        &&& t.is_open
        &&& t.open_date == now
        &&& t.stake_amount == config.stake_amount
        &&& Some(t.timeframe) == Timeframe::spec_parse(timeframe)
        &&& t.close_rate is None && t.profit_abs is None && t.profit_ratio is None
        &&& t.lifecycle_consistent()
    }
}

/// One iteration for one pair. A timeframe that is none of the fifteen tags
/// fails the iteration with `InvalidInput` before anything is asked of the
/// venue. Then, in this order: the candles are fetched, the strategy is
/// asked for sell signals, an exit is decided and carried out, then the
/// strategy is asked for buy signals and an entry is decided and carried out.
/// `open_trades` and `all_trades` are what the store holds when the
/// iteration begins, `now` is the instant of the iteration and `new_id` the
/// identifier for a trade that may open.
///
/// Whatever the venue and the strategy answer, the trades closed and opened
/// keep within the bounds of an iteration, and a trade is opened only by an
/// iteration that succeeds.
pub fn process_cycle(
    config: &BotConfig,
    risk_manager: Option<&RiskManager>,
    exchange: &dyn Exchange,
    strategy: &dyn Strategy,
    open_trades: &Vec<Trade>,
    all_trades: &Vec<Trade>,
    pair: &str,
    timeframe: &str,
    now: Timestamp,
    new_id: u128,
) -> (r: CycleOutcome)
    ensures
        Timeframe::spec_parse(timeframe@) is None ==> (r.result matches Err(
            AppError::InvalidInput(m),
        ) && m@ == "Invalid timeframe: "@ + timeframe@),
        r.opened is Some ==> r.result is Ok,
        cycle_bounds(
            *config,
            rules_of(risk_manager),
            trade_views(open_trades@),
            trade_views(all_trades@),
            pair@,
            timeframe@,
            now,
            new_id,
            trade_view_of(r.closed),
            trade_view_of(r.opened),
        ),
{
    let nothing = CycleOutcome { closed: None, opened: None, result: Ok(()) };
    let candle_width = match cycle_timeframe(timeframe) {
        Ok(tf) => tf,
        Err(e) => {
            return CycleOutcome { closed: None, opened: None, result: Err(e) };
        },
    };
    let klines = match exchange.fetch_ohlcv(pair, timeframe, CANDLE_WINDOW) {
        Ok(k) => k,
        Err(e) => {
            return CycleOutcome { closed: None, opened: None, result: Err(e) };
        },
    };
    let sell_signals = match strategy.populate_sell_trend(&klines) {
        Ok(s) => s,
        Err(e) => {
            return CycleOutcome { closed: None, opened: None, result: Err(e) };
        },
    };
    let mut closed: Option<Trade> = None;
    match plan_exit(pair, open_trades, sell_signals.len()) {
        Some(index) => {
            let trade = &open_trades[index];
            let stop = match risk_manager {
                Some(manager) => manager.check_pair_stop(pair, now, all_trades),
                None => None,
            };
            match exit_action(config.dry_run, pair, trade, &stop) {
                ExitAction::Vetoed => {
                    return nothing;
                },
                ExitAction::LogOnly => {},
                ExitAction::Submit(request) => {
                    let answer = exchange.create_order(request);
                    match settle_exit(trade, answer, &klines, now) {
                        Ok(settled) => {
                            closed = settled;
                        },
                        Err(e) => {
                            return CycleOutcome { closed: None, opened: None, result: Err(e) };
                        },
                    }
                },
            }
        },
        None => {},
    }
    if !wants_buy_signals(config.max_open_trades, open_trades) {
        return CycleOutcome { closed, opened: None, result: Ok(()) };
    }
    let buy_signals = match strategy.populate_buy_trend(&klines) {
        Ok(s) => s,
        Err(e) => {
            return CycleOutcome { closed, opened: None, result: Err(e) };
        },
    };
    if !plan_entry(config.max_open_trades, pair, open_trades, buy_signals.len()) {
        return CycleOutcome { closed, opened: None, result: Ok(()) };
    }
    let stop = match risk_manager {
        Some(manager) => manager.check_pair_stop(pair, now, all_trades),
        None => None,
    };
    if stop.is_some() {
        return nothing;
    }
    let free_balance = if config.dry_run {
        config.dry_run_wallet
    } else {
        match exchange.fetch_balance() {
            Ok(balance) => balance.free,
            Err(e) => {
                return CycleOutcome { closed: None, opened: None, result: Err(e) };
            },
        }
    };
    let context = EntryContext {
        id: new_id,
        pair: pair.to_owned(),
        exchange: exchange.get_name(),
        strategy: strategy.name(),
        timeframe: candle_width,
        now,
    };
    let action = match entry_action(
        config.dry_run,
        config.stake_amount,
        &context,
        &klines,
        &stop,
        free_balance,
    ) {
        Ok(a) => a,
        Err(e) => {
            return CycleOutcome { closed: None, opened: None, result: Err(e) };
        },
    };
    match action {
        EntryAction::Vetoed => nothing,
        EntryAction::Skipped => nothing,
        EntryAction::CreateLocal(trade) => CycleOutcome {
            closed: None,
            opened: Some(trade),
            result: Ok(()),
        },
        EntryAction::Submit(request) => {
            let answer = exchange.create_order(request);
            let current_price = klines[klines.len() - 1].close;
            match settle_entry(&context, answer, current_price, config.stake_amount) {
                Ok(trade) => CycleOutcome { closed: None, opened: Some(trade), result: Ok(()) },
                Err(e) => CycleOutcome { closed: None, opened: None, result: Err(e) },
            }
        },
    }
}

impl TradingBot {
    /// One iteration for one pair under the settings and the pipeline of
    /// this coordinator.
    pub fn process_cycle(
        &self,
        exchange: &dyn Exchange,
        strategy: &dyn Strategy,
        open_trades: &Vec<Trade>,
        all_trades: &Vec<Trade>,
        pair: &str,
        timeframe: &str,
        now: Timestamp,
        new_id: u128,
    ) -> (r: CycleOutcome)
        ensures
            Timeframe::spec_parse(timeframe@) is None ==> (r.result matches Err(
                AppError::InvalidInput(m),
            ) && m@ == "Invalid timeframe: "@ + timeframe@),
            r.opened is Some ==> r.result is Ok,
            cycle_bounds(
                self.spec_config(),
                self.spec_rules(),
                trade_views(open_trades@),
                trade_views(all_trades@),
                pair@,
                timeframe@,
                now,
                new_id,
                trade_view_of(r.closed),
                trade_view_of(r.opened),
            ),
    {
        self::process_cycle(
            &self.config,
            self.risk_manager.as_ref(),
            exchange,
            strategy,
            open_trades,
            all_trades,
            pair,
            timeframe,
            now,
            new_id,
        )
    }
}

/// The identifier of the trade that item number `index` of a run may open:
/// `first_id + index`, wrapping around.
pub open spec fn trade_id_at(first_id: u128, index: int) -> u128 {
    if first_id + index <= u128::MAX {
        (first_id + index) as u128
    } else {
        (first_id + index - u128::MAX - 1) as u128
    }
}

/// The identifier of the trade that item number `index` of a run may open.
pub fn nth_id(first_id: u128, index: usize) -> (r: u128)
    ensures
        r == trade_id_at(first_id, index as int),
{
    let offset: u128 = index as u128;
    if first_id <= u128::MAX - offset {
        first_id + offset
    } else {
        offset - (u128::MAX - first_id) - 1
    }
}

/// Whether `after` is what the store holds once the outcome of an iteration
/// for one pair was recorded in `before`: the closed trade updated, or the
/// opened trade created, or nothing changed where there is neither.
pub open spec fn recorded(
    before: Seq<TradeView>,
    after: Seq<TradeView>,
    closed: Option<TradeView>,
    opened: Option<TradeView>,
) -> bool {
    match (closed, opened) {
        (Some(c), _) => updated(before, after, c),
        (None, Some(t)) => created(before, after, t),
        (None, None) => after == before,
    }
}

/// Whether the store went from `before` to `after` by one iteration for one
/// pair: by recording some trades closed and opened that keep within the
/// bounds of an iteration on what the store held before.
pub open spec fn pair_step(
    config: BotConfig,
    rules: Option<Seq<Protection>>,
    before: Seq<TradeView>,
    after: Seq<TradeView>,
    pair: Seq<char>,
    timeframe: Seq<char>,
    now: Timestamp,
    new_id: u128,
) -> bool {
    exists|closed: Option<TradeView>, opened: Option<TradeView>|
        #[trigger] cycle_bounds(
            config,
            rules,
            open_trades_of(before),
            before,
            pair,
            timeframe,
            now,
            new_id,
            closed,
            opened,
        ) && recorded(before, after, closed, opened)
}

/// Whether `steps` are the states the store went through in one turn of
/// the loop, from `before` to `after`: one step for each pair processed, in
/// the order of the settings, and each step an iteration for that pair.
pub open spec fn iteration_steps(
    steps: Seq<Seq<TradeView>>,
    before: Seq<TradeView>,
    after: Seq<TradeView>,
    config: BotConfig,
    rules: Option<Seq<Protection>>,
    timeframe: Seq<char>,
    now: Timestamp,
    first_id: u128,
) -> bool {
    &&& 1 <= steps.len() <= config.trading_pairs@.len() + 1
    &&& steps.first() == before
    &&& steps.last() == after
    &&& forall|k: int|
        0 <= k < steps.len() - 1 ==> pair_step(
            config,
            rules,
            #[trigger] steps[k],
            steps[k + 1],
            trimmed(config.trading_pairs@[k]@),
            timeframe,
            now,
            trade_id_at(first_id, k),
        )
}

/// A locked pair is left alone: an iteration for a pair that the pipeline
/// locks changes nothing in the store. So is every pair where the timeframe
/// is none of the fifteen tags.
pub proof fn lemma_locked_pair_changes_nothing(
    config: BotConfig,
    rules: Option<Seq<Protection>>,
    before: Seq<TradeView>,
    after: Seq<TradeView>,
    pair: Seq<char>,
    timeframe: Seq<char>,
    now: Timestamp,
    new_id: u128,
)
    requires
        pair_step(config, rules, before, after, pair, timeframe, now, new_id),
        pair_verdict(rules, pair, now, before) is Some || Timeframe::spec_parse(timeframe) is None,
    ensures
        after == before,
{
}

/// Sell before buy: an iteration for a pair that has an open trade opens no
/// trade, so the store holds as many trades after it as before.
pub proof fn lemma_held_pair_is_not_entered(
    config: BotConfig,
    rules: Option<Seq<Protection>>,
    before: Seq<TradeView>,
    after: Seq<TradeView>,
    pair: Seq<char>,
    timeframe: Seq<char>,
    now: Timestamp,
    new_id: u128,
)
    requires
        pair_step(config, rules, before, after, pair, timeframe, now, new_id),
        has_trade_of(open_trades_of(before), pair),
    ensures
        after.len() == before.len(),
{
}

impl TradingBot {
    /// One turn of the loop against the store. A coordinator that is not
    /// running does nothing. A running one asks the pipeline first: told to
    /// stop, it is stopped and touches nothing. Otherwise it processes every
    /// configured pair in turn; the failure of one pair is passed over, but
    /// where no pair is configured or a name is invalid the iteration as a
    /// whole fails and the coordinator has failed. The store changes only by
    /// what the iterations for the pairs closed and opened, one step for each
    /// pair; it keeps its rules throughout, its candle cache is not touched,
    /// and no more trades are added than pairs are configured. The trade that
    /// pair number `i` may open gets the identifier `first_id + i`, wrapping
    /// around.
    pub fn run_iteration(
        &mut self,
        exchange: &dyn Exchange,
        strategy: &dyn Strategy,
        repository: &mut Repository,
        timeframe: &str,
        now: Timestamp,
        first_id: u128,
    ) -> (r: Result<(), AppError>)
        ensures
            final(self).spec_config() == old(self).spec_config(),
            final(self).spec_rules() == old(self).spec_rules(),
            ledger_wf(final(repository).trades()),
            forall|p: Seq<char>, t: Timeframe|
                final(repository).candles(p, t) == old(repository).candles(p, t),
            old(repository).trades().len() <= final(repository).trades().len() <= old(repository).trades().len() + old(self).spec_config().trading_pairs@.len(),
            exists|steps: Seq<Seq<TradeView>>| #[trigger]
                iteration_steps(
                    steps,
                    old(repository).trades(),
                    final(repository).trades(),
                    old(self).spec_config(),
                    old(self).spec_rules(),
                    timeframe@,
                    now,
                    first_id,
                ),
            old(self).spec_status() != BotStatus::Running ==> r is Ok && final(self).spec_status()
                == old(self).spec_status() && final(repository).trades() == old(repository).trades(),
            old(self).spec_status() == BotStatus::Running && global_verdict(
                old(self).spec_rules(),
                now,
                old(repository).trades(),
            ) is Some ==> r is Ok && final(self).spec_status() == BotStatus::Stopped && final(repository).trades() == old(repository).trades(),
            old(self).spec_status() == BotStatus::Running && global_verdict(
                old(self).spec_rules(),
                now,
                old(repository).trades(),
            ) is None ==> {
                &&& r is Ok <==> old(self).spec_config().trading_pairs@.len() > 0 && forall|i: int|
                    0 <= i < old(self).spec_config().trading_pairs@.len() ==> valid_pair(
                        trimmed((#[trigger] old(self).spec_config().trading_pairs@[i])@),
                    )
                &&& r is Ok ==> final(self).spec_status() == BotStatus::Running
                &&& r matches Err(e) ==> e is Config && final(self).spec_status() == BotStatus::Error
                    && final(repository).trades() == old(repository).trades()
            },
    {
        let ghost config = self.spec_config();
        let ghost rules = self.spec_rules();
        let ghost start = repository.trades();
        let ghost mut steps: Seq<Seq<TradeView>> = seq![start];
        match self.status {
            BotStatus::Running => {},
            _ => {
                let _ = repository.trade_count();
                proof {
                    assert(iteration_steps(steps, start, start, config, rules, timeframe@, now, first_id));
                }
                return Ok(());
            },
        }
        let history = match repository.get_all_trades() {
            Ok(all) => all,
            Err(_) => Vec::new(),
        };
        let stop = self.check_global_stop(now, &history);
        if stop.is_some() {
            proof {
                assert(iteration_steps(steps, start, start, config, rules, timeframe@, now, first_id));
            }
            return Ok(());
        }
        let pairs = match self.pairs() {
            Ok(p) => p,
            Err(e) => {
                self.status = BotStatus::Error;
                proof {
                    assert(iteration_steps(steps, start, start, config, rules, timeframe@, now, first_id));
                }
                return Err(e);
            },
        };
        let mut i: usize = 0;
        while i < pairs.len()
            invariant
                i <= pairs.len(),
                pairs@.len() == config.trading_pairs@.len(),
                forall|k: int|
                    0 <= k < pairs@.len() ==> (#[trigger] pairs@[k])@ == trimmed(
                        config.trading_pairs@[k]@,
                    ),
                config == old(self).spec_config(),
                rules == old(self).spec_rules(),
                start == old(repository).trades(),
                self.spec_config() == old(self).spec_config(),
                self.spec_rules() == old(self).spec_rules(),
                self.spec_status() == BotStatus::Running,
                ledger_wf(repository.trades()),
                forall|p: Seq<char>, t: Timeframe|
                    repository.candles(p, t) == old(repository).candles(p, t),
                old(repository).trades().len() <= repository.trades().len() <= old(repository).trades().len() + i,
                steps.len() == i + 1,
                steps.first() == start,
                steps.last() == repository.trades(),
                forall|k: int|
                    0 <= k < i ==> pair_step(
                        config,
                        rules,
                        #[trigger] steps[k],
                        steps[k + 1],
                        trimmed(config.trading_pairs@[k]@),
                        timeframe@,
                        now,
                        trade_id_at(first_id, k),
                    ),
            decreases pairs.len() - i,
        {
            let ghost before = repository.trades();
            let ghost earlier = steps;
            let open_trades = match repository.get_open_trades() {
                Ok(open) => open,
                Err(_) => Vec::new(),
            };
            let all_trades = match repository.get_all_trades() {
                Ok(all) => all,
                Err(_) => Vec::new(),
            };
            let id: u128 = nth_id(first_id, i);
            let outcome = self.process_cycle(
                exchange,
                strategy,
                &open_trades,
                &all_trades,
                pairs[i].as_str(),
                timeframe,
                now,
                id,
            );
            let ghost closed_view = trade_view_of(outcome.closed);
            let ghost opened_view = trade_view_of(outcome.opened);
            match outcome.closed {
                Some(closed) => {
                    let _ = repository.update_trade(&closed);
                },
                None => {},
            }
            match outcome.opened {
                Some(opened) => {
                    let _ = repository.create_trade(&opened);
                },
                None => {},
            }
            proof {
                let after = repository.trades();
                assert(recorded(before, after, closed_view, opened_view));
                assert(cycle_bounds(
                    config,
                    rules,
                    open_trades_of(before),
                    before,
                    trimmed(config.trading_pairs@[i as int]@),
                    timeframe@,
                    now,
                    trade_id_at(first_id, i as int),
                    closed_view,
                    opened_view,
                ));
                steps = earlier.push(after);
                assert forall|k: int| 0 <= k < i + 1 implies pair_step(
                    config,
                    rules,
                    #[trigger] steps[k],
                    steps[k + 1],
                    trimmed(config.trading_pairs@[k]@),
                    timeframe@,
                    now,
                    trade_id_at(first_id, k),
                ) by {
                    if k < i {
                        assert(steps[k] == earlier[k]);
                        assert(steps[k + 1] == earlier[k + 1]);
                    } else {
                        assert(steps[k] == before);
                        assert(steps[k + 1] == after);
                    }
                }
            }
            i = i + 1;
        }
        proof {
            assert(iteration_steps(
                steps,
                start,
                repository.trades(),
                config,
                rules,
                timeframe@,
                now,
                first_id,
            ));
        }
        Ok(())
    }
}

} // verus!
