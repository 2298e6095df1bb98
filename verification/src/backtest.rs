//! The replay of a strategy over historical candles: what each candle does
//! to the trades and the balance, given the signals of the strategy for it,
//! and the summary at the end. Asking the strategy is the caller's part.

use crate::bot::{nth_id, opened_trade, trade_id_at};
use crate::decimal::{decimal_difference, decimal_product, decimal_quotient, Decimal};
use crate::error::AppError;
use crate::strategy::traits::Strategy;
use crate::risk::protection::trade_views;
use crate::time::Timestamp;
use crate::types::{BacktestResult, ExitType, Timeframe, Trade, TradeView, OHLCV};
use vstd::prelude::*;
use vstd::string::*;

verus! {

/// How many candles pass before the strategy is asked: its indicators need
/// a window to start from.
pub const WARMUP_CANDLES: usize = 100;

/// The settings of a replay.
#[derive(Debug, Clone, Copy, PartialEq)]
pub struct BacktestConfig {
    pub start_date: Timestamp,
    pub end_date: Timestamp,
    /// The balance the replay starts with.
    pub stake_amount: Decimal,
    /// The share of the proceeds of a sale that the venue keeps.
    pub commission: Decimal,
}

/// The trades and the balance of a replay.
pub struct ReplayState {
    pub trades: Seq<TradeView>,
    pub balance: Decimal,
}

/// The proceeds of selling `amount` at `price` after commission:
/// `amount * price * (1 - commission)`.
pub open spec fn proceeds(amount: Decimal, price: Decimal, commission: Decimal) -> Option<Decimal> {
    match (
        decimal_product(amount, price),
        decimal_difference(Decimal::spec_new(1, 0), commission),
    ) {
        (Some(value), Some(kept)) => decimal_product(value, kept),
        _ => None,
    }
}

/// A trade closed by a signal at the close of a candle.
pub open spec fn closed_at(t: TradeView, candle: OHLCV) -> TradeView {
    TradeView {
        is_open: false,
        close_rate: Some(candle.close),
        close_date: Some(candle.timestamp),
        exit_reason: Some(ExitType::Signal),
        ..t
    }
}

/// The state after a candle past the warm-up. A buy signal opens a trade
/// at the close for the whole balance, which is then zero. Otherwise a sell
/// signal closes the last trade, where it is open, at the close, and the
/// balance becomes the proceeds. Otherwise nothing changes. `None` where the
/// proceeds cannot be computed.
pub open spec fn replay_step(
    state: ReplayState,
    commission: Decimal,
    strategy: Seq<char>,
    candle: OHLCV,
    has_buy: bool,
    has_sell: bool,
    id: u128,
) -> Option<ReplayState> {
    if has_buy {
        Some(
            ReplayState {
                trades: state.trades.push(
                    opened_trade(
                        id,
                        "BTCUSDT"@,
                        "binance"@,
                        strategy,
                        Timeframe::OneHour,
                        candle.timestamp,
                        candle.close,
                        state.balance,
                        state.balance,
                    ),
                ),
                balance: Decimal::spec_zero(),
            },
        )
    } else if has_sell && state.trades.len() > 0 && state.trades.last().is_open {
        match proceeds(state.trades.last().amount, candle.close, commission) {
            Some(balance) => Some(
                ReplayState {
                    trades: state.trades.update(
                        state.trades.len() - 1,
                        closed_at(state.trades.last(), candle),
                    ),
                    balance,
                },
            ),
            None => None,
        }
    } else {
        Some(state)
    }
}

/// Whether a trade has the shape of a trade of a replay: open without
/// close rate, close date and exit reason, or closed by a signal with a close
/// rate and a close date.
pub open spec fn replay_shaped(t: TradeView) -> bool {
    if t.is_open {
        t.close_rate is None && t.close_date is None && t.exit_reason is None
    } else {
        t.close_rate is Some && t.close_date is Some && t.exit_reason == Some(ExitType::Signal)
    }
}

/// Whether every trade has the shape of a trade of a replay.
pub open spec fn all_replay_shaped(trades: Seq<TradeView>) -> bool {
    forall|i: int| 0 <= i < trades.len() ==> replay_shaped(#[trigger] trades[i])
}

/// The state a replay starts from: no trades, and the stake as the balance.
pub open spec fn fresh_state(config: BacktestConfig) -> ReplayState {
    ReplayState { trades: Seq::empty(), balance: config.stake_amount }
}

/// The state after the candles were replayed in order from `start`, where
/// the strategy gave for candle `i` the buy and sell flags `flags[i]`. The
/// candles of the warm-up change nothing. `None` where the proceeds of a sale
/// cannot be computed.
pub open spec fn replayed(
    start: ReplayState,
    commission: Decimal,
    strategy: Seq<char>,
    data: Seq<OHLCV>,
    flags: Seq<(bool, bool)>,
    first_id: u128,
) -> Option<ReplayState>
    decreases data.len(),
{
    if data.len() == 0 {
        Some(start)
    } else {
        let index = data.len() - 1;
        match replayed(start, commission, strategy, data.drop_last(), flags, first_id) {
            Some(state) => if index < WARMUP_CANDLES {
                Some(state)
            } else {
                replay_step(
                    state,
                    commission,
                    strategy,
                    data.last(),
                    flags[index].0,
                    flags[index].1,
                    trade_id_at(first_id, index),
                )
            },
            None => None,
        }
    }
}

/// Whether `state` is what a replay from the start reaches after the first
/// `n` candles, for some flags of the strategy.
pub open spec fn reached_after(
    state: ReplayState,
    config: BacktestConfig,
    strategy: Seq<char>,
    data: Seq<OHLCV>,
    first_id: u128,
    n: int,
) -> bool {
    0 <= n <= data.len() && exists|flags: Seq<(bool, bool)>|
        flags.len() == n && #[trigger] replayed(
            fresh_state(config),
            config.commission,
            strategy,
            data.take(n),
            flags,
            first_id,
        ) == Some(state)
}

/// A replay reads the flags of the candles it replays and no others.
pub proof fn lemma_replayed_reads_its_flags(
    start: ReplayState,
    commission: Decimal,
    strategy: Seq<char>,
    data: Seq<OHLCV>,
    flags: Seq<(bool, bool)>,
    others: Seq<(bool, bool)>,
    first_id: u128,
)
    requires
        flags.len() >= data.len(),
        others.len() >= data.len(),
        forall|i: int| 0 <= i < data.len() ==> flags[i] == others[i],
    ensures
        replayed(start, commission, strategy, data, flags, first_id) == replayed(
            start,
            commission,
            strategy,
            data,
            others,
            first_id,
        ),
    decreases data.len(),
{
    if data.len() > 0 {
        lemma_replayed_reads_its_flags(
            start,
            commission,
            strategy,
            data.drop_last(),
            flags,
            others,
            first_id,
        );
    }
}

/// One candle of a replay keeps the shape of the trades.
pub proof fn lemma_step_keeps_shape(
    state: ReplayState,
    commission: Decimal,
    strategy: Seq<char>,
    candle: OHLCV,
    has_buy: bool,
    has_sell: bool,
    id: u128,
)
    requires
        all_replay_shaped(state.trades),
    ensures
        replay_step(state, commission, strategy, candle, has_buy, has_sell, id) matches Some(next)
            ==> all_replay_shaped(next.trades) && state.trades.len() <= next.trades.len()
            <= state.trades.len() + 1,
{
}

/// A replay keeps the shape of the trades: where every trade at the start is
/// open without close fields, or closed by a signal with a close rate and a
/// close date, so is every trade at the end, and at most one trade was opened
/// for each candle.
pub proof fn lemma_replay_keeps_shape(
    start: ReplayState,
    commission: Decimal,
    strategy: Seq<char>,
    data: Seq<OHLCV>,
    flags: Seq<(bool, bool)>,
    first_id: u128,
)
    requires
        all_replay_shaped(start.trades),
    ensures
        replayed(start, commission, strategy, data, flags, first_id) matches Some(end)
            ==> all_replay_shaped(end.trades) && start.trades.len() <= end.trades.len()
            <= start.trades.len() + data.len(),
        data.len() <= WARMUP_CANDLES ==> replayed(start, commission, strategy, data, flags, first_id)
            == Some(start),
    decreases data.len(),
{
    if data.len() > 0 {
        lemma_replay_keeps_shape(start, commission, strategy, data.drop_last(), flags, first_id);
        let index = data.len() - 1;
        match replayed(start, commission, strategy, data.drop_last(), flags, first_id) {
            Some(state) => {
                if index >= WARMUP_CANDLES {
                    lemma_step_keeps_shape(
                        state,
                        commission,
                        strategy,
                        data.last(),
                        flags[index].0,
                        flags[index].1,
                        trade_id_at(first_id, index),
                    );
                }
            },
            None => {},
        }
    }
}

/// How many of the trades are closed with a profit above zero.
pub open spec fn winners(trades: Seq<TradeView>) -> nat
    decreases trades.len(),
{
    if trades.len() == 0 {
        0
    } else {
        winners(trades.drop_last()) + if !trades.last().is_open && (
        trades.last().profit_abs matches Some(p) && p.units() > 0) {
            1nat
        } else {
            0nat
        }
    }
}

/// How many of the trades are closed without a profit above zero.
pub open spec fn losers(trades: Seq<TradeView>) -> nat
    decreases trades.len(),
{
    if trades.len() == 0 {
        0
    } else {
        losers(trades.drop_last()) + if !trades.last().is_open && !(
        trades.last().profit_abs matches Some(p) && p.units() > 0) {
            1nat
        } else {
            0nat
        }
    }
}

/// The share of winners among all trades, zero where there is no trade or
/// the share cannot be computed.
pub open spec fn win_share(wins: nat, total: nat) -> Decimal {
    if total == 0 {
        Decimal::spec_zero()
    } else {
        match decimal_quotient(Decimal::spec_new(wins as int, 0), Decimal::spec_new(total as int, 0)) {
            Some(share) => share,
            None => Decimal::spec_zero(),
        }
    }
}

/// The profit of a replay: the balance less the starting balance, zero
/// where it cannot be computed.
pub open spec fn replay_profit(balance: Decimal, stake: Decimal) -> Decimal {
    match decimal_difference(balance, stake) {
        Some(p) => p,
        None => Decimal::spec_zero(),
    }
}

/// A replay in progress.
pub struct BacktestEngine {
    config: BacktestConfig,
    strategy: String,
    data: Vec<OHLCV>,
    trades: Vec<Trade>,
    balance: Decimal,
}

impl BacktestEngine {
    #[verifier::type_invariant]
    spec fn inv(self) -> bool {
        all_replay_shaped(trade_views(self.trades@))
    }

    /// The settings.
    pub closed spec fn spec_config(&self) -> BacktestConfig {
        self.config
    }

    /// The name of the strategy.
    pub closed spec fn spec_strategy(&self) -> Seq<char> {
        self.strategy@
    }

    /// The candles.
    pub closed spec fn spec_data(&self) -> Seq<OHLCV> {
        self.data@
    }

    /// The trades and the balance so far.
    pub closed spec fn state(&self) -> ReplayState {
        ReplayState { trades: trade_views(self.trades@), balance: self.balance }
    }

    /// A replay of the given candles that starts without trades and with
    /// the stake as its balance.
    pub fn new(config: BacktestConfig, strategy: String, data: Vec<OHLCV>) -> (r: Self)
        ensures
            r.spec_config() == config,
            r.spec_strategy() == strategy@,
            r.spec_data() == data@,
            r.state() == fresh_state(config),
    {
        let balance = config.stake_amount;
        let r = BacktestEngine { config, strategy, data, trades: Vec::new(), balance };
        proof {
            assert(trade_views(r.trades@) =~= Seq::<TradeView>::empty());
        }
        r
    }

    /// The candles.
    pub fn data(&self) -> (r: &Vec<OHLCV>)
        ensures
            r@ == self.spec_data(),
    {
        &self.data
    }

    /// Whether the strategy is asked for candle `index`: the candle exists
    /// and the warm-up is over.
    pub fn wants_signals(&self, index: usize) -> (r: bool)
        ensures
            r == (WARMUP_CANDLES <= index < self.spec_data().len()),
    {
        index >= WARMUP_CANDLES && index < self.data.len()
    }

    /// The window the strategy is shown for candle `index`: the candles from
    /// the first up to that one, and all of them where there is no such
    /// candle.
    pub fn window(&self, index: usize) -> (r: Vec<OHLCV>)
        ensures
            r@ == if index < self.spec_data().len() {
                self.spec_data().take(index + 1)
            } else {
                self.spec_data()
            },
    {
        let mut out: Vec<OHLCV> = Vec::new();
        let mut i: usize = 0;
        while i < self.data.len() && i <= index
            invariant
                i <= self.data.len(),
                i <= index + 1,
                out@ == self.data@.take(i as int),
            decreases self.data.len() - i,
        {
            out.push(self.data[i]);
            proof {
                assert(self.data@.take(i + 1) =~= self.data@.take(i as int).push(self.data@[i as int]));
            }
            i = i + 1;
        }
        proof {
            assert(self.data@.take(self.data@.len() as int) =~= self.data@);
        }
        out
    }

    /// Starts the replay afresh: no trades, and the stake as the balance.
    pub fn reset(&mut self)
        ensures
            final(self).spec_config() == old(self).spec_config(),
            final(self).spec_strategy() == old(self).spec_strategy(),
            final(self).spec_data() == old(self).spec_data(),
            final(self).state() == fresh_state(old(self).spec_config()),
    {
        self.trades = Vec::new();
        self.balance = self.config.stake_amount;
        proof {
            assert(trade_views(self.trades@) =~= Seq::<TradeView>::empty());
        }
    }

    /// Takes candle `index` into the replay, given whether the strategy
    /// gave a buy and a sell signal for the window that ends with it, and the
    /// identifier for a trade that may open. A candle of the warm-up, or one
    /// that does not exist, changes nothing. Fails with a `Decimal` error,
    /// and changes nothing, where the proceeds of a sale cannot be computed.
    /// Every trade of the replay is open without close fields, or closed by a
    /// signal with a close rate and a close date.
    pub fn step(&mut self, index: usize, has_buy: bool, has_sell: bool, id: u128) -> (r: Result<
        (),
        AppError,
    >)
        ensures
            final(self).spec_config() == old(self).spec_config(),
            final(self).spec_strategy() == old(self).spec_strategy(),
            final(self).spec_data() == old(self).spec_data(),
            !(WARMUP_CANDLES <= index < old(self).spec_data().len()) ==> r is Ok && final(self).state() == old(self).state(),
            WARMUP_CANDLES <= index < old(self).spec_data().len() ==> match replay_step(
                old(self).state(),
                old(self).spec_config().commission,
                old(self).spec_strategy(),
                old(self).spec_data()[index as int],
                has_buy,
                has_sell,
                id,
            ) {
                Some(next) => r is Ok && final(self).state() == next,
                None => r matches Err(AppError::Decimal(_)) && final(self).state() == old(self).state(),
            },
            all_replay_shaped(old(self).state().trades),
            all_replay_shaped(final(self).state().trades),
    {
        proof {
            use_type_invariant(&*self);
        }
        if index < WARMUP_CANDLES || index >= self.data.len() {
            return Ok(());
        }
        let candle = self.data[index];
        let ghost before = trade_views(self.trades@);
        if has_buy {
            let trade = Trade {
                id,
                pair: String::from_str("BTCUSDT"),
                is_open: true,
                exchange: String::from_str("binance"),
                open_rate: candle.close,
                open_date: candle.timestamp,
                close_rate: None,
                close_date: None,
                amount: self.balance,
                stake_amount: self.balance,
                strategy: self.strategy.clone(),
                timeframe: Timeframe::OneHour,
                stop_loss: None,
                take_profit: None,
                exit_reason: None,
                profit_abs: None,
                profit_ratio: None,
            };
            let ghost added = trade@;
            let mut work: Vec<Trade> = Vec::new();
            core::mem::swap(&mut self.trades, &mut work);
            work.push(trade);
            proof {
                assert(trade_views(work@) =~= before.push(added));
            }
            self.trades = work;
            self.balance = Decimal::zero();
            Ok(())
        } else if has_sell && self.trades.len() > 0 && self.trades[self.trades.len() - 1].is_open {
            let last: usize = self.trades.len() - 1;
            let value = match self.trades[last].amount.checked_mul(candle.close) {
                Some(v) => v,
                None => {
                    return Err(AppError::Decimal(String::from_str("proceeds cannot be computed")));
                },
            };
            let kept = match Decimal::from_i64(1).checked_sub(self.config.commission) {
                Some(k) => k,
                None => {
                    return Err(AppError::Decimal(String::from_str("proceeds cannot be computed")));
                },
            };
            let balance = match value.checked_mul(kept) {
                Some(b) => b,
                None => {
                    return Err(AppError::Decimal(String::from_str("proceeds cannot be computed")));
                },
            };
            let mut closed = self.trades[last].clone();
            closed.is_open = false;
            closed.close_rate = Some(candle.close);
            closed.close_date = Some(candle.timestamp);
            closed.exit_reason = Some(ExitType::Signal);
            let ghost changed = closed@;
            let mut work: Vec<Trade> = Vec::new();
            core::mem::swap(&mut self.trades, &mut work);
            work.set(last, closed);
            proof {
                assert(trade_views(work@) =~= before.update(last as int, changed));
            }
            self.trades = work;
            self.balance = balance;
            Ok(())
        } else {
            Ok(())
        }
    }

    /// Replays all the candles from a fresh start: for each candle past the
    /// warm-up the strategy is shown the window that ends with it and asked
    /// for its buy and sell signals, and the candle is taken into the replay.
    /// The trade that candle `i` may open gets the identifier `first_id + i`,
    /// wrapping around. Fails, with the replay left where it stood, as soon
    /// as the strategy fails or the proceeds of a sale cannot be computed.
    /// Whatever the strategy answers, the state at the end is that of a
    /// replay of the candles taken so far under some flags; so every trade is
    /// open without close fields or closed by a signal with a close rate and
    /// a close date, and at most one trade was opened for each candle.
    /// Candles within the warm-up alone give no trade and always succeed.
    pub fn run(&mut self, strategy: &dyn Strategy, first_id: u128) -> (r: Result<
        BacktestResult,
        AppError,
    >)
        ensures
            final(self).spec_config() == old(self).spec_config(),
            final(self).spec_strategy() == old(self).spec_strategy(),
            final(self).spec_data() == old(self).spec_data(),
            r is Ok ==> reached_after(
                final(self).state(),
                old(self).spec_config(),
                old(self).spec_strategy(),
                old(self).spec_data(),
                first_id,
                old(self).spec_data().len() as int,
            ),
            r is Err ==> exists|n: int|
                WARMUP_CANDLES <= n < old(self).spec_data().len() && #[trigger] reached_after(
                    final(self).state(),
                    old(self).spec_config(),
                    old(self).spec_strategy(),
                    old(self).spec_data(),
                    first_id,
                    n,
                ),
            all_replay_shaped(final(self).state().trades),
            final(self).state().trades.len() <= old(self).spec_data().len(),
            old(self).spec_data().len() <= WARMUP_CANDLES ==> r is Ok && final(self).state()
                == fresh_state(old(self).spec_config()),
            r matches Ok(summary) ==> {
                &&& trade_views(summary.trades@) == final(self).state().trades
                &&& summary.total_trades == final(self).state().trades.len()
                &&& summary.winning_trades == winners(final(self).state().trades)
                &&& summary.losing_trades == losers(final(self).state().trades)
                &&& summary.winning_trades + summary.losing_trades <= summary.total_trades
                &&& summary.win_rate == win_share(
                    winners(final(self).state().trades),
                    final(self).state().trades.len(),
                )
                &&& summary.total_profit == replay_profit(
                    final(self).state().balance,
                    final(self).spec_config().stake_amount,
                )
                &&& summary.strategy@ == final(self).spec_strategy()
                &&& summary.start_date == final(self).spec_config().start_date
                &&& summary.end_date == final(self).spec_config().end_date
            },
    {
        self.reset();
        let ghost start = fresh_state(self.spec_config());
        let ghost commission = self.spec_config().commission;
        let ghost name = self.spec_strategy();
        let ghost data = self.spec_data();
        let ghost mut flags: Seq<(bool, bool)> = Seq::empty();
        let mut i: usize = 0;
        proof {
            assert(data.take(0) =~= Seq::<OHLCV>::empty());
        }
        while i < self.data.len()
            invariant
                i <= self.data.len(),
                self.spec_config() == old(self).spec_config(),
                self.spec_strategy() == old(self).spec_strategy(),
                self.spec_data() == old(self).spec_data(),
                start == fresh_state(self.spec_config()),
                commission == self.spec_config().commission,
                name == self.spec_strategy(),
                data == self.spec_data(),
                flags.len() == i,
                replayed(start, commission, name, data.take(i as int), flags, first_id) == Some(
                    self.state(),
                ),
            decreases self.data.len() - i,
        {
            let ghost earlier = flags;
            let ghost before = self.state();
            let mut has_buy: bool = false;
            let mut has_sell: bool = false;
            proof {
                assert(data.take(i + 1).drop_last() =~= data.take(i as int));
            }
            if self.wants_signals(i) {
                let window = self.window(i);
                let buy_signals = match strategy.populate_buy_trend(&window) {
                    Ok(s) => s,
                    Err(e) => {
                        proof {
                            lemma_replay_keeps_shape(start, commission, name, data.take(i as int), flags, first_id);
                            assert(replayed(
                                fresh_state(self.spec_config()),
                                self.spec_config().commission,
                                name,
                                data.take(i as int),
                                flags,
                                first_id,
                            ) == Some(self.state()));
                            assert(reached_after(
                                self.state(),
                                self.spec_config(),
                                name,
                                data,
                                first_id,
                                i as int,
                            ));
                        }
                        return Err(e);
                    },
                };
                let sell_signals = match strategy.populate_sell_trend(&window) {
                    Ok(s) => s,
                    Err(e) => {
                        proof {
                            lemma_replay_keeps_shape(start, commission, name, data.take(i as int), flags, first_id);
                            assert(replayed(
                                fresh_state(self.spec_config()),
                                self.spec_config().commission,
                                name,
                                data.take(i as int),
                                flags,
                                first_id,
                            ) == Some(self.state()));
                            assert(reached_after(
                                self.state(),
                                self.spec_config(),
                                name,
                                data,
                                first_id,
                                i as int,
                            ));
                        }
                        return Err(e);
                    },
                };
                has_buy = buy_signals.len() > 0;
                has_sell = sell_signals.len() > 0;
                let id: u128 = nth_id(first_id, i);
                match self.step(i, has_buy, has_sell, id) {
                    Ok(_) => {},
                    Err(e) => {
                        proof {
                            lemma_replay_keeps_shape(start, commission, name, data.take(i as int), flags, first_id);
                            assert(replayed(
                                fresh_state(self.spec_config()),
                                self.spec_config().commission,
                                name,
                                data.take(i as int),
                                flags,
                                first_id,
                            ) == Some(self.state()));
                            assert(reached_after(
                                self.state(),
                                self.spec_config(),
                                name,
                                data,
                                first_id,
                                i as int,
                            ));
                        }
                        return Err(e);
                    },
                }
            }
            proof {
                flags = earlier.push((has_buy, has_sell));
                lemma_replayed_reads_its_flags(
                    start,
                    commission,
                    name,
                    data.take(i as int),
                    earlier,
                    flags,
                    first_id,
                );
            }
            i = i + 1;
        }
        proof {
            assert(data.take(i as int) =~= data);
            lemma_replay_keeps_shape(start, commission, name, data, flags, first_id);
        }
        Ok(self.summary())
    }

    /// The summary of the replay so far: the trades, how many of them won
    /// and lost, the share of winners, and the profit over the starting
    /// balance. Drawdown, Sharpe ratio, profit factor and the average profit
    /// and loss are not computed and stand at zero.
    pub fn summary(&self) -> (r: BacktestResult)
        ensures
            r.strategy@ == self.spec_strategy(),
            r.pair@ == "BTCUSDT"@,
            r.timeframe == Timeframe::OneHour,
            r.start_date == self.spec_config().start_date,
            r.end_date == self.spec_config().end_date,
            trade_views(r.trades@) == self.state().trades,
            all_replay_shaped(self.state().trades),
            r.total_trades == self.state().trades.len(),
            r.winning_trades == winners(self.state().trades),
            r.losing_trades == losers(self.state().trades),
            r.winning_trades + r.losing_trades <= r.total_trades,
            r.win_rate == win_share(winners(self.state().trades), self.state().trades.len()),
            r.total_profit == replay_profit(self.state().balance, self.spec_config().stake_amount),
            r.max_drawdown == Decimal::spec_zero(),
            r.sharpe_ratio == Decimal::spec_zero(),
            r.profit_factor == Decimal::spec_zero(),
            r.avg_profit == Decimal::spec_zero(),
            r.avg_loss == Decimal::spec_zero(),
    {
        proof {
            use_type_invariant(self);
        }
        let ghost views = trade_views(self.trades@);
        let mut copies: Vec<Trade> = Vec::new();
        let mut wins: usize = 0;
        let mut losses: usize = 0;
        let mut i: usize = 0;
        while i < self.trades.len()
            invariant
                i <= self.trades.len(),
                views == trade_views(self.trades@),
                trade_views(copies@) == views.take(i as int),
                wins == winners(views.take(i as int)),
                losses == losers(views.take(i as int)),
                wins + losses <= i,
            decreases self.trades.len() - i,
        {
            let t = &self.trades[i];
            proof {
                assert(views.take(i + 1).drop_last() =~= views.take(i as int));
            }
            let profitable: bool = match t.profit_abs {
                Some(p) => p.is_positive(),
                None => false,
            };
            if !t.is_open {
                if profitable {
                    wins = wins + 1;
                } else {
                    losses = losses + 1;
                }
            }
            let copy = t.clone();
            copies.push(copy);
            i = i + 1;
        }
        proof {
            assert(views.take(i as int) =~= views);
        }
        let total: usize = self.trades.len();
        let win_rate = if total == 0 {
            Decimal::zero()
        } else {
            let w = Decimal::new(wins as i128, 0).unwrap();
            let n = Decimal::new(total as i128, 0).unwrap();
            match w.checked_div(n) {
                Some(share) => share,
                None => Decimal::zero(),
            }
        };
        let total_profit = match self.balance.checked_sub(self.config.stake_amount) {
            Some(p) => p,
            None => Decimal::zero(),
        };
        BacktestResult {
            strategy: self.strategy.clone(),
            pair: String::from_str("BTCUSDT"),
            timeframe: Timeframe::OneHour,
            start_date: self.config.start_date,
            end_date: self.config.end_date,
            total_trades: total,
            winning_trades: wins,
            losing_trades: losses,
            win_rate,
            total_profit,
            max_drawdown: Decimal::zero(),
            sharpe_ratio: Decimal::zero(),
            profit_factor: Decimal::zero(),
            avg_profit: Decimal::zero(),
            avg_loss: Decimal::zero(),
            trades: copies,
        }
    }
}

} // verus!
