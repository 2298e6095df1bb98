use freqtrade_rs::backtest::{BacktestConfig, BacktestEngine};
use freqtrade_rs::decimal::Decimal;
use freqtrade_rs::error::AppError;
use freqtrade_rs::strategy::Strategy;
use freqtrade_rs::time::Timestamp;
use freqtrade_rs::types::{ExitType, Signal, SignalType, Timeframe, Trade, OHLCV};

fn dec(text: &str) -> Decimal {
    Decimal::parse(text).unwrap()
}

fn candles(n: usize) -> Vec<OHLCV> {
    (0..n)
        .map(|i| OHLCV {
            timestamp: Timestamp::from_millis(i as i64 * 3_600_000),
            open: dec("10"),
            high: dec("30"),
            low: dec("5"),
            close: Decimal::from_i64(10 + (i as i64 % 10)),
            volume: dec("1"),
        })
        .collect()
}

fn engine(n: usize) -> BacktestEngine {
    BacktestEngine::new(
        BacktestConfig {
            start_date: Timestamp::from_millis(0),
            end_date: Timestamp::from_millis(1000),
            stake_amount: dec("100"),
            commission: dec("0.01"),
        },
        "Stub".to_string(),
        candles(n),
    )
}

#[test]
fn the_warm_up_is_not_replayed() {
    let mut e = engine(120);
    assert!(!e.wants_signals(0));
    assert!(!e.wants_signals(99));
    assert!(e.wants_signals(100));
    assert!(e.wants_signals(119));
    assert!(!e.wants_signals(120));
    assert!(e.step(50, true, false, 1).is_ok());
    assert!(e.step(500, true, false, 1).is_ok());
    let summary = e.summary();
    assert_eq!(summary.total_trades, 0);
    assert_eq!(summary.total_profit, Decimal::zero());
    assert_eq!(summary.win_rate, Decimal::zero());
}

#[test]
fn a_buy_opens_and_a_sell_closes() {
    let mut e = engine(120);
    e.step(100, true, false, 1).unwrap();
    e.step(101, false, false, 2).unwrap();
    e.step(105, false, true, 3).unwrap();
    e.step(106, false, true, 4).unwrap();
    let summary = e.summary();
    assert_eq!(summary.strategy, "Stub");
    assert_eq!(summary.pair, "BTCUSDT");
    assert_eq!(summary.timeframe, Timeframe::OneHour);
    assert_eq!(summary.total_trades, 1);
    assert_eq!(summary.winning_trades, 0);
    assert_eq!(summary.losing_trades, 1);
    let trade = &summary.trades[0];
    assert_eq!(trade.id, 1);
    assert!(!trade.is_open);
    assert_eq!(trade.open_rate, dec("10"));
    assert_eq!(trade.amount, dec("100"));
    assert_eq!(trade.close_rate, Some(dec("15")));
    assert_eq!(trade.close_date, Some(Timestamp::from_millis(105 * 3_600_000)));
    assert_eq!(trade.exit_reason, Some(ExitType::Signal));
    // 100 * 15 * (1 - 0.01) - 100
    assert_eq!(summary.total_profit, dec("1385"));
    assert_eq!(summary.start_date.millis, 0);
    assert_eq!(summary.end_date.millis, 1000);
}

#[test]
fn a_buy_signal_wins_over_a_sell_signal() {
    let mut e = engine(120);
    e.step(100, true, true, 1).unwrap();
    e.step(101, true, true, 2).unwrap();
    let summary = e.summary();
    assert_eq!(summary.total_trades, 2);
    assert!(summary.trades[0].is_open);
    assert_eq!(summary.trades[1].amount, Decimal::zero());
    assert_eq!(summary.total_profit, dec("-100"));
    assert_eq!(summary.losing_trades, 0);
}

struct EveryFifth {
    fails_at: Option<usize>,
}

impl Strategy for EveryFifth {
    fn name(&self) -> String {
        "EveryFifth".to_string()
    }

    fn timeframes(&self) -> Vec<Timeframe> {
        vec![Timeframe::OneHour]
    }

    fn populate_indicators(&mut self, _data: &mut Vec<OHLCV>) -> Result<(), AppError> {
        Ok(())
    }

    fn populate_buy_trend(&self, data: &Vec<OHLCV>) -> Result<Vec<Signal>, AppError> {
        let last = data.len() - 1;
        if Some(last) == self.fails_at {
            return Err(AppError::Strategy("no data".to_string()));
        }
        if last % 10 == 0 {
            Ok(vec![Signal::new(last, SignalType::Buy, dec("1")).unwrap()])
        } else {
            Ok(Vec::new())
        }
    }

    fn populate_sell_trend(&self, data: &Vec<OHLCV>) -> Result<Vec<Signal>, AppError> {
        let last = data.len() - 1;
        if last % 10 == 5 {
            Ok(vec![Signal::new(last, SignalType::Sell, dec("1")).unwrap()])
        } else {
            Ok(Vec::new())
        }
    }

    fn confirm_trade_exit(&self, _trade: &Trade, _action: ExitType) -> Result<bool, AppError> {
        Ok(true)
    }

    fn custom_stoploss(&self, _pair: &str, _current_profit: Decimal) -> Result<Option<Decimal>, AppError> {
        Ok(None)
    }
}

#[test]
fn a_run_asks_the_strategy_for_every_window_past_the_warm_up() {
    let mut e = engine(120);
    let summary = e.run(&EveryFifth { fails_at: None }, 1000).unwrap();
    // buys at candles 100 and 110, sells at 105 and 115
    assert_eq!(summary.total_trades, 2);
    assert_eq!(summary.trades[0].id, 1100);
    assert_eq!(summary.trades[1].id, 1110);
    assert_eq!(summary.trades[0].open_date.millis, 100 * 3_600_000);
    assert_eq!(summary.trades[0].close_date, Some(Timestamp::from_millis(105 * 3_600_000)));
    assert_eq!(summary.trades[0].amount, dec("100"));
    // 100 * 15 * 0.99 = 1485, all of it staked again at 10 and sold at 15
    assert_eq!(summary.trades[1].amount, dec("1485"));
    assert_eq!(summary.total_profit, dec("1485").checked_mul(dec("15")).unwrap().checked_mul(dec("0.99")).unwrap().checked_sub(dec("100")).unwrap());
    assert_eq!(summary.losing_trades, 2);
    assert_eq!(summary.strategy, "Stub");

    let mut short = engine(100);
    assert_eq!(short.run(&EveryFifth { fails_at: None }, 1).unwrap().total_trades, 0);
}

#[test]
fn a_run_fails_with_the_strategy() {
    let mut e = engine(120);
    let outcome = e.run(&EveryFifth { fails_at: Some(107) }, 1);
    assert_eq!(outcome, Err(AppError::Strategy("no data".to_string())));
    assert_eq!(e.summary().total_trades, 1);
}

#[test]
fn a_run_starts_afresh_each_time() {
    let mut e = engine(120);
    let first = e.run(&EveryFifth { fails_at: None }, 1000).unwrap();
    let second = e.run(&EveryFifth { fails_at: None }, 1000).unwrap();
    assert_eq!(second.total_trades, first.total_trades);
    assert_eq!(second.trades, first.trades);
    assert_eq!(second.total_profit, first.total_profit);

    e.step(100, true, false, 1).unwrap();
    assert_eq!(e.summary().total_trades, 3);
    e.reset();
    assert_eq!(e.summary().total_trades, 0);
    assert_eq!(e.summary().total_profit, Decimal::zero());
}

#[test]
fn the_strategy_is_shown_the_candles_up_to_the_current_one() {
    let e = engine(120);
    assert_eq!(e.window(0), candles(1));
    assert_eq!(e.window(100), candles(101));
    assert_eq!(e.window(119), candles(120));
    assert_eq!(e.window(500), candles(120));
    assert!(engine(0).window(0).is_empty());
}

#[test]
fn every_trade_of_a_replay_is_open_or_closed_by_a_signal() {
    for fails_at in [None, Some(103), Some(118)] {
        let mut e = engine(120);
        let _ = e.run(&EveryFifth { fails_at }, 7);
        let summary = e.summary();
        assert_eq!(summary.total_trades, summary.trades.len());
        assert!(summary.winning_trades + summary.losing_trades <= summary.total_trades);
        for trade in &summary.trades {
            if trade.is_open {
                assert!(trade.close_rate.is_none() && trade.close_date.is_none() && trade.exit_reason.is_none());
            } else {
                assert!(trade.close_rate.is_some() && trade.close_date.is_some());
                assert_eq!(trade.exit_reason, Some(ExitType::Signal));
            }
        }
    }
}
