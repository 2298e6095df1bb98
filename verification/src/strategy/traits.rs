//! The strategy port: what the coordinator and the replay ask of a strategy.

use crate::decimal::Decimal;
use crate::error::AppError;
use crate::types::{ExitType, Signal, Timeframe, Trade, OHLCV};
use vstd::prelude::*;
use vstd::string::*;

verus! {

/// A strategy: it names itself and its timeframes, may add indicators to a
/// candle window, and gives the buy and sell signals of a window. What it
/// answers is its own affair: nothing is promised of it here.
pub trait Strategy {
    /// The name under which trades of the strategy are stored.
    fn name(&self) -> String;

    /// The timeframes the strategy works on.
    fn timeframes(&self) -> Vec<Timeframe>;

    /// Prepares the candle window before signals are asked for.
    fn populate_indicators(&mut self, data: &mut Vec<OHLCV>) -> Result<(), AppError>;

    /// The buy signals of a candle window.
    fn populate_buy_trend(&self, data: &Vec<OHLCV>) -> Result<Vec<Signal>, AppError>;

    /// The sell signals of a candle window.
    fn populate_sell_trend(&self, data: &Vec<OHLCV>) -> Result<Vec<Signal>, AppError>;

    /// Whether the strategy agrees to an exit; a strategy without an
    /// opinion agrees.
    fn confirm_trade_exit(&self, trade: &Trade, action: ExitType) -> Result<bool, AppError>;

    /// The stop-loss ratio the strategy wants for a pair at a profit; a
    /// strategy without an opinion wants none.
    fn custom_stoploss(&self, pair: &str, current_profit: Decimal) -> Result<
        Option<Decimal>,
        AppError,
    >;
}

/// The answer of a strategy without an opinion on an exit: it agrees.
pub fn default_confirm_trade_exit() -> (r: Result<bool, AppError>)
    ensures
        r == Ok::<bool, AppError>(true),
{
    Ok(true)
}

/// The answer of a strategy without an opinion on the stop-loss: none.
pub fn default_custom_stoploss() -> (r: Result<Option<Decimal>, AppError>)
    ensures
        r == Ok::<Option<Decimal>, AppError>(None),
{
    Ok(None)
}

/// A strategy that never gives a signal.
pub struct SimpleStrategy {}

impl SimpleStrategy {
    /// The strategy.
    pub fn new() -> (r: Self)
        ensures
            r == (SimpleStrategy {  }),
    {
        SimpleStrategy {  }
    }
}

impl Strategy for SimpleStrategy {
    fn name(&self) -> (r: String)
        ensures
            r@ == "SimpleStrategy"@,
    {
        String::from_str("SimpleStrategy")
    }

    fn timeframes(&self) -> (r: Vec<Timeframe>)
        ensures
            r@ == seq![Timeframe::OneHour],
    {
        let mut v: Vec<Timeframe> = Vec::new();
        v.push(Timeframe::OneHour);
        v
    }

    fn populate_indicators(&mut self, data: &mut Vec<OHLCV>) -> (r: Result<(), AppError>)
        ensures
            r is Ok,
            final(data)@ == old(data)@,
    {
        Ok(())
    }

    fn populate_buy_trend(&self, data: &Vec<OHLCV>) -> (r: Result<Vec<Signal>, AppError>)
        ensures
            r matches Ok(signals) && signals@.len() == 0,
    {
        Ok(Vec::new())
    }

    fn populate_sell_trend(&self, data: &Vec<OHLCV>) -> (r: Result<Vec<Signal>, AppError>)
        ensures
            r matches Ok(signals) && signals@.len() == 0,
    {
        Ok(Vec::new())
    }

    fn confirm_trade_exit(&self, trade: &Trade, action: ExitType) -> (r: Result<bool, AppError>)
        ensures
            r == Ok::<bool, AppError>(true),
    {
        default_confirm_trade_exit()
    }

    fn custom_stoploss(&self, pair: &str, current_profit: Decimal) -> (r: Result<
        Option<Decimal>,
        AppError,
    >)
        ensures
            r == Ok::<Option<Decimal>, AppError>(None),
    {
        default_custom_stoploss()
    }
}

} // verus!
