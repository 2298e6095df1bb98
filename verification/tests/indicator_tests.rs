use freqtrade_rs::decimal::Decimal;
use freqtrade_rs::error::AppError;
use freqtrade_rs::strategy::traits::{SimpleStrategy, Strategy};
use freqtrade_rs::strategy::{RSI, SMA};
use freqtrade_rs::time::Timestamp;
use freqtrade_rs::types::{Signal, SignalType, Timeframe, OHLCV};

fn dec(text: &str) -> Decimal {
    Decimal::parse(text).unwrap()
}

fn create_ohlcv(close_prices: Vec<&str>) -> Vec<OHLCV> {
    close_prices
        .into_iter()
        .enumerate()
        .map(|(i, price)| OHLCV {
            timestamp: Timestamp::from_millis(i as i64 * 3_600_000),
            open: Decimal::zero(),
            high: Decimal::zero(),
            low: Decimal::zero(),
            close: dec(price),
            volume: Decimal::zero(),
        })
        .collect()
}

#[test]
fn test_sma_calculation() {
    let prices = vec!["10", "12", "14", "16", "18"];
    let data = create_ohlcv(prices);
    let sma = SMA::new(3);
    let result = sma.calculate(&data).unwrap();

    assert_eq!(result[0], None);
    assert_eq!(result[1], None);
    assert_eq!(result[2], Some(dec("12")));
    assert_eq!(result[3], Some(dec("14")));
    assert_eq!(result[4], Some(dec("16")));
}

#[test]
fn test_rsi_calculation() {
    let mut prices = Vec::new();
    for i in 0..20 {
        if i % 2 == 0 {
            prices.push("10");
        } else {
            prices.push("12");
        }
    }
    let data = create_ohlcv(prices);
    let rsi = RSI::new(14);
    let result = rsi.calculate(&data).unwrap();

    assert_eq!(result.len(), 20);
    for i in 0..14 {
        assert_eq!(result[i], None, "Index {} should be None", i);
    }
    for i in 14..20 {
        assert!(result[i].is_some(), "Index {} should be Some", i);
    }
}

#[test]
fn sma_of_a_short_window_is_empty_throughout() {
    let data = create_ohlcv(vec!["10", "12"]);
    assert_eq!(SMA::new(3).calculate(&data).unwrap(), vec![None, None]);
    assert_eq!(SMA::new(1).calculate(&data).unwrap(), vec![Some(dec("10")), Some(dec("12"))]);
    assert_eq!(SMA::new(3).calculate(&Vec::new()).unwrap(), Vec::<Option<Decimal>>::new());
    assert!(matches!(SMA::new(0).calculate(&data), Err(AppError::InvalidInput(_))));
}

#[test]
fn rsi_follows_wilders_smoothing() {
    let data = create_ohlcv(vec!["10", "12", "11", "13", "13"]);
    let result = RSI::new(2).calculate(&data).unwrap();
    assert_eq!(result.len(), 5);
    assert_eq!(result[0], None);
    assert_eq!(result[1], None);
    // gains 2, 0 and losses 0, 1: averages 1 and 0.5, strength 2
    let expected_2 = dec("100").checked_sub(dec("100").checked_div(dec("3")).unwrap()).unwrap();
    assert_eq!(result[2], Some(expected_2));
    // gain 2: averages (1 + 2) / 2 = 1.5 and (0.5 + 0) / 2 = 0.25, strength 6
    let expected_3 = dec("100").checked_sub(dec("100").checked_div(dec("7")).unwrap()).unwrap();
    assert_eq!(result[3], Some(expected_3));
    // no change: averages 0.75 and 0.125, strength 6
    assert_eq!(result[4], Some(expected_3));
}

#[test]
fn rsi_is_a_hundred_without_losses() {
    let data = create_ohlcv(vec!["10", "11", "12", "13"]);
    let result = RSI::new(2).calculate(&data).unwrap();
    assert_eq!(result, vec![None, None, Some(dec("100")), Some(dec("100"))]);
    assert_eq!(RSI::new(3).calculate(&data).unwrap(), vec![None, None, None, Some(dec("100"))]);
    assert_eq!(RSI::new(4).calculate(&data).unwrap(), vec![None, None, None, None]);
    assert!(matches!(RSI::new(0).calculate(&data), Err(AppError::InvalidInput(_))));
}

#[test]
fn a_signal_has_a_strength_between_zero_and_one() {
    assert!(Signal::new(0, SignalType::Buy, dec("0")).is_some());
    assert!(Signal::new(3, SignalType::Sell, dec("1.0")).is_some());
    assert!(Signal::new(0, SignalType::Buy, dec("1.01")).is_none());
    assert!(Signal::new(0, SignalType::Buy, dec("-0.1")).is_none());
    let s = Signal::new(7, SignalType::Sell, dec("0.5")).unwrap();
    assert_eq!(s.index, 7);
    assert_eq!(s.kind, SignalType::Sell);
}

#[test]
fn the_simple_strategy_gives_no_signal() {
    let mut strategy = SimpleStrategy::new();
    let mut data = create_ohlcv(vec!["10", "12"]);
    assert_eq!(strategy.name(), "SimpleStrategy");
    assert_eq!(strategy.timeframes(), vec![Timeframe::OneHour]);
    assert!(strategy.populate_indicators(&mut data).is_ok());
    assert!(strategy.populate_buy_trend(&data).unwrap().is_empty());
    assert!(strategy.populate_sell_trend(&data).unwrap().is_empty());
    assert_eq!(strategy.custom_stoploss("BTC/USDT", dec("0.1")), Ok(None));
}
