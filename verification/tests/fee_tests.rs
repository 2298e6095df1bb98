use freqtrade_rs::decimal::Decimal;
use freqtrade_rs::error::AppError;
use freqtrade_rs::trade::fee::{
    binance_fee, calculate_fee, calculate_slippage, calculate_total_cost, simulate_slippage, Fee,
};

fn dec(text: &str) -> Decimal {
    Decimal::parse(text).unwrap()
}

fn one_per_mille() -> Decimal {
    Decimal::from_i64(1).checked_div(Decimal::from_i64(1000)).unwrap()
}

#[test]
fn test_calculate_fee_base_currency() {
    let amount = Decimal::from_i64(1);
    let price = Decimal::from_i64(50000);
    let fee_rate = one_per_mille();

    let fee = calculate_fee(amount, price, fee_rate, "base").unwrap();

    assert_eq!(fee, dec("0.001"));
}

#[test]
fn test_calculate_fee_quote_currency() {
    let amount = Decimal::from_i64(1);
    let price = Decimal::from_i64(50000);
    let fee_rate = one_per_mille();

    let fee = calculate_fee(amount, price, fee_rate, "quote").unwrap();

    assert_eq!(fee, dec("50.0"));
}

#[test]
fn test_calculate_slippage() {
    let expected = Decimal::from_i64(50000);
    let actual = Decimal::from_i64(50250);

    let slippage = calculate_slippage(expected, actual).unwrap();

    assert_eq!(slippage, dec("0.005"));
}

#[test]
fn test_zero_slippage() {
    let price = Decimal::from_i64(50000);

    let slippage = calculate_slippage(price, price).unwrap();

    assert_eq!(slippage, Decimal::zero());
}

#[test]
fn test_total_cost() {
    let amount = Decimal::from_i64(1);
    let price = Decimal::from_i64(50000);
    let fee_rate = one_per_mille();

    let (total, fee) = calculate_total_cost(amount, price, fee_rate, "quote").unwrap();

    assert_eq!(total, dec("50050.0"));
    assert_eq!(fee, dec("50.0"));
}

#[test]
fn slippage_of_an_expected_price_of_zero_is_zero() {
    assert_eq!(calculate_slippage(Decimal::zero(), dec("5")).unwrap(), Decimal::zero());
    assert_eq!(calculate_slippage(dec("100"), dec("99")).unwrap(), dec("0.01"));
}

#[test]
fn simulated_slippage_raises_market_orders_only() {
    let base = dec("100");
    assert_eq!(simulate_slippage(base, dec("1"), "market", dec("0.001")).unwrap(), dec("100.2"));
    assert_eq!(simulate_slippage(base, dec("1"), "limit", dec("0.001")).unwrap(), base);
    assert_eq!(simulate_slippage(base, dec("1"), "other", dec("0.001")).unwrap(), base);
}

#[test]
fn fees_overflow_into_a_decimal_error() {
    let max = Decimal::new(79_228_162_514_264_337_593_543_950_335, 0).unwrap();
    assert!(matches!(calculate_fee(max, max, dec("2"), "quote"), Err(AppError::Decimal(_))));
    assert!(matches!(calculate_fee(max, dec("1"), dec("2"), "base"), Err(AppError::Decimal(_))));
    assert!(matches!(calculate_total_cost(max, dec("1"), dec("1"), "quote"), Err(AppError::Decimal(_))));
}

#[test]
fn binance_fees_by_vip_level() {
    assert_eq!(binance_fee(true, 0), dec("0.001"));
    assert_eq!(binance_fee(false, 0), dec("0.001"));
    assert_eq!(binance_fee(true, 1), dec("0.0009"));
    assert_eq!(binance_fee(false, 1), dec("0.001"));
    assert_eq!(binance_fee(true, 2), dec("0.0008"));
    assert_eq!(binance_fee(false, 2), dec("0.001"));
    assert_eq!(binance_fee(true, 3), dec("0.0006"));
    assert_eq!(binance_fee(false, 9), dec("0.0008"));
    let fee = Fee::default();
    assert_eq!(fee.maker_fee, dec("0.001"));
    assert_eq!(fee.taker_fee, dec("0.001"));
}
