use std::cell::RefCell;

use freqtrade_rs::bot::TradingBot;
use freqtrade_rs::config::BotConfig;
use freqtrade_rs::decimal::Decimal;
use freqtrade_rs::error::AppError;
use freqtrade_rs::exchange::Exchange;
use freqtrade_rs::persistence::klines::{are_all_valid, is_valid_candle, CandleSeries};
use freqtrade_rs::persistence::Repository;
use freqtrade_rs::risk::RiskManager;
use freqtrade_rs::strategy::Strategy;
use freqtrade_rs::time::Timestamp;
use freqtrade_rs::types::{
    Balance, BotStatus, ExitType, Order, OrderRequest, OrderStatus, OrderType, Position, Signal, SignalType,
    Ticker, Timeframe, Trade, TradeSide, OHLCV,
};

const NOW: i64 = 1_700_000_000_000;
const MINUTE: i64 = 60_000;

fn dec(text: &str) -> Decimal {
    Decimal::parse(text).unwrap()
}

fn candle(open_time: i64, close: &str) -> OHLCV {
    OHLCV {
        timestamp: Timestamp::from_millis(open_time),
        open: dec("100"),
        high: dec("110"),
        low: dec("90"),
        close: dec(close),
        volume: dec("1000"),
    }
}

struct Venue {
    candles: Vec<OHLCV>,
    fill_price: Option<Decimal>,
    free: Decimal,
    refuses_orders: bool,
    orders: RefCell<Vec<OrderRequest>>,
    asked: RefCell<Vec<String>>,
}

impl Venue {
    fn new() -> Self {
        Venue {
            candles: vec![candle(NOW - 120 * MINUTE, "104"), candle(NOW - 60 * MINUTE, "105")],
            fill_price: Some(dec("110")),
            free: dec("1000"),
            refuses_orders: false,
            orders: RefCell::new(Vec::new()),
            asked: RefCell::new(Vec::new()),
        }
    }
}

impl Exchange for Venue {
    fn fetch_ticker(&self, symbol: &str) -> Result<Ticker, AppError> {
        Ok(Ticker { symbol: symbol.to_string(), price: dec("105"), volume_24h: dec("1"), change_24h: dec("0") })
    }

    fn fetch_ohlcv(&self, symbol: &str, timeframe: &str, limit: usize) -> Result<Vec<OHLCV>, AppError> {
        self.asked.borrow_mut().push(format!("{} {} {}", symbol, timeframe, limit));
        if symbol == "DOWN/USDT" {
            return Err(AppError::Network("unreachable".to_string()));
        }
        Ok(self.candles.clone())
    }

    fn fetch_balance(&self) -> Result<Balance, AppError> {
        Ok(Balance { currency: "USDT".to_string(), total: self.free, free: self.free, used: Decimal::zero() })
    }

    fn fetch_positions(&self) -> Result<Vec<Position>, AppError> {
        Ok(Vec::new())
    }

    fn create_order(&self, request: OrderRequest) -> Result<Order, AppError> {
        if self.refuses_orders {
            return Err(AppError::Exchange("insufficient funds".to_string()));
        }
        self.orders.borrow_mut().push(request.clone());
        Ok(Order {
            id: "1".to_string(),
            symbol: request.symbol,
            side: request.side,
            order_type: request.order_type,
            status: OrderStatus::Filled,
            price: self.fill_price,
            amount: request.amount,
            filled: request.amount,
            remaining: Decimal::zero(),
            fee: None,
            created_at: Timestamp::from_millis(NOW),
            updated_at: Timestamp::from_millis(NOW),
        })
    }

    fn cancel_order(&self, _order_id: &str) -> Result<(), AppError> {
        Ok(())
    }

    fn fetch_order(&self, _order_id: &str) -> Result<Order, AppError> {
        Err(AppError::NotFound("no such order".to_string()))
    }

    fn fetch_orders(&self, _symbol: &str) -> Result<Vec<Order>, AppError> {
        Ok(Vec::new())
    }

    fn get_name(&self) -> String {
        "mock_exchange".to_string()
    }
}

struct Signals {
    buy: usize,
    sell: usize,
}

impl Strategy for Signals {
    fn name(&self) -> String {
        "MockStrategy".to_string()
    }

    fn timeframes(&self) -> Vec<Timeframe> {
        vec![Timeframe::OneHour]
    }

    fn populate_indicators(&mut self, _data: &mut Vec<OHLCV>) -> Result<(), AppError> {
        Ok(())
    }

    fn populate_buy_trend(&self, _data: &Vec<OHLCV>) -> Result<Vec<Signal>, AppError> {
        Ok((0..self.buy).map(|i| Signal::new(i, SignalType::Buy, dec("1")).unwrap()).collect())
    }

    fn populate_sell_trend(&self, _data: &Vec<OHLCV>) -> Result<Vec<Signal>, AppError> {
        Ok((0..self.sell).map(|i| Signal::new(i, SignalType::Sell, dec("1")).unwrap()).collect())
    }

    fn confirm_trade_exit(&self, _trade: &Trade, _action: ExitType) -> Result<bool, AppError> {
        Ok(true)
    }

    fn custom_stoploss(&self, _pair: &str, _current_profit: Decimal) -> Result<Option<Decimal>, AppError> {
        Ok(None)
    }
}

fn config(dry_run: bool, pairs: &[&str]) -> BotConfig {
    BotConfig {
        max_open_trades: 3,
        stake_amount: dec("100"),
        dry_run,
        trading_pairs: pairs.iter().map(|p| p.to_string()).collect(),
        ..BotConfig::default()
    }
}

fn held(id: u128, pair: &str, open_rate: &str, amount: &str) -> Trade {
    Trade {
        id,
        pair: pair.to_string(),
        is_open: true,
        exchange: "mock_exchange".to_string(),
        open_rate: dec(open_rate),
        open_date: Timestamp::from_millis(NOW - 300 * MINUTE),
        close_rate: None,
        close_date: None,
        amount: dec(amount),
        stake_amount: dec("100"),
        strategy: "MockStrategy".to_string(),
        timeframe: Timeframe::OneHour,
        stop_loss: None,
        take_profit: None,
        exit_reason: None,
        profit_abs: None,
        profit_ratio: None,
    }
}

fn closed(id: u128, pair: &str, minutes_ago: i64, profit_abs: &str, profit_ratio: &str) -> Trade {
    let mut t = held(id, pair, "100", "1");
    t.is_open = false;
    t.open_date = Timestamp::from_millis(NOW - (minutes_ago + 60) * MINUTE);
    t.close_rate = Some(dec("100"));
    t.close_date = Some(Timestamp::from_millis(NOW - minutes_ago * MINUTE));
    t.exit_reason = Some(ExitType::Signal);
    t.profit_abs = Some(dec(profit_abs));
    t.profit_ratio = Some(dec(profit_ratio));
    t
}

fn running(manager: Option<RiskManager>, config: BotConfig) -> TradingBot {
    let mut bot = TradingBot::new(manager, config);
    bot.start().unwrap();
    bot
}

#[test]
fn scenario_dry_run_entry() {
    let mut bot = running(None, config(true, &["BTC/USDT"]));
    let venue = Venue::new();
    let mut store = Repository::new();
    let now = Timestamp::from_millis(NOW);
    assert!(bot.run_iteration(&venue, &Signals { buy: 1, sell: 0 }, &mut store, "1h", now, 40).is_ok());

    let open = store.get_open_trades().unwrap();
    assert_eq!(open.len(), 1);
    assert_eq!(open[0].pair, "BTC/USDT");
    assert_eq!(open[0].stake_amount, dec("100"));
    assert_eq!(open[0].amount, dec("100").checked_div(dec("105")).unwrap());
    assert_eq!(open[0].open_rate, dec("105"));
    assert_eq!(open[0].id, 40);
    assert_eq!(open[0].exchange, "mock_exchange");
    assert_eq!(open[0].strategy, "MockStrategy");
    assert_eq!(open[0].open_date, now);
    assert!(venue.orders.borrow().is_empty());
    assert_eq!(venue.asked.borrow().as_slice(), ["BTC/USDT 1h 500".to_string()]);
    assert_eq!(bot.get_status(), BotStatus::Running);
}

#[test]
fn scenario_multi_pair_fan_out() {
    for pairs in [["BTC/USDT", "ETH/USDT"], ["ETH/USDT", "BTC/USDT"]] {
        let mut bot = running(None, config(true, &pairs));
        let venue = Venue::new();
        let mut store = Repository::new();
        let now = Timestamp::from_millis(NOW);
        bot.run_iteration(&venue, &Signals { buy: 1, sell: 0 }, &mut store, "1h", now, 1).unwrap();
        let open = store.get_open_trades().unwrap();
        assert_eq!(open.len(), 2);
        let mut names: Vec<String> = open.iter().map(|t| t.pair.clone()).collect();
        names.sort();
        assert_eq!(names, vec!["BTC/USDT".to_string(), "ETH/USDT".to_string()]);

        bot.run_iteration(&venue, &Signals { buy: 1, sell: 0 }, &mut store, "1h", now, 10).unwrap();
        assert_eq!(store.get_open_trades().unwrap().len(), 2);
    }
}

#[test]
fn scenario_exit_via_signal() {
    let mut bot = running(None, config(false, &["BTC/USDT"]));
    let venue = Venue::new();
    let mut store = Repository::new();
    store.create_trade(&held(7, "BTC/USDT", "100", "1")).unwrap();
    let now = Timestamp::from_millis(NOW);
    bot.run_iteration(&venue, &Signals { buy: 1, sell: 1 }, &mut store, "1h", now, 50).unwrap();

    let all = store.get_all_trades().unwrap();
    assert_eq!(all.len(), 1);
    assert!(!all[0].is_open);
    assert_eq!(all[0].id, 7);
    assert_eq!(all[0].close_rate, Some(dec("110")));
    assert_eq!(all[0].close_date, Some(now));
    assert_eq!(all[0].exit_reason, Some(ExitType::Signal));
    assert_eq!(all[0].profit_abs, Some(dec("10")));
    assert_eq!(all[0].profit_ratio, Some(dec("0.1")));
    let orders = venue.orders.borrow();
    assert_eq!(orders.len(), 1);
    assert_eq!(orders[0].side, TradeSide::Sell);
    assert_eq!(orders[0].order_type, OrderType::Market);
    assert_eq!(orders[0].amount, dec("1"));
    assert_eq!(orders[0].price, None);
}

#[test]
fn an_exit_without_a_reported_price_takes_the_last_close() {
    let mut bot = running(None, config(false, &["BTC/USDT"]));
    let mut venue = Venue::new();
    venue.fill_price = None;
    let mut store = Repository::new();
    store.create_trade(&held(7, "BTC/USDT", "100", "2")).unwrap();
    bot.run_iteration(&venue, &Signals { buy: 0, sell: 3 }, &mut store, "1h", Timestamp::from_millis(NOW), 50)
        .unwrap();
    let all = store.get_all_trades().unwrap();
    assert_eq!(all[0].close_rate, Some(dec("105")));
    assert_eq!(all[0].profit_abs, Some(dec("10")));
    assert_eq!(all[0].profit_ratio, Some(dec("0.05")));
}

#[test]
fn a_locked_pair_is_passed_over_while_others_trade() {
    let mut manager = RiskManager::new();
    manager.add_rule(freqtrade_rs::risk::Protection::Stoploss(freqtrade_rs::risk::StoplossGuard::new(
        freqtrade_rs::risk::StoplossGuardConfig { lookback_period: 1440, stop_duration: 60, max_stoploss_count: 2 },
    )));
    let mut bot = running(Some(manager), config(false, &["BTC/USDT", "ETH/USDT"]));
    let venue = Venue::new();
    let mut store = Repository::new();
    for (id, minutes) in [(1u128, 30i64), (2, 600)] {
        let mut t = closed(id, "BTC/USDT", minutes, "-1", "-0.01");
        t.exit_reason = Some(ExitType::StopLoss);
        store.create_trade(&t).unwrap();
    }
    let now = Timestamp::from_millis(NOW);
    let lock = bot.check_pair_stop("BTC/USDT", now, &store.get_all_trades().unwrap()).unwrap();
    assert_eq!(lock.protection, "StoplossGuard");
    assert!(lock.until.millis > NOW);
    bot.run_iteration(&venue, &Signals { buy: 1, sell: 0 }, &mut store, "1h", now, 50).unwrap();
    let open = store.get_open_trades().unwrap();
    assert_eq!(open.len(), 1);
    assert_eq!(open[0].pair, "ETH/USDT");
    assert_eq!(venue.orders.borrow().len(), 1);
    assert_eq!(venue.orders.borrow()[0].symbol, "ETH/USDT");
}

#[test]
fn scenario_cooldown_veto() {
    let mut bot = running(Some(RiskManager::with_default_protections()), config(false, &["BTC/USDT"]));
    let venue = Venue::new();
    let mut store = Repository::new();
    store.create_trade(&closed(1, "BTC/USDT", 30, "-1", "-0.01")).unwrap();
    store.create_trade(&closed(2, "ETH/USDT", 600, "-1", "-0.01")).unwrap();
    let now = Timestamp::from_millis(NOW);
    assert!(bot.run_iteration(&venue, &Signals { buy: 1, sell: 0 }, &mut store, "1h", now, 50).is_ok());
    assert_eq!(bot.get_status(), BotStatus::Stopped);
    assert!(venue.orders.borrow().is_empty());
    assert!(venue.asked.borrow().is_empty());
    assert_eq!(store.trade_count(), 2);
    assert!(store.get_open_trades().unwrap().is_empty());
}

#[test]
fn scenario_drawdown_veto() {
    let mut bot = running(Some(RiskManager::with_default_protections()), config(false, &["BTC/USDT"]));
    let venue = Venue::new();
    let mut store = Repository::new();
    store.create_trade(&closed(1, "BTC/USDT", 300, "100", "1")).unwrap();
    store.create_trade(&closed(2, "ETH/USDT", 200, "-21", "-0.01")).unwrap();
    let now = Timestamp::from_millis(NOW);
    let stop = bot.check_global_stop(now, &store.get_all_trades().unwrap()).unwrap();
    assert_eq!(stop.protection, "MaxDrawdownProtection");
    assert_eq!(bot.get_status(), BotStatus::Stopped);

    let mut bot = running(Some(RiskManager::with_default_protections()), config(false, &["BTC/USDT"]));
    assert!(bot.run_iteration(&venue, &Signals { buy: 1, sell: 0 }, &mut store, "1h", now, 50).is_ok());
    assert_eq!(bot.get_status(), BotStatus::Stopped);
    assert_eq!(store.trade_count(), 2);
    assert!(venue.orders.borrow().is_empty());
}

#[test]
fn a_coordinator_that_is_not_running_does_nothing() {
    let mut bot = TradingBot::new(None, config(true, &["BTC/USDT"]));
    let venue = Venue::new();
    let mut store = Repository::new();
    let now = Timestamp::from_millis(NOW);
    assert!(bot.run_iteration(&venue, &Signals { buy: 1, sell: 0 }, &mut store, "1h", now, 1).is_ok());
    assert_eq!(store.trade_count(), 0);
    assert!(venue.asked.borrow().is_empty());
    assert_eq!(bot.get_status(), BotStatus::Stopped);
}

#[test]
fn a_failing_pair_does_not_stop_the_others() {
    let mut bot = running(None, config(true, &["DOWN/USDT", "BTC/USDT"]));
    let venue = Venue::new();
    let mut store = Repository::new();
    let now = Timestamp::from_millis(NOW);
    assert!(bot.run_iteration(&venue, &Signals { buy: 1, sell: 0 }, &mut store, "1h", now, 1).is_ok());
    let open = store.get_open_trades().unwrap();
    assert_eq!(open.len(), 1);
    assert_eq!(open[0].pair, "BTC/USDT");
    assert_eq!(open[0].id, 2);
    assert_eq!(bot.get_status(), BotStatus::Running);
}

#[test]
fn an_invalid_pair_fails_the_iteration() {
    for pairs in [vec![], vec!["BTC/USDT", "ETH USDT"]] {
        let mut bot = running(None, config(true, &pairs));
        let venue = Venue::new();
        let mut store = Repository::new();
        let now = Timestamp::from_millis(NOW);
        let outcome = bot.run_iteration(&venue, &Signals { buy: 1, sell: 0 }, &mut store, "1h", now, 1);
        assert!(matches!(outcome, Err(AppError::Config(_))));
        assert_eq!(bot.get_status(), BotStatus::Error);
        assert_eq!(store.trade_count(), 0);
        assert!(venue.asked.borrow().is_empty());
    }
}

#[test]
fn an_entry_needs_balance_and_a_price() {
    let now = Timestamp::from_millis(NOW);
    let mut poor = Venue::new();
    poor.free = dec("99.99");
    let mut bot = running(None, config(false, &["BTC/USDT"]));
    let mut store = Repository::new();
    bot.run_iteration(&poor, &Signals { buy: 1, sell: 0 }, &mut store, "1h", now, 1).unwrap();
    assert_eq!(store.trade_count(), 0);
    assert!(poor.orders.borrow().is_empty());

    let mut blind = Venue::new();
    blind.candles = Vec::new();
    bot.run_iteration(&blind, &Signals { buy: 1, sell: 0 }, &mut store, "1h", now, 1).unwrap();
    assert_eq!(store.trade_count(), 0);

    let mut closed_venue = Venue::new();
    closed_venue.refuses_orders = true;
    bot.run_iteration(&closed_venue, &Signals { buy: 1, sell: 0 }, &mut store, "1h", now, 1).unwrap();
    assert_eq!(store.trade_count(), 0);
    let outcome = bot.process_cycle(
        &closed_venue,
        &Signals { buy: 1, sell: 0 },
        &Vec::new(),
        &Vec::new(),
        "BTC/USDT",
        "1h",
        now,
        1,
    );
    assert_eq!(
        outcome.result,
        Err(AppError::Exchange("Buy order failed: Exchange error: insufficient funds".to_string()))
    );

    let rich = Venue::new();
    bot.run_iteration(&rich, &Signals { buy: 1, sell: 0 }, &mut store, "5m", now, 9).unwrap();
    let open = store.get_open_trades().unwrap();
    assert_eq!(open.len(), 1);
    assert_eq!(open[0].open_rate, dec("110"));
    assert_eq!(open[0].amount, dec("100").checked_div(dec("105")).unwrap());
    assert_eq!(open[0].timeframe, Timeframe::FiveMinutes);
    assert_eq!(rich.orders.borrow()[0].side, TradeSide::Buy);
}

#[test]
fn stored_candles_can_be_checked() {
    let hour = Timeframe::OneHour;
    assert!(is_valid_candle(hour, &candle(0, "105")));
    assert!(!is_valid_candle(hour, &candle(1, "105")));
    assert!(!is_valid_candle(hour, &candle(0, "111")));
    assert!(!is_valid_candle(hour, &candle(0, "89")));
    let mut series = CandleSeries::new(hour);
    assert!(series.save_klines(&vec![candle(0, "105"), candle(3_600_000, "100")]).is_ok());
    assert!(are_all_valid(hour, series.candles()));
    assert!(series.upsert(candle(7, "105")).is_err());
    assert!(are_all_valid(hour, series.candles()));
    assert_eq!(series.len(), 2);
    assert!(!are_all_valid(hour, &vec![candle(0, "105"), candle(7, "105")]));
}

#[test]
fn orders_and_balances_can_be_checked() {
    let mut order = Order {
        id: "1".to_string(),
        symbol: "BTCUSDT".to_string(),
        side: TradeSide::Buy,
        order_type: OrderType::Limit,
        status: OrderStatus::PartiallyFilled,
        price: Some(dec("10")),
        amount: dec("2"),
        filled: dec("0.5"),
        remaining: dec("1.50"),
        fee: None,
        created_at: Timestamp::from_millis(0),
        updated_at: Timestamp::from_millis(0),
    };
    assert!(order.is_consistent());
    order.remaining = dec("1");
    assert!(!order.is_consistent());
    order.filled = dec("2");
    order.remaining = dec("0");
    assert!(!order.is_consistent());
    order.status = OrderStatus::Filled;
    assert!(order.is_consistent());
    order.filled = dec("3");
    order.remaining = dec("-1");
    assert!(!order.is_consistent());

    let mut balance = Balance { currency: "USDT".to_string(), total: dec("3"), free: dec("1"), used: dec("2.0") };
    assert!(balance.is_consistent());
    balance.used = dec("2.1");
    assert!(!balance.is_consistent());
}
