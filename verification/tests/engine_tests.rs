use freqtrade_rs::bot::{plan_pair, LoopAction, TradingBot};
use freqtrade_rs::config::BotConfig;
use freqtrade_rs::decimal::Decimal;
use freqtrade_rs::error::AppError;
use freqtrade_rs::exchange::binance::{signature, BinanceExchange};
use freqtrade_rs::persistence::Repository;
use freqtrade_rs::risk::protection::{IProtection, ProtectionReturn};
use freqtrade_rs::risk::{
    CooldownPeriod, CooldownPeriodConfig, MaxDrawdownProtection, MaxDrawdownProtectionConfig, Protection,
    RiskManager,
};
use freqtrade_rs::time::Timestamp;
use freqtrade_rs::types::{BotStatus, ExitType, OrderRequest, OrderType, Timeframe, Trade, TradeSide, OHLCV};
use freqtrade_rs::utils::retry::{CircuitBreaker, CircuitBreakerError};

const NOW: i64 = 1_700_000_000_000;
const MINUTE: i64 = 60_000;
const HOUR: i64 = 3_600_000;

fn dec(text: &str) -> Decimal {
    Decimal::parse(text).unwrap()
}

fn trade(id: u128, pair: &str, opened_at: i64) -> Trade {
    Trade {
        id,
        pair: pair.to_string(),
        is_open: true,
        exchange: "binance".to_string(),
        open_rate: dec("100"),
        open_date: Timestamp::from_millis(opened_at),
        close_rate: None,
        close_date: None,
        amount: dec("1"),
        stake_amount: dec("100"),
        strategy: "S".to_string(),
        timeframe: Timeframe::OneHour,
        stop_loss: None,
        take_profit: None,
        exit_reason: None,
        profit_abs: None,
        profit_ratio: None,
    }
}

fn loss(id: u128, minutes_ago: i64) -> Trade {
    let mut t = trade(id, "BTC/USDT", NOW - (minutes_ago + 10) * MINUTE);
    t.is_open = false;
    t.close_rate = Some(dec("99"));
    t.close_date = Some(Timestamp::from_millis(NOW - minutes_ago * MINUTE));
    t.exit_reason = Some(ExitType::Signal);
    t.profit_abs = Some(dec("-1"));
    t.profit_ratio = Some(dec("-0.01"));
    t
}

fn candle(open_time: i64, close: &str) -> OHLCV {
    OHLCV {
        timestamp: Timestamp::from_millis(open_time),
        open: dec("100"),
        high: dec("110"),
        low: dec("90"),
        close: dec(close),
        volume: dec("1000"),
    }
}

struct Flag {
    until_minutes: i64,
    lock: bool,
}

impl IProtection for Flag {
    fn name(&self) -> &str {
        "Flag"
    }

    fn short_desc(&self) -> String {
        "A flag".to_string()
    }

    fn has_global_stop(&self) -> bool {
        true
    }

    fn has_local_stop(&self) -> bool {
        true
    }

    fn global_stop(&self, date_now: Timestamp, _trades: &Vec<Trade>) -> Option<ProtectionReturn> {
        Some(ProtectionReturn {
            lock: self.lock,
            until: date_now.plus_minutes_clipped(self.until_minutes),
            reason: None,
            lock_side: "*".to_string(),
        })
    }

    fn stop_per_pair(&self, _pair: &str, date_now: Timestamp, trades: &Vec<Trade>) -> Option<ProtectionReturn> {
        self.global_stop(date_now, trades)
    }
}

#[test]
fn the_default_pipeline() {
    let manager = RiskManager::with_default_protections();
    assert_eq!(
        manager.list_protections(),
        vec!["CooldownPeriod".to_string(), "MaxDrawdownProtection".to_string()]
    );
    let now = Timestamp::from_millis(NOW);
    assert!(manager.check_global_stop(now, &vec![loss(1, 5)]).is_none());
    let stop = manager.check_global_stop(now, &vec![loss(1, 5), loss(2, 1000)]).unwrap();
    assert_eq!(stop.protection, "CooldownPeriod");
    assert!(manager.check_pair_stop("BTC/USDT", now, &vec![loss(1, 5), loss(2, 1000)]).is_none());
}

#[test]
fn a_verdict_that_locks_nothing_is_passed_over() {
    let now = Timestamp::from_millis(NOW);
    let mut manager = RiskManager::new();
    manager.add_protection(Box::new(Flag { until_minutes: 0, lock: true }));
    manager.add_protection(Box::new(Flag { until_minutes: 10, lock: false }));
    assert!(manager.check_global_stop(now, &Vec::new()).is_none());
    assert!(manager.check_pair_stop("BTC/USDT", now, &Vec::new()).is_none());
    manager.add_rule(Protection::Cooldown(CooldownPeriod::new(CooldownPeriodConfig {
        stop_duration: 5,
        lookback_period: 10,
        stop_after_losses: 0,
    })));
    manager.add_protection(Box::new(Flag { until_minutes: 10, lock: true }));
    let stop = manager.check_global_stop(now, &Vec::new()).unwrap();
    assert_eq!(stop.protection, "CooldownPeriod");
    let stop = manager.check_pair_stop("BTC/USDT", now, &Vec::new()).unwrap();
    assert_eq!(stop.protection, "Flag");
    assert_eq!(stop.reason, "A flag");
    assert_eq!(stop.until.millis, NOW + 10 * MINUTE);
}

#[test]
fn closes_are_walked_by_close_date() {
    let rule = MaxDrawdownProtection::new(MaxDrawdownProtectionConfig::default());
    let now = Timestamp::from_millis(NOW);
    let mut early = loss(1, 300);
    early.profit_abs = Some(dec("7"));
    let mut same_a = loss(2, 100);
    same_a.profit_abs = Some(dec("1"));
    let mut same_b = loss(3, 100);
    same_b.profit_abs = Some(dec("2"));
    let old = loss(4, 5000);
    let closes = rule.recent_closes_by_date(now, &vec![same_a, trade(9, "X", NOW), early, old, same_b]);
    let profits: Vec<String> = closes.iter().map(|c| c.profit_abs.unwrap().to_text()).collect();
    assert_eq!(profits, vec!["7", "1", "2"]);
}

#[test]
fn the_coordinator_owns_its_status() {
    let mut bot = TradingBot::new(Some(RiskManager::with_default_protections()), BotConfig::default());
    assert_eq!(bot.get_status(), BotStatus::Stopped);
    assert_eq!(bot.next_turn(), LoopAction::Leave);
    assert!(bot.start().is_ok());
    assert_eq!(bot.get_status(), BotStatus::Running);
    assert_eq!(bot.start(), Err(AppError::Bot("Bot is already running".to_string())));
    assert_eq!(bot.next_turn(), LoopAction::Iterate);
    assert!(bot.pause().is_ok());
    assert_eq!(bot.next_turn(), LoopAction::Wait(1000));
    bot.resume();
    assert_eq!(bot.get_status(), BotStatus::Running);

    let now = Timestamp::from_millis(NOW);
    assert!(bot.check_global_stop(now, &vec![loss(1, 5)]).is_none());
    assert_eq!(bot.get_status(), BotStatus::Running);
    let stop = bot.check_global_stop(now, &vec![loss(1, 5), loss(2, 6)]).unwrap();
    assert_eq!(stop.protection, "CooldownPeriod");
    assert_eq!(bot.get_status(), BotStatus::Stopped);
    assert_eq!(bot.next_turn(), LoopAction::Leave);

    assert!(bot.start().is_ok());
    bot.iteration_done(&Ok(()));
    assert_eq!(bot.get_status(), BotStatus::Running);
    bot.iteration_done(&Err(AppError::Config("No trading_pairs configured".to_string())));
    assert_eq!(bot.get_status(), BotStatus::Error);
    assert!(bot.stop().is_ok());
    assert_eq!(bot.get_status(), BotStatus::Error);
    assert_eq!(bot.sleep_after_iteration(), Ok(3_600_000));
    assert!(bot.pairs().is_err());
}

#[test]
fn a_coordinator_without_a_pipeline_is_never_vetoed() {
    let mut config = BotConfig::default();
    config.trading_pairs = vec![" BTC/USDT".to_string()];
    config.timeframe = "5m".to_string();
    config.max_open_trades = 1;
    let mut bot = TradingBot::new(None, config);
    bot.start().unwrap();
    let now = Timestamp::from_millis(NOW);
    let history = vec![loss(1, 5), loss(2, 6), loss(3, 7)];
    assert!(bot.check_global_stop(now, &history).is_none());
    assert!(bot.check_pair_stop("BTC/USDT", now, &history).is_none());
    assert_eq!(bot.get_status(), BotStatus::Running);
    assert_eq!(bot.pairs(), Ok(vec!["BTC/USDT".to_string()]));
    assert_eq!(bot.sleep_after_iteration(), Ok(300_000));
    let plan = plan_pair(bot.config().max_open_trades, "BTC/USDT", &vec![trade(1, "ETH/USDT", NOW)], 1, 1);
    assert_eq!(plan.exit_trade, None);
    assert!(!plan.consider_entry);
    assert_eq!(bot.config().max_open_trades, 1);
}

#[test]
fn the_adapter_builds_signed_addresses() {
    let adapter = BinanceExchange::new("key".to_string(), "secret".to_string());
    assert_eq!(adapter.get_name(), "binance");
    assert_eq!(adapter.get_base_url(), "https://api.binance.com");
    assert_eq!(adapter.api_key(), "key");
    let adapter = adapter.with_base_url("http://localhost:1234".to_string());
    assert_eq!(
        adapter.public_url("/api/v3/klines", "symbol=BTCUSDT"),
        "http://localhost:1234/api/v3/klines?symbol=BTCUSDT"
    );
    let stamped = "orderId=28&timestamp=1700000000000";
    assert_eq!(
        adapter.signed_url("/api/v3/order", "orderId=28", NOW),
        format!("http://localhost:1234/api/v3/order?{}&signature={}", stamped, signature("secret", stamped))
    );
    let request = OrderRequest {
        symbol: "BTCUSDT".to_string(),
        side: TradeSide::Buy,
        order_type: OrderType::Limit,
        amount: dec("1"),
        price: None,
    };
    assert!(matches!(adapter.order_url(&request, NOW), Err(AppError::Exchange(_))));
    let request = OrderRequest { order_type: OrderType::Market, ..request };
    let stamped = "symbol=BTCUSDT&side=BUY&type=MARKET&quantity=1&timestamp=1700000000000";
    assert_eq!(
        adapter.order_url(&request, NOW).unwrap(),
        format!("http://localhost:1234/api/v3/order?{}&signature={}", stamped, signature("secret", stamped))
    );
}

#[test]
fn the_breaker_lets_pass_or_not() {
    let mut breaker = CircuitBreaker::new(1, 1, 10);
    assert_eq!(breaker.let_pass(0), Ok(()));
    breaker.settle(false, 5);
    assert_eq!(breaker.let_pass(14), Err(CircuitBreakerError::Open));
    assert_eq!(breaker.let_pass(15), Ok(()));
    breaker.settle(true, 16);
    assert_eq!(breaker.let_pass(16), Ok(()));
}

#[test]
fn the_store_as_a_whole() {
    let mut store = Repository::new();
    assert!(store.get_all_trades().unwrap().is_empty());
    assert!(store.create_trade(&trade(1, "BTC/USDT", 1000)).is_ok());
    assert!(matches!(store.create_trade(&trade(1, "ETH/USDT", 1000)), Err(AppError::Database(_))));
    assert!(matches!(store.create_trade(&trade(2, "BTC/USDT", 2000)), Err(AppError::Database(_))));
    assert!(store.create_trade(&trade(3, "ETH/USDT", 3000)).is_ok());
    let ids: Vec<u128> = store.get_open_trades().unwrap().iter().map(|t| t.id).collect();
    assert_eq!(ids, vec![3, 1]);

    let mut closed = trade(1, "BTC/USDT", 1000);
    closed.is_open = false;
    closed.close_rate = Some(dec("110"));
    closed.close_date = Some(Timestamp::from_millis(5000));
    closed.exit_reason = Some(ExitType::Signal);
    closed.profit_abs = Some(dec("10"));
    closed.profit_ratio = Some(dec("0.1"));
    assert!(store.update_trade(&closed).is_ok());
    assert!(store.update_trade(&closed).is_ok());
    assert_eq!(store.get_open_trades().unwrap().len(), 1);
    assert_eq!(store.get_all_trades().unwrap().len(), 2);
    let stats = store.get_dashboard_stats().unwrap();
    assert_eq!(stats.total_profit, dec("10"));
    assert_eq!(stats.win_rate, dec("50"));
    assert_eq!(stats.open_trades, 1);
    assert_eq!(stats.total_balance, dec("10010"));
}

#[test]
fn the_candle_cache_is_kept_by_pair_and_timeframe() {
    let mut store = Repository::new();
    let batch: Vec<OHLCV> = (0..250).map(|i| candle(i * HOUR, "105")).collect();
    assert!(store.save_klines("BTC/USDT", "1h", &batch).is_ok());
    assert!(store.save_klines("BTC/USDT", "1h", &batch).is_ok());
    assert_eq!(store.get_klines("BTC/USDT", "1h", 1000).unwrap().len(), 250);
    assert_eq!(store.get_klines("BTC/USDT", "1h", 3).unwrap().len(), 3);
    assert_eq!(store.get_klines("BTC/USDT", "1h", 3).unwrap()[0].timestamp.millis, 249 * HOUR);
    assert!(store.get_klines("BTC/USDT", "4h", 10).unwrap().is_empty());
    assert!(store.get_klines("ETH/USDT", "1h", 10).unwrap().is_empty());
    assert_eq!(
        store.get_klines("BTC/USDT", "bad", 10),
        Err(AppError::InvalidInput("Invalid timeframe: bad".to_string()))
    );

    assert!(store.save_klines("ETH/USDT", "1h", &vec![candle(0, "97")]).is_ok());
    assert!(store.save_klines("BTC/USDT", "4h", &vec![candle(0, "98"), candle(0, "99")]).is_ok());
    assert_eq!(store.get_klines("BTC/USDT", "1h", 1000).unwrap().len(), 250);
    assert_eq!(store.get_klines("ETH/USDT", "1h", 10).unwrap()[0].close, dec("97"));
    assert_eq!(store.get_klines("BTC/USDT", "4h", 10).unwrap().len(), 1);
    assert_eq!(store.get_klines("BTC/USDT", "4h", 10).unwrap()[0].close, dec("99"));

    assert!(matches!(store.save_klines("BTC/USDT", "7m", &batch), Err(AppError::InvalidInput(_))));
    assert!(store.save_klines("BTC/USDT", "7m", &Vec::new()).is_ok());
    assert!(store.get_all_trades().unwrap().is_empty());
}

#[test]
fn pairs_are_entered_in_any_order() {
    for pairs in [["BTC/USDT", "ETH/USDT"], ["ETH/USDT", "BTC/USDT"]] {
        let mut store = Repository::new();
        let bot = TradingBot::new(None, BotConfig::default());
        let mut id = 1;
        for pair in pairs {
            let open = store.get_open_trades().unwrap();
            let plan = plan_pair(bot.config().max_open_trades, pair, &open, 0, 1);
            assert!(plan.consider_entry);
            store.create_trade(&trade(id, pair, NOW)).unwrap();
            id += 1;
        }
        let open = store.get_open_trades().unwrap();
        assert_eq!(open.len(), 2);
        for pair in pairs {
            assert!(!plan_pair(bot.config().max_open_trades, pair, &open, 0, 1).consider_entry);
        }
    }
}

#[test]
fn a_candle_that_breaks_a_rule_is_not_cached() {
    let mut store = Repository::new();
    let good = vec![candle(0, "105"), candle(HOUR, "100")];
    assert!(store.save_klines("BTC/USDT", "1h", &good).is_ok());

    let unaligned = vec![candle(2 * HOUR, "101"), candle(3 * HOUR + 1, "102")];
    assert!(matches!(store.save_klines("BTC/USDT", "1h", &unaligned), Err(AppError::InvalidInput(_))));
    let above_high = vec![candle(2 * HOUR, "111")];
    assert!(matches!(store.save_klines("BTC/USDT", "1h", &above_high), Err(AppError::InvalidInput(_))));
    let below_low = vec![candle(2 * HOUR, "89")];
    assert!(matches!(store.save_klines("BTC/USDT", "1h", &below_low), Err(AppError::InvalidInput(_))));
    let mut inverted = candle(2 * HOUR, "100");
    inverted.low = dec("101");
    assert!(matches!(store.save_klines("BTC/USDT", "1h", &vec![inverted]), Err(AppError::InvalidInput(_))));

    let kept = store.get_klines("BTC/USDT", "1h", 10).unwrap();
    assert_eq!(kept.len(), 2);
    assert_eq!(kept[0], candle(HOUR, "100"));
    assert_eq!(kept[1], candle(0, "105"));

    assert!(matches!(
        store.save_klines("ETH/USDT", "4h", &vec![candle(HOUR, "100")]),
        Err(AppError::InvalidInput(_))
    ));
    assert!(store.get_klines("ETH/USDT", "4h", 10).unwrap().is_empty());
    assert!(store.save_klines("ETH/USDT", "4h", &vec![candle(4 * HOUR, "100")]).is_ok());
}

#[test]
fn a_candle_width_is_not_guessed() {
    let mut config = BotConfig::default();
    config.timeframe = "7m".to_string();
    config.process_only_new_candles = true;
    let bot = TradingBot::new(None, config.clone());
    assert_eq!(bot.sleep_after_iteration(), Err(AppError::InvalidInput("Invalid timeframe: 7m".to_string())));
    config.process_only_new_candles = false;
    let bot = TradingBot::new(None, config);
    assert_eq!(bot.sleep_after_iteration(), Ok(1000));
}
