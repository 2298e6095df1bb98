use freqtrade_rs::decimal::Decimal;
use freqtrade_rs::risk::protection::{IProtection, ProtectionReturn};
use freqtrade_rs::risk::{
    CooldownPeriod, CooldownPeriodConfig, LowProfitPairs, LowProfitPairsConfig, MaxDrawdownProtection,
    MaxDrawdownProtectionConfig, RiskManager, StoplossGuard, StoplossGuardConfig,
};
use freqtrade_rs::time::Timestamp;
use freqtrade_rs::types::{ExitType, Timeframe, Trade};

const MINUTE: i64 = 60_000;
const NOW: i64 = 1_700_000_000_000;

fn dec(text: &str) -> Decimal {
    Decimal::parse(text).unwrap()
}

fn closed_trade(id: u128, pair: &str, minutes_ago: i64, profit_abs: &str, profit_ratio: &str, reason: ExitType) -> Trade {
    Trade {
        id,
        pair: pair.to_string(),
        is_open: false,
        exchange: "binance".to_string(),
        open_rate: dec("100"),
        open_date: Timestamp::from_millis(NOW - (minutes_ago + 30) * MINUTE),
        close_rate: Some(dec("100")),
        close_date: Some(Timestamp::from_millis(NOW - minutes_ago * MINUTE)),
        amount: dec("1"),
        stake_amount: dec("100"),
        strategy: "MockStrategy".to_string(),
        timeframe: Timeframe::OneHour,
        stop_loss: None,
        take_profit: None,
        exit_reason: Some(reason),
        profit_abs: Some(dec(profit_abs)),
        profit_ratio: Some(dec(profit_ratio)),
    }
}

struct MockProtection {
    should_stop_global: bool,
    should_stop_pair: bool,
}

impl IProtection for MockProtection {
    fn name(&self) -> &str {
        "MockProtection"
    }

    fn short_desc(&self) -> String {
        "Mock".to_string()
    }

    fn has_global_stop(&self) -> bool {
        true
    }

    fn has_local_stop(&self) -> bool {
        true
    }

    fn global_stop(&self, date_now: Timestamp, _trades: &Vec<Trade>) -> Option<ProtectionReturn> {
        if self.should_stop_global {
            Some(ProtectionReturn {
                lock: true,
                reason: Some("Global Stop".to_string()),
                until: date_now.plus_minutes_clipped(60),
                lock_side: "*".to_string(),
            })
        } else {
            None
        }
    }

    fn stop_per_pair(&self, _pair: &str, date_now: Timestamp, _trades: &Vec<Trade>) -> Option<ProtectionReturn> {
        if self.should_stop_pair {
            Some(ProtectionReturn {
                lock: true,
                reason: Some("Pair Stop".to_string()),
                until: date_now.plus_minutes_clipped(60),
                lock_side: "*".to_string(),
            })
        } else {
            None
        }
    }
}

#[test]
fn test_risk_manager_global_stop() {
    let mut risk_manager = RiskManager::new();
    let protection = MockProtection { should_stop_global: true, should_stop_pair: false };
    risk_manager.add_protection(Box::new(protection));

    let result = risk_manager.check_global_stop(Timestamp::from_millis(NOW), &Vec::new());
    assert!(result.is_some());
    assert_eq!(result.unwrap().reason, "Global Stop");
}

#[test]
fn test_risk_manager_pair_stop() {
    let mut risk_manager = RiskManager::new();
    let protection = MockProtection { should_stop_global: false, should_stop_pair: true };
    risk_manager.add_protection(Box::new(protection));

    let result = risk_manager.check_pair_stop("BTC/USDT", Timestamp::from_millis(NOW), &Vec::new());
    assert!(result.is_some());
    assert_eq!(result.unwrap().reason, "Pair Stop");
}

#[test]
fn first_registered_rule_wins() {
    let mut manager = RiskManager::new();
    manager.add_protection(Box::new(CooldownPeriod::new(CooldownPeriodConfig {
        stop_duration: 60,
        lookback_period: 1440,
        stop_after_losses: 0,
    })));
    manager.add_protection(Box::new(MockProtection { should_stop_global: true, should_stop_pair: true }));
    let stop = manager.check_global_stop(Timestamp::from_millis(NOW), &Vec::new()).unwrap();
    assert_eq!(stop.protection, "CooldownPeriod");
    assert_eq!(stop.reason, "0 losing trades in last 1440 minutes");
    assert_eq!(stop.until.millis, NOW + 60 * MINUTE);
    assert_eq!(manager.list_protections(), vec!["CooldownPeriod".to_string(), "MockProtection".to_string()]);
}

#[test]
fn remove_protection_removes_by_name() {
    let mut manager = RiskManager::new();
    manager.add_protection(Box::new(CooldownPeriod::new(CooldownPeriodConfig::default())));
    manager.add_protection(Box::new(StoplossGuard::new(StoplossGuardConfig::default())));
    manager.add_protection(Box::new(CooldownPeriod::new(CooldownPeriodConfig::default())));
    assert!(!manager.remove_protection("Nothing"));
    assert_eq!(manager.list_protections().len(), 3);
    assert!(manager.remove_protection("CooldownPeriod"));
    assert_eq!(manager.list_protections(), vec!["StoplossGuard".to_string()]);
    assert!(!manager.remove_protection("CooldownPeriod"));
}

#[test]
fn cooldown_counts_losing_closes_in_the_window() {
    let rule = CooldownPeriod::new(CooldownPeriodConfig::default());
    let now = Timestamp::from_millis(NOW);
    let trades = vec![
        closed_trade(1, "BTC/USDT", 10, "-1", "-0.01", ExitType::Signal),
        closed_trade(2, "ETH/USDT", 1440, "-1", "-0.01", ExitType::Signal),
        closed_trade(3, "ETH/USDT", 20, "1", "0.01", ExitType::Signal),
    ];
    let lock = rule.global_stop(now, &trades).unwrap();
    assert!(lock.lock);
    assert_eq!(lock.until.millis, NOW + 60 * MINUTE);
    assert_eq!(lock.reason.unwrap(), "2 losing trades in last 1440 minutes");
    assert_eq!(lock.lock_side, "*");

    let older = vec![
        closed_trade(1, "BTC/USDT", 10, "-1", "-0.01", ExitType::Signal),
        closed_trade(2, "ETH/USDT", 1441, "-1", "-0.01", ExitType::Signal),
    ];
    assert!(rule.global_stop(now, &older).is_none());
    assert_eq!(
        rule.short_desc(),
        "Stop trading for 60 minutes after 2 losing trades in last 1440 minutes"
    );
}

#[test]
fn a_lock_that_would_not_end_after_now_is_no_lock() {
    let now = Timestamp::from_millis(NOW);
    let trades = vec![closed_trade(1, "BTC/USDT", 10, "-1", "-0.01", ExitType::Signal)];
    for stop_duration in [0i64, -5] {
        let rule = CooldownPeriod::new(CooldownPeriodConfig {
            stop_duration,
            lookback_period: 1440,
            stop_after_losses: 1,
        });
        assert!(rule.global_stop(now, &trades).is_none());
    }
    let rule = CooldownPeriod::new(CooldownPeriodConfig {
        stop_duration: 1,
        lookback_period: 1440,
        stop_after_losses: 1,
    });
    let lock = rule.global_stop(now, &trades).unwrap();
    assert!(lock.is_active_at(now));
    assert!(!lock.is_active_at(lock.until));
}

#[test]
fn stoploss_guard_counts_closes_by_stop_loss() {
    let rule = StoplossGuard::new(StoplossGuardConfig::default());
    let now = Timestamp::from_millis(NOW);
    let trades = vec![
        closed_trade(1, "BTC/USDT", 10, "-1", "-0.01", ExitType::StopLoss),
        closed_trade(2, "BTC/USDT", 59, "-1", "-0.01", ExitType::StopLossOnExchange),
        closed_trade(3, "BTC/USDT", 5, "-1", "-0.01", ExitType::Signal),
    ];
    let lock = rule.stop_per_pair("BTC/USDT", now, &trades).unwrap();
    assert_eq!(lock.until.millis, NOW + 30 * MINUTE);
    assert_eq!(lock.reason.unwrap(), "Stoploss triggered 2 times in last 60 minutes");
    assert!(rule.stop_per_pair("BTC/USDT", now, &trades[1..].to_vec()).is_none());
    assert!(rule.has_local_stop());
    assert!(!rule.has_global_stop());
}

#[test]
fn low_profit_pairs_averages_the_recent_closes() {
    let rule = LowProfitPairs::new(LowProfitPairsConfig::default());
    let now = Timestamp::from_millis(NOW);
    let trades = vec![
        closed_trade(1, "BTC/USDT", 10, "1", "0.01", ExitType::Signal),
        closed_trade(2, "BTC/USDT", 20, "-1", "-0.01", ExitType::Signal),
        closed_trade(3, "BTC/USDT", 30, "0.3", "0.003", ExitType::Signal),
    ];
    assert_eq!(rule.average_profit(now, &trades).unwrap(), dec("0.1"));
    let lock = rule.stop_per_pair("BTC/USDT", now, &trades).unwrap();
    assert_eq!(lock.until.millis, NOW + 60 * MINUTE);
    assert!(rule.global_stop(now, &trades).is_none());

    let good = vec![
        closed_trade(1, "BTC/USDT", 10, "1", "0.01", ExitType::Signal),
        closed_trade(2, "BTC/USDT", 20, "1", "0.01", ExitType::Signal),
        closed_trade(3, "BTC/USDT", 30, "1", "0.01", ExitType::Signal),
    ];
    assert_eq!(rule.average_profit(now, &good).unwrap(), dec("1"));
    assert!(rule.stop_per_pair("BTC/USDT", now, &good).is_none());
    assert!(rule.stop_per_pair("BTC/USDT", now, &trades[..2].to_vec()).is_none());
}

#[test]
fn low_profit_pairs_needs_enough_closes_within_the_lookback() {
    let rule = LowProfitPairs::new(LowProfitPairsConfig {
        stop_duration: 60,
        lookback_period: 1440,
        required_profit: dec("0.5"),
        required_trades: 3,
    });
    let now = Timestamp::from_millis(NOW);
    let three_days = 3 * 1440;
    let trades = vec![
        closed_trade(1, "BTC/USDT", three_days, "10", "0.10", ExitType::Signal),
        closed_trade(2, "BTC/USDT", three_days, "10", "0.10", ExitType::Signal),
        closed_trade(3, "BTC/USDT", 10, "-10", "-0.10", ExitType::Signal),
    ];
    assert_eq!(rule.recent_closes(now, &trades), 1);
    assert_eq!(rule.average_profit(now, &trades).unwrap(), dec("-10"));
    assert!(rule.stop_per_pair("BTC/USDT", now, &trades).is_none());

    let recent = vec![
        closed_trade(1, "BTC/USDT", 30, "10", "0.10", ExitType::Signal),
        closed_trade(2, "BTC/USDT", 20, "-10", "-0.10", ExitType::Signal),
        closed_trade(3, "BTC/USDT", 10, "-10", "-0.10", ExitType::Signal),
        closed_trade(4, "BTC/USDT", three_days, "10", "0.10", ExitType::Signal),
    ];
    assert_eq!(rule.recent_closes(now, &recent), 3);
    let lock = rule.stop_per_pair("BTC/USDT", now, &recent).unwrap();
    assert_eq!(lock.until.millis, NOW + 60 * MINUTE);
}

#[test]
fn max_drawdown_walks_the_equity_by_close_date() {
    let rule = MaxDrawdownProtection::new(MaxDrawdownProtectionConfig::default());
    let now = Timestamp::from_millis(NOW);
    let trades = vec![
        closed_trade(3, "BTC/USDT", 10, "-30", "-0.3", ExitType::Signal),
        closed_trade(1, "BTC/USDT", 30, "100", "1", ExitType::Signal),
        closed_trade(2, "ETH/USDT", 20, "-20", "-0.2", ExitType::Signal),
    ];
    assert_eq!(rule.calculate_drawdown(now, &trades), dec("50"));
    let lock = rule.global_stop(now, &trades).unwrap();
    assert_eq!(lock.until.millis, NOW + 60 * MINUTE);
    assert!(rule.stop_per_pair("BTC/USDT", now, &trades).is_none());

    let shallow = vec![
        closed_trade(1, "BTC/USDT", 30, "100", "1", ExitType::Signal),
        closed_trade(2, "ETH/USDT", 20, "-20", "-0.2", ExitType::Signal),
    ];
    assert_eq!(rule.calculate_drawdown(now, &shallow), dec("20"));
    assert!(rule.global_stop(now, &shallow).is_none());
    assert_eq!(rule.calculate_drawdown(now, &Vec::new()), Decimal::zero());
}

#[test]
fn evaluation_gives_the_same_verdict_for_the_same_inputs() {
    let mut manager = RiskManager::new();
    manager.add_protection(Box::new(CooldownPeriod::new(CooldownPeriodConfig::default())));
    manager.add_protection(Box::new(MaxDrawdownProtection::new(MaxDrawdownProtectionConfig::default())));
    let now = Timestamp::from_millis(NOW);
    let trades = vec![
        closed_trade(1, "BTC/USDT", 10, "-1", "-0.01", ExitType::Signal),
        closed_trade(2, "ETH/USDT", 20, "-1", "-0.01", ExitType::Signal),
    ];
    let copy = trades.clone();
    assert_eq!(manager.check_global_stop(now, &trades), manager.check_global_stop(now, &copy));
    assert_eq!(
        manager.check_pair_stop("BTC/USDT", now, &trades),
        manager.check_pair_stop("BTC/USDT", now, &copy)
    );
}
