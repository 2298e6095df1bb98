use freqtrade_rs::config::{default_timeframe, AppConfig, BotConfig, ConfigManager, EnvOverrides};
use freqtrade_rs::decimal::Decimal;
use freqtrade_rs::optimize::{
    CalmarLoss, HyperoptSpace, LossFunction, LossFunctionType, ParameterSpace, ProfitFactorLoss, RandomOptimizer,
    SharpeLoss, SortinoLoss,
};
use freqtrade_rs::time::Timestamp;
use freqtrade_rs::types::{BacktestResult, Timeframe};

fn dec(text: &str) -> Decimal {
    Decimal::parse(text).unwrap()
}

#[test]
fn test_default_config() {
    let config = AppConfig::default();
    assert_eq!(config.bot.max_open_trades, 3);
    assert!(config.bot.dry_run);
    assert_eq!(config.exchange.name, "binance");
}

#[test]
fn test_load_from_env() {
    let mut config_manager = ConfigManager::new(AppConfig::default());

    let result = config_manager.load_from_env(EnvOverrides {
        exchange_api_key: Some("env_key".to_string()),
        exchange_api_secret: Some("env_secret".to_string()),
        database_path: Some("env_db_path".to_string()),
        log_level: Some("DEBUG".to_string()),
    });
    assert!(result.is_ok());

    let config = config_manager.config();
    assert_eq!(config.exchange.key, "env_key");
    assert_eq!(config.exchange.secret, "env_secret");
    assert_eq!(config.database.path, "env_db_path");
    assert_eq!(config.log.level, "DEBUG");
}

#[test]
fn test_config_manager_creation() {
    let config = AppConfig::default();
    let manager = ConfigManager::new(config);

    assert_eq!(manager.config().bot.stake_currency, "USDT");
    assert_eq!(manager.config().exchange.name, "binance");
}

#[test]
fn unset_variables_override_nothing() {
    let mut manager = ConfigManager::new(AppConfig::default());
    let before = manager.config().clone();
    let result = manager.load_from_env(EnvOverrides {
        exchange_api_key: None,
        exchange_api_secret: None,
        database_path: None,
        log_level: Some("WARN".to_string()),
    });
    assert!(result.is_ok());
    assert_eq!(manager.config().exchange, before.exchange);
    assert_eq!(manager.config().database, before.database);
    assert_eq!(manager.config().bot, before.bot);
    assert_eq!(manager.config().log.level, "WARN");
}

#[test]
fn bot_defaults() {
    let bot = BotConfig::default();
    assert_eq!(bot.stake_amount, dec("100"));
    assert_eq!(bot.dry_run_wallet, dec("10000"));
    assert!(bot.process_only_new_candles);
    assert!(bot.trading_pairs.is_empty());
    assert_eq!(bot.timeframe, "1h");
    assert_eq!(default_timeframe(), "1h");
    assert_eq!(Timeframe::parse(&bot.timeframe), Some(Timeframe::OneHour));
    let app = AppConfig::default();
    assert_eq!(app.database.path, "user_data/trades.db");
    assert_eq!(app.api_server.listen_port, 8080);
    assert_eq!(app.strategy.name, "SimpleStrategy");
}

fn result_with(sharpe: &str, drawdown: &str, profit_factor: &str) -> BacktestResult {
    BacktestResult {
        strategy: "S".to_string(),
        pair: "BTCUSDT".to_string(),
        timeframe: Timeframe::OneHour,
        start_date: Timestamp::from_millis(0),
        end_date: Timestamp::from_millis(1),
        total_trades: 0,
        winning_trades: 0,
        losing_trades: 0,
        win_rate: Decimal::zero(),
        total_profit: Decimal::zero(),
        max_drawdown: dec(drawdown),
        sharpe_ratio: dec(sharpe),
        profit_factor: dec(profit_factor),
        avg_profit: Decimal::zero(),
        avg_loss: Decimal::zero(),
        trades: Vec::new(),
    }
}

#[test]
fn loss_functions_by_name_and_value() {
    assert_eq!(LossFunctionType::Sharpe.as_str(), "Sharpe");
    assert_eq!(LossFunctionType::Sortino.as_str(), "Sortino");
    assert_eq!(LossFunctionType::Calmar.as_str(), "Calmar");
    assert_eq!(LossFunctionType::ProfitFactor.as_str(), "ProfitFactor");
    assert_eq!(LossFunctionType::Custom("Mine".to_string()).as_str(), "Mine");

    let good = result_with("1.5", "-3", "2");
    let bad = result_with("-1.5", "3", "0");
    assert_eq!(SharpeLoss.name(), "Sharpe");
    assert_eq!(SharpeLoss.calculate(&good), dec("-1.5"));
    assert_eq!(SharpeLoss.calculate(&bad), dec("1.5"));
    assert_eq!(SortinoLoss.calculate(&good), dec("-1.5"));
    assert_eq!(SortinoLoss.calculate(&bad), dec("999"));
    assert_eq!(CalmarLoss.calculate(&good), dec("-0.5"));
    assert_eq!(CalmarLoss.calculate(&bad), dec("999"));
    assert_eq!(CalmarLoss.calculate(&result_with("1", "0", "1")), dec("999"));
    assert_eq!(ProfitFactorLoss.calculate(&good), dec("-2"));
    assert_eq!(ProfitFactorLoss.calculate(&bad), dec("999"));
    assert_eq!(RandomOptimizer::new().name(), "Random");
}

#[test]
fn parameter_spaces() {
    let space = ParameterSpace::new("entry".to_string());
    assert_eq!(space.name, "entry");
    assert!(space.space.is_empty());
    let spaces = vec![HyperoptSpace::Buy("rsi".to_string()), HyperoptSpace::Stoploss("sl".to_string())];
    let space = space.with_spaces(spaces.clone());
    assert_eq!(space.name, "entry");
    assert_eq!(space.space, spaces);
}
