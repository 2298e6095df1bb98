//! The settings of the engine and their defaults.

use crate::decimal::Decimal;
use crate::error::AppError;
use crate::types::Timeframe;
use vstd::prelude::*;
use vstd::string::*;

verus! {

/// The settings of the coordinator.
#[derive(Debug, Clone, PartialEq)]
pub struct BotConfig {
    /// The hard cap on simultaneously open trades.
    pub max_open_trades: usize,
    /// The quote asset used for balance checks.
    pub stake_currency: String,
    /// The size of one entry, in units of the quote asset.
    pub stake_amount: Decimal,
    /// Whether orders are only recorded, never submitted.
    pub dry_run: bool,
    /// The synthetic balance a dry run starts with.
    pub dry_run_wallet: Decimal,
    /// Whether the loop sleeps one candle width rather than a short poll.
    pub process_only_new_candles: bool,
    /// The markets to process.
    pub trading_pairs: Vec<String>,
    /// The tag of the candle width.
    pub timeframe: String,
}

/// The timeframe used where none is configured: one hour.
pub fn default_timeframe() -> (r: String)
    ensures
        r@ == "1h"@,
        Timeframe::spec_parse(r@) == Some(Timeframe::OneHour),
{
    proof {
        crate::types::lemma_timeframe_tag_round_trip(Timeframe::OneHour);
    }
    String::from_str("1h")
}

impl Default for BotConfig {
    fn default() -> (r: Self)
        ensures
            r.max_open_trades == 3,
            r.stake_currency@ == "USDT"@,
            r.stake_amount == Decimal::spec_new(100, 0),
            r.dry_run,
            r.dry_run_wallet == Decimal::spec_new(10000, 0),
            r.process_only_new_candles,
            r.trading_pairs@.len() == 0,
            r.timeframe@ == "1h"@,
    {
        BotConfig {
            max_open_trades: 3,
            stake_currency: String::from_str("USDT"),
            stake_amount: Decimal::from_i64(100),
            dry_run: true,
            dry_run_wallet: Decimal::from_i64(10000),
            process_only_new_candles: true,
            trading_pairs: Vec::new(),
            timeframe: default_timeframe(),
        }
    }
}

/// The venue and its credentials.
#[derive(Debug, Clone, PartialEq, Eq)]
pub struct ExchangeConfig {
    pub name: String,
    pub key: String,
    pub secret: String,
    pub enable_rate_limit: bool,
}

impl Default for ExchangeConfig {
    fn default() -> (r: Self)
        ensures
            r.name@ == "binance"@,
            r.key@.len() == 0,
            r.secret@.len() == 0,
            r.enable_rate_limit,
    {
        ExchangeConfig {
            name: String::from_str("binance"),
            key: String::new(),
            secret: String::new(),
            enable_rate_limit: true,
        }
    }
}

/// The strategy to run, its timeframe, and its parameters as a JSON text.
#[derive(Debug, Clone, PartialEq, Eq)]
pub struct StrategyConfig {
    pub name: String,
    pub timeframe: Timeframe,
    pub params: String,
}

impl Default for StrategyConfig {
    fn default() -> (r: Self)
        ensures
            r.name@ == "SimpleStrategy"@,
            r.timeframe == Timeframe::OneHour,
            r.params@ == "{}"@,
    {
        StrategyConfig {
            name: String::from_str("SimpleStrategy"),
            timeframe: Timeframe::OneHour,
            params: String::from_str("{}"),
        }
    }
}

/// Where the store lives.
#[derive(Debug, Clone, PartialEq, Eq)]
pub struct DatabaseConfig {
    pub path: String,
}

impl Default for DatabaseConfig {
    fn default() -> (r: Self)
        ensures
            r.path@ == "user_data/trades.db"@,
    {
        DatabaseConfig { path: String::from_str("user_data/trades.db") }
    }
}

/// Where the command surface listens.
#[derive(Debug, Clone, PartialEq, Eq)]
pub struct ApiServerConfig {
    pub enabled: bool,
    pub listen_ip: String,
    pub listen_port: u16,
}

impl Default for ApiServerConfig {
    fn default() -> (r: Self)
        ensures
            r.enabled,
            r.listen_ip@ == "127.0.0.1"@,
            r.listen_port == 8080,
    {
        ApiServerConfig { enabled: true, listen_ip: String::from_str("127.0.0.1"), listen_port: 8080 }
    }
}

/// How much is logged.
#[derive(Debug, Clone, PartialEq, Eq)]
pub struct LogConfig {
    pub level: String,
}

impl Default for LogConfig {
    fn default() -> (r: Self)
        ensures
            r.level@ == "INFO"@,
    {
        LogConfig { level: String::from_str("INFO") }
    }
}

/// All the settings of the engine.
#[derive(Debug, Clone, PartialEq)]
pub struct AppConfig {
    pub bot: BotConfig,
    pub exchange: ExchangeConfig,
    pub strategy: StrategyConfig,
    pub database: DatabaseConfig,
    pub api_server: ApiServerConfig,
    pub log: LogConfig,
}

impl Default for AppConfig {
    fn default() -> (r: Self)
        ensures
            r.bot.max_open_trades == 3,
            r.bot.dry_run,
            r.bot.stake_currency@ == "USDT"@,
            r.exchange.name@ == "binance"@,
            r.database.path@ == "user_data/trades.db"@,
            r.log.level@ == "INFO"@,
    {
        AppConfig {
            bot: BotConfig::default(),
            exchange: ExchangeConfig::default(),
            strategy: StrategyConfig::default(),
            database: DatabaseConfig::default(),
            api_server: ApiServerConfig::default(),
            log: LogConfig::default(),
        }
    }
}

/// What the environment may override: each is `Some` where the variable is
/// set.
#[derive(Debug, Clone, PartialEq, Eq)]
pub struct EnvOverrides {
    /// `EXCHANGE_API_KEY`
    pub exchange_api_key: Option<String>,
    /// `EXCHANGE_API_SECRET`
    pub exchange_api_secret: Option<String>,
    /// `DATABASE_PATH`
    pub database_path: Option<String>,
    /// `LOG_LEVEL`
    pub log_level: Option<String>,
}

/// Holds the settings in force.
pub struct ConfigManager {
    config: AppConfig,
}

/// The text an override leaves in place of `current`.
pub open spec fn overridden(current: Seq<char>, value: Option<String>) -> Seq<char> {
    match value {
        Some(v) => v@,
        None => current,
    }
}

impl ConfigManager {
    /// The settings in force.
    pub closed spec fn spec_config(&self) -> AppConfig {
        self.config
    }

    /// A manager of the given settings.
    pub fn new(config: AppConfig) -> (r: Self)
        ensures
            r.spec_config() == config,
    {
        ConfigManager { config }
    }

    /// The settings in force.
    pub fn config(&self) -> (r: &AppConfig)
        ensures
            *r == self.spec_config(),
    {
        &self.config
    }

    /// The settings in force, to be changed in place.
    pub fn config_mut(&mut self) -> (r: &mut AppConfig)
        ensures
            *r == old(self).spec_config(),
            final(self).spec_config() == *final(r),
    {
        &mut self.config
    }

    /// Replaces the settings in force.
    pub fn set_config(&mut self, config: AppConfig)
        ensures
            final(self).spec_config() == config,
    {
        self.config = config;
    }

    /// Applies the overrides of the environment: the venue's key and
    /// secret, the path of the store and the log level are replaced where a
    /// value is given; everything else stays.
    pub fn load_from_env(&mut self, env: EnvOverrides) -> (r: Result<(), AppError>)
        ensures
            r is Ok,
            final(self).spec_config().exchange.key@ == overridden(
                old(self).spec_config().exchange.key@,
                env.exchange_api_key,
            ),
            final(self).spec_config().exchange.secret@ == overridden(
                old(self).spec_config().exchange.secret@,
                env.exchange_api_secret,
            ),
            final(self).spec_config().database.path@ == overridden(
                old(self).spec_config().database.path@,
                env.database_path,
            ),
            final(self).spec_config().log.level@ == overridden(
                old(self).spec_config().log.level@,
                env.log_level,
            ),
            final(self).spec_config().bot == old(self).spec_config().bot,
            final(self).spec_config().strategy == old(self).spec_config().strategy,
            final(self).spec_config().api_server == old(self).spec_config().api_server,
            final(self).spec_config().exchange.name == old(self).spec_config().exchange.name,
            final(self).spec_config().exchange.enable_rate_limit == old(
                self,
            ).spec_config().exchange.enable_rate_limit,
    {
        if let Some(key) = env.exchange_api_key {
            self.config.exchange.key = key;
        }
        if let Some(secret) = env.exchange_api_secret {
            self.config.exchange.secret = secret;
        }
        if let Some(path) = env.database_path {
            self.config.database.path = path;
        }
        if let Some(level) = env.log_level {
            self.config.log.level = level;
        }
        Ok(())
    }
}

} // verus!
