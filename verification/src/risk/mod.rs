//! The risk-protection pipeline: rules that can veto trading, globally or for
//! one pair, until a later instant.

pub mod cooldown;
pub mod low_profit;
pub mod manager;
pub mod max_drawdown;
pub mod protection;
pub mod stoploss_guard;

pub use cooldown::{CooldownPeriod, CooldownPeriodConfig};
pub use low_profit::{LowProfitPairs, LowProfitPairsConfig};
pub use manager::{Protection, RiskManager, StopReason};
pub use max_drawdown::{MaxDrawdownProtection, MaxDrawdownProtectionConfig};
pub use protection::{IProtection, ProtectionLock, ProtectionReturn};
pub use stoploss_guard::{StoplossGuard, StoplossGuardConfig};
