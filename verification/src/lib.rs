//! A trading engine core: decimal and time primitives, the market data model,
//! the risk-protection pipeline, the trading coordinator with its iteration
//! for each pair, the rules of the store, the indicators, and the exchange
//! adapter's request and response logic.
//!
//! The library waits for nothing and reads no clock: a venue and a strategy
//! are asked through the traits `exchange::Exchange` and `strategy::Strategy`,
//! and instants and identifiers are handed in.

pub mod backtest;
pub mod bot;
pub mod config;
pub mod decimal;
pub mod error;
pub mod exchange;
pub mod optimize;
pub mod persistence;
pub mod risk;
pub mod strategy;
pub mod text;
pub mod time;
pub mod trade;
pub mod types;
pub mod utils;
