//! The venue adapter's logic: how requests are built and signed, how the
//! venue's answers become orders, balances and candles, and what the
//! streaming channel does with connection events and messages.

pub mod binance;
pub mod traits;
pub mod websocket;

pub use traits::Exchange;
