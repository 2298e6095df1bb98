//! Fees and slippage of a trade.

pub mod fee;
