//! The strategy port and the indicator library that strategies build their
//! signals on.

pub mod indicators;
pub mod traits;

pub use indicators::{RSI, SMA};
pub use traits::Strategy;
