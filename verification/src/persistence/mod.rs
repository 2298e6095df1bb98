//! The rules of the store: what a candle series and a trade ledger hold and
//! how they change, and how trades and candles are written as rows of text.

pub mod batches;
pub mod klines;
pub mod ledger;
pub mod repository;
pub mod rows;
pub mod stats;

pub use repository::Repository;
