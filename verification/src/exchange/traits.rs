//! The exchange port: what the coordinator asks of a venue.

use crate::error::AppError;
use crate::types::{Balance, Order, OrderRequest, Position, Ticker, OHLCV};
use vstd::prelude::*;

verus! {

/// A venue. What it answers is its own affair: nothing is promised of it
/// here, and the coordinator is proved for whatever comes back.
pub trait Exchange {
    /// The last price and the 24-hour statistics of a market.
    fn fetch_ticker(&self, symbol: &str) -> Result<Ticker, AppError>;

    /// The latest candles of a market, oldest first, at most `limit`.
    fn fetch_ohlcv(&self, symbol: &str, timeframe: &str, limit: usize) -> Result<
        Vec<OHLCV>,
        AppError,
    >;

    /// The balance of the stake currency.
    fn fetch_balance(&self) -> Result<Balance, AppError>;

    /// The open positions.
    fn fetch_positions(&self) -> Result<Vec<Position>, AppError>;

    /// Submits an order.
    fn create_order(&self, order: OrderRequest) -> Result<Order, AppError>;

    /// Withdraws an order.
    fn cancel_order(&self, order_id: &str) -> Result<(), AppError>;

    /// The state of an order.
    fn fetch_order(&self, order_id: &str) -> Result<Order, AppError>;

    /// All the orders of a market.
    fn fetch_orders(&self, symbol: &str) -> Result<Vec<Order>, AppError>;

    /// The name under which trades of this venue are stored.
    fn get_name(&self) -> String;
}

} // verus!
