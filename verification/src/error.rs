//! The closed set of error kinds, each with a human-readable message.

use vstd::prelude::*;
use vstd::string::*;

verus! {

/// An error of the engine: a kind and a message.
#[derive(Debug, Clone, PartialEq, Eq)]
pub enum AppError {
    /// A setting is missing or invalid.
    Config(String),
    /// The store refused or failed an operation.
    Database(String),
    /// The venue refused a request.
    Exchange(String),
    /// A strategy failed to produce signals.
    Strategy(String),
    /// A historical replay failed.
    Backtest(String),
    /// A lifecycle transition of the coordinator is not allowed.
    Bot(String),
    /// A request did not reach the venue.
    Network(String),
    /// A file could not be read or written.
    Io(String),
    /// A stored or received text could not be read.
    Parse(String),
    /// The item asked for does not exist.
    NotFound(String),
    /// An argument is outside what the operation accepts.
    InvalidInput(String),
    /// The streaming channel failed.
    WebSocket(String),
    /// A value could not be encoded or decoded.
    Serialization(String),
    /// A decimal computation overflowed or divided by zero.
    Decimal(String),
    /// Any other failure.
    Custom(String),
    /// The operation is not available.
    NotImplemented(String),
}

/// The result of a fallible operation of the engine.
pub type Result<T> = std::result::Result<T, AppError>;

impl AppError {
    /// The message the error carries.
    pub open spec fn spec_message(self) -> Seq<char> {
        match self {
            AppError::Config(m) => m@,
            AppError::Database(m) => m@,
            AppError::Exchange(m) => m@,
            AppError::Strategy(m) => m@,
            AppError::Backtest(m) => m@,
            AppError::Bot(m) => m@,
            AppError::Network(m) => m@,
            AppError::Io(m) => m@,
            AppError::Parse(m) => m@,
            AppError::NotFound(m) => m@,
            AppError::InvalidInput(m) => m@,
            AppError::WebSocket(m) => m@,
            AppError::Serialization(m) => m@,
            AppError::Decimal(m) => m@,
            AppError::Custom(m) => m@,
            AppError::NotImplemented(m) => m@,
        }
    }

    /// The words that introduce the message of each kind.
    pub open spec fn spec_prefix(self) -> Seq<char> {
        match self {
            AppError::Config(_) => "Configuration error: "@,
            AppError::Database(_) => "Database error: "@,
            AppError::Exchange(_) => "Exchange error: "@,
            AppError::Strategy(_) => "Strategy error: "@,
            AppError::Backtest(_) => "Backtest error: "@,
            AppError::Bot(_) => "Trading bot error: "@,
            AppError::Network(_) => "Network error: "@,
            AppError::Io(_) => "IO error: "@,
            AppError::Parse(_) => "Parse error: "@,
            AppError::NotFound(_) => "Not found: "@,
            AppError::InvalidInput(_) => "Invalid input: "@,
            AppError::WebSocket(_) => "WebSocket error: "@,
            AppError::Serialization(_) => "Serialization error: "@,
            AppError::Decimal(_) => "Decimal error: "@,
            AppError::Custom(_) => "Custom error: "@,
            AppError::NotImplemented(_) => "Not implemented: "@,
        }
    }

    /// The message the error carries.
    pub fn message(&self) -> (r: &str)
        ensures
            r@ == self.spec_message(),
    {
        match self {
            AppError::Config(m) => m.as_str(),
            AppError::Database(m) => m.as_str(),
            AppError::Exchange(m) => m.as_str(),
            AppError::Strategy(m) => m.as_str(),
            AppError::Backtest(m) => m.as_str(),
            AppError::Bot(m) => m.as_str(),
            AppError::Network(m) => m.as_str(),
            AppError::Io(m) => m.as_str(),
            AppError::Parse(m) => m.as_str(),
            AppError::NotFound(m) => m.as_str(),
            AppError::InvalidInput(m) => m.as_str(),
            AppError::WebSocket(m) => m.as_str(),
            AppError::Serialization(m) => m.as_str(),
            AppError::Decimal(m) => m.as_str(),
            AppError::Custom(m) => m.as_str(),
            AppError::NotImplemented(m) => m.as_str(),
        }
    }

    /// The words that introduce the message of each kind.
    pub fn prefix(&self) -> (r: &'static str)
        ensures
            r@ == self.spec_prefix(),
    {
        match self {
            AppError::Config(_) => "Configuration error: ",
            AppError::Database(_) => "Database error: ",
            AppError::Exchange(_) => "Exchange error: ",
            AppError::Strategy(_) => "Strategy error: ",
            AppError::Backtest(_) => "Backtest error: ",
            AppError::Bot(_) => "Trading bot error: ",
            AppError::Network(_) => "Network error: ",
            AppError::Io(_) => "IO error: ",
            AppError::Parse(_) => "Parse error: ",
            AppError::NotFound(_) => "Not found: ",
            AppError::InvalidInput(_) => "Invalid input: ",
            AppError::WebSocket(_) => "WebSocket error: ",
            AppError::Serialization(_) => "Serialization error: ",
            AppError::Decimal(_) => "Decimal error: ",
            AppError::Custom(_) => "Custom error: ",
            AppError::NotImplemented(_) => "Not implemented: ",
        }
    }

    /// The text shown to a user: the words of the kind, then the message.
    pub fn describe(&self) -> (r: String)
        ensures
            r@ == self.spec_prefix() + self.spec_message(),
    {
        let mut s = String::from_str(self.prefix());
        s.append(self.message());
        s
    }
}

} // verus!
