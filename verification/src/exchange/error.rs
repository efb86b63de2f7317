//! Errors that exchanges report.

use vstd::prelude::*;
use crate::common::account_model::{OrderId, SubAccountIdentity};

verus! {

/// An error that an exchange reports.
#[derive(Clone, Debug)]
pub enum ExchangeError<S: SubAccountIdentity> {
    Network(String),
    RateLimit(String),
    Authentication(String),
    OrderNotFound { sub_account_id: S, id: OrderId },
    InsufficientFunds(String),
    InvalidInstrument(String),
    ExchangeInternal(String),
    NotSupported(String),
    Config(String),
    Unknown(String),
}

/// The result of an exchange operation.
pub type ExchangeResult<T, S> = Result<T, ExchangeError<S>>;

impl<S: SubAccountIdentity> ExchangeError<S> {
    /// The message of the error.
    pub open spec fn message(self) -> Seq<char> {
        match self {
            ExchangeError::Network(s) => "Network connection failed: "@ + s@,
            ExchangeError::RateLimit(s) => "API rate limit exceeded: "@ + s@,
            ExchangeError::Authentication(s) => "Authentication failed: "@ + s@,
            ExchangeError::OrderNotFound { sub_account_id, id } => "Order not found: "@ + id@
                + " in account "@ + sub_account_id.display_text(),
            ExchangeError::InsufficientFunds(s) => "Insufficient funds: "@ + s@,
            ExchangeError::InvalidInstrument(s) => "Invalid instrument: "@ + s@,
            ExchangeError::ExchangeInternal(s) => "Exchange internal error: "@ + s@,
            ExchangeError::NotSupported(s) => "Operation not supported: "@ + s@,
            ExchangeError::Config(s) => "Configuration error: "@ + s@,
            ExchangeError::Unknown(s) => "Unknown error: "@ + s@,
        }
    }

    /// The message of the error, as displayed.
    pub fn to_string(&self) -> (r: String)
        ensures
            r@ == self.message(),
    {
        match self {
            ExchangeError::Network(s) => String::from_str("Network connection failed: ").concat(s.as_str()),
            ExchangeError::RateLimit(s) => String::from_str("API rate limit exceeded: ").concat(s.as_str()),
            ExchangeError::Authentication(s) => String::from_str("Authentication failed: ").concat(s.as_str()),
            ExchangeError::OrderNotFound { sub_account_id, id } => {
                let mut r = String::from_str("Order not found: ");
                r.append(id.as_str());
                r.append(" in account ");
                let account = sub_account_id.to_display_string();
                r.append(account.as_str());
                r
            },
            ExchangeError::InsufficientFunds(s) => String::from_str("Insufficient funds: ").concat(s.as_str()),
            ExchangeError::InvalidInstrument(s) => String::from_str("Invalid instrument: ").concat(s.as_str()),
            ExchangeError::ExchangeInternal(s) => String::from_str("Exchange internal error: ").concat(s.as_str()),
            ExchangeError::NotSupported(s) => String::from_str("Operation not supported: ").concat(s.as_str()),
            ExchangeError::Config(s) => String::from_str("Configuration error: ").concat(s.as_str()),
            ExchangeError::Unknown(s) => String::from_str("Unknown error: ").concat(s.as_str()),
        }
    }
}

} // verus!
