//! A trading-system toolkit: market-data canvases (order books, trade flows,
//! candlestick series), the account and order domain model, and the routing
//! decisions of the connector, feed and gateway actors.

pub mod common;
pub mod dataform;
pub mod exchange;
