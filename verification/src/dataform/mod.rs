pub mod orderbook;
pub mod kline;
pub mod tradeflow;
