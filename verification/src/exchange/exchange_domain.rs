//! Domain tags that tell channels apart, and the languages spoken on them:
//! network control, connector requests, feed commands and the order,
//! position and balance protocols of the gateway.

use vstd::prelude::*;
use crate::common::account_model::{
    AssetIdentity, Balance, ClientOrderId, KlineInterval, Order, OrderId, OrderRequest, Position,
    SubAccountIdentity,
};

verus! {

/// A marker for the types that tag a business domain, by which channels of
/// different domains are told apart.
pub trait DomainTag {}

// --- Market data domains (feed) ---

/// The order book domain (L2/L3).
#[derive(Debug, Clone, Copy)]
pub struct OrderBookDomain;

impl DomainTag for OrderBookDomain {}

/// The trade flow domain (trades / ticker).
#[derive(Debug, Clone, Copy)]
pub struct TradeFlowDomain;

impl DomainTag for TradeFlowDomain {}

/// The candlestick domain (OHLCV).
#[derive(Debug, Clone, Copy)]
pub struct KlineDomain;

impl DomainTag for KlineDomain {}

// --- Trading domains (gateway) ---

/// The order management domain.
#[derive(Debug, Clone, Copy)]
pub struct OrderDomain;

impl DomainTag for OrderDomain {}

/// The position management domain.
#[derive(Debug, Clone, Copy)]
pub struct PositionDomain;

impl DomainTag for PositionDomain {}

/// The balance / asset domain.
#[derive(Debug, Clone, Copy)]
pub struct BalanceDomain;

impl DomainTag for BalanceDomain {}

// --- Network domains (connector) ---

/// The network control domain.
#[derive(Debug, Clone, Copy)]
pub struct NetworkControlDomain;

impl DomainTag for NetworkControlDomain {}

/// The network status domain.
#[derive(Debug, Clone, Copy)]
pub struct NetworkStatusDomain;

impl DomainTag for NetworkStatusDomain {}

/// The connector control domain, through which requests (subscriptions,
/// orders, queries) reach the connector.
#[derive(Debug, Clone, Copy)]
pub struct ConnectorControlDomain;

impl DomainTag for ConnectorControlDomain {}

// --- Connector language ---

/// A command for the network layer.
#[derive(Debug, Clone, Copy, PartialEq, Eq, Structural)]
pub enum NetworkCommand {
    /// Force a reconnection.
    Reconnect,
    /// Disconnect (usually for maintenance).
    Disconnect,
    /// Circuit break: cancel what can be cancelled and stop trading as fast
    /// as possible.
    CircuitBreak,
}

/// The state of the network layer.
#[derive(Debug, Clone)]
pub enum NetworkStatus {
    Connected,
    Disconnected,
    Reconnecting,
    /// A fatal error that cannot be recovered from automatically.
    FatalError(String),
    /// The current network latency in milliseconds.
    Latency(u64),
}

/// A kind of market data stream.
#[derive(Debug, Clone, Copy, PartialEq, Eq, Structural, Hash)]
pub enum ChannelType {
    OrderBook,
    TradeFlow,
    Kline(KlineInterval),
    /// Balance, position and order updates.
    AccountUpdate,
}

/// A request to the connector, by which the feed and the gateway reach the
/// network layer; `I` names instruments, `S` sub-accounts.
#[derive(Debug, Clone)]
pub enum ConnectorRequest<I, S: SubAccountIdentity> {
    // --- Feed requests ---
    /// Subscribe to a market data stream.
    Subscribe { instrument: I, channel_type: ChannelType },
    /// Unsubscribe from a market data stream.
    Unsubscribe { instrument: I, channel_type: ChannelType },
    // --- Gateway requests (execution) ---
    /// Send an order.
    SubmitOrder { sub_account_id: S, instrument: I, req: OrderRequest },
    /// Cancel an order.
    CancelOrder { sub_account_id: S, instrument: I, order_id: OrderId },
    /// Amend an order.
    AmendOrder { sub_account_id: S, instrument: I, order_id: OrderId, req: OrderRequest },
    // --- Gateway requests (batch execution) ---
    /// Send a batch of orders.
    BatchSubmitOrder { sub_account_id: S, instrument: I, reqs: Vec<OrderRequest>, atomic: bool },
    /// Cancel a batch of orders.
    BatchCancelOrder { sub_account_id: S, instrument: I, order_ids: Vec<OrderId>, atomic: bool },
    /// Amend a batch of orders.
    BatchAmendOrder {
        sub_account_id: S,
        instrument: I,
        amends: Vec<(OrderId, OrderRequest)>,
        atomic: bool,
    },
    // --- Gateway requests (queries) ---
    /// Fetch the open orders.
    FetchOpenOrders { sub_account_id: S, instrument: Option<I> },
    /// Fetch one order.
    FetchOrder { sub_account_id: S, instrument: I, order_id: OrderId },
    /// Fetch the positions.
    FetchPositions { sub_account_id: S, instrument: Option<I> },
    /// Fetch the balances.
    FetchBalances { sub_account_id: S },
}

// --- Feed language ---

/// A command by which a strategy steers the feed.
#[derive(Debug, Clone)]
pub enum FeedCommand<I> {
    /// Subscribe to a data stream of an instrument.
    Subscribe { instrument: I, channel_type: ChannelType },
    /// Unsubscribe.
    Unsubscribe { instrument: I, channel_type: ChannelType },
    /// Ask for a full snapshot to be pushed at once.
    RequestSnapshot { instrument: I },
    /// Pause pushing (to save bandwidth).
    Suspend { instrument: I },
    /// Resume pushing.
    Resume { instrument: I },
    /// Set the aggregation interval in milliseconds; `0` pushes in real time.
    SetFrequency { instrument: I, interval_ms: u64 },
}

// --- Gateway language ---

/// An error of the gateway.
#[derive(Debug, Clone)]
pub enum GatewayError {
    Network(String),
    Exchange(String),
    OrderNotFound,
    InvalidRequest(String),
}

impl GatewayError {
    /// The message of the error.
    pub open spec fn message(self) -> Seq<char> {
        match self {
            GatewayError::Network(s) => "Network error: "@ + s@,
            GatewayError::Exchange(s) => "Exchange error: "@ + s@,
            GatewayError::OrderNotFound => "Order not found"@,
            GatewayError::InvalidRequest(s) => "Invalid request: "@ + s@,
        }
    }

    /// The message of the error, as displayed.
    pub fn to_string(&self) -> (r: String)
        ensures
            r@ == self.message(),
    {
        match self {
            GatewayError::Network(s) => String::from_str("Network error: ").concat(s.as_str()),
            GatewayError::Exchange(s) => String::from_str("Exchange error: ").concat(s.as_str()),
            GatewayError::OrderNotFound => String::from_str("Order not found"),
            GatewayError::InvalidRequest(s) => String::from_str("Invalid request: ").concat(s.as_str()),
        }
    }
}

// --- Order domain ---

/// A command of the order domain.
#[derive(Debug, Clone)]
pub enum OrderCommand<I, S: SubAccountIdentity> {
    // Single operations
    Create { sub_account_id: S, instrument: I, req: OrderRequest },
    Cancel { sub_account_id: S, instrument: I, id: OrderId },
    Amend { sub_account_id: S, instrument: I, id: OrderId, req: OrderRequest },
    // Batch operations
    BatchCreate {
        sub_account_id: S,
        instrument: I,
        reqs: Vec<OrderRequest>,
        /// All or nothing, where the exchange supports it.
        atomic: bool,
    },
    BatchCancel { sub_account_id: S, instrument: I, ids: Vec<OrderId>, atomic: bool },
    BatchAmend { sub_account_id: S, instrument: I, amends: Vec<(OrderId, OrderRequest)>, atomic: bool },
    // Queries
    GetOpenOrders { sub_account_id: S, instrument: Option<I> },
    GetOrder { sub_account_id: S, instrument: I, id: OrderId },
}

/// An event of the order domain.
#[derive(Debug, Clone)]
pub enum OrderUpdate<I, A: AssetIdentity, S: SubAccountIdentity> {
    // Command results (ack / nack)
    RequestAccepted { sub_account_id: S, id: OrderId, client_id: Option<ClientOrderId> },
    RequestRejected {
        sub_account_id: S,
        id: Option<OrderId>,
        client_id: Option<ClientOrderId>,
        reason: String,
    },
    // State changes pushed by the exchange
    OrderNew(Order<A, S>),
    OrderFilled(Order<A, S>),
    OrderCanceled { sub_account_id: S, id: OrderId, instrument: I },
    OrderRejected { sub_account_id: S, id: Option<OrderId>, reason: String },
    OrderExpired { sub_account_id: S, id: OrderId, instrument: I },
    // Query results
    OrderSnapshot(Vec<Order<A, S>>),
    // Error
    Error(String),
}

// --- Position domain ---

/// A command of the position domain.
#[derive(Debug, Clone)]
pub enum PositionCommand<I, S: SubAccountIdentity> {
    Subscribe { sub_account_id: S },
    Query { sub_account_id: S, instrument: Option<I> },
}

/// An event of the position domain.
#[derive(Debug, Clone)]
pub enum PositionUpdate<A: AssetIdentity, S: SubAccountIdentity> {
    Snapshot(Vec<Position<A, S>>),
    Update(Position<A, S>),
    Error(String),
}

// --- Balance domain ---

/// A command of the balance domain.
#[derive(Debug, Clone)]
pub enum BalanceCommand<S: SubAccountIdentity> {
    Subscribe { sub_account_id: S },
    Query { sub_account_id: S },
}

/// An event of the balance domain.
#[derive(Debug, Clone)]
pub enum BalanceUpdate<A: AssetIdentity, S: SubAccountIdentity> {
    Snapshot(Vec<Balance<A, S>>),
    Update(Balance<A, S>),
    Error(String),
}

} // verus!
