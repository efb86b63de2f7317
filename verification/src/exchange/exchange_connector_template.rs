//! The decisions of the connector, as a state machine: what each network
//! command does (reconnect, disconnect, or a circuit break that cancels all
//! open orders, disconnects and halts trading), and which requests the
//! connector still lets through.

use vstd::prelude::*;
use crate::common::account_model::SubAccountIdentity;
use crate::exchange::exchange_domain::{ConnectorRequest, NetworkCommand};

verus! {

/// The trading state of a connector.
#[derive(Debug, Clone, Copy, PartialEq, Eq, Structural)]
pub struct ConnectorState {
    /// Whether a circuit break has halted trading: new and amended orders are
    /// refused until the next reconnection.
    pub trading_halted: bool,
}

impl ConnectorState {
    /// A connector that trades.
    pub fn new() -> (r: ConnectorState)
        ensures
            !r.trading_halted,
    {
        ConnectorState { trading_halted: false }
    }
}

/// A hook of a connector implementation that the network loop runs.
#[derive(Debug, Clone, Copy, PartialEq, Eq, Structural)]
pub enum NetworkAction {
    /// Drop the old connection, open a new one and restore subscriptions.
    Reconnect,
    /// Close the connection.
    Disconnect,
    /// Cancel every open order.
    CancelAllOrders,
}

/// The state after a network command: a circuit break halts trading, a
/// reconnection restores it, a disconnection leaves it as it is.
pub open spec fn connector_next(st: ConnectorState, cmd: NetworkCommand) -> ConnectorState {
    match cmd {
        NetworkCommand::Reconnect => ConnectorState { trading_halted: false },
        NetworkCommand::Disconnect => st,
        NetworkCommand::CircuitBreak => ConnectorState { trading_halted: true },
    }
}

/// The hooks a network command runs, in order.
pub open spec fn network_actions(cmd: NetworkCommand) -> Seq<NetworkAction> {
    match cmd {
        NetworkCommand::Reconnect => seq![NetworkAction::Reconnect],
        NetworkCommand::Disconnect => seq![NetworkAction::Disconnect],
        NetworkCommand::CircuitBreak => seq![NetworkAction::CancelAllOrders, NetworkAction::Disconnect],
    }
}

/// The state after a run of network commands, in order.
pub open spec fn connector_run(st: ConnectorState, cmds: Seq<NetworkCommand>) -> ConnectorState
    decreases cmds.len(),
{
    if cmds.len() == 0 {
        st
    } else {
        connector_run(connector_next(st, cmds[0]), cmds.drop_first())
    }
}

/// What each network command does, told directly: a circuit break halts
/// trading and runs two hooks, cancelling all open orders before it
/// disconnects; a reconnection lifts the halt and only reconnects; a
/// disconnection keeps the halt as it was and only disconnects.
pub open spec fn network_law(st: ConnectorState, cmd: NetworkCommand, r: ConnectorState, actions: Seq<NetworkAction>) -> bool {
    &&& cmd == NetworkCommand::CircuitBreak ==> {
        &&& r.trading_halted
        &&& actions.len() == 2
        &&& actions[0] == NetworkAction::CancelAllOrders
        &&& actions[1] == NetworkAction::Disconnect
    }
    &&& cmd == NetworkCommand::Reconnect ==> !r.trading_halted && actions.len() == 1 && actions[0]
        == NetworkAction::Reconnect
    &&& cmd == NetworkCommand::Disconnect ==> r.trading_halted == st.trading_halted && actions.len() == 1
        && actions[0] == NetworkAction::Disconnect
}

/// Every network command on every state does what `network_law` says.
pub proof fn lemma_network_law(st: ConnectorState, cmd: NetworkCommand)
    ensures
        network_law(st, cmd, connector_next(st, cmd), network_actions(cmd)),
{
}

/// One step of the connector on a network command: the next state and the
/// hooks to run. A circuit break cancels all open orders first, then
/// disconnects.
pub fn network_step(state: ConnectorState, cmd: NetworkCommand) -> (r: (ConnectorState, Vec<NetworkAction>))
    ensures
        r.0 == connector_next(state, cmd),
        r.1@ == network_actions(cmd),
        network_law(state, cmd, r.0, r.1@),
{
    proof {
        lemma_network_law(state, cmd);
    }
    let mut actions: Vec<NetworkAction> = Vec::new();
    match cmd {
        NetworkCommand::Reconnect => {
            actions.push(NetworkAction::Reconnect);
            (ConnectorState { trading_halted: false }, actions)
        },
        NetworkCommand::Disconnect => {
            actions.push(NetworkAction::Disconnect);
            (state, actions)
        },
        NetworkCommand::CircuitBreak => {
            actions.push(NetworkAction::CancelAllOrders);
            actions.push(NetworkAction::Disconnect);
            proof {
                assert(actions@ =~= network_actions(cmd));
            }
            (ConnectorState { trading_halted: true }, actions)
        },
    }
}

/// What a connector request does.
#[derive(Debug, Clone, Copy, PartialEq, Eq, Structural)]
pub enum RequestKind {
    /// Subscribing to or unsubscribing from market data.
    MarketData,
    /// Placing or amending orders.
    Trading,
    /// Cancelling orders.
    Cancellation,
    /// Fetching orders, positions or balances.
    Query,
}

/// The kind of a connector request.
pub open spec fn kind_of_request<I, S: SubAccountIdentity>(req: ConnectorRequest<I, S>) -> RequestKind {
    match req {
        ConnectorRequest::Subscribe { .. } => RequestKind::MarketData,
        ConnectorRequest::Unsubscribe { .. } => RequestKind::MarketData,
        ConnectorRequest::SubmitOrder { .. } => RequestKind::Trading,
        ConnectorRequest::AmendOrder { .. } => RequestKind::Trading,
        ConnectorRequest::BatchSubmitOrder { .. } => RequestKind::Trading,
        ConnectorRequest::BatchAmendOrder { .. } => RequestKind::Trading,
        ConnectorRequest::CancelOrder { .. } => RequestKind::Cancellation,
        ConnectorRequest::BatchCancelOrder { .. } => RequestKind::Cancellation,
        ConnectorRequest::FetchOpenOrders { .. } => RequestKind::Query,
        ConnectorRequest::FetchOrder { .. } => RequestKind::Query,
        ConnectorRequest::FetchPositions { .. } => RequestKind::Query,
        ConnectorRequest::FetchBalances { .. } => RequestKind::Query,
    }
}

/// Whether `req` places or amends orders, singly or in a batch.
pub open spec fn places_or_amends<I, S: SubAccountIdentity>(req: ConnectorRequest<I, S>) -> bool {
    ||| req is SubmitOrder
    ||| req is AmendOrder
    ||| req is BatchSubmitOrder
    ||| req is BatchAmendOrder
}

/// How requests are told apart: placing or amending orders is trading;
/// cancelling orders (singly or in a batch) is cancellation; fetching orders,
/// positions or balances is a query; subscribing or unsubscribing is market
/// data.
pub open spec fn request_kind_law<I, S: SubAccountIdentity>(req: ConnectorRequest<I, S>, k: RequestKind) -> bool {
    &&& (k == RequestKind::Trading) == places_or_amends(req)
    &&& (k == RequestKind::Cancellation) == (req is CancelOrder || req is BatchCancelOrder)
    &&& (k == RequestKind::Query) == (req is FetchOpenOrders || req is FetchOrder || req is FetchPositions
        || req is FetchBalances)
    &&& (k == RequestKind::MarketData) == (req is Subscribe || req is Unsubscribe)
}

/// Every request is classified as `request_kind_law` says.
pub proof fn lemma_request_kind_law<I, S: SubAccountIdentity>(req: ConnectorRequest<I, S>)
    ensures
        request_kind_law(req, kind_of_request(req)),
{
}

/// The kind of a connector request.
pub fn request_kind<I, S: SubAccountIdentity>(req: &ConnectorRequest<I, S>) -> (k: RequestKind)
    ensures
        k == kind_of_request(*req),
        request_kind_law(*req, k),
{
    match req {
        ConnectorRequest::Subscribe { .. } => RequestKind::MarketData,
        ConnectorRequest::Unsubscribe { .. } => RequestKind::MarketData,
        ConnectorRequest::SubmitOrder { .. } => RequestKind::Trading,
        ConnectorRequest::AmendOrder { .. } => RequestKind::Trading,
        ConnectorRequest::BatchSubmitOrder { .. } => RequestKind::Trading,
        ConnectorRequest::BatchAmendOrder { .. } => RequestKind::Trading,
        ConnectorRequest::CancelOrder { .. } => RequestKind::Cancellation,
        ConnectorRequest::BatchCancelOrder { .. } => RequestKind::Cancellation,
        ConnectorRequest::FetchOpenOrders { .. } => RequestKind::Query,
        ConnectorRequest::FetchOrder { .. } => RequestKind::Query,
        ConnectorRequest::FetchPositions { .. } => RequestKind::Query,
        ConnectorRequest::FetchBalances { .. } => RequestKind::Query,
    }
}

/// Whether a connector in state `st` runs a request of kind `k`: everything
/// runs, except trading while trading is halted.
pub open spec fn admitted(st: ConnectorState, k: RequestKind) -> bool {
    !(st.trading_halted && k == RequestKind::Trading)
}

/// Whether a connector in state `state` runs a request of kind `kind`.
pub fn admits(state: ConnectorState, kind: RequestKind) -> (r: bool)
    ensures
        r == admitted(state, kind),
        r == !(state.trading_halted && kind == RequestKind::Trading),
{
    !(state.trading_halted && kind == RequestKind::Trading)
}

/// A circuit break halts trading, and trading stays halted until a
/// reconnection: after a circuit break followed by any run of commands
/// without `Reconnect`, no order is placed or amended.
pub proof fn lemma_circuit_break_halts_trading(st: ConnectorState, cmds: Seq<NetworkCommand>)
    requires
        forall|i: int| 0 <= i < cmds.len() ==> cmds[i] != NetworkCommand::Reconnect,
    ensures
        connector_run(connector_next(st, NetworkCommand::CircuitBreak), cmds).trading_halted,
        !admitted(connector_run(connector_next(st, NetworkCommand::CircuitBreak), cmds), RequestKind::Trading),
    decreases cmds.len(),
{
    if cmds.len() > 0 {
        let rest = cmds.drop_first();
        assert(cmds[0] != NetworkCommand::Reconnect);
        assert(connector_next(connector_next(st, NetworkCommand::CircuitBreak), cmds[0]) == connector_next(
            st,
            NetworkCommand::CircuitBreak,
        ));
        assert forall|i: int| 0 <= i < rest.len() implies rest[i] != NetworkCommand::Reconnect by {
            assert(rest[i] == cmds[i + 1]);
        }
        lemma_circuit_break_halts_trading(st, rest);
    }
}

/// After a circuit break, and through any run of commands without a
/// reconnection, no request that places or amends orders is let through,
/// while cancellations still are.
pub proof fn lemma_no_order_placed_after_circuit_break<I, S: SubAccountIdentity>(
    st: ConnectorState,
    cmds: Seq<NetworkCommand>,
    req: ConnectorRequest<I, S>,
)
    requires
        forall|i: int| 0 <= i < cmds.len() ==> cmds[i] != NetworkCommand::Reconnect,
    ensures
        places_or_amends(req) ==> !admitted(
            connector_run(connector_next(st, NetworkCommand::CircuitBreak), cmds),
            kind_of_request(req),
        ),
        (req is CancelOrder || req is BatchCancelOrder) ==> admitted(
            connector_run(connector_next(st, NetworkCommand::CircuitBreak), cmds),
            kind_of_request(req),
        ),
{
    lemma_circuit_break_halts_trading(st, cmds);
    lemma_request_kind_law(req);
}

} // verus!
