//! The routing decisions of the gateway: which connector request each
//! command of the order, position and balance domains becomes.

use vstd::prelude::*;
use crate::common::account_model::SubAccountIdentity;
use crate::exchange::exchange_domain::{BalanceCommand, ConnectorRequest, OrderCommand, PositionCommand};

verus! {

/// The connector request that carries an order command: every order command
/// reaches the connector, with the same sub-account, instrument and payload.
pub fn order_command_request<I, S: SubAccountIdentity>(cmd: OrderCommand<I, S>) -> (r: ConnectorRequest<I, S>)
    ensures
        match cmd {
            OrderCommand::Create { sub_account_id, instrument, req } => r
                == (ConnectorRequest::SubmitOrder { sub_account_id, instrument, req }),
            OrderCommand::Cancel { sub_account_id, instrument, id } => r
                == (ConnectorRequest::CancelOrder { sub_account_id, instrument, order_id: id }),
            OrderCommand::Amend { sub_account_id, instrument, id, req } => r
                == (ConnectorRequest::AmendOrder { sub_account_id, instrument, order_id: id, req }),
            OrderCommand::BatchCreate { sub_account_id, instrument, reqs, atomic } => r
                == (ConnectorRequest::BatchSubmitOrder { sub_account_id, instrument, reqs, atomic }),
            OrderCommand::BatchCancel { sub_account_id, instrument, ids, atomic } => r
                == (ConnectorRequest::BatchCancelOrder { sub_account_id, instrument, order_ids: ids, atomic }),
            OrderCommand::BatchAmend { sub_account_id, instrument, amends, atomic } => r
                == (ConnectorRequest::BatchAmendOrder { sub_account_id, instrument, amends, atomic }),
            OrderCommand::GetOpenOrders { sub_account_id, instrument } => r
                == (ConnectorRequest::FetchOpenOrders { sub_account_id, instrument }),
            OrderCommand::GetOrder { sub_account_id, instrument, id } => r
                == (ConnectorRequest::FetchOrder { sub_account_id, instrument, order_id: id }),
        },
{
    match cmd {
        OrderCommand::Create { sub_account_id, instrument, req } => ConnectorRequest::SubmitOrder {
            sub_account_id,
            instrument,
            req,
        },
        OrderCommand::Cancel { sub_account_id, instrument, id } => ConnectorRequest::CancelOrder {
            sub_account_id,
            instrument,
            order_id: id,
        },
        OrderCommand::Amend { sub_account_id, instrument, id, req } => ConnectorRequest::AmendOrder {
            sub_account_id,
            instrument,
            order_id: id,
            req,
        },
        OrderCommand::BatchCreate { sub_account_id, instrument, reqs, atomic } => ConnectorRequest::BatchSubmitOrder {
            sub_account_id,
            instrument,
            reqs,
            atomic,
        },
        OrderCommand::BatchCancel { sub_account_id, instrument, ids, atomic } => ConnectorRequest::BatchCancelOrder {
            sub_account_id,
            instrument,
            order_ids: ids,
            atomic,
        },
        OrderCommand::BatchAmend { sub_account_id, instrument, amends, atomic } => ConnectorRequest::BatchAmendOrder {
            sub_account_id,
            instrument,
            amends,
            atomic,
        },
        OrderCommand::GetOpenOrders { sub_account_id, instrument } => ConnectorRequest::FetchOpenOrders {
            sub_account_id,
            instrument,
        },
        OrderCommand::GetOrder { sub_account_id, instrument, id } => ConnectorRequest::FetchOrder {
            sub_account_id,
            instrument,
            order_id: id,
        },
    }
}

/// The connector request that a position command becomes: a query fetches the
/// positions; a subscription sends nothing, since position updates are
/// forwarded from the connector to every subscriber anyway.
pub fn position_command_request<I, S: SubAccountIdentity>(cmd: PositionCommand<I, S>) -> (r: Option<ConnectorRequest<I, S>>)
    ensures
        match cmd {
            PositionCommand::Query { sub_account_id, instrument } => r
                == Some(ConnectorRequest::FetchPositions { sub_account_id, instrument }),
            PositionCommand::Subscribe { .. } => r is None,
        },
{
    match cmd {
        PositionCommand::Query { sub_account_id, instrument } => Some(
            ConnectorRequest::FetchPositions { sub_account_id, instrument },
        ),
        PositionCommand::Subscribe { .. } => None,
    }
}

/// The connector request that a balance command becomes: a query fetches the
/// balances; a subscription sends nothing, since balance updates are
/// forwarded from the connector to every subscriber anyway.
pub fn balance_command_request<I, S: SubAccountIdentity>(cmd: BalanceCommand<S>) -> (r: Option<ConnectorRequest<I, S>>)
    ensures
        match cmd {
            BalanceCommand::Query { sub_account_id } => r == Some(
                ConnectorRequest::<I, S>::FetchBalances { sub_account_id },
            ),
            BalanceCommand::Subscribe { .. } => r is None,
        },
{
    match cmd {
        BalanceCommand::Query { sub_account_id } => Some(ConnectorRequest::FetchBalances { sub_account_id }),
        BalanceCommand::Subscribe { .. } => None,
    }
}

} // verus!
