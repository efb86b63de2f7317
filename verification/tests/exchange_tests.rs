use unitrade::common::account_model::{
    ExecutionInstruction, KlineInterval, OrderRequest, OrderSide, OrderType, TimeInForce,
};
use unitrade::common::decimal::Decimal;
use unitrade::exchange::error::ExchangeError;
use unitrade::exchange::exchange_connector_template::{
    admits, network_step, request_kind, ConnectorState, NetworkAction, RequestKind,
};
use unitrade::exchange::exchange_domain::{
    BalanceCommand, ChannelType, ConnectorRequest, FeedCommand, GatewayError, NetworkCommand,
    OrderCommand, PositionCommand,
};
use unitrade::exchange::exchange_feed_template::{
    deliver_step, feed_step, flush_step, forwarded_stream, next_push_due, snapshot_streams, Delivery, FeedStep,
    InstrumentFeed, StreamKind,
};
use unitrade::exchange::exchange_gateway_template::{
    balance_command_request, order_command_request, position_command_request,
};
use unitrade::exchange::exchange_template::{Component, Exchange};

fn request(q: i128) -> OrderRequest {
    OrderRequest {
        side: OrderSide::Buy,
        order_type: OrderType::Limit,
        price: Decimal::from_parts(100, 0),
        quantity: Decimal::from_parts(q, 0).unwrap(),
        client_order_id: Some("c1".to_string()),
        time_in_force: Some(TimeInForce::Gtc),
        trigger_price: None,
        trigger_type: None,
        visible_quantity: None,
        instructions: vec![ExecutionInstruction::PostOnly],
    }
}

#[test]
fn exchange_error_messages() {
    let s = |t: &str| t.to_string();
    assert_eq!(ExchangeError::<&str>::Network(s("down")).to_string(), s("Network connection failed: down"));
    assert_eq!(ExchangeError::<&str>::RateLimit(s("10/s")).to_string(), s("API rate limit exceeded: 10/s"));
    assert_eq!(ExchangeError::<&str>::Authentication(s("key")).to_string(), s("Authentication failed: key"));
    assert_eq!(
        ExchangeError::OrderNotFound { sub_account_id: "main", id: s("42") }.to_string(),
        s("Order not found: 42 in account main")
    );
    assert_eq!(ExchangeError::<&str>::InsufficientFunds(s("USDT")).to_string(), s("Insufficient funds: USDT"));
    assert_eq!(ExchangeError::<&str>::InvalidInstrument(s("XYZ")).to_string(), s("Invalid instrument: XYZ"));
    assert_eq!(ExchangeError::<&str>::ExchangeInternal(s("500")).to_string(), s("Exchange internal error: 500"));
    assert_eq!(ExchangeError::<&str>::NotSupported(s("amend")).to_string(), s("Operation not supported: amend"));
    assert_eq!(ExchangeError::<&str>::Config(s("url")).to_string(), s("Configuration error: url"));
    assert_eq!(ExchangeError::<&str>::Unknown(s("?")).to_string(), s("Unknown error: ?"));
}

#[test]
fn gateway_error_messages() {
    assert_eq!(GatewayError::Network("t".to_string()).to_string(), "Network error: t".to_string());
    assert_eq!(GatewayError::Exchange("e".to_string()).to_string(), "Exchange error: e".to_string());
    assert_eq!(GatewayError::OrderNotFound.to_string(), "Order not found".to_string());
    assert_eq!(
        GatewayError::InvalidRequest("r".to_string()).to_string(),
        "Invalid request: r".to_string()
    );
}

#[test]
fn order_create_becomes_submit_order() {
    let cmd: OrderCommand<u32, &str> = OrderCommand::Create { sub_account_id: "main", instrument: 7, req: request(3) };
    match order_command_request(cmd) {
        ConnectorRequest::SubmitOrder { sub_account_id, instrument, req } => {
            assert_eq!(sub_account_id, "main");
            assert_eq!(instrument, 7);
            assert_eq!(req.quantity.mantissa(), 3);
            assert_eq!(req.client_order_id, Some("c1".to_string()));
        }
        other => panic!("unexpected request {:?}", other),
    }
}

#[test]
fn order_cancel_and_amend_keep_the_order_id() {
    let cancel: OrderCommand<u32, &str> = OrderCommand::Cancel { sub_account_id: "a", instrument: 1, id: "o1".to_string() };
    assert!(matches!(
        order_command_request(cancel),
        ConnectorRequest::CancelOrder { sub_account_id: "a", instrument: 1, ref order_id } if order_id == "o1"
    ));
    let amend: OrderCommand<u32, &str> =
        OrderCommand::Amend { sub_account_id: "a", instrument: 2, id: "o2".to_string(), req: request(5) };
    match order_command_request(amend) {
        ConnectorRequest::AmendOrder { sub_account_id, instrument, order_id, req } => {
            assert_eq!((sub_account_id, instrument, order_id.as_str()), ("a", 2, "o2"));
            assert_eq!(req.quantity.mantissa(), 5);
        }
        other => panic!("unexpected request {:?}", other),
    }
}

#[test]
fn order_batches_keep_atomicity() {
    let create: OrderCommand<u32, &str> =
        OrderCommand::BatchCreate { sub_account_id: "a", instrument: 1, reqs: vec![request(1), request(2)], atomic: true };
    match order_command_request(create) {
        ConnectorRequest::BatchSubmitOrder { reqs, atomic, .. } => {
            assert_eq!(reqs.len(), 2);
            assert!(atomic);
        }
        other => panic!("unexpected request {:?}", other),
    }
    let cancel: OrderCommand<u32, &str> = OrderCommand::BatchCancel {
        sub_account_id: "a",
        instrument: 1,
        ids: vec!["x".to_string(), "y".to_string()],
        atomic: false,
    };
    match order_command_request(cancel) {
        ConnectorRequest::BatchCancelOrder { order_ids, atomic, .. } => {
            assert_eq!(order_ids, vec!["x".to_string(), "y".to_string()]);
            assert!(!atomic);
        }
        other => panic!("unexpected request {:?}", other),
    }
    let amend: OrderCommand<u32, &str> = OrderCommand::BatchAmend {
        sub_account_id: "a",
        instrument: 1,
        amends: vec![("x".to_string(), request(4))],
        atomic: true,
    };
    match order_command_request(amend) {
        ConnectorRequest::BatchAmendOrder { amends, atomic, .. } => {
            assert_eq!(amends.len(), 1);
            assert_eq!(amends[0].0, "x".to_string());
            assert!(atomic);
        }
        other => panic!("unexpected request {:?}", other),
    }
}

#[test]
fn order_queries_become_fetches() {
    let open: OrderCommand<u32, &str> = OrderCommand::GetOpenOrders { sub_account_id: "a", instrument: None };
    assert!(matches!(
        order_command_request(open),
        ConnectorRequest::FetchOpenOrders { sub_account_id: "a", instrument: None }
    ));
    let one: OrderCommand<u32, &str> = OrderCommand::GetOrder { sub_account_id: "a", instrument: 3, id: "z".to_string() };
    assert!(matches!(
        order_command_request(one),
        ConnectorRequest::FetchOrder { sub_account_id: "a", instrument: 3, ref order_id } if order_id == "z"
    ));
}

#[test]
fn position_query_fetches_and_subscription_sends_nothing() {
    let q: PositionCommand<u32, &str> = PositionCommand::Query { sub_account_id: "a", instrument: Some(4) };
    assert!(matches!(
        position_command_request(q),
        Some(ConnectorRequest::FetchPositions { sub_account_id: "a", instrument: Some(4) })
    ));
    let s: PositionCommand<u32, &str> = PositionCommand::Subscribe { sub_account_id: "a" };
    assert!(position_command_request(s).is_none());
}

#[test]
fn balance_query_fetches_and_subscription_sends_nothing() {
    let q: Option<ConnectorRequest<u32, &str>> = balance_command_request(BalanceCommand::Query { sub_account_id: "b" });
    assert!(matches!(q, Some(ConnectorRequest::FetchBalances { sub_account_id: "b" })));
    let s: Option<ConnectorRequest<u32, &str>> = balance_command_request(BalanceCommand::Subscribe { sub_account_id: "b" });
    assert!(s.is_none());
}

#[test]
fn forwarded_streams_by_channel_type() {
    assert_eq!(forwarded_stream(ChannelType::OrderBook), Some(StreamKind::OrderBook));
    assert_eq!(forwarded_stream(ChannelType::TradeFlow), Some(StreamKind::TradeFlow));
    assert_eq!(forwarded_stream(ChannelType::Kline(KlineInterval::H4)), Some(StreamKind::Kline));
    assert_eq!(forwarded_stream(ChannelType::AccountUpdate), None);
}

fn step(state: InstrumentFeed, cmd: FeedCommand<u32>) -> (InstrumentFeed, FeedStep<u32, &'static str>) {
    feed_step::<u32, &'static str>(state, cmd)
}

fn subscribe(i: u32, ct: ChannelType) -> FeedCommand<u32> {
    FeedCommand::Subscribe { instrument: i, channel_type: ct }
}

#[test]
fn feed_subscribe_requests_and_starts_one_forwarder() {
    let (st, s1) = step(InstrumentFeed::new(), subscribe(9, ChannelType::Kline(KlineInterval::M5)));
    assert!(matches!(
        s1.request,
        Some(ConnectorRequest::Subscribe { instrument: 9, channel_type: ChannelType::Kline(KlineInterval::M5) })
    ));
    assert_eq!(s1.start_forwarder, Some(StreamKind::Kline));
    assert!(!s1.republish);
    assert!(st.kline.forwarding);
    // A second subscription asks the connector again but sets up no second forwarder.
    let (_, s2) = step(st, subscribe(9, ChannelType::Kline(KlineInterval::H1)));
    assert!(s2.request.is_some());
    assert_eq!(s2.start_forwarder, None);
    let (acc, s3) = step(InstrumentFeed::new(), subscribe(9, ChannelType::AccountUpdate));
    assert!(s3.request.is_some());
    assert_eq!(s3.start_forwarder, None);
    assert!(!acc.order_book.forwarding && !acc.trade_flow.forwarding && !acc.kline.forwarding);
}

#[test]
fn feed_unsubscribe_stops_pushing_that_stream() {
    let (st, _) = step(InstrumentFeed::new(), subscribe(2, ChannelType::OrderBook));
    let (st, _) = step(st, subscribe(2, ChannelType::TradeFlow));
    assert_eq!(deliver_step(st, StreamKind::OrderBook, 10).1, Delivery::Push);
    let (st, s) = step(st, FeedCommand::Unsubscribe { instrument: 2, channel_type: ChannelType::OrderBook });
    assert!(matches!(
        s.request,
        Some(ConnectorRequest::Unsubscribe { instrument: 2, channel_type: ChannelType::OrderBook })
    ));
    assert_eq!(s.start_forwarder, None);
    assert_ne!(deliver_step(st, StreamKind::OrderBook, 20).1, Delivery::Push);
    assert_eq!(deliver_step(st, StreamKind::TradeFlow, 20).1, Delivery::Push);
    // Subscribing again pushes again, through the forwarder already set up.
    let (st, s) = step(st, subscribe(2, ChannelType::OrderBook));
    assert_eq!(s.start_forwarder, None);
    assert_eq!(deliver_step(st, StreamKind::OrderBook, 30).1, Delivery::Push);
}

#[test]
fn feed_suspend_pauses_until_resume() {
    let (st, _) = step(InstrumentFeed::new(), subscribe(1, ChannelType::OrderBook));
    let (st, s) = step(st, FeedCommand::Suspend { instrument: 1 });
    assert!(s.request.is_none() && s.start_forwarder.is_none() && !s.republish);
    assert!(st.suspended);
    let (after, delivered) = deliver_step(st, StreamKind::OrderBook, 5);
    assert_eq!(delivered, Delivery::Drop);
    assert!(after.suspended);
    let (st, _) = step(st, FeedCommand::SetFrequency { instrument: 1, interval_ms: 0 });
    assert_ne!(deliver_step(st, StreamKind::OrderBook, 6).1, Delivery::Push);
    let (st, _) = step(st, FeedCommand::Resume { instrument: 1 });
    assert!(!st.suspended);
    assert_eq!(deliver_step(st, StreamKind::OrderBook, 7).1, Delivery::Push);
}

#[test]
fn feed_frequency_spaces_pushes_and_holds_the_rest() {
    let (st, _) = step(InstrumentFeed::new(), subscribe(1, ChannelType::TradeFlow));
    let (st, _) = step(st, FeedCommand::SetFrequency { instrument: 1, interval_ms: 100 });
    assert_eq!(st.interval_ms, 100);
    let (st, d1) = deliver_step(st, StreamKind::TradeFlow, 1000);
    assert_eq!(d1, Delivery::Push);
    assert_eq!(st.trade_flow.last_push_ms, Some(1000));
    assert_eq!(next_push_due(&st, StreamKind::TradeFlow), None);
    let (st, d2) = deliver_step(st, StreamKind::TradeFlow, 1050);
    assert_eq!(d2, Delivery::Hold);
    assert!(st.trade_flow.pending);
    assert_eq!(st.trade_flow.last_push_ms, Some(1000));
    assert_eq!(next_push_due(&st, StreamKind::TradeFlow), Some(1100));
    // Too early: the held item stays held.
    let (st, early) = flush_step(st, StreamKind::TradeFlow, 1090);
    assert!(!early);
    assert!(st.trade_flow.pending);
    // Due: the held item is pushed.
    let (st, due) = flush_step(st, StreamKind::TradeFlow, 1100);
    assert!(due);
    assert!(!st.trade_flow.pending);
    assert_eq!(st.trade_flow.last_push_ms, Some(1100));
    let (st, again) = flush_step(st, StreamKind::TradeFlow, 1300);
    assert!(!again);
    let (st, _) = step(st, FeedCommand::SetFrequency { instrument: 1, interval_ms: 0 });
    assert_eq!(deliver_step(st, StreamKind::TradeFlow, 1101).1, Delivery::Push);
}

#[test]
fn held_item_of_an_unsubscribed_stream_is_let_go() {
    let (st, _) = step(InstrumentFeed::new(), subscribe(1, ChannelType::OrderBook));
    let (st, _) = step(st, FeedCommand::SetFrequency { instrument: 1, interval_ms: 100 });
    let (st, _) = deliver_step(st, StreamKind::OrderBook, 0);
    let (st, d) = deliver_step(st, StreamKind::OrderBook, 10);
    assert_eq!(d, Delivery::Hold);
    let (st, _) = step(st, FeedCommand::Unsubscribe { instrument: 1, channel_type: ChannelType::OrderBook });
    assert!(!st.order_book.pending);
    let (_, f) = flush_step(st, StreamKind::OrderBook, 500);
    assert!(!f);
}

#[test]
fn unsubscribing_one_candle_interval_keeps_the_others() {
    let (st, _) = step(InstrumentFeed::new(), subscribe(4, ChannelType::Kline(KlineInterval::M1)));
    let (st, s) = step(st, subscribe(4, ChannelType::Kline(KlineInterval::H1)));
    assert_eq!(s.start_forwarder, None);
    let (st, _) = step(st, FeedCommand::Unsubscribe { instrument: 4, channel_type: ChannelType::Kline(KlineInterval::M1) });
    assert!(st.kline.forwarding);
    assert_eq!(deliver_step(st, StreamKind::Kline, 1).1, Delivery::Push);
    let (st, _) = step(st, FeedCommand::Unsubscribe { instrument: 4, channel_type: ChannelType::Kline(KlineInterval::H1) });
    assert!(!st.kline.forwarding);
    assert_eq!(st.kline_intervals, 0);
    assert_eq!(deliver_step(st, StreamKind::Kline, 2).1, Delivery::Drop);
}

#[test]
fn feed_command_instrument() {
    assert_eq!(*FeedCommand::Suspend { instrument: 5u32 }.instrument(), 5);
    assert_eq!(*FeedCommand::SetFrequency { instrument: 6u32, interval_ms: 1 }.instrument(), 6);
    assert_eq!(*subscribe(7, ChannelType::OrderBook).instrument(), 7);
}

#[test]
fn feed_snapshot_request_republishes_subscribed_streams() {
    let (st, _) = step(InstrumentFeed::new(), subscribe(3, ChannelType::Kline(KlineInterval::D1)));
    let (st, _) = step(st, subscribe(3, ChannelType::OrderBook));
    let (st2, s) = step(st, FeedCommand::RequestSnapshot { instrument: 3 });
    assert!(s.republish && s.request.is_none() && s.start_forwarder.is_none());
    assert_eq!(snapshot_streams(&st2), vec![StreamKind::OrderBook, StreamKind::Kline]);
    assert!(snapshot_streams(&InstrumentFeed::new()).is_empty());
}

#[test]
fn unknown_instrument_pushes_nothing() {
    let st = InstrumentFeed::new();
    assert!(!st.suspended);
    assert_eq!(st.interval_ms, 0);
    assert_ne!(deliver_step(st, StreamKind::OrderBook, 0).1, Delivery::Push);
    assert_ne!(deliver_step(st, StreamKind::TradeFlow, 0).1, Delivery::Push);
    assert_ne!(deliver_step(st, StreamKind::Kline, 0).1, Delivery::Push);
}

#[test]
fn network_commands_run_their_hooks() {
    let st = ConnectorState::new();
    let (st, a) = network_step(st, NetworkCommand::Reconnect);
    assert_eq!(a, vec![NetworkAction::Reconnect]);
    assert!(!st.trading_halted);
    let (st, a) = network_step(st, NetworkCommand::Disconnect);
    assert_eq!(a, vec![NetworkAction::Disconnect]);
    assert!(!st.trading_halted);
    let (st, a) = network_step(st, NetworkCommand::CircuitBreak);
    assert_eq!(a, vec![NetworkAction::CancelAllOrders, NetworkAction::Disconnect]);
    assert!(st.trading_halted);
}

#[test]
fn circuit_break_refuses_trading_until_reconnect() {
    let (st, _) = network_step(ConnectorState::new(), NetworkCommand::CircuitBreak);
    assert!(!admits(st, RequestKind::Trading));
    assert!(admits(st, RequestKind::Cancellation));
    assert!(admits(st, RequestKind::Query));
    assert!(admits(st, RequestKind::MarketData));
    let (st, _) = network_step(st, NetworkCommand::Disconnect);
    assert!(!admits(st, RequestKind::Trading));
    let (st, _) = network_step(st, NetworkCommand::Reconnect);
    assert!(admits(st, RequestKind::Trading));
}

#[test]
fn request_kinds() {
    let submit: ConnectorRequest<u32, &str> = ConnectorRequest::SubmitOrder { sub_account_id: "a", instrument: 1, req: request(1) };
    assert_eq!(request_kind(&submit), RequestKind::Trading);
    let amend: ConnectorRequest<u32, &str> =
        ConnectorRequest::BatchAmendOrder { sub_account_id: "a", instrument: 1, amends: vec![], atomic: true };
    assert_eq!(request_kind(&amend), RequestKind::Trading);
    let cancel: ConnectorRequest<u32, &str> =
        ConnectorRequest::BatchCancelOrder { sub_account_id: "a", instrument: 1, order_ids: vec![], atomic: false };
    assert_eq!(request_kind(&cancel), RequestKind::Cancellation);
    let fetch: ConnectorRequest<u32, &str> = ConnectorRequest::FetchBalances { sub_account_id: "a" };
    assert_eq!(request_kind(&fetch), RequestKind::Query);
    let sub: ConnectorRequest<u32, &str> =
        ConnectorRequest::Subscribe { instrument: 1, channel_type: ChannelType::TradeFlow };
    assert_eq!(request_kind(&sub), RequestKind::MarketData);
}

#[test]
fn exchange_new_holds_all_components() {
    let ex: Exchange<&str, u8, u16, u32, &str, &str> = Exchange::new("conn", 1u8, 2u16);
    assert_eq!(**ex.connector().unwrap(), "conn");
    assert_eq!(*ex.feed().unwrap(), 1u8);
    assert_eq!(*ex.gateway().unwrap(), 2u16);
}

#[test]
fn exchange_stops_in_reverse_start_order() {
    let ex: Exchange<&str, u8, u16, u32, &str, &str> = Exchange::new("conn", 1u8, 2u16);
    let start = ex.start_order();
    let stop = ex.stop_order();
    assert_eq!(start, vec![Component::Connector, Component::Feed, Component::Gateway]);
    let mut reversed = start.clone();
    reversed.reverse();
    assert_eq!(stop, reversed);
}
