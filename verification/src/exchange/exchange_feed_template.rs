//! The decisions of the feed, as a state machine per instrument: which
//! connector request a feed command becomes, which streams are forwarded to
//! the feed's subscribers, and whether each item that arrives from the
//! connector is pushed on, held for a later push, or dropped (subscription,
//! suspension and push frequency).

use vstd::prelude::*;
use crate::common::account_model::SubAccountIdentity;
use crate::common::account_model::KlineInterval;
use crate::exchange::exchange_domain::{ChannelType, ConnectorRequest, FeedCommand};

verus! {

/// A market data stream that the feed forwards from the connector to its own
/// subscribers.
#[derive(Debug, Clone, Copy, PartialEq, Eq, Structural)]
pub enum StreamKind {
    OrderBook,
    TradeFlow,
    Kline,
}

/// The stream that a subscription to `channel_type` forwards: order books,
/// trades and candles (of any interval) are forwarded; account updates are
/// not a feed stream.
pub open spec fn forwarded(channel_type: ChannelType) -> Option<StreamKind> {
    match channel_type {
        ChannelType::OrderBook => Some(StreamKind::OrderBook),
        ChannelType::TradeFlow => Some(StreamKind::TradeFlow),
        ChannelType::Kline(_) => Some(StreamKind::Kline),
        ChannelType::AccountUpdate => None,
    }
}

/// The stream that a subscription to `channel_type` forwards.
pub fn forwarded_stream(channel_type: ChannelType) -> (r: Option<StreamKind>)
    ensures
        r == forwarded(channel_type),
        (r == Some(StreamKind::OrderBook)) == (channel_type is OrderBook),
        (r == Some(StreamKind::TradeFlow)) == (channel_type is TradeFlow),
        (r == Some(StreamKind::Kline)) == (channel_type is Kline),
        r is None == (channel_type is AccountUpdate),
{
    match channel_type {
        ChannelType::OrderBook => Some(StreamKind::OrderBook),
        ChannelType::TradeFlow => Some(StreamKind::TradeFlow),
        ChannelType::Kline(_) => Some(StreamKind::Kline),
        ChannelType::AccountUpdate => None,
    }
}

/// The slot of a candle interval among the sixteen intervals.
pub open spec fn interval_index(iv: KlineInterval) -> u16 {
    match iv {
        KlineInterval::S1 => 0,
        KlineInterval::M1 => 1,
        KlineInterval::M3 => 2,
        KlineInterval::M5 => 3,
        KlineInterval::M15 => 4,
        KlineInterval::M30 => 5,
        KlineInterval::H1 => 6,
        KlineInterval::H2 => 7,
        KlineInterval::H4 => 8,
        KlineInterval::H6 => 9,
        KlineInterval::H8 => 10,
        KlineInterval::H12 => 11,
        KlineInterval::D1 => 12,
        KlineInterval::D3 => 13,
        KlineInterval::W1 => 14,
        KlineInterval::Mo1 => 15,
    }
}

/// The bit of a candle interval in a set of intervals.
pub open spec fn interval_bit(iv: KlineInterval) -> u16 {
    1u16 << interval_index(iv)
}

/// The slot of a candle interval.
fn interval_slot(iv: KlineInterval) -> (r: u16)
    ensures
        r == interval_index(iv),
        r < 16,
{
    match iv {
        KlineInterval::S1 => 0,
        KlineInterval::M1 => 1,
        KlineInterval::M3 => 2,
        KlineInterval::M5 => 3,
        KlineInterval::M15 => 4,
        KlineInterval::M30 => 5,
        KlineInterval::H1 => 6,
        KlineInterval::H2 => 7,
        KlineInterval::H4 => 8,
        KlineInterval::H6 => 9,
        KlineInterval::H8 => 10,
        KlineInterval::H12 => 11,
        KlineInterval::D1 => 12,
        KlineInterval::D3 => 13,
        KlineInterval::W1 => 14,
        KlineInterval::Mo1 => 15,
    }
}

/// The bit of a candle interval.
fn interval_bit_of(iv: KlineInterval) -> (r: u16)
    ensures
        r == interval_bit(iv),
{
    let i = interval_slot(iv);
    1u16 << i
}

/// Distinct intervals have distinct slots.
proof fn lemma_interval_index_injective(a: KlineInterval, b: KlineInterval)
    ensures
        interval_index(a) < 16,
        interval_index(a) == interval_index(b) ==> a == b,
{
}

/// The state of one stream of one instrument.
#[derive(Debug, Clone, Copy)]
pub struct StreamGate {
    /// Whether the stream is subscribed, so that its items are pushed on.
    pub forwarding: bool,
    /// Whether a forwarder from the connector's stream has been set up; it is
    /// set up once, on the first subscription.
    pub forwarder_started: bool,
    /// The time (in milliseconds) of the last item pushed on, if any.
    pub last_push_ms: Option<u64>,
    /// Whether an item arrived too soon after the last push and waits to be
    /// pushed once the push interval has passed.
    pub pending: bool,
}

/// The feed's state for one instrument.
#[derive(Debug, Clone, Copy)]
pub struct InstrumentFeed {
    pub order_book: StreamGate,
    pub trade_flow: StreamGate,
    /// The candle stream; it is forwarded while any candle interval is
    /// subscribed.
    pub kline: StreamGate,
    /// The set of subscribed candle intervals, one bit per interval.
    pub kline_intervals: u16,
    /// Whether pushing is paused (to save bandwidth).
    pub suspended: bool,
    /// The aggregation interval: the least time between two pushes of one
    /// stream, in milliseconds; `0` pushes in real time.
    pub interval_ms: u64,
}

/// A stream that is neither subscribed nor set up, and has pushed nothing.
pub open spec fn closed_gate() -> StreamGate {
    StreamGate { forwarding: false, forwarder_started: false, last_push_ms: None, pending: false }
}

impl InstrumentFeed {
    /// The state of an instrument the feed has not heard of: nothing
    /// subscribed, not suspended, real-time pushing.
    pub open spec fn initial() -> InstrumentFeed {
        InstrumentFeed {
            order_book: closed_gate(),
            trade_flow: closed_gate(),
            kline: closed_gate(),
            kline_intervals: 0,
            suspended: false,
            interval_ms: 0,
        }
    }

    /// The candle stream is forwarded exactly while some candle interval is
    /// subscribed. Every state the feed reaches from `initial` keeps this.
    pub open spec fn wf(self) -> bool {
        self.kline.forwarding == (self.kline_intervals != 0)
    }

    /// Whether the candle interval `iv` is subscribed.
    pub open spec fn has_interval(self, iv: KlineInterval) -> bool {
        self.kline_intervals & interval_bit(iv) != 0
    }

    /// The state of stream `k`.
    pub open spec fn gate(self, k: StreamKind) -> StreamGate {
        match k {
            StreamKind::OrderBook => self.order_book,
            StreamKind::TradeFlow => self.trade_flow,
            StreamKind::Kline => self.kline,
        }
    }

    /// The state with stream `k` in state `g` and all else unchanged.
    pub open spec fn with_gate(self, k: StreamKind, g: StreamGate) -> InstrumentFeed {
        match k {
            StreamKind::OrderBook => InstrumentFeed { order_book: g, ..self },
            StreamKind::TradeFlow => InstrumentFeed { trade_flow: g, ..self },
            StreamKind::Kline => InstrumentFeed { kline: g, ..self },
        }
    }

    /// The state of an instrument the feed has not heard of.
    pub fn new() -> (r: InstrumentFeed)
        ensures
            r == InstrumentFeed::initial(),
            r.wf(),
    {
        let g = StreamGate { forwarding: false, forwarder_started: false, last_push_ms: None, pending: false };
        InstrumentFeed { order_book: g, trade_flow: g, kline: g, kline_intervals: 0, suspended: false, interval_ms: 0 }
    }

    /// The state of stream `k`.
    pub fn gate_of(&self, k: StreamKind) -> (g: StreamGate)
        ensures
            g == self.gate(k),
    {
        match k {
            StreamKind::OrderBook => self.order_book,
            StreamKind::TradeFlow => self.trade_flow,
            StreamKind::Kline => self.kline,
        }
    }

    /// The state with stream `k` in state `g`.
    fn set_gate(&mut self, k: StreamKind, g: StreamGate)
        ensures
            *final(self) == old(self).with_gate(k, g),
    {
        match k {
            StreamKind::OrderBook => self.order_book = g,
            StreamKind::TradeFlow => self.trade_flow = g,
            StreamKind::Kline => self.kline = g,
        }
    }
}

/// Stream `k` subscribed (and its forwarder marked as set up).
pub open spec fn opened(st: InstrumentFeed, k: StreamKind) -> InstrumentFeed {
    let g = st.gate(k);
    st.with_gate(
        k,
        StreamGate { forwarding: true, forwarder_started: true, last_push_ms: g.last_push_ms, pending: g.pending },
    )
}

/// Stream `k` unsubscribed (an item waiting for it is dropped).
pub open spec fn closed(st: InstrumentFeed, k: StreamKind) -> InstrumentFeed {
    let g = st.gate(k);
    st.with_gate(
        k,
        StreamGate {
            forwarding: false,
            forwarder_started: g.forwarder_started,
            last_push_ms: g.last_push_ms,
            pending: false,
        },
    )
}

/// The state of an instrument after a feed command:
/// - a subscription opens its stream; a candle subscription adds its
///   interval to the subscribed intervals;
/// - an unsubscription closes its stream; a candle unsubscription removes
///   its interval, and closes the candle stream only when no other interval
///   stays subscribed;
/// - a suspension pauses and a resumption restarts pushing;
/// - a frequency sets the aggregation interval;
/// - a snapshot request changes nothing.
pub open spec fn feed_next<I>(st: InstrumentFeed, cmd: FeedCommand<I>) -> InstrumentFeed {
    match cmd {
        FeedCommand::Subscribe { channel_type, .. } => match channel_type {
            ChannelType::OrderBook => opened(st, StreamKind::OrderBook),
            ChannelType::TradeFlow => opened(st, StreamKind::TradeFlow),
            ChannelType::Kline(iv) => opened(
                InstrumentFeed { kline_intervals: st.kline_intervals | interval_bit(iv), ..st },
                StreamKind::Kline,
            ),
            ChannelType::AccountUpdate => st,
        },
        FeedCommand::Unsubscribe { channel_type, .. } => match channel_type {
            ChannelType::OrderBook => closed(st, StreamKind::OrderBook),
            ChannelType::TradeFlow => closed(st, StreamKind::TradeFlow),
            ChannelType::Kline(iv) => {
                let rest = st.kline_intervals & !interval_bit(iv);
                if rest == 0 {
                    closed(InstrumentFeed { kline_intervals: rest, ..st }, StreamKind::Kline)
                } else {
                    InstrumentFeed { kline_intervals: rest, ..st }
                }
            },
            ChannelType::AccountUpdate => st,
        },
        FeedCommand::RequestSnapshot { .. } => st,
        FeedCommand::Suspend { .. } => InstrumentFeed { suspended: true, ..st },
        FeedCommand::Resume { .. } => InstrumentFeed { suspended: false, ..st },
        FeedCommand::SetFrequency { interval_ms, .. } => InstrumentFeed { interval_ms, ..st },
    }
}

/// The state of an instrument after a run of feed commands, in order.
pub open spec fn feed_run<I>(st: InstrumentFeed, cmds: Seq<FeedCommand<I>>) -> InstrumentFeed
    decreases cmds.len(),
{
    if cmds.len() == 0 {
        st
    } else {
        feed_run(feed_next(st, cmds[0]), cmds.drop_first())
    }
}

/// What the feed does for one command, besides moving to the next state.
#[derive(Debug)]
pub struct FeedStep<I, S: SubAccountIdentity> {
    /// The request to send to the connector.
    pub request: Option<ConnectorRequest<I, S>>,
    /// The stream of the connector to set up a forwarder from.
    pub start_forwarder: Option<StreamKind>,
    /// Whether to push at once the latest item of every subscribed stream.
    pub republish: bool,
}

impl<I> FeedCommand<I> {
    /// The instrument a command is about.
    pub open spec fn subject(self) -> I {
        match self {
            FeedCommand::Subscribe { instrument, .. } => instrument,
            FeedCommand::Unsubscribe { instrument, .. } => instrument,
            FeedCommand::RequestSnapshot { instrument } => instrument,
            FeedCommand::Suspend { instrument } => instrument,
            FeedCommand::Resume { instrument } => instrument,
            FeedCommand::SetFrequency { instrument, .. } => instrument,
        }
    }

    /// The instrument a command is about, whose state the command moves.
    pub fn instrument(&self) -> (r: &I)
        ensures
            *r == self.subject(),
    {
        match self {
            FeedCommand::Subscribe { instrument, .. } => instrument,
            FeedCommand::Unsubscribe { instrument, .. } => instrument,
            FeedCommand::RequestSnapshot { instrument } => instrument,
            FeedCommand::Suspend { instrument } => instrument,
            FeedCommand::Resume { instrument } => instrument,
            FeedCommand::SetFrequency { instrument, .. } => instrument,
        }
    }
}

/// One step of the feed on a command for an instrument in state `state`:
/// the next state (`feed_next`) and what to do. A subscription asks the
/// connector to subscribe and sets up a forwarder the first time the stream
/// is subscribed; an unsubscription asks the connector to unsubscribe; a
/// snapshot request pushes the latest item of every subscribed stream again
/// (an explicit request, answered also while pushing is suspended);
/// suspension, resumption and frequency only change the state.
pub fn feed_step<I, S: SubAccountIdentity>(state: InstrumentFeed, cmd: FeedCommand<I>) -> (r: (
    InstrumentFeed,
    FeedStep<I, S>,
))
    ensures
        r.0 == feed_next(state, cmd),
        feed_command_law(state, cmd, r.0),
        state.wf() ==> r.0.wf(),
        match cmd {
            FeedCommand::Subscribe { instrument, channel_type } => {
                &&& r.1.request == Some(ConnectorRequest::<I, S>::Subscribe { instrument, channel_type })
                &&& r.1.start_forwarder == match forwarded(channel_type) {
                    Some(k) => if state.gate(k).forwarder_started {
                        None
                    } else {
                        Some(k)
                    },
                    None => None,
                }
                &&& !r.1.republish
            },
            FeedCommand::Unsubscribe { instrument, channel_type } => {
                &&& r.1.request == Some(ConnectorRequest::<I, S>::Unsubscribe { instrument, channel_type })
                &&& r.1.start_forwarder is None
                &&& !r.1.republish
            },
            FeedCommand::RequestSnapshot { .. } => {
                &&& r.1.request is None
                &&& r.1.start_forwarder is None
                &&& r.1.republish
            },
            _ => {
                &&& r.1.request is None
                &&& r.1.start_forwarder is None
                &&& !r.1.republish
            },
        },
{
    proof {
        lemma_feed_command_law(state, cmd);
    }
    let mut next = state;
    match cmd {
        FeedCommand::Subscribe { instrument, channel_type } => {
            let mut start_forwarder = None;
            match channel_type {
                ChannelType::Kline(iv) => {
                    let b = interval_bit_of(iv);
                    let m = next.kline_intervals | b;
                    proof {
                        let i = interval_index(iv);
                        let m0 = state.kline_intervals;
                        lemma_interval_index_injective(iv, iv);
                        assert(i < 16 ==> (1u16 << i) != 0) by (bit_vector);
                        assert(b != 0 ==> (m0 | b) != 0) by (bit_vector);
                    }
                    next.kline_intervals = m;
                },
                _ => {},
            }
            match forwarded_stream(channel_type) {
                Some(k) => {
                    let g = next.gate_of(k);
                    if !g.forwarder_started {
                        start_forwarder = Some(k);
                    }
                    next.set_gate(
                        k,
                        StreamGate { forwarding: true, forwarder_started: true, last_push_ms: g.last_push_ms, pending: g.pending },
                    );
                },
                None => {},
            }
            let step = FeedStep {
                request: Some(ConnectorRequest::Subscribe { instrument, channel_type }),
                start_forwarder,
                republish: false,
            };
            (next, step)
        },
        FeedCommand::Unsubscribe { instrument, channel_type } => {
            match channel_type {
                ChannelType::Kline(iv) => {
                    let b = interval_bit_of(iv);
                    let rest = next.kline_intervals & !b;
                    proof {
                        let m = state.kline_intervals;
                        assert(rest != 0 ==> m != 0) by (bit_vector)
                            requires rest == m & !b;
                    }
                    next.kline_intervals = rest;
                    if rest == 0 {
                        let g = next.kline;
                        next.kline = StreamGate {
                            forwarding: false,
                            forwarder_started: g.forwarder_started,
                            last_push_ms: g.last_push_ms,
                            pending: false,
                        };
                    }
                },
                ChannelType::OrderBook | ChannelType::TradeFlow => {
                    match forwarded_stream(channel_type) {
                        Some(k) => {
                            let g = next.gate_of(k);
                            next.set_gate(
                                k,
                                StreamGate {
                                    forwarding: false,
                                    forwarder_started: g.forwarder_started,
                                    last_push_ms: g.last_push_ms,
                                    pending: false,
                                },
                            );
                        },
                        None => {},
                    }
                },
                ChannelType::AccountUpdate => {},
            }
            let step = FeedStep {
                request: Some(ConnectorRequest::Unsubscribe { instrument, channel_type }),
                start_forwarder: None,
                republish: false,
            };
            (next, step)
        },
        FeedCommand::RequestSnapshot { .. } => (next, FeedStep { request: None, start_forwarder: None, republish: true }),
        FeedCommand::Suspend { .. } => {
            next.suspended = true;
            (next, FeedStep { request: None, start_forwarder: None, republish: false })
        },
        FeedCommand::Resume { .. } => {
            next.suspended = false;
            (next, FeedStep { request: None, start_forwarder: None, republish: false })
        },
        FeedCommand::SetFrequency { interval_ms, .. } => {
            next.interval_ms = interval_ms;
            (next, FeedStep { request: None, start_forwarder: None, republish: false })
        },
    }
}

/// Whether at least `interval_ms` have passed from `last` to `now`, or
/// nothing was pushed yet, or pushing is real time.
pub open spec fn interval_elapsed(interval_ms: u64, last: Option<u64>, now: u64) -> bool {
    match last {
        None => true,
        Some(t) => interval_ms == 0 || (t <= now && now - t >= interval_ms),
    }
}

/// What happens to an item that arrives from the connector.
#[derive(Debug, Clone, Copy, PartialEq, Eq, Structural)]
pub enum Delivery {
    /// Pushed on at once.
    Push,
    /// Kept as the stream's latest item, to be pushed when the aggregation
    /// interval has passed.
    Hold,
    /// Not pushed: the stream is not subscribed or pushing is suspended.
    Drop,
}

/// What happens to an item of stream `k` that arrives at time `now`: it is
/// dropped unless the stream is subscribed and pushing is not suspended;
/// then it is pushed when the aggregation interval has passed since the
/// last push, and held for later otherwise.
pub open spec fn delivery(st: InstrumentFeed, k: StreamKind, now: u64) -> Delivery {
    if !st.gate(k).forwarding || st.suspended {
        Delivery::Drop
    } else if interval_elapsed(st.interval_ms, st.gate(k).last_push_ms, now) {
        Delivery::Push
    } else {
        Delivery::Hold
    }
}

/// The state after an item of stream `k` arriving at `now` met `d`: a push
/// records its time and clears what was held; a hold marks an item as
/// waiting; a drop changes nothing.
pub open spec fn after_delivery(st: InstrumentFeed, k: StreamKind, now: u64, d: Delivery) -> InstrumentFeed {
    let g = st.gate(k);
    match d {
        Delivery::Push => st.with_gate(
            k,
            StreamGate {
                forwarding: g.forwarding,
                forwarder_started: g.forwarder_started,
                last_push_ms: Some(now),
                pending: false,
            },
        ),
        Delivery::Hold => st.with_gate(
            k,
            StreamGate {
                forwarding: g.forwarding,
                forwarder_started: g.forwarder_started,
                last_push_ms: g.last_push_ms,
                pending: true,
            },
        ),
        Delivery::Drop => st,
    }
}

/// One step of the feed on an item of stream `k` arriving at time `now_ms`.
pub fn deliver_step(state: InstrumentFeed, k: StreamKind, now_ms: u64) -> (r: (InstrumentFeed, Delivery))
    ensures
        r.1 == delivery(state, k, now_ms),
        r.0 == after_delivery(state, k, now_ms, r.1),
        delivery_law(state, k, now_ms, r.1, r.0),
        state.wf() ==> r.0.wf(),
{
    proof {
        lemma_delivery_law(state, k, now_ms);
    }
    let g = state.gate_of(k);
    let elapsed = match g.last_push_ms {
        None => true,
        Some(t) => state.interval_ms == 0 || (t <= now_ms && now_ms - t >= state.interval_ms),
    };
    if !g.forwarding || state.suspended {
        (state, Delivery::Drop)
    } else if elapsed {
        let mut next = state;
        next.set_gate(
            k,
            StreamGate { forwarding: g.forwarding, forwarder_started: g.forwarder_started, last_push_ms: Some(now_ms), pending: false },
        );
        (next, Delivery::Push)
    } else {
        let mut next = state;
        next.set_gate(
            k,
            StreamGate { forwarding: g.forwarding, forwarder_started: g.forwarder_started, last_push_ms: g.last_push_ms, pending: true },
        );
        (next, Delivery::Hold)
    }
}

/// When a held item of stream `k` falls due: the last push time plus the
/// aggregation interval (the largest time, where that sum overflows).
pub open spec fn due_time(st: InstrumentFeed, k: StreamKind) -> Option<u64> {
    if !st.gate(k).pending {
        None
    } else {
        match st.gate(k).last_push_ms {
            Some(t) => if t + st.interval_ms <= u64::MAX {
                Some((t + st.interval_ms) as u64)
            } else {
                Some(u64::MAX)
            },
            None => Some(0),
        }
    }
}

/// When a held item of stream `k` falls due, if an item is held.
pub fn next_push_due(state: &InstrumentFeed, k: StreamKind) -> (r: Option<u64>)
    ensures
        r == due_time(*state, k),
        r is Some == state.gate(k).pending,
        state.gate(k).pending ==> match state.gate(k).last_push_ms {
            Some(t) => t + state.interval_ms <= u64::MAX ==> r == Some((t + state.interval_ms) as u64),
            None => true,
        },
{
    let g = state.gate_of(k);
    if !g.pending {
        None
    } else {
        match g.last_push_ms {
            Some(t) => if t <= u64::MAX - state.interval_ms {
                Some(t + state.interval_ms)
            } else {
                Some(u64::MAX)
            },
            None => Some(0),
        }
    }
}

/// Whether the held item of stream `k` is pushed at time `now`: it is held,
/// the stream is still subscribed, pushing is not suspended, and the
/// aggregation interval has passed.
pub open spec fn flushes(st: InstrumentFeed, k: StreamKind, now: u64) -> bool {
    &&& st.gate(k).pending
    &&& st.gate(k).forwarding
    &&& !st.suspended
    &&& interval_elapsed(st.interval_ms, st.gate(k).last_push_ms, now)
}

/// The state after the held item of stream `k` was looked at, at `now`: a
/// flush records its time; a held item of a closed or suspended stream is
/// let go; otherwise nothing changes.
pub open spec fn after_flush(st: InstrumentFeed, k: StreamKind, now: u64) -> InstrumentFeed {
    let g = st.gate(k);
    if flushes(st, k, now) {
        st.with_gate(
            k,
            StreamGate {
                forwarding: g.forwarding,
                forwarder_started: g.forwarder_started,
                last_push_ms: Some(now),
                pending: false,
            },
        )
    } else if g.pending && (!g.forwarding || st.suspended) {
        st.with_gate(
            k,
            StreamGate {
                forwarding: g.forwarding,
                forwarder_started: g.forwarder_started,
                last_push_ms: g.last_push_ms,
                pending: false,
            },
        )
    } else {
        st
    }
}

/// One step of the feed when a held item of stream `k` falls due at time
/// `now_ms`: whether to push the stream's latest item, and the next state.
pub fn flush_step(state: InstrumentFeed, k: StreamKind, now_ms: u64) -> (r: (InstrumentFeed, bool))
    ensures
        r.1 == flushes(state, k, now_ms),
        r.0 == after_flush(state, k, now_ms),
        flush_law(state, k, now_ms, r.1, r.0),
        state.wf() ==> r.0.wf(),
{
    proof {
        lemma_flush_law(state, k, now_ms);
    }
    let g = state.gate_of(k);
    let elapsed = match g.last_push_ms {
        None => true,
        Some(t) => state.interval_ms == 0 || (t <= now_ms && now_ms - t >= state.interval_ms),
    };
    if g.pending && g.forwarding && !state.suspended && elapsed {
        let mut next = state;
        next.set_gate(
            k,
            StreamGate { forwarding: g.forwarding, forwarder_started: g.forwarder_started, last_push_ms: Some(now_ms), pending: false },
        );
        (next, true)
    } else if g.pending && (!g.forwarding || state.suspended) {
        let mut next = state;
        next.set_gate(
            k,
            StreamGate { forwarding: g.forwarding, forwarder_started: g.forwarder_started, last_push_ms: g.last_push_ms, pending: false },
        );
        (next, false)
    } else {
        (state, false)
    }
}

/// What each command changes, told field by field:
/// - only a frequency command changes the aggregation interval, to the one
///   it gives;
/// - only a suspension and a resumption change the pause, to paused and not
///   paused;
/// - suspension, resumption, frequency and snapshot requests leave every
///   stream and the set of candle intervals as they were;
/// - no command changes when a stream last pushed, or whether its forwarder
///   was set up (other than setting it up on a subscription);
/// - a subscription opens its stream (for candles, with its interval among
///   the subscribed ones); an unsubscription closes an order book or trade
///   stream, and takes a candle interval out of the subscribed ones.
pub open spec fn feed_command_law<I>(st: InstrumentFeed, cmd: FeedCommand<I>, r: InstrumentFeed) -> bool {
    &&& r.interval_ms == match cmd {
        FeedCommand::SetFrequency { interval_ms, .. } => interval_ms,
        _ => st.interval_ms,
    }
    &&& r.suspended == match cmd {
        FeedCommand::Suspend { .. } => true,
        FeedCommand::Resume { .. } => false,
        _ => st.suspended,
    }
    &&& !(cmd is Subscribe) && !(cmd is Unsubscribe) ==> {
        &&& r.order_book == st.order_book
        &&& r.trade_flow == st.trade_flow
        &&& r.kline == st.kline
        &&& r.kline_intervals == st.kline_intervals
    }
    &&& forall|k: StreamKind| (#[trigger] r.gate(k)).last_push_ms == st.gate(k).last_push_ms
    &&& forall|k: StreamKind| st.gate(k).forwarder_started ==> (#[trigger] r.gate(k)).forwarder_started
    &&& cmd matches FeedCommand::Subscribe { channel_type, .. } ==> {
        &&& channel_type is OrderBook ==> r.order_book.forwarding && r.order_book.forwarder_started
            && r.trade_flow == st.trade_flow && r.kline == st.kline && r.kline_intervals == st.kline_intervals
        &&& channel_type is TradeFlow ==> r.trade_flow.forwarding && r.trade_flow.forwarder_started
            && r.order_book == st.order_book && r.kline == st.kline && r.kline_intervals == st.kline_intervals
        &&& channel_type is Kline ==> r.kline.forwarding && r.kline.forwarder_started && r.order_book
            == st.order_book && r.trade_flow == st.trade_flow
        &&& channel_type is AccountUpdate ==> r == st
        &&& channel_type matches ChannelType::Kline(iv) ==> {
            &&& r.has_interval(iv)
            &&& forall|other: KlineInterval| other != iv ==> #[trigger] r.has_interval(other) == st.has_interval(other)
        }
    }
    &&& cmd matches FeedCommand::Unsubscribe { channel_type, .. } ==> {
        &&& channel_type is OrderBook ==> !r.order_book.forwarding && r.trade_flow == st.trade_flow && r.kline
            == st.kline && r.kline_intervals == st.kline_intervals
        &&& channel_type is TradeFlow ==> !r.trade_flow.forwarding && r.order_book == st.order_book && r.kline
            == st.kline && r.kline_intervals == st.kline_intervals
        &&& channel_type is Kline ==> r.order_book == st.order_book && r.trade_flow == st.trade_flow
        &&& channel_type is AccountUpdate ==> r == st
        &&& channel_type matches ChannelType::Kline(iv) ==> {
            &&& !r.has_interval(iv)
            &&& forall|other: KlineInterval| other != iv ==> #[trigger] r.has_interval(other) == st.has_interval(other)
        }
    }
}

/// Every command on every state changes what `feed_command_law` says.
pub proof fn lemma_feed_command_law<I>(st: InstrumentFeed, cmd: FeedCommand<I>)
    ensures
        feed_command_law(st, cmd, feed_next(st, cmd)),
{
    let r = feed_next(st, cmd);
    assert forall|k: StreamKind| (#[trigger] r.gate(k)).last_push_ms == st.gate(k).last_push_ms by {
        match k {
            StreamKind::OrderBook => {},
            StreamKind::TradeFlow => {},
            StreamKind::Kline => {},
        }
    }
    assert forall|k: StreamKind| st.gate(k).forwarder_started implies (#[trigger] r.gate(k)).forwarder_started by {
        match k {
            StreamKind::OrderBook => {},
            StreamKind::TradeFlow => {},
            StreamKind::Kline => {},
        }
    }
    match cmd {
        FeedCommand::Subscribe { channel_type, .. } => {
            if let ChannelType::Kline(iv) = channel_type {
                let m = st.kline_intervals;
                let b = interval_bit(iv);
                assert((m | b) & b == b) by (bit_vector);
                let i = interval_index(iv);
                lemma_interval_index_injective(iv, iv);
                assert(i < 16 ==> (1u16 << i) != 0) by (bit_vector);
                assert forall|other: KlineInterval| other != iv implies #[trigger] r.has_interval(other)
                    == st.has_interval(other) by {
                    lemma_interval_index_injective(other, iv);
                    lemma_interval_index_injective(iv, other);
                    let j = interval_index(other);
                    assert(i < 16 && j < 16 && i != j ==> (m | (1u16 << i)) & (1u16 << j) == m & (1u16 << j))
                        by (bit_vector);
                }
            }
        },
        FeedCommand::Unsubscribe { channel_type, .. } => {
            if let ChannelType::Kline(iv) = channel_type {
                let m = st.kline_intervals;
                let b = interval_bit(iv);
                assert((m & !b) & b == 0) by (bit_vector);
                let i = interval_index(iv);
                assert forall|other: KlineInterval| other != iv implies #[trigger] r.has_interval(other)
                    == st.has_interval(other) by {
                    lemma_interval_index_injective(other, iv);
                    lemma_interval_index_injective(iv, other);
                    let j = interval_index(other);
                    assert(i < 16 && j < 16 && i != j ==> (m & !(1u16 << i)) & (1u16 << j) == m & (1u16 << j))
                        by (bit_vector);
                }
            }
        },
        _ => {},
    }
}

/// What a delivery does, told field by field: an item is dropped exactly
/// when its stream is closed or pushing is suspended, and a drop changes
/// nothing; an item is pushed only when nothing was pushed before, pushing
/// is real time, or the aggregation interval has passed since the last
/// push, and a push records its own time as the last push and clears a held
/// item; an item is held only when the interval has not passed, and the
/// hold keeps the last push time. Nothing else changes.
pub open spec fn delivery_law(st: InstrumentFeed, k: StreamKind, now: u64, d: Delivery, r: InstrumentFeed) -> bool {
    &&& (d == Delivery::Drop) == (!st.gate(k).forwarding || st.suspended)
    &&& d == Delivery::Drop ==> r == st
    &&& d == Delivery::Push ==> {
        &&& r.gate(k).last_push_ms == Some(now)
        &&& !r.gate(k).pending
        &&& match st.gate(k).last_push_ms {
            None => true,
            Some(t) => st.interval_ms == 0 || (t <= now && now - t >= st.interval_ms),
        }
    }
    &&& d == Delivery::Hold ==> {
        &&& r.gate(k).last_push_ms == st.gate(k).last_push_ms
        &&& r.gate(k).pending
        &&& st.interval_ms > 0
        &&& st.gate(k).last_push_ms matches Some(t) && !(t <= now && now - t >= st.interval_ms)
    }
    &&& r.gate(k).forwarding == st.gate(k).forwarding
    &&& r.gate(k).forwarder_started == st.gate(k).forwarder_started
    &&& forall|k2: StreamKind| k2 != k ==> #[trigger] r.gate(k2) == st.gate(k2)
    &&& r.suspended == st.suspended
    &&& r.interval_ms == st.interval_ms
    &&& r.kline_intervals == st.kline_intervals
}

/// Every delivery on every state does what `delivery_law` says.
pub proof fn lemma_delivery_law(st: InstrumentFeed, k: StreamKind, now: u64)
    ensures
        delivery_law(st, k, now, delivery(st, k, now), after_delivery(st, k, now, delivery(st, k, now))),
{
    let r = after_delivery(st, k, now, delivery(st, k, now));
    assert forall|k2: StreamKind| k2 != k implies #[trigger] r.gate(k2) == st.gate(k2) by {
        match k {
            StreamKind::OrderBook => {},
            StreamKind::TradeFlow => {},
            StreamKind::Kline => {},
        }
    }
}

/// Two pushes of one stream are at least the aggregation interval apart:
/// after a push at `now`, an item of the same stream that arrives before
/// `now + interval` is not pushed, and no held item is flushed before then.
pub proof fn lemma_pushes_are_spaced(st: InstrumentFeed, k: StreamKind, now: u64, later: u64)
    requires
        delivery(st, k, now) == Delivery::Push,
        st.interval_ms > 0,
        now <= later < now + st.interval_ms,
    ensures
        delivery(after_delivery(st, k, now, Delivery::Push), k, later) != Delivery::Push,
        !flushes(after_delivery(st, k, now, Delivery::Push), k, later),
{
    lemma_delivery_law(st, k, now);
}

/// What a flush does: it pushes only a held item of a subscribed, unpaused
/// stream whose aggregation interval has passed, records its own time as the
/// last push and clears the held item; otherwise it pushes nothing and keeps
/// the last push time. Nothing else changes.
pub open spec fn flush_law(st: InstrumentFeed, k: StreamKind, now: u64, f: bool, r: InstrumentFeed) -> bool {
    &&& f ==> {
        &&& st.gate(k).pending && st.gate(k).forwarding && !st.suspended
        &&& match st.gate(k).last_push_ms {
            None => true,
            Some(t) => st.interval_ms == 0 || (t <= now && now - t >= st.interval_ms),
        }
        &&& r.gate(k).last_push_ms == Some(now)
        &&& !r.gate(k).pending
    }
    &&& !f ==> r.gate(k).last_push_ms == st.gate(k).last_push_ms
    &&& r.gate(k).forwarding == st.gate(k).forwarding
    &&& forall|k2: StreamKind| k2 != k ==> #[trigger] r.gate(k2) == st.gate(k2)
    &&& r.suspended == st.suspended
    &&& r.interval_ms == st.interval_ms
    &&& r.kline_intervals == st.kline_intervals
}

/// Every flush on every state does what `flush_law` says.
pub proof fn lemma_flush_law(st: InstrumentFeed, k: StreamKind, now: u64)
    ensures
        flush_law(st, k, now, flushes(st, k, now), after_flush(st, k, now)),
{
    let r = after_flush(st, k, now);
    assert forall|k2: StreamKind| k2 != k implies #[trigger] r.gate(k2) == st.gate(k2) by {
        match k {
            StreamKind::OrderBook => {},
            StreamKind::TradeFlow => {},
            StreamKind::Kline => {},
        }
    }
}


/// The subscribed streams of an instrument, in the order order book, trades,
/// candles: those whose latest item a snapshot request pushes again.
pub open spec fn subscribed_streams(st: InstrumentFeed) -> Seq<StreamKind> {
    (if st.order_book.forwarding { seq![StreamKind::OrderBook] } else { Seq::empty() })
        + (if st.trade_flow.forwarding { seq![StreamKind::TradeFlow] } else { Seq::empty() })
        + (if st.kline.forwarding { seq![StreamKind::Kline] } else { Seq::empty() })
}

/// The subscribed streams of an instrument.
pub fn snapshot_streams(state: &InstrumentFeed) -> (r: Vec<StreamKind>)
    ensures
        r@ == subscribed_streams(*state),
        forall|k: StreamKind| r@.contains(k) == (#[trigger] state.gate(k)).forwarding,
        r@.no_duplicates(),
{
    let mut r: Vec<StreamKind> = Vec::new();
    if state.order_book.forwarding {
        r.push(StreamKind::OrderBook);
    }
    if state.trade_flow.forwarding {
        r.push(StreamKind::TradeFlow);
    }
    if state.kline.forwarding {
        r.push(StreamKind::Kline);
    }
    proof {
        assert(r@ =~= subscribed_streams(*state));
        assert forall|k: StreamKind| r@.contains(k) == (#[trigger] state.gate(k)).forwarding by {
            if state.gate(k).forwarding {
                match k {
                    StreamKind::OrderBook => assert(r@[0] == k),
                    StreamKind::TradeFlow => assert(r@[if state.order_book.forwarding { 1int } else { 0int }] == k),
                    StreamKind::Kline => assert(r@[r@.len() - 1] == k),
                }
            }
        }
    }
    r
}

/// Pushing stays paused from a suspension until a resumption: a run of
/// commands without `Resume` leaves a suspended instrument suspended, and a
/// suspended instrument pushes nothing, neither a new item nor a held one.
pub proof fn lemma_suspension_holds<I>(st: InstrumentFeed, cmds: Seq<FeedCommand<I>>, k: StreamKind, now: u64)
    requires
        st.suspended,
        forall|i: int| 0 <= i < cmds.len() ==> !(cmds[i] is Resume),
    ensures
        feed_run(st, cmds).suspended,
        delivery(feed_run(st, cmds), k, now) == Delivery::Drop,
        !flushes(feed_run(st, cmds), k, now),
    decreases cmds.len(),
{
    if cmds.len() > 0 {
        let next = feed_next(st, cmds[0]);
        assert(!(cmds[0] is Resume));
        assert(next.suspended);
        let rest = cmds.drop_first();
        assert forall|i: int| 0 <= i < rest.len() implies !(rest[i] is Resume) by {
            assert(rest[i] == cmds[i + 1]);
        }
        lemma_suspension_holds(next, rest, k, now);
    }
}

/// Whether `cmd` subscribes to a channel of stream `k`.
pub open spec fn subscribes_to<I>(cmd: FeedCommand<I>, k: StreamKind) -> bool {
    cmd matches FeedCommand::Subscribe { channel_type, .. } && forwarded(channel_type) == Some(k)
}

/// An unsubscribed stream stays closed until it is subscribed again: a run
/// of commands without a subscription to stream `k` leaves it closed, and a
/// closed stream pushes nothing.
pub proof fn lemma_unsubscribed_stays_closed<I>(st: InstrumentFeed, cmds: Seq<FeedCommand<I>>, k: StreamKind, now: u64)
    requires
        st.wf(),
        !st.gate(k).forwarding,
        forall|i: int| 0 <= i < cmds.len() ==> !subscribes_to(#[trigger] cmds[i], k),
    ensures
        feed_run(st, cmds).wf(),
        !feed_run(st, cmds).gate(k).forwarding,
        delivery(feed_run(st, cmds), k, now) == Delivery::Drop,
        !flushes(feed_run(st, cmds), k, now),
    decreases cmds.len(),
{
    if cmds.len() > 0 {
        let next = feed_next(st, cmds[0]);
        lemma_next_wf(st, cmds[0]);
        assert(!subscribes_to(cmds[0], k));
        assert(!next.gate(k).forwarding) by {
            match cmds[0] {
                FeedCommand::Unsubscribe { channel_type, .. } => {
                    match channel_type {
                        ChannelType::Kline(iv) => {
                            let m = st.kline_intervals;
                            let b = interval_bit(iv);
                            if k == StreamKind::Kline {
                                assert(m == 0);
                                assert(m == 0 ==> m & !b == 0) by (bit_vector);
                            }
                        },
                        _ => {},
                    }
                },
                _ => {},
            }
        }
        let rest = cmds.drop_first();
        assert forall|i: int| 0 <= i < rest.len() implies !subscribes_to(#[trigger] rest[i], k) by {
            assert(rest[i] == cmds[i + 1]);
        }
        lemma_unsubscribed_stays_closed(next, rest, k, now);
    }
}

/// Every command keeps a well-formed state well-formed.
pub proof fn lemma_next_wf<I>(st: InstrumentFeed, cmd: FeedCommand<I>)
    requires
        st.wf(),
    ensures
        feed_next(st, cmd).wf(),
{
    match cmd {
        FeedCommand::Subscribe { channel_type, .. } => {
            if let ChannelType::Kline(iv) = channel_type {
                let i = interval_index(iv);
                let m = st.kline_intervals;
                lemma_interval_index_injective(iv, iv);
                assert(i < 16 ==> (1u16 << i) != 0) by (bit_vector);
                assert((1u16 << i) != 0 ==> (m | (1u16 << i)) != 0) by (bit_vector);
            }
        },
        FeedCommand::Unsubscribe { channel_type, .. } => {
            if let ChannelType::Kline(iv) = channel_type {
                let m = st.kline_intervals;
                let b = interval_bit(iv);
                assert((m & !b) != 0 ==> m != 0) by (bit_vector);
            }
        },
        _ => {},
    }
}

/// Unsubscribing one candle interval keeps the candles of another
/// subscribed interval flowing.
pub proof fn lemma_other_interval_keeps_candles<I>(st: InstrumentFeed, instrument: I, a: KlineInterval, b: KlineInterval)
    requires
        st.wf(),
        a != b,
        st.has_interval(b),
    ensures
        feed_next(st, FeedCommand::Unsubscribe { instrument, channel_type: ChannelType::Kline(a) }).kline.forwarding,
        feed_next(st, FeedCommand::Unsubscribe { instrument, channel_type: ChannelType::Kline(a) }).has_interval(b),
{
    lemma_interval_index_injective(a, b);
    lemma_interval_index_injective(b, a);
    let i = interval_index(a);
    let j = interval_index(b);
    let m = st.kline_intervals;
    assert(i < 16 && j < 16 && i != j && m & (1u16 << j) != 0 ==> (m & !(1u16 << i)) & (1u16 << j) != 0)
        by (bit_vector);
    assert((m & !(1u16 << i)) & (1u16 << j) != 0 ==> (m & !(1u16 << i)) != 0) by (bit_vector);
    assert(m & (1u16 << j) != 0 ==> m != 0) by (bit_vector);
}

/// Two pushes of one stream are at least the aggregation interval apart:
/// after a push at time `t`, neither a new item nor a held one is pushed
/// before `t + interval`.
pub proof fn lemma_frequency_spacing(st: InstrumentFeed, k: StreamKind, now: u64)
    requires
        st.interval_ms > 0,
        st.gate(k).last_push_ms matches Some(t) && t <= now && now < t + st.interval_ms,
    ensures
        delivery(st, k, now) != Delivery::Push,
        !flushes(st, k, now),
{
}

/// Aggregation loses no item: an item held back at `now` is pushed when it
/// falls due, provided the stream is still subscribed and not suspended.
pub proof fn lemma_held_item_is_flushed(st: InstrumentFeed, k: StreamKind, now: u64, later: u64)
    requires
        delivery(st, k, now) == Delivery::Hold,
        due_time(after_delivery(st, k, now, Delivery::Hold), k) matches Some(d) && d <= later,
        st.gate(k).last_push_ms matches Some(t) && t + st.interval_ms <= u64::MAX,
    ensures
        flushes(after_delivery(st, k, now, Delivery::Hold), k, later),
{
}

} // verus!
