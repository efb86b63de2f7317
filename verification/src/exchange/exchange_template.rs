//! The exchange triad: a connector, a feed and a gateway under one facade,
//! started in that order and stopped in the reverse order.

use vstd::prelude::*;
use std::marker::PhantomData;
use std::sync::Arc;

verus! {

/// A component of the exchange triad.
#[derive(Debug, Clone, Copy, PartialEq, Eq, Structural)]
pub enum Component {
    Connector,
    Feed,
    Gateway,
}

/// The components present, in the order they start: connector, feed,
/// gateway.
pub open spec fn start_sequence(connector: bool, feed: bool, gateway: bool) -> Seq<Component> {
    (if connector { seq![Component::Connector] } else { Seq::empty() })
        + (if feed { seq![Component::Feed] } else { Seq::empty() })
        + (if gateway { seq![Component::Gateway] } else { Seq::empty() })
}

/// The components present, in the order they stop: gateway, feed,
/// connector.
pub open spec fn stop_sequence(connector: bool, feed: bool, gateway: bool) -> Seq<Component> {
    (if gateway { seq![Component::Gateway] } else { Seq::empty() })
        + (if feed { seq![Component::Feed] } else { Seq::empty() })
        + (if connector { seq![Component::Connector] } else { Seq::empty() })
}

/// Where a component stands in the start order.
pub open spec fn start_rank(c: Component) -> int {
    match c {
        Component::Connector => 0,
        Component::Feed => 1,
        Component::Gateway => 2,
    }
}

/// The start order, told directly: it holds each present component once
/// and no absent one, and the connector starts before the feed, which starts
/// before the gateway (they are wired to the connector).
pub open spec fn start_law(connector: bool, feed: bool, gateway: bool, s: Seq<Component>) -> bool {
    &&& s.contains(Component::Connector) == connector
    &&& s.contains(Component::Feed) == feed
    &&& s.contains(Component::Gateway) == gateway
    &&& forall|i: int, j: int| 0 <= i < j < s.len() ==> start_rank(#[trigger] s[i]) < start_rank(#[trigger] s[j])
}

/// The start sequence meets `start_law` for every set of present components.
pub proof fn lemma_start_law(connector: bool, feed: bool, gateway: bool)
    ensures
        start_law(connector, feed, gateway, start_sequence(connector, feed, gateway)),
{
    let s = start_sequence(connector, feed, gateway);
    if connector {
        assert(s[0] == Component::Connector);
    }
    if feed {
        assert(s[if connector { 1int } else { 0int }] == Component::Feed);
    }
    if gateway {
        assert(s[s.len() - 1] == Component::Gateway);
    }
}

/// The triad stops in exactly the reverse of the order in which it starts.
pub proof fn lemma_stop_reverses_start(connector: bool, feed: bool, gateway: bool)
    ensures
        stop_sequence(connector, feed, gateway) == start_sequence(connector, feed, gateway).reverse(),
{
    let s = start_sequence(connector, feed, gateway);
    assert(stop_sequence(connector, feed, gateway) =~= s.reverse());
}

/// The exchange triad: the facade through which the outside reaches the
/// feed and the gateway. The connector is inner infrastructure; it is shared
/// by reference count so that the feed and the gateway can be wired to it.
pub struct Exchange<C, F, G, I, A, S> {
    connector: Option<Arc<C>>,
    feed: Option<F>,
    gateway: Option<G>,
    marker: PhantomData<(I, A, S)>,
}

impl<C, F, G, I, A, S> Exchange<C, F, G, I, A, S> {
    /// The connector held, if any.
    pub closed spec fn connector_part(self) -> Option<C> {
        match self.connector {
            Some(c) => Some(*c),
            None => None,
        }
    }

    /// The feed held, if any.
    pub closed spec fn feed_part(self) -> Option<F> {
        self.feed
    }

    /// The gateway held, if any.
    pub closed spec fn gateway_part(self) -> Option<G> {
        self.gateway
    }

    /// The triad of the given components.
    pub fn new(connector: C, feed: F, gateway: G) -> (r: Self)
        ensures
            r.connector_part() == Some(connector),
            r.feed_part() == Some(feed),
            r.gateway_part() == Some(gateway),
    {
        Exchange {
            connector: Some(Arc::new(connector)),
            feed: Some(feed),
            gateway: Some(gateway),
            marker: PhantomData,
        }
    }

    /// The connector, shared, for the runtime that starts and stops it; users
    /// reach market data and trading through the feed and the gateway.
    pub fn connector(&self) -> (r: Option<&Arc<C>>)
        ensures
            r is Some <==> self.connector_part() is Some,
            r matches Some(c) ==> self.connector_part() == Some(**c),
    {
        match &self.connector {
            Some(c) => Some(c),
            None => None,
        }
    }

    /// The feed.
    pub fn feed(&self) -> (r: Option<&F>)
        ensures
            r is Some <==> self.feed_part() is Some,
            r matches Some(f) ==> self.feed_part() == Some(*f),
    {
        match &self.feed {
            Some(f) => Some(f),
            None => None,
        }
    }

    /// The gateway.
    pub fn gateway(&self) -> (r: Option<&G>)
        ensures
            r is Some <==> self.gateway_part() is Some,
            r matches Some(g) ==> self.gateway_part() == Some(*g),
    {
        match &self.gateway {
            Some(g) => Some(g),
            None => None,
        }
    }

    /// The components to start, in order: connector, feed, gateway, each
    /// only where present.
    pub fn start_order(&self) -> (r: Vec<Component>)
        ensures
            r@ == start_sequence(
                self.connector_part() is Some,
                self.feed_part() is Some,
                self.gateway_part() is Some,
            ),
            start_law(self.connector_part() is Some, self.feed_part() is Some, self.gateway_part() is Some, r@),
    {
        proof {
            lemma_start_law(self.connector.is_some(), self.feed.is_some(), self.gateway.is_some());
        }
        let mut r: Vec<Component> = Vec::new();
        if self.connector.is_some() {
            r.push(Component::Connector);
        }
        if self.feed.is_some() {
            r.push(Component::Feed);
        }
        if self.gateway.is_some() {
            r.push(Component::Gateway);
        }
        proof {
            assert(r@ =~= start_sequence(
                self.connector_part() is Some,
                self.feed_part() is Some,
                self.gateway_part() is Some,
            ));
        }
        r
    }

    /// The components to stop, in order: gateway, feed, connector, each only
    /// where present.
    pub fn stop_order(&self) -> (r: Vec<Component>)
        ensures
            r@ == stop_sequence(
                self.connector_part() is Some,
                self.feed_part() is Some,
                self.gateway_part() is Some,
            ),
            r@ == start_sequence(
                self.connector_part() is Some,
                self.feed_part() is Some,
                self.gateway_part() is Some,
            ).reverse(),
    {
        proof {
            lemma_stop_reverses_start(self.connector.is_some(), self.feed.is_some(), self.gateway.is_some());
        }
        let mut r: Vec<Component> = Vec::new();
        if self.gateway.is_some() {
            r.push(Component::Gateway);
        }
        if self.feed.is_some() {
            r.push(Component::Feed);
        }
        if self.connector.is_some() {
            r.push(Component::Connector);
        }
        proof {
            assert(r@ =~= stop_sequence(
                self.connector_part() is Some,
                self.feed_part() is Some,
                self.gateway_part() is Some,
            ));
        }
        r
    }
}

} // verus!
