//! The trade-flow canvas: the most recent trades of one pair, at most
//! `capacity` of them, oldest first.

use vstd::prelude::*;
use crate::common::account_model::{AssetIdentity, TradeId, TradingPair};
use crate::common::decimal::Decimal;

verus! {

/// The aggressor side of a trade.
#[derive(Clone, Copy, Debug, PartialEq, Eq, Structural)]
pub enum TradeSide {
    Buy,
    Sell,
}

/// One trade.
#[derive(Clone, Debug)]
pub struct Trade {
    pub id: TradeId,
    pub price: Decimal,
    pub quantity: Decimal,
    pub side: TradeSide,
    pub timestamp: u64,
}

/// The trades `t` after drawing `trade` into a flow of `capacity`: when the
/// flow is full the oldest trade leaves, then the new trade is appended.
pub open spec fn pushed_trades(t: Seq<Trade>, capacity: usize, trade: Trade) -> Seq<Trade> {
    if t.len() >= capacity {
        t.drop_first().push(trade)
    } else {
        t.push(trade)
    }
}

/// What drawing a trade does: the new trade comes last; when the flow is
/// full exactly the single oldest trade leaves, so the flow keeps its length
/// and every other trade moves up one place; otherwise every trade stays
/// where it was and the flow grows by one.
pub open spec fn trade_push_law(t: Seq<Trade>, capacity: usize, trade: Trade, r: Seq<Trade>) -> bool {
    &&& r.len() > 0 && r[r.len() - 1] == trade
    &&& t.len() >= capacity ==> {
        &&& t.len() > 0 ==> r.len() == t.len()
        &&& forall|i: int| 0 <= i < t.len() - 1 ==> r[i] == t[i + 1]
    }
    &&& t.len() < capacity ==> {
        &&& r.len() == t.len() + 1
        &&& forall|i: int| 0 <= i < t.len() ==> r[i] == t[i]
    }
}

/// Drawing a trade meets `trade_push_law` for every flow and every trade;
/// a full flow of positive capacity stays exactly full.
pub proof fn lemma_push_law(t: Seq<Trade>, capacity: usize, trade: Trade)
    requires
        t.len() > 0 || capacity > 0,
    ensures
        trade_push_law(t, capacity, trade, pushed_trades(t, capacity, trade)),
        t.len() == capacity && capacity > 0 ==> pushed_trades(t, capacity, trade).len() == capacity,
{
}

/// A bounded first-in first-out record of recent trades.
#[derive(Clone, Debug)]
pub struct TradeFlow<A: AssetIdentity> {
    pub pair: TradingPair<A>,
    pub trades: Vec<Trade>,
    pub capacity: usize,
}

impl<A: AssetIdentity> TradeFlow<A> {
    /// An empty flow of `pair` that keeps at most `capacity` trades.
    pub fn new(pair: TradingPair<A>, capacity: usize) -> (r: Self)
        ensures
            r.pair == pair,
            r.capacity == capacity,
            r.trades@ == Seq::<Trade>::empty(),
    {
        TradeFlow { pair, trades: Vec::with_capacity(capacity), capacity }
    }

    /// Draws a new trade: when `capacity` trades are held the oldest is
    /// dropped first. A flow never holds more than its capacity once it
    /// holds no more than that. (A flow of capacity `0` with no trade
    /// cannot take one: there is no oldest trade to drop.)
    pub fn push(&mut self, trade: Trade)
        requires
            old(self).trades.len() > 0 || old(self).capacity > 0,
        ensures
            final(self).pair == old(self).pair,
            final(self).capacity == old(self).capacity,
            final(self).trades@ == pushed_trades(old(self).trades@, old(self).capacity, trade),
            old(self).trades.len() <= old(self).capacity ==> final(self).trades.len() <= final(self).capacity,
            trade_push_law(old(self).trades@, old(self).capacity, trade, final(self).trades@),
    {
        if self.trades.len() >= self.capacity {
            self.trades.remove(0);
        }
        self.trades.push(trade);
        proof {
            lemma_push_law(old(self).trades@, old(self).capacity, trade);
            let t = old(self).trades@;
            if t.len() >= old(self).capacity {
                assert(self.trades@ =~= t.drop_first().push(trade));
            }
        }
    }
}

} // verus!
