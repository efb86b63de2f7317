//! The candlestick canvas: a series of candles of one pair and interval.

use vstd::prelude::*;
use crate::common::account_model::{AssetIdentity, KlineInterval, TradingPair};
use crate::common::decimal::Decimal;

verus! {

/// One candle (OHLCV) opened at `open_time` and closed at `close_time`.
#[derive(Clone, Copy, Debug)]
pub struct Kline {
    pub open_time: u64,
    pub open: Decimal,
    pub high: Decimal,
    pub low: Decimal,
    pub close: Decimal,
    pub volume: Decimal,
    pub close_time: u64,
}

/// Whether the candles' open times strictly increase.
pub open spec fn open_times_increasing(c: Seq<Kline>) -> bool {
    forall|i: int, j: int| 0 <= i < j < c.len() ==> (#[trigger] c[i]).open_time < (#[trigger] c[j]).open_time
}

/// The candles `c` after an update with `k`: a candle with the open time of
/// the last candle replaces it, a later candle is appended, and an earlier
/// one is ignored; into an empty series any candle is appended.
pub open spec fn updated_candles(c: Seq<Kline>, k: Kline) -> Seq<Kline> {
    if c.len() == 0 {
        seq![k]
    } else if c.last().open_time == k.open_time {
        c.drop_last().push(k)
    } else if k.open_time > c.last().open_time {
        c.push(k)
    } else {
        c
    }
}

/// What an update does, told by where the new candle goes: into an empty
/// series it is the only candle; with the open time of the last candle it
/// takes the last place whole (every field of it) and the earlier candles
/// stay; with a later open time it is appended after all the candles; with
/// an earlier open time the series stays as it was.
pub open spec fn candle_update_law(c: Seq<Kline>, k: Kline, r: Seq<Kline>) -> bool {
    &&& c.len() == 0 ==> r.len() == 1 && r[0] == k
    &&& c.len() > 0 && c[c.len() - 1].open_time == k.open_time ==> {
        &&& r.len() == c.len()
        &&& r[r.len() - 1] == k
        &&& forall|i: int| 0 <= i < c.len() - 1 ==> r[i] == c[i]
    }
    &&& c.len() > 0 && c[c.len() - 1].open_time < k.open_time ==> {
        &&& r.len() == c.len() + 1
        &&& r[c.len() as int] == k
        &&& forall|i: int| 0 <= i < c.len() ==> r[i] == c[i]
    }
    &&& c.len() > 0 && k.open_time < c[c.len() - 1].open_time ==> r == c
}

/// The update of a candle series meets `candle_update_law` for every series
/// and every candle.
pub proof fn lemma_update_law(c: Seq<Kline>, k: Kline)
    ensures
        candle_update_law(c, k, updated_candles(c, k)),
{
}

/// A candlestick series of one pair at one interval.
#[derive(Clone, Debug)]
pub struct KlineSeries<A: AssetIdentity> {
    pub pair: TradingPair<A>,
    pub interval: KlineInterval,
    pub candles: Vec<Kline>,
}

impl<A: AssetIdentity> KlineSeries<A> {
    /// An empty series of `pair` at `interval`.
    pub fn new(pair: TradingPair<A>, interval: KlineInterval) -> (r: Self)
        ensures
            r.pair == pair,
            r.interval == interval,
            r.candles@ == Seq::<Kline>::empty(),
    {
        KlineSeries { pair, interval, candles: Vec::new() }
    }

    /// Updates or appends a candle: the same open time as the last candle
    /// updates it, a later open time appends, an earlier one is ignored.
    /// A series whose open times increase keeps increasing open times.
    pub fn update(&mut self, kline: Kline)
        ensures
            final(self).pair == old(self).pair,
            final(self).interval == old(self).interval,
            final(self).candles@ == updated_candles(old(self).candles@, kline),
            open_times_increasing(old(self).candles@) ==> open_times_increasing(final(self).candles@),
            candle_update_law(old(self).candles@, kline, final(self).candles@),
    {
        let n = self.candles.len();
        if n > 0 {
            let last_open = self.candles[n - 1].open_time;
            if last_open == kline.open_time {
                self.candles.set(n - 1, kline);
                proof {
                    assert(self.candles@ =~= old(self).candles@.drop_last().push(kline));
                }
            } else if kline.open_time > last_open {
                self.candles.push(kline);
            }
        } else {
            self.candles.push(kline);
        }
        proof {
            lemma_update_law(old(self).candles@, kline);
            let c = old(self).candles@;
            let r = self.candles@;
            if open_times_increasing(c) && c.len() > 0 {
                assert forall|i: int, j: int| 0 <= i < j < r.len() implies (#[trigger] r[i]).open_time
                    < (#[trigger] r[j]).open_time by {
                    if j < c.len() - 1 {
                        assert(r[i] == c[i] && r[j] == c[j]);
                    } else if j == c.len() - 1 {
                        assert(r[i] == c[i]);
                        assert(c[i].open_time < c[c.len() - 1].open_time);
                    } else {
                        assert(r[i] == c[i]);
                        if i < c.len() - 1 {
                            assert(c[i].open_time < c[c.len() - 1].open_time);
                        }
                    }
                }
            }
        }
    }
}

} // verus!
