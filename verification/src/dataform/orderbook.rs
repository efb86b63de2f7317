//! The order book canvas: two sides of price levels kept in ascending price
//! order, one level per price, redrawn from exchange snapshots.

use vstd::prelude::*;
use crate::common::account_model::{AssetIdentity, TradingPair};
use crate::common::decimal::{lemma_order_laws, Comparison, Decimal};

verus! {

/// The side of an order book.
#[derive(Clone, Copy, Debug, PartialEq, Eq, Structural)]
pub enum Side {
    Buy,
    Sell,
}

/// One price level: the quantity resting at a price.
#[derive(Clone, Copy, Debug)]
pub struct Level {
    pub price: Decimal,
    pub quantity: Decimal,
}

/// Whether the prices of `s` strictly increase, so that no price occurs twice.
pub open spec fn ascending(s: Seq<Level>) -> bool {
    forall|i: int, j: int|
        0 <= i < j < s.len() ==> (#[trigger] s[i]).price.value_lt((#[trigger] s[j]).price)
}

/// The levels `s` after writing the level `l` into them: the quantity of a
/// level with the price value of `l` is replaced (the level keeps its
/// price as first written); otherwise a new level is placed before the first
/// level of a higher price.
pub open spec fn insert_level(s: Seq<Level>, l: Level) -> Seq<Level>
    decreases s.len(),
{
    if s.len() == 0 {
        seq![l]
    } else if l.price.value_lt(s[0].price) {
        seq![l] + s
    } else if l.price.value_eq(s[0].price) {
        seq![Level { price: s[0].price, quantity: l.quantity }] + s.drop_first()
    } else {
        seq![s[0]] + insert_level(s.drop_first(), l)
    }
}

/// The levels of a side drawn from `input`, written one after another into
/// an empty side.
pub open spec fn levels_from(input: Seq<Level>) -> Seq<Level>
    decreases input.len(),
{
    if input.len() == 0 {
        Seq::empty()
    } else {
        insert_level(levels_from(input.drop_last()), input.last())
    }
}

/// The quantity that the levels `s` hold at the value of `price`.
pub open spec fn quantity_at(s: Seq<Level>, price: Decimal) -> Option<Decimal>
    decreases s.len(),
{
    if s.len() == 0 {
        None
    } else if s[0].price.value_eq(price) {
        Some(s[0].quantity)
    } else {
        quantity_at(s.drop_first(), price)
    }
}

/// The quantity last given for the value of `price` in `input`.
pub open spec fn last_quantity(input: Seq<Level>, price: Decimal) -> Option<Decimal>
    decreases input.len(),
{
    if input.len() == 0 {
        None
    } else if input.last().price.value_eq(price) {
        Some(input.last().quantity)
    } else {
        last_quantity(input.drop_last(), price)
    }
}

/// A price that lies below `l` and below every level of `s` lies below every
/// level of `insert_level(s, l)`.
proof fn lemma_insert_keeps_lower_bound(s: Seq<Level>, l: Level, b: Decimal)
    requires
        b.value_lt(l.price),
        forall|k: int| 0 <= k < s.len() ==> b.value_lt((#[trigger] s[k]).price),
    ensures
        forall|k: int|
            0 <= k < insert_level(s, l).len() ==> b.value_lt((#[trigger] insert_level(s, l)[k]).price),
    decreases s.len(),
{
    if s.len() > 0 {
        if !l.price.value_lt(s[0].price) && !l.price.value_eq(s[0].price) {
            let rest = s.drop_first();
            assert forall|k: int| 0 <= k < rest.len() implies b.value_lt((#[trigger] rest[k]).price) by {
                assert(rest[k] == s[k + 1]);
            }
            lemma_insert_keeps_lower_bound(rest, l, b);
            let r = insert_level(s, l);
            assert forall|k: int| 0 <= k < r.len() implies b.value_lt((#[trigger] r[k]).price) by {
                if k > 0 {
                    assert(r[k] == insert_level(rest, l)[k - 1]);
                }
            }
        }
    }
}

/// Writing a level into ascending levels leaves them ascending.
pub proof fn lemma_insert_ascending(s: Seq<Level>, l: Level)
    requires
        ascending(s),
    ensures
        ascending(insert_level(s, l)),
    decreases s.len(),
{
    if s.len() == 0 {
        return;
    }
    let r = insert_level(s, l);
    let rest = s.drop_first();
    assert(ascending(rest)) by {
        assert forall|i: int, j: int| 0 <= i < j < rest.len() implies (#[trigger] rest[i]).price.value_lt(
            (#[trigger] rest[j]).price,
        ) by {
            assert(rest[i] == s[i + 1] && rest[j] == s[j + 1]);
        }
    }
    if l.price.value_lt(s[0].price) {
        assert forall|i: int, j: int| 0 <= i < j < r.len() implies (#[trigger] r[i]).price.value_lt(
            (#[trigger] r[j]).price,
        ) by {
            if i == 0 {
                assert(r[j] == s[j - 1]);
                if j > 1 {
                    assert(s[0].price.value_lt(s[j - 1].price));
                    lemma_order_laws(l.price, s[0].price, s[j - 1].price);
                }
            } else {
                assert(r[i] == s[i - 1] && r[j] == s[j - 1]);
            }
        }
    } else if l.price.value_eq(s[0].price) {
        assert forall|i: int, j: int| 0 <= i < j < r.len() implies (#[trigger] r[i]).price.value_lt(
            (#[trigger] r[j]).price,
        ) by {
            assert(r[i].price == s[i].price && r[j].price == s[j].price);
        }
    } else {
        lemma_order_laws(l.price, s[0].price, s[0].price);
        lemma_insert_ascending(rest, l);
        assert forall|k: int| 0 <= k < rest.len() implies s[0].price.value_lt((#[trigger] rest[k]).price) by {
            assert(rest[k] == s[k + 1]);
        }
        lemma_insert_keeps_lower_bound(rest, l, s[0].price);
        let ri = insert_level(rest, l);
        assert forall|i: int, j: int| 0 <= i < j < r.len() implies (#[trigger] r[i]).price.value_lt(
            (#[trigger] r[j]).price,
        ) by {
            assert(r[j] == ri[j - 1]);
            if i > 0 {
                assert(r[i] == ri[i - 1]);
            }
        }
    }
}

/// Writing `l` past the levels below its price: the levels below stay in
/// front, and the write acts on the rest.
proof fn lemma_insert_split(s: Seq<Level>, l: Level, i: int)
    requires
        0 <= i <= s.len(),
        forall|k: int| 0 <= k < i ==> (#[trigger] s[k]).price.value_lt(l.price),
    ensures
        insert_level(s, l) == s.take(i) + insert_level(s.skip(i), l),
    decreases i,
{
    if i == 0 {
        assert(s.take(0) + insert_level(s.skip(0), l) =~= insert_level(s, l)) by {
            assert(s.skip(0) =~= s);
        }
    } else {
        let rest = s.drop_first();
        lemma_order_laws(s[0].price, l.price, l.price);
        assert forall|k: int| 0 <= k < i - 1 implies (#[trigger] rest[k]).price.value_lt(l.price) by {
            assert(rest[k] == s[k + 1]);
        }
        lemma_insert_split(rest, l, i - 1);
        assert(rest.take(i - 1) =~= s.take(i).drop_first());
        assert(rest.skip(i - 1) =~= s.skip(i));
        assert(s.take(i) =~= seq![s[0]] + rest.take(i - 1));
        assert(seq![s[0]] + (rest.take(i - 1) + insert_level(rest.skip(i - 1), l)) =~= s.take(i)
            + insert_level(s.skip(i), l));
    }
}

/// Writing at a price value the levels already hold changes no price and no
/// length: the level keeps the price as first written and takes the new
/// quantity, and every other level stays. Writing at a new price value adds
/// exactly one level, holding that price and quantity, and keeps every
/// level that was there.
pub proof fn lemma_insert_shape(s: Seq<Level>, l: Level)
    requires
        ascending(s),
    ensures
        (exists|i: int| 0 <= i < s.len() && (#[trigger] s[i]).price.value_eq(l.price)) ==> {
            &&& insert_level(s, l).len() == s.len()
            &&& forall|j: int| 0 <= j < s.len() ==> (#[trigger] insert_level(s, l)[j]).price == s[j].price
            &&& forall|j: int|
                0 <= j < s.len() && !s[j].price.value_eq(l.price) ==> #[trigger] insert_level(s, l)[j] == s[j]
        },
        !(exists|i: int| 0 <= i < s.len() && (#[trigger] s[i]).price.value_eq(l.price)) ==> {
            &&& insert_level(s, l).len() == s.len() + 1
            &&& insert_level(s, l).contains(l)
            &&& forall|j: int| 0 <= j < s.len() ==> insert_level(s, l).contains(#[trigger] s[j])
        },
    decreases s.len(),
{
    if s.len() == 0 {
        assert(insert_level(s, l)[0] == l);
        return;
    }
    let r = insert_level(s, l);
    let rest = s.drop_first();
    assert(ascending(rest)) by {
        assert forall|i: int, j: int| 0 <= i < j < rest.len() implies (#[trigger] rest[i]).price.value_lt(
            (#[trigger] rest[j]).price,
        ) by {
            assert(rest[i] == s[i + 1] && rest[j] == s[j + 1]);
        }
    }
    lemma_order_laws(l.price, s[0].price, s[0].price);
    lemma_order_laws(s[0].price, l.price, l.price);
    if l.price.value_lt(s[0].price) {
        // l lies below every level, so no level has its value.
        assert forall|i: int| 0 <= i < s.len() implies !(#[trigger] s[i]).price.value_eq(l.price) by {
            if i > 0 {
                assert(s[0].price.value_lt(s[i].price));
                lemma_order_laws(l.price, s[0].price, s[i].price);
                lemma_order_laws(s[i].price, l.price, l.price);
            }
        }
        assert(r[0] == l);
        assert forall|j: int| 0 <= j < s.len() implies r.contains(#[trigger] s[j]) by {
            assert(r[j + 1] == s[j]);
        }
    } else if l.price.value_eq(s[0].price) {
        assert forall|j: int| 0 <= j < s.len() && !s[j].price.value_eq(l.price) implies #[trigger] r[j] == s[j] by {
            if j == 0 {
                lemma_order_laws(s[0].price, l.price, l.price);
            }
        }
    } else {
        lemma_insert_shape(rest, l);
        let ri = insert_level(rest, l);
        assert(r =~= seq![s[0]] + ri);
        if exists|i: int| 0 <= i < s.len() && (#[trigger] s[i]).price.value_eq(l.price) {
            let i = choose|i: int| 0 <= i < s.len() && (#[trigger] s[i]).price.value_eq(l.price);
            assert(i != 0);
            assert(rest[i - 1] == s[i]);
            assert forall|j: int| 0 <= j < s.len() implies (#[trigger] r[j]).price == s[j].price by {
                if j > 0 {
                    assert(rest[j - 1] == s[j]);
                    assert(r[j] == ri[j - 1]);
                }
            }
            assert forall|j: int| 0 <= j < s.len() && !s[j].price.value_eq(l.price) implies #[trigger] r[j] == s[j] by {
                if j > 0 {
                    assert(rest[j - 1] == s[j]);
                    assert(r[j] == ri[j - 1]);
                }
            }
        } else {
            assert forall|i: int| 0 <= i < rest.len() implies !(#[trigger] rest[i]).price.value_eq(l.price) by {
                assert(rest[i] == s[i + 1]);
            }
            assert(ri.contains(l));
            let x = choose|x: int| 0 <= x < ri.len() && ri[x] == l;
            assert(r[x + 1] == l);
            assert forall|j: int| 0 <= j < s.len() implies r.contains(#[trigger] s[j]) by {
                if j == 0 {
                    assert(r[0] == s[0]);
                } else {
                    assert(rest[j - 1] == s[j]);
                    assert(ri.contains(rest[j - 1]));
                    let y = choose|y: int| 0 <= y < ri.len() && ri[y] == rest[j - 1];
                    assert(r[y + 1] == s[j]);
                }
            }
        }
    }
}

/// Reading a price after a write gives the written quantity when the price
/// values agree, and what was there before otherwise.
pub proof fn lemma_quantity_after_insert(s: Seq<Level>, l: Level, p: Decimal)
    ensures
        quantity_at(insert_level(s, l), p) == if l.price.value_eq(p) {
            Some(l.quantity)
        } else {
            quantity_at(s, p)
        },
    decreases s.len(),
{
    let r = insert_level(s, l);
    if s.len() == 0 {
        assert(r[0] == l);
        assert(r.drop_first() =~= Seq::<Level>::empty());
    } else {
        lemma_order_laws(l.price, s[0].price, p);
        lemma_order_laws(s[0].price, l.price, p);
        lemma_order_laws(p, l.price, s[0].price);
        lemma_order_laws(p, s[0].price, l.price);
        if l.price.value_lt(s[0].price) {
            assert(r[0] == l);
            assert(r.drop_first() =~= s);
        } else if l.price.value_eq(s[0].price) {
            assert(r[0] == Level { price: s[0].price, quantity: l.quantity });
            assert(r.drop_first() =~= s.drop_first());
        } else {
            assert(r[0] == s[0]);
            assert(r.drop_first() =~= insert_level(s.drop_first(), l));
            lemma_quantity_after_insert(s.drop_first(), l, p);
        }
    }
}

/// A side drawn from `input` holds, at each price, the quantity given last
/// for that price in `input`, and nothing at prices that `input` never names.
pub proof fn lemma_levels_from_quantity(input: Seq<Level>, p: Decimal)
    ensures
        quantity_at(levels_from(input), p) == last_quantity(input, p),
    decreases input.len(),
{
    if input.len() > 0 {
        lemma_levels_from_quantity(input.drop_last(), p);
        lemma_quantity_after_insert(levels_from(input.drop_last()), input.last(), p);
    }
}

/// A side drawn from any input is ascending.
pub proof fn lemma_levels_from_ascending(input: Seq<Level>)
    ensures
        ascending(levels_from(input)),
    decreases input.len(),
{
    if input.len() > 0 {
        lemma_levels_from_ascending(input.drop_last());
        lemma_insert_ascending(levels_from(input.drop_last()), input.last());
    }
}

/// One side of an order book: price levels in ascending price order, at most
/// one level per price value.
#[derive(Debug)]
pub struct BookSide {
    levels: Vec<Level>,
}

impl View for BookSide {
    type V = Seq<Level>;

    closed spec fn view(&self) -> Seq<Level> {
        self.levels@
    }
}

impl BookSide {
    #[verifier::type_invariant]
    spec fn ordered(self) -> bool {
        ascending(self.levels@)
    }

    /// An empty side.
    pub fn new() -> (r: BookSide)
        ensures
            r@ == Seq::<Level>::empty(),
    {
        BookSide { levels: Vec::new() }
    }

    /// The number of levels.
    pub fn len(&self) -> (n: usize)
        ensures
            n == self@.len(),
    {
        self.levels.len()
    }

    /// The levels, in ascending price order.
    pub fn levels(&self) -> (r: &[Level])
        ensures
            r@ == self@,
            ascending(r@),
    {
        proof {
            use_type_invariant(self);
        }
        self.levels.as_slice()
    }

    /// Removes every level.
    pub fn clear(&mut self)
        ensures
            final(self)@ == Seq::<Level>::empty(),
    {
        self.levels = Vec::new();
    }

    /// Writes `quantity` at `price`: replaces the quantity of the level with
    /// the same price value, or adds a level in price order.
    pub fn insert(&mut self, price: Decimal, quantity: Decimal)
        ensures
            final(self)@ == insert_level(old(self)@, Level { price, quantity }),
    {
        proof {
            use_type_invariant(&*self);
        }
        let mut v: Vec<Level> = Vec::new();
        std::mem::swap(&mut v, &mut self.levels);
        let ghost s = v@;
        let l = Level { price, quantity };
        let n = v.len();
        let mut i: usize = 0;
        let mut found_equal = false;
        while i < n
            invariant_except_break
                !found_equal,
            invariant
                n == v.len(),
                v@ == s,
                i <= n,
                forall|k: int| 0 <= k < i ==> (#[trigger] s[k]).price.value_lt(price),
            ensures
                i <= n,
                forall|k: int| 0 <= k < i ==> (#[trigger] s[k]).price.value_lt(price),
                found_equal ==> i < n && s[i as int].price.value_eq(price),
                !found_equal && i < n ==> s[i as int].price.order(price) == Comparison::Greater,
            decreases n - i,
        {
            match v[i].price.compare(&price) {
                Comparison::Less => {
                    i = i + 1;
                },
                Comparison::Equal => {
                    found_equal = true;
                    break;
                },
                Comparison::Greater => {
                    break;
                },
            }
        }
        proof {
            lemma_insert_split(s, l, i as int);
            lemma_insert_ascending(s, l);
            if i < n {
                lemma_order_laws(price, s[i as int].price, price);
                lemma_order_laws(s[i as int].price, price, price);
            }
        }
        if found_equal {
            let old_price = v[i].price;
            v.set(i, Level { price: old_price, quantity });
            proof {
                assert(s.skip(i as int).drop_first() =~= s.skip(i as int + 1));
                assert(v@ =~= s.take(i as int) + insert_level(s.skip(i as int), l));
            }
        } else {
            v.insert(i, l);
            proof {
                if i < n {
                    assert(!s[i as int].price.value_lt(price));
                }
                assert(v@ =~= s.take(i as int) + insert_level(s.skip(i as int), l));
            }
        }
        self.levels = v;
    }
}

impl Clone for BookSide {
    /// A side with the same levels.
    fn clone(&self) -> (r: Self)
        ensures
            r@ == self@,
    {
        proof {
            use_type_invariant(self);
        }
        let n = self.levels.len();
        let mut levels: Vec<Level> = Vec::new();
        let mut i: usize = 0;
        while i < n
            invariant
                n == self.levels@.len(),
                i <= n,
                levels@ == self.levels@.take(i as int),
            decreases n - i,
        {
            levels.push(self.levels[i]);
            proof {
                assert(self.levels@.take(i as int + 1) =~= self.levels@.take(i as int).push(self.levels@[i as int]));
            }
            i = i + 1;
        }
        proof {
            assert(self.levels@.take(n as int) =~= self.levels@);
        }
        BookSide { levels }
    }
}

/// An order book: the canvas that a connector redraws from snapshots.
/// Both sides keep ascending price order; the best bid is the last bid level,
/// the best ask the first ask level.
#[derive(Clone, Debug)]
pub struct OrderBook<A: AssetIdentity> {
    pub pair: TradingPair<A>,
    /// Sell orders, from low to high price.
    pub asks: BookSide,
    /// Buy orders, from low to high price (read from the back for high to low).
    pub bids: BookSide,
    pub update_id: u64,
}

impl<A: AssetIdentity> OrderBook<A> {
    /// An empty book of `pair` at update id `0`.
    pub fn new(pair: TradingPair<A>) -> (r: Self)
        ensures
            r.pair == pair,
            r.asks@ == Seq::<Level>::empty(),
            r.bids@ == Seq::<Level>::empty(),
            r.update_id == 0,
    {
        OrderBook { pair, asks: BookSide::new(), bids: BookSide::new(), update_id: 0 }
    }

    /// Redraws the whole book from a snapshot: both sides are cleared, then
    /// the levels of `asks` and `bids` are written in the order given (a
    /// later level with the same price replaces an earlier one), and the
    /// update id is taken from the snapshot.
    pub fn apply_snapshot(&mut self, asks: Vec<Level>, bids: Vec<Level>, update_id: u64)
        ensures
            final(self).pair == old(self).pair,
            final(self).asks@ == levels_from(asks@),
            final(self).bids@ == levels_from(bids@),
            final(self).update_id == update_id,
    {
        self.asks.clear();
        self.bids.clear();
        let mut i: usize = 0;
        while i < asks.len()
            invariant
                i <= asks.len(),
                self.asks@ == levels_from(asks@.take(i as int)),
                self.bids@ == Seq::<Level>::empty(),
                self.pair == old(self).pair,
            decreases asks.len() - i,
        {
            let level = asks[i];
            self.asks.insert(level.price, level.quantity);
            proof {
                assert(asks@.take(i as int + 1).drop_last() =~= asks@.take(i as int));
            }
            i = i + 1;
        }
        proof {
            assert(asks@.take(asks.len() as int) =~= asks@);
        }
        let mut j: usize = 0;
        while j < bids.len()
            invariant
                j <= bids.len(),
                self.asks@ == levels_from(asks@),
                self.bids@ == levels_from(bids@.take(j as int)),
                self.pair == old(self).pair,
            decreases bids.len() - j,
        {
            let level = bids[j];
            self.bids.insert(level.price, level.quantity);
            proof {
                assert(bids@.take(j as int + 1).drop_last() =~= bids@.take(j as int));
            }
            j = j + 1;
        }
        proof {
            assert(bids@.take(bids.len() as int) =~= bids@);
        }
        self.update_id = update_id;
    }
}

} // verus!
