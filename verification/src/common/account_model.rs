//! Identities and the account/order domain model.

use vstd::prelude::*;
use crate::common::decimal::Decimal;

verus! {

// --- IDs & Identity Space ---

/// A sub-account identity: a light, copyable value (a short enum or a static
/// string) that names a sub-account and has a display text.
pub trait SubAccountIdentity: Copy {
    /// The text by which the sub-account is displayed.
    spec fn display_text(&self) -> Seq<char>;

    /// The display text as a `String`.
    fn to_display_string(&self) -> (s: String)
        ensures
            s@ == self.display_text(),
    ;
}

/// A static string names a sub-account by its own text.
impl SubAccountIdentity for &'static str {
    open spec fn display_text(&self) -> Seq<char> {
        (*self)@
    }

    fn to_display_string(&self) -> (s: String) {
        String::from_str(*self)
    }
}

/// An asset identity. Every type that names assets (an enum of the assets
/// an application trades, or a short static string) implements it; its text
/// is what a trading pair's symbol is made of.
pub trait AssetIdentity: Copy {
    /// The text by which the asset is displayed, such as `BTC`.
    spec fn display_text(&self) -> Seq<char>;

    /// The display text as a `String`.
    fn to_display_string(&self) -> (s: String)
        ensures
            s@ == self.display_text(),
    ;
}

/// A static string names an asset by its own text.
impl AssetIdentity for &'static str {
    open spec fn display_text(&self) -> Seq<char> {
        (*self)@
    }

    fn to_display_string(&self) -> (s: String) {
        String::from_str(*self)
    }
}

/// The venue (exchange) identity.
#[derive(Clone, Copy, Debug, PartialEq, Eq, Structural, Hash)]
pub enum VenueId {
    Binance,
    Okx,
    Bybit,
    Coinbase,
    Mock,
}

impl VenueId {
    /// The displayed name of the venue: the variant's own name.
    pub open spec fn name_text(self) -> Seq<char> {
        match self {
            VenueId::Binance => "Binance"@,
            VenueId::Okx => "Okx"@,
            VenueId::Bybit => "Bybit"@,
            VenueId::Coinbase => "Coinbase"@,
            VenueId::Mock => "Mock"@,
        }
    }

    /// The displayed name of the venue.
    pub fn to_string(&self) -> (s: String)
        ensures
            s@ == self.name_text(),
    {
        match self {
            VenueId::Binance => String::from_str("Binance"),
            VenueId::Okx => String::from_str("Okx"),
            VenueId::Bybit => String::from_str("Bybit"),
            VenueId::Coinbase => String::from_str("Coinbase"),
            VenueId::Mock => String::from_str("Mock"),
        }
    }
}

/// A trading pair: two asset identities, the base asset quoted in the quote
/// asset.
#[derive(Clone, Copy, Debug)]
pub struct TradingPair<A: AssetIdentity> {
    pub base: A,
    pub quote: A,
}

impl<A: AssetIdentity> TradingPair<A> {
    /// The pair of `base` quoted in `quote`.
    pub fn new(base: A, quote: A) -> (r: Self)
        ensures
            r.base == base,
            r.quote == quote,
    {
        TradingPair { base, quote }
    }

    /// The exchange symbol of the pair: the base text directly followed by the
    /// quote text (`BTC` and `USDT` give `BTCUSDT`).
    pub fn symbol(&self) -> (s: String)
        ensures
            s@ == self.base.display_text() + self.quote.display_text(),
    {
        let mut s = self.base.to_display_string();
        let q = self.quote.to_display_string();
        s.append(q.as_str());
        s
    }

    /// The displayed form of the pair: base and quote separated by a slash
    /// (`BTC/USDT`).
    pub fn to_string(&self) -> (s: String)
        ensures
            s@ == self.base.display_text() + seq!['/'] + self.quote.display_text(),
    {
        let mut s = self.base.to_display_string();
        s.append("/");
        let q = self.quote.to_display_string();
        s.append(q.as_str());
        proof {
            reveal_strlit("/");
        }
        s
    }
}

/// Whether two string slices hold the same characters.
fn same_text(a: &str, b: &str) -> (r: bool)
    ensures
        r == (a@ == b@),
{
    let a_owned = a.to_owned();
    let b_owned = b.to_owned();
    a_owned == b_owned
}

/// A candlestick interval: the finite set of time resolutions the system
/// supports.
#[derive(Clone, Copy, Debug, PartialEq, Eq, Structural, Hash)]
pub enum KlineInterval {
    S1,
    M1,
    M3,
    M5,
    M15,
    M30,
    H1,
    H2,
    H4,
    H6,
    H8,
    H12,
    D1,
    D3,
    W1,
    Mo1,
}

impl KlineInterval {
    /// The exchange code of the interval (`1s`, `1m`, ..., `1w`, `1M`).
    pub open spec fn code(self) -> Seq<char> {
        match self {
            KlineInterval::S1 => "1s"@,
            KlineInterval::M1 => "1m"@,
            KlineInterval::M3 => "3m"@,
            KlineInterval::M5 => "5m"@,
            KlineInterval::M15 => "15m"@,
            KlineInterval::M30 => "30m"@,
            KlineInterval::H1 => "1h"@,
            KlineInterval::H2 => "2h"@,
            KlineInterval::H4 => "4h"@,
            KlineInterval::H6 => "6h"@,
            KlineInterval::H8 => "8h"@,
            KlineInterval::H12 => "12h"@,
            KlineInterval::D1 => "1d"@,
            KlineInterval::D3 => "3d"@,
            KlineInterval::W1 => "1w"@,
            KlineInterval::Mo1 => "1M"@,
        }
    }

    /// The text of the message with which parsing `text` fails.
    pub open spec fn unknown_message(text: Seq<char>) -> Seq<char> {
        "Unknown KlineInterval: "@ + text
    }

    /// The exchange code of the interval, as a static string.
    pub fn as_str(&self) -> (s: &'static str)
        ensures
            s@ == self.code(),
    {
        match self {
            KlineInterval::S1 => "1s",
            KlineInterval::M1 => "1m",
            KlineInterval::M3 => "3m",
            KlineInterval::M5 => "5m",
            KlineInterval::M15 => "15m",
            KlineInterval::M30 => "30m",
            KlineInterval::H1 => "1h",
            KlineInterval::H2 => "2h",
            KlineInterval::H4 => "4h",
            KlineInterval::H6 => "6h",
            KlineInterval::H8 => "8h",
            KlineInterval::H12 => "12h",
            KlineInterval::D1 => "1d",
            KlineInterval::D3 => "3d",
            KlineInterval::W1 => "1w",
            KlineInterval::Mo1 => "1M",
        }
    }

    /// The displayed form of the interval: its exchange code.
    pub fn to_string(&self) -> (s: String)
        ensures
            s@ == self.code(),
    {
        String::from_str(self.as_str())
    }

    /// Parses an exchange code. The codes are case-sensitive (`1m` is one
    /// minute, `1M` one month); any other text is refused with the message
    /// `Unknown KlineInterval: <text>`.
    pub fn from_str(s: &str) -> (r: Result<KlineInterval, String>)
        ensures
            r is Ok <==> exists|iv: KlineInterval| iv.code() == s@,
            r matches Ok(iv) ==> iv.code() == s@,
            forall|iv: KlineInterval| #[trigger] iv.code() == s@ ==> r == Ok::<KlineInterval, String>(iv),
            r matches Err(e) ==> e@ == Self::unknown_message(s@),
    {
        let r = if same_text(s, "1s") {
            Ok(KlineInterval::S1)
        } else if same_text(s, "1m") {
            Ok(KlineInterval::M1)
        } else if same_text(s, "3m") {
            Ok(KlineInterval::M3)
        } else if same_text(s, "5m") {
            Ok(KlineInterval::M5)
        } else if same_text(s, "15m") {
            Ok(KlineInterval::M15)
        } else if same_text(s, "30m") {
            Ok(KlineInterval::M30)
        } else if same_text(s, "1h") {
            Ok(KlineInterval::H1)
        } else if same_text(s, "2h") {
            Ok(KlineInterval::H2)
        } else if same_text(s, "4h") {
            Ok(KlineInterval::H4)
        } else if same_text(s, "6h") {
            Ok(KlineInterval::H6)
        } else if same_text(s, "8h") {
            Ok(KlineInterval::H8)
        } else if same_text(s, "12h") {
            Ok(KlineInterval::H12)
        } else if same_text(s, "1d") {
            Ok(KlineInterval::D1)
        } else if same_text(s, "3d") {
            Ok(KlineInterval::D3)
        } else if same_text(s, "1w") {
            Ok(KlineInterval::W1)
        } else if same_text(s, "1M") {
            Ok(KlineInterval::Mo1)
        } else {
            let mut e = String::from_str("Unknown KlineInterval: ");
            e.append(s);
            assert forall|iv: KlineInterval| iv.code() != s@ by {
                match iv {
                    KlineInterval::S1 => {},
                    _ => {},
                }
            }
            Err(e)
        };
        proof {
            if let Ok(p) = r {
                assert(p.code() == s@);
                assert forall|iv: KlineInterval| #[trigger] iv.code() == s@ implies r == Ok::<KlineInterval, String>(iv) by {
                    lemma_interval_code_injective(p, iv);
                }
            }
        }
        r
    }
}

/// Distinct intervals have distinct codes.
pub proof fn lemma_interval_code_injective(a: KlineInterval, b: KlineInterval)
    ensures
        a.code() == b.code() ==> a == b,
{
    reveal_strlit("1s");
    reveal_strlit("1m");
    reveal_strlit("3m");
    reveal_strlit("5m");
    reveal_strlit("15m");
    reveal_strlit("30m");
    reveal_strlit("1h");
    reveal_strlit("2h");
    reveal_strlit("4h");
    reveal_strlit("6h");
    reveal_strlit("8h");
    reveal_strlit("12h");
    reveal_strlit("1d");
    reveal_strlit("3d");
    reveal_strlit("1w");
    reveal_strlit("1M");
    if a.code() == b.code() {
        assert(a.code().len() == b.code().len());
        assert(a.code()[0] == b.code()[0]);
        assert(a.code()[a.code().len() - 1] == b.code()[b.code().len() - 1]);
    }
}

// --- Content types (not identities) ---

/// An order id given by the exchange.
pub type OrderId = String;

/// An order id chosen by the client.
pub type ClientOrderId = String;

/// A trade id given by the exchange.
pub type TradeId = String;

// --- Domain Models ---

#[derive(Clone, Copy, Debug, PartialEq, Eq, Structural)]
pub enum OrderSide {
    Buy,
    Sell,
}

#[derive(Clone, Copy, Debug, PartialEq, Eq, Structural)]
pub enum OrderType {
    Limit,
    Market,
    StopLimit,
    StopMarket,
    TakeProfitLimit,
    TakeProfitMarket,
}

#[derive(Clone, Copy, Debug, PartialEq, Eq, Structural)]
pub enum TimeInForce {
    /// Good till cancel.
    Gtc,
    /// Immediate or cancel.
    Ioc,
    /// Fill or kill.
    Fok,
}

#[derive(Clone, Copy, Debug, PartialEq, Eq, Structural)]
pub enum TriggerType {
    LastPrice,
    MarkPrice,
    IndexPrice,
}

#[derive(Clone, Debug, PartialEq, Eq, Structural)]
pub enum ExecutionInstruction {
    PostOnly,
    ReduceOnly,
}

#[derive(Clone, Debug, PartialEq, Eq, Structural)]
pub enum OrderStatus {
    New,
    PartiallyFilled,
    Filled,
    Canceled,
    Rejected,
    Expired,
}

/// An order as a client requests it, without routing information.
#[derive(Clone, Debug)]
pub struct OrderRequest {
    pub side: OrderSide,
    pub order_type: OrderType,
    pub price: Option<Decimal>,
    pub quantity: Decimal,
    pub client_order_id: Option<ClientOrderId>,
    pub time_in_force: Option<TimeInForce>,
    pub trigger_price: Option<Decimal>,
    pub trigger_type: Option<TriggerType>,
    /// For iceberg orders: the quantity displayed in the order book; `None`
    /// for a fully visible order.
    pub visible_quantity: Option<Decimal>,
    pub instructions: Vec<ExecutionInstruction>,
}

/// An order as the exchange reports it.
#[derive(Clone, Debug)]
pub struct Order<A: AssetIdentity, S: SubAccountIdentity> {
    pub sub_account_id: S,
    /// The id given by the exchange.
    pub id: OrderId,
    pub client_order_id: Option<ClientOrderId>,
    pub symbol: TradingPair<A>,
    pub side: OrderSide,
    pub order_type: OrderType,
    pub price: Option<Decimal>,
    pub quantity: Decimal,
    pub filled_quantity: Decimal,
    pub average_price: Option<Decimal>,
    pub status: OrderStatus,
    pub update_time: u64,
}

/// A position held in a sub-account.
#[derive(Clone, Debug)]
pub struct Position<A: AssetIdentity, S: SubAccountIdentity> {
    pub sub_account_id: S,
    pub symbol: TradingPair<A>,
    /// Positive for a long position, negative for a short one.
    pub quantity: Decimal,
    pub entry_price: Decimal,
    pub unrealized_pnl: Decimal,
    pub leverage: Decimal,
}

/// The balance of one asset in a sub-account.
#[derive(Clone, Debug)]
pub struct Balance<A: AssetIdentity, S: SubAccountIdentity> {
    pub sub_account_id: S,
    pub asset: A,
    pub total: Decimal,
    pub available: Decimal,
    pub locked: Decimal,
}

} // verus!
