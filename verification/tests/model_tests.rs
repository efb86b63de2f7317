use unitrade::common::account_model::{AssetIdentity, KlineInterval, SubAccountIdentity, TradingPair, VenueId};
use unitrade::common::actor_trait::ChannelPair;
use unitrade::common::decimal::{Comparison, Decimal};

fn dec(m: i128, s: u32) -> Decimal {
    Decimal::from_parts(m, s).unwrap()
}

#[test]
fn decimal_from_parts_accepts_representable_values() {
    let d = dec(-12345678, 7);
    assert_eq!(d.mantissa(), -12345678);
    assert_eq!(d.scale(), 7);
    let max = 0xFFFF_FFFF_FFFF_FFFF_FFFF_FFFF_i128;
    assert!(Decimal::from_parts(max, 28).is_some());
    assert!(Decimal::from_parts(-max, 0).is_some());
}

#[test]
fn decimal_from_parts_refuses_out_of_range_values() {
    let max = 0xFFFF_FFFF_FFFF_FFFF_FFFF_FFFF_i128;
    assert!(Decimal::from_parts(max + 1, 0).is_none());
    assert!(Decimal::from_parts(-max - 1, 0).is_none());
    assert!(Decimal::from_parts(1, 29).is_none());
}

#[test]
fn decimal_compare_orders_exact_values() {
    assert_eq!(dec(1, 0).compare(&dec(2, 0)), Comparison::Less);
    assert_eq!(dec(2, 0).compare(&dec(1, 0)), Comparison::Greater);
    assert_eq!(dec(10, 1).compare(&dec(100, 2)), Comparison::Equal);
    assert_eq!(dec(15, 1).compare(&dec(2, 0)), Comparison::Less);
    assert_eq!(dec(-5, 1).compare(&dec(-1, 2)), Comparison::Less);
    assert_eq!(dec(5, 1).compare(&dec(1, 2)), Comparison::Greater);
    assert_eq!(dec(0, 3).compare(&dec(0, 0)), Comparison::Equal);
    assert_eq!(dec(-1, 0).compare(&dec(0, 0)), Comparison::Less);
}

#[test]
fn static_str_identities_display_their_text() {
    let btc: &'static str = "BTC";
    assert_eq!(AssetIdentity::to_display_string(&btc), "BTC".to_string());
    let main: &'static str = "main";
    assert_eq!(SubAccountIdentity::to_display_string(&main), "main".to_string());
}

#[test]
fn trading_pair_symbol_concatenates_base_and_quote() {
    let pair = TradingPair::new("BTC", "USDT");
    assert_eq!(pair.base, "BTC");
    assert_eq!(pair.quote, "USDT");
    assert_eq!(pair.symbol(), "BTCUSDT".to_string());
}

#[test]
fn trading_pair_displays_with_a_slash() {
    let pair = TradingPair::new("ETH", "BTC");
    assert_eq!(pair.to_string(), "ETH/BTC".to_string());
}

#[test]
fn venue_names_are_the_variant_names() {
    assert_eq!(VenueId::Binance.to_string(), "Binance".to_string());
    assert_eq!(VenueId::Okx.to_string(), "Okx".to_string());
    assert_eq!(VenueId::Bybit.to_string(), "Bybit".to_string());
    assert_eq!(VenueId::Coinbase.to_string(), "Coinbase".to_string());
    assert_eq!(VenueId::Mock.to_string(), "Mock".to_string());
}

const ALL_INTERVALS: [(KlineInterval, &str); 16] = [
    (KlineInterval::S1, "1s"),
    (KlineInterval::M1, "1m"),
    (KlineInterval::M3, "3m"),
    (KlineInterval::M5, "5m"),
    (KlineInterval::M15, "15m"),
    (KlineInterval::M30, "30m"),
    (KlineInterval::H1, "1h"),
    (KlineInterval::H2, "2h"),
    (KlineInterval::H4, "4h"),
    (KlineInterval::H6, "6h"),
    (KlineInterval::H8, "8h"),
    (KlineInterval::H12, "12h"),
    (KlineInterval::D1, "1d"),
    (KlineInterval::D3, "3d"),
    (KlineInterval::W1, "1w"),
    (KlineInterval::Mo1, "1M"),
];

#[test]
fn kline_interval_codes() {
    for (iv, code) in ALL_INTERVALS.iter() {
        assert_eq!(iv.as_str(), *code);
        assert_eq!(iv.to_string(), code.to_string());
    }
}

#[test]
fn kline_interval_parse_round_trips() {
    for (iv, _) in ALL_INTERVALS.iter() {
        let text = iv.to_string();
        assert_eq!(KlineInterval::from_str(text.as_str()), Ok(*iv));
    }
}

#[test]
fn kline_interval_parse_is_case_sensitive() {
    assert_eq!(KlineInterval::from_str("1m"), Ok(KlineInterval::M1));
    assert_eq!(KlineInterval::from_str("1M"), Ok(KlineInterval::Mo1));
    assert_eq!(
        KlineInterval::from_str("1H"),
        Err("Unknown KlineInterval: 1H".to_string())
    );
}

#[test]
fn kline_interval_parse_refuses_unknown_text() {
    assert_eq!(
        KlineInterval::from_str("2m"),
        Err("Unknown KlineInterval: 2m".to_string())
    );
    assert_eq!(KlineInterval::from_str(""), Err("Unknown KlineInterval: ".to_string()));
    assert_eq!(
        KlineInterval::from_str(" 1s"),
        Err("Unknown KlineInterval:  1s".to_string())
    );
}

#[test]
fn channel_pair_new_holds_both_ends() {
    let pair: ChannelPair<u32, &str> = ChannelPair::new(Some(7), None);
    assert_eq!(pair.tx, Some(7));
    assert_eq!(pair.rx, None);
    let full: ChannelPair<u8, u8> = ChannelPair::new(Some(1), Some(2));
    assert_eq!(full.tx, Some(1));
    assert_eq!(full.rx, Some(2));
}

#[test]
fn channel_pair_default_is_empty() {
    let pair: ChannelPair<u32, u64> = ChannelPair::default();
    assert!(pair.tx.is_none());
    assert!(pair.rx.is_none());
}
