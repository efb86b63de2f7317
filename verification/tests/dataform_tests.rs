use unitrade::common::account_model::{KlineInterval, TradingPair};
use unitrade::common::decimal::{Comparison, Decimal};
use unitrade::dataform::kline::{Kline, KlineSeries};
use unitrade::dataform::orderbook::{BookSide, Level, OrderBook};
use unitrade::dataform::tradeflow::{Trade, TradeFlow, TradeSide};

fn dec(m: i128, s: u32) -> Decimal {
    Decimal::from_parts(m, s).unwrap()
}

fn level(pm: i128, ps: u32, q: i128) -> Level {
    Level { price: dec(pm, ps), quantity: dec(q, 0) }
}

fn parts(levels: &[Level]) -> Vec<(i128, u32, i128)> {
    levels
        .iter()
        .map(|l| (l.price.mantissa(), l.price.scale(), l.quantity.mantissa()))
        .collect()
}

fn is_ascending(levels: &[Level]) -> bool {
    levels.windows(2).all(|w| w[0].price.compare(&w[1].price) == Comparison::Less)
}

#[test]
fn new_order_book_is_empty() {
    let book = OrderBook::new(TradingPair::new("BTC", "USDT"));
    assert_eq!(book.asks.len(), 0);
    assert_eq!(book.bids.len(), 0);
    assert_eq!(book.update_id, 0);
    assert_eq!(book.pair.symbol(), "BTCUSDT".to_string());
}

#[test]
fn snapshot_sorts_levels_by_price() {
    let mut book = OrderBook::new(TradingPair::new("BTC", "USDT"));
    book.apply_snapshot(
        vec![level(102, 0, 1), level(100, 0, 2), level(101, 0, 3)],
        vec![level(99, 0, 4), level(97, 0, 5), level(98, 0, 6)],
        42,
    );
    assert_eq!(parts(book.asks.levels()), vec![(100, 0, 2), (101, 0, 3), (102, 0, 1)]);
    assert_eq!(parts(book.bids.levels()), vec![(97, 0, 5), (98, 0, 6), (99, 0, 4)]);
    assert_eq!(book.update_id, 42);
}

#[test]
fn snapshot_keeps_the_last_quantity_of_a_repeated_price() {
    let mut book = OrderBook::new(TradingPair::new("BTC", "USDT"));
    book.apply_snapshot(vec![level(100, 0, 1), level(101, 0, 2), level(100, 0, 7)], vec![], 1);
    assert_eq!(parts(book.asks.levels()), vec![(100, 0, 7), (101, 0, 2)]);
}

#[test]
fn snapshot_treats_equal_values_as_one_price() {
    let mut book = OrderBook::new(TradingPair::new("BTC", "USDT"));
    // 1.5 and 1.50 are the same price: one level, the quantity of the later
    // write, the price as first written.
    book.apply_snapshot(vec![level(15, 1, 3), level(150, 2, 9)], vec![], 1);
    assert_eq!(parts(book.asks.levels()), vec![(15, 1, 9)]);
}

#[test]
fn snapshot_replaces_the_previous_book() {
    let mut book = OrderBook::new(TradingPair::new("BTC", "USDT"));
    book.apply_snapshot(vec![level(100, 0, 1)], vec![level(90, 0, 1)], 1);
    book.apply_snapshot(vec![level(200, 0, 5)], vec![], 2);
    assert_eq!(parts(book.asks.levels()), vec![(200, 0, 5)]);
    assert_eq!(book.bids.len(), 0);
    assert_eq!(book.update_id, 2);
}

#[test]
fn snapshot_applied_twice_gives_the_same_book() {
    let asks = vec![level(3, 0, 1), level(1, 0, 2), level(2, 0, 3), level(1, 0, 4)];
    let bids = vec![level(-1, 1, 5)];
    let mut once = OrderBook::new(TradingPair::new("A", "B"));
    once.apply_snapshot(asks.clone(), bids.clone(), 9);
    let mut twice = OrderBook::new(TradingPair::new("A", "B"));
    twice.apply_snapshot(asks.clone(), bids.clone(), 9);
    twice.apply_snapshot(asks, bids, 9);
    assert_eq!(parts(once.asks.levels()), parts(twice.asks.levels()));
    assert_eq!(parts(once.bids.levels()), parts(twice.bids.levels()));
}

#[test]
fn book_side_insert_reads_back_what_was_written() {
    let mut side = BookSide::new();
    side.insert(dec(5, 0), dec(1, 0));
    side.insert(dec(3, 0), dec(2, 0));
    side.insert(dec(4, 0), dec(3, 0));
    side.insert(dec(50, 1), dec(8, 0));
    assert_eq!(parts(side.levels()), vec![(3, 0, 2), (4, 0, 3), (5, 0, 8)]);
    assert!(is_ascending(side.levels()));
    side.clear();
    assert_eq!(side.len(), 0);
}

#[test]
fn book_side_stays_ascending_with_mixed_scales() {
    let mut side = BookSide::new();
    let prices = [(125, 2), (-3, 0), (1, 0), (12, 1), (-25, 1), (0, 0), (1249, 3)];
    for (m, s) in prices.iter() {
        side.insert(dec(*m, *s), dec(1, 0));
    }
    assert!(is_ascending(side.levels()));
    assert_eq!(side.len(), prices.len());
}

fn candle(open_time: u64, close: i128) -> Kline {
    Kline {
        open_time,
        open: dec(close, 0),
        high: dec(close, 0),
        low: dec(close, 0),
        close: dec(close, 0),
        volume: dec(1, 0),
        close_time: open_time + 59,
    }
}

fn open_times(series: &KlineSeries<&'static str>) -> Vec<(u64, i128)> {
    series.candles.iter().map(|k| (k.open_time, k.close.mantissa())).collect()
}

#[test]
fn kline_update_appends_to_an_empty_series() {
    let mut series = KlineSeries::new(TradingPair::new("BTC", "USDT"), KlineInterval::M1);
    assert!(series.candles.is_empty());
    series.update(candle(60, 10));
    assert_eq!(open_times(&series), vec![(60, 10)]);
    assert_eq!(series.interval, KlineInterval::M1);
}

#[test]
fn kline_update_with_same_open_time_replaces_the_last_candle() {
    let mut series = KlineSeries::new(TradingPair::new("BTC", "USDT"), KlineInterval::M1);
    series.update(candle(0, 1));
    series.update(candle(60, 2));
    series.update(candle(60, 3));
    assert_eq!(open_times(&series), vec![(0, 1), (60, 3)]);
}

#[test]
fn kline_update_with_later_open_time_appends() {
    let mut series = KlineSeries::new(TradingPair::new("BTC", "USDT"), KlineInterval::M1);
    series.update(candle(0, 1));
    series.update(candle(60, 2));
    series.update(candle(180, 3));
    assert_eq!(open_times(&series), vec![(0, 1), (60, 2), (180, 3)]);
}

#[test]
fn kline_update_with_earlier_open_time_is_ignored() {
    let mut series = KlineSeries::new(TradingPair::new("BTC", "USDT"), KlineInterval::H1);
    series.update(candle(3600, 1));
    series.update(candle(7200, 2));
    series.update(candle(3600, 9));
    series.update(candle(0, 9));
    assert_eq!(open_times(&series), vec![(3600, 1), (7200, 2)]);
    assert!(series.candles.windows(2).all(|w| w[0].open_time < w[1].open_time));
}

fn trade(id: &str, ts: u64) -> Trade {
    Trade {
        id: id.to_string(),
        price: dec(100, 0),
        quantity: dec(1, 0),
        side: TradeSide::Buy,
        timestamp: ts,
    }
}

fn ids(flow: &TradeFlow<&'static str>) -> Vec<String> {
    flow.trades.iter().map(|t| t.id.clone()).collect()
}

#[test]
fn trade_flow_keeps_trades_below_capacity() {
    let mut flow = TradeFlow::new(TradingPair::new("BTC", "USDT"), 3);
    assert_eq!(flow.capacity, 3);
    assert!(flow.trades.is_empty());
    flow.push(trade("a", 1));
    flow.push(trade("b", 2));
    assert_eq!(ids(&flow), vec!["a".to_string(), "b".to_string()]);
}

#[test]
fn trade_flow_drops_the_oldest_when_full() {
    let mut flow = TradeFlow::new(TradingPair::new("BTC", "USDT"), 2);
    flow.push(trade("a", 1));
    flow.push(trade("b", 2));
    flow.push(trade("c", 3));
    assert_eq!(ids(&flow), vec!["b".to_string(), "c".to_string()]);
    flow.push(trade("d", 4));
    assert_eq!(ids(&flow), vec!["c".to_string(), "d".to_string()]);
    assert!(flow.trades.len() <= flow.capacity);
}

#[test]
fn trade_flow_of_capacity_one_holds_the_latest_trade() {
    let mut flow = TradeFlow::new(TradingPair::new("BTC", "USDT"), 1);
    for (i, id) in ["x", "y", "z"].iter().enumerate() {
        flow.push(trade(id, i as u64));
        assert_eq!(flow.trades.len(), 1);
    }
    assert_eq!(ids(&flow), vec!["z".to_string()]);
    assert_eq!(flow.trades[0].timestamp, 2);
}
