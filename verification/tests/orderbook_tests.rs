//! Order book tests: top-of-book reads, mid and spread, sequence counting.

use hedging_engine::orderbook::OrderBook;

#[test]
fn test_orderbook_basic() {
    let mut ob = OrderBook::new(1);

    ob.update_bid(0, 450000, 100, 1000);
    let (price, size) = ob.best_bid();

    assert_eq!(price, 450000); // 45.0, scale 10^4
    assert_eq!(size, 100);
}

#[test]
fn test_mid_price() {
    let mut ob = OrderBook::new(1);

    ob.update_bid(0, 450000, 100, 1000);
    ob.update_ask(0, 460000, 100, 1000);

    assert_eq!(ob.mid_price(), 455000); // 45.5
}

#[test]
fn test_spread_calculation() {
    let mut ob = OrderBook::new(1);

    ob.update_bid(0, 450000, 100, 1000);
    ob.update_ask(0, 460000, 100, 1000);

    // (460000 - 450000) * 10^4 / 455000 = 219.78..., truncated.
    let spread = ob.spread_bps();
    assert!(spread >= 219 && spread < 220);
    assert_eq!(spread, 219);
}

#[test]
fn test_sequence_increment() {
    let mut ob = OrderBook::new(1);

    assert_eq!(ob.sequence(), 0);

    ob.update_bid(0, 450000, 100, 1000);
    assert_eq!(ob.sequence(), 1);

    ob.update_ask(0, 460000, 100, 1000);
    assert_eq!(ob.sequence(), 2);
}

#[test]
fn test_multiple_levels() {
    let mut ob = OrderBook::new(1);

    ob.update_bid(0, 450000, 100, 1000);
    ob.update_bid(1, 449000, 200, 1000);
    ob.update_bid(2, 448000, 150, 1000);

    let bids = ob.get_bids(3);
    assert_eq!(bids.len(), 3);
    assert_eq!(bids[0].0, 450000); // 45.0
    assert_eq!(bids[1].0, 449000); // 44.9
    assert_eq!(bids[2].0, 448000); // 44.8
}

#[test]
fn test_orderbook_consistency() {
    let mut ob = OrderBook::new(1);

    ob.update_bid(0, 450000, 100, 1000);
    ob.update_bid(1, 449000, 150, 1001);
    ob.update_bid(2, 448000, 120, 1002);

    ob.update_ask(0, 451000, 110, 1003);
    ob.update_ask(1, 452000, 140, 1004);
    ob.update_ask(2, 453000, 130, 1005);

    let (bid, _) = ob.best_bid();
    let (ask, _) = ob.best_ask();

    assert_eq!(bid, 450000); // 45.0
    assert_eq!(ask, 451000); // 45.1

    assert_eq!(ob.mid_price(), 450500); // 45.05

    let bids = ob.get_bids(3);
    assert_eq!(bids.len(), 3);
    assert_eq!(bids[0].0, 450000);
    assert_eq!(bids[1].0, 449000);
    assert_eq!(bids[2].0, 448000);
}

#[test]
fn test_out_of_range_write_dropped() {
    let mut ob = OrderBook::new(3);

    ob.update_bid(0, 450000, 100, 1000);
    assert_eq!(ob.sequence(), 1);
    assert_eq!(ob.last_update_ns(), 1000);

    // Level 10 does not exist: the write must leave everything unchanged.
    ob.update_bid(10, 999999, 500, 2000);
    ob.update_ask(11, 888888, 400, 3000);

    assert_eq!(ob.sequence(), 1);
    assert_eq!(ob.last_update_ns(), 1000);
    let (bid, size) = ob.best_bid();
    assert_eq!(bid, 450000);
    assert_eq!(size, 100);
    assert_eq!(ob.symbol_id(), 3);
}

#[test]
fn test_sequence_counts_only_in_range_writes() {
    let mut ob = OrderBook::new(1);

    // 5 in-range writes interleaved with out-of-range ones.
    ob.update_bid(0, 10000, 1, 1);
    ob.update_bid(10, 10000, 1, 2);
    ob.update_ask(0, 20000, 1, 3);
    ob.update_ask(99, 20000, 1, 4);
    ob.update_bid(9, 30000, 1, 5);
    ob.update_ask(9, 40000, 1, 6);
    ob.update_bid(100, 50000, 1, 7);
    ob.update_bid(1, 60000, 1, 8);

    assert_eq!(ob.sequence(), 5);
}

#[test]
fn test_empty_levels_omitted() {
    let mut ob = OrderBook::new(1);
    ob.update_bid(2, 448000, 150, 1000);

    // Levels 0 and 1 hold price 0 and are filtered out.
    let bids = ob.get_bids(10);
    assert_eq!(bids.len(), 1);
    assert_eq!(bids[0], (448000, 150));

    let asks = ob.get_asks(10);
    assert_eq!(asks.len(), 0);
}

#[test]
fn test_spread_zero_when_empty() {
    let ob = OrderBook::new(1);
    assert_eq!(ob.spread_bps(), 0);
    assert_eq!(ob.mid_price(), 0);
}
