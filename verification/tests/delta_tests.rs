//! Delta hedger tests: deltas, the threshold gate, execution and
//! recommendations.  Positions carry scale 10^2, ratios scale 10^4.

use hedging_engine::config::HedgeReason;
use hedging_engine::config::HedgeRecommendation;
use hedging_engine::config::Urgency;
use hedging_engine::delta::DeltaHedge;
use hedging_engine::orderbook::OrderBook;
use hedging_engine::tick::Side;

#[test]
fn test_delta_hedge_basic() {
    let hedge = DeltaHedge::new(-1_000_000, 11_250, 500);

    assert_eq!(hedge.get_position(), -1_000_000); // -10,000.00

    let delta = hedge.calculate_hedge_delta();
    assert!(delta.is_some());

    // Should recommend a hedge of 11,250 MWh (10,000 * 1.125).
    let delta = delta.unwrap();
    assert_eq!(delta, 1_125_000);
}

#[test]
fn delta_test_delta_hedge_threshold() {
    let mut hedge = DeltaHedge::new(-1_000_000, 11_250, 500);

    // Execute the initial hedge.
    hedge.execute_hedge(1_125_000, Side::Ask);

    // The hedge is now long (positive).
    assert_eq!(hedge.get_hedge_position(), 1_125_000);

    // A small position change must not trigger a rehedge:
    // delta is 112.5 MWh, about 1% of the hedge, below the 5% threshold.
    hedge.update_position(-1_010_000);
    let delta = hedge.calculate_hedge_delta();
    assert!(delta.is_none());

    // A large position change must trigger.
    hedge.update_position(-1_100_000);
    let delta = hedge.calculate_hedge_delta();
    assert!(delta.is_some());
}

#[test]
fn test_hedge_ratio_update() {
    let mut hedge = DeltaHedge::new(-1_000_000, 10_000, 500);

    hedge.update_hedge_ratio(15_000);

    let delta = hedge.calculate_hedge_delta();
    assert!(delta.is_some());

    // Should recommend 15,000 MWh (10,000 * 1.5).
    let delta = delta.unwrap();
    assert_eq!(delta, 1_500_000);
}

#[test]
fn test_hedge_direction_short_position() {
    // A short physical position requires a long hedge.
    let mut hedge = DeltaHedge::new(-1_000_000, 11_250, 500);

    let delta = hedge.calculate_hedge_delta();
    assert!(delta.is_some());
    let delta = delta.unwrap();
    assert!(delta > 0, "Delta should be positive (need to buy), got {}", delta);

    // Execute the buy hedge.
    hedge.execute_hedge(delta, Side::Ask);

    let hedge_pos = hedge.get_hedge_position();
    assert!(hedge_pos > 0, "Hedge position should be LONG (positive), got {}", hedge_pos);
    assert_eq!(hedge_pos, 1_125_000, "Hedge position should be ~11,250, got {}", hedge_pos);

    // Net exposure is slightly positive (the 1.125 ratio overhedges).
    let net = hedge.get_position() + hedge_pos;
    assert!(net > 0 && net < 200_000, "Net exposure should be slightly positive, got {}", net);
    assert_eq!(net, 125_000, "Net exposure should be ~1,250 (overhedge), got {}", net);
}

#[test]
fn test_hedge_direction_long_position() {
    // A long physical position requires a short hedge.
    let mut hedge = DeltaHedge::new(1_000_000, 11_250, 500);

    let delta = hedge.calculate_hedge_delta();
    assert!(delta.is_some());
    let delta = delta.unwrap();
    assert!(delta < 0, "Delta should be negative (need to sell), got {}", delta);

    // Execute the sell hedge.
    hedge.execute_hedge(-delta, Side::Bid);

    let hedge_pos = hedge.get_hedge_position();
    assert!(hedge_pos < 0, "Hedge position should be SHORT (negative), got {}", hedge_pos);
    assert_eq!(hedge_pos, -1_125_000, "Hedge position should be ~-11,250, got {}", hedge_pos);

    let net = hedge.get_position() + hedge_pos;
    assert!(net < 0 && net > -200_000, "Net exposure should be slightly negative, got {}", net);
}

#[test]
fn test_hedge_execution_adds_correctly() {
    let mut hedge = DeltaHedge::new(-1_000_000, 10_000, 500);

    // Buy 5,000.
    hedge.execute_hedge(500_000, Side::Ask);
    assert_eq!(hedge.get_hedge_position(), 500_000);

    // Buy 5,000 more.
    hedge.execute_hedge(500_000, Side::Ask);
    assert_eq!(hedge.get_hedge_position(), 1_000_000);

    // Sell 2,000 to unwind part of it.
    hedge.execute_hedge(200_000, Side::Bid);
    assert_eq!(hedge.get_hedge_position(), 800_000);
}

#[test]
fn test_hedge_recommendation_content() {
    let hedge = DeltaHedge::new(-1_000_000, 11_250, 500);
    let mut ob = OrderBook::new(2);

    ob.update_ask(0, 500000, 100, 1000); // 50.00
    ob.update_bid(0, 499000, 100, 1000); // 49.90

    let rec: Option<HedgeRecommendation> = hedge.get_recommendation(&ob);
    assert!(rec.is_some());

    let rec = rec.unwrap();

    // Should recommend a buy (ask side) at the ask price.
    assert!(matches!(rec.side, Side::Ask));
    assert_eq!(rec.price_fp, 500000);

    // Should recommend ~11,250 MWh.
    assert!((rec.quantity_fp - 1_125_000i64).abs() < 10_000);

    // Urgency is high: the delta exceeds 10% of the position.
    assert!(matches!(rec.urgency, Urgency::High));

    // The reason carries the position figures.
    match rec.reason {
        HedgeReason::Delta { position_fp, target_fp, current_hedge_fp, delta_fp, .. } => {
            assert_eq!(position_fp, -1_000_000);
            assert_eq!(target_fp, 1_125_000);
            assert_eq!(current_hedge_fp, 0);
            assert_eq!(delta_fp, 1_125_000);
        }
        _ => panic!("expected a delta-hedge reason"),
    }
}

#[test]
fn test_net_exposure_calculation() {
    // Net exposure = physical + hedge.
    let mut hedge = DeltaHedge::new(-1_000_000, 10_000, 500);

    // Perfect hedge at a 1:1 ratio.
    hedge.execute_hedge(1_000_000, Side::Ask);

    let net = hedge.get_position() + hedge.get_hedge_position();
    assert_eq!(net, 0, "Net should be ~0 with 1:1 hedge, got {}", net);

    // With the 1.125 ratio the hedge overshoots by 1,250.
    let mut hedge2 = DeltaHedge::new(-1_000_000, 11_250, 500);
    hedge2.execute_hedge(1_125_000, Side::Ask);

    let net2 = hedge2.get_position() + hedge2.get_hedge_position();
    assert_eq!(net2, 125_000, "Net should be ~1,250 with 1.125 hedge, got {}", net2);
}

#[test]
fn integration_tests_test_delta_hedge_threshold() {
    let mut hedge = DeltaHedge::new(-1_000_000, 11_250, 500);

    // Initial state: a hedge is needed.
    let delta = hedge.calculate_hedge_delta();
    assert!(delta.is_some());

    // Execute the full hedge.
    hedge.execute_hedge(1_125_000, Side::Ask);

    // Small change: below the 5% threshold.
    hedge.update_position(-1_010_000);
    let delta = hedge.calculate_hedge_delta();
    assert!(delta.is_none());

    // Large change: above the threshold.
    hedge.update_position(-1_100_000);
    let delta = hedge.calculate_hedge_delta();
    assert!(delta.is_some());
}

#[test]
fn test_no_recommendation_when_flat() {
    // Flat position, no hedge: nothing to do.
    let hedge = DeltaHedge::new(0, 11_250, 500);
    assert!(hedge.calculate_hedge_delta().is_none());

    let ob = OrderBook::new(2);
    assert!(hedge.get_recommendation(&ob).is_none());
}

#[test]
fn test_threshold_gate_boundary() {
    // Hedge on, delta exactly at the threshold: |delta|*10^4 must strictly
    // exceed threshold * |hedge| to fire.
    let mut hedge = DeltaHedge::new(-1_000_000, 10_000, 500);
    hedge.execute_hedge(1_000_000, Side::Ask);

    // delta = 0 here; shrink the position by exactly 5%: new target is
    // 950,000, delta is -50,000, |delta|*10^4 == 500 * 1,000,000.
    hedge.update_position(-950_000);
    assert!(hedge.calculate_hedge_delta().is_none());

    // One step past the boundary fires.
    hedge.update_position(-949_999);
    assert!(hedge.calculate_hedge_delta().is_some());
}
