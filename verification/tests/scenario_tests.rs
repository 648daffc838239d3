//! End-to-end scenarios: the full workflow, the rehedge threshold on both
//! sides, MVHR convergence, mean-reversion suppression, and the
//! three-legged spark spread.

use hedging_engine::clock::get_timestamp_ns;
use hedging_engine::config::HedgeConfig;
use hedging_engine::config::Urgency;
use hedging_engine::engine::HedgeEngine;
use hedging_engine::mean_reversion::MeanReversionHedge;
use hedging_engine::mvhr::MVHRStrategy;
use hedging_engine::orderbook::OrderBook;
use hedging_engine::spark_spread::SparkSpreadHedge;
use hedging_engine::tick::MarketTick;
use hedging_engine::tick::Side;

/// Set up the full-workflow engine: position -10,000, ratio 1.125,
/// threshold 500 bps, no overlays, and the four book-seeding ticks.
fn full_workflow_engine() -> HedgeEngine {
    let config = HedgeConfig {
        initial_position_fp: -1_000_000,
        default_hedge_ratio_fp: 11_250,
        rehedge_threshold_bps: 500,
        enable_mvhr: false,
        enable_mean_reversion: false,
        ..Default::default()
    };
    let mut engine = HedgeEngine::new(config).unwrap();

    let ts = get_timestamp_ns();
    engine.on_tick(MarketTick::bid(ts, 482_000, 150, 1));
    engine.on_tick(MarketTick::ask(ts, 482_500, 130, 1));
    engine.on_tick(MarketTick::bid(ts, 501_000, 120, 2));
    engine.on_tick(MarketTick::ask(ts, 501_500, 140, 2));
    engine
}

#[test]
fn test_scenario_full_workflow() {
    let mut engine = full_workflow_engine();

    let rec = engine.get_hedge_recommendation().unwrap().unwrap();

    assert!(matches!(rec.side, Side::Ask)); // buy at the ask
    assert_eq!(rec.price_fp, 501_500); // 50.15
    assert!(rec.quantity_fp >= 1_105_000 && rec.quantity_fp <= 1_145_000); // 11,050..11,450
    assert!(matches!(rec.urgency, Urgency::High));
}

#[test]
fn test_scenario_below_threshold() {
    let mut engine = full_workflow_engine();

    // Execute the full recommendation, then nudge the position by 1%.
    let rec = engine.get_hedge_recommendation().unwrap().unwrap();
    engine.execute_hedge(&rec).unwrap();
    engine.delta_hedge.update_position(-1_010_000);

    // 1.0% < the 5% threshold: no recommendation.
    let rec2 = engine.get_hedge_recommendation().unwrap();
    assert!(rec2.is_none());
}

#[test]
fn test_scenario_above_threshold() {
    let mut engine = full_workflow_engine();

    let rec = engine.get_hedge_recommendation().unwrap().unwrap();
    engine.execute_hedge(&rec).unwrap();

    // A 10% move breaks the threshold.
    engine.delta_hedge.update_position(-1_100_000);
    let rec2 = engine.get_hedge_recommendation().unwrap();
    assert!(rec2.is_some());
}

#[test]
fn test_scenario_mvhr_convergence() {
    let mut mvhr = MVHRStrategy::new(100, 24);

    // 50 observations: spot 45 + 0.1i, futures 50 + 0.12i.
    for i in 0..50i64 {
        mvhr.add_observation(450_000 + i * 1_000, 500_000 + i * 1_200);
    }

    let ratio = mvhr.calculate_optimal_ratio().unwrap();
    assert!(ratio > 3_000 && ratio < 15_000); // in (0.3, 1.5)

    let stats = mvhr.get_statistics().unwrap();
    assert!(stats.correlation_fp > 9_000); // Pearson > 0.9
}

#[test]
fn test_scenario_mean_reversion_suppression() {
    // A window with mean ~45 and std ~2; querying at 55 (|z| ~ 5) must
    // yield the strongest suppression: 0.3 x strength.
    let mut strategy = MeanReversionHedge::new(100, 2_000, 20_000, 7_000);
    for i in 0..40i64 {
        strategy.add_price(if i % 2 == 0 { 430_000 } else { 470_000 });
    }
    strategy.calculate_statistics();

    let adj = strategy.should_adjust_hedge(550_000).unwrap();
    assert_eq!(adj, 2_100); // 0.3 * 0.7, scale 10^4
}

#[test]
fn test_scenario_spark_spread() {
    // capacity 400 MW, heat rate 2.0, emission 0.202, target 50.
    let mut hedge = SparkSpreadHedge::new(40_000, 20_000, 2_020, 500_000);

    let mut power_book = OrderBook::new(1);
    let mut gas_book = OrderBook::new(2);
    let mut co2_book = OrderBook::new(3);
    power_book.update_bid(0, 1_000_000, 500, 1); // 100
    gas_book.update_ask(0, 400_000, 500, 1); // 40
    co2_book.update_ask(0, 800_000, 500, 1); // 80

    let recs = hedge.get_recommendations(&power_book, &gas_book, &co2_book, 24).unwrap();

    assert_eq!(recs.power.quantity_fp, 960_000); // 9,600 MWh
    assert!(matches!(recs.power.side, Side::Bid)); // sell power
    assert_eq!(recs.gas.quantity_fp, 1_920_000); // 19,200 MWh
    assert!(matches!(recs.gas.side, Side::Ask)); // buy gas
    assert!((recs.co2.quantity_fp - 387_840i64).abs() <= 10); // 3,878.4 t
    assert!(matches!(recs.co2.side, Side::Ask)); // buy CO2
    assert_eq!(recs.profit_per_mwh_fp, 138_400); // 13.84
    assert_eq!(recs.spread_fp, 638_400); // 63.84
}

#[test]
fn test_scenario_spark_not_profitable() {
    // The same plant at a spread below target gives no recommendation,
    // though the average-spread tracker still advances.
    let mut hedge = SparkSpreadHedge::new(40_000, 20_000, 2_020, 500_000);

    let mut power_book = OrderBook::new(1);
    let mut gas_book = OrderBook::new(2);
    let mut co2_book = OrderBook::new(3);
    power_book.update_bid(0, 500_000, 500, 1); // 50: spread 13.84 < 50
    gas_book.update_ask(0, 400_000, 500, 1);
    co2_book.update_ask(0, 800_000, 500, 1);

    let avg_before = hedge.avg_spread_fp;
    let recs = hedge.get_recommendations(&power_book, &gas_book, &co2_book, 24);
    assert!(recs.is_none());
    assert!(hedge.avg_spread_fp != avg_before);
}
