//! Engine tests: construction, tick routing, recommendation and execution.

use hedging_engine::clock::get_timestamp_ns;
use hedging_engine::config::HedgeConfig;
use hedging_engine::engine::HedgeEngine;
use hedging_engine::tick::MarketTick;

#[test]
fn test_engine_creation() {
    let config = HedgeConfig::simple(-1_000_000, 11_250);
    let engine = HedgeEngine::new(config);

    assert!(engine.is_ok());

    let engine = engine.unwrap();
    assert_eq!(engine.get_position(), -1_000_000); // -10,000.00
}

#[test]
fn test_engine_tick_processing() {
    let config = HedgeConfig::simple(-1_000_000, 11_250);
    let mut engine = HedgeEngine::new(config).unwrap();

    // A spot tick.
    let tick = MarketTick::bid(get_timestamp_ns(), 455_000, 100, 1);
    engine.on_tick(tick);

    // A futures tick.
    let tick = MarketTick::ask(get_timestamp_ns(), 501_500, 120, 2);
    engine.on_tick(tick);

    // Both books are updated.
    let (spot_bid, _) = engine.spot_orderbook().best_bid();
    assert_eq!(spot_bid, 455_000); // 45.50

    let (futures_ask, _) = engine.futures_orderbook().best_ask();
    assert_eq!(futures_ask, 501_500); // 50.15
}

#[test]
fn test_hedge_recommendation() {
    let config = HedgeConfig::simple(-1_000_000, 11_250);
    let mut engine = HedgeEngine::new(config).unwrap();

    let spot_tick = MarketTick::bid(get_timestamp_ns(), 455_000, 100, 1);
    engine.on_tick(spot_tick);

    let futures_tick = MarketTick::ask(get_timestamp_ns(), 501_500, 120, 2);
    engine.on_tick(futures_tick);

    let rec = engine.get_hedge_recommendation().unwrap();
    assert!(rec.is_some());

    let rec = rec.unwrap();
    // Should recommend ~11,250 MWh.
    assert!((rec.quantity_fp - 1_125_000i64).abs() < 10_000);
}

#[test]
fn test_full_hedging_workflow() {
    let config = HedgeConfig::simple(-1_000_000, 11_250);
    let mut engine = HedgeEngine::new(config).unwrap();

    let ts = get_timestamp_ns();

    engine.on_tick(MarketTick::bid(ts, 482_000, 150, 1)); // spot 48.20
    engine.on_tick(MarketTick::ask(ts, 482_500, 130, 1)); // spot 48.25
    engine.on_tick(MarketTick::bid(ts, 501_000, 120, 2)); // futures 50.10
    engine.on_tick(MarketTick::ask(ts, 501_500, 140, 2)); // futures 50.15

    let rec = engine.get_hedge_recommendation().unwrap();
    assert!(rec.is_some());

    let rec = rec.unwrap();

    // Should recommend ~11,250 MWh.
    assert!((rec.quantity_fp - 1_125_000i64).abs() < 20_000);

    engine.execute_hedge(&rec).unwrap();

    let hedge_pos = engine.get_hedge_position();
    assert!(hedge_pos.abs() > 0);
}

#[test]
fn test_mean_reversion_strategy() {
    let config = HedgeConfig {
        initial_position_fp: -1_000_000,
        default_hedge_ratio_fp: 11_250,
        enable_mvhr: false,
        enable_mean_reversion: true,
        statistics_window_hours: 100,
        ..Default::default()
    };

    let mut engine = HedgeEngine::new(config).unwrap();

    // Oscillating spot prices around a mean of about 45.0.
    let prices: Vec<i64> = vec![
        450_000, 445_000, 455_000, 440_000, 460_000, 435_000, 465_000, 430_000, 470_000, 425_000,
        450_000, 445_000, 455_000, 440_000, 460_000, 435_000, 465_000, 430_000, 470_000, 425_000,
        450_000, 445_000, 455_000, 440_000, 460_000, 435_000, 465_000, 430_000, 470_000, 425_000,
    ];

    for &price in prices.iter() {
        let ts = get_timestamp_ns();
        engine.on_tick(MarketTick::bid(ts, price, 100, 1));
    }

    // Futures ticks too.
    for _ in 0..30 {
        let ts = get_timestamp_ns();
        engine.on_tick(MarketTick::ask(ts, 500_000, 100, 2));
    }

    // A recommendation can be requested without upsetting the engine.
    let rec = engine.get_hedge_recommendation().unwrap();
    println!("Mean reversion test: recommendation = {:?}", rec.is_some());

    assert_eq!(engine.get_position(), -1_000_000);
}

#[test]
fn test_hedge_with_all_strategies() {
    let config = HedgeConfig {
        initial_position_fp: -1_000_000,
        default_hedge_ratio_fp: 11_250,
        enable_mvhr: true,
        enable_mean_reversion: true,
        ..Default::default()
    };

    let mut engine = HedgeEngine::new(config).unwrap();

    // Many ticks to build up statistics.
    for i in 0..100i64 {
        let ts = get_timestamp_ns();
        let spot = 450_000 + (i % 20) * 1_000;
        let futures = 500_000 + (i % 18) * 1_200;

        engine.on_tick(MarketTick::bid(ts, spot, 100, 1));
        engine.on_tick(MarketTick::ask(ts, futures, 100, 2));
    }

    let rec = engine.get_hedge_recommendation().unwrap();
    assert!(rec.is_some());
}

#[test]
fn test_metrics_collection() {
    let config = HedgeConfig::simple(-1_000_000, 11_250);
    let mut engine = HedgeEngine::new(config).unwrap();

    for i in 0..100u64 {
        let tick = MarketTick::bid(i, 450_000, 100, 1);
        engine.on_tick(tick);
    }

    let summary = engine.get_metrics().summary();

    assert_eq!(summary.ticks_processed, 100);
    assert!(summary.min_latency_ns < u64::MAX);
    assert!(summary.p50_latency_ns > 0);
    assert!(summary.p99_latency_ns >= summary.p50_latency_ns);
}

#[test]
fn test_position_limits() {
    let config = HedgeConfig {
        initial_position_fp: -1_000_000,
        max_position_fp: 5_000_000,
        ..Default::default()
    };

    let engine = HedgeEngine::new(config).unwrap();

    // The position stays within the configured limit.
    assert!(engine.get_position().abs() <= 5_000_000);
}

#[test]
fn test_error_handling() {
    // An invalid configuration must be rejected.
    let config = HedgeConfig {
        default_hedge_ratio_fp: -10_000, // invalid!
        ..Default::default()
    };

    let result = HedgeEngine::new(config);
    assert!(result.is_err());
}

#[test]
fn test_hedge_reduces_net_exposure() {
    let config = HedgeConfig::simple(-1_000_000, 11_250);
    let mut engine = HedgeEngine::new(config).unwrap();

    let ts = get_timestamp_ns();
    engine.on_tick(MarketTick::bid(ts, 480_000, 150, 1)); // spot 48.0
    engine.on_tick(MarketTick::ask(ts, 500_000, 140, 2)); // futures 50.0

    // Before the hedge the net equals the physical position.
    let net_before = engine.get_position() + engine.get_hedge_position();
    assert_eq!(net_before, -1_000_000, "Before hedge, net = physical position");

    let rec = engine.get_hedge_recommendation().unwrap().unwrap();
    engine.execute_hedge(&rec).unwrap();

    let physical = engine.get_position();
    let hedge = engine.get_hedge_position();
    let net_after = physical + hedge;

    println!("Physical: {} MWh (x100)", physical);
    println!("Hedge:    {} MWh (x100)", hedge);
    println!("Net:      {} MWh (x100)", net_after);

    // The hedge runs opposite to the physical position.
    assert!(physical < 0, "Physical should be SHORT (negative)");
    assert!(hedge > 0, "Hedge should be LONG (positive)");

    // And the net exposure is greatly reduced.
    assert!(net_after.abs() < 200_000, "Net exposure should be < 2,000 MWh, got {}", net_after);

    let reduction = (net_before.abs() - net_after.abs()) * 100 / net_before.abs();
    assert!(reduction > 80, "Hedge should reduce exposure by >80%, got {}%", reduction);
}

#[test]
fn test_zero_window_engine_works() {
    // A zero statistics window builds a working engine: the overlays stay
    // enabled but never accumulate observations.
    let config = HedgeConfig {
        initial_position_fp: -1_000_000,
        default_hedge_ratio_fp: 11_250,
        enable_mvhr: true,
        enable_mean_reversion: true,
        statistics_window_hours: 0,
        ..Default::default()
    };
    let mut engine = HedgeEngine::new(config).unwrap();

    let ts = get_timestamp_ns();
    engine.on_tick(MarketTick::bid(ts, 480_000, 150, 1));
    engine.on_tick(MarketTick::ask(ts, 482_000, 150, 1));
    engine.on_tick(MarketTick::bid(ts, 499_000, 140, 2));
    engine.on_tick(MarketTick::ask(ts, 500_000, 140, 2));

    assert_eq!(engine.mvhr_strategy.as_ref().unwrap().spot_prices.len(), 0);
    assert_eq!(engine.mean_reversion.as_ref().unwrap().price_history.len(), 0);

    // The delta hedge still works.
    let rec = engine.get_hedge_recommendation().unwrap();
    assert!(rec.is_some());
}

#[test]
fn test_unknown_instrument_dropped() {
    let config = HedgeConfig::simple(-1_000_000, 11_250);
    let mut engine = HedgeEngine::new(config).unwrap();

    engine.on_tick(MarketTick::bid(1, 450_000, 100, 9));

    assert_eq!(engine.spot_orderbook().sequence(), 0);
    assert_eq!(engine.futures_orderbook().sequence(), 0);
    // The tick still counts as processed.
    assert_eq!(engine.get_metrics().ticks_processed(), 1);
}
