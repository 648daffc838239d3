//! MVHR strategy tests.  Prices carry scale 10^4; the ratio and the
//! correlation scale 10^4; volatilities of returns scale 10^8.

use hedging_engine::mvhr::MVHRStatistics;
use hedging_engine::mvhr::MVHRStrategy;

#[test]
fn mvhr_test_mvhr_calculation() {
    let mut mvhr = MVHRStrategy::new(100, 1);

    // Correlated observations: spot 45 + 0.1i, futures 50 + 0.12i.
    for i in 0..50i64 {
        let spot = 450_000 + i * 1_000;
        let futures = 500_000 + i * 1_200;
        mvhr.add_observation(spot, futures);
    }

    let ratio = mvhr.calculate_optimal_ratio();
    assert!(ratio.is_some(), "Should calculate ratio with 50+ observations");

    let ratio = ratio.unwrap();

    // The ratio should be reasonable (0.3 to 1.5).
    assert!(ratio > 3_000 && ratio < 15_000, "Ratio should be between 0.3-1.5, got {}", ratio);

    // The cached value matches the calculated one.
    let cached = mvhr.get_hedge_ratio();
    assert_eq!(cached, ratio, "Cached ratio should match calculated, got {} vs {}", cached, ratio);

    // Verify the statistics.
    let stats = mvhr.get_statistics();
    assert!(stats.is_some(), "Should have statistics");

    let stats: MVHRStatistics = stats.unwrap();
    assert_eq!(stats.observations, 50);
    assert!(stats.correlation_fp > 9_000, "Correlation should be high (>0.9), got {}", stats.correlation_fp);
    assert!(stats.spot_volatility_fp > 0);
    assert!(stats.futures_volatility_fp > 0);
}

#[test]
fn test_mvhr_window_size() {
    let mut mvhr = MVHRStrategy::new(10, 1);

    for i in 0..20i64 {
        let spot = 450_000 + i * 1_000;
        let futures = 500_000 + i * 1_200;
        mvhr.add_observation(spot, futures);
    }

    assert_eq!(mvhr.spot_prices.len(), 10);
    assert_eq!(mvhr.futures_prices.len(), 10);

    let last_spot = *mvhr.spot_prices.back().unwrap();
    let expected_last_spot = 450_000 + 19 * 1_000;
    assert_eq!(last_spot, expected_last_spot);
}

#[test]
fn test_mvhr_insufficient_data() {
    let mut mvhr = MVHRStrategy::new(100, 1);

    // No data.
    assert!(mvhr.calculate_optimal_ratio().is_none());

    mvhr.add_observation(450_000, 500_000);
    assert!(mvhr.calculate_optimal_ratio().is_none());

    mvhr.add_observation(460_000, 510_000);
    assert!(mvhr.calculate_optimal_ratio().is_none());

    let base_spot: i64 = 450_000;
    let base_futures: i64 = 500_000;

    for i in 0..10i64 {
        let spot = base_spot + i * 5_000 + (i % 3) * 3_000;
        let futures = base_futures + i * 6_000 + (i % 3) * 3_500;
        mvhr.add_observation(spot, futures);
    }

    let ratio = mvhr.calculate_optimal_ratio();
    assert!(ratio.is_some(), "Should calculate ratio with sufficient diverse data");
}

#[test]
fn test_mvhr_negative_correlation() {
    let mut mvhr = MVHRStrategy::new(100, 1);

    // Perfect negative correlation: spot up, futures down.
    let mut spot: i64 = 500_000;
    let mut futures: i64 = 500_000;

    for i in 0..50 {
        mvhr.add_observation(spot, futures);

        // Alternate magnitudes of the opposite moves.
        if i % 2 == 0 {
            spot = spot * 105 / 100; // +5%
            futures = futures * 95 / 100; // -5%
        } else {
            spot = spot * 103 / 100; // +3%
            futures = futures * 97 / 100; // -3%
        }
    }

    let ratio = mvhr.calculate_optimal_ratio();
    assert!(ratio.is_some(), "Should calculate ratio");

    let ratio = ratio.unwrap();
    assert!(ratio < 0, "Negative correlation must give negative ratio, got {}", ratio);

    let stats = mvhr.get_statistics().unwrap();
    assert!(stats.correlation_fp < 0, "Correlation must be negative, got {}", stats.correlation_fp);
}

#[test]
fn test_mvhr_zero_variance() {
    let mut mvhr = MVHRStrategy::new(100, 1);

    // Flat futures: zero variance on the futures side.
    for i in 0..50i64 {
        let spot = 450_000 + i * 1_000;
        let futures = 500_000;
        mvhr.add_observation(spot, futures);
    }

    let ratio = mvhr.calculate_optimal_ratio();
    assert!(ratio.is_none());
}

#[test]
fn test_mvhr_recalculation_interval() {
    let mut mvhr = MVHRStrategy::new(100, 1);

    for i in 0..50i64 {
        mvhr.add_observation(450_000 + i * 1_000, 500_000 + i * 1_200);
    }

    let ratio1 = mvhr.calculate_optimal_ratio();
    assert!(ratio1.is_some());
    assert!(!mvhr.needs_recalculation());
}

#[test]
fn test_mvhr_statistics() {
    let mut mvhr = MVHRStrategy::new(100, 1);

    assert!(mvhr.get_statistics().is_none());

    mvhr.add_observation(450_000, 500_000);
    assert!(mvhr.get_statistics().is_none());

    for i in 1..50i64 {
        mvhr.add_observation(450_000 + i * 1_000, 500_000 + i * 1_200);
    }

    mvhr.calculate_optimal_ratio();

    let stats = mvhr.get_statistics();
    assert!(stats.is_some());

    let stats = stats.unwrap();
    assert!(stats.hedge_ratio_fp > 0 && stats.hedge_ratio_fp < 20_000);
    assert!(stats.correlation_fp >= -10_000 && stats.correlation_fp <= 10_000);
    assert_eq!(stats.observations, 50);
    assert!(stats.spot_volatility_fp > 0);
    assert!(stats.futures_volatility_fp > 0);
}

#[test]
fn test_mvhr_perfect_correlation() {
    let mut mvhr = MVHRStrategy::new(100, 1);

    for i in 0..50i64 {
        let spot = 450_000 + i * 5_000;
        let futures = 500_000 + i * 6_000;
        mvhr.add_observation(spot, futures);
    }

    mvhr.calculate_optimal_ratio();
    let stats = mvhr.get_statistics().unwrap();

    assert!(stats.correlation_fp > 9_500, "Expected high correlation, got {}", stats.correlation_fp);
}

#[test]
fn integration_tests_test_mvhr_calculation() {
    let mut mvhr = MVHRStrategy::new(100, 1);

    for i in 0..50i64 {
        let spot = 450_000 + i * 1_000;
        let futures = 500_000 + i * 1_200;
        mvhr.add_observation(spot, futures);
    }

    let ratio = mvhr.calculate_optimal_ratio();
    assert!(ratio.is_some());

    let ratio = ratio.unwrap();

    // With near-perfect correlation, the ratio lands between 0.5 and 2.0.
    assert!(ratio > 5_000 && ratio < 20_000);

    let cached = mvhr.get_hedge_ratio();
    assert_eq!(cached, ratio);
}

#[test]
fn test_mvhr_ratio_sanity_clamp() {
    let mut mvhr = MVHRStrategy::new(100, 1);

    // Spot swings ten times as hard as futures, in step: the ratio
    // cov/var_f lands near 10, outside the +-5 clamp.
    let mut spot: i64 = 500_000;
    let mut futures: i64 = 500_000;
    for i in 0..30 {
        mvhr.add_observation(spot, futures);
        if i % 2 == 0 {
            spot = spot * 140 / 100;
            futures = futures * 104 / 100;
        } else {
            spot = spot * 60 / 100;
            futures = futures * 96 / 100;
        }
    }

    let cached_before = mvhr.get_hedge_ratio();
    let ratio = mvhr.calculate_optimal_ratio();
    assert!(ratio.is_none());
    // A rejected calculation leaves the cache untouched.
    assert_eq!(mvhr.get_hedge_ratio(), cached_before);
}

#[test]
fn test_mvhr_near_zero_variance() {
    let mut mvhr = MVHRStrategy::new(100, 1);

    // Futures wiggle by one fixed-point unit on 50.0: the return variance
    // is positive but far below the degenerate-statistics threshold.
    for i in 0..50i64 {
        let spot = 450_000 + i * 1_000;
        let futures = 500_000 + (i % 2);
        mvhr.add_observation(spot, futures);
    }

    assert!(mvhr.calculate_optimal_ratio().is_none());
}

#[test]
fn test_needs_recalculation_decision() {
    let mut mvhr = MVHRStrategy::new(100, 1); // 1-hour interval

    // Nothing calculated yet: any clock reading past the interval is due.
    assert!(mvhr.needs_recalculation_at(3_600_000_000_001));
    assert!(!mvhr.needs_recalculation_at(3_600_000_000_000));

    // A clock behind the last calculation counts as no elapsed time.
    mvhr.last_calc_ns = 10_000_000_000_000;
    assert!(!mvhr.needs_recalculation_at(9_000_000_000_000));
    assert!(!mvhr.needs_recalculation_at(13_600_000_000_000));
    assert!(mvhr.needs_recalculation_at(13_600_000_000_001));
}

#[test]
fn test_mvhr_rejects_non_positive_prices() {
    let mut mvhr = MVHRStrategy::new(100, 1);
    mvhr.add_observation(0, 500_000);
    for i in 0..10i64 {
        mvhr.add_observation(450_000 + i * 1_000, 500_000 + i * 1_200);
    }
    // A zero price in the window makes the returns degenerate.
    assert!(mvhr.calculate_optimal_ratio().is_none());
    assert!(mvhr.get_statistics().is_none());
}
