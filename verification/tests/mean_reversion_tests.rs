//! Mean-reversion strategy tests.  Prices, means, deviations, z-scores and
//! factors all carry scale 10^4.

use hedging_engine::mean_reversion::MeanReversionHedge;

#[test]
fn test_mean_reversion_basic() {
    let mut strategy = MeanReversionHedge::new(100, 2_000, 20_000, 7_000);

    // Prices around a mean of 45.0: 45.0 + (i % 10) * 0.5.
    for i in 0..50i64 {
        strategy.add_price(450_000 + (i % 10) * 5_000);
    }

    let stats = strategy.calculate_statistics();
    assert!(stats.is_some());

    let (mean, std) = stats.unwrap();
    assert!((mean - 470_000i64).abs() < 30_000);
    assert!(std > 0);
}

#[test]
fn test_z_score_calculation() {
    let mut strategy = MeanReversionHedge::new(100, 2_000, 20_000, 7_000);

    // A constant window at 45.0.
    for _ in 0..50 {
        strategy.add_price(450_000);
    }

    strategy.calculate_statistics();

    // The price at the mean has a z-score of exactly 0.
    let z = strategy.calculate_z_score(450_000);
    assert_eq!(z, 0);
}

#[test]
fn test_hedge_adjustment() {
    let mut strategy = MeanReversionHedge::new(100, 2_000, 20_000, 10_000);

    // Prices with mean 45.0: 43.0 + (i % 5).
    for i in 0..50i64 {
        strategy.add_price(430_000 + (i % 5) * 10_000);
    }

    strategy.calculate_statistics();

    // A price far from the mean (a high z-score) reduces the hedge.
    let adjustment = strategy.should_adjust_hedge(550_000);
    assert!(adjustment.is_some());

    let adj = adjustment.unwrap();
    assert!(adj < 10_000); // less than the full hedge
}

#[test]
fn test_half_life() {
    let strategy = MeanReversionHedge::new(100, 2_000, 20_000, 10_000);

    // kappa = 0.20 gives a half-life of ln(2)/0.20 = 3.47 days.
    let half_life = strategy.half_life_days().unwrap();
    assert!((half_life - 34_700i64).abs() < 1_000);
    assert_eq!(half_life, 34_657); // ln(2) * 10^8 / 2000, truncated
}

#[test]
fn test_half_life_infinite_when_no_reversion() {
    let strategy = MeanReversionHedge::new(100, 0, 20_000, 10_000);
    assert!(strategy.half_life_days().is_none());
    assert!(strategy.get_statistics().half_life_days_fp.is_none());
}

#[test]
fn test_constant_window_full_hedge() {
    // A constant-price window: z-score 0 at that price and the full-hedge
    // factor 1.0 exactly.
    let mut strategy = MeanReversionHedge::new(100, 2_000, 20_000, 7_000);
    for _ in 0..40 {
        strategy.add_price(450_000);
    }
    let (mean, std) = strategy.calculate_statistics().unwrap();
    assert_eq!(mean, 450_000);
    assert_eq!(std, 0);
    assert_eq!(strategy.calculate_z_score(450_000), 0);
    assert_eq!(strategy.should_adjust_hedge(450_000), Some(10_000));
}

#[test]
fn test_adjustment_bands() {
    // Mean 45.0, standard deviation exactly 1.0: prices alternate 44 / 46.
    let mut strategy = MeanReversionHedge::new(100, 2_000, 20_000, 10_000);
    for i in 0..40i64 {
        strategy.add_price(if i % 2 == 0 { 440_000 } else { 460_000 });
    }
    let (mean, std) = strategy.calculate_statistics().unwrap();
    assert_eq!(mean, 450_000);
    // Sample std of +-1.0 deviations is a shade over 1.0.
    assert!((std - 10_000i64).abs() < 200);

    // |z| <= threshold (2.0): full hedge.
    assert_eq!(strategy.should_adjust_hedge(460_000), Some(10_000));
    // threshold < |z| <= 2.0 is empty here (threshold is 2.0).
    // 2.0 < |z| <= 3.0: factor 0.5.
    let adj_mid = strategy.should_adjust_hedge(475_000).unwrap();
    assert_eq!(adj_mid, 5_000);
    // |z| > 3.0: factor 0.3.
    let adj_far = strategy.should_adjust_hedge(500_000).unwrap();
    assert_eq!(adj_far, 3_000);
}

#[test]
fn test_statistics_require_thirty_prices() {
    let mut strategy = MeanReversionHedge::new(100, 2_000, 20_000, 7_000);
    for _ in 0..29 {
        strategy.add_price(450_000);
    }
    assert!(strategy.calculate_statistics().is_none());
    strategy.add_price(450_000);
    assert!(strategy.calculate_statistics().is_some());
}

#[test]
fn test_window_slides() {
    let mut strategy = MeanReversionHedge::new(5, 2_000, 20_000, 7_000);
    for i in 0..8i64 {
        strategy.add_price(400_000 + i * 10_000);
    }
    assert_eq!(strategy.price_history.len(), 5);
    assert_eq!(*strategy.price_history.front().unwrap(), 430_000);
    assert_eq!(*strategy.price_history.back().unwrap(), 470_000);
}
