//! Spark-spread strategy tests.  Prices and spreads carry scale 10^4;
//! capacities, volumes and positions scale 10^2.

use hedging_engine::spark_spread::SparkSpreadHedge;

#[test]
fn test_spark_spread_calculation() {
    let hedge = SparkSpreadHedge::new(10_000, 20_000, 2_020, 500_000);

    // Power 100, gas 40, CO2 80:
    // 100 - (40 / 2.0) - (80 * 0.202) = 100 - 20 - 16.16 = 63.84.
    let spread = hedge.calculate_spread(1_000_000, 400_000, 800_000);
    assert_eq!(spread, 638_400);
}

#[test]
fn test_profitability_check() {
    let hedge = SparkSpreadHedge::new(10_000, 20_000, 2_020, 500_000);

    let good_spread = 650_000; // 65.0
    let bad_spread = 450_000; // 45.0

    assert!(hedge.is_profitable(good_spread));
    assert!(!hedge.is_profitable(bad_spread));
}

#[test]
fn test_hedge_volumes() {
    let hedge = SparkSpreadHedge::new(10_000, 20_000, 2_020, 500_000);

    let (power, gas, co2) = hedge.calculate_hedge_volumes(24);

    assert_eq!(power, 240_000); // 100 MW x 24 h = 2400 MWh
    assert_eq!(gas, 480_000); // 2400 x 2.0 = 4800 MWh
    assert_eq!(co2, 96_960); // 4800 x 0.202 = 969.6 tons
}

#[test]
fn test_costs_breakdown() {
    let hedge = SparkSpreadHedge::new(10_000, 20_000, 2_020, 500_000);

    let costs = hedge.calculate_costs_breakdown(400_000, 800_000);

    assert_eq!(costs.gas_cost_per_mwh_fp, 200_000); // 20.0
    assert_eq!(costs.co2_cost_per_mwh_fp, 161_600); // 16.16
    assert_eq!(costs.total_cost_per_mwh_fp, 361_600); // 36.16
}

#[test]
fn test_execute_hedge() {
    let mut hedge = SparkSpreadHedge::new(10_000, 20_000, 2_020, 500_000);

    hedge.execute_hedge(10_000, 20_000, 4_040);

    let positions = hedge.get_positions();

    assert_eq!(positions.power_mw_fp, -10_000); // sold power (negative)
    assert_eq!(positions.gas_mwh_fp, 20_000); // bought gas (positive)
    assert_eq!(positions.co2_tons_fp, 4_040); // bought CO2 (positive)
}

#[test]
fn test_pnl_calculation() {
    let mut hedge = SparkSpreadHedge::new(10_000, 20_000, 2_020, 500_000);

    // Hedge at power 100, gas 40, CO2 80.
    hedge.execute_hedge(10_000, 20_000, 4_040);

    // Mark to market at the same prices:
    // revenue 100 MWh x 100 = 10,000; gas 200 x 40 = 8,000;
    // CO2 40.4 x 80 = 3,232; net -1,232 (the spread costs).
    let pnl = hedge.calculate_pnl(1_000_000, 400_000, 800_000);
    assert_eq!(pnl, -123_200);
    assert!(pnl.abs() < 200_000);
}

#[test]
fn test_real_world_scenario() {
    // A 500 MW combined-cycle plant.
    let hedge = SparkSpreadHedge::new(50_000, 19_000, 2_020, 450_000);

    // Power 95, gas 38, CO2 75:
    // 95 - (38 / 1.9) - (75 * 0.202) = 95 - 20 - 15.15 = 59.85.
    let spread = hedge.calculate_spread(950_000, 380_000, 750_000);
    assert!((spread - 598_500i64).abs() < 5_000);
    assert_eq!(spread, 598_500);
    assert!(hedge.is_profitable(spread));
}

#[test]
fn test_inefficient_plant() {
    // An old open-cycle turbine at 33% efficiency.
    let hedge = SparkSpreadHedge::new(10_000, 30_000, 2_020, 300_000);

    // 80 - (40 / 3.0) - (80 * 0.202) = 80 - 13.33 - 16.16 = 50.51.
    let spread = hedge.calculate_spread(800_000, 400_000, 800_000);
    assert!((spread - 505_100i64).abs() < 5_000);
}

#[test]
fn test_avg_spread_ema() {
    let mut hedge = SparkSpreadHedge::new(10_000, 20_000, 2_020, 500_000);
    assert_eq!(hedge.avg_spread_fp, 500_000);

    // One EMA step with alpha = 0.05: 500000 * 0.95 + 600000 * 0.05.
    hedge.update_avg_spread(600_000);
    assert_eq!(hedge.avg_spread_fp, 505_000);
}
