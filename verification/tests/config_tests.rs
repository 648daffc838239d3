//! Configuration validation, error variants and the strategy combinator.

use hedging_engine::config::HedgeConfig;
use hedging_engine::network::DpdkConfig;
use hedging_engine::network::DpdkPort;
use hedging_engine::network::NetworkConfig;
use hedging_engine::strategy::combine_weighted;
use hedging_engine::Error;

#[test]
fn test_config_default_is_valid() {
    let config = HedgeConfig::default();
    assert!(config.validate().is_ok());
    assert_eq!(config.default_hedge_ratio_fp, 10_000);
    assert_eq!(config.rehedge_threshold_bps, 500);
    assert_eq!(config.statistics_window_hours, 720);
    assert!(config.enable_mvhr);
    assert!(!config.enable_mean_reversion);
}

#[test]
fn test_config_rejects_bad_ratio() {
    let config = HedgeConfig { default_hedge_ratio_fp: 0, ..Default::default() };
    let err = config.validate().unwrap_err();
    assert!(matches!(err, Error::Config(_)));
    assert!(err.message().contains("ratio"));
}

#[test]
fn test_config_rejects_negative_threshold() {
    let config = HedgeConfig { rehedge_threshold_bps: -1, ..Default::default() };
    let err = config.validate().unwrap_err();
    assert!(matches!(err, Error::Config(_)));
    assert!(err.message().contains("threshold"));
}

#[test]
fn test_config_rejects_bad_max_position() {
    let config = HedgeConfig { max_position_fp: 0, ..Default::default() };
    let err = config.validate().unwrap_err();
    assert!(matches!(err, Error::Config(_)));
    assert!(err.message().contains("position"));
}

#[test]
fn test_config_accepts_zero_window() {
    // A zero statistics window is allowed: the overlays simply never
    // accumulate observations.
    let config = HedgeConfig { statistics_window_hours: 0, ..Default::default() };
    assert!(config.validate().is_ok());
}

#[test]
fn test_config_rejects_oversized_window() {
    let config = HedgeConfig { statistics_window_hours: 1_000_000, ..Default::default() };
    assert!(config.validate().is_err());
}

#[test]
fn test_composite_strategy() {
    // Two strategies at weight 1.0 recommending 100 and 200 combine to
    // their average, 150.
    let quantities: Vec<i64> = vec![10_000, 20_000];
    let weights: Vec<i64> = vec![10_000, 10_000];

    let avg = combine_weighted(&quantities, &weights);
    assert_eq!(avg, Some(15_000));
}

#[test]
fn test_combine_weighted_respects_weights() {
    // Weights 3:1 pull the average toward the heavier strategy.
    let quantities: Vec<i64> = vec![10_000, 20_000];
    let weights: Vec<i64> = vec![30_000, 10_000];
    assert_eq!(combine_weighted(&quantities, &weights), Some(12_500));
}

#[test]
fn test_combine_weighted_empty() {
    let quantities: Vec<i64> = vec![];
    let weights: Vec<i64> = vec![];
    assert_eq!(combine_weighted(&quantities, &weights), None);

    let quantities: Vec<i64> = vec![10_000];
    let weights: Vec<i64> = vec![0];
    assert_eq!(combine_weighted(&quantities, &weights), None);
}

#[test]
fn test_network_config_default() {
    let config = NetworkConfig::default();
    assert_eq!(config.host, "localhost");
    assert_eq!(config.port, 5555);
    assert!(!config.use_dpdk);
    assert_eq!(config.buffer_size, 4096);
}

#[test]
fn test_dpdk_port_placeholder() {
    let config = DpdkConfig::default();
    assert_eq!(config.rx_queues, 1);
    assert_eq!(config.mbuf_pool_size, 8192);

    let mut port = DpdkPort::new(config).unwrap();
    assert!(!port.initialized);
    assert_eq!(port.rx_burst(32).unwrap().len(), 0);
    let packets: Vec<Vec<u8>> = vec![vec![1, 2, 3]];
    assert_eq!(port.tx_burst(&packets).unwrap(), 0);
}
