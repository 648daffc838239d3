//! Metrics tests: counters, aggregates and histogram percentiles.

use hedging_engine::metrics::Metrics;

#[test]
fn test_metrics_basic() {
    let mut metrics = Metrics::new();

    metrics.record_tick_latency(100);
    metrics.record_tick_latency(200);
    metrics.record_tick_latency(150);

    assert_eq!(metrics.ticks_processed(), 3);
    assert_eq!(metrics.avg_tick_latency_ns(), 150);
    assert_eq!(metrics.min_tick_latency_ns(), 100);
    assert_eq!(metrics.max_tick_latency_ns(), 200);
}

#[test]
fn test_metrics_hedge() {
    let mut metrics = Metrics::new();

    metrics.record_hedge_execution(10_000); // 100.0 MWh
    metrics.record_hedge_execution(20_000); // 200.0 MWh

    assert_eq!(metrics.hedges_executed(), 2);
    assert_eq!(metrics.total_hedge_volume(), 30_000); // 300.0 MWh
}

#[test]
fn test_histogram_percentile() {
    let mut metrics = Metrics::new();

    for i in 0..100u64 {
        metrics.record_tick_latency(i * 10);
    }

    let p50 = metrics.latency_percentile(5_000);
    let p95 = metrics.latency_percentile(9_500);

    assert!(p50 > 0);
    assert!(p95 > p50);
}

#[test]
fn test_metrics_volume_accumulates_magnitudes() {
    let mut metrics = Metrics::new();
    metrics.record_hedge_execution(-10_000);
    metrics.record_hedge_execution(5_000);
    assert_eq!(metrics.total_hedge_volume(), 15_000);
}

#[test]
fn test_metrics_empty_reads() {
    let metrics = Metrics::new();
    assert_eq!(metrics.avg_tick_latency_ns(), 0);
    assert_eq!(metrics.min_tick_latency_ns(), 0);
    assert_eq!(metrics.max_tick_latency_ns(), 0);
    assert_eq!(metrics.latency_percentile(9_900), 0);
}

#[test]
fn test_metrics_reset() {
    let mut metrics = Metrics::new();
    metrics.record_tick_latency(500);
    metrics.record_hedge_execution(100);
    metrics.reset();
    assert_eq!(metrics.ticks_processed(), 0);
    assert_eq!(metrics.hedges_executed(), 0);
    assert_eq!(metrics.total_hedge_volume(), 0);
}

#[test]
fn test_metrics_summary() {
    let mut metrics = Metrics::new();
    metrics.record_tick_latency(100);
    metrics.record_tick_latency(300);
    metrics.record_hedge_execution(2_500);

    let summary = metrics.summary();
    assert_eq!(summary.ticks_processed, 2);
    assert_eq!(summary.hedges_executed, 1);
    assert_eq!(summary.avg_latency_ns, 200);
    assert_eq!(summary.min_latency_ns, 100);
    assert_eq!(summary.max_latency_ns, 300);
    assert_eq!(summary.total_hedge_volume_fp, 2_500);
    assert!(summary.p99_latency_ns >= summary.p50_latency_ns);
}

#[test]
fn test_percentile_exact_buckets() {
    let mut metrics = Metrics::new();
    // 10 latencies in the 0-100 ns bucket: every percentile reads the
    // middle of the first bucket.
    for _ in 0..10 {
        metrics.record_tick_latency(50);
    }
    assert_eq!(metrics.latency_percentile(5_000), 50);
    assert_eq!(metrics.latency_percentile(10_000), 50);

    // Add 90 more at 5 us: the median moves to the 5 us boundary.
    for _ in 0..90 {
        metrics.record_tick_latency(4_500);
    }
    assert_eq!(metrics.latency_percentile(5_000), 5_000);
}
