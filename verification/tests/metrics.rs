use hurley::perf::metrics::{LatencyLevels, MetricsCollector, Milli, PerfMetrics};
use std::time::{Duration, Instant};

fn as_float(value: Milli) -> f64 {
    value.thousandths as f64 / 1000.0
}

#[test]
fn test_new_collector() {
    let collector = MetricsCollector::new();
    let metrics = collector.compute_metrics();
    assert_eq!(metrics.total_requests, 0);
}

#[test]
fn test_record_success() {
    let mut collector = MetricsCollector::new();
    collector.record_success(Duration::from_millis(100));
    collector.record_success(Duration::from_millis(200));
    let metrics = collector.compute_metrics();
    assert_eq!(metrics.successful_requests, 2);
    assert_eq!(metrics.failed_requests, 0);
}

#[test]
fn test_record_failure() {
    let mut collector = MetricsCollector::new();
    collector.record_failure(Duration::from_millis(100));
    let metrics = collector.compute_metrics();
    assert_eq!(metrics.failed_requests, 1);
}

#[test]
fn test_error_rate() {
    let mut collector = MetricsCollector::new();
    collector.record_success(Duration::from_millis(100));
    collector.record_failure(Duration::from_millis(100));
    let metrics = collector.compute_metrics();
    assert!((as_float(metrics.error_rate_percent) - 50.0).abs() < 0.01);
}

#[test]
fn test_latency_percentiles() {
    let mut collector = MetricsCollector::new();
    for i in 1..=100 {
        collector.record_success(Duration::from_millis(i));
    }
    let metrics = collector.compute_metrics();
    assert!(as_float(metrics.latency_p50_ms) >= 49.0 && as_float(metrics.latency_p50_ms) <= 51.0);
    assert!(as_float(metrics.latency_p99_ms) >= 98.0);
}

#[test]
fn test_metrics_fields() {
    let metrics = PerfMetrics {
        total_requests: 100,
        successful_requests: 95,
        failed_requests: 5,
        total_duration_ms: Milli { thousandths: 1_000_000 },
        latency_min_ms: Milli { thousandths: 10_000 },
        latency_max_ms: Milli { thousandths: 100_000 },
        latency_avg_ms: Milli { thousandths: 50_000 },
        latency_p50_ms: Milli { thousandths: 45_000 },
        latency_p95_ms: Milli { thousandths: 90_000 },
        latency_p99_ms: Milli { thousandths: 98_000 },
        requests_per_second: Milli { thousandths: 100_000 },
        error_rate_percent: Milli { thousandths: 5_000 },
    };
    assert_eq!(metrics.total_requests, 100);
    assert_eq!(metrics.failed_requests, 5);
    assert!((as_float(metrics.error_rate_percent) - 5.0).abs() < 0.01);
}

fn levels(value: u64) -> LatencyLevels {
    LatencyLevels { min: value, max: value, mean: value, p50: value, p95: value, p99: value }
}

#[test]
fn an_empty_collector_reports_zeros() {
    let metrics = MetricsCollector::default().compute_metrics();
    assert_eq!(metrics.total_requests, 0);
    assert_eq!(metrics.successful_requests, 0);
    assert_eq!(metrics.failed_requests, 0);
    assert_eq!(metrics.total_duration_ms.thousandths, 0);
    assert_eq!(metrics.latency_min_ms.thousandths, 0);
    assert_eq!(metrics.latency_max_ms.thousandths, 0);
    assert_eq!(metrics.latency_avg_ms.thousandths, 0);
    assert_eq!(metrics.latency_p50_ms.thousandths, 0);
    assert_eq!(metrics.latency_p95_ms.thousandths, 0);
    assert_eq!(metrics.latency_p99_ms.thousandths, 0);
    assert_eq!(metrics.requests_per_second.thousandths, 0);
    assert_eq!(metrics.error_rate_percent.thousandths, 0);
}

#[test]
fn the_error_rate_is_a_hundred_times_the_share_of_failures() {
    let rate = |successful, failed| {
        PerfMetrics::compute(successful, failed, 1, levels(0)).error_rate_percent.thousandths
    };
    assert_eq!(rate(0, 0), 0);
    assert_eq!(rate(7, 0), 0);
    assert_eq!(rate(0, 7), 100_000);
    assert_eq!(rate(1, 1), 50_000);
    assert_eq!(rate(95, 5), 5_000);
    assert_eq!(rate(2, 1), 33_333);
    assert_eq!(rate(1, 2), 66_666);
    assert_eq!(rate(999, 1), 100);
}

#[test]
fn the_throughput_is_requests_per_second_and_zero_without_duration() {
    let throughput = |total: usize, nanos: u128| {
        PerfMetrics::compute(total, 0, nanos, levels(0)).requests_per_second.thousandths
    };
    assert_eq!(throughput(10, 0), 0);
    assert_eq!(throughput(0, 0), 0);
    assert_eq!(throughput(0, 1_000_000_000), 0);
    assert_eq!(throughput(100, 1_000_000_000), 100_000);
    assert_eq!(throughput(10, 2_000_000_000), 5_000);
    assert_eq!(throughput(1, 3_000_000_000), 333);
    assert_eq!(throughput(3, 1_000_000), 3_000_000);
}

#[test]
fn the_snapshot_holds_latencies_and_duration_in_thousandths_of_a_millisecond() {
    let given = LatencyLevels { min: 1, max: 60_000_000, mean: 2_500, p50: 1_500, p95: 9_999, p99: 10_000 };
    let metrics = PerfMetrics::compute(3, 1, 1_234_567_899, given);
    assert_eq!(metrics.total_requests, 4);
    assert_eq!(metrics.successful_requests, 3);
    assert_eq!(metrics.failed_requests, 1);
    assert_eq!(metrics.total_duration_ms.thousandths, 1_234_567);
    assert_eq!(metrics.latency_min_ms.thousandths, 1);
    assert_eq!(metrics.latency_max_ms.thousandths, 60_000_000);
    assert_eq!(metrics.latency_avg_ms.thousandths, 2_500);
    assert_eq!(metrics.latency_p50_ms.thousandths, 1_500);
    assert_eq!(metrics.latency_p95_ms.thousandths, 9_999);
    assert_eq!(metrics.latency_p99_ms.thousandths, 10_000);
    assert_eq!(metrics.error_rate_percent.thousandths, 25_000);
    assert_eq!(metrics.requests_per_second.thousandths, 4_000_000_000_000 / 1_234_567_899);
}

#[test]
fn the_duration_of_the_run_is_the_time_from_start_to_finish() {
    let begin = Instant::now();
    let mut collector = MetricsCollector::new();
    assert_eq!(collector.elapsed(), 0);
    collector.start_at(begin);
    assert_eq!(collector.elapsed(), 0);
    collector.record_success(Duration::from_millis(5));
    collector.record_success(Duration::from_millis(5));
    collector.record_failure(Duration::from_millis(5));
    collector.finish_at(begin + Duration::from_millis(1500));
    assert_eq!(collector.elapsed(), 1_500_000_000);
    let metrics = collector.compute_metrics();
    assert_eq!(metrics.total_duration_ms.thousandths, 1_500_000);
    assert_eq!(metrics.requests_per_second.thousandths, 2_000);
    assert_eq!(metrics.error_rate_percent.thousandths, 33_333);
}

#[test]
fn a_finish_before_the_start_counts_as_no_time() {
    let begin = Instant::now();
    let mut collector = MetricsCollector::new();
    collector.start_at(begin + Duration::from_secs(1));
    collector.record_success(Duration::from_millis(5));
    collector.finish_at(begin);
    let metrics = collector.compute_metrics();
    assert_eq!(metrics.total_duration_ms.thousandths, 0);
    assert_eq!(metrics.requests_per_second.thousandths, 0);
}

#[test]
fn start_and_finish_read_the_clock() {
    let mut collector = MetricsCollector::new();
    collector.start();
    collector.record_success(Duration::from_millis(1));
    let before = Instant::now();
    while before.elapsed() < Duration::from_millis(2) {}
    collector.finish();
    let metrics = collector.compute_metrics();
    assert!(metrics.total_duration_ms.thousandths >= 2_000);
    assert!(metrics.requests_per_second.thousandths > 0);
    assert!(metrics.requests_per_second.thousandths <= 500_000);
}

#[test]
fn latencies_are_recorded_in_whole_microseconds() {
    let mut collector = MetricsCollector::new();
    collector.record_success(Duration::from_nanos(1_234_999));
    let metrics = collector.compute_metrics();
    assert_eq!(metrics.latency_min_ms.thousandths, 1_234);
    assert_eq!(metrics.latency_max_ms.thousandths, 1_234);
    assert_eq!(metrics.latency_p50_ms.thousandths, 1_234);
    assert_eq!(metrics.latency_avg_ms.thousandths, 1_234);
}

#[test]
fn a_latency_beyond_a_minute_is_recorded_as_a_minute() {
    let mut collector = MetricsCollector::new();
    collector.record_success(Duration::from_secs(120));
    collector.record_failure(Duration::from_secs(u64::MAX));
    collector.record_success(Duration::from_millis(10));
    let metrics = collector.compute_metrics();
    assert_eq!(metrics.total_requests, 3);
    assert_eq!(metrics.successful_requests, 2);
    assert_eq!(metrics.failed_requests, 1);
    assert_eq!(metrics.latency_min_ms.thousandths, 10_000);
    let one_minute = 60_000_000f64;
    let max = metrics.latency_max_ms.thousandths as f64;
    assert!(max >= one_minute && max <= one_minute * 1.001);
    assert_eq!(metrics.latency_p99_ms.thousandths, metrics.latency_max_ms.thousandths);
}

#[test]
fn the_latency_levels_are_in_order() {
    let mut collector = MetricsCollector::new();
    let latencies = [3u64, 70_000, 1, 250, 59_999, 12, 12, 800, 4_000, 61_000, 0, 33];
    for (i, millis) in latencies.iter().enumerate() {
        if i % 3 == 0 {
            collector.record_failure(Duration::from_millis(*millis));
        } else {
            collector.record_success(Duration::from_millis(*millis));
        }
        let metrics = collector.compute_metrics();
        assert!(metrics.latency_min_ms.thousandths <= metrics.latency_p50_ms.thousandths);
        assert!(metrics.latency_p50_ms.thousandths <= metrics.latency_p95_ms.thousandths);
        assert!(metrics.latency_p95_ms.thousandths <= metrics.latency_p99_ms.thousandths);
        assert!(metrics.latency_p99_ms.thousandths <= metrics.latency_max_ms.thousandths);
        assert_eq!(metrics.total_requests, i + 1);
    }
    let metrics = collector.compute_metrics();
    assert_eq!(metrics.latency_min_ms.thousandths, 0);
    assert_eq!(metrics.failed_requests, 4);
}

#[test]
fn computing_the_statistics_twice_gives_the_same() {
    let mut collector = MetricsCollector::new();
    let begin = Instant::now();
    collector.start_at(begin);
    for millis in [5u64, 10, 15, 2_000] {
        collector.record_success(Duration::from_millis(millis));
    }
    collector.record_failure(Duration::from_millis(1));
    collector.finish_at(begin + Duration::from_secs(3));
    let first = collector.compute_metrics();
    let second = collector.compute_metrics();
    assert_eq!(format!("{:?}", first), format!("{:?}", second));
    assert_eq!(first.total_requests, 5);
    assert_eq!(first.error_rate_percent.thousandths, 20_000);
    assert_eq!(first.requests_per_second.thousandths, 1_666);
}
