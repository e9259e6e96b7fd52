use dns_proxy::metrics::{bucket_index, Metrics, Timer};
use std::time::Duration;

#[test]
fn test_metrics_new() {
    let metrics = Metrics::new();
    assert_eq!(metrics.total_requests, 0);
    assert_eq!(metrics.successful_requests, 0);
    assert_eq!(metrics.failed_requests, 0);
    assert_eq!(metrics.bytes_received, 0);
    assert_eq!(metrics.bytes_sent, 0);
    assert_eq!(metrics.sni_rewrites, 0);
    assert_eq!(metrics.upstream_errors, 0);
}

#[test]
fn test_metrics_default() {
    let metrics = Metrics::default();
    assert_eq!(metrics.total_requests, 0);
}

#[test]
fn test_metrics_record_request_success() {
    let mut metrics = Metrics::new();
    metrics.record_request(true, 100, 200, Duration::from_millis(50));

    assert_eq!(metrics.total_requests, 1);
    assert_eq!(metrics.successful_requests, 1);
    assert_eq!(metrics.failed_requests, 0);
    assert_eq!(metrics.bytes_received, 100);
    assert_eq!(metrics.bytes_sent, 200);
}

#[test]
fn test_metrics_record_request_failure() {
    let mut metrics = Metrics::new();
    metrics.record_request(false, 50, 0, Duration::from_millis(10));

    assert_eq!(metrics.total_requests, 1);
    assert_eq!(metrics.successful_requests, 0);
    assert_eq!(metrics.failed_requests, 1);
    assert_eq!(metrics.bytes_received, 50);
    assert_eq!(metrics.bytes_sent, 0);
}

#[test]
fn test_metrics_record_sni_rewrite() {
    let mut metrics = Metrics::new();
    metrics.record_sni_rewrite();
    metrics.record_sni_rewrite();
    assert_eq!(metrics.sni_rewrites, 2);
}

#[test]
fn test_metrics_record_upstream_error() {
    let mut metrics = Metrics::new();
    metrics.record_upstream_error();
    metrics.record_upstream_error();
    metrics.record_upstream_error();
    assert_eq!(metrics.upstream_errors, 3);
}

#[test]
fn test_timer_start() {
    let timer = Timer::start();
    assert!(timer.elapsed() < Duration::from_secs(1));
}

#[test]
fn test_metrics_processing_time_and_histogram() {
    let mut metrics = Metrics::new();
    metrics.record_request(true, 100, 200, Duration::from_millis(50));
    metrics.record_request(true, 150, 250, Duration::from_millis(30));
    metrics.record_request(false, 50, 0, Duration::from_millis(10));
    assert_eq!(metrics.total_processing_time_us, 90_000);
    assert_eq!(metrics.bytes_received, 300);
    assert_eq!(metrics.bytes_sent, 450);
    // 10 ms falls in the 10 ms bucket, 30 and 50 ms in the 50 ms bucket.
    assert_eq!(metrics.bucket_count(2), 1);
    assert_eq!(metrics.bucket_count(4), 2);
    assert_eq!(metrics.bucket_count(12), 0);
}

#[test]
fn test_bucket_bounds() {
    assert_eq!(bucket_index(0), 0);
    assert_eq!(bucket_index(1), 0);
    assert_eq!(bucket_index(2), 1);
    assert_eq!(bucket_index(10000), 11);
    assert_eq!(bucket_index(10001), 12);
}

#[test]
fn test_counters_saturate() {
    let mut metrics = Metrics::new();
    metrics.successful_requests = u64::MAX;
    metrics.record_request(true, u64::MAX, 1, Duration::from_millis(1));
    metrics.record_request(true, 5, 1, Duration::from_millis(1));
    assert_eq!(metrics.successful_requests, u64::MAX);
    assert_eq!(metrics.bytes_received, u64::MAX);
    assert_eq!(metrics.total_requests, 2);
}

#[test]
fn test_export_prometheus_text() {
    let mut metrics = Metrics::new();
    metrics.record_request(true, 100, 200, Duration::from_millis(50));
    metrics.record_request(false, 50, 0, Duration::from_micros(2_500_250));
    metrics.record_sni_rewrite();
    metrics.record_upstream_error();
    let text = metrics.export_prometheus();
    for name in [
        "dns_proxy_requests_total",
        "dns_proxy_requests_success",
        "dns_proxy_requests_failed",
        "dns_proxy_bytes_received_total",
        "dns_proxy_bytes_sent_total",
        "dns_proxy_sni_rewrites_total",
        "dns_proxy_upstream_errors_total",
        "dns_proxy_processing_time_seconds",
    ] {
        assert!(text.contains(name), "{}", name);
    }
    assert!(text.contains("\ndns_proxy_requests_total 2\n"));
    assert!(text.contains("\ndns_proxy_bytes_received_total 150\n"));
    assert!(text.contains("dns_proxy_processing_time_seconds_bucket{le=\"0.025\"} 0\n"));
    assert!(text.contains("dns_proxy_processing_time_seconds_bucket{le=\"0.05\"} 1\n"));
    assert!(text.contains("dns_proxy_processing_time_seconds_bucket{le=\"1\"} 1\n"));
    assert!(text.contains("dns_proxy_processing_time_seconds_bucket{le=\"2.5\"} 2\n"));
    assert!(text.contains("dns_proxy_processing_time_seconds_bucket{le=\"5\"} 2\n"));
    assert!(text.contains("dns_proxy_processing_time_seconds_bucket{le=\"+Inf\"} 2\n"));
    assert!(text.contains("dns_proxy_processing_time_seconds_sum 2.550250\n"));
    assert!(text.ends_with("dns_proxy_processing_time_seconds_count 2\n"));
}

#[test]
fn test_known_duration_lands_in_its_bucket() {
    let mut metrics = Metrics::new();
    metrics.record_request(true, 0, 0, Duration::from_millis(100));
    assert_eq!(metrics.total_processing_time_us, 100_000);
    assert_eq!(metrics.bucket_count(5), 1);
}
