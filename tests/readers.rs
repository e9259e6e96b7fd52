use dns_proxy::config::AppConfig;
use dns_proxy::metrics::Metrics;
use dns_proxy::readers::healthcheck::{
    route_healthcheck, route_status, snapshot_is_fresh, HealthRoute, HealthcheckServer,
    HEALTHY_BODY,
};
use std::sync::Arc;
use std::time::Duration;

#[test]
fn test_healthcheck_server_new() {
    let config = Arc::new(AppConfig::default());
    let metrics = Arc::new(Metrics::new());
    let _server = HealthcheckServer::new(config, metrics);
}

#[test]
fn test_healthcheck_server_answers_from_snapshot() {
    let mut live = Metrics::new();
    live.record_request(true, 3, 4, Duration::from_millis(2));
    let server = HealthcheckServer::new(Arc::new(AppConfig::default()), Arc::new(live.duplicate()));
    live.record_request(true, 3, 4, Duration::from_millis(2));
    assert_eq!(server.route(true, "/health"), HealthRoute::Healthy);
    assert_eq!(server.route(true, "/metrics"), HealthRoute::MetricsText);
    assert_eq!(server.metrics().total_requests, 1);
    assert!(server.metrics_text().contains("\ndns_proxy_requests_total 1\n"));
    assert!(snapshot_is_fresh(999));
    assert!(!snapshot_is_fresh(1000));
}

#[test]
fn test_healthcheck_routes() {
    assert_eq!(route_healthcheck(true, "/health", "/health"), HealthRoute::Healthy);
    assert_eq!(route_healthcheck(true, "/metrics", "/health"), HealthRoute::MetricsText);
    assert_eq!(route_healthcheck(true, "/stats", "/health"), HealthRoute::MetricsText);
    assert_eq!(route_healthcheck(true, "/metrics/json", "/health"), HealthRoute::MetricsJson);
    assert_eq!(route_healthcheck(true, "/other", "/health"), HealthRoute::NotFound);
    assert_eq!(route_healthcheck(false, "/health", "/health"), HealthRoute::MethodNotAllowed);
    assert_eq!(route_status(&HealthRoute::MethodNotAllowed), 405);
    assert_eq!(route_status(&HealthRoute::NotFound), 404);
    assert_eq!(route_status(&HealthRoute::Healthy), 200);
    assert_eq!(HEALTHY_BODY, "{\"status\":\"healthy\",\"service\":\"dns-proxy\"}");
}
