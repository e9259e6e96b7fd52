//! Routing of the health and metrics endpoint.
use crate::config::AppConfig;
use crate::metrics::{prometheus_text, Metrics};
use crate::text::same_text;
use std::sync::Arc;
use vstd::prelude::*;

verus! {

/// What a health endpoint request asks for.
#[derive(Debug, PartialEq, Eq, Structural)]
pub enum HealthRoute {
    /// Not a GET: 405.
    MethodNotAllowed,
    /// `/metrics` or `/stats`: the Prometheus text.
    MetricsText,
    /// `/metrics/json`: a JSON snapshot.
    MetricsJson,
    /// The configured health path: the health document.
    Healthy,
    /// Anything else: 404.
    NotFound,
}

/// The route for a request with this method and path.
pub open spec fn route_of(is_get: bool, path: Seq<char>, health_path: Seq<char>) -> HealthRoute {
    if !is_get {
        HealthRoute::MethodNotAllowed
    } else if path == "/metrics"@ || path == "/stats"@ {
        HealthRoute::MetricsText
    } else if path == "/metrics/json"@ {
        HealthRoute::MetricsJson
    } else if path == health_path {
        HealthRoute::Healthy
    } else {
        HealthRoute::NotFound
    }
}

/// The route for a request with this method and path.
pub fn route_healthcheck(is_get: bool, path: &str, health_path: &str) -> (r: HealthRoute)
    ensures
        r == route_of(is_get, path@, health_path@),
{
    if !is_get {
        HealthRoute::MethodNotAllowed
    } else if same_text(path, "/metrics") || same_text(path, "/stats") {
        HealthRoute::MetricsText
    } else if same_text(path, "/metrics/json") {
        HealthRoute::MetricsJson
    } else if same_text(path, health_path) {
        HealthRoute::Healthy
    } else {
        HealthRoute::NotFound
    }
}

/// The HTTP status for a route.
pub fn route_status(route: &HealthRoute) -> (r: u16)
    ensures
        r == match *route {
            HealthRoute::MethodNotAllowed => 405u16,
            HealthRoute::NotFound => 404u16,
            _ => 200u16,
        },
{
    match route {
        HealthRoute::MethodNotAllowed => 405,
        HealthRoute::NotFound => 404,
        _ => 200,
    }
}

/// The body of a healthy answer.
pub const HEALTHY_BODY: &'static str = "{\"status\":\"healthy\",\"service\":\"dns-proxy\"}";

/// How long, in milliseconds, a snapshot of the counters may be served.
pub const SNAPSHOT_TTL_MS: u64 = 1000;

/// Whether a snapshot taken `age_ms` milliseconds ago may still be served.
pub fn snapshot_is_fresh(age_ms: u64) -> (r: bool)
    ensures
        r == (age_ms < SNAPSHOT_TTL_MS),
{
    age_ms < SNAPSHOT_TTL_MS
}

/// The health endpoint, answering from a snapshot of the counters.
pub struct HealthcheckServer {
    config: Arc<AppConfig>,
    metrics: Arc<Metrics>,
}

impl HealthcheckServer {
    /// The configured health path.
    pub closed spec fn health_path(&self) -> Seq<char> {
        self.config.servers.healthcheck.path@
    }

    /// The counters this server reports.
    pub closed spec fn counters(&self) -> Metrics {
        *self.metrics
    }

    /// A server for `config` reporting `metrics`.
    pub fn new(config: Arc<AppConfig>, metrics: Arc<Metrics>) -> (r: Self)
        ensures
            r.health_path() == config.servers.healthcheck.path@,
            r.counters() == *metrics,
    {
        HealthcheckServer { config, metrics }
    }

    /// The route for a request with this method and path.
    pub fn route(&self, is_get: bool, path: &str) -> (r: HealthRoute)
        ensures
            r == route_of(is_get, path@, self.health_path()),
    {
        route_healthcheck(is_get, path, self.config.servers.healthcheck.path.as_str())
    }

    /// The counters reported.
    pub fn metrics(&self) -> (r: &Metrics)
        ensures
            *r == self.counters(),
    {
        &self.metrics
    }

    /// The counters in the Prometheus text format.
    pub fn metrics_text(&self) -> (r: String)
        requires
            self.counters().wf(),
        ensures
            r@ == prometheus_text(&self.counters()),
    {
        self.metrics.export_prometheus()
    }
}

} // verus!
