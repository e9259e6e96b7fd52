use dns_proxy::config::RewriteConfig;
use dns_proxy::metrics::{Metrics, Timer};
use dns_proxy::proxy::http::{
    begin_http_request, build_upstream_uri, complete_http_request, forward_headers,
    is_hop_by_hop, reject_unreadable_body, ClientRequest, Header, UpstreamOutcome,
};
use dns_proxy::rewriters::BaseSniRewriter;

fn rewriter(strategy: &str) -> BaseSniRewriter {
    BaseSniRewriter::new(RewriteConfig {
        base_domains: vec!["example.com".to_string(), "example.org".to_string()],
        target_suffix: ".example.cn".to_string(),
        rewrite_failure_strategy: strategy.to_string(),
    })
}

fn header(name: &str, value: &[u8]) -> Header {
    Header {
        name: name.to_string(),
        value: value.to_vec(),
    }
}

fn post(host: Option<&str>, body: Vec<u8>) -> ClientRequest {
    ClientRequest {
        is_post: true,
        host: host.map(|h| h.to_string()),
        path_and_query: Some("/dns-query".to_string()),
        headers: vec![
            header("host", b"host.example.org"),
            header("content-type", b"application/dns-message"),
            header("connection", b"keep-alive"),
            header("keep-alive", b"timeout=5"),
            header("transfer-encoding", b"chunked"),
            header("accept", b"application/dns-message"),
        ],
        body,
    }
}

#[test]
fn test_doh_post_round_trip() {
    let mut rw = rewriter("error");
    let mut metrics = Metrics::new();
    let timer = Timer::start();
    let up = begin_http_request(
        &mut rw,
        &mut metrics,
        &timer,
        post(Some("host.example.org"), vec![0xAA, 0xBB]),
    )
    .ok()
    .unwrap();
    assert_eq!(up.uri, "https://host.example.cn/dns-query");
    assert_eq!(up.target_hostname, "host.example.cn");
    assert_eq!(up.body, vec![0xAA, 0xBB]);
    let names: Vec<&str> = up.headers.iter().map(|h| h.name.as_str()).collect();
    assert_eq!(names, vec!["content-type", "accept", "host"]);
    assert_eq!(up.headers[2].value, b"host.example.cn".to_vec());

    let reply = complete_http_request(
        &mut metrics,
        &timer,
        up.body.len() as u64,
        UpstreamOutcome::Response {
            status: 200,
            headers: vec![
                header("content-type", b"application/dns-message"),
                header("connection", b"close"),
            ],
            body: vec![0xAA, 0xBB],
        },
    );
    assert_eq!(reply.status, 200);
    assert_eq!(reply.body, vec![0xAA, 0xBB]);
    assert_eq!(reply.headers.len(), 1);
    assert_eq!(reply.headers[0].name, "content-type");
    assert_eq!(metrics.total_requests, 1);
    assert_eq!(metrics.successful_requests, 1);
    assert_eq!(metrics.sni_rewrites, 1);
    assert_eq!(metrics.bytes_received, 2);
    assert_eq!(metrics.bytes_sent, 2);
}

#[test]
fn test_doh_missing_host_fails_and_counts() {
    let mut rw = rewriter("error");
    let mut metrics = Metrics::new();
    let timer = Timer::start();
    let reply = begin_http_request(&mut rw, &mut metrics, &timer, post(None, vec![1]))
        .err()
        .unwrap();
    assert_eq!(reply.status, 500);
    assert_eq!(metrics.failed_requests, 1);
    assert_eq!(metrics.total_requests, 1);
    assert_eq!(metrics.sni_rewrites, 0);
    // The next request on the same rewriter and counters still goes through.
    assert!(begin_http_request(
        &mut rw,
        &mut metrics,
        &timer,
        post(Some("a.example.com"), vec![1])
    )
    .is_ok());
}

#[test]
fn test_doh_non_matching_host_by_strategy() {
    let timer = Timer::start();
    let mut metrics = Metrics::new();
    let mut strict = rewriter("error");
    let reply = begin_http_request(&mut strict, &mut metrics, &timer, post(Some("other.net"), vec![]))
        .err()
        .unwrap();
    assert_eq!(reply.status, 400);
    assert_eq!(metrics.failed_requests, 1);

    let mut lenient = rewriter("passthrough");
    let mut metrics = Metrics::new();
    let up = begin_http_request(&mut lenient, &mut metrics, &timer, post(Some("other.net"), vec![]))
        .ok()
        .unwrap();
    assert_eq!(up.target_hostname, "other.net");
    assert_eq!(up.uri, "https://other.net/dns-query");
    assert_eq!(metrics.sni_rewrites, 0);
    assert_eq!(metrics.failed_requests, 0);
}

#[test]
fn test_doh_get_sends_no_body() {
    let mut rw = rewriter("error");
    let mut metrics = Metrics::new();
    let timer = Timer::start();
    let req = ClientRequest {
        is_post: false,
        host: Some("www.example.org".to_string()),
        path_and_query: Some("/dns-query?dns=AAABAAAB".to_string()),
        headers: vec![],
        body: vec![9, 9],
    };
    let up = begin_http_request(&mut rw, &mut metrics, &timer, req)
        .ok()
        .unwrap();
    assert_eq!(up.uri, "https://www.example.cn/dns-query?dns=AAABAAAB");
    assert!(up.body.is_empty());
}

#[test]
fn test_upstream_failures() {
    let timer = Timer::start();
    let mut metrics = Metrics::new();
    let reply = complete_http_request(
        &mut metrics,
        &timer,
        4,
        UpstreamOutcome::Failed {
            reason: "connection refused".to_string(),
        },
    );
    assert_eq!(reply.status, 502);
    assert_eq!(reply.body, b"Upstream error: connection refused".to_vec());
    let reply = complete_http_request(&mut metrics, &timer, 4, UpstreamOutcome::TimedOut);
    assert_eq!(reply.status, 504);
    assert_eq!(metrics.failed_requests, 2);
    assert_eq!(metrics.upstream_errors, 2);
    assert_eq!(metrics.bytes_received, 8);
    assert_eq!(metrics.bytes_sent, 0);
}

#[test]
fn test_non_success_status_is_passed_on() {
    let timer = Timer::start();
    let mut metrics = Metrics::new();
    let reply = complete_http_request(
        &mut metrics,
        &timer,
        0,
        UpstreamOutcome::Response {
            status: 503,
            headers: vec![],
            body: b"busy".to_vec(),
        },
    );
    assert_eq!(reply.status, 503);
    assert_eq!(reply.body, b"busy".to_vec());
    assert_eq!(metrics.successful_requests, 1);
    assert_eq!(metrics.bytes_sent, 4);
}

#[test]
fn test_uri_and_headers() {
    assert_eq!(build_upstream_uri("a.b", &None), "https://a.b/");
    assert!(is_hop_by_hop("transfer-encoding"));
    assert!(!is_hop_by_hop("content-length"));
    let out = forward_headers(&vec![header("host", b"x"), header("x-a", b"1")], "t.cn");
    assert_eq!(out.len(), 2);
    assert_eq!(out[0].name, "x-a");
    assert_eq!(out[1].name, "host");
    assert_eq!(out[1].value, b"t.cn".to_vec());
}

#[test]
fn test_unreadable_body_is_rejected() {
    let mut metrics = Metrics::new();
    let timer = Timer::start();
    let reply = reject_unreadable_body(&mut metrics, &timer);
    assert_eq!(reply.status, 400);
    assert_eq!(metrics.failed_requests, 1);
    assert_eq!(metrics.upstream_errors, 0);
}
