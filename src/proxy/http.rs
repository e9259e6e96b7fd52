//! DNS-over-HTTPS request handling (HTTP/1.1 and HTTP/3): the decisions between
//! receiving a request and answering it.
use crate::metrics::{
    request_recorded, rewrite_recorded, upstream_failure_recorded, Metrics, Timer,
};
use crate::rewriters::BaseSniRewriter;
use crate::rewriters::base::cache_after;
use crate::text::join2;
use std::time::Duration;
use vstd::prelude::*;

verus! {

/// Status sent when a request carries no usable Host header.
pub const STATUS_MISSING_HOST: u16 = 500;

/// Status sent when the Host cannot be rewritten.
pub const STATUS_NO_REWRITE: u16 = 400;

/// Status sent when the request body could not be read.
pub const STATUS_BAD_REQUEST: u16 = 400;

/// Status sent when the upstream could not be reached.
pub const STATUS_BAD_GATEWAY: u16 = 502;

/// Status sent when the upstream did not answer in time.
pub const STATUS_GATEWAY_TIMEOUT: u16 = 504;

/// Seconds an upstream request may take.
pub const UPSTREAM_TIMEOUT_SECS: u64 = 30;

/// One HTTP header: a lower-case name and its raw value.
#[derive(Debug)]
pub struct Header {
    pub name: String,
    pub value: Vec<u8>,
}

/// The parts of a client request the proxy reads.
#[derive(Debug)]
pub struct ClientRequest {
    /// The request is a POST (only then does it carry a body).
    pub is_post: bool,
    /// The Host header, if present and text.
    pub host: Option<String>,
    /// The path and query of the request URI, if any.
    pub path_and_query: Option<String>,
    /// All request headers, in order.
    pub headers: Vec<Header>,
    /// The request body as received.
    pub body: Vec<u8>,
}

/// The request to send upstream.
#[derive(Debug)]
pub struct UpstreamRequest {
    /// `https://` + target hostname + path and query.
    pub uri: String,
    /// The hostname the request goes to; also its Host header.
    pub target_hostname: String,
    /// The headers to send.
    pub headers: Vec<Header>,
    /// The body to send.
    pub body: Vec<u8>,
}

/// What came back from the upstream.
#[derive(Debug)]
pub enum UpstreamOutcome {
    /// A response, whatever its status.
    Response { status: u16, headers: Vec<Header>, body: Vec<u8> },
    /// The transport failed.
    Failed { reason: String },
    /// No response within the time allowed.
    TimedOut,
}

/// The answer to give the client.
#[derive(Debug)]
pub struct ClientReply {
    pub status: u16,
    pub headers: Vec<Header>,
    pub body: Vec<u8>,
}

/// A header's name and value as sequences.
pub open spec fn header_view(h: Header) -> (Seq<char>, Seq<u8>) {
    (h.name@, h.value@)
}

/// Headers as sequences.
pub open spec fn headers_view(hs: Seq<Header>) -> Seq<(Seq<char>, Seq<u8>)> {
    hs.map_values(|h: Header| header_view(h))
}

/// Headers that describe one connection hop and are not forwarded.
pub open spec fn is_hop_header(name: Seq<char>) -> bool {
    name == "host"@ || name == "connection"@ || name == "keep-alive"@ || name
        == "transfer-encoding"@
}

/// The first `n` headers with the hop headers left out.
pub open spec fn kept_headers(hs: Seq<(Seq<char>, Seq<u8>)>, n: int) -> Seq<(Seq<char>, Seq<u8>)>
    decreases n,
{
    if n <= 0 || n > hs.len() {
        Seq::empty()
    } else if is_hop_header(hs[n - 1].0) {
        kept_headers(hs, n - 1)
    } else {
        kept_headers(hs, n - 1).push(hs[n - 1])
    }
}

/// The headers sent upstream: the client's, without hop headers, then `host: target`.
pub open spec fn forwarded_headers(hs: Seq<(Seq<char>, Seq<u8>)>, target: Seq<char>) -> Seq<
    (Seq<char>, Seq<u8>),
> {
    kept_headers(hs, hs.len() as int).push(("host"@, vstd::utf8::encode_utf8(target)))
}

/// The path and query to forward: the request's, or `/`.
pub open spec fn path_or_root(pq: Option<String>) -> Seq<char> {
    match pq {
        Some(p) => p@,
        None => "/"@,
    }
}

/// The upstream URI for a target hostname and a path.
pub open spec fn upstream_uri_of(target: Seq<char>, path: Seq<char>) -> Seq<char> {
    "https://"@ + target + path
}

/// Whether a header name is one of the hop headers.
pub fn is_hop_by_hop(name: &str) -> (r: bool)
    ensures
        r == is_hop_header(name@),
{
    crate::text::same_text(name, "host") || crate::text::same_text(name, "connection")
        || crate::text::same_text(name, "keep-alive") || crate::text::same_text(
        name,
        "transfer-encoding",
    )
}

/// The headers without the hop headers, in order.
pub fn strip_hop_headers(headers: &Vec<Header>) -> (r: Vec<Header>)
    ensures
        headers_view(r@) == kept_headers(headers_view(headers@), headers@.len() as int),
{
    let ghost hv = headers_view(headers@);
    let mut out: Vec<Header> = Vec::new();
    let mut i: usize = 0;
    while i < headers.len()
        invariant
            i <= headers@.len(),
            hv == headers_view(headers@),
            headers_view(out@) == kept_headers(hv, i as int),
        decreases headers.len() - i,
    {
        let h = &headers[i];
        if !is_hop_by_hop(h.name.as_str()) {
            let copy = Header { name: h.name.as_str().to_owned(), value: copy_bytes(&h.value) };
            out.push(copy);
            assert(headers_view(out@) =~= kept_headers(hv, i as int).push(hv[i as int]));
        }
        i = i + 1;
    }
    out
}

/// The headers to send upstream for `target`.
pub fn forward_headers(headers: &Vec<Header>, target: &str) -> (r: Vec<Header>)
    ensures
        headers_view(r@) == forwarded_headers(headers_view(headers@), target@),
{
    let mut out = strip_hop_headers(headers);
    let host = Header { name: "host".to_owned(), value: target.as_bytes_vec() };
    out.push(host);
    assert(headers_view(out@) =~= forwarded_headers(headers_view(headers@), target@));
    out
}

/// A copy of a byte vector.
pub fn copy_bytes(v: &Vec<u8>) -> (r: Vec<u8>)
    ensures
        r@ == v@,
{
    let mut out: Vec<u8> = Vec::new();
    let mut i: usize = 0;
    while i < v.len()
        invariant
            i <= v@.len(),
            out@ == v@.subrange(0, i as int),
        decreases v.len() - i,
    {
        out.push(v[i]);
        i = i + 1;
        assert(out@ =~= v@.subrange(0, i as int));
    }
    assert(out@ =~= v@);
    out
}

/// The upstream URI: `https://`, the target hostname, then the path and query (or `/`).
pub fn build_upstream_uri(target: &str, path_and_query: &Option<String>) -> (r: String)
    ensures
        r@ == upstream_uri_of(target@, path_or_root(*path_and_query)),
{
    let head = join2("https://", target);
    match path_and_query {
        Some(p) => join2(head.as_str(), p.as_str()),
        None => join2(head.as_str(), "/"),
    }
}

/// `text` as bytes.
pub fn text_bytes(text: &str) -> (r: Vec<u8>)
    ensures
        r@ == vstd::utf8::encode_utf8(text@),
{
    text.as_bytes_vec()
}

/// The body forwarded upstream for a client request: the client's body for a
/// POST, nothing otherwise.
pub open spec fn forwarded_body(is_post: bool, body: Seq<u8>) -> Seq<u8> {
    if is_post {
        body
    } else {
        Seq::empty()
    }
}

/// The body the client gets back for an upstream outcome, when there was a response.
pub open spec fn relayed_body(outcome: UpstreamOutcome, reply: ClientReply) -> bool {
    outcome matches UpstreamOutcome::Response { body, .. } ==> reply.body@ == body@
}

/// A DoH or DoH3 request that is forwarded carries the client's body upstream
/// unchanged (for a POST), and the upstream's response body comes back to the
/// client unchanged.
pub proof fn lemma_http_body_round_trip(
    req_is_post: bool,
    req_body: Seq<u8>,
    up: UpstreamRequest,
    upstream_status: u16,
    upstream_headers: Vec<Header>,
    upstream_body: Vec<u8>,
    reply: ClientReply,
)
    requires
        req_is_post,
        up.body@ == forwarded_body(req_is_post, req_body),
        relayed_body(
            UpstreamOutcome::Response {
                status: upstream_status,
                headers: upstream_headers,
                body: upstream_body,
            },
            reply,
        ),
    ensures
        up.body@ == req_body,
        reply.body@ == upstream_body@,
{
}

/// Take a client request up to the point of forwarding it.
///
/// Without a Host header, or when the Host cannot be rewritten, the request fails
/// here: it is counted as failed and the reply to send is returned. Otherwise a
/// prefix rewrite is counted and the upstream request is returned: the rewritten
/// target, the URI built from it, the filtered headers, and the body (sent only
/// for POST).
pub fn begin_http_request(
    rewriter: &mut BaseSniRewriter,
    metrics: &mut Metrics,
    timer: &Timer,
    req: ClientRequest,
) -> (r: Result<UpstreamRequest, ClientReply>)
    requires
        old(rewriter).wf(),
        old(metrics).wf(),
    ensures
        final(rewriter).wf(),
        final(metrics).wf(),
        final(rewriter).bases() == old(rewriter).bases(),
        final(rewriter).suffix() == old(rewriter).suffix(),
        final(rewriter).passthrough() == old(rewriter).passthrough(),
        final(rewriter).cache() == match req.host {
            Some(h) => cache_after(old(rewriter).cache(), h@, old(rewriter).spec_rewrite(h@)),
            None => old(rewriter).cache(),
        },
        match req.host {
            None => {
                &&& r matches Err(reply) && reply.status == STATUS_MISSING_HOST
                &&& exists|d: Duration| request_recorded(old(metrics), final(metrics), false, 0, 0, d)
            },
            Some(h) => match old(rewriter).spec_rewrite(h@) {
                None => {
                    &&& r matches Err(reply) && reply.status == STATUS_NO_REWRITE
                    &&& exists|d: Duration|
                        request_recorded(old(metrics), final(metrics), false, 0, 0, d)
                },
                Some(v) => {
                    &&& r matches Ok(u) && {
                        &&& u.target_hostname@ == v.target_hostname
                        &&& u.uri@ == upstream_uri_of(
                            v.target_hostname,
                            path_or_root(req.path_and_query),
                        )
                        &&& headers_view(u.headers@) == forwarded_headers(
                            headers_view(req.headers@),
                            v.target_hostname,
                        )
                        &&& u.body@ == forwarded_body(req.is_post, req.body@)
                    }
                    &&& if v.prefix.len() > 0 {
                        rewrite_recorded(old(metrics), final(metrics))
                    } else {
                        *final(metrics) == *old(metrics)
                    }
                },
            },
        },
{
    let host = match &req.host {
        Some(h) => h.as_str(),
        None => {
            let d = timer.elapsed();
            metrics.record_request(false, 0, 0, d);
            return Err(
                ClientReply {
                    status: STATUS_MISSING_HOST,
                    headers: Vec::new(),
                    body: text_bytes("Missing or invalid Host header"),
                },
            );
        },
    };
    let rewritten = rewriter.rewrite_sni(host);
    match rewritten {
        None => {
            let d = timer.elapsed();
            metrics.record_request(false, 0, 0, d);
            Err(
                ClientReply {
                    status: STATUS_NO_REWRITE,
                    headers: Vec::new(),
                    body: text_bytes("No matching base domain for host"),
                },
            )
        },
        Some(rw) => {
            if rw.prefix.unicode_len() > 0 {
                metrics.record_sni_rewrite();
            }
            let uri = build_upstream_uri(rw.target_hostname.as_str(), &req.path_and_query);
            let headers = forward_headers(&req.headers, rw.target_hostname.as_str());
            let body = if req.is_post {
                req.body
            } else {
                Vec::new()
            };
            Ok(UpstreamRequest { uri, target_hostname: rw.target_hostname, headers, body })
        },
    }
}

/// Fail a request whose body could not be read from the client: 400, counted as
/// a failed request with nothing received.
pub fn reject_unreadable_body(metrics: &mut Metrics, timer: &Timer) -> (r: ClientReply)
    requires
        old(metrics).wf(),
    ensures
        final(metrics).wf(),
        r.status == STATUS_BAD_REQUEST,
        exists|d: Duration| request_recorded(old(metrics), final(metrics), false, 0, 0, d),
{
    let d = timer.elapsed();
    metrics.record_request(false, 0, 0, d);
    ClientReply {
        status: STATUS_BAD_REQUEST,
        headers: Vec::new(),
        body: text_bytes("Failed to read request body"),
    }
}

/// Answer the client from what the upstream did, and count the request.
///
/// A response of any status is passed on (its hop headers left out) and counted as a success
/// with its body length as bytes sent. A transport failure gives 502 and a
/// timeout 504; both count a failed request and an upstream error.
pub fn complete_http_request(
    metrics: &mut Metrics,
    timer: &Timer,
    bytes_received: u64,
    outcome: UpstreamOutcome,
) -> (r: ClientReply)
    requires
        old(metrics).wf(),
    ensures
        final(metrics).wf(),
        relayed_body(outcome, r),
        match outcome {
            UpstreamOutcome::Response { status, headers, body } => {
                &&& r.status == status
                &&& headers_view(r.headers@) == kept_headers(
                    headers_view(headers@),
                    headers@.len() as int,
                )
                &&& r.body@ == body@
                &&& exists|d: Duration|
                    #[trigger] request_recorded(
                        old(metrics),
                        final(metrics),
                        true,
                        bytes_received,
                        body@.len() as u64,
                        d,
                    )
            },
            UpstreamOutcome::Failed { .. } => {
                &&& r.status == STATUS_BAD_GATEWAY
                &&& exists|d: Duration|
                    upstream_failure_recorded(old(metrics), final(metrics), bytes_received, d)
            },
            UpstreamOutcome::TimedOut => {
                &&& r.status == STATUS_GATEWAY_TIMEOUT
                &&& exists|d: Duration|
                    upstream_failure_recorded(old(metrics), final(metrics), bytes_received, d)
            },
        },
{
    let d = timer.elapsed();
    match outcome {
        UpstreamOutcome::Response { status, headers, body } => {
            let kept = strip_hop_headers(&headers);
            let n = body.len() as u64;
            let ghost m0 = *metrics;
            metrics.record_request(true, bytes_received, n, d);
            assert(request_recorded(&m0, metrics, true, bytes_received, body@.len() as u64, d));
            ClientReply { status, headers: kept, body }
        },
        UpstreamOutcome::Failed { reason } => {
            let ghost m0 = *metrics;
            metrics.record_request(false, bytes_received, 0, d);
            let ghost m1 = *metrics;
            metrics.record_upstream_error();
            assert(crate::metrics::upstream_error_recorded(&m1, metrics));
            assert(upstream_failure_recorded(&m0, metrics, bytes_received, d));
            let msg = join2("Upstream error: ", reason.as_str());
            ClientReply {
                status: STATUS_BAD_GATEWAY,
                headers: Vec::new(),
                body: text_bytes(msg.as_str()),
            }
        },
        UpstreamOutcome::TimedOut => {
            let ghost m0 = *metrics;
            metrics.record_request(false, bytes_received, 0, d);
            let ghost m1 = *metrics;
            metrics.record_upstream_error();
            assert(crate::metrics::upstream_error_recorded(&m1, metrics));
            assert(upstream_failure_recorded(&m0, metrics, bytes_received, d));
            ClientReply {
                status: STATUS_GATEWAY_TIMEOUT,
                headers: Vec::new(),
                body: text_bytes("Upstream timeout"),
            }
        },
    }
}

} // verus!
