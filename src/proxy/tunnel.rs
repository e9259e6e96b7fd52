//! Opaque byte tunnels: DNS over TLS, and DNS over QUIC streams. The proxy never
//! parses the bytes; it hands the client's bytes to the upstream as they came and
//! the upstream's answer back as it came.
use crate::error::UpstreamError;
use crate::metrics::{request_recorded, upstream_failure_recorded, Metrics, Timer};
use std::time::Duration;
use vstd::prelude::*;

verus! {

/// The position of the last `:` among the first `n` characters of `s`.
pub open spec fn last_colon(s: Seq<char>, n: int) -> Option<int>
    decreases n,
{
    if n <= 0 || n > s.len() {
        None
    } else if s[n - 1] == ':' {
        Some(n - 1)
    } else {
        last_colon(s, n - 1)
    }
}

/// `s` is a non-empty run of decimal digits.
pub open spec fn all_digits(s: Seq<char>) -> bool {
    s.len() > 0 && forall|i: int| 0 <= i < s.len() ==> '0' <= #[trigger] s[i] <= '9'
}

/// `s` without one pair of enclosing square brackets.
pub open spec fn strip_brackets(s: Seq<char>) -> Seq<char> {
    if s.len() >= 2 && s[0] == '[' && s[s.len() - 1] == ']' {
        s.subrange(1, s.len() - 1)
    } else {
        s
    }
}

/// The host part of an upstream address: what precedes a trailing `:port`, without
/// IPv6 brackets; the whole address when it has no port.
pub open spec fn host_of_address(a: Seq<char>) -> Seq<char> {
    match last_colon(a, a.len() as int) {
        Some(i) => if all_digits(a.subrange(i + 1, a.len() as int)) {
            strip_brackets(a.subrange(0, i))
        } else {
            strip_brackets(a)
        },
        None => strip_brackets(a),
    }
}

/// The server name to present to an upstream at `address`.
pub fn upstream_hostname(address: &str) -> (r: String)
    ensures
        r@ == host_of_address(address@),
{
    let n = address.unicode_len();
    let mut k: usize = n;
    while k > 0 && address.get_char(k - 1) != ':'
        invariant
            k <= n,
            n == address@.len(),
            last_colon(address@, n as int) == last_colon(address@, k as int),
        decreases k,
    {
        k = k - 1;
    }
    let colon: Option<usize> = if k > 0 {
        Some(k - 1)
    } else {
        None
    };
    assert(last_colon(address@, n as int) == match colon {
        Some(c) => Some(c as int),
        None => None::<int>,
    });
    let host = match colon {
        Some(c) => {
            let mut digits = c + 1 < n;
            let mut j: usize = c + 1;
            while j < n
                invariant
                    c < n,
                    n == address@.len(),
                    c + 1 <= j <= n,
                    digits == (c + 1 < n && forall|i: int|
                        c + 1 <= i < j ==> '0' <= #[trigger] address@[i] <= '9'),
                decreases n - j,
            {
                let ch = address.get_char(j);
                if !('0' <= ch && ch <= '9') {
                    digits = false;
                }
                j = j + 1;
            }
            proof {
                let tail = address@.subrange(c + 1, n as int);
                if digits {
                    assert forall|i: int| 0 <= i < tail.len() implies '0' <= #[trigger] tail[i]
                        <= '9' by {
                        assert(tail[i] == address@[c + 1 + i]);
                    }
                }
                if all_digits(tail) {
                    assert forall|i: int| c + 1 <= i < n implies '0' <= #[trigger] address@[i]
                        <= '9' by {
                        assert(address@[i] == tail[i - c - 1]);
                    }
                }
            }
            if digits {
                address.substring_char(0, c)
            } else {
                address
            }
        },
        None => address,
    };
    let ghost pre = match last_colon(address@, address@.len() as int) {
        Some(i) => if all_digits(address@.subrange(i + 1, address@.len() as int)) {
            address@.subrange(0, i)
        } else {
            address@
        },
        None => address@,
    };
    assert(host@ == pre);
    assert(host_of_address(address@) == strip_brackets(pre));
    let m = host.unicode_len();
    if m >= 2 && host.get_char(0) == '[' && host.get_char(m - 1) == ']' {
        host.substring_char(1, m - 1).to_owned()
    } else {
        host.to_owned()
    }
}

/// What to do with the bytes a client sent on a tunnel.
#[derive(Debug)]
pub enum TunnelStep {
    /// Nothing was sent: close without contacting the upstream.
    Close,
    /// Open an upstream connection presenting `server_name` and send `payload`.
    Forward { server_name: String, payload: Vec<u8> },
}

/// `step` is what the client's bytes call for: closing when there are none,
/// else forwarding exactly those bytes to the upstream's host.
pub open spec fn tunnel_begun(client: Seq<u8>, upstream_address: Seq<char>, step: TunnelStep) -> bool {
    if client.len() == 0 {
        step is Close
    } else {
        step matches TunnelStep::Forward { server_name, payload } && payload@ == client
            && server_name@ == host_of_address(upstream_address)
    }
}

/// `reply` is what goes back to the client after the upstream exchange: the
/// upstream's answer unchanged, or nothing when the exchange failed.
pub open spec fn tunnel_finished(outcome: Result<Vec<u8>, UpstreamError>, reply: Option<Vec<u8>>) -> bool {
    match outcome {
        Ok(answer) => reply matches Some(b) && b@ == answer@,
        Err(_) => reply is None,
    }
}

/// Decide what to do with the bytes a client sent (read to end of stream).
pub fn begin_tunnel(client_bytes: Vec<u8>, upstream_address: &str) -> (r: TunnelStep)
    ensures
        tunnel_begun(client_bytes@, upstream_address@, r),
{
    if client_bytes.len() == 0 {
        TunnelStep::Close
    } else {
        TunnelStep::Forward { server_name: upstream_hostname(upstream_address), payload: client_bytes }
    }
}

/// What to send back to the client once the upstream exchange is over: the
/// upstream's answer unchanged, or nothing (the stream is closed) on failure.
pub fn tunnel_reply(outcome: Result<Vec<u8>, UpstreamError>) -> (r: Option<Vec<u8>>)
    ensures
        tunnel_finished(outcome, r),
{
    match outcome {
        Ok(answer) => Some(answer),
        Err(_) => None,
    }
}

/// How a tunnel ended.
#[derive(Debug)]
pub enum TunnelResult {
    /// The upstream's answer was delivered to the client.
    Answered { bytes_sent: u64 },
    /// The upstream exchange failed.
    UpstreamFailed,
    /// Reading from or writing to the client failed.
    ClientFailed,
}

/// Count a finished tunnel: a delivered answer is a success with the bytes each
/// way; any failure, on the upstream side or on the client side (reading the
/// query, writing the answer back), is a failed request and an upstream error.
pub fn settle_tunnel(metrics: &mut Metrics, timer: &Timer, bytes_received: u64, result: TunnelResult)
    requires
        old(metrics).wf(),
    ensures
        final(metrics).wf(),
        match result {
            TunnelResult::Answered { bytes_sent } => exists|d: Duration|
                #[trigger] request_recorded(
                    old(metrics),
                    final(metrics),
                    true,
                    bytes_received,
                    bytes_sent,
                    d,
                ),
            TunnelResult::UpstreamFailed => exists|d: Duration|
                upstream_failure_recorded(old(metrics), final(metrics), bytes_received, d),
            TunnelResult::ClientFailed => exists|d: Duration|
                upstream_failure_recorded(old(metrics), final(metrics), bytes_received, d),
        },
{
    let d = timer.elapsed();
    let ghost m0 = *metrics;
    match result {
        TunnelResult::Answered { bytes_sent } => {
            metrics.record_request(true, bytes_received, bytes_sent, d);
            assert(request_recorded(&m0, metrics, true, bytes_received, bytes_sent, d));
        },
        TunnelResult::UpstreamFailed => {
            metrics.record_request(false, bytes_received, 0, d);
            let ghost m1 = *metrics;
            metrics.record_upstream_error();
            assert(crate::metrics::upstream_error_recorded(&m1, metrics));
            assert(upstream_failure_recorded(&m0, metrics, bytes_received, d));
        },
        TunnelResult::ClientFailed => {
            metrics.record_request(false, bytes_received, 0, d);
            let ghost m1 = *metrics;
            metrics.record_upstream_error();
            assert(crate::metrics::upstream_error_recorded(&m1, metrics));
            assert(upstream_failure_recorded(&m0, metrics, bytes_received, d));
        },
    }
}

/// An opaque tunnel, over TLS or on one QUIC stream, hands the upstream exactly
/// the bytes the client sent and hands the client exactly the bytes the upstream
/// answered; a client that sent nothing causes no upstream exchange at all.
pub proof fn lemma_tunnel_round_trip(
    client: Seq<u8>,
    upstream_address: Seq<char>,
    step: TunnelStep,
    answer: Vec<u8>,
    reply: Option<Vec<u8>>,
)
    requires
        tunnel_begun(client, upstream_address, step),
        tunnel_finished(Ok(answer), reply),
    ensures
        client.len() == 0 <==> step is Close,
        step matches TunnelStep::Forward { payload, .. } ==> payload@ == client
            && payload@.len() == client.len(),
        reply matches Some(b) && b@ == answer@ && b@.len() == answer@.len(),
{
}

/// Settle a QUIC connection whose stream loop ended: a close by the peer's
/// application is a clean end; any other connection error counts as a failed request.
pub fn end_quic_connection(metrics: &mut Metrics, timer: &Timer, application_closed: bool)
    requires
        old(metrics).wf(),
    ensures
        final(metrics).wf(),
        application_closed ==> *final(metrics) == *old(metrics),
        !application_closed ==> exists|d: Duration|
            request_recorded(old(metrics), final(metrics), false, 0, 0, d),
{
    if !application_closed {
        let d = timer.elapsed();
        metrics.record_request(false, 0, 0, d);
    }
}

} // verus!
