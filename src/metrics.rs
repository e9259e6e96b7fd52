//! Request counters and a latency histogram.
use crate::clock::{as_micros, elapsed_since, micros_of, now};
use crate::text::{decimal, decimal_text, digit_char, digit_text};
use std::time::{Duration, Instant};
use vstd::prelude::*;

verus! {

/// Number of finite latency bucket bounds.
pub const NUM_BOUNDS: usize = 12;

/// The bucket a latency of `ms` milliseconds falls in: the first whose bound
/// (1, 5, 10, 25, 50, 100, 250, 500, 1000, 2500, 5000, 10000 ms) is at least `ms`,
/// or the last (unbounded) one.
pub open spec fn bucket_of(ms: u64) -> int {
    if ms <= 1 { 0 }
    else if ms <= 5 { 1 }
    else if ms <= 10 { 2 }
    else if ms <= 25 { 3 }
    else if ms <= 50 { 4 }
    else if ms <= 100 { 5 }
    else if ms <= 250 { 6 }
    else if ms <= 500 { 7 }
    else if ms <= 1000 { 8 }
    else if ms <= 2500 { 9 }
    else if ms <= 5000 { 10 }
    else if ms <= 10000 { 11 }
    else { 12 }
}

/// Whole milliseconds of a microsecond count, saturated to 64 bits.
pub open spec fn millis_of_micros(us: u128) -> u64 {
    if us / 1000 > u64::MAX as u128 { u64::MAX } else { (us / 1000) as u64 }
}

/// A microsecond count saturated to 64 bits.
pub open spec fn micros_u64(us: u128) -> u64 {
    if us > u64::MAX as u128 { u64::MAX } else { us as u64 }
}

/// Counters of the gateway's work. Every counter only grows (it saturates at its maximum).
#[derive(Debug)]
pub struct Metrics {
    /// Requests handled.
    pub total_requests: u64,
    /// Requests that completed.
    pub successful_requests: u64,
    /// Requests that failed.
    pub failed_requests: u64,
    /// Bytes received from clients.
    pub bytes_received: u64,
    /// Bytes sent back to clients.
    pub bytes_sent: u64,
    /// Total processing time in microseconds.
    pub total_processing_time_us: u64,
    /// Hostnames rewritten.
    pub sni_rewrites: u64,
    /// Upstream failures.
    pub upstream_errors: u64,
    /// Observation counts per latency bucket: one per bound, then the unbounded one.
    pub latency_buckets: Vec<u64>,
}

/// `b` is `a` with one request recorded: its outcome, byte counts and duration.
pub open spec fn request_recorded(
    a: &Metrics,
    b: &Metrics,
    success: bool,
    bytes_received: u64,
    bytes_sent: u64,
    duration: Duration,
) -> bool {
    let ms = millis_of_micros(micros_of(duration));
    &&& b.total_requests == a.total_requests.saturating_add(1)
    &&& b.successful_requests == if success {
        a.successful_requests.saturating_add(1)
    } else {
        a.successful_requests
    }
    &&& b.failed_requests == if success {
        a.failed_requests
    } else {
        a.failed_requests.saturating_add(1)
    }
    &&& b.bytes_received == a.bytes_received.saturating_add(bytes_received)
    &&& b.bytes_sent == a.bytes_sent.saturating_add(bytes_sent)
    &&& b.total_processing_time_us == a.total_processing_time_us.saturating_add(
        micros_u64(micros_of(duration)),
    )
    &&& b.sni_rewrites == a.sni_rewrites
    &&& b.upstream_errors == a.upstream_errors
    &&& b.buckets() == a.buckets().update(bucket_of(ms), a.buckets()[bucket_of(ms)].saturating_add(1))
}

/// `b` is `a` with one hostname rewrite recorded.
pub open spec fn rewrite_recorded(a: &Metrics, b: &Metrics) -> bool {
    &&& b.sni_rewrites == a.sni_rewrites.saturating_add(1)
    &&& b.total_requests == a.total_requests
    &&& b.successful_requests == a.successful_requests
    &&& b.failed_requests == a.failed_requests
    &&& b.bytes_received == a.bytes_received
    &&& b.bytes_sent == a.bytes_sent
    &&& b.total_processing_time_us == a.total_processing_time_us
    &&& b.upstream_errors == a.upstream_errors
    &&& b.buckets() == a.buckets()
}

/// `b` is `a` with one upstream failure recorded.
pub open spec fn upstream_error_recorded(a: &Metrics, b: &Metrics) -> bool {
    &&& b.upstream_errors == a.upstream_errors.saturating_add(1)
    &&& b.total_requests == a.total_requests
    &&& b.successful_requests == a.successful_requests
    &&& b.failed_requests == a.failed_requests
    &&& b.bytes_received == a.bytes_received
    &&& b.bytes_sent == a.bytes_sent
    &&& b.total_processing_time_us == a.total_processing_time_us
    &&& b.sni_rewrites == a.sni_rewrites
    &&& b.buckets() == a.buckets()
}

/// `b` is `a` with one failed request and one upstream failure recorded.
pub open spec fn upstream_failure_recorded(
    a: &Metrics,
    b: &Metrics,
    bytes_received: u64,
    duration: Duration,
) -> bool {
    exists|m: Metrics|
        request_recorded(a, &m, false, bytes_received, 0, duration)
            && #[trigger] upstream_error_recorded(&m, b)
}

/// `a` and `b` hold the same counts.
pub open spec fn same_counters(a: &Metrics, b: &Metrics) -> bool {
    &&& a.total_requests == b.total_requests
    &&& a.successful_requests == b.successful_requests
    &&& a.failed_requests == b.failed_requests
    &&& a.bytes_received == b.bytes_received
    &&& a.bytes_sent == b.bytes_sent
    &&& a.total_processing_time_us == b.total_processing_time_us
    &&& a.sni_rewrites == b.sni_rewrites
    &&& a.upstream_errors == b.upstream_errors
    &&& a.buckets() == b.buckets()
}

/// Every counter of `b` is at least the same counter of `a`.
pub open spec fn counters_grew(a: &Metrics, b: &Metrics) -> bool {
    &&& a.total_requests <= b.total_requests
    &&& a.successful_requests <= b.successful_requests
    &&& a.failed_requests <= b.failed_requests
    &&& a.bytes_received <= b.bytes_received
    &&& a.bytes_sent <= b.bytes_sent
    &&& a.total_processing_time_us <= b.total_processing_time_us
    &&& a.sni_rewrites <= b.sni_rewrites
    &&& a.upstream_errors <= b.upstream_errors
    &&& a.buckets().len() == b.buckets().len()
    &&& forall|i: int| 0 <= i < a.buckets().len() ==> a.buckets()[i] <= b.buckets()[i]
}

impl Metrics {
    /// Observation counts per latency bucket: one per bound, then the unbounded one.
    pub open spec fn buckets(&self) -> Seq<u64> {
        self.latency_buckets@
    }

    /// The histogram has its thirteen buckets.
    pub open spec fn wf(&self) -> bool {
        self.buckets().len() == NUM_BOUNDS + 1
    }

    /// All counters at zero.
    pub fn new() -> (r: Self)
        ensures
            r.wf(),
            r.total_requests == 0,
            r.successful_requests == 0,
            r.failed_requests == 0,
            r.bytes_received == 0,
            r.bytes_sent == 0,
            r.total_processing_time_us == 0,
            r.sni_rewrites == 0,
            r.upstream_errors == 0,
            forall|i: int| 0 <= i < r.buckets().len() ==> r.buckets()[i] == 0,
    {
        let mut latency_buckets: Vec<u64> = Vec::new();
        let mut i: usize = 0;
        while i < NUM_BOUNDS + 1
            invariant
                i <= NUM_BOUNDS + 1,
                latency_buckets@.len() == i,
                forall|j: int| 0 <= j < i ==> latency_buckets@[j] == 0,
            decreases NUM_BOUNDS + 1 - i,
        {
            latency_buckets.push(0);
            i = i + 1;
        }
        Metrics {
            total_requests: 0,
            successful_requests: 0,
            failed_requests: 0,
            bytes_received: 0,
            bytes_sent: 0,
            total_processing_time_us: 0,
            sni_rewrites: 0,
            upstream_errors: 0,
            latency_buckets,
        }
    }

    /// Record one request: its outcome, its byte counts and how long it took.
    pub fn record_request(
        &mut self,
        success: bool,
        bytes_received: u64,
        bytes_sent: u64,
        duration: Duration,
    )
        requires
            old(self).wf(),
        ensures
            final(self).wf(),
            request_recorded(
                old(self),
                final(self),
                success,
                bytes_received,
                bytes_sent,
                duration,
            ),
    {
        self.total_requests = self.total_requests.saturating_add(1);
        if success {
            self.successful_requests = self.successful_requests.saturating_add(1);
        } else {
            self.failed_requests = self.failed_requests.saturating_add(1);
        }
        self.bytes_received = self.bytes_received.saturating_add(bytes_received);
        self.bytes_sent = self.bytes_sent.saturating_add(bytes_sent);
        let us = as_micros(&duration);
        let us64: u64 = if us > u64::MAX as u128 {
            u64::MAX
        } else {
            us as u64
        };
        self.total_processing_time_us = self.total_processing_time_us.saturating_add(us64);
        let ms: u64 = if us / 1000 > u64::MAX as u128 {
            u64::MAX
        } else {
            (us / 1000) as u64
        };
        self.observe_latency_ms(ms);
    }

    /// Count one latency observation of `ms` milliseconds in its bucket.
    fn observe_latency_ms(&mut self, ms: u64)
        requires
            old(self).wf(),
        ensures
            final(self).wf(),
            final(self).buckets() == old(self).buckets().update(
                bucket_of(ms),
                old(self).buckets()[bucket_of(ms)].saturating_add(1),
            ),
            final(self).total_requests == old(self).total_requests,
            final(self).successful_requests == old(self).successful_requests,
            final(self).failed_requests == old(self).failed_requests,
            final(self).bytes_received == old(self).bytes_received,
            final(self).bytes_sent == old(self).bytes_sent,
            final(self).total_processing_time_us == old(self).total_processing_time_us,
            final(self).sni_rewrites == old(self).sni_rewrites,
            final(self).upstream_errors == old(self).upstream_errors,
    {
        let idx = bucket_index(ms);
        let c = self.latency_buckets[idx];
        self.latency_buckets.set(idx, c.saturating_add(1));
    }

    /// Record one hostname rewrite.
    pub fn record_sni_rewrite(&mut self)
        ensures
            final(self).wf() == old(self).wf(),
            rewrite_recorded(old(self), final(self)),
    {
        self.sni_rewrites = self.sni_rewrites.saturating_add(1);
    }

    /// Record one upstream failure.
    pub fn record_upstream_error(&mut self)
        ensures
            final(self).wf() == old(self).wf(),
            upstream_error_recorded(old(self), final(self)),
    {
        self.upstream_errors = self.upstream_errors.saturating_add(1);
    }

    /// An identical, independent copy of the counters (a snapshot).
    pub fn duplicate(&self) -> (r: Metrics)
        ensures
            same_counters(&r, self),
    {
        let mut latency_buckets: Vec<u64> = Vec::new();
        let mut i: usize = 0;
        while i < self.latency_buckets.len()
            invariant
                i <= self.latency_buckets@.len(),
                latency_buckets@ == self.latency_buckets@.subrange(0, i as int),
            decreases self.latency_buckets.len() - i,
        {
            latency_buckets.push(self.latency_buckets[i]);
            i = i + 1;
            assert(latency_buckets@ =~= self.latency_buckets@.subrange(0, i as int));
        }
        assert(latency_buckets@ =~= self.latency_buckets@);
        Metrics {
            total_requests: self.total_requests,
            successful_requests: self.successful_requests,
            failed_requests: self.failed_requests,
            bytes_received: self.bytes_received,
            bytes_sent: self.bytes_sent,
            total_processing_time_us: self.total_processing_time_us,
            sni_rewrites: self.sni_rewrites,
            upstream_errors: self.upstream_errors,
            latency_buckets,
        }
    }

    /// The number of observations in latency bucket `i` (the last is unbounded).
    pub fn bucket_count(&self, i: usize) -> (r: u64)
        requires
            self.wf(),
            i <= NUM_BOUNDS,
        ensures
            r == self.buckets()[i as int],
    {
        self.latency_buckets[i]
    }
}

impl Default for Metrics {
    fn default() -> (r: Self)
        ensures
            r.wf(),
            r.total_requests == 0,
            r.successful_requests == 0,
            r.failed_requests == 0,
            r.bytes_received == 0,
            r.bytes_sent == 0,
            r.total_processing_time_us == 0,
            r.sni_rewrites == 0,
            r.upstream_errors == 0,
    {
        Self::new()
    }
}

/// The bucket index for a latency of `ms` milliseconds.
pub fn bucket_index(ms: u64) -> (r: usize)
    ensures
        r == bucket_of(ms),
{
    if ms <= 1 { 0 }
    else if ms <= 5 { 1 }
    else if ms <= 10 { 2 }
    else if ms <= 25 { 3 }
    else if ms <= 50 { 4 }
    else if ms <= 100 { 5 }
    else if ms <= 250 { 6 }
    else if ms <= 500 { 7 }
    else if ms <= 1000 { 8 }
    else if ms <= 2500 { 9 }
    else if ms <= 5000 { 10 }
    else if ms <= 10000 { 11 }
    else { 12 }
}

/// Each recording operation leaves every counter at least where it was.
pub proof fn lemma_counters_monotonic(
    a: Metrics,
    b: Metrics,
    success: bool,
    bytes_received: u64,
    bytes_sent: u64,
    duration: Duration,
)
    requires
        a.wf(),
    ensures
        request_recorded(&a, &b, success, bytes_received, bytes_sent, duration) ==> counters_grew(
            &a,
            &b,
        ),
        rewrite_recorded(&a, &b) ==> counters_grew(&a, &b),
        upstream_error_recorded(&a, &b) ==> counters_grew(&a, &b),
        upstream_failure_recorded(&a, &b, bytes_received, duration) ==> counters_grew(&a, &b),
{
    if upstream_failure_recorded(&a, &b, bytes_received, duration) {
        let m = choose|m: Metrics|
            request_recorded(&a, &m, false, bytes_received, 0, duration)
                && #[trigger] upstream_error_recorded(&m, &b);
        let k = bucket_of(millis_of_micros(micros_of(duration)));
        assert forall|i: int| 0 <= i < a.buckets().len() implies a.buckets()[i] <= b.buckets()[i] by {
            if i == k {
            }
        }
    }
    if request_recorded(&a, &b, success, bytes_received, bytes_sent, duration) {
        let k = bucket_of(millis_of_micros(micros_of(duration)));
        assert forall|i: int| 0 <= i < a.buckets().len() implies a.buckets()[i] <= b.buckets()[i] by {
            if i == k {
            }
        }
    }
}

/// `b` follows `a` by one recording operation, or is a copy of `a` (a snapshot).
pub open spec fn one_step(a: &Metrics, b: &Metrics) -> bool {
    ||| exists|success: bool, bytes_received: u64, bytes_sent: u64, duration: Duration|
        #[trigger] request_recorded(a, b, success, bytes_received, bytes_sent, duration)
    ||| rewrite_recorded(a, b)
    ||| upstream_error_recorded(a, b)
    ||| same_counters(a, b)
}

proof fn lemma_counters_grew_transitive(a: Metrics, b: Metrics, c: Metrics)
    requires
        counters_grew(&a, &b),
        counters_grew(&b, &c),
    ensures
        counters_grew(&a, &c),
{
    assert forall|i: int| 0 <= i < a.buckets().len() implies a.buckets()[i] <= c.buckets()[i] by {
        assert(a.buckets()[i] <= b.buckets()[i]);
    }
}

/// Over any sequence of recording operations and snapshots, no counter ever
/// goes back: every later state holds at least the counts of every earlier one.
pub proof fn lemma_counters_never_decrease(states: Seq<Metrics>, i: int, j: int)
    requires
        0 <= i <= j < states.len(),
        states[0].wf(),
        forall|k: int| 0 <= k < states.len() - 1 ==> #[trigger] one_step(&states[k], &states[k + 1]),
    ensures
        counters_grew(&states[i], &states[j]),
        states[j].wf(),
    decreases j - i,
{
    if j == i {
        lemma_state_wf(states, i);
        assert forall|n: int| 0 <= n < states[i].buckets().len() implies states[i].buckets()[n]
            <= states[i].buckets()[n] by {
        }
    } else {
        lemma_counters_never_decrease(states, i, j - 1);
        let k = j - 1;
        assert(one_step(&states[k], &states[k + 1]));
        let a = states[k];
        let b = states[k + 1];
        if exists|success: bool, bytes_received: u64, bytes_sent: u64, duration: Duration|
            #[trigger] request_recorded(&a, &b, success, bytes_received, bytes_sent, duration) {
            let (success, bytes_received, bytes_sent, duration) = choose|
                success: bool,
                bytes_received: u64,
                bytes_sent: u64,
                duration: Duration,
            | #[trigger] request_recorded(&a, &b, success, bytes_received, bytes_sent, duration);
            lemma_counters_monotonic(a, b, success, bytes_received, bytes_sent, duration);
        } else {
            lemma_counters_monotonic(a, b, false, 0, 0, arbitrary());
            if same_counters(&a, &b) {
                assert forall|n: int| 0 <= n < a.buckets().len() implies a.buckets()[n]
                    <= b.buckets()[n] by {
                }
            }
        }
        lemma_counters_grew_transitive(states[i], a, b);
        lemma_state_wf(states, j);
    }
}

proof fn lemma_state_wf(states: Seq<Metrics>, j: int)
    requires
        0 <= j < states.len(),
        states[0].wf(),
        forall|k: int| 0 <= k < states.len() - 1 ==> #[trigger] one_step(&states[k], &states[k + 1]),
    ensures
        states[j].wf(),
    decreases j,
{
    if j > 0 {
        let k = j - 1;
        lemma_state_wf(states, k);
        assert(one_step(&states[k], &states[k + 1]));
    }
}

/// A request that fails before reaching the upstream (no Host, no rewrite, an
/// unreadable body) adds exactly one to the total and to the failed count and
/// leaves the successes and the rewrites as they were, while those counts are
/// below their maximum.
pub proof fn lemma_failure_counted_once(before: Metrics, after: Metrics, duration: Duration)
    requires
        before.total_requests < u64::MAX,
        before.failed_requests < u64::MAX,
        request_recorded(&before, &after, false, 0, 0, duration),
    ensures
        after.total_requests == before.total_requests + 1,
        after.failed_requests == before.failed_requests + 1,
        after.successful_requests == before.successful_requests,
        after.sni_rewrites == before.sni_rewrites,
        after.upstream_errors == before.upstream_errors,
{
}

/// A successful request adds exactly one to the successful count, unless the
/// count is already at its maximum.
pub proof fn lemma_success_counted_once(
    before: Metrics,
    after: Metrics,
    bytes_received: u64,
    bytes_sent: u64,
    duration: Duration,
)
    requires
        before.successful_requests < u64::MAX,
        request_recorded(&before, &after, true, bytes_received, bytes_sent, duration),
    ensures
        after.successful_requests == before.successful_requests + 1,
        after.failed_requests == before.failed_requests,
{
}

/// The `le` label of finite latency bucket `i`, in seconds.
pub open spec fn le_label(i: int) -> Seq<char> {
    if i == 0 { "0.001"@ }
    else if i == 1 { "0.005"@ }
    else if i == 2 { "0.01"@ }
    else if i == 3 { "0.025"@ }
    else if i == 4 { "0.05"@ }
    else if i == 5 { "0.1"@ }
    else if i == 6 { "0.25"@ }
    else if i == 7 { "0.5"@ }
    else if i == 8 { "1"@ }
    else if i == 9 { "2.5"@ }
    else if i == 10 { "5"@ }
    else { "10"@ }
}

/// Observations in buckets `0..=i`, saturated.
pub open spec fn cumulative(b: Seq<u64>, i: int) -> u64
    decreases i + 1,
{
    if i < 0 || i >= b.len() {
        0
    } else {
        cumulative(b, i - 1).saturating_add(b[i])
    }
}

/// The three lines exposing one counter.
pub open spec fn counter_lines(name: Seq<char>, help: Seq<char>, v: u64) -> Seq<char> {
    "# HELP "@ + name + " "@ + help + "\n"@ + "# TYPE "@ + name + " counter\n"@ + name + " "@
        + decimal(v as nat) + "\n"@
}

/// The name of the latency histogram.
pub open spec fn histogram_name() -> Seq<char> {
    "dns_proxy_processing_time_seconds"@
}

/// The bucket lines of the first `n` finite buckets.
pub open spec fn bucket_lines(b: Seq<u64>, n: int) -> Seq<char>
    decreases n,
{
    if n <= 0 {
        Seq::empty()
    } else {
        bucket_lines(b, n - 1) + histogram_name() + "_bucket{le=\""@ + le_label(n - 1) + "\"} "@
            + decimal(cumulative(b, n - 1) as nat) + "\n"@
    }
}

/// Six decimal digits of `n` (below a million), zero-padded.
pub open spec fn six_digits(n: nat) -> Seq<char> {
    seq![
        digit_char((n / 100000) % 10),
        digit_char((n / 10000) % 10),
        digit_char((n / 1000) % 10),
        digit_char((n / 100) % 10),
        digit_char((n / 10) % 10),
        digit_char(n % 10),
    ]
}

/// A microsecond count written as seconds with six decimals.
pub open spec fn seconds_text(us: u64) -> Seq<char> {
    decimal((us / 1000000) as nat) + "."@ + six_digits((us % 1000000) as nat)
}

/// The counter part of the exposition.
pub open spec fn counters_text(m: &Metrics) -> Seq<char> {
    counter_lines("dns_proxy_requests_total"@, "Total requests processed"@, m.total_requests)
        + counter_lines("dns_proxy_requests_success_total"@, "Requests that completed"@, m.successful_requests)
        + counter_lines("dns_proxy_requests_failed_total"@, "Requests that failed"@, m.failed_requests)
        + counter_lines("dns_proxy_bytes_received_total"@, "Bytes received from clients"@, m.bytes_received)
        + counter_lines("dns_proxy_bytes_sent_total"@, "Bytes sent to clients"@, m.bytes_sent)
        + counter_lines("dns_proxy_sni_rewrites_total"@, "Hostnames rewritten"@, m.sni_rewrites)
        + counter_lines("dns_proxy_upstream_errors_total"@, "Upstream failures"@, m.upstream_errors)
}

/// The histogram part of the exposition.
pub open spec fn histogram_text(m: &Metrics) -> Seq<char> {
    "# HELP "@ + histogram_name() + " Request processing time\n"@
        + "# TYPE "@ + histogram_name() + " histogram\n"@
        + bucket_lines(m.buckets(), NUM_BOUNDS as int)
        + histogram_name() + "_bucket{le=\"+Inf\"} "@
        + decimal(cumulative(m.buckets(), NUM_BOUNDS as int) as nat) + "\n"@
        + histogram_name() + "_sum "@ + seconds_text(m.total_processing_time_us) + "\n"@
        + histogram_name() + "_count "@
        + decimal(cumulative(m.buckets(), NUM_BOUNDS as int) as nat) + "\n"@
}

/// The Prometheus text exposition of the counters and the latency histogram.
pub open spec fn prometheus_text(m: &Metrics) -> Seq<char> {
    counters_text(m) + histogram_text(m)
}

fn le_text(i: usize) -> (r: &'static str)
    requires
        i < NUM_BOUNDS,
    ensures
        r@ == le_label(i as int),
{
    if i == 0 { "0.001" }
    else if i == 1 { "0.005" }
    else if i == 2 { "0.01" }
    else if i == 3 { "0.025" }
    else if i == 4 { "0.05" }
    else if i == 5 { "0.1" }
    else if i == 6 { "0.25" }
    else if i == 7 { "0.5" }
    else if i == 8 { "1" }
    else if i == 9 { "2.5" }
    else if i == 10 { "5" }
    else { "10" }
}

fn push_counter(out: &mut String, name: &str, help: &str, v: u64)
    ensures
        final(out)@ == old(out)@ + counter_lines(name@, help@, v),
{
    let ghost start = out@;
    out.append("# HELP ");
    out.append(name);
    out.append(" ");
    out.append(help);
    out.append("\n");
    out.append("# TYPE ");
    out.append(name);
    out.append(" counter\n");
    out.append(name);
    out.append(" ");
    let t = decimal_text(v);
    out.append(t.as_str());
    out.append("\n");
    assert(out@ =~= start + counter_lines(name@, help@, v));
}

fn push_six_digits(out: &mut String, n: u64)
    requires
        n < 1000000,
    ensures
        final(out)@ == old(out)@ + six_digits(n as nat),
{
    let ghost start = out@;
    out.append(digit_text((n / 100000) % 10));
    out.append(digit_text((n / 10000) % 10));
    out.append(digit_text((n / 1000) % 10));
    out.append(digit_text((n / 100) % 10));
    out.append(digit_text((n / 10) % 10));
    out.append(digit_text(n % 10));
    assert(out@ =~= start + six_digits(n as nat));
}

impl Metrics {
    fn push_counters(&self, out: &mut String)
        ensures
            final(out)@ == old(out)@ + counters_text(self),
    {
        let ghost start = out@;
        push_counter(out, "dns_proxy_requests_total", "Total requests processed", self.total_requests);
        push_counter(out, "dns_proxy_requests_success_total", "Requests that completed", self.successful_requests);
        push_counter(out, "dns_proxy_requests_failed_total", "Requests that failed", self.failed_requests);
        push_counter(out, "dns_proxy_bytes_received_total", "Bytes received from clients", self.bytes_received);
        push_counter(out, "dns_proxy_bytes_sent_total", "Bytes sent to clients", self.bytes_sent);
        push_counter(out, "dns_proxy_sni_rewrites_total", "Hostnames rewritten", self.sni_rewrites);
        push_counter(out, "dns_proxy_upstream_errors_total", "Upstream failures", self.upstream_errors);
        assert(out@ =~= start + counters_text(self));
    }

    fn push_buckets(&self, out: &mut String) -> (cum: u64)
        requires
            self.wf(),
        ensures
            final(out)@ == old(out)@ + bucket_lines(self.buckets(), NUM_BOUNDS as int),
            cum == cumulative(self.buckets(), NUM_BOUNDS as int - 1),
    {
        let ghost head = out@;
        let name = "dns_proxy_processing_time_seconds";
        let mut cum: u64 = 0;
        let mut i: usize = 0;
        while i < NUM_BOUNDS
            invariant
                i <= NUM_BOUNDS,
                self.wf(),
                name@ == histogram_name(),
                cum == cumulative(self.buckets(), i as int - 1),
                out@ == head + bucket_lines(self.buckets(), i as int),
            decreases NUM_BOUNDS - i,
        {
            cum = cum.saturating_add(self.latency_buckets[i]);
            let ghost before = out@;
            out.append(name);
            out.append("_bucket{le=\"");
            out.append(le_text(i));
            out.append("\"} ");
            let t = decimal_text(cum);
            out.append(t.as_str());
            out.append("\n");
            i = i + 1;
            assert(out@ =~= before + (histogram_name() + "_bucket{le=\""@ + le_label(i - 1) + "\"} "@
                + decimal(cum as nat) + "\n"@));
            assert(out@ =~= head + bucket_lines(self.buckets(), i as int));
        }
        cum
    }

    #[verifier::rlimit(50)]
    fn push_histogram(&self, out: &mut String)
        requires
            self.wf(),
        ensures
            final(out)@ == old(out)@ + histogram_text(self),
    {
        let ghost start = out@;
        let name = "dns_proxy_processing_time_seconds";
        out.append("# HELP ");
        out.append(name);
        out.append(" Request processing time\n");
        out.append("# TYPE ");
        out.append(name);
        out.append(" histogram\n");
        let ghost mid = out@;
        let mut cum = self.push_buckets(out);
        let ghost after_buckets = out@;
        cum = cum.saturating_add(self.latency_buckets[NUM_BOUNDS]);
        assert(cum == cumulative(self.buckets(), NUM_BOUNDS as int));
        let total = decimal_text(cum);
        out.append(name);
        out.append("_bucket{le=\"+Inf\"} ");
        out.append(total.as_str());
        out.append("\n");
        out.append(name);
        out.append("_sum ");
        let us = self.total_processing_time_us;
        let secs = decimal_text(us / 1000000);
        out.append(secs.as_str());
        out.append(".");
        push_six_digits(out, us % 1000000);
        out.append("\n");
        out.append(name);
        out.append("_count ");
        out.append(total.as_str());
        out.append("\n");
        assert(out@ =~= start + histogram_text(self));
    }

    /// The counters and the latency histogram in the Prometheus text format.
    pub fn export_prometheus(&self) -> (r: String)
        requires
            self.wf(),
        ensures
            r@ == prometheus_text(self),
    {
        let mut out = String::new();
        self.push_counters(&mut out);
        self.push_histogram(&mut out);
        assert(out@ =~= prometheus_text(self));
        out
    }
}

/// Times an operation.
pub struct Timer {
    start: Instant,
}

impl Timer {
    /// Start timing now.
    pub fn start() -> Self {
        Timer { start: now() }
    }

    /// The time passed since the timer started.
    pub fn elapsed(&self) -> Duration {
        elapsed_since(&self.start)
    }
}

} // verus!
