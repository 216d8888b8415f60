//! Health statistics of the daemon and the payload of the health endpoint.

use std::collections::VecDeque;
use std::time::{SystemTime, UNIX_EPOCH};
use vstd::prelude::*;

verus! {

broadcast use vstd::std_specs::vecdeque::group_vec_dequeue_axioms;

/// How many recent DNS latency samples are kept.
pub const DNS_LATENCY_CAPACITY: usize = 100;

/// Counter increment as an atomic `fetch_add(1)` performs it: wrapping at
/// the top of the range.
pub open spec fn bump(c: u64) -> u64 {
    if c == u64::MAX {
        0
    } else {
        (c + 1) as u64
    }
}

fn bumped(c: u64) -> (r: u64)
    ensures
        r == bump(c),
{
    if c == u64::MAX {
        0
    } else {
        c + 1
    }
}

/// The latency window after recording `x`: when it is full, the oldest
/// sample makes room.
pub open spec fn window_push(w: Seq<u64>, x: u64) -> Seq<u64> {
    if w.len() >= DNS_LATENCY_CAPACITY {
        w.drop_first().push(x)
    } else {
        w.push(x)
    }
}

/// The latency window after recording every sample of `xs` in order,
/// starting from `w`.
pub open spec fn window_after(w: Seq<u64>, xs: Seq<u64>) -> Seq<u64>
    decreases xs.len(),
{
    if xs.len() == 0 {
        w
    } else {
        window_push(window_after(w, xs.drop_last()), xs.last())
    }
}

/// Calls `hostname::get` and converts the name lossily to UTF-8. Nothing is
/// claimed of the outcome: it is the machine's name, or none on failure.
#[verifier::external_body]
fn system_hostname() -> Option<String> {
    hostname::get().ok().map(|h| h.to_string_lossy().into_owned())
}

/// Live daemon statistics updated by probe tasks and served by the health endpoint.
#[derive(Debug)]
pub struct HealthState {
    /// Name of the traceroute service (set once at startup).
    pub service_name: String,
    /// Hostname of the machine running the daemon (resolved once at startup).
    pub hostname: String,
    /// Count of successfully completed traceroute operations.
    pub successful_traces: u64,
    /// Count of failed traceroute operations (destination not reached).
    pub unsuccessful_traces: u64,
    /// Total count of traceroute operations attempted.
    pub total_traces: u64,
    /// Recent DNS resolution latencies in microseconds, oldest first.
    pub dns_latencies_us: VecDeque<u64>,
}

impl HealthState {
    /// Constructs a new [`HealthState`] with the machine's hostname.
    pub fn new(service_name: &str) -> (r: HealthState)
        ensures
            r.service_name@ == service_name@,
            r.successful_traces == 0,
            r.unsuccessful_traces == 0,
            r.total_traces == 0,
            r.dns_latencies_us@ == Seq::<u64>::empty(),
    {
        HealthState::with_hostname(service_name, system_hostname())
    }

    /// Constructs a new [`HealthState`] for the given hostname lookup outcome;
    /// a failed lookup is recorded as "unknown".
    pub fn with_hostname(service_name: &str, hostname: Option<String>) -> (r: HealthState)
        ensures
            r.service_name@ == service_name@,
            r.hostname@ == match hostname {
                Some(h) => h@,
                None => "unknown"@,
            },
            r.successful_traces == 0,
            r.unsuccessful_traces == 0,
            r.total_traces == 0,
            r.dns_latencies_us@ == Seq::<u64>::empty(),
    {
        proof {
            reveal_strlit("unknown");
        }
        let hostname = match hostname {
            Some(h) => h,
            None => String::from_str("unknown"),
        };
        HealthState {
            service_name: String::from_str(service_name),
            hostname,
            successful_traces: 0,
            unsuccessful_traces: 0,
            total_traces: 0,
            dns_latencies_us: VecDeque::with_capacity(DNS_LATENCY_CAPACITY),
        }
    }

    /// Records a DNS latency sample, evicting the oldest entry beyond 100 samples.
    pub fn record_dns_latency(&mut self, latency_us: u64)
        ensures
            final(self).dns_latencies_us@ == window_push(old(self).dns_latencies_us@, latency_us),
            final(self).service_name == old(self).service_name,
            final(self).hostname == old(self).hostname,
            final(self).successful_traces == old(self).successful_traces,
            final(self).unsuccessful_traces == old(self).unsuccessful_traces,
            final(self).total_traces == old(self).total_traces,
    {
        if self.dns_latencies_us.len() >= DNS_LATENCY_CAPACITY {
            self.dns_latencies_us.pop_front();
        }
        self.dns_latencies_us.push_back(latency_us);
    }

    /// Counts a trace whose destination could not be resolved: it is both
    /// unsuccessful and attempted.
    pub fn record_unresolved(&mut self)
        ensures
            counters(*final(self)) == apply_bumps(
                counters(*old(self)),
                trace_bumps(TraceOutcome::Unresolved),
            ),
            final(self).unsuccessful_traces == bump(old(self).unsuccessful_traces),
            final(self).total_traces == bump(old(self).total_traces),
            final(self).successful_traces == old(self).successful_traces,
            final(self).dns_latencies_us@ == old(self).dns_latencies_us@,
            final(self).service_name == old(self).service_name,
            final(self).hostname == old(self).hostname,
    {
        proof {
            let bs = trace_bumps(TraceOutcome::Unresolved);
            assert(bs.drop_last() =~= seq![CounterBump::Unsuccessful]);
            assert(bs.drop_last().drop_last() =~= Seq::<CounterBump>::empty());
            reveal_with_fuel(apply_bumps, 3);
        }
        self.unsuccessful_traces = bumped(self.unsuccessful_traces);
        self.total_traces = bumped(self.total_traces);
    }

    /// Counts a trace that is about to run.
    pub fn record_trace_started(&mut self)
        ensures
            counters(*final(self)) == apply_bump(counters(*old(self)), CounterBump::Total),
            final(self).total_traces == bump(old(self).total_traces),
            final(self).successful_traces == old(self).successful_traces,
            final(self).unsuccessful_traces == old(self).unsuccessful_traces,
            final(self).dns_latencies_us@ == old(self).dns_latencies_us@,
            final(self).service_name == old(self).service_name,
            final(self).hostname == old(self).hostname,
    {
        self.total_traces = bumped(self.total_traces);
    }

    /// Counts the outcome of a trace that ran: successful when it reached
    /// its destination, unsuccessful otherwise.
    pub fn record_trace_outcome(&mut self, reached: bool)
        ensures
            counters(*final(self)) == apply_bump(
                counters(*old(self)),
                if reached {
                    CounterBump::Successful
                } else {
                    CounterBump::Unsuccessful
                },
            ),
            final(self).successful_traces == if reached {
                bump(old(self).successful_traces)
            } else {
                old(self).successful_traces
            },
            final(self).unsuccessful_traces == if reached {
                old(self).unsuccessful_traces
            } else {
                bump(old(self).unsuccessful_traces)
            },
            final(self).total_traces == old(self).total_traces,
            final(self).dns_latencies_us@ == old(self).dns_latencies_us@,
            final(self).service_name == old(self).service_name,
            final(self).hostname == old(self).hostname,
    {
        if reached {
            self.successful_traces = bumped(self.successful_traces);
        } else {
            self.unsuccessful_traces = bumped(self.unsuccessful_traces);
        }
    }

    /// The recorded DNS latency samples, oldest first.
    pub fn dns_latencies(&self) -> (r: Vec<u64>)
        ensures
            r@ == self.dns_latencies_us@,
    {
        let mut out: Vec<u64> = Vec::new();
        let mut i: usize = 0;
        while i < self.dns_latencies_us.len()
            invariant
                0 <= i <= self.dns_latencies_us@.len(),
                out@ == self.dns_latencies_us@.take(i as int),
            decreases self.dns_latencies_us@.len() - i,
        {
            out.push(self.dns_latencies_us[i]);
            i = i + 1;
            assert(out@ =~= self.dns_latencies_us@.take(i as int));
        }
        assert(out@ =~= self.dns_latencies_us@);
        out
    }
}

/// Health-check response payload reflecting the daemon status and statistics.
#[derive(Debug, Clone, PartialEq, Eq)]
pub struct HealthCheckResponse {
    /// Overall service status (e.g. "ok").
    pub status: String,
    /// Name of the monitored traceroute service.
    pub service_name: String,
    /// Hostname where the service daemon is executing.
    pub hostname: String,
    /// RFC 3339 formatted timestamp of the health-check query.
    pub current_time: String,
    /// Aggregate probe metrics and DNS resolution statistics.
    pub details: HealthCheckDetails,
}

/// Detailed execution statistics for the health-check response.
#[derive(Debug, Clone, PartialEq, Eq)]
pub struct HealthCheckDetails {
    /// Number of successfully completed traceroute operations.
    pub successful_traces: u64,
    /// Number of failed traceroute operations.
    pub unsuccessful_traces: u64,
    /// Total count of traceroute attempts initiated.
    pub total_traces: u64,
    /// DNS lookup latencies recorded across probe runs.
    pub dns_latency: Vec<u64>,
}

/// The payload for the given statistics and timestamp, with status "ok".
pub open spec fn payload_fields(
    r: HealthCheckResponse,
    service_name: Seq<char>,
    hostname: Seq<char>,
    success: u64,
    fail: u64,
    total: u64,
    dns_latency: Seq<u64>,
    current_time: Seq<char>,
) -> bool {
    &&& r.status@ == "ok"@
    &&& r.service_name@ == service_name
    &&& r.hostname@ == hostname
    &&& r.current_time@ == current_time
    &&& r.details.successful_traces == success
    &&& r.details.unsuccessful_traces == fail
    &&& r.details.total_traces == total
    &&& r.details.dns_latency@ == dns_latency
}

/// Constructs a [`HealthCheckResponse`] with the provided execution
/// statistics, no DNS samples, and the given timestamp.
pub fn health_payload_at(
    service_name: &str,
    hostname: &str,
    success: u64,
    fail: u64,
    total: u64,
    current_time: String,
) -> (r: HealthCheckResponse)
    ensures
        payload_fields(r, service_name@, hostname@, success, fail, total, Seq::empty(), current_time@),
{
    proof {
        reveal_strlit("ok");
    }
    HealthCheckResponse {
        status: String::from_str("ok"),
        service_name: String::from_str(service_name),
        hostname: String::from_str(hostname),
        current_time,
        details: HealthCheckDetails {
            successful_traces: success,
            unsuccessful_traces: fail,
            total_traces: total,
            dns_latency: Vec::new(),
        },
    }
}

/// The RFC 3339 text (UTC, fractional seconds shown only when non-zero)
/// of the instant `secs` seconds and `nanos` nanoseconds after the Unix
/// epoch, as humantime writes it.
pub uninterp spec fn rfc3339_text(secs: u64, nanos: u32) -> Seq<char>;

/// Seconds since the epoch of the first instant humantime cannot write
/// (the year 10000).
pub const RFC3339_LIMIT_SECS: u64 = 253_402_300_800;

#[verifier::external_type_specification]
#[verifier::external_body]
pub struct ExSystemTime(SystemTime);

/// Calls `SystemTime::now`. Nothing is claimed of the clock.
#[verifier::external_body]
fn system_now() -> SystemTime {
    SystemTime::now()
}

/// Calls `SystemTime::duration_since(UNIX_EPOCH)` and splits the span into
/// whole seconds and nanoseconds. Claimed: `None` exactly when the time lies
/// before the epoch (which depends on the clock and is not stated), and the
/// nanoseconds stay below one second, as `Duration::subsec_nanos` documents.
#[verifier::external_body]
fn since_unix_epoch(t: SystemTime) -> (r: Option<(u64, u32)>)
    ensures
        r matches Some(p) ==> p.1 < 1_000_000_000,
{
    t.duration_since(UNIX_EPOCH).ok().map(|d| (d.as_secs(), d.subsec_nanos()))
}

/// Calls `humantime::format_rfc3339` on the instant `secs` seconds and
/// `nanos` nanoseconds after the epoch and renders it. Claimed: the text is
/// the value named `rfc3339_text`. The source refuses to write years from
/// 10000 on, which the `requires` leaves out.
#[verifier::external_body]
fn format_rfc3339(secs: u64, nanos: u32) -> (r: String)
    requires
        secs < RFC3339_LIMIT_SECS,
        nanos < 1_000_000_000,
    ensures
        r@ == rfc3339_text(secs, nanos),
{
    humantime::format_rfc3339(UNIX_EPOCH + std::time::Duration::new(secs, nanos)).to_string()
}

/// The RFC 3339 text of a time given as its distance from the epoch:
/// empty when there is none (the clock lies before the epoch) or when it
/// falls in the year 10000 or later.
pub fn rfc3339_or_empty(since_epoch: Option<(u64, u32)>) -> (r: String)
    ensures
        match since_epoch {
            Some((secs, nanos)) => if secs < RFC3339_LIMIT_SECS && nanos < 1_000_000_000 {
                r@ == rfc3339_text(secs, nanos)
            } else {
                r@.len() == 0
            },
            None => r@.len() == 0,
        },
{
    match since_epoch {
        Some((secs, nanos)) => {
            if secs < RFC3339_LIMIT_SECS && nanos < 1_000_000_000 {
                format_rfc3339(secs, nanos)
            } else {
                String::new()
            }
        },
        None => String::new(),
    }
}

/// The current time as RFC 3339 text; empty when the clock lies before the
/// epoch or beyond the year 9999.
pub fn current_time_text() -> (r: String)
    ensures
        r@.len() == 0 || exists|secs: u64, nanos: u32| r@ == rfc3339_text(secs, nanos),
{
    rfc3339_or_empty(since_unix_epoch(system_now()))
}

/// Constructs a [`HealthCheckResponse`] with the provided execution
/// statistics, stamped with the current time in RFC 3339 format.
pub fn create_health_payload(
    service_name: &str,
    hostname: &str,
    success: u64,
    fail: u64,
    total: u64,
) -> (r: HealthCheckResponse)
    ensures
        payload_fields(
            r,
            service_name@,
            hostname@,
            success,
            fail,
            total,
            Seq::empty(),
            r.current_time@,
        ),
        r.current_time@.len() == 0 || exists|secs: u64, nanos: u32|
            r.current_time@ == rfc3339_text(secs, nanos),
{
    health_payload_at(service_name, hostname, success, fail, total, current_time_text())
}

impl HealthState {
    /// The health payload reflecting the live statistics, with the given timestamp.
    pub fn payload(&self, current_time: String) -> (r: HealthCheckResponse)
        ensures
            payload_fields(
                r,
                self.service_name@,
                self.hostname@,
                self.successful_traces,
                self.unsuccessful_traces,
                self.total_traces,
                self.dns_latencies_us@,
                current_time@,
            ),
    {
        proof {
            reveal_strlit("ok");
        }
        HealthCheckResponse {
            status: String::from_str("ok"),
            service_name: self.service_name.clone(),
            hostname: self.hostname.clone(),
            current_time,
            details: HealthCheckDetails {
                successful_traces: self.successful_traces,
                unsuccessful_traces: self.unsuccessful_traces,
                total_traces: self.total_traces,
                dns_latency: self.dns_latencies(),
            },
        }
    }
}

/// The route under which the health handler is served: `path` itself when
/// it starts with '/', otherwise `path` with '/' in front.
pub open spec fn route_path_text(path: Seq<char>) -> Seq<char> {
    if path.len() > 0 && path[0] == '/' {
        path
    } else {
        seq!['/'] + path
    }
}

/// Normalises the configured health-check path into a route.
pub fn health_route_path(path: &str) -> (r: String)
    ensures
        r@ == route_path_text(path@),
{
    proof {
        reveal_strlit("/");
    }
    if path.unicode_len() > 0 && path.get_char(0) == '/' {
        String::from_str(path)
    } else {
        let mut route = String::from_str("/");
        route.append(path);
        route
    }
}

/// One increment of a trace counter.
#[derive(Debug, Clone, Copy, PartialEq, Eq, Structural)]
pub enum CounterBump {
    /// `successful_traces` rises by one.
    Successful,
    /// `unsuccessful_traces` rises by one.
    Unsuccessful,
    /// `total_traces` rises by one.
    Total,
}

/// The trace counters of a state: successful, unsuccessful, total.
pub open spec fn counters(s: HealthState) -> (u64, u64, u64) {
    (s.successful_traces, s.unsuccessful_traces, s.total_traces)
}

/// The counters after one increment, wrapping as an atomic `fetch_add` does.
pub open spec fn apply_bump(c: (u64, u64, u64), b: CounterBump) -> (u64, u64, u64) {
    match b {
        CounterBump::Successful => (bump(c.0), c.1, c.2),
        CounterBump::Unsuccessful => (c.0, bump(c.1), c.2),
        CounterBump::Total => (c.0, c.1, bump(c.2)),
    }
}

/// The counters after the increments of `bs`, in order.
pub open spec fn apply_bumps(c: (u64, u64, u64), bs: Seq<CounterBump>) -> (u64, u64, u64)
    decreases bs.len(),
{
    if bs.len() == 0 {
        c
    } else {
        apply_bump(apply_bumps(c, bs.drop_last()), bs.last())
    }
}

/// How one destination of a daemon batch ended.
#[derive(Debug, Clone, Copy, PartialEq, Eq, Structural)]
pub enum TraceOutcome {
    /// The destination did not resolve.
    Unresolved,
    /// The trace ran; `reached` tells whether it reached the destination.
    Ran { reached: bool },
}

/// The increments one destination makes: an unresolved one counts as
/// unsuccessful and attempted; a trace that ran counts as attempted when it
/// starts, then as successful or unsuccessful.
pub open spec fn trace_bumps(o: TraceOutcome) -> Seq<CounterBump> {
    match o {
        TraceOutcome::Unresolved => seq![CounterBump::Unsuccessful, CounterBump::Total],
        TraceOutcome::Ran { reached } => seq![
            CounterBump::Total,
            if reached {
                CounterBump::Successful
            } else {
                CounterBump::Unsuccessful
            },
        ],
    }
}

/// The increments of a whole batch, destination after destination.
pub open spec fn batch_bumps(os: Seq<TraceOutcome>) -> Seq<CounterBump>
    decreases os.len(),
{
    if os.len() == 0 {
        Seq::empty()
    } else {
        batch_bumps(os.drop_last()) + trace_bumps(os.last())
    }
}

/// How many destinations of the batch were reached.
pub open spec fn reached_count(os: Seq<TraceOutcome>) -> nat
    decreases os.len(),
{
    if os.len() == 0 {
        0
    } else {
        reached_count(os.drop_last()) + if os.last() == (TraceOutcome::Ran { reached: true }) {
            1nat
        } else {
            0nat
        }
    }
}

/// Increments that do not reach the top of the range add up: each counter
/// rises by how many increments name it, in whatever order they came.
pub proof fn lemma_bumps_counted(c: (u64, u64, u64), bs: Seq<CounterBump>)
    requires
        c.0 + bs.to_multiset().count(CounterBump::Successful) <= u64::MAX,
        c.1 + bs.to_multiset().count(CounterBump::Unsuccessful) <= u64::MAX,
        c.2 + bs.to_multiset().count(CounterBump::Total) <= u64::MAX,
    ensures
        apply_bumps(c, bs) == (
            (c.0 + bs.to_multiset().count(CounterBump::Successful)) as u64,
            (c.1 + bs.to_multiset().count(CounterBump::Unsuccessful)) as u64,
            (c.2 + bs.to_multiset().count(CounterBump::Total)) as u64,
        ),
    decreases bs.len(),
{
    broadcast use {vstd::seq_lib::group_to_multiset_ensures, vstd::multiset::group_multiset_axioms};

    if bs.len() > 0 {
        let p = bs.drop_last();
        assert(bs =~= p.push(bs.last()));
        assert(bs.to_multiset() =~= p.to_multiset().insert(bs.last()));
        lemma_bumps_counted(c, p);
    } else {
        assert(bs.to_multiset() =~= vstd::multiset::Multiset::<CounterBump>::empty());
    }
}

/// A batch over `os` makes one `Total` increment per destination, one
/// `Successful` increment per destination reached, and one `Unsuccessful`
/// increment per other destination.
pub proof fn lemma_batch_bumps(os: Seq<TraceOutcome>)
    ensures
        batch_bumps(os).to_multiset().count(CounterBump::Total) == os.len(),
        batch_bumps(os).to_multiset().count(CounterBump::Successful) == reached_count(os),
        batch_bumps(os).to_multiset().count(CounterBump::Unsuccessful) == os.len() - reached_count(
            os,
        ),
        reached_count(os) <= os.len(),
    decreases os.len(),
{
    broadcast use {vstd::seq_lib::group_to_multiset_ensures, vstd::multiset::group_multiset_axioms};

    if os.len() == 0 {
        assert(batch_bumps(os).to_multiset() =~= vstd::multiset::Multiset::<CounterBump>::empty());
    } else {
        let p = os.drop_last();
        lemma_batch_bumps(p);
        let t = trace_bumps(os.last());
        vstd::seq_lib::lemma_multiset_commutative(batch_bumps(p), t);
        assert(t =~= seq![t[0]].push(t[1]));
        assert(seq![t[0]] =~= Seq::<CounterBump>::empty().push(t[0]));
        assert(t.to_multiset() =~= vstd::multiset::Multiset::<CounterBump>::empty().insert(t[0]).insert(t[1]));
    }
}

/// Over one daemon batch of `os.len()` destinations, however the
/// increments of the concurrent traces interleave (`bs` holds the batch's
/// increments in any order), the total rises by the number of
/// destinations, the successful count by the number reached, and the
/// unsuccessful count by the rest: every destination is counted once
/// among the attempts and once among the outcomes. No counter may reach
/// the top of its range.
pub proof fn lemma_batch_counted(c: (u64, u64, u64), os: Seq<TraceOutcome>, bs: Seq<CounterBump>)
    requires
        bs.to_multiset() == batch_bumps(os).to_multiset(),
        c.0 + os.len() <= u64::MAX,
        c.1 + os.len() <= u64::MAX,
        c.2 + os.len() <= u64::MAX,
    ensures
        apply_bumps(c, bs).2 == c.2 + os.len(),
        apply_bumps(c, bs).0 == c.0 + reached_count(os),
        apply_bumps(c, bs).1 == c.1 + (os.len() - reached_count(os)),
        apply_bumps(c, bs).0 + apply_bumps(c, bs).1 == c.0 + c.1 + os.len(),
{
    lemma_batch_bumps(os);
    lemma_bumps_counted(c, bs);
}

/// A normalised route starts with '/', and normalising it again changes
/// nothing.
pub proof fn lemma_route_path_normalised(path: Seq<char>)
    ensures
        route_path_text(path).len() > 0,
        route_path_text(path)[0] == '/',
        route_path_text(route_path_text(path)) == route_path_text(path),
        path.len() > 0 && path[0] == '/' ==> route_path_text(path) == path,
{
}

/// Every trace is counted once among the attempts and once among the
/// outcomes: a trace that ran (started, then its outcome recorded) and a
/// trace whose destination did not resolve each raise the total by one and
/// the sum of successful and unsuccessful traces by one, while no counter
/// is at the top of its range.
pub proof fn lemma_trace_counted_once(successful: u64, unsuccessful: u64, total: u64, reached: bool)
    requires
        successful < u64::MAX,
        unsuccessful < u64::MAX,
        total < u64::MAX,
    ensures
        bump(total) == total + 1,
        (if reached {
            bump(successful)
        } else {
            successful
        }) + (if reached {
            unsuccessful
        } else {
            bump(unsuccessful)
        }) == successful + unsuccessful + 1,
        successful + bump(unsuccessful) == successful + unsuccessful + 1,
{
}

/// The most recent samples of `xs`, at most [`DNS_LATENCY_CAPACITY`] of them.
pub open spec fn recent_samples(xs: Seq<u64>) -> Seq<u64> {
    if xs.len() <= DNS_LATENCY_CAPACITY {
        xs
    } else {
        xs.subrange(xs.len() - DNS_LATENCY_CAPACITY, xs.len() as int)
    }
}

/// Recording samples into an empty window keeps exactly the most recent
/// hundred of them, oldest first.
pub proof fn lemma_latency_window_keeps_recent(xs: Seq<u64>)
    ensures
        window_after(Seq::empty(), xs) == recent_samples(xs),
    decreases xs.len(),
{
    if xs.len() > 0 {
        let prev = xs.drop_last();
        lemma_latency_window_keeps_recent(prev);
        if xs.len() <= DNS_LATENCY_CAPACITY {
            assert(prev.push(xs.last()) =~= xs);
        } else if prev.len() <= DNS_LATENCY_CAPACITY {
            assert(prev.drop_first().push(xs.last()) =~= recent_samples(xs));
        } else {
            let w = recent_samples(prev);
            assert(w.drop_first().push(xs.last()) =~= recent_samples(xs));
        }
    }
}

/// A window of at most a hundred samples stays within a hundred samples.
pub proof fn lemma_latency_window_bounded(w: Seq<u64>, x: u64)
    requires
        w.len() <= DNS_LATENCY_CAPACITY,
    ensures
        window_push(w, x).len() <= DNS_LATENCY_CAPACITY,
        window_push(w, x).last() == x,
{
}

} // verus!
