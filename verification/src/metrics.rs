//! Protocol-level metrics: counters, gauges and bucketed histograms,
//! plus the in-flight gauge that enforces the per-agent concurrency
//! bound.
//!
//! Times are carried as plain microsecond and millisecond values; the
//! clock lives with the caller.

use vstd::prelude::*;

verus! {

/// Increment that stops at the counter's ceiling.
pub open spec fn spec_inc(n: u64) -> u64 {
    if n < u64::MAX { (n + 1) as u64 } else { n }
}

/// Snapshot of one histogram.
#[derive(Debug)]
pub struct HistogramSnapshot {
    /// Bucket boundaries in microseconds
    pub buckets: Vec<u64>,
    /// Counts per bucket, one extra for everything over the last bound
    pub counts: Vec<u64>,
    /// Sum of all observations in microseconds
    pub sum: u64,
    /// Total number of observations
    pub count: u64,
}

/// Bucketed histogram over microsecond observations.
#[derive(Debug)]
pub struct HistogramMetric {
    /// Bucket boundaries in microseconds, in ascending order of use
    pub buckets: Vec<u64>,
    /// Counts per bucket, one extra for everything over the last bound
    pub counts: Vec<u64>,
    /// Sum of all observations in microseconds
    pub sum: u64,
    /// Total number of observations
    pub count: u64,
}

/// The bucket an observation falls into: the first boundary it does
/// not exceed, or one past the end.
pub open spec fn spec_bucket_idx(bs: Seq<u64>, micros: u64) -> int
    decreases bs.len(),
{
    if bs.len() == 0 {
        0
    } else if micros <= bs[0] {
        0
    } else {
        1 + spec_bucket_idx(bs.subrange(1, bs.len() as int), micros)
    }
}

/// The bucket index is the first boundary not below the observation.
pub proof fn lemma_bucket_idx(bs: Seq<u64>, micros: u64)
    ensures
        0 <= spec_bucket_idx(bs, micros) <= bs.len(),
        spec_bucket_idx(bs, micros) < bs.len() ==> micros <= bs[spec_bucket_idx(bs, micros)],
        forall|k: int| 0 <= k < spec_bucket_idx(bs, micros) ==> micros > bs[k],
    decreases bs.len(),
{
    if bs.len() > 0 && micros > bs[0] {
        let t = bs.subrange(1, bs.len() as int);
        lemma_bucket_idx(t, micros);
        assert(forall|k: int| 0 <= k < t.len() ==> t[k] == bs[k + 1]);
        assert forall|k: int| 0 <= k < spec_bucket_idx(bs, micros) implies micros > bs[k] by {
            if k > 0 {
                assert(bs[k] == t[k - 1]);
            }
        }
    }
}

/// Copy a vector of 64-bit values.
pub fn clone_u64_vec(v: &Vec<u64>) -> (r: Vec<u64>)
    ensures
        r@ == v@,
{
    let n = v.len();
    let mut out: Vec<u64> = Vec::new();
    let mut i: usize = 0;
    while i < n
        invariant
            i <= n,
            n == v@.len(),
            out@ =~= v@.subrange(0, i as int),
        decreases n - i,
    {
        out.push(v[i]);
        proof {
            assert(out@ =~= v@.subrange(0, (i + 1) as int));
        }
        i = i + 1;
    }
    proof {
        assert(out@ =~= v@);
    }
    out
}

impl HistogramMetric {
    /// One count slot per bucket, plus one for the overflow bucket.
    pub open spec fn wf(&self) -> bool {
        self.counts@.len() == self.buckets@.len() + 1
    }

    /// Histogram with custom bucket boundaries, in microseconds.
    pub fn with_buckets(buckets: Vec<u64>) -> (h: HistogramMetric)
        ensures
            h.buckets@ == buckets@,
            h.counts@.len() == buckets@.len() + 1,
            forall|k: int| 0 <= k < h.counts@.len() ==> h.counts@[k] == 0,
            h.sum == 0,
            h.count == 0,
            h.wf(),
    {
        let n = buckets.len();
        let mut counts: Vec<u64> = Vec::new();
        let mut i: usize = 0;
        while i < n
            invariant
                i <= n,
                counts@.len() == i,
                forall|k: int| 0 <= k < i ==> counts@[k] == 0,
            decreases n - i,
        {
            counts.push(0);
            i = i + 1;
        }
        counts.push(0);
        HistogramMetric { buckets, counts, sum: 0, count: 0 }
    }

    /// Record one observation, in microseconds.
    pub fn record(&mut self, micros: u64)
        requires
            old(self).wf(),
        ensures
            final(self).wf(),
            final(self).buckets@ == old(self).buckets@,
            final(self).sum == (if old(self).sum as int + micros as int <= u64::MAX as int {
                (old(self).sum + micros) as u64 } else { u64::MAX }),
            final(self).count == spec_inc(old(self).count),
            final(self).counts@ == old(self).counts@.update(
                spec_bucket_idx(old(self).buckets@, micros),
                spec_inc(old(self).counts@[spec_bucket_idx(old(self).buckets@, micros)])),
    {
        proof {
            lemma_bucket_idx(self.buckets@, micros);
        }
        if micros <= u64::MAX - self.sum {
            self.sum = self.sum + micros;
        } else {
            self.sum = u64::MAX;
        }
        if self.count < u64::MAX {
            self.count = self.count + 1;
        }
        let n = self.buckets.len();
        let mut i: usize = 0;
        while i < n && self.buckets[i] < micros
            invariant
                i <= n,
                n == self.buckets@.len(),
                forall|k: int| 0 <= k < i ==> micros > self.buckets@[k],
            decreases n - i,
        {
            i = i + 1;
        }
        proof {
            lemma_bucket_idx(self.buckets@, micros);
            let b = spec_bucket_idx(self.buckets@, micros);
            if i < n {
                assert(micros <= self.buckets@[i as int]);
                if b < i {
                    assert(micros > self.buckets@[b]);
                }
                assert(b == i);
            } else {
                if b < n {
                    assert(micros <= self.buckets@[b]);
                    assert(micros > self.buckets@[b]);
                }
                assert(b == n);
            }
        }
        let c = self.counts.remove(i);
        let c2 = if c < u64::MAX { c + 1 } else { c };
        self.counts.insert(i, c2);
        proof {
            assert(self.counts@ =~= old(self).counts@.update(i as int, spec_inc(c)));
        }
    }

    /// Snapshot of the histogram's current values.
    pub fn snapshot(&self) -> (s: HistogramSnapshot)
        ensures
            s.buckets@ == self.buckets@,
            s.counts@ == self.counts@,
            s.sum == self.sum,
            s.count == self.count,
    {
        HistogramSnapshot {
            buckets: clone_u64_vec(&self.buckets),
            counts: clone_u64_vec(&self.counts),
            sum: self.sum,
            count: self.count,
        }
    }
}

impl Default for HistogramMetric {
    /// Buckets at 10 µs, 50 µs, 100 µs, 500 µs, 1 ms, 5 ms, 10 ms,
    /// 50 ms, 100 ms, 500 ms and 1 s.
    fn default() -> (h: HistogramMetric)
        ensures
            h.buckets@ =~= seq![10u64, 50u64, 100u64, 500u64, 1000u64, 5000u64,
                10000u64, 50000u64, 100000u64, 500000u64, 1000000u64],
            h.counts@.len() == 12,
            forall|k: int| 0 <= k < h.counts@.len() ==> h.counts@[k] == 0,
            h.sum == 0,
            h.count == 0,
            h.wf(),
    {
        let buckets: Vec<u64> = vec![10, 50, 100, 500, 1000, 5000,
            10000, 50000, 100000, 500000, 1000000];
        HistogramMetric::with_buckets(buckets)
    }
}

/// Measure a duration against a caller-supplied clock, then record it.
#[derive(Debug, Clone, Copy, PartialEq, Eq, Structural)]
pub struct DurationRecorder {
    /// The clock value when measurement began, in microseconds
    pub start_micros: u64,
}

impl DurationRecorder {
    /// Start measuring at the given clock value.
    pub fn new(start_micros: u64) -> (r: DurationRecorder)
        ensures
            r.start_micros == start_micros,
    {
        DurationRecorder { start_micros }
    }

    /// Record the elapsed time into a histogram.
    pub fn record(self, now_micros: u64, histogram: &mut HistogramMetric)
        requires
            old(histogram).wf(),
            now_micros >= self.start_micros,
        ensures
            final(histogram).wf(),
            final(histogram).count == spec_inc(old(histogram).count),
            final(histogram).buckets@ == old(histogram).buckets@,
            final(histogram).counts@ == old(histogram).counts@.update(
                spec_bucket_idx(old(histogram).buckets@, (now_micros - self.start_micros) as u64),
                spec_inc(old(histogram).counts@[
                    spec_bucket_idx(old(histogram).buckets@,
                        (now_micros - self.start_micros) as u64)])),
    {
        histogram.record(now_micros - self.start_micros);
    }
}

/// Snapshot of all protocol metrics: a lock-free read in spirit, a
/// plain copy here.
#[derive(Debug)]
pub struct ProtocolMetricsSnapshot {
    /// Total requests sent
    pub requests_total: u64,
    /// Total responses received
    pub responses_total: u64,
    /// Requests that timed out
    pub timeouts_total: u64,
    /// Connection errors
    pub connection_errors_total: u64,
    /// Serialization errors
    pub serialization_errors_total: u64,
    /// Flow-control pause events
    pub flow_control_pauses_total: u64,
    /// Flow-control resume events
    pub flow_control_resumes_total: u64,
    /// Requests rejected due to flow control
    pub flow_control_rejections_total: u64,
    /// Current in-flight requests
    pub in_flight_requests: u64,
    /// Current buffer utilization, 0 to 100
    pub buffer_utilization_percent: u64,
    /// Healthy connections
    pub healthy_connections: u64,
    /// Paused connections
    pub paused_connections: u64,
    /// Serialization time histogram
    pub serialization_time: HistogramSnapshot,
    /// End-to-end request duration histogram
    pub request_duration: HistogramSnapshot,
}

/// Protocol-level metrics for one agent pool.
#[derive(Debug)]
pub struct ProtocolMetrics {
    /// Total requests sent
    pub requests_total: u64,
    /// Total responses received
    pub responses_total: u64,
    /// Requests that timed out
    pub timeouts_total: u64,
    /// Connection errors
    pub connection_errors_total: u64,
    /// Serialization errors
    pub serialization_errors_total: u64,
    /// Flow-control pause events
    pub flow_control_pauses_total: u64,
    /// Flow-control resume events
    pub flow_control_resumes_total: u64,
    /// Requests rejected due to flow control
    pub flow_control_rejections_total: u64,
    /// Current in-flight requests
    pub in_flight_requests: u64,
    /// Current buffer utilization, 0 to 100
    pub buffer_utilization_percent: u64,
    /// Healthy connections
    pub healthy_connections: u64,
    /// Paused connections
    pub paused_connections: u64,
    /// Serialization time histogram
    pub serialization_time: HistogramMetric,
    /// End-to-end request duration histogram
    pub request_duration: HistogramMetric,
}

impl ProtocolMetrics {
    /// Both histograms carry their overflow slot.
    pub open spec fn wf(&self) -> bool {
        self.serialization_time.wf() && self.request_duration.wf()
    }

    /// Fresh metrics: every counter and gauge at zero.
    pub fn new() -> (m: ProtocolMetrics)
        ensures
            m.requests_total == 0,
            m.responses_total == 0,
            m.timeouts_total == 0,
            m.connection_errors_total == 0,
            m.serialization_errors_total == 0,
            m.flow_control_pauses_total == 0,
            m.flow_control_resumes_total == 0,
            m.flow_control_rejections_total == 0,
            m.in_flight_requests == 0,
            m.buffer_utilization_percent == 0,
            m.healthy_connections == 0,
            m.paused_connections == 0,
            m.serialization_time.count == 0,
            m.serialization_time.sum == 0,
            forall|k: int| 0 <= k < m.serialization_time.counts@.len()
                ==> m.serialization_time.counts@[k] == 0,
            m.request_duration.count == 0,
            m.request_duration.sum == 0,
            forall|k: int| 0 <= k < m.request_duration.counts@.len()
                ==> m.request_duration.counts@[k] == 0,
            m.wf(),
    {
        ProtocolMetrics {
            requests_total: 0,
            responses_total: 0,
            timeouts_total: 0,
            connection_errors_total: 0,
            serialization_errors_total: 0,
            flow_control_pauses_total: 0,
            flow_control_resumes_total: 0,
            flow_control_rejections_total: 0,
            in_flight_requests: 0,
            buffer_utilization_percent: 0,
            healthy_connections: 0,
            paused_connections: 0,
            serialization_time: HistogramMetric::default(),
            request_duration: HistogramMetric::default(),
        }
    }

    /// Count one request sent.
    pub fn inc_requests(&mut self)
        ensures
            *final(self) == (ProtocolMetrics {
                requests_total: spec_inc(old(self).requests_total), ..*old(self) }),
    {
        if self.requests_total < u64::MAX {
            self.requests_total = self.requests_total + 1;
        }
    }

    /// Count one response received.
    pub fn inc_responses(&mut self)
        ensures
            *final(self) == (ProtocolMetrics {
                responses_total: spec_inc(old(self).responses_total), ..*old(self) }),
    {
        if self.responses_total < u64::MAX {
            self.responses_total = self.responses_total + 1;
        }
    }

    /// Count one timeout: exactly one increment per timed-out call.
    pub fn inc_timeouts(&mut self)
        ensures
            *final(self) == (ProtocolMetrics {
                timeouts_total: spec_inc(old(self).timeouts_total), ..*old(self) }),
    {
        if self.timeouts_total < u64::MAX {
            self.timeouts_total = self.timeouts_total + 1;
        }
    }

    /// Count one connection error.
    pub fn inc_connection_errors(&mut self)
        ensures
            *final(self) == (ProtocolMetrics {
                connection_errors_total: spec_inc(old(self).connection_errors_total),
                ..*old(self) }),
    {
        if self.connection_errors_total < u64::MAX {
            self.connection_errors_total = self.connection_errors_total + 1;
        }
    }

    /// Count one serialization error.
    pub fn inc_serialization_errors(&mut self)
        ensures
            *final(self) == (ProtocolMetrics {
                serialization_errors_total: spec_inc(old(self).serialization_errors_total),
                ..*old(self) }),
    {
        if self.serialization_errors_total < u64::MAX {
            self.serialization_errors_total = self.serialization_errors_total + 1;
        }
    }

    /// Count one flow-control pause.
    pub fn record_flow_pause(&mut self)
        ensures
            *final(self) == (ProtocolMetrics {
                flow_control_pauses_total: spec_inc(old(self).flow_control_pauses_total),
                ..*old(self) }),
    {
        if self.flow_control_pauses_total < u64::MAX {
            self.flow_control_pauses_total = self.flow_control_pauses_total + 1;
        }
    }

    /// Count one flow-control resume.
    pub fn record_flow_resume(&mut self)
        ensures
            *final(self) == (ProtocolMetrics {
                flow_control_resumes_total: spec_inc(old(self).flow_control_resumes_total),
                ..*old(self) }),
    {
        if self.flow_control_resumes_total < u64::MAX {
            self.flow_control_resumes_total = self.flow_control_resumes_total + 1;
        }
    }

    /// Count one request rejected by flow control.
    pub fn record_flow_rejection(&mut self)
        ensures
            *final(self) == (ProtocolMetrics {
                flow_control_rejections_total: spec_inc(old(self).flow_control_rejections_total),
                ..*old(self) }),
    {
        if self.flow_control_rejections_total < u64::MAX {
            self.flow_control_rejections_total = self.flow_control_rejections_total + 1;
        }
    }

    /// Set the in-flight gauge.
    pub fn set_in_flight(&mut self, count: u64)
        ensures
            *final(self) == (ProtocolMetrics { in_flight_requests: count, ..*old(self) }),
    {
        self.in_flight_requests = count;
    }

    /// Step the in-flight gauge up.
    pub fn inc_in_flight(&mut self)
        ensures
            *final(self) == (ProtocolMetrics {
                in_flight_requests: spec_inc(old(self).in_flight_requests), ..*old(self) }),
    {
        if self.in_flight_requests < u64::MAX {
            self.in_flight_requests = self.in_flight_requests + 1;
        }
    }

    /// Step the in-flight gauge down; zero stays zero.
    pub fn dec_in_flight(&mut self)
        ensures
            *final(self) == (ProtocolMetrics {
                in_flight_requests: if old(self).in_flight_requests > 0 {
                    (old(self).in_flight_requests - 1) as u64 } else { 0 },
                ..*old(self) }),
    {
        if self.in_flight_requests > 0 {
            self.in_flight_requests = self.in_flight_requests - 1;
        }
    }

    /// Set the buffer-utilization gauge, capped at 100.
    pub fn set_buffer_utilization(&mut self, percent: u64)
        ensures
            *final(self) == (ProtocolMetrics {
                buffer_utilization_percent: if percent <= 100 { percent } else { 100 },
                ..*old(self) }),
    {
        self.buffer_utilization_percent = if percent <= 100 { percent } else { 100 };
    }

    /// Set the healthy-connections gauge.
    pub fn set_healthy_connections(&mut self, count: u64)
        ensures
            *final(self) == (ProtocolMetrics { healthy_connections: count, ..*old(self) }),
    {
        self.healthy_connections = count;
    }

    /// Set the paused-connections gauge.
    pub fn set_paused_connections(&mut self, count: u64)
        ensures
            *final(self) == (ProtocolMetrics { paused_connections: count, ..*old(self) }),
    {
        self.paused_connections = count;
    }

    /// Record one serialization time, in microseconds.
    pub fn record_serialization_time(&mut self, micros: u64)
        requires
            old(self).wf(),
        ensures
            final(self).wf(),
            final(self).serialization_time.count
                == spec_inc(old(self).serialization_time.count),
            final(self).serialization_time.sum == (
                if old(self).serialization_time.sum as int + micros as int <= u64::MAX as int {
                    (old(self).serialization_time.sum + micros) as u64 } else { u64::MAX }),
            final(self).request_duration == old(self).request_duration,
            final(self).requests_total == old(self).requests_total,
            final(self).responses_total == old(self).responses_total,
            final(self).timeouts_total == old(self).timeouts_total,
    {
        self.serialization_time.record(micros);
    }

    /// Record one end-to-end request duration, in microseconds.
    pub fn record_request_duration(&mut self, micros: u64)
        requires
            old(self).wf(),
        ensures
            final(self).wf(),
            final(self).request_duration.count == spec_inc(old(self).request_duration.count),
            final(self).request_duration.sum == (
                if old(self).request_duration.sum as int + micros as int <= u64::MAX as int {
                    (old(self).request_duration.sum + micros) as u64 } else { u64::MAX }),
            final(self).serialization_time == old(self).serialization_time,
            final(self).requests_total == old(self).requests_total,
            final(self).responses_total == old(self).responses_total,
            final(self).timeouts_total == old(self).timeouts_total,
    {
        self.request_duration.record(micros);
    }

    /// Snapshot of every counter, gauge and histogram.
    pub fn snapshot(&self) -> (s: ProtocolMetricsSnapshot)
        ensures
            s.requests_total == self.requests_total,
            s.responses_total == self.responses_total,
            s.timeouts_total == self.timeouts_total,
            s.connection_errors_total == self.connection_errors_total,
            s.serialization_errors_total == self.serialization_errors_total,
            s.flow_control_pauses_total == self.flow_control_pauses_total,
            s.flow_control_resumes_total == self.flow_control_resumes_total,
            s.flow_control_rejections_total == self.flow_control_rejections_total,
            s.in_flight_requests == self.in_flight_requests,
            s.buffer_utilization_percent == self.buffer_utilization_percent,
            s.healthy_connections == self.healthy_connections,
            s.paused_connections == self.paused_connections,
            s.serialization_time.sum == self.serialization_time.sum,
            s.serialization_time.count == self.serialization_time.count,
            s.serialization_time.counts@ == self.serialization_time.counts@,
            s.serialization_time.buckets@ == self.serialization_time.buckets@,
            s.request_duration.sum == self.request_duration.sum,
            s.request_duration.count == self.request_duration.count,
            s.request_duration.counts@ == self.request_duration.counts@,
            s.request_duration.buckets@ == self.request_duration.buckets@,
    {
        ProtocolMetricsSnapshot {
            requests_total: self.requests_total,
            responses_total: self.responses_total,
            timeouts_total: self.timeouts_total,
            connection_errors_total: self.connection_errors_total,
            serialization_errors_total: self.serialization_errors_total,
            flow_control_pauses_total: self.flow_control_pauses_total,
            flow_control_resumes_total: self.flow_control_resumes_total,
            flow_control_rejections_total: self.flow_control_rejections_total,
            in_flight_requests: self.in_flight_requests,
            buffer_utilization_percent: self.buffer_utilization_percent,
            healthy_connections: self.healthy_connections,
            paused_connections: self.paused_connections,
            serialization_time: self.serialization_time.snapshot(),
            request_duration: self.request_duration.snapshot(),
        }
    }
}

/// In-flight gauge with a hard concurrency bound: the per-agent
/// semaphore seen as its counter.  The count never exceeds the limit:
/// `try_acquire` refuses once the limit is reached, and every
/// operation preserves the bound.
#[derive(Debug, Clone, Copy, PartialEq, Eq, Structural)]
pub struct InFlightGauge {
    /// Maximum concurrent calls allowed
    pub limit: u64,
    /// Calls currently in flight
    pub in_flight: u64,
}

impl InFlightGauge {
    /// The in-flight count never exceeds the limit.
    pub open spec fn wf(&self) -> bool {
        self.in_flight <= self.limit
    }

    /// Fresh gauge with nothing in flight.
    pub fn new(limit: u64) -> (g: InFlightGauge)
        ensures
            g.limit == limit,
            g.in_flight == 0,
            g.wf(),
    {
        InFlightGauge { limit, in_flight: 0 }
    }

    /// Take one slot when one is free; refuse at the limit.
    pub fn try_acquire(&mut self) -> (r: bool)
        requires
            old(self).wf(),
        ensures
            final(self).wf(),
            final(self).limit == old(self).limit,
            r == (old(self).in_flight < old(self).limit),
            r ==> final(self).in_flight == old(self).in_flight + 1,
            !r ==> final(self).in_flight == old(self).in_flight,
    {
        if self.in_flight < self.limit {
            self.in_flight = self.in_flight + 1;
            true
        } else {
            false
        }
    }

    /// Give one slot back.
    pub fn release(&mut self)
        requires
            old(self).wf(),
            old(self).in_flight > 0,
        ensures
            final(self).wf(),
            final(self).limit == old(self).limit,
            final(self).in_flight == old(self).in_flight - 1,
    {
        self.in_flight = self.in_flight - 1;
    }
}

} // verus!
