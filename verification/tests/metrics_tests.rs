use zentinel_agents::metrics::{ProtocolMetrics, HistogramMetric, InFlightGauge};

#[test]
fn test_counter_increments() {
    let mut metrics = ProtocolMetrics::new();

    metrics.inc_requests();
    metrics.inc_requests();
    metrics.inc_responses();

    let snap = metrics.snapshot();
    assert_eq!(snap.requests_total, 2);
    assert_eq!(snap.responses_total, 1);
}

#[test]
fn test_gauge_updates() {
    let mut metrics = ProtocolMetrics::new();

    metrics.set_in_flight(5);
    metrics.inc_in_flight();
    metrics.dec_in_flight();

    let snap = metrics.snapshot();
    assert_eq!(snap.in_flight_requests, 5);
}

#[test]
fn test_histogram_recording() {
    let mut metrics = ProtocolMetrics::new();

    metrics.record_serialization_time(50);
    metrics.record_serialization_time(150);
    metrics.record_serialization_time(5000);

    let snap = metrics.snapshot();
    assert_eq!(snap.serialization_time.count, 3);
    assert_eq!(snap.serialization_time.sum, 50 + 150 + 5000);
}

#[test]
fn test_flow_control_metrics() {
    let mut metrics = ProtocolMetrics::new();

    metrics.record_flow_pause();
    metrics.record_flow_pause();
    metrics.record_flow_rejection();

    let snap = metrics.snapshot();
    assert_eq!(snap.flow_control_pauses_total, 2);
    assert_eq!(snap.flow_control_rejections_total, 1);
}

#[test]
fn histogram_counts_land_in_the_right_buckets() {
    let mut hist = HistogramMetric::default();
    hist.record(10);
    hist.record(11);
    hist.record(2_000_000);
    let snap = hist.snapshot();
    assert_eq!(snap.count, 3);
    assert_eq!(snap.counts[0], 1);
    assert_eq!(snap.counts[1], 1);
    assert_eq!(snap.counts[11], 1);
}

#[test]
fn timeout_counter_increments_exactly_once_per_timeout() {
    let mut metrics = ProtocolMetrics::new();
    metrics.inc_timeouts();
    assert_eq!(metrics.snapshot().timeouts_total, 1);
    metrics.inc_timeouts();
    assert_eq!(metrics.snapshot().timeouts_total, 2);
}

#[test]
fn in_flight_never_exceeds_the_limit() {
    let mut gauge = InFlightGauge::new(3);
    assert!(gauge.try_acquire());
    assert!(gauge.try_acquire());
    assert!(gauge.try_acquire());
    assert!(!gauge.try_acquire());
    assert_eq!(gauge.in_flight, 3);
    gauge.release();
    assert!(gauge.try_acquire());
    assert!(gauge.in_flight <= gauge.limit);
}
