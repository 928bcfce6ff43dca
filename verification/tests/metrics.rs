use nelomai_app::connection_metrics::{
    ConnectionMetricsTracker, StallRecoveryLimiter, OBSERVATION_TTL_NANOS,
};
use nelomai_app::tunnel::TunnelMetrics;

fn sample(received_bytes: u64, sent_bytes: u64) -> TunnelMetrics {
    TunnelMetrics {
        received_bytes,
        sent_bytes,
        latest_handshake_epoch_millis: None,
        probe_target: None,
    }
}

#[test]
fn aggregates_session_counters_restarts_and_probe_loss() {
    let mut tracker = ConnectionMetricsTracker::new();
    tracker.record("lease", &sample(100, 40), Some(Some(20)));
    tracker.record("lease", &sample(5, 2), Some(None));
    tracker.record("lease", &sample(5, 2), Some(Some(22)));

    let metrics = tracker.snapshot("lease").expect("session metrics");
    assert_eq!(metrics.received_bytes, 105);
    assert_eq!(metrics.sent_bytes, 42);
    assert_eq!(metrics.latency_ms, Some(21));
    assert_eq!(metrics.packet_loss_percent, Some(33));
}

#[test]
fn changing_lease_resets_the_session() {
    let mut tracker = ConnectionMetricsTracker::new();
    tracker.record("first", &sample(100, 0), None);
    tracker.record("second", &sample(3, 0), None);

    assert!(tracker.snapshot("first").is_none());
    assert_eq!(tracker.snapshot("second").unwrap().received_bytes, 3);
}

#[test]
fn reports_unavailable_loss_until_a_probe_succeeds() {
    let mut tracker = ConnectionMetricsTracker::new();
    tracker.record("lease", &sample(0, 0), Some(None));

    let metrics = tracker.snapshot("lease").unwrap();
    assert_eq!(metrics.latency_ms, None);
    assert_eq!(metrics.packet_loss_percent, None);
}

#[test]
fn waits_for_three_probes_and_uses_median_latency() {
    let mut tracker = ConnectionMetricsTracker::new();
    for latency in [Some(480), Some(31)] {
        tracker.record("lease", &sample(0, 0), Some(latency));
    }
    assert_eq!(tracker.snapshot("lease").unwrap().latency_ms, None);

    tracker.record("lease", &sample(0, 0), Some(Some(29)));
    let metrics = tracker.snapshot("lease").unwrap();
    assert_eq!(metrics.latency_ms, Some(31));
    assert_eq!(metrics.packet_loss_percent, Some(0));
}

#[test]
fn collection_activity_expires_without_a_visible_client() {
    let mut tracker = ConnectionMetricsTracker::new();
    let now: u64 = 100_000_000_000;
    assert!(!tracker.is_observed(now));
    tracker.mark_observed(now);
    assert!(tracker.is_observed(now));
    assert!(!tracker.is_observed(now + OBSERVATION_TTL_NANOS + 1));
}

#[test]
fn stall_recovery_limiter_prevents_loops_and_resets_for_a_new_lease() {
    let mut limiter = StallRecoveryLimiter::new();

    assert!(limiter.begin_attempt("lease-a", 1_000));
    assert!(limiter.begin_attempt("lease-a", 1_100));
    assert!(!limiter.begin_attempt("lease-a", 1_200));
    assert_eq!(limiter.next_attempt_at_unix("lease-a"), Some(1_600));
    assert!(limiter.begin_attempt("lease-a", 1_600));
    assert!(limiter.begin_attempt("lease-a", 1_700));
    assert!(limiter.begin_attempt("lease-b", 1_201));

    limiter.reset();
    assert!(limiter.begin_attempt("lease-b", 1_202));
    assert_eq!(limiter.attempts.len(), 1);
}

#[test]
fn stall_recovery_limiter_does_not_charge_cancelled_attempts() {
    let mut limiter = StallRecoveryLimiter::new();

    assert!(limiter.begin_attempt("lease-a", 1_000));
    limiter.cancel_attempt("lease-a", 1_000);
    assert!(limiter.begin_attempt("lease-a", 1_001));
    limiter.cancel_attempt("lease-a", 1_001);

    assert!(limiter.begin_attempt("lease-a", 1_002));
    assert!(limiter.begin_attempt("lease-a", 1_003));
    assert!(!limiter.begin_attempt("lease-a", 1_004));
}

#[test]
fn probes_keep_their_distance() {
    let mut tracker = ConnectionMetricsTracker::new();
    assert!(tracker.should_probe("lease", 1_000_000_000));
    assert!(!tracker.should_probe("lease", 1_000_000_001));
    assert!(tracker.should_probe("other", 1_000_000_001));
    tracker.clear();
    assert!(tracker.should_probe("other", 1_000_000_002));
}
