use nelomai_app::connection_metrics::StallRecoveryLimiter;
use nelomai_app::core_state::Layer;
use nelomai_app::errors::{automatic_upload_error_code, ApplicationError, CoreApiError, TunnelError};
use nelomai_app::metrics_scheduler::{
    connection_diagnostics_due, connection_metrics_poll_required, ClientPlatform, MetricsScheduler,
    ServiceOutage, CONNECTION_DIAGNOSTICS_INTERVAL_NANOS,
};
use nelomai_app::recovery_gate::RecoveryGate;
use nelomai_app::schedulers::{
    automatic_tunnel_state, logout_upload_again, push_registration, upload_verdict,
    PushRegistration, UploadVerdict,
};
use nelomai_app::service_recovery::{
    classify_windows_local_restart_outcome, classify_windows_service_recovery,
    is_windows_service_outage, should_attempt_windows_service_recovery, WindowsServiceAction,
    WindowsServiceEvent, WindowsServiceRecovery, WindowsServiceRecoveryDecision,
    WindowsServiceRecoveryEpisode,
};
use nelomai_app::stall_recovery::{
    classify_desktop_stall_probe, classify_macos_stall_recovery, DesktopStallClassification,
    MacosRecovery, MacosRecoveryAction, MacosRecoveryEvent, MacosStallProbeAction,
    MacosStallRecoveryEpisode, MacosStallRecoveryResult, RecoveryRecord,
    StalledDataPlaneRecoveryOutcome, TunnelMetricsObservation,
};
use nelomai_app::tunnel::{TunnelMetrics, TunnelStatus};

const SECOND: u64 = 1_000_000_000;

fn backend(code: &str) -> TunnelError {
    TunnelError::Backend(code.to_string())
}

fn noted(records: &[RecoveryRecord]) -> Vec<(String, Option<String>)> {
    records
        .iter()
        .map(|record| (record.kind.to_string(), record.code.clone()))
        .collect()
}

fn entry(kind: &str, code: Option<&str>) -> (String, Option<String>) {
    (kind.to_string(), code.map(|code| code.to_string()))
}

#[test]
fn automatic_upload_diagnostics_preserves_the_stable_failure_reason() {
    assert_eq!(
        automatic_upload_error_code(&ApplicationError::Api(CoreApiError::Retryable)),
        "temporary_network_error",
    );
    assert_eq!(
        automatic_upload_error_code(&ApplicationError::Api(CoreApiError::Rejected {
            code: "diagnostics_rate_limited".to_string(),
            message: "retry later".to_string(),
            retry_after_seconds: None,
        })),
        "diagnostics_rate_limited",
    );
}

#[test]
fn desktop_incident_sampling_does_not_depend_on_visible_metrics() {
    assert!(connection_metrics_poll_required(false, false, false, true));
    assert!(!connection_metrics_poll_required(
        false, false, false, false
    ));
}

#[test]
fn desktop_stall_recovery_requires_a_healthy_direct_path() {
    assert_eq!(
        classify_desktop_stall_probe(false, Some(true)),
        DesktopStallClassification::TunnelPathFailed,
    );
    assert_eq!(
        classify_desktop_stall_probe(false, Some(false)),
        DesktopStallClassification::PhysicalPathFailed,
    );
    assert_eq!(
        classify_desktop_stall_probe(true, Some(true)),
        DesktopStallClassification::RecoveredBeforeProbe,
    );
    assert_eq!(
        classify_desktop_stall_probe(false, None),
        DesktopStallClassification::Ambiguous,
    );
}

#[test]
fn endpoint_probe_target_is_consumed_before_metrics_are_recorded() {
    let mut sample = TunnelMetrics {
        received_bytes: 0,
        sent_bytes: 0,
        latest_handshake_epoch_millis: None,
        probe_target: Some("192.0.2.10".to_string()),
    };
    let mut scheduler = MetricsScheduler::new(ClientPlatform::Macos);

    assert_eq!(
        scheduler.sample_read(&mut sample),
        Some("192.0.2.10".to_string())
    );
    assert_eq!(sample.probe_target, None);
}

#[test]
fn macos_open_stall_retries_until_metrics_recover() {
    let mut episode = MacosStallRecoveryEpisode::new();
    assert!(episode.should_attempt("lease-a", TunnelMetricsObservation::Detected, 100));
    episode.complete(MacosStallRecoveryResult::Retry, 100);
    assert!(!episode.should_attempt("lease-a", TunnelMetricsObservation::Unchanged, 104));
    assert!(episode.should_attempt("lease-a", TunnelMetricsObservation::Unchanged, 105));
    episode.complete(MacosStallRecoveryResult::Retry, 105);
    assert!(!episode.should_attempt("lease-a", TunnelMetricsObservation::Unchanged, 119));
    assert!(episode.should_attempt("lease-a", TunnelMetricsObservation::Unchanged, 120));
    assert!(!episode.should_attempt("lease-a", TunnelMetricsObservation::Recovered, 121));
    assert!(!episode.should_attempt("lease-a", TunnelMetricsObservation::Unchanged, 200));
}

#[test]
fn macos_open_stall_retries_a_failed_direct_probe_and_waits_for_the_limiter() {
    let mut episode = MacosStallRecoveryEpisode::new();
    assert!(episode.should_attempt("lease-a", TunnelMetricsObservation::Detected, 100));
    assert!(!episode.allows_uncertain_recovery());

    episode.complete(MacosStallRecoveryResult::DirectProbeUnavailable, 100);
    assert!(!episode.should_attempt("lease-a", TunnelMetricsObservation::Unchanged, 104));
    assert!(episode.should_attempt("lease-a", TunnelMetricsObservation::Unchanged, 105));
    assert!(episode.allows_uncertain_recovery());

    episode.complete(MacosStallRecoveryResult::RetryAt(700), 105);
    assert!(!episode.should_attempt("lease-a", TunnelMetricsObservation::Unchanged, 699));
    assert!(episode.should_attempt("lease-a", TunnelMetricsObservation::Unchanged, 700));

    episode.complete(MacosStallRecoveryResult::Complete, 700);
    assert!(!episode.should_attempt("lease-a", TunnelMetricsObservation::Unchanged, 701));
}

#[test]
fn macos_recovery_uses_a_second_failed_direct_probe_as_endpoint_migration_fallback() {
    assert_eq!(
        classify_macos_stall_recovery(DesktopStallClassification::PhysicalPathFailed, false),
        MacosStallProbeAction::RetryProbe,
    );
    assert_eq!(
        classify_macos_stall_recovery(DesktopStallClassification::PhysicalPathFailed, true),
        MacosStallProbeAction::Recover,
    );
    assert_eq!(
        classify_macos_stall_recovery(DesktopStallClassification::Ambiguous, true),
        MacosStallProbeAction::Recover,
    );
}

#[test]
fn windows_service_recovery_only_handles_manager_outages() {
    assert!(is_windows_service_outage(&backend("service_unavailable")));
    assert!(is_windows_service_outage(&backend("service_timeout")));
    assert!(!is_windows_service_outage(&backend("missing_tunnel_metrics")));
    assert!(!is_windows_service_outage(&TunnelError::InvalidOptions {
        code: "invalid_options".to_string(),
    }));
}

#[test]
fn windows_recovery_handles_terminal_endpoint_route_failures() {
    assert!(should_attempt_windows_service_recovery(
        &backend("endpoint_route_lost"),
        false,
    ));
    assert!(should_attempt_windows_service_recovery(
        &backend("endpoint_route_unavailable"),
        false,
    ));
    assert!(!should_attempt_windows_service_recovery(
        &backend("route_conflict"),
        false,
    ));
}

#[test]
fn windows_service_recovery_waits_for_a_terminal_tunnel_state() {
    assert_eq!(
        classify_windows_service_recovery(None),
        WindowsServiceRecoveryDecision::Wait,
    );
    assert_eq!(
        classify_windows_service_recovery(Some(TunnelStatus::Starting)),
        WindowsServiceRecoveryDecision::Wait,
    );
    assert_eq!(
        classify_windows_service_recovery(Some(TunnelStatus::Stopping)),
        WindowsServiceRecoveryDecision::Wait,
    );
    assert_eq!(
        classify_windows_service_recovery(Some(TunnelStatus::Running)),
        WindowsServiceRecoveryDecision::NoAction,
    );
    assert_eq!(
        classify_windows_service_recovery(Some(TunnelStatus::Stopped)),
        WindowsServiceRecoveryDecision::RestartLocalTunnel,
    );
    assert_eq!(
        classify_windows_service_recovery(Some(TunnelStatus::Failed)),
        WindowsServiceRecoveryDecision::RestartLocalTunnel,
    );
}

#[test]
fn windows_service_outage_has_an_independent_recovery_episode() {
    let mut episode = WindowsServiceRecoveryEpisode::new();
    assert!(!episode.is_active());
    assert!(episode.should_poll(true, 100));
    episode.complete(false, 100);
    assert!(episode.is_active());
    assert!(!episode.should_poll(true, 109));
    assert!(episode.should_poll(true, 110));
    episode.complete(true, 110);
    assert!(episode.should_poll(true, 111));
    assert!(!episode.should_poll(false, 111));
}

#[test]
fn windows_service_outage_episode_resets_for_a_new_lease() {
    let mut episode = WindowsServiceRecoveryEpisode::new();
    assert!(episode.first_outage());
    episode.complete(false, 100);
    assert!(!episode.first_outage());
    assert!(!episode.should_poll(true, 101));

    episode.reset();
    assert!(episode.first_outage());
    assert!(episode.should_poll(true, 101));
}

#[test]
fn windows_busy_local_restart_is_retried_after_the_poll_delay() {
    let decision = classify_windows_local_restart_outcome(StalledDataPlaneRecoveryOutcome::Busy);
    assert!(decision.refund_attempt);
    assert!(!decision.retry_immediately);

    let mut episode = WindowsServiceRecoveryEpisode::new();
    episode.complete(decision.retry_immediately, 100);
    assert!(!episode.should_poll(true, 109));
    assert!(episode.should_poll(true, 110));
}

#[test]
fn background_diagnostics_throttle_failed_attempts() {
    let now: u64 = 1_000 * SECOND;
    assert!(connection_diagnostics_due(None, "session", None, now));
    assert!(!connection_diagnostics_due(
        Some("session"),
        "session",
        Some(now),
        now + CONNECTION_DIAGNOSTICS_INTERVAL_NANOS - SECOND,
    ));
    assert!(connection_diagnostics_due(
        Some("session"),
        "session",
        Some(now),
        now + CONNECTION_DIAGNOSTICS_INTERVAL_NANOS,
    ));
    assert!(connection_diagnostics_due(
        Some("old-session"),
        "session",
        Some(now),
        now,
    ));
}

#[test]
fn stopped_native_tunnel_overrides_stale_connection_context() {
    assert_eq!(
        automatic_tunnel_state(Some("stale-session"), Some(TunnelStatus::Stopped)),
        (None, false)
    );
    assert_eq!(
        automatic_tunnel_state(Some("stale-session"), Some(TunnelStatus::Failed)),
        (None, false)
    );
}

#[test]
fn uncertain_native_status_does_not_create_a_false_stop() {
    assert_eq!(
        automatic_tunnel_state(Some("session"), Some(TunnelStatus::Running)),
        (Some("session"), true)
    );
    assert_eq!(
        automatic_tunnel_state(Some("session"), None),
        (Some("session"), true)
    );
}

#[test]
fn dark_wake_defers_until_full_wake_grace_expires() {
    let mut gate = RecoveryGate::new();
    let now: u64 = 1_000 * SECOND;
    assert_eq!(
        gate.observe(Some(9), Some(90), now, 100),
        Some("sleep_or_dark_wake")
    );
    assert_eq!(
        gate.observe(Some(15), Some(90), now + SECOND, 101),
        Some("wake_grace")
    );
    assert_eq!(
        gate.observe(Some(15), Some(90), now + 15 * SECOND, 115),
        Some("wake_grace")
    );
    assert_eq!(gate.observe(Some(15), Some(90), now + 16 * SECOND, 116), None);
}

#[test]
fn missed_sleep_between_polls_still_starts_grace() {
    let mut gate = RecoveryGate::new();
    let now: u64 = 1_000 * SECOND;
    assert_eq!(gate.observe(Some(15), Some(50), now, 100), None);
    assert_eq!(
        gate.observe(Some(15), Some(101), now + 4 * SECOND, 104),
        Some("wake_grace")
    );
}

#[test]
fn recent_wake_at_startup_and_another_dark_cycle_get_their_own_grace() {
    let mut gate = RecoveryGate::new();
    let now: u64 = 1_000 * SECOND;
    assert_eq!(
        gate.observe(Some(15), Some(99), now, 100),
        Some("wake_grace")
    );
    assert_eq!(
        gate.observe(Some(9), Some(99), now + 14 * SECOND, 114),
        Some("sleep_or_dark_wake")
    );
    assert_eq!(
        gate.observe(Some(15), Some(99), now + 15 * SECOND, 115),
        Some("wake_grace")
    );
    assert_eq!(
        gate.observe(Some(15), Some(99), now + 29 * SECOND, 129),
        Some("wake_grace")
    );
    assert_eq!(gate.observe(Some(15), Some(99), now + 30 * SECOND, 130), None);
}

#[test]
fn active_system_and_unavailable_sensor_do_not_disable_recovery() {
    let mut gate = RecoveryGate::new();
    let now: u64 = 1_000 * SECOND;
    // System graphics capability persists when only the display turns off.
    assert_eq!(gate.observe(Some(15), Some(50), now, 100), None);
    assert_eq!(gate.observe(None, None, now, 100), None);
}

#[test]
fn a_stalled_tunnel_is_rebound_and_left_alone_once_it_works() {
    let mut limiter = StallRecoveryLimiter::new();
    let mut recovery = MacosRecovery::begin(false);
    let (action, records) = recovery.step(
        &mut limiter,
        "lease",
        MacosRecoveryEvent::Probed {
            tunnel_ok: false,
            direct_ok: Some(true),
        },
        100,
    );
    assert_eq!(action, MacosRecoveryAction::AskIntent);
    assert_eq!(records.len(), 1);
    assert_eq!(records[0].kind, "tunnel.stall.classified");

    let (action, records) = recovery.step(
        &mut limiter,
        "lease",
        MacosRecoveryEvent::IntentAsked { handled: false },
        100,
    );
    assert_eq!(action, MacosRecoveryAction::RebindUdp);
    assert!(records.is_empty());

    let (action, records) = recovery.step(
        &mut limiter,
        "lease",
        MacosRecoveryEvent::Recovered(Ok(StalledDataPlaneRecoveryOutcome::Rebound)),
        101,
    );
    assert_eq!(action, MacosRecoveryAction::PauseAndProbe);
    assert_eq!(noted(&records), vec![entry("tunnel.stall.udp_rebound", None)]);

    let (action, records) = recovery.step(
        &mut limiter,
        "lease",
        MacosRecoveryEvent::Checked { tunnel_ok: true },
        103,
    );
    assert_eq!(
        action,
        MacosRecoveryAction::Finish(MacosStallRecoveryResult::Complete)
    );
    assert_eq!(
        noted(&records),
        vec![entry("tunnel.stall.recovered_after_rebind", None)]
    );
    assert_eq!(limiter.attempts.len(), 1);
}

#[test]
fn a_tunnel_is_restarted_at_most_twice_in_a_row() {
    let mut limiter = StallRecoveryLimiter::new();
    let mut recovery = MacosRecovery::begin(false);
    recovery.step(
        &mut limiter,
        "lease",
        MacosRecoveryEvent::Probed {
            tunnel_ok: false,
            direct_ok: Some(true),
        },
        100,
    );
    recovery.step(
        &mut limiter,
        "lease",
        MacosRecoveryEvent::IntentAsked { handled: false },
        100,
    );
    let (action, records) = recovery.step(
        &mut limiter,
        "lease",
        MacosRecoveryEvent::Recovered(Err("udp_rebind_failed".to_string())),
        101,
    );
    assert_eq!(action, MacosRecoveryAction::RestartLocalTunnel);
    assert_eq!(
        noted(&records),
        vec![entry(
            "tunnel.stall.udp_rebind_failed",
            Some("udp_rebind_failed")
        )]
    );
    let (action, _) = recovery.step(
        &mut limiter,
        "lease",
        MacosRecoveryEvent::Recovered(Ok(StalledDataPlaneRecoveryOutcome::Reconnected)),
        102,
    );
    assert_eq!(action, MacosRecoveryAction::Probe);
    let (action, records) = recovery.step(
        &mut limiter,
        "lease",
        MacosRecoveryEvent::Checked { tunnel_ok: false },
        110,
    );
    assert_eq!(action, MacosRecoveryAction::RestartLocalTunnel);
    assert_eq!(
        noted(&records),
        vec![entry(
            "tunnel.stall.local_restart_verification_failed",
            Some("first_attempt")
        )]
    );
    recovery.step(
        &mut limiter,
        "lease",
        MacosRecoveryEvent::Recovered(Ok(StalledDataPlaneRecoveryOutcome::Reconnected)),
        112,
    );
    let (action, records) = recovery.step(
        &mut limiter,
        "lease",
        MacosRecoveryEvent::Checked { tunnel_ok: false },
        120,
    );
    assert_eq!(
        action,
        MacosRecoveryAction::Finish(MacosStallRecoveryResult::RetryAt(700))
    );
    assert_eq!(
        noted(&records),
        vec![entry(
            "tunnel.stall.local_restart_verification_failed",
            Some("retry")
        )]
    );
}

#[test]
fn a_busy_connection_gives_its_attempt_back() {
    let mut limiter = StallRecoveryLimiter::new();
    let mut recovery = MacosRecovery::begin(true);
    let (action, records) = recovery.step(
        &mut limiter,
        "lease",
        MacosRecoveryEvent::Probed {
            tunnel_ok: false,
            direct_ok: None,
        },
        100,
    );
    assert_eq!(action, MacosRecoveryAction::AskIntent);
    assert_eq!(records.len(), 2);
    assert_eq!(records[1].kind, "tunnel.stall.direct_probe_fallback");
    recovery.step(
        &mut limiter,
        "lease",
        MacosRecoveryEvent::IntentAsked { handled: false },
        100,
    );
    assert_eq!(limiter.attempts.len(), 1);
    let (action, records) = recovery.step(
        &mut limiter,
        "lease",
        MacosRecoveryEvent::Recovered(Ok(StalledDataPlaneRecoveryOutcome::Busy)),
        101,
    );
    assert_eq!(
        action,
        MacosRecoveryAction::Finish(MacosStallRecoveryResult::Retry)
    );
    assert_eq!(
        noted(&records),
        vec![entry("tunnel.stall.recovery_skipped", Some("connection_busy"))]
    );
    assert_eq!(limiter.attempts.len(), 0);
}

#[test]
fn an_outage_restarts_only_a_stopped_tunnel() {
    let mut limiter = StallRecoveryLimiter::new();
    let mut recovery = WindowsServiceRecovery::begin(true);
    let (action, records) = recovery.step(
        &mut limiter,
        "lease",
        WindowsServiceEvent::Status(Err("service_timeout".to_string())),
        100,
    );
    assert_eq!(action, WindowsServiceAction::Finish { pending: true });
    assert_eq!(
        noted(&records),
        vec![entry(
            "windows.service.recovery_waiting",
            Some("service_timeout")
        )]
    );

    let mut recovery = WindowsServiceRecovery::begin(false);
    let (action, _) = recovery.step(
        &mut limiter,
        "lease",
        WindowsServiceEvent::Status(Ok(TunnelStatus::Stopped)),
        100,
    );
    assert_eq!(action, WindowsServiceAction::RestartLocalTunnel);
    let (action, records) = recovery.step(
        &mut limiter,
        "lease",
        WindowsServiceEvent::Restarted(Ok(StalledDataPlaneRecoveryOutcome::Reconnected)),
        101,
    );
    assert_eq!(action, WindowsServiceAction::Finish { pending: false });
    assert_eq!(
        noted(&records),
        vec![entry("windows.service.local_tunnel_restarted", None)]
    );
}

#[test]
fn the_metrics_loop_throttles_notes_and_watches_outages() {
    let mut scheduler = MetricsScheduler::new(ClientPlatform::Windows);
    let tick = scheduler.tick("session", Layer::Stray, false, SECOND);
    assert!(tick.poll);
    assert!(tick.diagnostics_due);
    assert!(scheduler.metrics_unavailable());
    assert!(!scheduler.metrics_unavailable());
    assert_eq!(
        scheduler.service_outage(&backend("service_unavailable"), 100),
        ServiceOutage::Recover { first_outage: true }
    );
    assert_eq!(
        scheduler.service_outage(&backend("route_conflict"), 100),
        ServiceOutage::Ignored
    );
    scheduler.disconnected();
    assert!(scheduler.metrics_unavailable());
}

#[test]
fn a_report_counts_as_delivered_only_under_its_own_name() {
    let expected = Some("report-1".to_string());
    assert!(matches!(
        upload_verdict(&expected, &Ok("report-1".to_string())),
        UploadVerdict::Delivered
    ));
    match upload_verdict(&expected, &Ok("report-2".to_string())) {
        UploadVerdict::Failed { code } => assert_eq!(code, "invalid_diagnostics_response"),
        UploadVerdict::Delivered => panic!("a foreign answer was taken"),
    }
    match upload_verdict(&expected, &Err(ApplicationError::Clock)) {
        UploadVerdict::Failed { code } => assert_eq!(code, "clock_unavailable"),
        UploadVerdict::Delivered => panic!("a failure was taken for an answer"),
    }
}

#[test]
fn a_grace_needs_no_wake_time_and_a_new_wake_starts_another() {
    let second = 1_000_000_000;
    let mut gate = RecoveryGate::new();
    assert_eq!(gate.observe(Some(9), None, 0, 100), Some("sleep_or_dark_wake"));
    assert_eq!(gate.observe(Some(15), None, second, 101), Some("wake_grace"));
    assert_eq!(gate.observe(None, None, 2 * second, 102), None);
    assert_eq!(gate.observe(Some(15), None, 16 * second - 1, 116), Some("wake_grace"));
    assert_eq!(gate.observe(Some(15), None, 16 * second, 116), None);

    let mut again = RecoveryGate::new();
    assert_eq!(again.observe(Some(9), Some(90), 0, 100), Some("sleep_or_dark_wake"));
    assert_eq!(again.observe(Some(15), Some(90), second, 101), Some("wake_grace"));
    assert_eq!(again.observe(Some(15), Some(110), 10 * second, 110), Some("wake_grace"));
    assert_eq!(again.observe(Some(15), Some(110), 16 * second, 116), Some("wake_grace"));
    assert_eq!(again.observe(Some(15), Some(110), 25 * second, 125), None);
}

#[test]
fn the_newest_report_is_tried_fifty_times_at_a_sign_out() {
    let mut tried = 0;
    while logout_upload_again(tried, false) {
        tried += 1;
    }
    assert_eq!(tried, 50);
    assert!(!logout_upload_again(1, true));
}

#[test]
fn a_device_is_registered_only_with_permission_and_a_token() {
    assert_eq!(
        push_registration(false, Some(true), "token"),
        PushRegistration::Nothing
    );
    assert_eq!(
        push_registration(true, None, "token"),
        PushRegistration::Nothing
    );
    assert_eq!(
        push_registration(true, Some(false), "token"),
        PushRegistration::Unregister
    );
    assert_eq!(
        push_registration(true, Some(true), " \t"),
        PushRegistration::Nothing
    );
    assert_eq!(
        push_registration(true, Some(true), "token"),
        PushRegistration::Register
    );
}

fn reading(received_bytes: u64) -> TunnelMetrics {
    TunnelMetrics {
        received_bytes,
        sent_bytes: 7,
        latest_handshake_epoch_millis: None,
        probe_target: None,
    }
}

#[test]
fn a_probe_that_android_cannot_make_is_noted_once_for_a_session() {
    let mut scheduler = MetricsScheduler::new(ClientPlatform::Android);
    assert!(!scheduler.probe_skipped("lease-a", false));
    assert!(scheduler.probe_skipped("lease-a", true));
    assert!(!scheduler.probe_skipped("lease-a", true));
    assert!(scheduler.probe_skipped("lease-b", true));
    let mut scheduler = MetricsScheduler::new(ClientPlatform::Linux);
    assert!(!scheduler.probe_skipped("lease-a", true));
}

#[test]
fn only_a_stalled_stray_connection_is_recovered_on_macos() {
    let detected = Some(TunnelMetricsObservation::Detected);
    let mut scheduler = MetricsScheduler::new(ClientPlatform::Macos);
    assert!(!scheduler.recovery_due("lease-a", Layer::Stray, None, 100));
    assert!(!scheduler.recovery_due("lease-a", Layer::Tic, detected, 100));
    assert!(scheduler.recovery_due("lease-a", Layer::Stray, detected, 100));
    let mut scheduler = MetricsScheduler::new(ClientPlatform::Windows);
    assert!(!scheduler.recovery_due("lease-a", Layer::Stray, detected, 100));
}

#[test]
fn the_readings_of_a_session_are_remembered_until_it_ends() {
    let mut scheduler = MetricsScheduler::new(ClientPlatform::Linux);
    scheduler.incident_sampled(&reading(3));
    scheduler.diagnostics_recorded(&reading(4));
    let received = |sample: &Option<TunnelMetrics>| sample.as_ref().map(|own| own.received_bytes);
    assert_eq!(received(&scheduler.last_incident_sample), Some(3));
    assert_eq!(received(&scheduler.last_diagnostics_sample), Some(4));
    scheduler.disconnected();
    assert_eq!(received(&scheduler.last_incident_sample), None);
    assert_eq!(received(&scheduler.last_diagnostics_sample), None);
}
