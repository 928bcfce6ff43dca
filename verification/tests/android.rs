use nelomai_app::android_projection::{
    android_start_epoch_is_current, project_android_connection_intent_status,
    AndroidDesiredActiveProjection, AndroidProjectedStart, AndroidUiStartStopCoordinator,
    SideEffectPoll,
};
use nelomai_app::android_provision::{
    android_background_capability_snapshot, android_background_provision_mode,
    provision_retry_delay, AndroidBackgroundCapabilitySnapshot, AndroidBackgroundProvisionMode,
    BackgroundCredentialStatus, QuickReconcile, ANDROID_DISABLED_CAPABILITY_EXPIRES_AT,
};
use nelomai_app::android_runtime::{
    admits_bootstrap, kept_logcat, retained_runtimes, selected_runtime, RuntimePath,
};
use nelomai_app::app_responses::StartCommandRequest;
use nelomai_app::commands::CommandError;
use nelomai_app::connection_commands::{
    android_start_acknowledgement_is_durable, cleared_activity, legacy_stop_required,
    AndroidIntentStatus, AndroidStartEvent, AndroidStartOutcome, AndroidStartStage,
};
use nelomai_app::core_state::{
    Connection, ConnectionIntentCapability, ConnectionIntentStatus, EgressMode, Layer, LeaseStatus,
    RouteMode, TicConnectionMode,
};
use nelomai_app::errors::ApplicationError;
use nelomai_app::runtime_commands::RuntimeSlot;

fn background_capability_snapshot(
    revision: i64,
    enabled: bool,
    expires_at_unix: i64,
) -> AndroidBackgroundCapabilitySnapshot {
    AndroidBackgroundCapabilitySnapshot {
        revision,
        enabled,
        expires_at: if enabled {
            "2099-01-01T00:00:00Z".to_string()
        } else {
            ANDROID_DISABLED_CAPABILITY_EXPIRES_AT.to_string()
        },
        expires_at_unix,
    }
}

fn credential_status(
    mutation_pending: bool,
    capability_revision: i64,
    capability_expires_at_unix: i64,
    expires_at_unix: i64,
) -> BackgroundCredentialStatus {
    BackgroundCredentialStatus {
        configured: true,
        mutation_ready: true,
        mutation_pending,
        capability_revision,
        capability_enabled: true,
        capability_expires_at_unix: Some(capability_expires_at_unix),
        device_id: Some("device-1".to_string()),
        expires_at_unix: Some(expires_at_unix),
    }
}

fn capability(
    revision: i64,
    expires_at: &str,
    expires_at_unix: Option<i64>,
    enabled: bool,
) -> ConnectionIntentCapability {
    ConnectionIntentCapability {
        revision,
        expires_at: expires_at.to_string(),
        expires_at_unix,
        connection_intent_recovery_v1: enabled,
    }
}

fn fresh(revision: i64, enabled: bool) -> Option<ConnectionIntentCapability> {
    Some(capability(
        revision,
        "2099-01-01T00:00:00Z",
        Some(4_070_908_800),
        enabled,
    ))
}

const DEVICE: &str = "11111111-1111-4111-8111-111111111111";

fn start_request() -> StartCommandRequest {
    StartCommandRequest {
        device_id: DEVICE.to_string(),
        binding_requested: false,
        layer: Layer::Stray,
        tic_connection_mode: TicConnectionMode::Dynamic,
        route_mode: RouteMode::Standalone,
        egress_mode: EgressMode::Ipv4,
        allow_alternate: true,
    }
}

fn service_status(desired_active: bool, status: &str, phase: Option<&str>) -> AndroidIntentStatus {
    AndroidIntentStatus {
        desired_active,
        status: status.to_string(),
        lease_phase: phase.map(|phase| phase.to_string()),
        next_retry_at_unix: None,
    }
}

fn durable_android_start_status() -> AndroidIntentStatus {
    service_status(true, "recovering", Some("start_pending"))
}

fn test_connection(lease_id: &str) -> Connection {
    Connection {
        lease_id: lease_id.to_string(),
        layer: Layer::Stray,
        tic_connection_mode: TicConnectionMode::Dynamic,
        route_mode: RouteMode::Standalone,
        egress_mode: EgressMode::Ipv4,
        status: LeaseStatus::Issued,
        pinned: false,
    }
}

/// Runs a start to its end and counts what was asked of the service and of the
/// panel.
struct StartRun {
    outcome: AndroidStartOutcome,
    bootstraps: usize,
    requests: usize,
    service_calls: usize,
    legacy_calls: usize,
}

fn run_start(
    stored: AndroidIntentStatus,
    granted: Option<ConnectionIntentCapability>,
    handed_over: Result<AndroidIntentStatus, CommandError>,
) -> StartRun {
    let request = start_request();
    let mut stage = AndroidStartStage::begin();
    let mut run = StartRun {
        outcome: AndroidStartOutcome::Continue,
        bootstraps: 0,
        requests: 0,
        service_calls: 0,
        legacy_calls: 0,
    };
    let mut stored = Some(stored);
    let mut granted = Some(granted);
    let mut handed_over = Some(handed_over);
    loop {
        let event = match stage {
            AndroidStartStage::ReadingStatus => AndroidStartEvent::StatusRead(stored.take()),
            AndroidStartStage::Confirming { .. } => AndroidStartEvent::Confirmed(Ok(())),
            AndroidStartStage::ConfirmingLegacy => AndroidStartEvent::Confirmed(Ok(())),
            AndroidStartStage::BindingPeer => AndroidStartEvent::PeerBound(Ok(())),
            AndroidStartStage::Bootstrapping => {
                run.bootstraps += 1;
                AndroidStartEvent::Bootstrapped(Ok((
                    DEVICE.to_string(),
                    granted.take().expect("one bootstrap"),
                )))
            }
            AndroidStartStage::StartingLegacy => {
                run.legacy_calls += 1;
                AndroidStartEvent::LegacyStarted(Ok(test_connection("legacy-lease")))
            }
            AndroidStartStage::BuildingRequest => {
                run.requests += 1;
                AndroidStartEvent::RequestBuilt(Ok(()))
            }
            AndroidStartStage::HandingOver => {
                run.service_calls += 1;
                AndroidStartEvent::HandedOver(handed_over.take().expect("one handover"))
            }
        };
        match stage.step(&request, event, 100) {
            AndroidStartOutcome::Continue => {}
            outcome => {
                run.outcome = outcome;
                return run;
            }
        }
    }
}

#[test]
fn enabled_recovery_with_an_expired_device_token_uses_ui_authenticated_provision() {
    assert_eq!(
        android_background_provision_mode(
            &credential_status(false, 1, 200, 100),
            "device-1",
            &background_capability_snapshot(1, true, 200),
            150,
        ),
        AndroidBackgroundProvisionMode::UiAuthenticatedTwoPhase,
    );
}

#[test]
fn stored_enabled_capability_prevents_stale_desired_legacy_provisioning() {
    assert_eq!(
        android_background_provision_mode(
            &credential_status(false, 1, 200, 100),
            "device-1",
            &background_capability_snapshot(2, false, 1),
            150,
        ),
        AndroidBackgroundProvisionMode::UiAuthenticatedTwoPhase,
    );
}

#[test]
fn pending_activation_is_replayed_even_while_the_old_local_token_looks_fresh() {
    assert_eq!(
        android_background_provision_mode(
            &credential_status(true, 1, 300, 2_000_000),
            "device-1",
            &background_capability_snapshot(1, true, 300),
            150,
        ),
        AndroidBackgroundProvisionMode::UiAuthenticatedTwoPhase,
    );
}

#[test]
fn expired_capability_with_a_fresh_device_token_only_refreshes_the_snapshot() {
    assert_eq!(
        android_background_provision_mode(
            &credential_status(false, 1, 100, 2_000_000),
            "device-1",
            &background_capability_snapshot(2, true, 300),
            150,
        ),
        AndroidBackgroundProvisionMode::RefreshStoredCapability,
    );
}

#[test]
fn newer_same_enabled_capability_refreshes_the_android_snapshot() {
    let desired = AndroidBackgroundCapabilitySnapshot {
        revision: 11,
        enabled: true,
        expires_at: "1970-01-01T00:05:00Z".to_string(),
        expires_at_unix: 300,
    };
    assert_eq!(
        android_background_provision_mode(
            &credential_status(false, 10, 200, 2_000_000),
            "device-1",
            &desired,
            150,
        ),
        AndroidBackgroundProvisionMode::RefreshStoredCapability,
    );
}

#[test]
fn changed_enabled_capability_expiry_refreshes_the_android_snapshot() {
    let desired = android_background_capability_snapshot(
        &Some(capability(10, "1970-01-01T00:05:00Z", Some(300), true)),
        150,
    );
    assert_eq!(
        android_background_provision_mode(
            &credential_status(false, 10, 200, 2_000_000),
            "device-1",
            &desired,
            150,
        ),
        AndroidBackgroundProvisionMode::RefreshStoredCapability,
    );
}

#[test]
fn capability_expiring_now_is_disabled_for_android_provisioning() {
    let snapshot = android_background_capability_snapshot(
        &Some(capability(7, "1970-01-01T00:02:30Z", Some(150), true)),
        150,
    );
    assert_eq!(snapshot.revision, 7);
    assert!(!snapshot.enabled);
    assert_eq!(snapshot.expires_at, "1970-01-01T00:00:01Z");
}

#[test]
fn malformed_capability_expiry_is_disabled_for_android_provisioning() {
    let snapshot = android_background_capability_snapshot(
        &Some(capability(8, "not-a-timestamp", None, true)),
        150,
    );
    assert_eq!(snapshot.revision, 8);
    assert!(!snapshot.enabled);
    assert_eq!(snapshot.expires_at, "1970-01-01T00:00:01Z");
}

#[test]
fn invalid_capability_revision_uses_the_disabled_android_sentinel() {
    let snapshot = android_background_capability_snapshot(&fresh(-1, true), 150);
    assert_eq!(snapshot.revision, 0);
    assert!(!snapshot.enabled);
    assert_eq!(snapshot.expires_at, ANDROID_DISABLED_CAPABILITY_EXPIRES_AT);
}

#[test]
fn a_fresh_stored_capability_needs_nothing() {
    assert_eq!(
        android_background_provision_mode(
            &credential_status(false, 1, 300, 2_000_000),
            "device-1",
            &background_capability_snapshot(1, true, 300),
            150,
        ),
        AndroidBackgroundProvisionMode::Noop,
    );
}

#[test]
fn provisioning_is_tried_again_three_times() {
    let delays: Vec<Option<u64>> = (0..4).map(provision_retry_delay).collect();
    assert_eq!(delays, vec![Some(5), Some(30), Some(120), None]);
}

#[test]
fn a_failed_reconciliation_waits_fifteen_seconds() {
    let mut reconcile = QuickReconcile::new();
    assert!(reconcile.is_due(100));
    reconcile.defer(100);
    assert!(!reconcile.is_due(114));
    assert!(reconcile.is_due(115));
    reconcile.defer(i64::MAX);
    assert!(!reconcile.is_due(115));
    reconcile.clear();
    assert!(reconcile.is_due(0));
}

#[test]
fn android_ui_start_waits_for_durable_service_ack_without_panel_start() {
    assert!(android_start_epoch_is_current(7, 7));
    assert!(!android_start_epoch_is_current(7, 8));

    let run = run_start(
        durable_android_start_status(),
        None,
        Ok(durable_android_start_status()),
    );
    assert!(matches!(run.outcome, AndroidStartOutcome::Recovering(None)));
    assert_eq!(run.service_calls, 1);
    assert_eq!(run.legacy_calls, 0);
}

#[test]
fn android_new_ui_start_uses_legacy_contract_without_a_fresh_enabled_capability() {
    for granted in [
        None,
        fresh(7, false),
        Some(capability(8, "1970-01-01T00:01:40Z", Some(100), true)),
    ] {
        let run = run_start(
            service_status(false, "none", None),
            granted,
            Err(CommandError::new("unexpected_service_begin", "unexpected")),
        );
        match run.outcome {
            AndroidStartOutcome::Connected(connection) => {
                assert_eq!(connection.lease_id, "legacy-lease")
            }
            _ => panic!("unexpected legacy route outcome"),
        }
        assert_eq!(run.bootstraps, 1);
        assert_eq!(run.service_calls, 0);
        assert_eq!(run.legacy_calls, 1);
        assert_eq!(run.requests, 0);
    }
}

#[test]
fn android_fresh_enabled_capability_selects_service_without_legacy_start() {
    let run = run_start(
        service_status(false, "none", None),
        fresh(9, true),
        Ok(durable_android_start_status()),
    );
    assert!(matches!(run.outcome, AndroidStartOutcome::Recovering(_)));
    assert_eq!(run.service_calls, 1);
    assert_eq!(run.legacy_calls, 0);
}

#[test]
fn android_already_durable_operation_stays_service_owned_after_capability_disable() {
    let run = run_start(
        durable_android_start_status(),
        fresh(10, false),
        Ok(durable_android_start_status()),
    );
    assert!(matches!(run.outcome, AndroidStartOutcome::Recovering(_)));
    assert_eq!(run.service_calls, 1);
    assert_eq!(run.legacy_calls, 0);
}

#[test]
fn android_selected_recovery_failure_never_falls_back_to_duplicate_legacy_start() {
    let run = run_start(
        service_status(false, "none", None),
        fresh(11, true),
        Err(CommandError::new(
            "background_transport_unavailable",
            "temporarily unavailable",
        )),
    );
    match run.outcome {
        AndroidStartOutcome::Failed(error) => {
            assert_eq!(error.code(), "background_transport_unavailable")
        }
        _ => panic!("a selected recovery path must return its own error"),
    }
    assert_eq!(run.legacy_calls, 0);
}

#[test]
fn android_ui_start_accepts_every_valid_durable_service_phase_and_projection() {
    for (phase, status) in [
        ("start_pending", "recovering"),
        ("lease_acquired", "recovering"),
        ("cleanup_pending", "stopping"),
        ("stale_cleanup", "stopping"),
        ("active_checkpoint", "none"),
    ] {
        let run = run_start(
            durable_android_start_status(),
            None,
            Ok(service_status(true, status, Some(phase))),
        );
        assert!(
            matches!(run.outcome, AndroidStartOutcome::Recovering(_)),
            "phase={phase} status={status}"
        );
    }
}

#[test]
fn android_ui_start_rejects_idle_or_inconsistent_service_acknowledgement() {
    for (desired_active, phase, status) in [
        (true, None, "none"),
        (false, Some("start_pending"), "recovering"),
        (true, Some("lease_acquired"), "none"),
        (true, Some("cleanup_pending"), "recovering"),
        (true, Some("active_checkpoint"), "blocked_terminal"),
        (true, Some("invalid"), "recovering"),
    ] {
        let acknowledged = service_status(desired_active, status, phase);
        assert!(!android_start_acknowledgement_is_durable(&acknowledged));
        let run = run_start(durable_android_start_status(), None, Ok(acknowledged));
        match run.outcome {
            AndroidStartOutcome::Failed(error) => {
                assert_eq!(error.code(), "connection_intent_persist_failed")
            }
            _ => panic!("phase={phase:?} status={status}"),
        }
    }
}

#[test]
fn a_start_for_another_device_is_refused() {
    let request = start_request();
    let mut stage = AndroidStartStage::begin();
    stage.step(
        &request,
        AndroidStartEvent::StatusRead(Some(service_status(false, "none", None))),
        100,
    );
    stage.step(&request, AndroidStartEvent::Confirmed(Ok(())), 100);
    match stage.step(
        &request,
        AndroidStartEvent::Bootstrapped(Ok(("another".to_string(), fresh(1, true)))),
        100,
    ) {
        AndroidStartOutcome::Failed(error) => assert_eq!(error.code(), "device_mismatch"),
        _ => panic!("a foreign device was accepted"),
    }
    let mut unreadable = AndroidStartStage::begin();
    match unreadable.step(&request, AndroidStartEvent::StatusRead(None), 100) {
        AndroidStartOutcome::Failed(error) => {
            assert_eq!(error.code(), "android_service_status_unavailable")
        }
        _ => panic!("a start went on without a status"),
    }
}

/// A start that the panel has not granted an intent for.
fn legacy_start(request: &StartCommandRequest) -> AndroidStartStage {
    let mut stage = AndroidStartStage::begin();
    for event in [
        AndroidStartEvent::StatusRead(Some(service_status(false, "none", None))),
        AndroidStartEvent::Confirmed(Ok(())),
        AndroidStartEvent::Bootstrapped(Ok((DEVICE.to_string(), None))),
    ] {
        assert!(matches!(
            stage.step(request, event, 100),
            AndroidStartOutcome::Continue
        ));
    }
    stage
}

#[test]
fn a_start_without_the_service_binds_the_peer_that_is_named() {
    let mut request = start_request();
    for binding_requested in [false, true] {
        request.binding_requested = binding_requested;
        let mut stage = legacy_start(&request);
        assert_eq!(stage, AndroidStartStage::ConfirmingLegacy);
        stage.step(&request, AndroidStartEvent::Confirmed(Ok(())), 100);
        if binding_requested {
            assert_eq!(stage, AndroidStartStage::BindingPeer);
            stage.step(&request, AndroidStartEvent::PeerBound(Ok(())), 100);
        }
        assert_eq!(stage, AndroidStartStage::StartingLegacy);
    }
    let mut stage = legacy_start(&request);
    stage.step(&request, AndroidStartEvent::Confirmed(Ok(())), 100);
    let failed = AndroidStartEvent::PeerBound(Err(ApplicationError::Clock));
    match stage.step(&request, failed, 100) {
        AndroidStartOutcome::Failed(error) => assert_eq!(error.code(), "clock_unavailable"),
        _ => panic!("a start went on without its peer"),
    }
    assert_eq!(stage, AndroidStartStage::BindingPeer);
}

#[test]
fn a_stop_while_the_panel_is_asked_ends_a_start_without_the_service() {
    let mut coordinator = AndroidUiStartStopCoordinator::new();
    let ticket = coordinator.start_ticket();
    let request = start_request();
    let mut stage = legacy_start(&request);
    coordinator.cancel_starts();
    let confirmed = AndroidStartEvent::Confirmed(coordinator.ensure_current(ticket));
    match stage.step(&request, confirmed, 100) {
        AndroidStartOutcome::Failed(error) => {
            assert_eq!(error.code(), "connection_intent_cancelled")
        }
        _ => panic!("a start went on after a stop"),
    }
}

#[test]
fn a_sign_out_that_failed_projects_no_stop() {
    for (signed_out, cleared, answer) in [
        (true, true, Some(false)),
        (true, false, None),
        (false, true, None),
        (false, false, None),
    ] {
        assert_eq!(cleared_activity(signed_out, cleared), answer);
        let mut coordinator = AndroidUiStartStopCoordinator::new();
        let mut projection = AndroidDesiredActiveProjection::new();
        let (command, ()) = coordinator.dispatch_projected_clear(|| ());
        coordinator.settle_projected_action(command, &mut projection, answer);
        assert!(!coordinator.projection_is_current(command));
        let idle = projection.status_unavailable_fallback() == ConnectionIntentStatus::Idle;
        assert_eq!(idle, answer.is_some());
    }
}

#[test]
fn android_projected_mutations_dispatch_in_ticket_order() {
    let mut coordinator = AndroidUiStartStopCoordinator::new();
    let mut projection = AndroidDesiredActiveProjection::new();
    let (clear_ticket, cleared) = coordinator.dispatch_projected_clear(|| "clear");
    let (toggle_ticket, toggled) =
        coordinator.dispatch_projected_toggle(&mut projection, || "toggle");
    assert_eq!([cleared, toggled], ["clear", "toggle"]);
    assert!(!coordinator.projection_is_current(clear_ticket));
    assert!(coordinator.projection_is_current(toggle_ticket));
}

#[test]
fn android_start_and_stop_dispatch_in_ticket_order() {
    let mut coordinator = AndroidUiStartStopCoordinator::new();
    let mut projection = AndroidDesiredActiveProjection::new();
    let start_ticket = coordinator.start_ticket();
    let mut start = AndroidProjectedStart::new(start_ticket);
    assert!(start.before_poll(&mut coordinator, &mut projection).is_ok());
    let pending: SideEffectPoll<Result<(), CommandError>> = SideEffectPoll::Pending;
    assert!(matches!(
        start.after_poll(&mut coordinator, pending),
        SideEffectPoll::Pending
    ));

    let (stop_ticket, stopped) = coordinator.dispatch_projected_stop(|| true);
    assert!(stopped);
    assert!(start.before_poll(&mut coordinator, &mut projection).is_ok());
    let command = match start.after_poll(&mut coordinator, SideEffectPoll::Ready(Ok(()))) {
        SideEffectPoll::Ready(Ok((command, ()))) => command,
        _ => panic!("unexpected projected start failure"),
    };

    assert!(coordinator.commit_projected_action(stop_ticket, &mut projection, false));
    let error = coordinator
        .commit_projected_start(start_ticket, command, &mut projection, true)
        .expect_err("a stop must void a start that was dispatched just before it");
    assert_eq!(error.code(), "connection_intent_cancelled");
}

#[test]
fn android_stop_invalidates_a_blocked_start_before_its_late_ack() {
    let mut coordinator = AndroidUiStartStopCoordinator::new();
    let first_ticket = coordinator.start_ticket();
    let second_ticket = coordinator.start_ticket();
    assert!(coordinator.ensure_current(first_ticket).is_ok());
    coordinator.cancel_starts();
    assert_eq!(
        coordinator.ensure_current(second_ticket).unwrap_err().code(),
        "connection_intent_cancelled"
    );
    for ticket in [first_ticket, second_ticket] {
        let error = coordinator
            .finish_start(ticket, Ok("recovering"))
            .expect_err("a void start must not show a recovery");
        assert_eq!(error.code(), "connection_intent_cancelled");
    }
}

#[test]
fn android_stop_before_true_side_effect_prevents_recovery_and_legacy_dispatch() {
    let mut coordinator = AndroidUiStartStopCoordinator::new();
    let mut projection = AndroidDesiredActiveProjection::new();
    let mut start = AndroidProjectedStart::new(coordinator.start_ticket());
    coordinator.cancel_starts();
    let error = start
        .before_poll(&mut coordinator, &mut projection)
        .expect_err("a stop that has ended owns the start");
    assert_eq!(error.code(), "connection_intent_cancelled");
}

#[test]
fn android_stop_routes_directly_to_atomic_service_cancel() {
    assert!(!legacy_stop_required(&service_status(
        false,
        "stopping",
        Some("cleanup_pending")
    )));
}

#[test]
fn android_stop_cancels_service_before_stopping_a_legacy_connection() {
    assert!(legacy_stop_required(&service_status(false, "none", None)));
}

#[test]
fn a_system_log_is_kept_only_if_it_is_short_and_not_empty() {
    assert_eq!(kept_logcat(None), None);
    assert_eq!(kept_logcat(Some(String::new())), None);
    assert_eq!(
        kept_logcat(Some("line".to_string())),
        Some("line".to_string())
    );
    assert!(kept_logcat(Some("x".repeat(2 * 1024 * 1024))).is_some());
    assert!(kept_logcat(Some("x".repeat(2 * 1024 * 1024 + 1))).is_none());
}

#[test]
fn a_bootstrap_needs_a_descriptor_and_a_bounded_text() {
    assert!(admits_bootstrap(3, Some("{}")));
    assert!(!admits_bootstrap(-1, Some("{}")));
    assert!(!admits_bootstrap(3, None));
    assert!(admits_bootstrap(0, Some(&"x".repeat(65_536))));
    assert!(!admits_bootstrap(0, Some(&"x".repeat(65_537))));
}

#[test]
fn the_selected_runtime_is_not_among_the_others() {
    let path = |slot: RuntimeSlot, version: &str| RuntimePath {
        slot,
        runtime_version: version.to_string(),
        namespace: format!("namespace-{version}"),
        preferences: format!("preferences-{version}"),
    };
    let paths = vec![
        path(RuntimeSlot::Stable, "1.0.0"),
        path(RuntimeSlot::Latest, "1.1.0"),
        path(RuntimeSlot::Latest, "1.0.0"),
    ];
    assert_eq!(
        selected_runtime(&paths, RuntimeSlot::Latest, "1.0.0"),
        Some(2)
    );
    assert_eq!(
        selected_runtime(&paths, RuntimeSlot::Stable, "1.1.0"),
        None
    );
    assert_eq!(retained_runtimes(&paths, 2), vec![0, 1]);
}

#[test]
fn unavailable_android_service_preserves_recovery_without_a_confirmed_quick_stop() {
    let mut projection = AndroidDesiredActiveProjection::new();
    let fallback = projection.status_unavailable_fallback();
    assert_eq!(
        project_android_connection_intent_status(None, fallback),
        (
            ConnectionIntentStatus::Recovering,
            None,
        ),
    );
}

#[test]
fn confirmed_android_stop_remains_idle_across_status_failures() {
    let mut projection = AndroidDesiredActiveProjection::new();
    assert_eq!(
        projection.status_unavailable_fallback(),
        ConnectionIntentStatus::Recovering,
    );

    projection.observe_snapshot(true, Some(false));
    assert_eq!(
        projection.status_unavailable_fallback(),
        ConnectionIntentStatus::Idle,
    );
    assert_eq!(
        projection.status_unavailable_fallback(),
        ConnectionIntentStatus::Idle,
    );

    projection.observe_snapshot(false, None);
    assert_eq!(
        projection.status_unavailable_fallback(),
        ConnectionIntentStatus::Idle,
    );

    projection.observe_snapshot(true, None);
    assert_eq!(
        projection.status_unavailable_fallback(),
        ConnectionIntentStatus::Recovering,
    );

    projection.observe_confirmed(true);
    assert_eq!(
        projection.status_unavailable_fallback(),
        ConnectionIntentStatus::Recovering,
    );
}

#[test]
fn confirmed_android_quick_stop_clears_an_unavailable_service_status() {
    let mut projection = AndroidDesiredActiveProjection::new();
    projection.observe_confirmed(false);
    let fallback = projection.status_unavailable_fallback();
    assert_eq!(
        project_android_connection_intent_status(None, fallback),
        (ConnectionIntentStatus::Idle, None),
    );
    assert_eq!(
        project_android_connection_intent_status(
            Some(("recovering", Some(42))),
            ConnectionIntentStatus::Idle,
        ),
        (
            ConnectionIntentStatus::Recovering,
            Some(42),
        ),
    );
    assert_eq!(
        project_android_connection_intent_status(
            Some(("blocked_terminal", None)),
            ConnectionIntentStatus::Idle,
        ),
        (
            ConnectionIntentStatus::BlockedTerminal,
            None,
        ),
    );
}

#[test]
fn android_service_start_invalidates_a_stopped_projection_before_acknowledgement() {
    let mut coordinator = AndroidUiStartStopCoordinator::new();
    let mut projection = AndroidDesiredActiveProjection::new();
    projection.observe_confirmed(false);
    let ticket = coordinator.start_ticket();

    let projection_ticket = match coordinator.begin_projected_start(ticket, &mut projection) {
        Ok(projection_ticket) => projection_ticket,
        Err(error) => panic!("unexpected projected start failure: {}", error.code()),
    };

    assert_eq!(
        projection.status_unavailable_fallback(),
        ConnectionIntentStatus::Recovering,
    );
    if let Err(error) =
        coordinator.commit_projected_start(ticket, projection_ticket, &mut projection, true)
    {
        panic!(
            "unexpected projected start commit failure: {}",
            error.code()
        );
    }
    assert_eq!(
        projection.status_unavailable_fallback(),
        ConnectionIntentStatus::Recovering,
    );
}

#[test]
fn late_android_start_acknowledgement_cannot_override_a_completed_stop() {
    let mut coordinator = AndroidUiStartStopCoordinator::new();
    let mut projection = AndroidDesiredActiveProjection::new();
    projection.observe_confirmed(false);
    let ticket = coordinator.start_ticket();
    let projection_ticket = match coordinator.begin_projected_start(ticket, &mut projection) {
        Ok(projection_ticket) => projection_ticket,
        Err(error) => panic!("unexpected projected start failure: {}", error.code()),
    };

    let stop_ticket = coordinator.begin_projected_stop();
    assert!(coordinator.commit_projected_action(stop_ticket, &mut projection, false));

    let error = coordinator
        .commit_projected_start(ticket, projection_ticket, &mut projection, true)
        .expect_err("a cancelled start must not publish its late acknowledgement");
    assert_eq!(error.code(), "connection_intent_cancelled");
    assert_eq!(
        projection.status_unavailable_fallback(),
        ConnectionIntentStatus::Idle,
    );
}

#[test]
fn stale_android_status_cannot_override_a_completed_stop() {
    let mut coordinator = AndroidUiStartStopCoordinator::new();
    let mut projection = AndroidDesiredActiveProjection::new();
    projection.observe_confirmed(true);
    let stale_status_ticket = coordinator.projection_ticket();

    let stop_ticket = coordinator.begin_projected_stop();
    assert!(coordinator.commit_projected_action(stop_ticket, &mut projection, false));
    assert!(!coordinator.observe_projected_status(stale_status_ticket, &mut projection, true,));
    assert_eq!(
        projection.status_unavailable_fallback(),
        ConnectionIntentStatus::Idle,
    );
}

#[test]
fn older_android_status_poll_cannot_override_a_newer_completed_poll() {
    let mut coordinator = AndroidUiStartStopCoordinator::new();
    let mut projection = AndroidDesiredActiveProjection::new();
    projection.observe_confirmed(true);
    let older_status_ticket = coordinator.projection_ticket();
    let newer_status_ticket = coordinator.projection_ticket();

    assert!(coordinator.observe_projected_status(newer_status_ticket, &mut projection, false,));
    assert!(!coordinator.observe_projected_status(older_status_ticket, &mut projection, true,));
    assert_eq!(
        projection.status_unavailable_fallback(),
        ConnectionIntentStatus::Idle,
    );
}

#[test]
fn late_android_stop_acknowledgement_cannot_override_a_new_start() {
    let mut coordinator = AndroidUiStartStopCoordinator::new();
    let mut projection = AndroidDesiredActiveProjection::new();
    projection.observe_confirmed(true);
    let stop_ticket = coordinator.begin_projected_stop();
    let start_ticket = coordinator.start_ticket();
    let projected_start = match coordinator.begin_projected_start(start_ticket, &mut projection) {
        Ok(projected_start) => projected_start,
        Err(error) => panic!("unexpected projected start failure: {}", error.code()),
    };

    assert!(coordinator.commit_projected_action(projected_start, &mut projection, true));
    assert!(!coordinator.commit_projected_action(stop_ticket, &mut projection, false));
    assert_eq!(
        projection.status_unavailable_fallback(),
        ConnectionIntentStatus::Recovering,
    );
}

#[test]
fn android_status_cannot_restore_stopped_while_start_is_pending() {
    let mut coordinator = AndroidUiStartStopCoordinator::new();
    let mut projection = AndroidDesiredActiveProjection::new();
    projection.observe_confirmed(false);
    let start_ticket = coordinator.start_ticket();
    let projected_start = match coordinator.begin_projected_start(start_ticket, &mut projection) {
        Ok(projected_start) => projected_start,
        Err(error) => panic!("unexpected projected start failure: {}", error.code()),
    };
    let status_ticket = coordinator.projection_ticket();

    assert!(!coordinator.observe_projected_status(status_ticket, &mut projection, false));
    assert_eq!(
        projection.status_unavailable_fallback(),
        ConnectionIntentStatus::Recovering,
    );
    assert!(coordinator.commit_projected_action(projected_start, &mut projection, true));
}

#[test]
fn android_quick_snapshot_invalidates_an_older_status_poll() {
    let mut coordinator = AndroidUiStartStopCoordinator::new();
    let mut projection = AndroidDesiredActiveProjection::new();
    projection.observe_confirmed(true);
    let stale_status_ticket = coordinator.projection_ticket();
    let quick_snapshot_ticket = coordinator.projection_ticket();

    assert!(coordinator.observe_projected_snapshot(
        quick_snapshot_ticket,
        &mut projection,
        true,
        Some(false),
    ));

    assert!(!coordinator.observe_projected_status(stale_status_ticket, &mut projection, true,));
    assert_eq!(
        projection.status_unavailable_fallback(),
        ConnectionIntentStatus::Idle,
    );
}

#[test]
fn stale_android_quick_snapshot_cannot_override_a_completed_stop() {
    let mut coordinator = AndroidUiStartStopCoordinator::new();
    let mut projection = AndroidDesiredActiveProjection::new();
    projection.observe_confirmed(true);
    let stale_snapshot_ticket = coordinator.projection_ticket();
    let stop_ticket = coordinator.begin_projected_stop();
    assert!(coordinator.commit_projected_action(stop_ticket, &mut projection, false));

    assert!(!coordinator.observe_projected_snapshot(
        stale_snapshot_ticket,
        &mut projection,
        true,
        Some(true),
    ));
    assert_eq!(
        projection.status_unavailable_fallback(),
        ConnectionIntentStatus::Idle,
    );
}

#[test]
fn android_quick_snapshot_cannot_override_a_pending_start() {
    let mut coordinator = AndroidUiStartStopCoordinator::new();
    let mut projection = AndroidDesiredActiveProjection::new();
    projection.observe_confirmed(false);
    let start_ticket = coordinator.start_ticket();
    let projected_start = match coordinator.begin_projected_start(start_ticket, &mut projection) {
        Ok(projected_start) => projected_start,
        Err(error) => panic!("unexpected projected start failure: {}", error.code()),
    };
    let quick_snapshot_ticket = coordinator.projection_ticket();

    assert!(!coordinator.observe_projected_snapshot(
        quick_snapshot_ticket,
        &mut projection,
        true,
        Some(false),
    ));
    assert!(coordinator.commit_projected_action(projected_start, &mut projection, true));
    assert_eq!(
        projection.status_unavailable_fallback(),
        ConnectionIntentStatus::Recovering,
    );
}

#[test]
fn newer_android_quick_snapshot_supersedes_an_older_completed_snapshot() {
    let mut coordinator = AndroidUiStartStopCoordinator::new();
    let mut projection = AndroidDesiredActiveProjection::new();
    projection.observe_confirmed(true);
    let older_snapshot_ticket = coordinator.projection_ticket();
    let newer_snapshot_ticket = coordinator.projection_ticket();

    assert!(coordinator.observe_projected_snapshot(
        older_snapshot_ticket,
        &mut projection,
        true,
        Some(true),
    ));
    assert!(coordinator.observe_projected_snapshot(
        newer_snapshot_ticket,
        &mut projection,
        true,
        Some(false),
    ));
    assert_eq!(
        projection.status_unavailable_fallback(),
        ConnectionIntentStatus::Idle,
    );
}

#[test]
fn android_status_failure_uses_projection_after_a_concurrent_start() {
    let mut coordinator = AndroidUiStartStopCoordinator::new();
    let mut projection = AndroidDesiredActiveProjection::new();
    projection.observe_confirmed(false);
    let stale_status_ticket = coordinator.projection_ticket();
    let start_ticket = coordinator.start_ticket();
    if let Err(error) = coordinator.begin_projected_start(start_ticket, &mut projection) {
        panic!("unexpected projected start failure: {}", error.code());
    }

    assert_eq!(
        coordinator.projected_status_fallback(stale_status_ticket, &projection),
        ConnectionIntentStatus::Recovering,
    );
}

#[test]
fn android_status_finalization_discards_a_reply_that_precedes_start() {
    let mut coordinator = AndroidUiStartStopCoordinator::new();
    let mut projection = AndroidDesiredActiveProjection::new();
    projection.observe_confirmed(false);
    let status_ticket = coordinator.projection_ticket();
    let start_ticket = coordinator.start_ticket();
    if let Err(error) = coordinator.begin_projected_start(start_ticket, &mut projection) {
        panic!("unexpected projected start failure: {}", error.code());
    }

    let (status_is_current, fallback) =
        coordinator.finalize_projected_status(status_ticket, &mut projection, Some(false));
    assert!(!status_is_current);
    assert_eq!(
        project_android_connection_intent_status(
            status_is_current.then_some(("none", None)),
            fallback,
        ),
        (
            ConnectionIntentStatus::Recovering,
            None,
        ),
    );
}

#[test]
fn late_android_clear_cannot_override_a_new_start() {
    let mut coordinator = AndroidUiStartStopCoordinator::new();
    let mut projection = AndroidDesiredActiveProjection::new();
    projection.observe_confirmed(true);
    let clear_ticket = coordinator.begin_projected_clear();
    let start_ticket = coordinator.start_ticket();
    let projected_start = match coordinator.begin_projected_start(start_ticket, &mut projection) {
        Ok(projected_start) => projected_start,
        Err(error) => panic!("unexpected projected start failure: {}", error.code()),
    };

    assert!(coordinator.commit_projected_action(projected_start, &mut projection, true));
    assert!(!coordinator.commit_projected_action(clear_ticket, &mut projection, false));
    assert_eq!(
        projection.status_unavailable_fallback(),
        ConnectionIntentStatus::Recovering,
    );
}

#[test]
fn android_toggle_and_clear_fence_contradictory_status_polls() {
    let mut coordinator = AndroidUiStartStopCoordinator::new();
    let mut projection = AndroidDesiredActiveProjection::new();
    projection.observe_confirmed(false);
    let toggle_ticket = coordinator.begin_projected_toggle(&mut projection);
    let toggle_status_ticket = coordinator.projection_ticket();

    assert!(!coordinator.observe_projected_status(toggle_status_ticket, &mut projection, false,));
    coordinator.finish_projected_action(toggle_ticket);
    let recovered_status_ticket = coordinator.projection_ticket();
    assert!(coordinator.observe_projected_status(recovered_status_ticket, &mut projection, true,));

    let stale_status_ticket = coordinator.projection_ticket();
    let clear_ticket = coordinator.begin_projected_clear();
    assert!(coordinator.commit_projected_action(clear_ticket, &mut projection, false));
    assert!(!coordinator.observe_projected_status(stale_status_ticket, &mut projection, true,));
    assert_eq!(
        projection.status_unavailable_fallback(),
        ConnectionIntentStatus::Idle,
    );
}
