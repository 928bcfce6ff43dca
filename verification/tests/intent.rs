use nelomai_app::command_records::slow_recovery_notification;
use nelomai_app::connection_intent::{
    attempt_is_current_after_async_boundary, attempt_kind_for_stall_plan, attempt_reports_recovery,
    can_begin_stall_recovery, connection_matches_core_state, initial_desktop_preflight_action,
    initial_desktop_start_mode, local_recovery_connection, next_capability_refresh_requirement,
    next_reconcile_requirement, quick_toggle_placeholder_options, recovering_action,
    recovery_capability_result, resolve_initial_desktop_start, retry_at_after_wakeup,
    run_initial_desktop_preflight, update_policy_context, AttemptKind, InitialDesktopPreflight,
    InitialDesktopPreflightAction, InitialDesktopStartMode, PreflightStep, RecoveryDecision,
    RecoveryPolicyContext, StallRecoveryPlan, StartBootstrap, StartRuntimeAction,
};
use nelomai_app::core_state::{
    ConnectOptions, Connection, ConnectionIntentCapability, ConnectionIntentStatus, CoreState,
    EgressMode, Layer, LeaseStatus, Phase, RouteMode, TicConnectionMode,
};
use nelomai_app::errors::{
    error_retry_after_seconds, stable_error_code, ApplicationError, CoreApiError, CoreError,
};
use nelomai_app::intent_attempt::{
    compensation_failed, AttemptEvent, AttemptOutcome, AttemptStage, LocalRecovery,
    LocalRecoveryOutcome,
};
use nelomai_app::intent_runtime::{
    RuntimeState, ScheduledRetry, StallOwnership, StartDisposition, StartStep,
};
use nelomai_app::metrics_scheduler::ClientPlatform;
use nelomai_app::stall_recovery::StalledDataPlaneRecoveryOutcome;

fn options() -> ConnectOptions {
    ConnectOptions {
        layer: Layer::Stray,
        tic_connection_mode: TicConnectionMode::Dynamic,
        route_mode: RouteMode::Standalone,
        egress_mode: EgressMode::Ipv4,
        allow_alternate: true,
    }
}

fn connection(lease_id: &str) -> Connection {
    Connection {
        lease_id: lease_id.to_string(),
        layer: Layer::Stray,
        tic_connection_mode: TicConnectionMode::Dynamic,
        route_mode: RouteMode::Standalone,
        egress_mode: EgressMode::Ipv4,
        status: LeaseStatus::Connected,
        pinned: false,
    }
}

fn capability(enabled: bool) -> Option<ConnectionIntentCapability> {
    Some(ConnectionIntentCapability {
        revision: 7,
        expires_at: "2099-01-01T00:00:00Z".to_string(),
        expires_at_unix: Some(4_070_908_800),
        connection_intent_recovery_v1: enabled,
    })
}

fn core_state(phase: Phase, connection: Option<Connection>) -> CoreState {
    CoreState { phase, connection }
}

/// A state in which an intent was begun.
fn begun(preflight: Option<InitialDesktopPreflight>) -> RuntimeState {
    let mut state = RuntimeState::new();
    let step = state.start_or_resume(
        &core_state(Phase::Ready, None),
        StartDisposition::Recovering { generation: 1 },
        0,
        options(),
        preflight,
    );
    assert!(matches!(step, StartStep::Run(1)));
    state
}

fn failure(code: &str) -> ApplicationError {
    ApplicationError::Core(CoreError::Tunnel(code.to_string()))
}

#[test]
fn slow_recovery_system_notification_uses_injectable_notifier() {
    let notification = slow_recovery_notification();
    assert_eq!(notification.title, "Проверяем подключение");
    assert!(notification.body.contains("автоматически"));
    assert!(!notification.body.contains("недоступна"));
}

#[test]
fn retryable_transport_and_stable_backend_codes_feed_the_shared_classifier() {
    assert_eq!(
        stable_error_code(&ApplicationError::Core(CoreError::Api(
            CoreApiError::Retryable,
        ))),
        "transport_error"
    );
    assert_eq!(
        stable_error_code(&ApplicationError::Core(CoreError::Tunnel(
            "service_unavailable".to_string(),
        ))),
        "service_unavailable"
    );
}

#[test]
fn bounded_retry_after_reaches_the_runtime_policy() {
    let error = ApplicationError::Core(CoreError::Api(CoreApiError::Rejected {
        code: "connection_stall_recycle_rate_limited".to_string(),
        message: "retry later".to_string(),
        retry_after_seconds: Some(120),
    }));

    assert_eq!(error_retry_after_seconds(&error), Some(120));
}

#[test]
fn reconcile_once_is_bounded_after_the_first_attempt() {
    let mut context = RecoveryPolicyContext::new();
    assert!(!context.stalled_reconcile_attempted);
    update_policy_context(
        &mut context,
        "connection_stall_not_recyclable",
        RecoveryDecision::ReconcileOnce,
    );
    assert!(context.stalled_reconcile_attempted);
}

#[test]
fn nonterminal_server_reconcile_result_keeps_reconcile_as_the_next_action() {
    assert!(next_reconcile_requirement(
        true,
        RecoveryDecision::RetryAfter(1)
    ));
    assert!(next_reconcile_requirement(
        true,
        RecoveryDecision::RetrySameOperation
    ));
    assert!(next_reconcile_requirement(
        false,
        RecoveryDecision::ReconcileThenRetry
    ));
    assert!(!next_reconcile_requirement(
        false,
        RecoveryDecision::RetryAfter(1)
    ));
}

#[test]
fn repeated_start_waits_for_the_existing_generation_instead_of_bypassing_backoff() {
    let generation: u64 = 1;
    assert_eq!(
        recovering_action(generation, generation, Some(102)),
        StartRuntimeAction::Wait(Some(102)),
    );
    assert_eq!(
        recovering_action(generation, generation + 1, Some(102)),
        StartRuntimeAction::Run(generation + 1),
    );
}

#[test]
fn network_wakeup_never_shortens_a_server_retry_deadline() {
    assert_eq!(retry_at_after_wakeup(Some(130), 100), 130);
    assert_eq!(retry_at_after_wakeup(Some(90), 100), 100);
    assert_eq!(retry_at_after_wakeup(None, 100), 100);
}

#[test]
fn cached_connected_result_must_match_the_current_core_lease() {
    let cached = connection("lease-old");
    assert!(connection_matches_core_state(
        &core_state(Phase::Connected, Some(connection("lease-old"))),
        &cached,
    ));
    assert!(!connection_matches_core_state(
        &core_state(Phase::Ready, Some(connection("lease-old"))),
        &cached,
    ));
    assert!(!connection_matches_core_state(
        &core_state(Phase::Connected, Some(connection("lease-new"))),
        &cached,
    ));
}

#[test]
fn blocked_or_active_recovery_cannot_be_rearmed_by_metrics() {
    assert!(can_begin_stall_recovery(ConnectionIntentStatus::Idle, true));
    assert!(!can_begin_stall_recovery(
        ConnectionIntentStatus::Recovering,
        true,
    ));
    assert!(!can_begin_stall_recovery(
        ConnectionIntentStatus::BlockedTerminal,
        true,
    ));
}

#[test]
fn preserved_peer_plan_uses_the_atomic_replacement_transaction() {
    assert_eq!(
        attempt_kind_for_stall_plan(StallRecoveryPlan::PreservePeer),
        AttemptKind::StallReplacement,
    );
}

#[test]
fn stall_replacement_reports_a_successful_recovery() {
    assert!(attempt_reports_recovery(AttemptKind::StallReplacement, 0));
}

#[test]
fn capability_refresh_distinguishes_new_work_from_exact_replay() {
    assert!(next_capability_refresh_requirement(
        false,
        RecoveryDecision::RetryNewOperation,
    ));
    assert!(!next_capability_refresh_requirement(
        false,
        RecoveryDecision::RetrySameOperation,
    ));
    assert!(next_capability_refresh_requirement(
        true,
        RecoveryDecision::RetrySameOperation,
    ));
}

#[test]
fn cancelled_capability_refresh_releases_the_attempt_for_the_next_start() {
    assert!(attempt_is_current_after_async_boundary(
        1,
        ConnectionIntentStatus::Recovering,
        1,
    ));
    assert!(!attempt_is_current_after_async_boundary(
        1,
        ConnectionIntentStatus::Idle,
        1,
    ));
    assert!(!attempt_is_current_after_async_boundary(
        2,
        ConnectionIntentStatus::Recovering,
        1,
    ));
    let mut state = begun(None);
    state.cancel(true);
    assert!(state.options.is_none());
    assert!(matches!(
        state.start_or_resume(
            &core_state(Phase::Ready, None),
            StartDisposition::Recovering { generation: 2 },
            1,
            options(),
            None,
        ),
        StartStep::Run(2),
    ));
}

#[test]
fn capability_refresh_accepts_only_a_present_enabled_unexpired_snapshot() {
    assert!(recovery_capability_result(&capability(true), 100).is_ok());
    assert_eq!(
        stable_error_code(&recovery_capability_result(&capability(false), 100).unwrap_err()),
        "recovery_contract_unavailable",
    );
    assert_eq!(
        stable_error_code(&recovery_capability_result(&None, 100).unwrap_err()),
        "recovery_contract_unavailable",
    );
}

#[test]
fn initial_desktop_preflight_falls_back_to_legacy_only_after_authoritative_capability_check() {
    assert_eq!(
        initial_desktop_start_mode(&capability(true), 100),
        InitialDesktopStartMode::Recovery,
    );
    assert_eq!(
        initial_desktop_start_mode(&capability(false), 100),
        InitialDesktopStartMode::Legacy,
    );
    assert_eq!(
        initial_desktop_start_mode(&None, 100),
        InitialDesktopStartMode::Legacy,
    );
}

fn desktop_preflight() -> Option<InitialDesktopPreflight> {
    Some(InitialDesktopPreflight {
        expected_device_id: Some("device-1".to_string()),
        binding_requested: false,
        quick_toggle_skip_probe_refresh: Some(true),
    })
}

fn bootstrap(device_id: &str, capabilities: Option<ConnectionIntentCapability>) -> StartBootstrap {
    StartBootstrap {
        device_id: device_id.to_string(),
        can_connect: true,
        peer_bound: true,
        layer: Layer::Stray,
        tic_connection_mode: TicConnectionMode::Dynamic,
        route_mode: RouteMode::Standalone,
        capability: capabilities,
    }
}

#[test]
fn legacy_preflight_failure_retries_the_intent_before_one_successful_legacy_start() {
    assert_eq!(
        initial_desktop_preflight_action(InitialDesktopStartMode::Legacy, false),
        InitialDesktopPreflightAction::RetryIntent,
    );
    assert_eq!(
        initial_desktop_preflight_action(InitialDesktopStartMode::Legacy, true),
        InitialDesktopPreflightAction::RunLegacy,
    );

    let mut state = begun(desktop_preflight());
    let preflight = desktop_preflight().unwrap();
    let resolved = || {
        resolve_initial_desktop_start(
            &preflight,
            &bootstrap("device-1", capability(false)),
            EgressMode::PreferIpv6,
            100,
        )
    };

    let mut attempt = state.begin_attempt(true).unwrap();
    assert!(matches!(
        attempt.step(&mut state, AttemptEvent::StartResolved(resolved())),
        AttemptOutcome::Continue
    ));
    attempt.step(&mut state, AttemptEvent::Current(true));
    attempt.step(&mut state, AttemptEvent::OptionsReplaced(true));
    assert!(matches!(
        attempt.step(
            &mut state,
            AttemptEvent::PreflightDone(Err(failure("service_unavailable")))
        ),
        AttemptOutcome::Fail(_)
    ));
    let code = state.attempt_failed(&failure("service_unavailable"));
    assert_eq!(code, "service_unavailable");
    assert!(!state.failure_classified(RecoveryDecision::RetrySameOperation));
    let retry = state
        .complete_retryable(
            &code,
            RecoveryDecision::RetrySameOperation,
            true,
            Some(102),
            100,
        )
        .unwrap();
    assert_eq!(
        retry,
        ScheduledRetry {
            attempt: 1,
            delay_seconds: 2,
            next_retry_at_unix: Some(102),
        }
    );
    assert!(!state.retry_due(ConnectionIntentStatus::Recovering, 101));
    assert!(state.retry_due(ConnectionIntentStatus::Recovering, 102));

    let mut attempt = state.begin_attempt(true).unwrap();
    attempt.step(&mut state, AttemptEvent::StartResolved(resolved()));
    attempt.step(&mut state, AttemptEvent::Current(true));
    attempt.step(&mut state, AttemptEvent::OptionsReplaced(true));
    attempt.step(&mut state, AttemptEvent::PreflightDone(Ok(())));
    assert_eq!(attempt.stage, AttemptStage::AbandoningIntent);
    attempt.step(&mut state, AttemptEvent::IntentAbandoned(true));
    assert_eq!(
        attempt.stage,
        AttemptStage::StartingLegacy {
            skip_probe_refresh: true
        }
    );
    assert!(state.options.is_none());
    assert!(matches!(
        attempt.step(
            &mut state,
            AttemptEvent::LegacyStarted(Ok(connection("legacy")))
        ),
        AttemptOutcome::Answer(Ok(_))
    ));
}

#[test]
fn stop_cancels_legacy_fallback_while_transient_preflight_waits_for_retry() {
    assert_eq!(
        initial_desktop_preflight_action(InitialDesktopStartMode::Legacy, false),
        InitialDesktopPreflightAction::RetryIntent,
    );
    let mut state = begun(desktop_preflight());
    state.begin_attempt(true);
    state
        .complete_retryable(
            "service_unavailable",
            RecoveryDecision::RetrySameOperation,
            true,
            Some(102),
            100,
        )
        .unwrap();
    state.cancel(true);
    assert!(state.options.is_none());
    assert!(!state.retry_due(ConnectionIntentStatus::Idle, 102));
    let refused = state
        .attempt_refused(ConnectionIntentStatus::Idle, 1, 1)
        .expect("a cancelled intent is not tried");
    assert_eq!(refused.code(), "connection_intent_cancelled");
}

#[test]
fn tray_preflight_failure_stays_owned_until_retry_resolves_real_options_once() {
    let mut state = RuntimeState::new();
    state.start_or_resume(
        &core_state(Phase::Ready, None),
        StartDisposition::Recovering { generation: 1 },
        0,
        quick_toggle_placeholder_options(),
        Some(InitialDesktopPreflight {
            expected_device_id: None,
            binding_requested: false,
            quick_toggle_skip_probe_refresh: Some(false),
        }),
    );
    let mut attempt = state.begin_attempt(true).unwrap();
    assert!(matches!(
        attempt.step(
            &mut state,
            AttemptEvent::StartResolved(Err(failure("transport_error")))
        ),
        AttemptOutcome::Fail(_)
    ));
    state
        .complete_retryable(
            "transport_error",
            RecoveryDecision::RetrySameOperation,
            true,
            Some(102),
            100,
        )
        .unwrap();

    let mut attempt = state.begin_attempt(true).unwrap();
    let preflight = InitialDesktopPreflight {
        expected_device_id: None,
        binding_requested: false,
        quick_toggle_skip_probe_refresh: Some(false),
    };
    let resolved = resolve_initial_desktop_start(
        &preflight,
        &bootstrap("device-1", capability(true)),
        EgressMode::PreferIpv6,
        102,
    );
    attempt.step(&mut state, AttemptEvent::StartResolved(resolved));
    attempt.step(&mut state, AttemptEvent::Current(true));
    attempt.step(&mut state, AttemptEvent::OptionsReplaced(true));
    assert_eq!(
        state.options.map(|options| options.egress_mode),
        Some(EgressMode::PreferIpv6)
    );
    state.cancel(true);
    assert!(state.options.is_none());
}

#[test]
fn late_local_recovery_is_rejected_after_cancellation_or_core_stop() {
    let connected = core_state(Phase::Connected, Some(connection("lease-1")));
    assert!(
        local_recovery_connection(&connected, 0, 0, true, Some("lease-1"), "lease-1").is_some()
    );

    let mut released = connection("lease-1");
    released.status = LeaseStatus::Released;
    let stopped = core_state(Phase::Ready, Some(released));
    assert!(local_recovery_connection(&stopped, 0, 0, true, Some("lease-1"), "lease-1").is_none());
    assert!(local_recovery_connection(&connected, 0, 0, false, None, "lease-1").is_none());
}

#[test]
fn a_remembered_connection_that_is_gone_is_cancelled_first() {
    let mut state = RuntimeState::new();
    let step = state.start_or_resume(
        &core_state(Phase::Ready, None),
        StartDisposition::Connected(connection("lease-old")),
        1,
        options(),
        None,
    );
    assert!(matches!(step, StartStep::CancelStale));
    assert_eq!(
        state.stale_intent_cancelled(false).unwrap_err().code(),
        "connection_busy"
    );
    assert!(state.stale_intent_cancelled(true).is_ok());
    assert_eq!(
        state
            .start_after_cancel(
                StartDisposition::Recovering { generation: 2 },
                options(),
                None
            )
            .ok(),
        Some(2)
    );
    assert!(matches!(
        state.start_or_resume(
            &core_state(Phase::Connected, Some(connection("lease-1"))),
            StartDisposition::Connected(connection("lease-1")),
            2,
            options(),
            None,
        ),
        StartStep::Connected(_)
    ));
}

#[test]
fn a_stalled_connection_is_replaced_after_a_fresh_capability() {
    let mut state = begun(None);
    assert_eq!(
        state.stall_ownership(ConnectionIntentStatus::Idle, "lease-1"),
        StallOwnership::Handled
    );
    assert!(!state.complete_success(true, &connection("lease-1")));
    assert_eq!(
        state.stall_ownership(ConnectionIntentStatus::Idle, "lease-1"),
        StallOwnership::Owned
    );
    assert_eq!(
        state.stall_ownership(ConnectionIntentStatus::Idle, "lease-2"),
        StallOwnership::Foreign
    );
    assert_eq!(
        state.stall_ownership(ConnectionIntentStatus::Recovering, "lease-1"),
        StallOwnership::Handled
    );
    state.handle_stall(StallRecoveryPlan::ReplaceDynamic);
    let mut attempt = state.begin_attempt(true).unwrap();
    assert_eq!(attempt.stage, AttemptStage::RefreshingCapability);
    attempt.step(&mut state, AttemptEvent::CapabilityRefreshed(Ok(())));
    attempt.step(&mut state, AttemptEvent::Current(true));
    assert_eq!(attempt.stage, AttemptStage::Connecting);
    assert!(matches!(
        attempt.step(
            &mut state,
            AttemptEvent::Connected(Ok(connection("lease-2")), None)
        ),
        AttemptOutcome::Succeed(_)
    ));
    assert!(state.complete_success(true, &connection("lease-2")));
    assert_eq!(state.owned_lease_id, Some("lease-2".to_string()));
}

#[test]
fn a_replacement_of_a_released_lease_becomes_a_start() {
    let mut state = begun(None);
    state.complete_success(true, &connection("lease-1"));
    state.handle_stall(StallRecoveryPlan::PreservePeer);
    let mut attempt = state.begin_attempt(true).unwrap();
    attempt.step(&mut state, AttemptEvent::CapabilityRefreshed(Ok(())));
    attempt.step(&mut state, AttemptEvent::Current(true));
    assert_eq!(state.attempt_kind, AttemptKind::StallReplacement);
    attempt.step(
        &mut state,
        AttemptEvent::Connected(Err(failure("transport_error")), Some(LeaseStatus::Released)),
    );
    assert_eq!(state.attempt_kind, AttemptKind::Start);
}

#[test]
fn a_terminal_failure_drops_the_options_of_an_intent_without_a_connection() {
    let mut state = begun(None);
    state.begin_attempt(true);
    assert!(state.failure_classified(RecoveryDecision::Terminal));
    assert_eq!(
        state.complete_terminal(false).unwrap_err().code(),
        "connection_intent_cancelled"
    );
    assert!(state.complete_terminal(true).is_ok());
    assert!(state.options.is_none());
    let refused = state
        .attempt_refused(ConnectionIntentStatus::BlockedTerminal, 1, 1)
        .unwrap();
    assert_eq!(refused.code(), "connection_intent_unavailable");
}

#[test]
fn a_deadline_of_the_panel_survives_a_change_of_the_network() {
    let mut state = begun(None);
    state.begin_attempt(true);
    let retry = state
        .complete_retryable(
            "connection_stall_recycle_rate_limited",
            RecoveryDecision::RetryAfter(30),
            true,
            None,
            100,
        )
        .unwrap();
    assert_eq!(retry.next_retry_at_unix, Some(130));
    state.network_wakeup(110);
    assert_eq!(state.next_retry_at_unix, Some(130));
    assert_eq!(
        state.retry_pause_seconds(ConnectionIntentStatus::Recovering, 110),
        Some(20)
    );
    assert_eq!(
        state.retry_pause_seconds(ConnectionIntentStatus::Idle, 110),
        None
    );
    assert_eq!(
        state
            .complete_retryable(
                "transport_error",
                RecoveryDecision::RetrySameOperation,
                false,
                None,
                110
            )
            .unwrap_err()
            .code(),
        "connection_intent_cancelled"
    );
}

#[test]
fn another_device_is_refused_before_the_first_attempt() {
    let preflight = desktop_preflight().unwrap();
    let refused = resolve_initial_desktop_start(
        &preflight,
        &bootstrap("device-2", capability(true)),
        EgressMode::Ipv4,
        100,
    );
    assert_eq!(
        stable_error_code(&refused.unwrap_err()),
        "device_mismatch"
    );
}

#[test]
fn the_steps_before_an_attempt_depend_on_the_platform() {
    let steps = run_initial_desktop_preflight(true, ClientPlatform::Windows, Layer::Stray);
    assert_eq!(steps.first(), Some(&PreflightStep::BindPeer));
    let linux = run_initial_desktop_preflight(false, ClientPlatform::Linux, Layer::Stray);
    assert!(linux.len() < steps.len());
}

#[test]
fn an_expired_access_or_a_missing_peer_stops_a_quick_start() {
    let preflight = desktop_preflight().unwrap();
    let mut expired = bootstrap("device-1", capability(true));
    expired.can_connect = false;
    assert!(matches!(
        resolve_initial_desktop_start(&preflight, &expired, EgressMode::Ipv4, 100),
        Err(ApplicationError::Core(CoreError::AccessExpired))
    ));
    let mut unbound = bootstrap("device-1", capability(true));
    unbound.peer_bound = false;
    let refused = resolve_initial_desktop_start(&preflight, &unbound, EgressMode::Ipv4, 100);
    assert_eq!(
        stable_error_code(&refused.unwrap_err()),
        "peer_binding_required"
    );
}

#[test]
fn compensation_is_tried_at_growing_distances() {
    let mut failures: usize = 0;
    let mut retries: Vec<(u64, bool)> = Vec::new();
    for _ in 0..8 {
        retries.push(compensation_failed(&mut failures));
    }
    assert_eq!(
        retries,
        vec![
            (2, true),
            (5, false),
            (15, false),
            (30, false),
            (60, false),
            (300, false),
            (300, false),
            (300, false),
        ]
    );
}

#[test]
fn a_local_recovery_ends_with_a_working_tunnel_or_gives_up() {
    let mut recovery = LocalRecovery::Rebinding;
    assert!(matches!(
        recovery.tried(Some(StalledDataPlaneRecoveryOutcome::Rebound)),
        LocalRecoveryOutcome::Continue
    ));
    assert!(matches!(
        recovery.probed(true),
        LocalRecoveryOutcome::Recovered {
            event: "connection.intent.stall_recovered_after_rebind"
        }
    ));

    let mut recovery = LocalRecovery::Rebinding;
    recovery.tried(None);
    assert_eq!(recovery, LocalRecovery::Restarting);
    recovery.tried(Some(StalledDataPlaneRecoveryOutcome::Reconnected));
    assert!(matches!(
        recovery.probed(true),
        LocalRecoveryOutcome::Recovered {
            event: "connection.intent.stall_recovered_after_local_restart"
        }
    ));
    assert!(matches!(
        recovery.probed(false),
        LocalRecoveryOutcome::Failed
    ));
}

#[test]
fn immediate_attempt_consumes_zero_delay_for_initial_and_stall_recovery() {
    let mut state = begun(None);
    assert_eq!(state.next_retry_at_unix, None);
    state.begin_attempt(true);
    let retry = state
        .complete_retryable(
            "transport_error",
            RecoveryDecision::RetrySameOperation,
            true,
            Some(102),
            100,
        )
        .unwrap();
    assert_eq!(retry.next_retry_at_unix, Some(102));
}
