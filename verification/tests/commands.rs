use nelomai_app::app_responses::{
    connection_intent_status_name, stable_diagnostics_connection_lease, ApiVersion,
    AppStateResponse, ConnectionIntentTemplate, PeerBindingResponse, SafePeerBindingResponse,
    StartCommandResponse, StartupStage,
};
use nelomai_app::command_records::defender_repair_unsupported;
use nelomai_app::commands::{repairable_stop_error, CommandError};
use nelomai_app::connection_commands::{
    bootstrap_after_recovery, installed_applications_before_start, logout_result, quick_toggle,
    route_android_startup_recovery, runtime_ready_error, shutdown_requires_stop, state_source,
    ConnectionStop, QuickToggleAction, RuntimeReadyError, StateSource, StopOutcome, TunnelStop,
    TunnelStopOutcome,
};
use nelomai_app::connection_metrics::ConnectionMetricsResponse;
use nelomai_app::core_state::{
    ConnectOptions, Connection, ConnectionIntentStatus, CoreState, EgressMode, Layer, LeaseStatus,
    Phase, RouteMode, TicConnectionMode,
};
use nelomai_app::defender::{
    defender_not_applicable, defender_status_code, defender_status_response,
    ensure_defender_ready_for_awg, AntivirusProduct, AntivirusProductState, DefenderExclusionState,
    DefenderStatus,
};
use nelomai_app::errors::{
    stable_error_code, ApplicationError, CoreApiError, CoreError, TunnelError,
};
use nelomai_app::runtime_commands::{
    runtime_select, runtime_slot_for_selection, runtime_switch_error, update_command_error,
    update_restart_allowed, RuntimeSelection, RuntimeSlot, RuntimeSwitchStatus,
};
use nelomai_app::split_tunnel::{
    installed_applications_error, installed_packages, save_confirmed, split_tunnel_save_response, split_tunnel_state,
    InstalledApplicationResponse, SplitTunnelAddressRule, SplitTunnelAddressRuleKind,
    SplitTunnelAddressRuleScope, SplitTunnelMode, SplitTunnelPolicy, SplitTunnelSaveRequest,
    SplitTunnelSelectedPackageRequest, SplitTunnelSettingsUpdate, TunnelCapabilities,
    TunnelPlatform,
};
use nelomai_app::tunnel::TunnelStatus;

fn core_state(phase: Phase) -> CoreState {
    CoreState {
        phase,
        connection: None,
    }
}

fn connection(lease_id: &str) -> Connection {
    Connection {
        lease_id: lease_id.to_string(),
        layer: Layer::Stray,
        tic_connection_mode: TicConnectionMode::Dynamic,
        route_mode: RouteMode::Standalone,
        egress_mode: EgressMode::Ipv4,
        status: LeaseStatus::Connected,
        pinned: false,
    }
}

fn tunnel_failure(code: &str) -> ApplicationError {
    ApplicationError::Core(CoreError::Tunnel(code.to_string()))
}

fn backend(code: &str) -> TunnelError {
    TunnelError::Backend(code.to_string())
}

#[test]
fn runtime_selection_boolean_maps_only_to_the_verified_slot_enum() {
    assert_eq!(runtime_slot_for_selection(false), RuntimeSlot::Latest);
    assert_eq!(runtime_slot_for_selection(true), RuntimeSlot::Stable);
}

#[test]
fn android_startup_owner_rejection_never_falls_through_after_logout_or_access_expiry() {
    for rejection in [CoreError::StartCancelled, CoreError::AccessExpired] {
        assert!(route_android_startup_recovery(ApplicationError::Core(
            CoreError::AuthRecoveryRequired
        ))
        .is_ok());
        assert!(bootstrap_after_recovery(Err(rejection)).is_err());
    }
    assert!(bootstrap_after_recovery(Ok(())).is_ok());
    assert!(bootstrap_after_recovery(Err(CoreError::AuthRecoveryRequired)).is_ok());
    assert!(route_android_startup_recovery(ApplicationError::Core(CoreError::SignedOut)).is_ok());
    assert!(route_android_startup_recovery(ApplicationError::Core(CoreError::Api(
        CoreApiError::Retryable
    )))
    .is_err());
}

#[test]
fn desktop_logout_enters_owner_before_native_prelude_and_retains_stop_error() {
    let error = logout_result(Err(tunnel_failure("physical_stop_failed")), true, Some(true))
        .unwrap_err();
    assert_eq!(
        error.code(),
        CommandError::from_application(tunnel_failure("physical_stop_failed")).code()
    );
    assert_eq!(
        logout_result(Ok(()), false, Some(true)).unwrap_err().code(),
        "quick_state_persist_failed"
    );
    assert_eq!(
        logout_result(Ok(()), true, Some(false)).unwrap_err().code(),
        "background_storage_unavailable"
    );
    assert!(logout_result(Ok(()), true, None).is_ok());
}

#[test]
fn manual_diagnostics_uses_only_an_unchanged_connection_lease() {
    assert_eq!(
        stable_diagnostics_connection_lease(
            Some("lease-1".to_string()),
            Some("lease-1".to_string()),
        ),
        Some("lease-1".to_string()),
    );
    assert_eq!(
        stable_diagnostics_connection_lease(
            Some("lease-1".to_string()),
            Some("lease-2".to_string()),
        ),
        None,
    );
    assert_eq!(
        stable_diagnostics_connection_lease(Some("lease-1".to_string()), None),
        None,
    );
    assert_eq!(
        stable_diagnostics_connection_lease(None, Some("lease-1".to_string())),
        None,
    );
}

#[test]
fn binding_response_never_serializes_wireguard_configuration() {
    let response = SafePeerBindingResponse::from_response(PeerBindingResponse::<String> {
        api_version: ApiVersion::V1,
        request_id: "request-1".to_string(),
        binding: None,
        configuration: Some("PrivateKey = secret".to_string()),
    });

    let text = format!("{response:?}");

    assert!(text.contains("request-1"));
    assert!(!text.contains("PrivateKey"));
    assert!(!text.contains("configuration"));
}

#[test]
fn connection_intent_state_projection_masks_only_recovering_as_connecting() {
    let recovering = AppStateResponse::new(
        core_state(Phase::ServerUnavailable),
        None,
        None,
        ConnectionIntentStatus::Recovering,
        Some(1_700_000_123),
    );
    assert_eq!(recovering.phase, "connecting");
    assert_eq!(recovering.connection_intent_status, "recovering");
    assert_eq!(recovering.next_retry_at_unix, Some(1_700_000_123));

    let blocked = AppStateResponse::new(
        core_state(Phase::Error),
        None,
        None,
        ConnectionIntentStatus::BlockedTerminal,
        None,
    );
    assert_eq!(blocked.phase, "error");
    assert_eq!(blocked.connection_intent_status, "blocked_terminal");
    assert!(blocked.next_retry_at_unix.is_none());
    assert!(!blocked.local_stop_pending_cleanup);
}

#[test]
fn local_stop_projection_preserves_cleanup_and_recovery_intent() {
    for (phase, intent, confirmed, expected) in [
        (Phase::Stopping, ConnectionIntentStatus::Idle, true, true),
        (Phase::Ready, ConnectionIntentStatus::Idle, true, true),
        (Phase::Stopping, ConnectionIntentStatus::Idle, false, false),
        (Phase::Connected, ConnectionIntentStatus::Idle, true, false),
        (Phase::SignedOut, ConnectionIntentStatus::Idle, true, false),
        (
            Phase::Stopping,
            ConnectionIntentStatus::Recovering,
            true,
            true,
        ),
    ] {
        let metrics = ConnectionMetricsResponse {
            received_bytes: 1,
            sent_bytes: 2,
            latency_ms: None,
            packet_loss_percent: None,
        };
        let response = AppStateResponse::new(core_state(phase), None, Some(metrics), intent, None)
            .with_local_stop_pending_cleanup(confirmed);
        assert_eq!(response.local_stop_pending_cleanup, expected);
        assert_eq!(
            response.connection_intent_status,
            connection_intent_status_name(intent)
        );
        if expected {
            assert!(matches!(
                response.phase,
                "stopping" | "ready" | "connecting"
            ));
        }
        assert_eq!(response.metrics.is_none(), expected);
    }
}

#[test]
fn connection_intent_start_response_distinguishes_recovery_from_success() {
    let response = StartCommandResponse::recovering(Some(42));
    assert_eq!(response.status, "recovering");
    assert!(response.connection.is_none());
    assert_eq!(response.next_retry_at_unix, Some(42));

    let response = StartCommandResponse::connected(connection("lease-1"));
    assert_eq!(response.status, "connected");
    assert!(response.connection.is_some());
    assert_eq!(response.next_retry_at_unix, None);
}

#[test]
fn shutdown_stops_a_blocked_connection_even_after_core_enters_error() {
    assert!(shutdown_requires_stop(&core_state(Phase::Error), true));
    assert!(!shutdown_requires_stop(&core_state(Phase::Error), false));
    assert!(shutdown_requires_stop(
        &core_state(Phase::Connecting),
        false
    ));
}

#[test]
fn split_tunnel_command_models_use_camel_case_without_application_icons() {
    let update = SplitTunnelSettingsUpdate::from_request(SplitTunnelSaveRequest {
        mode: SplitTunnelMode::ExcludeSelected,
        exclude_local_networks: true,
        selected_packages: vec![SplitTunnelSelectedPackageRequest {
            package_id: "com.example.browser".to_string(),
            display_name: "Browser".to_string(),
        }],
    });
    assert_eq!(update.mode, SplitTunnelMode::ExcludeSelected);
    assert!(update.exclude_local_networks);
    assert_eq!(
        update.selected_packages[0].package_id,
        "com.example.browser"
    );

    let response = InstalledApplicationResponse {
        package_id: "com.example.browser".to_string(),
        display_name: "Browser".to_string(),
        system: false,
    };
    let packages = installed_packages(&vec![response]);
    assert_eq!(packages[0].package_id, "com.example.browser");
    assert_eq!(packages[0].display_name, "Browser");
}

#[test]
fn route_errors_do_not_look_like_a_missing_tunnel_service() {
    let error = CommandError::from_core(CoreError::Tunnel("route_conflict".to_string()));

    assert_eq!(error.code, "route_conflict");
    assert!(error.message.contains("маршрут"));
    assert!(!error.message.contains("Переустановите"));

    let endpoint = CommandError::from_core(CoreError::Tunnel("endpoint_route_lost".to_string()));
    assert_eq!(endpoint.code, "endpoint_route_lost");
    assert!(endpoint.message.contains("остановлен для защиты"));

    let handshake =
        CommandError::from_core(CoreError::Tunnel("tunnel_handshake_timeout".to_string()));
    assert_eq!(handshake.code, "tunnel_handshake_timeout");
    assert!(handshake.message.contains("Stray-сервер"));
}

#[test]
fn split_tunnel_stop_failure_keeps_its_actionable_error() {
    let error = CommandError::from_core(CoreError::SplitTunnel(
        "split_tunnel_stop_failed".to_string(),
    ));

    assert_eq!(error.code, "split_tunnel_stop_failed");
    assert!(error.message.contains("остановить подключение"));
}

#[test]
fn tunnel_service_failures_are_repairable_before_stop_retry() {
    for code in [
        "service_unavailable",
        "service_outdated",
        "udp_rebind_failed",
        "udp_rebind_timeout",
        "service_stopping",
        "unsupported_protocol",
        "unauthorized_client",
        "truncated_frame",
        "missing_service_version",
    ] {
        assert!(repairable_stop_error(&tunnel_failure(code)), "{code}");
    }
    assert!(!repairable_stop_error(&tunnel_failure("route_conflict")));
}

#[test]
fn udp_rebind_failures_keep_the_service_recovery_message() {
    for code in ["udp_rebind_failed", "udp_rebind_timeout"] {
        let error = CommandError::from_core(CoreError::Tunnel(code.to_string()));

        assert_eq!(error.code, "tunnel_service_unavailable", "{code}");
        assert!(error.message.contains("Повторите действие"), "{code}");
    }
}

#[test]
fn startup_diagnostics_accept_only_known_frontend_stages() {
    let stage = StartupStage::from_name("frontend_first_frame").unwrap();
    assert_eq!(stage.event_name(), "startup.frontend.first_frame");
    assert!(StartupStage::from_name("arbitrary_event").is_none());
}

#[test]
fn a_stop_repairs_the_service_once() {
    let mut stop = ConnectionStop::begin(false);
    assert!(matches!(
        stop.stopped(Err(tunnel_failure("service_unavailable"))),
        StopOutcome::Continue
    ));
    assert!(matches!(stop.prepared(Ok(())), StopOutcome::Continue));
    assert!(matches!(
        stop.stopped(Err(tunnel_failure("service_unavailable"))),
        StopOutcome::Failed(_)
    ));

    let mut cancelled = ConnectionStop::begin(true);
    assert!(matches!(
        cancelled.stopped(Err(ApplicationError::Core(
            CoreError::SavedConnectionUnavailable
        ))),
        StopOutcome::NothingToStop
    ));
    let mut direct = ConnectionStop::begin(false);
    assert!(matches!(
        direct.stopped(Ok(connection("lease-1"))),
        StopOutcome::Stopped(_)
    ));
    let mut unrepaired = ConnectionStop::begin(false);
    unrepaired.stopped(Err(tunnel_failure("service_timeout")));
    match unrepaired.prepared(Err(backend("vpn_permission_denied"))) {
        StopOutcome::Failed(error) => assert_eq!(error.code(), "vpn_permission_denied"),
        _ => panic!("a failed repair is the answer"),
    }
}

#[test]
fn a_tunnel_that_has_stopped_is_not_stopped_again() {
    let mut stop = TunnelStop::CheckingStatus;
    assert!(matches!(
        stop.status_read(Some(TunnelStatus::Stopped)),
        TunnelStopOutcome::Stopped
    ));
    let mut stop = TunnelStop::CheckingStatus;
    assert!(matches!(stop.status_read(None), TunnelStopOutcome::Continue));
    assert!(matches!(
        stop.stopped(Err(backend("service_timeout"))),
        TunnelStopOutcome::Continue
    ));
    assert!(matches!(stop.prepared(Ok(())), TunnelStopOutcome::Continue));
    assert!(matches!(
        stop.stopped(Err(backend("service_timeout"))),
        TunnelStopOutcome::Failed(_)
    ));
}

#[test]
fn a_quick_toggle_stops_what_is_under_way() {
    assert_eq!(
        quick_toggle(ConnectionIntentStatus::Recovering, Phase::Ready).ok(),
        Some(QuickToggleAction::Stop)
    );
    assert_eq!(
        quick_toggle(ConnectionIntentStatus::Idle, Phase::Connected).ok(),
        Some(QuickToggleAction::Stop)
    );
    assert_eq!(
        quick_toggle(ConnectionIntentStatus::Idle, Phase::Error).ok(),
        Some(QuickToggleAction::Start)
    );
    for (phase, code) in [
        (Phase::Measuring, "connection_busy"),
        (Phase::SignedOut, "signed_out"),
        (Phase::NeedsPeerBinding, "peer_binding_required"),
        (Phase::AccessExpired, "access_expired"),
        (Phase::UpdateRequired, "update_required"),
    ] {
        assert_eq!(
            quick_toggle(ConnectionIntentStatus::Idle, phase)
                .unwrap_err()
                .code(),
            code
        );
    }
}

#[test]
fn an_outside_change_is_taken_in_before_the_state_is_shown() {
    assert_eq!(state_source(false, true, true), StateSource::Core);
    assert_eq!(state_source(true, false, true), StateSource::Core);
    assert_eq!(state_source(true, true, true), StateSource::Bootstrap);
    assert_eq!(
        state_source(true, true, false),
        StateSource::ReconcileTunnel
    );
}

#[test]
fn a_runtime_that_is_not_ready_is_waited_for() {
    assert_eq!(
        runtime_ready_error(RuntimeReadyError::RefreshPending).code(),
        "auth_refresh_pending"
    );
    for error in [
        RuntimeReadyError::RecoveryRequired,
        RuntimeReadyError::Timeout,
        RuntimeReadyError::Service,
    ] {
        assert_eq!(runtime_ready_error(error).code(), "runtime_startup_pending");
    }
    assert_eq!(
        runtime_ready_error(RuntimeReadyError::Other).code(),
        "auth_recovery_required"
    );
}

#[test]
fn a_split_tunnel_needs_the_list_of_applications() {
    assert!(installed_applications_before_start(false, None).is_ok());
    assert!(installed_applications_before_start(true, Some(3)).is_ok());
    for listed in [None, Some(0)] {
        let error = installed_applications_before_start(true, listed).unwrap_err();
        assert_eq!(
            stable_error_code(&error),
            "installed_applications_unavailable"
        );
    }
}

#[test]
fn the_policy_of_the_panel_is_shown_as_it_is() {
    let capabilities = TunnelCapabilities {
        platform: TunnelPlatform::Android,
        android_api_level: Some(34),
        address_split_tunnel: true,
        application_split_tunnel: true,
    };
    let empty = split_tunnel_state(None, None, capabilities);
    assert!(!empty.available);
    assert!(!empty.enabled);
    assert_eq!(empty.capabilities.platform, "android");

    let state = split_tunnel_state(
        Some(SplitTunnelPolicy {
            enabled: true,
            mode: SplitTunnelMode::IncludeSelected,
            exclude_local_networks: true,
            mandatory_excluded_packages: vec!["a".to_string()],
            suggested_name_fragments: vec!["b".to_string()],
            selected_packages: vec!["c".to_string()],
            address_rules: vec![SplitTunnelAddressRule {
                id: 5,
                scope: SplitTunnelAddressRuleScope::AllDevices,
                kind: SplitTunnelAddressRuleKind::Domain,
                value: "example.org".to_string(),
            }],
        }),
        Some("stale".to_string()),
        capabilities,
    );
    assert!(state.available && state.enabled);
    assert_eq!(state.address_rules[0].id, 5);
    assert_eq!(state.address_rules[0].value, "example.org");
    assert_eq!(state.warning, Some("stale".to_string()));

    assert!(save_confirmed(false, false));
    assert!(!save_confirmed(true, false));
    let response = split_tunnel_save_response(save_confirmed(true, false), state);
    assert!(!response.saved);
    assert!(response.requires_reconnect_confirmation);
}

fn defender_status(state: DefenderExclusionState, dll_present: bool) -> DefenderStatus {
    DefenderStatus {
        state,
        dll_present,
        detail_code: None,
        antivirus_products: vec![
            AntivirusProduct {
                name: "Guard".to_string(),
                state: AntivirusProductState::On,
                signatures_up_to_date: Some(true),
                is_default: None,
                is_microsoft_defender: false,
            },
            AntivirusProduct {
                name: "Microsoft Defender".to_string(),
                state: AntivirusProductState::On,
                signatures_up_to_date: Some(false),
                is_default: Some(true),
                is_microsoft_defender: true,
            },
        ],
        antivirus_detail_code: Some("partial".to_string()),
    }
}

#[test]
fn the_state_of_the_antivirus_products_is_noted_and_shown() {
    let status = defender_status(DefenderExclusionState::Excluded, true);
    assert_eq!(
        defender_status_code(&status),
        "excluded_dll_present_ok_antivirus_2_active_third_party_1_partial"
    );
    let response = defender_status_response(status, Some("C:\\awg.dll".to_string()));
    assert!(response.supported);
    assert_eq!(response.state, "excluded");
    assert_eq!(response.antivirus_products[1].state, "on");
    assert_eq!(response.antivirus_products[0].name, "Guard");
    let elsewhere = defender_not_applicable();
    assert!(!elsewhere.supported);
    assert_eq!(elsewhere.state, "not_applicable");
}

#[test]
fn a_tunnel_that_defender_checks_is_not_started() {
    assert!(
        ensure_defender_ready_for_awg(&defender_status(DefenderExclusionState::Inactive, true))
            .is_ok()
    );
    let missing =
        ensure_defender_ready_for_awg(&defender_status(DefenderExclusionState::Missing, true));
    assert_eq!(
        stable_error_code(&missing.unwrap_err()),
        "defender_exclusion_missing"
    );
    let absent =
        ensure_defender_ready_for_awg(&defender_status(DefenderExclusionState::Missing, false));
    assert_eq!(
        stable_error_code(&absent.unwrap_err()),
        "amneziawg_component_missing"
    );
}

#[test]
fn choosing_the_running_runtime_again_calls_the_switch_off() {
    let status = RuntimeSwitchStatus {
        active_slot: RuntimeSlot::Latest,
        selected_slot: RuntimeSlot::Stable,
        pending_slot: Some(RuntimeSlot::Stable),
        restart_required: true,
    };
    assert_eq!(
        runtime_select(status, false),
        RuntimeSelection::CancelPending
    );
    assert_eq!(
        runtime_select(status, true),
        RuntimeSelection::Request(RuntimeSlot::Stable)
    );
    let settled = RuntimeSwitchStatus {
        active_slot: RuntimeSlot::Stable,
        selected_slot: RuntimeSlot::Stable,
        pending_slot: None,
        restart_required: false,
    };
    assert_eq!(runtime_select(settled, true), RuntimeSelection::Nothing);
    assert_eq!(
        runtime_switch_error().code(),
        "runtime_switch_recovery_required"
    );
}

#[test]
fn a_failed_update_is_shown_by_what_its_error_says() {
    let shown = |error: &str| update_command_error(error).message;
    assert!(shown("the backend is unavailable").contains("вручную"));
    assert!(shown("install_permission_denied: 1").contains("Разрешите"));
    assert!(shown("a preference was lost").contains("настройки"));
    assert_eq!(shown("anything"), "Не удалось установить обновление");
}

#[test]
fn an_intent_for_the_service_repeats_the_options() {
    let template = ConnectionIntentTemplate::new(
        &"device-1".to_string(),
        ConnectOptions {
            layer: Layer::Tic,
            tic_connection_mode: TicConnectionMode::Personal,
            route_mode: RouteMode::ViaTak,
            egress_mode: EgressMode::PreferIpv6,
            allow_alternate: false,
        },
        true,
    );
    assert_eq!(template.account_scope, "device-1");
    assert_eq!(template.layer, "tic");
    assert_eq!(template.tic_connection_mode, "personal");
    assert_eq!(template.route_mode, "via_tak");
    assert_eq!(template.egress_mode, "prefer_ipv6");
    assert!(!template.allow_alternate);
    assert!(template.sync_binding_preferences);
}

#[test]
fn only_an_installed_update_restarts_the_application() {
    assert!(update_restart_allowed("ready_to_restart").is_ok());
    for phase in ["", "downloading", "ready_to_restart "] {
        let error = update_restart_allowed(phase).unwrap_err();
        assert_eq!(error.code(), "update_not_ready");
        assert_eq!(error.message, "Обновление ещё не готово к перезапуску");
    }
}

#[test]
fn what_a_system_lacks_is_named() {
    let error = defender_repair_unsupported();
    assert_eq!(error.code(), "defender_exclusion_unsupported");
    assert_eq!(error.message, "Microsoft Defender доступен только в Windows");
    let error = installed_applications_error();
    assert_eq!(error.code(), "installed_applications_unavailable");
    assert_eq!(error.message, "Не удалось получить список приложений");
}
