use nelomai_app::container::{
    check_native_identity, engine_exchange, installation_action, installation_action_for, launch_after_handoff,
    native_command, native_exit, native_preparation, native_reply, open_storage,
    pinned_manifest_key, pre_auth_handoff, storage_not_opened, verify_layout_versions, CommonState, ContainerError,
    EngineRequest, HandoffPlan, InstallationAction, NativeCommand, NativeExitReason,
    NativeIdentity, NativeOperationState, QueuedAction, RuntimeAction, TraySnapshot, UpdateStopProof,
    MAX_QUEUED_ACTIONS,
};
use nelomai_app::versions::{is_version_text, version_is_after};

fn stop_proof(target: &str, receipt: &str) -> UpdateStopProof {
    UpdateStopProof {
        target: target.to_string(),
        receipt: receipt.to_string(),
    }
}

#[test]
fn queued_native_start_is_checked_after_the_inflight_operation_releases() {
    let mut operation = NativeOperationState::new();
    assert!(operation.check_start(false).is_ok());
    assert!(
        operation.begin_start(true).is_err(),
        "a queued start must not use a decision that came before the barrier"
    );
    assert!(operation.check_start(true).is_err());
    operation.observed_helper_stop = true;
    assert!(operation.begin_start(true).is_err());
    assert!(operation.observed_helper_stop, "a denied start changes nothing");
    operation.begin_start(false).unwrap();
    assert!(
        !operation.observed_helper_stop,
        "an admitted start voids an earlier stop"
    );
}

#[test]
fn versions_are_those_of_the_grammar() {
    for text in ["1.2.3", "0.0.0", "1.2.3-rc.1", "1.2.3+build.05", "1.2.3-0a+7"] {
        assert!(is_version_text(text), "{text}");
    }
    for text in ["", "1.2", "01.2.3", "1.2.3-", "1.2.3-01", "v1.2.3", "1.2.3 "] {
        assert!(!is_version_text(text), "{text}");
    }
}

#[test]
fn versions_are_ordered_by_their_numbers() {
    assert_eq!(version_is_after("1.10.0", "1.9.9"), Some(true));
    assert_eq!(version_is_after("1.9.9", "1.10.0"), Some(false));
    assert_eq!(version_is_after("2.0.0", "2.0.0"), Some(false));
    assert_eq!(version_is_after("2.0.0", "2.0.0-rc.1"), Some(true));
    assert_eq!(version_is_after("2.0", "1.0.0"), None);
}

#[test]
fn an_older_program_launches_the_installed_one() {
    assert_eq!(
        installation_action("1.0.0", None, false, false),
        Ok(InstallationAction::InstallCandidate)
    );
    assert_eq!(
        installation_action("1.1.0", Some("1.0.0"), true, true),
        Ok(InstallationAction::InstallCandidate)
    );
    assert_eq!(
        installation_action("1.0.0", Some("1.1.0"), true, false),
        Ok(InstallationAction::LaunchInstalled)
    );
    assert_eq!(
        installation_action("1.0.0", Some("1.1.0"), false, false),
        Ok(InstallationAction::RepairInstalled)
    );
    assert_eq!(
        installation_action("1.1.0", Some("1.1.0"), true, true),
        Ok(InstallationAction::Continue)
    );
    assert_eq!(
        installation_action("one", Some("1.1.0"), true, true),
        Err(ContainerError::InvalidCandidateVersion)
    );
    assert_eq!(
        installation_action("1.1.0", Some("one"), true, true),
        Err(ContainerError::InvalidInstalledVersion)
    );
    assert_eq!(
        installation_action_for(None, true, true),
        InstallationAction::InstallCandidate
    );
}

#[test]
fn a_layout_is_never_rolled_back() {
    assert_eq!(verify_layout_versions("1.1.0", "1.1.0", None), Ok(()));
    assert_eq!(
        verify_layout_versions("1.1.0", "1.1.0", Some("1.0.0")),
        Ok(())
    );
    assert_eq!(
        verify_layout_versions("1.1.0", "1.2.0", None),
        Err(ContainerError::ExecutableVersionMismatch)
    );
    assert_eq!(
        verify_layout_versions("1.1.0", "1.1.0", Some("1.2.0")),
        Err(ContainerError::RollbackRejected)
    );
    assert_eq!(
        verify_layout_versions("1.1.0", "1.1.0", Some("x")),
        Err(ContainerError::InvalidPreviousVersion)
    );
    assert_eq!(
        ContainerError::RollbackRejected.message(),
        "container rollback rejected"
    );
}

#[test]
fn the_installed_program_is_launched_only_if_it_is_protected() {
    assert_eq!(
        pre_auth_handoff(true, Ok(InstallationAction::Continue)),
        Err(ContainerError::RunsAsRoot)
    );
    let plan = pre_auth_handoff(false, Ok(InstallationAction::RepairInstalled)).unwrap();
    assert_eq!(
        plan,
        HandoffPlan::Install {
            from_installed: true
        }
    );
    assert_eq!(
        launch_after_handoff(plan, None, true),
        Err(ContainerError::InstallationFailed)
    );
    assert_eq!(
        launch_after_handoff(plan, Some(false), true),
        Err(ContainerError::InstallationCancelled)
    );
    assert_eq!(
        launch_after_handoff(plan, Some(true), false),
        Err(ContainerError::BrokerRequired)
    );
    assert_eq!(launch_after_handoff(HandoffPlan::Launch, None, true), Ok(()));
}

#[test]
fn the_pinned_key_is_base64() {
    assert_eq!(
        pinned_manifest_key(Some("AQL/")),
        Ok(vec![1u8, 2, 255])
    );
    assert_eq!(pinned_manifest_key(Some("AQ==")), Ok(vec![1u8]));
    for text in ["AQ", "AR==", "A Q=", "AQL_"] {
        assert_eq!(
            pinned_manifest_key(Some(text)),
            Err(ContainerError::ManifestKeyUnavailable)
        );
    }
    assert_eq!(
        pinned_manifest_key(None),
        Err(ContainerError::ManifestKeyUnavailable)
    );
}

#[test]
fn an_update_is_restarted_only_under_its_own_proof() {
    let mut operation = NativeOperationState::new();
    let current = Some(stop_proof("1.1.0", "receipt-1"));
    assert!(operation
        .begin_installation(Some(stop_proof("1.1.0", "receipt-1")))
        .is_err());
    operation.begin_stop();
    operation.stop_observed();
    assert_eq!(
        operation.restart_proof(&current),
        Err(ContainerError::InstalledReceiptUnavailable)
    );
    operation
        .begin_installation(Some(stop_proof("1.1.0", "receipt-1")))
        .unwrap();
    assert_eq!(
        operation.check_start(false),
        Err(ContainerError::StartFenced)
    );
    assert!(operation
        .handoff_windows_installer(&stop_proof("1.1.0", "receipt-1"), &current)
        .is_ok());
    assert!(operation
        .installation_succeeded(stop_proof("1.1.0", "receipt-2"), &current)
        .is_err());
    operation
        .installation_succeeded(stop_proof("1.1.0", "receipt-1"), &current)
        .unwrap();
    assert_eq!(operation.restart_proof(&current), Ok(()));
    assert_eq!(
        operation.restart_proof(&Some(stop_proof("1.1.0", "receipt-2"))),
        Err(ContainerError::InstalledReceiptChanged)
    );
}

#[test]
fn actions_of_the_tray_wait_for_the_runtime() {
    let mut state = CommonState::new();
    assert_eq!(
        state.queue_action(false, RuntimeAction::Quit),
        QueuedAction::Finish
    );
    for _ in 0..MAX_QUEUED_ACTIONS + 3 {
        assert_eq!(
            state.queue_action(true, RuntimeAction::Toggle),
            QueuedAction::Queued
        );
    }
    let actions = state
        .poll(TraySnapshot {
            disconnect: true,
            traffic: "1,5 КБ".to_string(),
        })
        .unwrap();
    assert_eq!(actions.len(), MAX_QUEUED_ACTIONS);
    assert!(state.presentation.disconnect);
    assert!(state
        .poll(TraySnapshot {
            disconnect: false,
            traffic: "x".repeat(1025),
        })
        .is_err());
    assert!(state.begin_finish());
    assert!(!state.begin_finish());
    state.finish_failed();
    assert!(state.begin_finish());
    assert_eq!(
        state.presentation.traffic,
        "Остановка VPN требует повторной попытки"
    );
    state.restart_failed();
    assert!(state.begin_finish());
}

#[test]
fn a_runtime_is_served_by_the_kind_of_its_request() {
    assert_eq!(native_command(1), NativeCommand::Engine);
    assert_eq!(native_command(2), NativeCommand::Control);
    assert_eq!(native_command(3), NativeCommand::Rejected);
    assert_eq!(native_reply(1, Some(vec![7])), (1, vec![7]));
    assert_eq!(
        native_reply(1, None),
        (255, b"common operation failed".to_vec())
    );
    assert_eq!(native_preparation(true, None), Ok(false));
    assert_eq!(native_preparation(false, Some(false)), Ok(true));
    assert_eq!(
        native_preparation(false, Some(true)),
        Err(ContainerError::PreparationFenced)
    );
    assert_eq!(
        native_preparation(false, None),
        Err(ContainerError::UpdateStateUnavailable)
    );
    let mut opened = false;
    assert_eq!(open_storage(&mut opened), Ok(()));
    assert_eq!(
        open_storage(&mut opened),
        Err(ContainerError::StorageAlreadyOpened)
    );
}

#[test]
fn storage_that_could_not_be_opened_may_be_opened_later() {
    let mut opened = false;
    assert_eq!(open_storage(&mut opened), Ok(()));
    storage_not_opened(&mut opened);
    assert_eq!(open_storage(&mut opened), Ok(()));
    assert_eq!(
        open_storage(&mut opened),
        Err(ContainerError::StorageAlreadyOpened)
    );
}

#[test]
fn a_runtime_ends_for_a_reason_that_holds() {
    assert_eq!(
        native_exit(NativeExitReason::Shutdown, None, Ok(()), None),
        Ok(false)
    );
    assert_eq!(
        native_exit(
            NativeExitReason::Update,
            Some("ready_to_restart"),
            Ok(()),
            None
        ),
        Ok(true)
    );
    assert_eq!(
        native_exit(NativeExitReason::Update, Some("downloading"), Ok(()), None),
        Err(ContainerError::UpdateNotReady)
    );
    assert_eq!(
        native_exit(NativeExitReason::Update, None, Ok(()), None),
        Err(ContainerError::UpdaterUnavailable)
    );
    assert_eq!(
        native_exit(
            NativeExitReason::Update,
            Some("ready_to_restart"),
            Err(ContainerError::StopReceiptUnavailable),
            None
        ),
        Err(ContainerError::StopReceiptUnavailable)
    );
    assert_eq!(
        native_exit(NativeExitReason::RuntimeSwitch, None, Ok(()), Some(true)),
        Ok(true)
    );
    assert_eq!(
        native_exit(NativeExitReason::RuntimeSwitch, None, Ok(()), Some(false)),
        Err(ContainerError::RuntimeSwitchNotReady)
    );
    assert_eq!(
        native_exit(NativeExitReason::RuntimeSwitch, None, Ok(()), None),
        Err(ContainerError::RuntimeSwitchUnavailable)
    );
}

#[test]
fn the_engine_starts_nothing_during_an_update() {
    let mut operation = NativeOperationState::new();
    operation.stop_observed();
    assert_eq!(
        engine_exchange(&mut operation, EngineRequest::Other, None, false),
        Ok(())
    );
    assert_eq!(
        engine_exchange(&mut operation, EngineRequest::Start, None, true),
        Err(ContainerError::UpdateStateUnavailable)
    );
    assert_eq!(
        engine_exchange(&mut operation, EngineRequest::Start, Some(true), true),
        Err(ContainerError::StartFenced)
    );
    assert!(operation.observed_helper_stop);
    assert_eq!(
        engine_exchange(&mut operation, EngineRequest::RebindUdp, Some(false), true),
        Ok(())
    );
    assert!(!operation.observed_helper_stop);
}

#[test]
fn the_tunnel_is_bound_to_the_engine_of_its_runtime() {
    let identity = |runtime: &str, contract: &str, container: &str| NativeIdentity {
        runtime_version: runtime.to_string(),
        runtime_contract_version: contract.to_string(),
        container_version: container.to_string(),
    };
    let target = identity("1.2.3", "1", "1.2.0");
    assert_eq!(
        check_native_identity(&identity("1.2.3", "1", "1.2.0"), &target),
        Ok(())
    );
    for other in [
        identity("1.2.4", "1", "1.2.0"),
        identity("1.2.3", "2", "1.2.0"),
        identity("1.2.3", "1", "1.2.1"),
    ] {
        assert_eq!(
            check_native_identity(&other, &target),
            Err(ContainerError::NativeIdentityMismatch)
        );
    }
}
