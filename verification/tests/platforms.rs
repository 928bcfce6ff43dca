use nelomai_app::android_runtime::{
    admits_bootstrap, kept_logcat, retained_runtimes, selected_runtime, RuntimePath,
    MAX_BOOTSTRAP_BYTES, MAX_LOGCAT_BYTES,
};
use nelomai_app::app_responses::StartupStage;
use nelomai_app::runtime_commands::RuntimeSlot;
use nelomai_app::defender::{
    AntivirusProduct, AntivirusProductState, DefenderExclusionState, DefenderStatus,
};
use nelomai_app::errors::TunnelError;
use nelomai_app::platform::{
    android_permission, android_preparation, check_app_version, check_helper_installation,
    check_updater_key, common_defender_status, common_preparation, defender_repair_error,
    downloaded_with, format_diagnostic_helper_log, helper_installed, helper_is_current,
    installer_action, plugin_error_code, repair_error, stage_failure_code, update_found,
    update_step, verify_service_version, AndroidPreparation, AndroidTunnelProbe,
    DefenderStatusCache, HelperPreparation, InstallerAction, InstallerPoll, PreparationAction,
    PreparationEvent, RepairError, UpdateStage, UpdateStep, UNIX_POLLS,
};

fn backend_code(error: &TunnelError) -> &str {
    match error {
        TunnelError::Backend(code) => code,
        TunnelError::InvalidOptions { code } => code,
    }
}

fn failure(result: Result<(), TunnelError>) -> String {
    backend_code(&result.unwrap_err()).to_string()
}

#[test]
fn installer_wait_has_a_deadline() {
    assert!(matches!(
        installer_action(InstallerPoll::Running, 9, 10),
        InstallerAction::Wait
    ));
    match installer_action(InstallerPoll::Running, 10, 10) {
        InstallerAction::Terminate(error) => {
            assert_eq!(backend_code(&error), "helper_installer_timeout")
        }
        _ => panic!("the installer runs for ever"),
    }
    match installer_action(InstallerPoll::Unknown, 0, 10) {
        InstallerAction::Terminate(error) => {
            assert_eq!(backend_code(&error), "helper_authorization_unavailable")
        }
        _ => panic!("a lost installer was kept"),
    }
    assert!(matches!(
        installer_action(InstallerPoll::Exited { success: true }, 20, 10),
        InstallerAction::Exited { success: true }
    ));
    assert!(helper_installed(Ok(true)).is_ok());
    assert_eq!(failure(helper_installed(Ok(false))), "helper_install_cancelled");
}

#[test]
fn a_helper_serves_the_program_if_it_is_not_older() {
    assert!(helper_is_current(&Some("1.2.3".to_string()), "1.2.3"));
    assert!(helper_is_current(&Some("1.2.4".to_string()), "1.2.3"));
    assert!(!helper_is_current(&Some("1.2.2".to_string()), "1.2.3"));
    assert!(!helper_is_current(&Some("old".to_string()), "1.2.3"));
    assert!(!helper_is_current(&None, "1.2.3"));
    assert!(verify_service_version(Ok("1.2.3".to_string()), "1.2.3").is_ok());
    assert_eq!(
        failure(verify_service_version(Ok("1.2.2".to_string()), "1.2.3")),
        "service_outdated"
    );
    assert_eq!(
        failure(verify_service_version(Ok("1.2.2".to_string()), "x")),
        "invalid_app_version"
    );
    assert!(check_app_version("1.2.3").is_ok());
    assert_eq!(failure(check_app_version("1.2")), "invalid_app_version");
}

#[test]
fn a_helper_is_installed_once_and_then_awaited() {
    let mut preparation = HelperPreparation::new(UNIX_POLLS);
    assert!(matches!(
        preparation.step(PreparationEvent::Checked(false)),
        PreparationAction::Install
    ));
    assert!(matches!(
        preparation.step(PreparationEvent::Installed(Ok(()))),
        PreparationAction::Check
    ));
    let mut checks = 1;
    let result = loop {
        assert!(matches!(
            preparation.step(PreparationEvent::Checked(false)),
            PreparationAction::Pause
        ));
        match preparation.step(PreparationEvent::Paused) {
            PreparationAction::Check => checks += 1,
            PreparationAction::Finish { result, .. } => break result,
            _ => panic!("installed twice"),
        }
    };
    assert_eq!(checks, UNIX_POLLS);
    assert_eq!(failure(result), "service_unavailable");

    let mut preparation = HelperPreparation::new(UNIX_POLLS);
    match preparation.step(PreparationEvent::Checked(true)) {
        PreparationAction::Finish {
            result,
            reinstalled,
        } => assert!(result.is_ok() && !reinstalled),
        _ => panic!("a helper that serves was not used"),
    }
}

#[test]
fn an_installation_needs_its_files_and_an_owner() {
    assert!(check_helper_installation(true, 501, true).is_ok());
    assert_eq!(
        failure(check_helper_installation(false, 501, true)),
        "helper_resources_unavailable"
    );
    assert_eq!(
        failure(check_helper_installation(true, 0, true)),
        "helper_owner_is_root"
    );
    assert_eq!(
        failure(check_helper_installation(true, 501, false)),
        "helper_resources_unavailable"
    );
    assert_eq!(
        backend_code(&repair_error(RepairError::Cancelled)),
        "helper_install_cancelled"
    );
    assert_eq!(
        backend_code(&defender_repair_error(RepairError::Cancelled)),
        "defender_exclusion_repair_cancelled"
    );
}

#[test]
fn android_asks_for_its_permission() {
    let probe = |available: bool, granted: bool| {
        android_preparation(Ok(AndroidTunnelProbe {
            backend_available: available,
            permission_granted: granted,
            error: None,
        }))
    };
    assert!(matches!(probe(true, true), AndroidPreparation::Ready));
    assert!(matches!(
        probe(true, false),
        AndroidPreparation::AskPermission
    ));
    assert!(matches!(probe(false, true), AndroidPreparation::Failed(_)));
    assert!(android_permission(Ok(true)).is_ok());
    assert_eq!(failure(android_permission(Ok(false))), "vpn_permission_denied");
    assert_eq!(failure(common_preparation(None)), "common runtime unavailable");
    assert!(common_preparation(Some(true)).is_ok());
}

fn status() -> DefenderStatus {
    DefenderStatus {
        state: DefenderExclusionState::Excluded,
        dll_present: true,
        detail_code: None,
        antivirus_products: vec![
            AntivirusProduct {
                name: "Defender".to_string(),
                state: AntivirusProductState::On,
                signatures_up_to_date: Some(true),
                is_default: None,
                is_microsoft_defender: true,
            },
            AntivirusProduct {
                name: "Other".to_string(),
                state: AntivirusProductState::Off,
                signatures_up_to_date: None,
                is_default: Some(false),
                is_microsoft_defender: false,
            },
        ],
        antivirus_detail_code: None,
    }
}

#[test]
fn a_report_describes_the_antivirus_products() {
    assert_eq!(format_diagnostic_helper_log(None, None), None);
    assert_eq!(
        format_diagnostic_helper_log(Some("log".to_string()), Some(status())).unwrap(),
        "[windows.defender]\nstate=excluded dll_present=true detail=none\n[windows.antivirus]\nstatus=ok\nname=Defender state=on signatures=true default=unknown defender=true\nname=Other state=off signatures=unknown default=false defender=false\nlog"
    );
    assert_eq!(
        format_diagnostic_helper_log(Some("log".to_string()), None).unwrap(),
        "[windows.defender]\nstate=unavailable dll_present=unknown detail=status_request_failed\n[windows.antivirus]\nstatus=status_request_failed\nlog"
    );
}

#[test]
fn the_status_of_defender_is_asked_for_once() {
    let mut cache = DefenderStatusCache::new();
    assert!(cache.has_to_ask(false));
    cache.answered(Some(status()), true);
    assert!(!cache.has_to_ask(false));
    assert!(cache.has_to_ask(true));
    cache.answered(None, false);
    assert_eq!(
        cache.status.as_ref().unwrap().detail_code.as_deref(),
        Some("service_status_unavailable")
    );
    cache.forget();
    assert!(cache.has_to_ask(false));
    assert!(common_defender_status(Some(Some(status())), false).is_ok());
    assert!(common_defender_status(Some(None), true).is_err());
    assert!(common_defender_status(None, true).is_err());
}

#[test]
fn an_update_passes_every_stage() {
    let mut stage = UpdateStage::Target;
    let mut passed = 1;
    while let UpdateStep::Continue(next) = update_step(stage, true) {
        stage = next;
        passed += 1;
    }
    assert_eq!(passed, 12);
    assert_eq!(stage, UpdateStage::Confirmation);
    assert!(matches!(update_step(stage, true), UpdateStep::Installed));
    match update_step(UpdateStage::Artifact, false) {
        UpdateStep::Failed(code) => assert_eq!(code, stage_failure_code(UpdateStage::Artifact)),
        _ => panic!("an untrusted artifact was used"),
    }
    assert!(matches!(
        update_step(UpdateStage::Manifest, true),
        UpdateStep::Continue(UpdateStage::Version)
    ));
    assert!(matches!(
        update_step(UpdateStage::Version, false),
        UpdateStep::Failed("update_version_changed")
    ));
    assert!(matches!(update_found(None, "1.2.3"), UpdateStep::NoUpdate));
    assert!(matches!(
        update_found(Some("1.2.3"), "1.2.3"),
        UpdateStep::Continue(UpdateStage::Artifact)
    ));
    assert!(matches!(
        update_found(Some("1.2.4"), "1.2.3"),
        UpdateStep::Failed("update_version_changed")
    ));
    assert_eq!(downloaded_with(5, 7), 12);
    assert_eq!(downloaded_with(u64::MAX, 7), u64::MAX);
    assert!(check_updater_key(Some("key")).is_ok());
    assert_eq!(
        check_updater_key(Some("  ")),
        Err("updater_public_key_missing")
    );
    assert_eq!(
        plugin_error_code("plugin: invalid_apk_path /x"),
        "invalid_apk_path"
    );
    assert_eq!(plugin_error_code("plugin: other"), "update_install_failed");
}

fn path(slot: RuntimeSlot, version: &str) -> RuntimePath {
    RuntimePath {
        slot,
        runtime_version: version.to_string(),
        namespace: format!("namespace-{version}"),
        preferences: format!("preferences-{version}"),
    }
}

#[test]
fn the_runtime_that_was_not_selected_is_retained() {
    let paths = vec![
        path(RuntimeSlot::Stable, "1.2.3"),
        path(RuntimeSlot::Latest, "1.3.0"),
    ];
    let place = selected_runtime(&paths, RuntimeSlot::Latest, "1.3.0").unwrap();
    assert_eq!(place, 1);
    assert!(selected_runtime(&paths, RuntimeSlot::Latest, "1.2.3").is_none());
    let retained = retained_runtimes(&paths, place);
    assert_eq!(retained.len(), 1);
}

#[test]
fn what_android_hands_over_is_bounded() {
    assert_eq!(kept_logcat(Some(String::new())), None);
    assert_eq!(kept_logcat(Some("x".to_string())).as_deref(), Some("x"));
    assert_eq!(kept_logcat(Some("x".repeat(MAX_LOGCAT_BYTES + 1))), None);
    assert!(admits_bootstrap(0, Some("{}")));
    assert!(!admits_bootstrap(-1, Some("{}")));
    assert!(!admits_bootstrap(0, None));
    assert!(!admits_bootstrap(
        0,
        Some("x".repeat(MAX_BOOTSTRAP_BYTES + 1).as_str())
    ));
    assert_eq!(
        StartupStage::from_name("bootstrap_slow").map(|stage| stage.event_name()),
        Some("startup.bootstrap.slow")
    );
    assert!(StartupStage::from_name("other").is_none());
}
