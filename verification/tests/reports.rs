use nelomai_app::automatic_diagnostics::{report_name, AutomaticError, DesktopAutomaticDiagnostics};
use nelomai_app::command_records::{
    cancel_dispatch_unavailable, report_unavailable, service_dispatch_unavailable,
    slow_recovery_notification, InventoryOutcome, StartupOutcome,
};
use nelomai_app::commands::CommandError;
use nelomai_app::defender::{DefenderExclusionState, DefenderStatus};
use nelomai_app::diagnostics::{
    counter_delta, failure_kind_name, AppDiagnostics, CoreLogEvent, DiagnosticUploadRequest,
    LogEntry, LogRecord, ReportSources, TunnelMetricsLogRecord,
};
use nelomai_app::errors::{ApplicationError, TunnelError};
use nelomai_app::report_delivery::{SentReport, UploadOutcome};
use nelomai_app::report_logs::{
    application_log, bounded_helper_log, combine_android_logs,
    combine_application_and_startup_logs, rotation_due, tail_range, tail_string,
    MAX_APPLICATION_REPORT_BYTES, MAX_HELPER_REPORT_BYTES, ROTATE_AT_BYTES,
};
use nelomai_app::resource_usage::ResourceSnapshot;
use nelomai_app::tunnel::TunnelMetrics;

fn diagnostics() -> AppDiagnostics {
    AppDiagnostics::new(
        ResourceSnapshot::capture_for_test(),
        DesktopAutomaticDiagnostics::new(DesktopAutomaticDiagnostics::empty_state(), None),
        5,
    )
}

fn records(diagnostics: &mut AppDiagnostics) -> Vec<LogRecord> {
    let mut records = Vec::new();
    for entry in diagnostics.take_entries() {
        match entry {
            LogEntry::Event(record) => records.push(record),
            LogEntry::TunnelMetrics(_) => {}
        }
    }
    records
}

fn readings(diagnostics: &mut AppDiagnostics) -> Vec<TunnelMetricsLogRecord> {
    let mut readings = Vec::new();
    for entry in diagnostics.take_entries() {
        match entry {
            LogEntry::Event(_) => {}
            LogEntry::TunnelMetrics(record) => readings.push(record),
        }
    }
    readings
}

/// The two files that the log is written to.
struct LogFiles {
    previous: String,
    current: String,
}

impl LogFiles {
    fn new() -> Self {
        LogFiles {
            previous: String::new(),
            current: String::new(),
        }
    }

    fn write(&mut self, records: Vec<LogRecord>) {
        for record in records {
            let line = format!(
                "{{\"timestamp_unix\":{},\"kind\":{:?},\"operation_id\":{:?},\"duration_ms\":{}}}\n",
                record.timestamp_unix,
                record.kind,
                record.operation_id.unwrap_or_default(),
                record.duration_ms.unwrap_or_default(),
            );
            if rotation_due(Some(self.current.len() as u64), line.len() as u64) {
                self.previous = std::mem::take(&mut self.current);
            }
            self.current.push_str(&line);
        }
    }

    fn sources(&self) -> ReportSources {
        ReportSources {
            previous_log: self.previous.clone(),
            current_log: self.current.clone(),
            startup_log: String::new(),
            helper_log: None,
            network_incidents: None,
            app_version: "1.2.3".to_string(),
            platform_version: Some("15".to_string()),
            architecture: "aarch64".to_string(),
        }
    }
}

fn build_report(diagnostics: &AppDiagnostics, files: &LogFiles) -> DiagnosticUploadRequest {
    diagnostics.build_report_with_helper(
        ResourceSnapshot::capture_for_test(),
        files.sources(),
        None,
        9,
    )
}

#[test]
fn rotates_and_builds_bounded_report() {
    let mut files = LogFiles::new();
    let mut diagnostics = diagnostics();
    for index in 0..10_000 {
        diagnostics.record_named(
            "test.event",
            Some(&index.to_string()),
            None,
            Some("safe_code"),
            6,
        );
    }
    files.write(records(&mut diagnostics));
    assert!(!files.previous.is_empty());
    assert!(files.current.len() as u64 <= ROTATE_AT_BYTES);
    let report = build_report(&diagnostics, &files);
    assert!(report.application_log.len() <= MAX_APPLICATION_REPORT_BYTES);
    assert!(report.application_log.contains("test.event"));
    assert!(report.application_log.contains("9999"));
    assert_eq!(report.trigger, "manual");
    assert_eq!(report.app_version, "1.2.3");
    assert_eq!(report.platform_version.as_deref(), Some("15"));
    assert_eq!(report.architecture, "aarch64");
    assert_eq!(report.generated_at_unix, 9);
    assert!(report.report_id.is_none() && report.resource_usage.is_some());
}

#[test]
fn reads_only_the_requested_tail() {
    let file = vec![b'x'; 2 * 1024 * 1024];

    let (start, size) = tail_range(file.len() as u64, 1024);
    let tail = &file[start as usize..start as usize + size as usize];

    assert_eq!(tail.len(), 1024);
    assert_eq!(tail_range(10, 1024), (0, 10));
}

#[test]
fn includes_stage_duration_when_available() {
    let mut files = LogFiles::new();
    let mut diagnostics = diagnostics();
    diagnostics.record_timed(
        &CoreLogEvent {
            kind: "connection.local_start_succeeded",
            operation_id: Some("operation-1".to_string()),
            request_id: Some("request-1".to_string()),
            code: None,
        },
        12_345,
        6,
    );
    files.write(records(&mut diagnostics));

    let report = build_report(&diagnostics, &files);
    let record = report
        .application_log
        .lines()
        .filter_map(|line| serde_json::from_str::<serde_json::Value>(line).ok())
        .find(|record| record["kind"] == "connection.local_start_succeeded")
        .unwrap();

    assert_eq!(record["duration_ms"], 12_345);
}

#[test]
fn keeps_persistent_android_log_when_logcat_is_large() {
    let previous = format!("{}previous-tail\n", "previous-line\n".repeat(2_000));
    let current = format!("{}current-tail\n", "current-line\n".repeat(2_000));
    let report = combine_android_logs(&previous, &current, &"logcat-line\n".repeat(20_000));

    assert!(report.len() <= MAX_HELPER_REPORT_BYTES);
    assert!(report.contains("[persistent.previous]"));
    assert!(report.contains("previous-tail"));
    assert!(report.contains("[persistent.current]"));
    assert!(report.contains("current-tail"));
    assert!(report.contains("[logcat]"));
}

#[test]
fn appends_native_android_startup_stages_to_application_log() {
    let application = "{\"kind\":\"application.started\"}\n".to_string();
    let native = "{\"kind\":\"startup.android.activity_created\"}\n".to_string();

    let combined = combine_application_and_startup_logs(application, native);

    assert!(combined.contains("application.started"));
    assert!(combined.contains("startup.android.activity_created"));
}

#[test]
fn records_data_plane_counters_handshake_and_probe_result() {
    let mut diagnostics = diagnostics();
    let previous = TunnelMetrics {
        received_bytes: 100,
        sent_bytes: 50,
        latest_handshake_epoch_millis: None,
        probe_target: None,
    };
    let sample = TunnelMetrics {
        received_bytes: 145,
        sent_bytes: 65,
        latest_handshake_epoch_millis: Some(1),
        probe_target: None,
    };

    diagnostics.record_tunnel_metrics("session-1", &sample, &Some(previous), Some(Some(42)), 10);

    let record = readings(&mut diagnostics).remove(0);
    assert_eq!(record.kind, "tunnel.data_plane_snapshot");
    assert_eq!(record.received_delta_bytes, 45);
    assert_eq!(record.sent_delta_bytes, 15);
    assert_eq!(record.latest_handshake_epoch_millis, Some(1));
    assert_eq!(record.handshake_age_seconds, Some(9));
    assert_eq!(record.probe_succeeded, Some(true));
    assert_eq!(record.latency_ms, Some(42));
}

#[test]
fn a_reading_without_an_earlier_one_counts_from_nothing() {
    let mut diagnostics = diagnostics();
    let sample = TunnelMetrics {
        received_bytes: 145,
        sent_bytes: 65,
        latest_handshake_epoch_millis: Some(0),
        probe_target: None,
    };
    diagnostics.record_tunnel_metrics("session-1", &sample, &None, Some(None), 10);
    diagnostics.record_tunnel_metrics("session-1", &sample, &None, None, 10);
    let readings = readings(&mut diagnostics);
    assert_eq!(readings[0].received_delta_bytes, 145);
    assert_eq!(readings[0].probe_succeeded, Some(false));
    assert_eq!(readings[0].latency_ms, None);
    assert_eq!(readings[1].probe_succeeded, None);
}

#[test]
fn counter_delta_handles_backend_counter_reset() {
    assert_eq!(counter_delta(None, 12), 12);
    assert_eq!(counter_delta(Some(10), 14), 4);
    assert_eq!(counter_delta(Some(10), 3), 3);
}

#[test]
fn automatic_report_omits_resource_delta_without_matching_interval_baseline() {
    let mut diagnostics = diagnostics();
    assert!(diagnostics.set_automatic_device("device-1", 10));
    diagnostics.observe_automatic_tunnel(Some("connection-1"), true, 10);
    diagnostics.observe_automatic_tunnel(None, false, 20);
    let seal = diagnostics.pending_automatic_seal().unwrap();

    let report = diagnostics.automatic_report(
        &seal,
        ResourceSnapshot::capture_for_test(),
        LogFiles::new().sources(),
    );
    diagnostics
        .materialize_automatic_report(&seal, ResourceSnapshot::capture_for_test())
        .unwrap();
    assert!(diagnostics.pending_automatic_seal().is_none());

    assert!(report.resource_usage.is_none());
    assert_eq!(report.report_id.as_deref(), Some(seal.report_id.as_str()));
    assert_eq!(report.interval_started_at_unix, Some(10));
    assert_eq!(report.interval_ended_at_unix, Some(20));
}

#[test]
fn automatic_report_uses_the_current_interval_resource_baseline() {
    let mut diagnostics = diagnostics();
    diagnostics.set_automatic_device("device-1", 10);
    let (observation, changed) =
        diagnostics.observe_automatic_tunnel(Some("connection-1"), true, 10);
    assert!(changed);
    diagnostics
        .begin_automatic_resource_interval(&observation, ResourceSnapshot::capture_for_test());
    diagnostics.observe_automatic_tunnel(None, false, 20);
    let seal = diagnostics.pending_automatic_seal().unwrap();

    let report = diagnostics.automatic_report(
        &seal,
        ResourceSnapshot::capture_for_test(),
        LogFiles::new().sources(),
    );

    assert!(report.resource_usage.is_some());
}

#[test]
fn immediate_stall_success_records_specialized_and_generic_recovery_events() {
    let mut diagnostics = diagnostics();
    diagnostics.record_recovery_success(
        "lease-1",
        Some("connection.intent.stall_recovered_after_rebind"),
        6,
    );

    let records = records(&mut diagnostics);
    let noted = |kind: &str| records.iter().filter(|record| record.kind == kind).count();
    assert_eq!(noted("connection.intent.stall_recovered_after_rebind"), 1);
    assert_eq!(noted("connection.intent.recovered"), 1);
    assert_eq!(records[1].operation_id.as_deref(), Some("lease-1"));
    assert_eq!(records[2].kind, "connection.intent.recovered");
}

#[test]
fn the_end_of_a_log_is_cut_between_characters() {
    assert_eq!(tail_string("привет", 5), "ет");
    assert_eq!(tail_string("привет", 12), "привет");
    assert_eq!(tail_string("привет", 0), "");
    assert_eq!(
        application_log("a".to_string(), "b", "c".to_string()),
        "abc"
    );
    assert_eq!(bounded_helper_log(Some(String::new())), None);
    assert_eq!(bounded_helper_log(None), None);
    assert_eq!(
        bounded_helper_log(Some("x".repeat(MAX_HELPER_REPORT_BYTES + 1)))
            .unwrap()
            .len(),
        MAX_HELPER_REPORT_BYTES
    );
    assert!(!rotation_due(None, ROTATE_AT_BYTES + 1));
    assert!(!rotation_due(Some(1), ROTATE_AT_BYTES - 1));
    assert!(rotation_due(Some(2), ROTATE_AT_BYTES - 1));
}

fn sent() -> SentReport {
    SentReport {
        tunnel_session_id: Some("session-1".to_string()),
        trigger: "stopped".to_string(),
    }
}

#[test]
fn a_report_that_was_not_put_away_is_tried_again() {
    let mut diagnostics = diagnostics();
    diagnostics.set_automatic_device("device-1", 10);
    diagnostics.observe_automatic_tunnel(Some("connection-1"), true, 10);
    diagnostics.observe_automatic_tunnel(None, false, 20);
    let seal = diagnostics.pending_automatic_seal().unwrap();
    diagnostics.report_queued(&seal, None, 20);
    diagnostics
        .materialize_automatic_report(&seal, ResourceSnapshot::capture_for_test())
        .unwrap();
    let files = vec![report_name(&seal).unwrap()];
    assert!(diagnostics
        .automatic_upload_candidate(20, &files)
        .is_some());
    assert!(diagnostics
        .automatic_upload_candidate(20, &files)
        .is_none());
    diagnostics.upload_settled(
        &sent(),
        UploadOutcome::Delivered {
            request_id: "request-1".to_string(),
            archived: Err("permission denied".to_string()),
        },
        20,
    );
    assert!(diagnostics
        .automatic_upload_candidate(20, &files)
        .is_none());
    assert!(diagnostics
        .automatic_upload_candidate(1_000_000, &files)
        .is_some());
    diagnostics.upload_settled(
        &sent(),
        UploadOutcome::Failed {
            code: "unavailable".to_string(),
        },
        20,
    );
    diagnostics.upload_settled(
        &sent(),
        UploadOutcome::Unreadable {
            kind: "not found".to_string(),
        },
        20,
    );
    diagnostics.upload_settled(
        &sent(),
        UploadOutcome::Delivered {
            request_id: "request-2".to_string(),
            archived: Ok(Vec::new()),
        },
        20,
    );
    let kinds: Vec<String> = records(&mut diagnostics)
        .into_iter()
        .map(|record| record.kind)
        .collect();
    assert_eq!(
        kinds,
        vec![
            "application.started",
            "diagnostics.automatic_report_queued",
            "diagnostics.automatic_sent_archive_failed",
            "diagnostics.automatic_upload_failed",
            "diagnostics.automatic_report_read_failed",
            "diagnostics.automatic_report_uploaded",
        ]
    );
}

#[test]
fn what_a_command_comes_to_is_noted() {
    let mut diagnostics = diagnostics();
    assert!(diagnostics
        .startup_finished(
            StartupOutcome::Ready {
                request_id: "request-1".to_string()
            },
            10,
            6
        )
        .is_ok());
    let error = diagnostics
        .startup_finished(StartupOutcome::TimedOut, 20, 6)
        .unwrap_err();
    assert_eq!(error.code(), "startup_timeout");
    assert!(diagnostics.inventory_finished(
        InventoryOutcome::Listed {
            applications: 12,
            elapsed_ms: 30
        },
        6
    ));
    assert!(!diagnostics.inventory_finished(InventoryOutcome::WorkerUnavailable, 6));
    assert!(diagnostics
        .tunnel_prepared(Err(TunnelError::Backend("helper_unavailable".to_string())), 6)
        .is_err());
    assert!(diagnostics
        .report_sent(Err(ApplicationError::Storage), 6)
        .is_err());
    assert!(diagnostics.report_sent(Ok("request-2".to_string()), 6).is_ok());
    assert!(diagnostics.start_failure_queued(true, 6).is_ok());
    assert!(diagnostics.start_failure_queued(false, 6).is_err());
    assert!(diagnostics.provision_finished(
        Err(CommandError::new("unavailable", "")),
        false,
        6
    ));
    diagnostics.slow_recovery_shown(true, 6);
    diagnostics.slow_recovery_shown(false, 6);
    diagnostics.record_defender_status(
        "windows.defender.status",
        &DefenderStatus {
            state: DefenderExclusionState::Missing,
            dll_present: true,
            detail_code: None,
            antivirus_products: Vec::new(),
            antivirus_detail_code: None,
        },
        6,
    );
    let records = records(&mut diagnostics);
    assert_eq!(records[1].kind, "startup.bootstrap.ready");
    assert_eq!(records[1].duration_ms, Some(10));
    assert_eq!(records[2].kind, "startup.bootstrap.failed");
    assert_eq!(records[2].code.as_deref(), Some("startup_timeout"));
    assert_eq!(records[3].code.as_deref(), Some("applications=12"));
    assert_eq!(records[4].code.as_deref(), Some("worker_unavailable"));
    assert!(records
        .last()
        .unwrap()
        .code
        .as_ref()
        .unwrap()
        .starts_with("missing_dll_"));
}

#[test]
fn what_the_user_is_told_is_fixed() {
    assert_eq!(report_unavailable().code(), "diagnostics_unavailable");
    assert_eq!(
        cancel_dispatch_unavailable().message,
        "Не удалось передать отмену службе подключения"
    );
    assert_eq!(
        service_dispatch_unavailable(true).code(),
        cancel_dispatch_unavailable().code()
    );
    assert_eq!(
        service_dispatch_unavailable(true).code(),
        service_dispatch_unavailable(false).code()
    );
    assert_ne!(
        service_dispatch_unavailable(true).message,
        service_dispatch_unavailable(false).message
    );
    assert_eq!(slow_recovery_notification().title, "Проверяем подключение");
    assert_eq!(failure_kind_name(AutomaticError::SealChanged), "other error");
    assert_eq!(
        failure_kind_name(AutomaticError::InvalidScope),
        "invalid input parameter"
    );
}

#[test]
fn a_device_that_is_signed_out_is_forgotten_once() {
    let mut diagnostics = diagnostics();
    assert!(!diagnostics.clear_automatic_device());
    assert!(diagnostics.set_automatic_device("device-1", 6));
    assert!(diagnostics.clear_automatic_device());
    assert!(!diagnostics.clear_automatic_device());
}

#[test]
fn a_span_is_noted_in_milliseconds() {
    let mut diagnostics = diagnostics();
    diagnostics.record_timed_named("stage", Some("7"), None, Some("code"), 1_500, 9);
    diagnostics.record_timed_named("stage", None, None, None, u128::MAX, 9);
    let records = records(&mut diagnostics);
    let spans: Vec<Option<u64>> = records
        .iter()
        .filter(|record| record.kind == "stage")
        .map(|record| record.duration_ms)
        .collect();
    assert_eq!(spans, vec![Some(1_500), Some(u64::MAX)]);
}

#[test]
fn a_repair_of_defender_is_noted_and_shown() {
    let mut diagnostics = diagnostics();
    let status = DefenderStatus {
        state: DefenderExclusionState::Excluded,
        dll_present: true,
        detail_code: None,
        antivirus_products: Vec::new(),
        antivirus_detail_code: None,
    };
    let shown = diagnostics
        .defender_repaired(Ok(status), Some("C:/tunnel.dll".to_string()), 6)
        .unwrap();
    assert!(shown.supported);
    assert_eq!(shown.dll_path.as_deref(), Some("C:/tunnel.dll"));
    let refused = TunnelError::Backend("service_timeout".to_string());
    let error = diagnostics
        .defender_repaired(Err(refused), None, 6)
        .err()
        .unwrap();
    assert_eq!(error.code(), "tunnel_service_unavailable");
    let kinds: Vec<String> = records(&mut diagnostics)
        .iter()
        .map(|record| record.kind.clone())
        .collect();
    assert!(kinds.contains(&"windows.defender.repaired".to_string()));
    assert!(kinds.contains(&"windows.defender.repair_failed".to_string()));
}

#[test]
fn the_newest_report_is_sent_at_once() {
    let mut diagnostics = diagnostics();
    diagnostics.set_automatic_device("device-1", 10);
    let files: Vec<String> = [10, 20]
        .iter()
        .map(|started: &i64| {
            diagnostics.observe_automatic_tunnel(Some("connection-1"), true, *started);
            diagnostics.observe_automatic_tunnel(None, false, started + 5);
            let seal = diagnostics.pending_automatic_seal().unwrap();
            diagnostics
                .materialize_automatic_report(&seal, ResourceSnapshot::capture_for_test())
                .unwrap();
            report_name(&seal).unwrap()
        })
        .collect();
    let newest = diagnostics.automatic_latest_upload_candidate(30, &files);
    assert_eq!(newest, Some(files[1].clone()));
    assert_eq!(diagnostics.automatic_latest_upload_candidate(30, &files), None);
    diagnostics.release_automatic_upload();
    assert_eq!(
        diagnostics.automatic_upload_candidate(30, &files),
        Some(files[0].clone())
    );
}
