use nelomai_app::automatic_diagnostics::{
    pending_reports_for, report_name, report_scope, sent_reports_to_remove, validate_scope,
    AutomaticError, DesktopAutomaticDiagnostics, PendingSeal, CHECKPOINT_SECONDS, MAX_SENT_REPORTS,
    RETRY_DELAYS_SECONDS,
};

fn queue_for(device_id: &str) -> DesktopAutomaticDiagnostics {
    let mut queue =
        DesktopAutomaticDiagnostics::new(DesktopAutomaticDiagnostics::empty_state(), None);
    assert!(queue.set_current_device(device_id) == Ok(true));
    queue
}

/// Writes the report of a seal into a list that stands for the directory.
fn write_report(
    queue: &mut DesktopAutomaticDiagnostics,
    seal: &PendingSeal,
    files: &mut Vec<String>,
) -> String {
    let name = queue
        .materialization_name(seal, &Some(seal.report_id.clone()))
        .unwrap();
    files.push(name.clone());
    assert!(queue.materialize(seal).is_ok());
    name
}

#[test]
fn queues_stop_report_and_keeps_it_pending_until_success() {
    let mut files: Vec<String> = Vec::new();
    let mut queue = queue_for("device-1");
    queue.observe(Some("session-1"), true, 10);
    assert!(queue.observe(None, false, 20).0.seal_pending);
    let seal = queue.pending_seal().unwrap();
    write_report(&mut queue, &seal, &mut files);

    let first = queue.upload_candidate(20, &files).unwrap();
    assert_eq!(queue.upload_failed(20), RETRY_DELAYS_SECONDS[0]);
    assert!(files.contains(&first));
    queue.release_upload();
    assert!(queue.upload_candidate(21, &files).is_none());

    let retry = queue
        .upload_candidate(20 + RETRY_DELAYS_SECONDS[0], &files)
        .unwrap();
    assert_eq!(retry, first);
    files.retain(|name| name != &retry);
    queue.upload_succeeded(20 + RETRY_DELAYS_SECONDS[0], &files);
    assert_eq!(queue.state.retry_attempt, 0);
    assert_eq!(queue.state.next_upload_at, 0);
}

#[test]
fn completed_stop_does_not_create_a_duplicate_but_restart_starts_a_new_interval() {
    let mut files: Vec<String> = Vec::new();
    let mut queue = queue_for("device-1");
    queue.observe(Some("lease-1"), true, 10);
    queue.observe(None, false, 20);
    let first = queue.pending_seal().unwrap();
    write_report(&mut queue, &first, &mut files);

    let (duplicate_stop, changed) = queue.observe(None, false, 21);
    assert!(!changed);
    assert!(!duplicate_stop.seal_pending);
    assert!(duplicate_stop.interval_started.is_none());
    assert!(queue.pending_seal().is_none());

    let (restarted, changed) = queue.observe(Some("lease-1"), true, 30);
    assert!(changed);
    assert!(restarted.interval_started.is_some());
    assert!(queue.observe(None, false, 40).0.seal_pending);
    let second = queue.pending_seal().unwrap();
    assert_ne!(first.session_id, second.session_id);
}

#[test]
fn seals_six_hour_intervals_without_ending_session() {
    let mut files: Vec<String> = Vec::new();
    let mut queue = queue_for("device-1");
    queue.observe(Some("session-1"), true, 10);

    assert!(
        queue
            .observe(Some("session-1"), true, 10 + CHECKPOINT_SECONDS)
            .0
            .seal_pending
    );
    let first = queue.pending_seal().unwrap();
    assert_eq!(first.trigger, "six_hour_checkpoint");
    assert!(first.tunnel_running);
    write_report(&mut queue, &first, &mut files);

    assert!(
        !queue
            .observe(Some("session-1"), true, 10 + CHECKPOINT_SECONDS + 1)
            .0
            .seal_pending
    );
}

#[test]
fn corrupt_pending_report_does_not_starve_the_next_report() {
    let mut files: Vec<String> = Vec::new();
    let mut queue = queue_for("device-1");
    queue.observe(Some("connection-1"), true, 10);
    queue.observe(None, false, 20);
    let first = queue.pending_seal().unwrap();
    let first_name = write_report(&mut queue, &first, &mut files);
    queue.observe(Some("connection-2"), true, 30);
    queue.observe(None, false, 40);
    let second = queue.pending_seal().unwrap();
    let second_name = write_report(&mut queue, &second, &mut files);

    assert_eq!(
        queue.upload_candidate(40, &files),
        Some(first_name)
    );
    queue.upload_failed(40);
    queue.release_upload();

    assert_eq!(
        queue.upload_candidate(40 + RETRY_DELAYS_SECONDS[0], &files),
        Some(second_name)
    );
}

#[test]
fn multiple_corrupt_reports_do_not_starve_a_later_valid_report() {
    let mut files: Vec<String> = Vec::new();
    let mut queue = queue_for("device-1");
    let mut names: Vec<String> = Vec::new();
    for index in 0..3 {
        let started_at: i64 = 10 + index * 20;
        queue.observe(Some(&format!("connection-{index}")), true, started_at);
        queue.observe(None, false, started_at + 10);
        let seal = queue.pending_seal().unwrap();
        names.push(write_report(&mut queue, &seal, &mut files));
    }

    assert_eq!(
        queue.upload_candidate(60, &files),
        Some(names[0].clone())
    );
    queue.upload_failed(60);
    queue.release_upload();
    let second_attempt = 60 + RETRY_DELAYS_SECONDS[0];
    assert_eq!(
        queue.upload_candidate(second_attempt, &files),
        Some(names[1].clone())
    );
    queue.upload_failed(second_attempt);
    queue.release_upload();
    let third_attempt = second_attempt + RETRY_DELAYS_SECONDS[1];
    assert_eq!(
        queue.upload_candidate(third_attempt, &files),
        Some(names[2].clone())
    );
}

#[test]
fn logout_candidate_uses_the_latest_report_despite_retry_backoff() {
    let mut files: Vec<String> = Vec::new();
    let mut queue = queue_for("device-1");
    queue.observe(Some("connection-1"), true, 10);
    queue.observe(None, false, 20);
    let first = queue.pending_seal().unwrap();
    write_report(&mut queue, &first, &mut files);
    queue.observe(Some("connection-2"), true, 30);
    queue.observe(None, false, 40);
    let latest = queue.pending_seal().unwrap();
    let latest_name = write_report(&mut queue, &latest, &mut files);

    assert!(queue.upload_candidate(40, &files).is_some());
    queue.upload_failed(40);
    queue.release_upload();
    assert!(queue.upload_candidate(41, &files).is_none());
    assert_eq!(
        queue.upload_latest_candidate(41, &files),
        Some(latest_name)
    );
}

#[test]
fn dropping_an_upload_candidate_releases_the_upload_gate() {
    let mut files: Vec<String> = Vec::new();
    let mut queue = queue_for("device-1");
    queue.observe(Some("connection-1"), true, 10);
    queue.observe(None, false, 20);
    let seal = queue.pending_seal().unwrap();
    write_report(&mut queue, &seal, &mut files);

    assert!(queue.upload_candidate(20, &files).is_some());
    assert!(queue.upload_candidate(20, &files).is_none());
    queue.release_upload();

    assert!(queue.upload_candidate(20, &files).is_some());
}

#[test]
fn startup_prunes_only_confirmed_history_and_keeps_all_pending_files() {
    assert_eq!(5 - sent_reports_to_remove(5), MAX_SENT_REPORTS);
    assert_eq!(sent_reports_to_remove(0), 0);
    assert_eq!(sent_reports_to_remove(MAX_SENT_REPORTS), 0);
    assert_eq!(sent_reports_to_remove(MAX_SENT_REPORTS + 7), 7);
}

#[test]
fn report_names_sort_by_time_and_name_their_device() {
    let mut queue = queue_for("device-1");
    queue.observe(Some("connection-1"), true, 10);
    queue.observe(None, false, 20);
    let mut seal = queue.pending_seal().unwrap();
    let name = report_name(&seal).unwrap();
    assert_eq!(
        name,
        format!("00000000000000000020.device-1.{}.json", seal.report_id)
    );
    assert_eq!(report_scope(&name), Some("device-1".to_string()));
    assert_eq!(report_scope("no-separators"), None);
    assert_eq!(report_scope("1.device-1.no-identifier.json"), None);

    seal.report_id = "67E5504410B1426F9247BB680E5FE0C8".to_string();
    seal.ended_at = -5;
    let name = report_name(&seal).unwrap();
    assert_eq!(
        name,
        "00000000000000000000.device-1.67e55044-10b1-426f-9247-bb680e5fe0c8.json"
    );

    let files: Vec<String> = vec![
        "00000000000000000009.device-1.67e55044-10b1-426f-9247-bb680e5fe0c8.json".to_string(),
        "00000000000000000001.device-2.67e55044-10b1-426f-9247-bb680e5fe0c8.json".to_string(),
        "00000000000000000007.device-1.67e55044-10b1-426f-9247-bb680e5fe0c8.json".to_string(),
        "state.json".to_string(),
    ];
    assert_eq!(
        pending_reports_for(&files, "device-1"),
        vec![files[2].clone(), files[0].clone()]
    );
}

#[test]
fn random_identifiers_are_canonical_and_differ() {
    let mut queue = queue_for("device-1");
    queue.observe(Some("connection-1"), true, 10);
    queue.observe(None, false, 20);
    let seal = queue.pending_seal().unwrap();
    assert_eq!(seal.report_id.len(), 36);
    assert_ne!(seal.report_id, seal.session_id);
    assert!(seal
        .report_id
        .chars()
        .enumerate()
        .all(|(index, c)| if [8, 13, 18, 23].contains(&index) {
            c == '-'
        } else {
            c.is_ascii_hexdigit() && !c.is_ascii_uppercase()
        }));
    assert_eq!(seal.report_id.chars().nth(14), Some('4'));
}

#[test]
fn a_report_identifier_that_is_no_identifier_is_refused() {
    let mut queue = queue_for("device-1");
    queue.observe(Some("connection-1"), true, 10);
    queue.observe(None, false, 20);
    let mut seal = queue.pending_seal().unwrap();
    assert_eq!(
        queue.materialization_name(&seal, &None),
        Err(AutomaticError::ReportIdMismatch)
    );
    seal.report_id = "not-an-identifier".to_string();
    let report_id = Some(seal.report_id.clone());
    assert_eq!(
        queue.materialization_name(&seal, &report_id),
        Err(AutomaticError::InvalidReportId)
    );
    assert_eq!(queue.materialize(&seal), Err(AutomaticError::SealChanged));
}

#[test]
fn only_plain_scopes_name_a_device() {
    assert!(validate_scope("device_1-A").is_ok());
    assert_eq!(validate_scope(""), Err(AutomaticError::InvalidScope));
    assert_eq!(validate_scope("../device"), Err(AutomaticError::InvalidScope));
    let mut queue = queue_for("device-1");
    assert_eq!(
        queue.set_current_device("a/b"),
        Err(AutomaticError::InvalidScope)
    );
    assert!(queue.clear_current_device());
    assert!(!queue.clear_current_device());
}

#[test]
fn a_sealed_report_waits_until_it_is_written() {
    let mut queue = queue_for("device-1");
    queue.observe(Some("connection-1"), true, 10);
    queue.observe(None, false, 20);
    let seal = queue.pending_seal().unwrap();
    let (observation, changed) = queue.observe(Some("connection-2"), true, 30);
    assert!(!changed);
    assert!(observation.seal_pending);
    assert!(observation.interval_started.is_none());
    assert!(queue.pending_seal().unwrap().same_as(&seal));
}
