use nelomai_app::incident_archive::{
    timestamp_in_interval, ArchivePreparation, NetworkIncident, NetworkIncidentArchive,
    NetworkIncidentSession, NetworkIncidentSummary, SnapshotScope,
};
use nelomai_app::incident_compaction::{bounded_snapshot_payload, SnapshotError};
use nelomai_app::network_incidents::{
    counter_delta, DetectorAction, InvalidDeviceScope, NetworkIncidentRecorder,
    NetworkIncidentSample, NetworkIncidentSnapshot, MAX_SAMPLES, MAX_SNAPSHOT_PAYLOAD_BYTES,
};
use nelomai_app::tunnel::TunnelMetrics;
use serde_json::Value;
use std::cell::Cell;

fn optional_number(value: Option<i64>) -> Value {
    value.map_or(Value::Null, Value::from)
}

fn optional_count(value: Option<u64>) -> Value {
    value.map_or(Value::Null, Value::from)
}

fn sample_value(sample: &NetworkIncidentSample) -> Value {
    let mut value = serde_json::Map::new();
    value.insert("observed_at_unix".to_string(), sample.observed_at_unix.into());
    value.insert("received_bytes".to_string(), sample.received_bytes.into());
    value.insert("sent_bytes".to_string(), sample.sent_bytes.into());
    value.insert(
        "received_delta_bytes".to_string(),
        sample.received_delta_bytes.into(),
    );
    value.insert("sent_delta_bytes".to_string(), sample.sent_delta_bytes.into());
    value.insert(
        "latest_handshake_epoch_millis".to_string(),
        optional_count(sample.latest_handshake_epoch_millis),
    );
    value.insert(
        "handshake_age_seconds".to_string(),
        optional_count(sample.handshake_age_seconds),
    );
    Value::Object(value)
}

fn incident_value(
    id: &str,
    kind: &str,
    detected_at_unix: i64,
    recovered_at_unix: Option<i64>,
    duration_ms: Option<u64>,
    open: bool,
) -> serde_json::Map<String, Value> {
    let mut value = serde_json::Map::new();
    value.insert("id".to_string(), id.into());
    value.insert("kind".to_string(), kind.into());
    value.insert("detected_at_unix".to_string(), detected_at_unix.into());
    value.insert(
        "recovered_at_unix".to_string(),
        optional_number(recovered_at_unix),
    );
    value.insert("duration_ms".to_string(), optional_count(duration_ms));
    if open {
        value.insert("open".to_string(), true.into());
    }
    value
}

fn session_value(session: &NetworkIncidentSession) -> Value {
    let mut value = serde_json::Map::new();
    if let Some(device_id) = &session.device_id {
        value.insert("device_id".to_string(), device_id.as_str().into());
    }
    value.insert(
        "connection_lease_id".to_string(),
        session.connection_lease_id.as_str().into(),
    );
    let detailed: Vec<Value> = session
        .detailed
        .iter()
        .map(|incident| {
            let mut value = incident_value(
                &incident.id,
                &incident.kind,
                incident.detected_at_unix,
                incident.recovered_at_unix,
                incident.duration_ms,
                incident.open,
            );
            let samples: Vec<Value> = incident.samples.iter().map(sample_value).collect();
            value.insert("samples".to_string(), samples.into());
            Value::Object(value)
        })
        .collect();
    value.insert("detailed".to_string(), detailed.into());
    if !session.additional.is_empty() {
        let additional: Vec<Value> = session
            .additional
            .iter()
            .map(|incident| {
                Value::Object(incident_value(
                    &incident.id,
                    &incident.kind,
                    incident.detected_at_unix,
                    incident.recovered_at_unix,
                    incident.duration_ms,
                    incident.open,
                ))
            })
            .collect();
        value.insert("additional".to_string(), additional.into());
    }
    if session.additional_count != 0 {
        value.insert("additional_count".to_string(), session.additional_count.into());
    }
    if let Some(first) = session.first_additional_at_unix {
        value.insert("first_additional_at_unix".to_string(), first.into());
    }
    if let Some(last) = session.last_additional_at_unix {
        value.insert("last_additional_at_unix".to_string(), last.into());
    }
    Value::Object(value)
}

fn written(archive: &NetworkIncidentArchive) -> Option<String> {
    let mut value = serde_json::Map::new();
    value.insert("version".to_string(), archive.version.into());
    let sessions: Vec<Value> = archive.sessions.iter().map(session_value).collect();
    value.insert("sessions".to_string(), sessions.into());
    if let Some(compaction) = &archive.compaction {
        let mut omitted = serde_json::Map::new();
        omitted.insert(
            "omitted_session_count".to_string(),
            compaction.omitted_session_count.into(),
        );
        omitted.insert(
            "omitted_incident_count".to_string(),
            compaction.omitted_incident_count.into(),
        );
        omitted.insert(
            "first_omitted_at_unix".to_string(),
            optional_number(compaction.first_omitted_at_unix),
        );
        omitted.insert(
            "last_omitted_at_unix".to_string(),
            optional_number(compaction.last_omitted_at_unix),
        );
        value.insert("compaction".to_string(), Value::Object(omitted));
    }
    serde_json::to_string(&Value::Object(value)).ok()
}

fn copied(archive: &NetworkIncidentArchive) -> NetworkIncidentArchive {
    NetworkIncidentArchive {
        version: archive.version,
        compaction: archive.compaction,
        sessions: archive
            .sessions
            .iter()
            .map(|session| NetworkIncidentSession {
                device_id: session.device_id.clone(),
                connection_lease_id: session.connection_lease_id.clone(),
                detailed: session
                    .detailed
                    .iter()
                    .map(|incident| NetworkIncident {
                        id: incident.id.clone(),
                        kind: incident.kind.clone(),
                        detected_at_unix: incident.detected_at_unix,
                        recovered_at_unix: incident.recovered_at_unix,
                        duration_ms: incident.duration_ms,
                        open: incident.open,
                        samples: incident.samples.clone(),
                    })
                    .collect(),
                additional: session
                    .additional
                    .iter()
                    .map(|incident| NetworkIncidentSummary {
                        id: incident.id.clone(),
                        kind: incident.kind.clone(),
                        detected_at_unix: incident.detected_at_unix,
                        recovered_at_unix: incident.recovered_at_unix,
                        duration_ms: incident.duration_ms,
                        open: incident.open,
                    })
                    .collect(),
                additional_count: session.additional_count,
                first_additional_at_unix: session.first_additional_at_unix,
                last_additional_at_unix: session.last_additional_at_unix,
            })
            .collect(),
    }
}

/// A recorder with the archive that stands for its file.
struct Store {
    recorder: NetworkIncidentRecorder,
    archive: NetworkIncidentArchive,
}

impl Store {
    fn new() -> Self {
        Store {
            recorder: NetworkIncidentRecorder::new(None),
            archive: NetworkIncidentArchive::new(),
        }
    }

    fn observe(
        &mut self,
        connection_id: &str,
        sample: &TunnelMetrics,
        previous: Option<&TunnelMetrics>,
        now_unix: i64,
    ) {
        match self
            .recorder
            .observe(connection_id, sample, previous, now_unix)
        {
            DetectorAction::Nothing => {}
            DetectorAction::RecordDetection {
                detected_at_unix,
                samples,
            } => self.recorder.record_detection(
                &mut self.archive,
                connection_id,
                detected_at_unix,
                samples,
            ),
            DetectorAction::RecordRecovery {
                detected_at_unix,
                recovered_at_unix,
            } => {
                self.recorder.record_recovery(
                    &mut self.archive,
                    connection_id,
                    detected_at_unix,
                    recovered_at_unix,
                );
            }
        }
    }

    fn detect(&mut self, connection_id: &str, detected_at_unix: i64) {
        self.recorder.record_detection(
            &mut self.archive,
            connection_id,
            detected_at_unix,
            Vec::new(),
        );
    }

    fn recover(&mut self, connection_id: &str, detected_at_unix: i64, recovered_at_unix: i64) {
        assert!(self.recorder.record_recovery(
            &mut self.archive,
            connection_id,
            detected_at_unix,
            recovered_at_unix,
        ));
    }

    fn snapshot(
        &self,
        connection_id: Option<&str>,
        device_id: Option<&str>,
        started_at_unix: Option<i64>,
        ended_at_unix: Option<i64>,
    ) -> Option<NetworkIncidentSnapshot> {
        let scope = SnapshotScope {
            connection_id,
            device_id,
            started_at_unix,
            ended_at_unix,
        };
        match self
            .recorder
            .snapshot(copied(&self.archive), scope, written)
        {
            Ok(snapshot) => snapshot,
            Err(_) => panic!("no report could be made"),
        }
    }

    fn prune(
        &mut self,
        connection_id: &str,
        snapshot: &NetworkIncidentSnapshot,
        retain_open: bool,
    ) {
        self.recorder
            .prune_snapshot(&mut self.archive, connection_id, snapshot, retain_open);
    }
}

fn parsed(payload: &str) -> Value {
    serde_json::from_str(payload).unwrap()
}

fn sample(received: u64, sent: u64, handshake: u64) -> TunnelMetrics {
    TunnelMetrics {
        received_bytes: received,
        sent_bytes: sent,
        latest_handshake_epoch_millis: Some(handshake),
        probe_target: None,
    }
}

#[test]
fn records_and_recovers_a_bounded_incident() {
    let mut store = Store::new();
    let mut previous = sample(100, 100, 10_000);
    for second in 10..=21 {
        let current = sample(100, 100 + (second - 9) as u64 * 200, 10_000);
        store.observe("lease-1", &current, Some(&previous), second);
        previous = current;
    }
    let recovered = sample(200, 200, 10_000);
    store.observe("lease-1", &recovered, Some(&previous), 22);

    let payload = store
        .snapshot(Some("lease-1"), None, Some(0), Some(30))
        .unwrap()
        .payload;
    let parsed = parsed(&payload);
    let incident = &parsed["sessions"][0]["detailed"][0];
    assert_eq!(incident["recovered_at_unix"], 22);
    assert_eq!(incident["duration_ms"], 2_000);
    assert!(incident["samples"].as_array().unwrap().len() <= MAX_SAMPLES);
}

#[test]
fn prunes_materialized_incidents_without_touching_newer_ones() {
    let mut store = Store::new();
    store.detect("lease-1", 10);
    let materialized = store
        .snapshot(Some("lease-1"), None, Some(0), Some(20))
        .unwrap();
    store.detect("lease-1", 20);

    store.prune("lease-1", &materialized, false);

    let payload = store
        .snapshot(Some("lease-1"), None, Some(0), Some(40))
        .unwrap()
        .payload;
    assert!(!payload.contains("\"detected_at_unix\":10"));
    assert!(payload.contains("\"detected_at_unix\":20"));
}

#[test]
fn checkpoint_retains_an_open_incident_until_its_recovery_is_reported() {
    let mut store = Store::new();
    store.detect("lease-1", 10);
    let checkpoint = store
        .snapshot(Some("lease-1"), None, Some(0), Some(20))
        .unwrap();

    store.recover("lease-1", 10, 30);
    store.prune("lease-1", &checkpoint, true);

    let recovered = store
        .snapshot(Some("lease-1"), None, Some(20), Some(40))
        .unwrap();
    let payload = parsed(&recovered.payload);
    let incident = &payload["sessions"][0]["detailed"][0];
    assert_eq!(incident["detected_at_unix"], 10);
    assert_eq!(incident["recovered_at_unix"], 30);
    assert_eq!(incident["duration_ms"], 20_000);

    store.prune("lease-1", &recovered, false);
    assert!(store.snapshot(Some("lease-1"), None, None, None).is_none());
}

#[test]
fn additional_incidents_are_selected_by_their_own_timestamps() {
    let mut store = Store::new();
    for detected_at in [10, 20, 30, 40, 50] {
        store.detect("lease-1", detected_at);
        store.recover("lease-1", detected_at, detected_at + 1);
    }

    let selected = store
        .snapshot(Some("lease-1"), None, Some(45), Some(55))
        .unwrap();
    let payload = parsed(&selected.payload);
    let additional = payload["sessions"][0]["additional"].as_array().unwrap();
    assert_eq!(additional.len(), 1);
    assert_eq!(additional[0]["detected_at_unix"], 50);

    store.prune("lease-1", &selected, false);
    let remaining = store
        .snapshot(Some("lease-1"), None, Some(0), Some(60))
        .unwrap()
        .payload;
    assert!(remaining.contains("\"detected_at_unix\":40"));
    assert!(!remaining.contains("\"detected_at_unix\":50"));
}

#[test]
fn large_snapshot_is_compacted_below_the_panel_limit_without_losing_ids() {
    let mut store = Store::new();
    for detected_at in 0..500 {
        store.detect("lease-1", detected_at);
    }

    let selected = store.snapshot(Some("lease-1"), None, None, None).unwrap();
    assert!(selected.payload.len() <= MAX_SNAPSHOT_PAYLOAD_BYTES);
    assert_eq!(selected.selection.incident_ids.len(), 500);
    let payload = parsed(&selected.payload);
    assert_eq!(
        payload["sessions"][0]["additional"]
            .as_array()
            .unwrap()
            .len(),
        64
    );
    assert_eq!(payload["sessions"][0]["additional_count"], 433);

    store.prune("lease-1", &selected, false);
    assert!(store.snapshot(Some("lease-1"), None, None, None).is_none());
}

#[test]
fn ignores_one_idle_outbound_packet_without_inbound_traffic() {
    let mut store = Store::new();
    let mut previous = sample(100, 100, 10_000);
    for second in 10..=21 {
        let current = sample(100, 101, 10_000);
        store.observe("lease-1", &current, Some(&previous), second);
        previous = current;
    }

    assert!(store
        .snapshot(Some("lease-1"), None, Some(0), Some(30))
        .is_none());
}

#[test]
fn first_cumulative_sample_is_only_a_baseline() {
    let mut store = Store::new();
    store.observe("lease-1", &sample(0, 10_000_000, 10_000), None, 10);
    store.observe("lease-1", &sample(0, 10_000_000, 10_000), None, 30);

    assert!(store
        .snapshot(Some("lease-1"), None, Some(0), Some(40))
        .is_none());
}

#[test]
fn spaced_keepalives_do_not_open_an_incident() {
    let mut store = Store::new();
    let baseline = sample(100, 100, 10_000);
    let first = sample(100, 164, 10_000);
    store.observe("lease-1", &first, Some(&baseline), 10);
    let idle = sample(100, 164, 10_000);
    store.observe("lease-1", &idle, Some(&first), 25);
    let second = sample(100, 228, 10_000);
    store.observe("lease-1", &second, Some(&idle), 35);
    store.observe("lease-1", &second, Some(&second), 45);

    assert!(store
        .snapshot(Some("lease-1"), None, Some(0), Some(50))
        .is_none());
}

#[test]
fn reset_allows_the_same_connection_id_to_start_a_fresh_detection_session() {
    let mut store = Store::new();
    let mut previous = sample(100, 100, 10_000);
    for second in 10..=21 {
        let current = sample(100, 100 + (second - 9) as u64 * 200, 10_000);
        store.observe("lease-1", &current, Some(&previous), second);
        previous = current;
    }
    let stopped = store
        .snapshot(Some("lease-1"), None, Some(0), Some(25))
        .unwrap();
    store.prune("lease-1", &stopped, false);
    store.recorder.reset_detector();

    let mut previous = sample(100, 100, 10_000);
    for second in 30..=41 {
        let current = sample(100, 100 + (second - 29) as u64 * 200, 10_000);
        store.observe("lease-1", &current, Some(&previous), second);
        previous = current;
    }

    let payload = store
        .snapshot(Some("lease-1"), None, Some(20), Some(50))
        .unwrap()
        .payload;
    assert!(payload.contains("\"detected_at_unix\":40"));
}

#[test]
fn corrupt_archive_is_quarantined_instead_of_overwritten() {
    let recorder = NetworkIncidentRecorder::new(Some("unreadable".to_string()));
    assert!(recorder.startup_warning().is_some());
    let mut foreign = NetworkIncidentArchive::new();
    assert!(foreign.is_supported());
    foreign.version = 2;
    assert!(!foreign.is_supported());
}

fn legacy_session(count: u64, first: i64, last: i64) -> NetworkIncidentSession {
    NetworkIncidentSession {
        device_id: None,
        connection_lease_id: "lease-1".to_string(),
        detailed: Vec::new(),
        additional: Vec::new(),
        additional_count: count,
        first_additional_at_unix: Some(first),
        last_additional_at_unix: Some(last),
    }
}

#[test]
fn migrates_legacy_aggregate_into_individually_selectable_incidents() {
    let mut store = Store::new();
    store.archive.sessions.push(legacy_session(3, 40, 50));
    assert!(matches!(
        store.archive.prepare(),
        ArchivePreparation::Changed
    ));

    let selected = store
        .snapshot(Some("lease-1"), None, Some(44), Some(46))
        .unwrap();
    let payload = parsed(&selected.payload);
    let additional = payload["sessions"][0]["additional"].as_array().unwrap();
    assert_eq!(additional.len(), 1);
    assert_eq!(additional[0]["detected_at_unix"], 45);
    assert!(additional[0]["id"]
        .as_str()
        .is_some_and(|id| !id.is_empty()));

    let persisted = written(&store.archive).unwrap();
    assert!(!persisted.contains("additional_count"));
    assert!(!persisted.contains("first_additional_at_unix"));
    assert!(!persisted.contains("last_additional_at_unix"));
    assert!(matches!(
        store.archive.prepare(),
        ArchivePreparation::Unchanged
    ));
}

#[test]
fn an_oversized_legacy_aggregate_is_left_as_it_is() {
    let mut archive = NetworkIncidentArchive::new();
    archive.sessions.push(legacy_session(100_001, 40, 50));
    assert!(matches!(
        archive.prepare(),
        ArchivePreparation::LegacyAggregateTooLarge
    ));
    assert_eq!(archive.sessions[0].additional_count, 100_001);
}

#[test]
fn manual_snapshot_is_scoped_to_the_current_device() {
    let mut store = Store::new();
    store.recorder.set_current_device("device-1").unwrap();
    store.detect("lease-1", 10);
    store.recorder.set_current_device("device-2").unwrap();
    store.detect("lease-2", 20);

    let payload = store
        .snapshot(None, Some("device-2"), None, None)
        .unwrap()
        .payload;
    assert!(!payload.contains("lease-1"));
    assert!(payload.contains("lease-2"));
}

#[test]
fn a_device_has_a_name_of_a_bounded_length() {
    let mut recorder = NetworkIncidentRecorder::new(None);
    assert_eq!(recorder.set_current_device(""), Err(InvalidDeviceScope));
    assert_eq!(
        recorder.set_current_device(&"d".repeat(129)),
        Err(InvalidDeviceScope)
    );
    assert_eq!(recorder.current_device_id(), None);
    assert!(recorder.set_current_device(&"d".repeat(128)).is_ok());
    recorder.clear_current_device();
    assert_eq!(recorder.current_device_id(), None);
}

#[test]
fn a_detection_that_could_not_be_written_is_made_again() {
    let mut recorder = NetworkIncidentRecorder::new(None);
    let mut previous = sample(100, 100, 10_000);
    let mut detections: usize = 0;
    for second in 10..=22 {
        let current = sample(100, 100 + (second - 9) as u64 * 200, 10_000);
        let action = recorder.observe("lease-1", &current, Some(&previous), second);
        if matches!(action, DetectorAction::RecordDetection { .. }) {
            detections += 1;
            if detections == 1 {
                recorder.observation_failed("lease-1", &action);
            }
        }
        previous = current;
    }
    assert_eq!(detections, 2);
}

#[test]
fn a_report_that_cannot_be_written_is_an_error() {
    let mut store = Store::new();
    store.detect("lease-1", 10);
    let scope = || SnapshotScope {
        connection_id: None,
        device_id: None,
        started_at_unix: None,
        ended_at_unix: None,
    };
    assert!(matches!(
        store
            .recorder
            .snapshot(copied(&store.archive), scope(), |_| None),
        Err(SnapshotError::Serialization)
    ));
    assert!(matches!(
        store
            .recorder
            .snapshot(copied(&store.archive), scope(), |_| Some(
                "x".repeat(MAX_SNAPSHOT_PAYLOAD_BYTES + 1)
            )),
        Err(SnapshotError::TooLarge)
    ));
}

/// Three sessions with two, one and four incidents; the fourth of the newest
/// session has no details.
fn three_sessions() -> NetworkIncidentArchive {
    let mut store = Store::new();
    for (lease, times) in [("lease-1", 10..12), ("lease-2", 20..21), ("lease-3", 30..34)] {
        for detected_at in times {
            store.detect(lease, detected_at);
        }
    }
    store.archive
}

fn counted_incidents(archive: &NetworkIncidentArchive) -> u64 {
    let omitted = match &archive.compaction {
        Some(compaction) => compaction.omitted_incident_count,
        None => 0,
    };
    let sessions = archive.sessions.iter().map(|session| {
        (session.detailed.len() + session.additional.len()) as u64 + session.additional_count
    });
    omitted + sessions.sum::<u64>()
}

#[test]
fn a_report_that_fits_is_written_once_and_gives_up_nothing() {
    let mut archive = three_sessions();
    let complete = written(&archive).unwrap();
    let calls = Cell::new(0);
    let payload = bounded_snapshot_payload(&mut archive, |archive: &NetworkIncidentArchive| {
        calls.set(calls.get() + 1);
        written(archive)
    });
    assert_eq!(payload.unwrap(), complete);
    assert_eq!(calls.get(), 1);
    assert_eq!(written(&archive).unwrap(), complete);
}

#[test]
fn the_oldest_sessions_are_left_out_until_a_report_fits() {
    let archive = three_sessions();
    assert_eq!(counted_incidents(&archive), 7);
    for left in 1..=3 {
        let mut archive = copied(&archive);
        let payload = bounded_snapshot_payload(&mut archive, |archive: &NetworkIncidentArchive| {
            let detailed = archive.sessions.iter().any(|session| !session.detailed.is_empty());
            if detailed || archive.sessions.len() > left {
                Some("x".repeat(MAX_SNAPSHOT_PAYLOAD_BYTES + 1))
            } else {
                Some("x".repeat(MAX_SNAPSHOT_PAYLOAD_BYTES))
            }
        });
        assert_eq!(payload.unwrap().len(), MAX_SNAPSHOT_PAYLOAD_BYTES);
        assert_eq!(archive.sessions.len(), left);
        assert_eq!(archive.sessions[left - 1].connection_lease_id, "lease-3");
        assert_eq!(archive.sessions[left - 1].additional_count, 3);
        assert_eq!(archive.sessions[left - 1].additional.len(), 1);
        assert_eq!(counted_incidents(&archive), 7);
        match &archive.compaction {
            None => assert_eq!(left, 3),
            Some(compaction) => {
                assert_eq!(compaction.omitted_session_count, 3 - left as u64);
                assert_eq!(compaction.first_omitted_at_unix, Some(10));
                let last = if left == 1 { 20 } else { 11 };
                assert_eq!(compaction.last_omitted_at_unix, Some(last));
            }
        }
    }
}

#[test]
fn a_report_is_refused_only_with_a_single_counted_session() {
    let mut archive = three_sessions();
    let calls = Cell::new(0);
    let payload = bounded_snapshot_payload(&mut archive, |_: &NetworkIncidentArchive| {
        calls.set(calls.get() + 1);
        Some("x".repeat(MAX_SNAPSHOT_PAYLOAD_BYTES + 1))
    });
    assert_eq!(payload, Err(SnapshotError::TooLarge));
    assert_eq!(calls.get(), 6);
    assert_eq!(archive.sessions.len(), 1);
    assert_eq!(archive.sessions[0].connection_lease_id, "lease-3");
    assert!(archive.sessions[0].detailed.is_empty());
    assert_eq!(counted_incidents(&archive), 7);
}

#[test]
fn the_ends_of_an_interval_belong_to_it() {
    assert!(timestamp_in_interval(5, Some(5), Some(5)));
    assert!(!timestamp_in_interval(4, Some(5), None));
    assert!(!timestamp_in_interval(6, None, Some(5)));
    assert!(timestamp_in_interval(i64::MIN, None, None));
}

#[test]
fn a_counter_without_an_earlier_reading_has_not_grown() {
    assert_eq!(counter_delta(None, 12), 0);
    assert_eq!(counter_delta(Some(10), 14), 4);
    assert_eq!(counter_delta(Some(10), 3), 3);
}
