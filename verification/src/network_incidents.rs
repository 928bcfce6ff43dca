//! Detection of stalled data paths and the archive that keeps the incidents
//! until they have been reported.
use crate::incident_archive::{NetworkIncidentArchive, NetworkIncidentSelection, SnapshotScope};
use crate::incident_compaction::{bounded_snapshot_payload, is_outcome, SnapshotError};
use crate::tunnel::TunnelMetrics;
use vstd::prelude::*;

verus! {

pub const FORMAT_VERSION: u8 = 1;

pub const MAX_SAMPLES: usize = 60;

pub const MAX_DETAILED_INCIDENTS: usize = 3;

pub const MINIMUM_SESSION_AGE_SECONDS: i64 = 10;

pub const STALL_SECONDS: i64 = 5;

pub const MINIMUM_CANDIDATE_SENT_BYTES: u64 = 1_024;

pub const MINIMUM_CANDIDATE_ACTIVE_SAMPLES: u8 = 2;

pub const CANDIDATE_INACTIVITY_SECONDS: i64 = 10;

pub const MAXIMUM_LEGACY_ADDITIONAL_INCIDENTS: u64 = 100_000;

pub const MAX_SNAPSHOT_PAYLOAD_BYTES: usize = 61_440;

pub const MAX_COMPACTED_SAMPLES_PER_INCIDENT: usize = 12;

pub const MAX_COMPACTED_ADDITIONAL_INCIDENTS: usize = 64;

pub const MAX_DEVICE_ID_BYTES: usize = 128;

/// One observation of the tunnel counters.
#[derive(Clone, Copy, Debug, PartialEq, Eq)]
pub struct NetworkIncidentSample {
    pub observed_at_unix: i64,
    pub received_bytes: u64,
    pub sent_bytes: u64,
    pub received_delta_bytes: u64,
    pub sent_delta_bytes: u64,
    pub latest_handshake_epoch_millis: Option<u64>,
    pub handshake_age_seconds: Option<u64>,
}

/// Whole seconds from a handshake to `now_unix`, never negative.
pub open spec fn handshake_age(now_unix: i64, handshake_millis: u64) -> u64 {
    let now_millis = if now_unix <= 0 {
        0
    } else if now_unix * 1000 > u64::MAX {
        u64::MAX as int
    } else {
        now_unix * 1000
    };
    (if now_millis < handshake_millis {
        0
    } else {
        (now_millis - handshake_millis) / 1000
    }) as u64
}

/// The bytes counted since the previous reading. Without a previous reading
/// there is only a baseline; a counter that went back was restarted.
pub open spec fn counted(previous: Option<u64>, current: u64) -> u64 {
    match previous {
        None => 0,
        Some(value) => if current >= value {
            (current - value) as u64
        } else {
            current
        },
    }
}

pub open spec fn seconds_between(later: i64, earlier: i64) -> int {
    if later - earlier > i64::MAX {
        i64::MAX as int
    } else if later - earlier < i64::MIN {
        i64::MIN as int
    } else {
        later - earlier
    }
}

/// `later - earlier`, clamped to the range of `i64`.
pub fn saturating_seconds_between(later: i64, earlier: i64) -> (seconds: i64)
    ensures
        seconds == seconds_between(later, earlier),
{
    match later.checked_sub(earlier) {
        Some(seconds) => seconds,
        None => if later < earlier {
            i64::MIN
        } else {
            i64::MAX
        },
    }
}

pub fn counter_delta(previous: Option<u64>, current: u64) -> (delta: u64)
    ensures
        delta == counted(previous, current),
{
    match previous {
        None => 0,
        Some(value) => if current >= value {
            current - value
        } else {
            current
        },
    }
}

fn handshake_age_seconds(now_unix: i64, handshake_millis: u64) -> (age: u64)
    ensures
        age == handshake_age(now_unix, handshake_millis),
{
    let now_millis: u64 = if now_unix <= 0 {
        0
    } else {
        match (now_unix as u64).checked_mul(1_000) {
            Some(millis) => millis,
            None => u64::MAX,
        }
    };
    now_millis.saturating_sub(handshake_millis) / 1_000
}

/// The state of the detector for the connection that is being observed.
pub struct Detector {
    pub connection_id: Option<String>,
    pub started_at_unix: i64,
    pub candidate_started_at_unix: Option<i64>,
    pub candidate_sent_bytes: u64,
    pub candidate_active_samples: u8,
    pub candidate_last_activity_at_unix: Option<i64>,
    pub open_incident_at_unix: Option<i64>,
    pub samples: Vec<NetworkIncidentSample>,
}

/// What the detector knows, as mathematical values.
pub struct DetectorView {
    pub connection_id: Option<Seq<char>>,
    pub started_at_unix: i64,
    pub candidate: Candidate,
    pub open_incident_at_unix: Option<i64>,
    pub samples: Seq<NetworkIncidentSample>,
}

/// Outbound traffic that has not been answered yet.
pub struct Candidate {
    pub started_at_unix: Option<i64>,
    pub sent_bytes: u64,
    pub active_samples: u8,
    pub last_activity_at_unix: Option<i64>,
}

impl View for Detector {
    type V = DetectorView;

    open spec fn view(&self) -> DetectorView {
        DetectorView {
            connection_id: crate::text::text_of(self.connection_id),
            started_at_unix: self.started_at_unix,
            candidate: Candidate {
                started_at_unix: self.candidate_started_at_unix,
                sent_bytes: self.candidate_sent_bytes,
                active_samples: self.candidate_active_samples,
                last_activity_at_unix: self.candidate_last_activity_at_unix,
            },
            open_incident_at_unix: self.open_incident_at_unix,
            samples: self.samples@,
        }
    }
}

pub open spec fn no_candidate() -> Candidate {
    Candidate {
        started_at_unix: None,
        sent_bytes: 0,
        active_samples: 0,
        last_activity_at_unix: None,
    }
}

/// A detector that has observed nothing.
pub open spec fn idle_detector() -> DetectorView {
    DetectorView {
        connection_id: None,
        started_at_unix: 0,
        candidate: no_candidate(),
        open_incident_at_unix: None,
        samples: Seq::empty(),
    }
}

/// The detector as it stands when a reading of `connection` arrives: another
/// connection starts afresh.
pub open spec fn detector_for(
    detector: DetectorView,
    connection: Seq<char>,
    now_unix: i64,
) -> DetectorView {
    if detector.connection_id == Some(connection) {
        detector
    } else {
        DetectorView {
            connection_id: Some(connection),
            started_at_unix: now_unix,
            ..idle_detector()
        }
    }
}

pub open spec fn sample_of(
    sample: TunnelMetrics,
    previous: Option<TunnelMetrics>,
    now_unix: i64,
) -> NetworkIncidentSample {
    NetworkIncidentSample {
        observed_at_unix: now_unix,
        received_bytes: sample.received_bytes,
        sent_bytes: sample.sent_bytes,
        received_delta_bytes: counted(
            match previous {
                Some(value) => Some(value.received_bytes),
                None => None,
            },
            sample.received_bytes,
        ),
        sent_delta_bytes: counted(
            match previous {
                Some(value) => Some(value.sent_bytes),
                None => None,
            },
            sample.sent_bytes,
        ),
        latest_handshake_epoch_millis: sample.latest_handshake_epoch_millis,
        handshake_age_seconds: match sample.latest_handshake_epoch_millis {
            Some(handshake) => Some(handshake_age(now_unix, handshake)),
            None => None,
        },
    }
}

/// The last `MAX_SAMPLES` entries.
pub open spec fn latest_samples(samples: Seq<NetworkIncidentSample>) -> Seq<NetworkIncidentSample> {
    if samples.len() <= MAX_SAMPLES {
        samples
    } else {
        samples.skip(samples.len() - MAX_SAMPLES)
    }
}

/// The candidate after a reading that brought nothing back.
pub open spec fn candidate_after(
    candidate: Candidate,
    incident_open: bool,
    sent_delta: u64,
    now_unix: i64,
) -> Candidate {
    if sent_delta > 0 {
        Candidate {
            started_at_unix: match candidate.started_at_unix {
                Some(started) => Some(started),
                None => Some(now_unix),
            },
            sent_bytes: if candidate.sent_bytes + sent_delta > u64::MAX {
                u64::MAX
            } else {
                (candidate.sent_bytes + sent_delta) as u64
            },
            active_samples: if candidate.active_samples == u8::MAX {
                u8::MAX
            } else {
                (candidate.active_samples + 1) as u8
            },
            last_activity_at_unix: Some(now_unix),
        }
    } else if !incident_open && (candidate.last_activity_at_unix matches Some(last)
        && seconds_between(now_unix, last) > CANDIDATE_INACTIVITY_SECONDS) {
        no_candidate()
    } else {
        candidate
    }
}

/// When a candidate has become an incident.
pub open spec fn is_stalled(
    candidate: Candidate,
    incident_open: bool,
    session_started_at_unix: i64,
    now_unix: i64,
) -> bool {
    &&& !incident_open
    &&& candidate.started_at_unix matches Some(candidate_at)
    &&& seconds_between(now_unix, session_started_at_unix) >= MINIMUM_SESSION_AGE_SECONDS
    &&& seconds_between(now_unix, candidate_at) >= STALL_SECONDS
    &&& candidate.sent_bytes >= MINIMUM_CANDIDATE_SENT_BYTES
    &&& candidate.active_samples >= MINIMUM_CANDIDATE_ACTIVE_SAMPLES
}

/// The detector after a reading.
pub open spec fn detector_after(
    detector: DetectorView,
    connection: Seq<char>,
    sample: TunnelMetrics,
    previous: Option<TunnelMetrics>,
    now_unix: i64,
) -> DetectorView {
    let current = detector_for(detector, connection, now_unix);
    let reading = sample_of(sample, previous, now_unix);
    let samples = latest_samples(current.samples.push(reading));
    if reading.received_delta_bytes > 0 {
        DetectorView { candidate: no_candidate(), open_incident_at_unix: None, samples, ..current }
    } else {
        let open = current.open_incident_at_unix is Some;
        let candidate = candidate_after(
            current.candidate,
            open,
            reading.sent_delta_bytes,
            now_unix,
        );
        DetectorView {
            candidate,
            open_incident_at_unix: if is_stalled(candidate, open, current.started_at_unix, now_unix) {
                Some(now_unix)
            } else {
                current.open_incident_at_unix
            },
            samples,
            ..current
        }
    }
}

/// What has to be written to the archive after a reading.
pub enum DetectorAction {
    Nothing,
    RecordDetection { detected_at_unix: i64, samples: Vec<NetworkIncidentSample> },
    RecordRecovery { detected_at_unix: i64, recovered_at_unix: i64 },
}

/// Whether `action` is what the reading calls for: traffic that came back ends
/// the open incident, a stalled candidate opens one with the samples so far.
pub open spec fn action_after(
    action: DetectorAction,
    before: DetectorView,
    connection: Seq<char>,
    sample: TunnelMetrics,
    previous: Option<TunnelMetrics>,
    now_unix: i64,
) -> bool {
    let current = detector_for(before, connection, now_unix);
    let after = detector_after(before, connection, sample, previous, now_unix);
    let received = sample_of(sample, previous, now_unix).received_delta_bytes > 0;
    match action {
        DetectorAction::RecordRecovery { detected_at_unix, recovered_at_unix } => {
            &&& received
            &&& current.open_incident_at_unix == Some(detected_at_unix)
            &&& recovered_at_unix == now_unix
        },
        DetectorAction::RecordDetection { detected_at_unix, samples } => {
            &&& !received
            &&& current.open_incident_at_unix is None
            &&& after.open_incident_at_unix is Some
            &&& detected_at_unix == now_unix
            &&& samples@ == after.samples
        },
        DetectorAction::Nothing => if received {
            current.open_incident_at_unix is None
        } else {
            current.open_incident_at_unix == after.open_incident_at_unix
        },
    }
}

/// The detector after the archive could not be written: the incident is
/// neither open nor closed until a later reading succeeds.
pub open spec fn detector_after_failure(
    detector: DetectorView,
    connection: Seq<char>,
    action: DetectorAction,
) -> DetectorView {
    if detector.connection_id != Some(connection) {
        detector
    } else {
        match action {
            DetectorAction::Nothing => detector,
            DetectorAction::RecordRecovery { detected_at_unix, .. } => if detector.open_incident_at_unix is None {
                DetectorView { open_incident_at_unix: Some(detected_at_unix), ..detector }
            } else {
                detector
            },
            DetectorAction::RecordDetection { detected_at_unix, .. } => if detector.open_incident_at_unix
                == Some(detected_at_unix) {
                DetectorView { open_incident_at_unix: None, ..detector }
            } else {
                detector
            },
        }
    }
}

impl Detector {
    /// The detector keeps no more samples than a report may hold.
    pub open spec fn wf(self) -> bool {
        self.samples@.len() <= MAX_SAMPLES
    }

    pub fn new() -> (detector: Self)
        ensures
            detector.wf(),
            detector@ == idle_detector(),
    {
        Detector {
            connection_id: None,
            started_at_unix: 0,
            candidate_started_at_unix: None,
            candidate_sent_bytes: 0,
            candidate_active_samples: 0,
            candidate_last_activity_at_unix: None,
            open_incident_at_unix: None,
            samples: Vec::new(),
        }
    }

    fn clear_candidate(&mut self)
        ensures
            final(self)@ == (DetectorView { candidate: no_candidate(), ..old(self)@ }),
    {
        self.candidate_started_at_unix = None;
        self.candidate_sent_bytes = 0;
        self.candidate_active_samples = 0;
        self.candidate_last_activity_at_unix = None;
    }

    fn select_connection(&mut self, connection_id: &str, now_unix: i64)
        requires
            old(self).wf(),
        ensures
            final(self).wf(),
            final(self)@ == detector_for(old(self)@, connection_id@, now_unix),
    {
        let selected = match &self.connection_id {
            Some(current) => crate::text::same_text(current.as_str(), connection_id),
            None => false,
        };
        if !selected {
            let mut fresh = Detector::new();
            fresh.connection_id = Some(connection_id.to_owned());
            fresh.started_at_unix = now_unix;
            *self = fresh;
        }
    }

    fn keep_sample(&mut self, sample: NetworkIncidentSample)
        requires
            old(self).wf(),
        ensures
            final(self).wf(),
            final(self)@ == (DetectorView {
                samples: latest_samples(old(self)@.samples.push(sample)),
                ..old(self)@
            }),
    {
        self.samples.push(sample);
        if self.samples.len() > MAX_SAMPLES {
            let ghost all = self.samples@;
            self.samples.remove(0);
            assert(self.samples@ =~= all.skip(1));
        }
    }

    /// Takes in one reading of the counters of `connection_id` and says what
    /// has to be written to the archive.
    pub fn observe(
        &mut self,
        connection_id: &str,
        sample: &TunnelMetrics,
        previous: Option<&TunnelMetrics>,
        now_unix: i64,
    ) -> (action: DetectorAction)
        requires
            old(self).wf(),
        ensures
            final(self).wf(),
            final(self)@ == detector_after(
                old(self)@,
                connection_id@,
                *sample,
                match previous {
                    Some(value) => Some(*value),
                    None => None,
                },
                now_unix,
            ),
            action_after(
                action,
                old(self)@,
                connection_id@,
                *sample,
                match previous {
                    Some(value) => Some(*value),
                    None => None,
                },
                now_unix,
            ),
    {
        self.select_connection(connection_id, now_unix);
        let (previous_received, previous_sent): (Option<u64>, Option<u64>) = match previous {
            Some(value) => (Some(value.received_bytes), Some(value.sent_bytes)),
            None => (None, None),
        };
        let received_delta: u64 = counter_delta(previous_received, sample.received_bytes);
        let sent_delta: u64 = counter_delta(previous_sent, sample.sent_bytes);
        self.keep_sample(
            NetworkIncidentSample {
                observed_at_unix: now_unix,
                received_bytes: sample.received_bytes,
                sent_bytes: sample.sent_bytes,
                received_delta_bytes: received_delta,
                sent_delta_bytes: sent_delta,
                latest_handshake_epoch_millis: sample.latest_handshake_epoch_millis,
                handshake_age_seconds: match sample.latest_handshake_epoch_millis {
                    Some(handshake) => Some(handshake_age_seconds(now_unix, handshake)),
                    None => None,
                },
            },
        );
        if received_delta > 0 {
            self.clear_candidate();
            return match self.open_incident_at_unix.take() {
                Some(detected_at_unix) => DetectorAction::RecordRecovery {
                    detected_at_unix,
                    recovered_at_unix: now_unix,
                },
                None => DetectorAction::Nothing,
            };
        }
        if sent_delta > 0 {
            if self.candidate_started_at_unix.is_none() {
                self.candidate_started_at_unix = Some(now_unix);
            }
            self.candidate_sent_bytes = self.candidate_sent_bytes.saturating_add(sent_delta);
            self.candidate_active_samples = self.candidate_active_samples.saturating_add(1);
            self.candidate_last_activity_at_unix = Some(now_unix);
        } else if self.open_incident_at_unix.is_none() {
            if let Some(last) = self.candidate_last_activity_at_unix {
                if saturating_seconds_between(now_unix, last) > CANDIDATE_INACTIVITY_SECONDS {
                    self.clear_candidate();
                }
            }
        }
        let candidate_at: i64 = match self.candidate_started_at_unix {
            Some(candidate_at) => candidate_at,
            None => {
                return DetectorAction::Nothing;
            },
        };
        if self.open_incident_at_unix.is_some() || saturating_seconds_between(
            now_unix,
            self.started_at_unix,
        ) < MINIMUM_SESSION_AGE_SECONDS || saturating_seconds_between(now_unix, candidate_at)
            < STALL_SECONDS || self.candidate_sent_bytes < MINIMUM_CANDIDATE_SENT_BYTES
            || self.candidate_active_samples < MINIMUM_CANDIDATE_ACTIVE_SAMPLES {
            return DetectorAction::Nothing;
        }
        self.open_incident_at_unix = Some(now_unix);
        let samples = self.samples.clone();
        assert(samples@ =~= self.samples@);
        DetectorAction::RecordDetection { detected_at_unix: now_unix, samples }
    }

    /// Takes back what `observe` noted when the archive could not be written.
    pub fn action_failed(&mut self, connection_id: &str, action: &DetectorAction)
        requires
            old(self).wf(),
        ensures
            final(self).wf(),
            final(self)@ == detector_after_failure(old(self)@, connection_id@, *action),
    {
        let selected = match &self.connection_id {
            Some(current) => crate::text::same_text(current.as_str(), connection_id),
            None => false,
        };
        if !selected {
            return;
        }
        match action {
            DetectorAction::Nothing => {},
            DetectorAction::RecordRecovery { detected_at_unix, .. } => {
                if self.open_incident_at_unix.is_none() {
                    self.open_incident_at_unix = Some(*detected_at_unix);
                }
            },
            DetectorAction::RecordDetection { detected_at_unix, .. } => {
                if self.open_incident_at_unix == Some(*detected_at_unix) {
                    self.open_incident_at_unix = None;
                }
            },
        }
    }
}

/// Why a device could not be selected.
#[derive(Clone, Copy, Debug, PartialEq, Eq, Structural)]
pub struct InvalidDeviceScope;

pub open spec fn is_device_scope(device_id: Seq<char>) -> bool {
    device_id.len() > 0 && crate::text::byte_len(device_id) <= MAX_DEVICE_ID_BYTES
}

/// The detector of the current connection and the device it belongs to.
pub struct NetworkIncidentRecorder {
    pub detector: Detector,
    pub device_id: Option<String>,
    pub warning: Option<String>,
}

/// A report that can be delivered, with the names of what it holds.
pub struct NetworkIncidentSnapshot {
    pub payload: String,
    pub selection: NetworkIncidentSelection,
}

impl NetworkIncidentRecorder {
    pub open spec fn wf(self) -> bool {
        self.detector.wf()
    }

    /// A recorder that has observed nothing. `startup_warning` says what was
    /// wrong with the archive that was found, if anything was.
    pub fn new(startup_warning: Option<String>) -> (recorder: Self)
        ensures
            recorder.wf(),
            recorder.detector@ == idle_detector(),
            recorder.device_id is None,
            recorder.warning == startup_warning,
    {
        NetworkIncidentRecorder {
            detector: Detector::new(),
            device_id: None,
            warning: startup_warning,
        }
    }

    pub fn startup_warning(&self) -> (warning: &Option<String>)
        ensures
            *warning == self.warning,
    {
        &self.warning
    }

    pub fn set_current_device(&mut self, device_id: &str) -> (result: Result<
        (),
        InvalidDeviceScope,
    >)
        ensures
            final(self).detector == old(self).detector,
            final(self).warning == old(self).warning,
            result is Ok <==> is_device_scope(device_id@),
            result is Ok ==> crate::text::text_of(final(self).device_id) == Some(device_id@),
            result is Err ==> final(self).device_id == old(self).device_id,
    {
        if device_id.is_empty() || device_id.len() > MAX_DEVICE_ID_BYTES {
            return Err(InvalidDeviceScope);
        }
        self.device_id = Some(device_id.to_owned());
        Ok(())
    }

    pub fn clear_current_device(&mut self)
        ensures
            *final(self) == (NetworkIncidentRecorder { device_id: None, ..*old(self) }),
    {
        self.device_id = None;
    }

    pub fn current_device_id(&self) -> (device_id: Option<String>)
        ensures
            device_id == self.device_id,
    {
        self.device_id.clone()
    }

    pub fn reset_detector(&mut self)
        ensures
            final(self).wf(),
            final(self).detector@ == idle_detector(),
            final(self).device_id == old(self).device_id,
            final(self).warning == old(self).warning,
    {
        self.detector = Detector::new();
    }

    /// Takes in one reading of the counters and says what has to be recorded.
    pub fn observe(
        &mut self,
        connection_id: &str,
        sample: &TunnelMetrics,
        previous: Option<&TunnelMetrics>,
        now_unix: i64,
    ) -> (action: DetectorAction)
        requires
            old(self).wf(),
        ensures
            final(self).wf(),
            final(self).device_id == old(self).device_id,
            final(self).warning == old(self).warning,
            final(self).detector@ == detector_after(
                old(self).detector@,
                connection_id@,
                *sample,
                match previous {
                    Some(value) => Some(*value),
                    None => None,
                },
                now_unix,
            ),
            action_after(
                action,
                old(self).detector@,
                connection_id@,
                *sample,
                match previous {
                    Some(value) => Some(*value),
                    None => None,
                },
                now_unix,
            ),
    {
        self.detector.observe(connection_id, sample, previous, now_unix)
    }

    /// Takes back what `observe` noted when the archive could not be written.
    pub fn observation_failed(&mut self, connection_id: &str, action: &DetectorAction)
        requires
            old(self).wf(),
        ensures
            final(self).wf(),
            final(self).device_id == old(self).device_id,
            final(self).warning == old(self).warning,
            final(self).detector@ == detector_after_failure(
                old(self).detector@,
                connection_id@,
                *action,
            ),
    {
        self.detector.action_failed(connection_id, action)
    }

    /// Records a detection for the current device under a random name.
    pub fn record_detection(
        &self,
        archive: &mut NetworkIncidentArchive,
        connection_id: &str,
        detected_at_unix: i64,
        samples: Vec<NetworkIncidentSample>,
    )
        ensures
            exists|id: Seq<char>|
                crate::identifiers::is_random_identifier(id) && final(archive)@
                    == #[trigger] crate::incident_archive::archive_with_detection(
                    old(archive)@,
                    connection_id@,
                    crate::text::text_of(self.device_id),
                    id,
                    detected_at_unix,
                    samples@,
                ),
    {
        let id = crate::identifiers::random_identifier();
        let ghost name = id@;
        archive.record_detection(connection_id, &self.device_id, id, detected_at_unix, samples);
        assert(crate::identifiers::is_random_identifier(name));
    }

    pub fn record_recovery(
        &self,
        archive: &mut NetworkIncidentArchive,
        connection_id: &str,
        detected_at_unix: i64,
        recovered_at_unix: i64,
    ) -> (changed: bool)
        requires
            crate::incident_archive::incident_duration(detected_at_unix, recovered_at_unix)
                <= u64::MAX,
        ensures
            final(archive)@ == crate::incident_archive::archive_with_recovery(
                old(archive)@,
                connection_id@,
                detected_at_unix,
                recovered_at_unix,
            ),
            changed == crate::incident_archive::records_incident(
                old(archive)@,
                connection_id@,
                detected_at_unix,
            ),
    {
        archive.record_recovery(connection_id, detected_at_unix, recovered_at_unix)
    }

    /// Makes a report on `scope` out of the archive with `serialize`. There is
    /// none where no incident concerns the scope. The names are those of all
    /// selected incidents, whatever had to be left out of the report.
    pub fn snapshot<F: Fn(&NetworkIncidentArchive) -> Option<String>>(
        &self,
        archive: NetworkIncidentArchive,
        scope: SnapshotScope,
        serialize: F,
    ) -> (snapshot: Result<Option<NetworkIncidentSnapshot>, SnapshotError>)
        requires
            forall|archive: &NetworkIncidentArchive| #[trigger]
                call_requires(serialize, (archive,)),
        ensures
            snapshot matches Ok(None) <==> crate::incident_archive::selected(
                archive@,
                scope@,
            ).sessions.len() == 0,
            snapshot matches Ok(Some(snapshot)) ==> {
                let chosen = crate::incident_archive::selected(archive@, scope@);
                let incidents = crate::incident_archive::all_incidents(chosen.sessions);
                &&& crate::text::texts_of(snapshot.selection.incident_ids@)
                    == crate::incident_archive::ids_of(incidents)
                &&& crate::text::texts_of(snapshot.selection.open_incident_ids@)
                    == crate::incident_archive::open_ids_of(incidents)
                &&& crate::text::byte_len(snapshot.payload@) <= MAX_SNAPSHOT_PAYLOAD_BYTES
                &&& is_outcome(serialize, chosen, Ok::<String, SnapshotError>(snapshot.payload))
            },
            snapshot matches Err(error) ==> is_outcome(
                serialize,
                crate::incident_archive::selected(archive@, scope@),
                Err::<String, SnapshotError>(error),
            ),
    {
        let mut chosen = archive;
        let selection = match chosen.select(scope) {
            Some(selection) => selection,
            None => {
                return Ok(None);
            },
        };
        let ghost content = chosen@;
        let payload = bounded_snapshot_payload(&mut chosen, serialize);
        assert(is_outcome(serialize, content, payload));
        match payload {
            Ok(payload) => Ok(Some(NetworkIncidentSnapshot { payload, selection })),
            Err(error) => Err(error),
        }
    }

    /// Removes what a delivered report held.
    pub fn prune_snapshot(
        &self,
        archive: &mut NetworkIncidentArchive,
        connection_id: &str,
        snapshot: &NetworkIncidentSnapshot,
        retain_open: bool,
    )
        ensures
            final(archive)@ == crate::incident_archive::pruned(
                old(archive)@,
                connection_id@,
                crate::text::texts_of(snapshot.selection.incident_ids@),
                crate::text::texts_of(snapshot.selection.open_incident_ids@),
                retain_open,
            ),
    {
        archive.prune(connection_id, &snapshot.selection, retain_open)
    }
}

/// A reading without a predecessor is only a baseline: it opens no incident
/// where no unanswered traffic was seen before.
pub proof fn law_first_reading_is_only_a_baseline(
    detector: DetectorView,
    connection: Seq<char>,
    sample: TunnelMetrics,
    now_unix: i64,
)
    requires
        detector_for(detector, connection, now_unix).candidate.started_at_unix is None,
        detector_for(detector, connection, now_unix).open_incident_at_unix is None,
    ensures
        detector_after(detector, connection, sample, None, now_unix).open_incident_at_unix is None,
        detector_after(
            detector,
            connection,
            sample,
            None,
            now_unix,
        ).candidate.started_at_unix is None,
{
}

/// The detector never keeps more samples than a report may hold.
pub proof fn law_samples_stay_bounded(
    detector: DetectorView,
    connection: Seq<char>,
    sample: TunnelMetrics,
    previous: Option<TunnelMetrics>,
    now_unix: i64,
)
    requires
        detector.samples.len() <= MAX_SAMPLES,
    ensures
        detector_after(detector, connection, sample, previous, now_unix).samples.len()
            <= MAX_SAMPLES,
{
}

/// An incident is opened only on a session that is old enough, after traffic
/// that was answered by nothing for long enough, and only once.
pub proof fn law_incident_opens_only_on_a_stall(
    detector: DetectorView,
    connection: Seq<char>,
    sample: TunnelMetrics,
    previous: Option<TunnelMetrics>,
    now_unix: i64,
)
    requires
        detector_for(detector, connection, now_unix).open_incident_at_unix is None,
        detector_after(
            detector,
            connection,
            sample,
            previous,
            now_unix,
        ).open_incident_at_unix is Some,
    ensures
        ({
            let after = detector_after(detector, connection, sample, previous, now_unix);
            &&& sample_of(sample, previous, now_unix).received_delta_bytes == 0
            &&& seconds_between(now_unix, after.started_at_unix) >= MINIMUM_SESSION_AGE_SECONDS
            &&& after.candidate.sent_bytes >= MINIMUM_CANDIDATE_SENT_BYTES
            &&& after.candidate.active_samples >= MINIMUM_CANDIDATE_ACTIVE_SAMPLES
            &&& after.open_incident_at_unix == Some(now_unix)
        }),
{
}

/// Traffic that came back leaves neither an open incident nor a candidate.
pub proof fn law_received_traffic_ends_the_incident(
    detector: DetectorView,
    connection: Seq<char>,
    sample: TunnelMetrics,
    previous: Option<TunnelMetrics>,
    now_unix: i64,
)
    requires
        sample_of(sample, previous, now_unix).received_delta_bytes > 0,
    ensures
        ({
            let after = detector_after(detector, connection, sample, previous, now_unix);
            after.open_incident_at_unix is None && after.candidate == no_candidate()
        }),
{
}

/// When what a reading called for could not be written, the incident is open
/// exactly where it was open before the reading.
pub proof fn law_failed_write_restores_the_incident(
    detector: DetectorView,
    connection: Seq<char>,
    sample: TunnelMetrics,
    previous: Option<TunnelMetrics>,
    now_unix: i64,
    action: DetectorAction,
)
    requires
        action_after(action, detector, connection, sample, previous, now_unix),
    ensures
        detector_after_failure(
            detector_after(detector, connection, sample, previous, now_unix),
            connection,
            action,
        ).open_incident_at_unix == detector_for(
            detector,
            connection,
            now_unix,
        ).open_incident_at_unix,
{
}

/// A reading of another connection, or of the same after a reset, starts a
/// session of its own.
pub proof fn law_new_session_starts_afresh(
    detector: DetectorView,
    connection: Seq<char>,
    sample: TunnelMetrics,
    previous: Option<TunnelMetrics>,
    now_unix: i64,
)
    requires
        detector.connection_id != Some(connection),
    ensures
        detector_after(detector, connection, sample, previous, now_unix) == detector_after(
            idle_detector(),
            connection,
            sample,
            previous,
            now_unix,
        ),
        detector_after(
            detector,
            connection,
            sample,
            previous,
            now_unix,
        ).open_incident_at_unix is None,
{
}

} // verus!
