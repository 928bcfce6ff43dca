//! The archive of network incidents: what is recorded for each connection
//! lease, what a report selects and what is removed once it was delivered.
use crate::network_incidents::{
    NetworkIncidentSample, FORMAT_VERSION, MAXIMUM_LEGACY_ADDITIONAL_INCIDENTS,
    MAX_DETAILED_INCIDENTS, saturating_seconds_between,
};
use crate::text::same_text;
use vstd::prelude::*;

verus! {

pub struct NetworkIncidentArchive {
    pub version: u8,
    pub sessions: Vec<NetworkIncidentSession>,
    pub compaction: Option<NetworkIncidentCompaction>,
}

/// What was left out of a report to keep it small.
#[derive(Clone, Copy, Debug, PartialEq, Eq)]
pub struct NetworkIncidentCompaction {
    pub omitted_session_count: u64,
    pub omitted_incident_count: u64,
    pub first_omitted_at_unix: Option<i64>,
    pub last_omitted_at_unix: Option<i64>,
}

pub struct NetworkIncidentSession {
    pub device_id: Option<String>,
    pub connection_lease_id: String,
    pub detailed: Vec<NetworkIncident>,
    pub additional: Vec<NetworkIncidentSummary>,
    pub additional_count: u64,
    pub first_additional_at_unix: Option<i64>,
    pub last_additional_at_unix: Option<i64>,
}

pub struct NetworkIncident {
    pub id: String,
    pub kind: String,
    pub detected_at_unix: i64,
    pub recovered_at_unix: Option<i64>,
    pub duration_ms: Option<u64>,
    pub open: bool,
    pub samples: Vec<NetworkIncidentSample>,
}

pub struct NetworkIncidentSummary {
    pub id: String,
    pub kind: String,
    pub detected_at_unix: i64,
    pub recovered_at_unix: Option<i64>,
    pub duration_ms: Option<u64>,
    pub open: bool,
}

/// An archive as mathematical values.
#[verifier::ext_equal]
pub struct ArchiveView {
    pub version: u8,
    pub sessions: Seq<SessionView>,
    pub compaction: Option<NetworkIncidentCompaction>,
}

#[verifier::ext_equal]
pub struct SessionView {
    pub device_id: Option<Seq<char>>,
    pub connection_lease_id: Seq<char>,
    pub detailed: Seq<IncidentView>,
    pub additional: Seq<SummaryView>,
    pub additional_count: u64,
    pub first_additional_at_unix: Option<i64>,
    pub last_additional_at_unix: Option<i64>,
}

#[verifier::ext_equal]
pub struct IncidentView {
    pub summary: SummaryView,
    pub samples: Seq<NetworkIncidentSample>,
}

#[verifier::ext_equal]
pub struct SummaryView {
    pub id: Seq<char>,
    pub kind: Seq<char>,
    pub detected_at_unix: i64,
    pub recovered_at_unix: Option<i64>,
    pub duration_ms: Option<u64>,
    pub open: bool,
}

impl View for NetworkIncidentSummary {
    type V = SummaryView;

    open spec fn view(&self) -> SummaryView {
        SummaryView {
            id: self.id@,
            kind: self.kind@,
            detected_at_unix: self.detected_at_unix,
            recovered_at_unix: self.recovered_at_unix,
            duration_ms: self.duration_ms,
            open: self.open,
        }
    }
}

impl View for NetworkIncident {
    type V = IncidentView;

    open spec fn view(&self) -> IncidentView {
        IncidentView {
            summary: SummaryView {
                id: self.id@,
                kind: self.kind@,
                detected_at_unix: self.detected_at_unix,
                recovered_at_unix: self.recovered_at_unix,
                duration_ms: self.duration_ms,
                open: self.open,
            },
            samples: self.samples@,
        }
    }
}

pub open spec fn incidents_of(incidents: Seq<NetworkIncident>) -> Seq<IncidentView> {
    Seq::new(incidents.len(), |i: int| incidents[i]@)
}

pub open spec fn summaries_of(incidents: Seq<NetworkIncidentSummary>) -> Seq<SummaryView> {
    Seq::new(incidents.len(), |i: int| incidents[i]@)
}

pub open spec fn sessions_of(sessions: Seq<NetworkIncidentSession>) -> Seq<SessionView> {
    Seq::new(sessions.len(), |i: int| sessions[i]@)
}

impl View for NetworkIncidentSession {
    type V = SessionView;

    open spec fn view(&self) -> SessionView {
        SessionView {
            device_id: crate::text::text_of(self.device_id),
            connection_lease_id: self.connection_lease_id@,
            detailed: incidents_of(self.detailed@),
            additional: summaries_of(self.additional@),
            additional_count: self.additional_count,
            first_additional_at_unix: self.first_additional_at_unix,
            last_additional_at_unix: self.last_additional_at_unix,
        }
    }
}

impl View for NetworkIncidentArchive {
    type V = ArchiveView;

    open spec fn view(&self) -> ArchiveView {
        ArchiveView {
            version: self.version,
            sessions: sessions_of(self.sessions@),
            compaction: self.compaction,
        }
    }
}

/// An archive without incidents.
pub open spec fn empty_archive() -> ArchiveView {
    ArchiveView { version: FORMAT_VERSION, sessions: Seq::empty(), compaction: None }
}

/// The place of the first session of `lease` at or after `from`, or the number
/// of sessions where there is none.
pub open spec fn session_position(sessions: Seq<SessionView>, lease: Seq<char>, from: int) -> int
    decreases sessions.len() - from,
{
    if from >= sessions.len() {
        sessions.len() as int
    } else if sessions[from].connection_lease_id == lease {
        from
    } else {
        session_position(sessions, lease, from + 1)
    }
}

/// The place of the first detailed incident detected at `detected_at_unix`.
pub open spec fn incident_position(
    incidents: Seq<IncidentView>,
    detected_at_unix: i64,
    from: int,
) -> int
    decreases incidents.len() - from,
{
    if from >= incidents.len() {
        incidents.len() as int
    } else if incidents[from].summary.detected_at_unix == detected_at_unix {
        from
    } else {
        incident_position(incidents, detected_at_unix, from + 1)
    }
}

/// The place of the first summarised incident detected at `detected_at_unix`.
pub open spec fn summary_position(
    incidents: Seq<SummaryView>,
    detected_at_unix: i64,
    from: int,
) -> int
    decreases incidents.len() - from,
{
    if from >= incidents.len() {
        incidents.len() as int
    } else if incidents[from].detected_at_unix == detected_at_unix {
        from
    } else {
        summary_position(incidents, detected_at_unix, from + 1)
    }
}

pub open spec fn stall_kind() -> Seq<char> {
    "suspected_data_path_stall"@
}

/// An incident that has just been detected.
pub open spec fn opened(id: Seq<char>, detected_at_unix: i64) -> SummaryView {
    SummaryView {
        id,
        kind: stall_kind(),
        detected_at_unix,
        recovered_at_unix: None,
        duration_ms: None,
        open: true,
    }
}

/// A session without incidents.
pub open spec fn fresh_session(lease: Seq<char>, device: Option<Seq<char>>) -> SessionView {
    SessionView {
        device_id: device,
        connection_lease_id: lease,
        detailed: Seq::empty(),
        additional: Seq::empty(),
        additional_count: 0,
        first_additional_at_unix: None,
        last_additional_at_unix: None,
    }
}

/// The session with one more incident: in detail while there is room.
pub open spec fn session_with_detection(
    session: SessionView,
    id: Seq<char>,
    detected_at_unix: i64,
    samples: Seq<NetworkIncidentSample>,
) -> SessionView {
    if session.detailed.len() < MAX_DETAILED_INCIDENTS {
        SessionView {
            detailed: session.detailed.push(
                IncidentView { summary: opened(id, detected_at_unix), samples },
            ),
            ..session
        }
    } else {
        SessionView { additional: session.additional.push(opened(id, detected_at_unix)), ..session }
    }
}

/// The archive with a session for `lease`: an existing one learns its device
/// where it had none.
pub open spec fn archive_with_session(
    archive: ArchiveView,
    lease: Seq<char>,
    device: Option<Seq<char>>,
) -> ArchiveView {
    let position = session_position(archive.sessions, lease, 0);
    if position < archive.sessions.len() {
        let session = archive.sessions[position];
        ArchiveView {
            sessions: archive.sessions.update(
                position,
                SessionView {
                    device_id: if session.device_id is None {
                        device
                    } else {
                        session.device_id
                    },
                    ..session
                },
            ),
            ..archive
        }
    } else {
        ArchiveView { sessions: archive.sessions.push(fresh_session(lease, device)), ..archive }
    }
}

/// The archive after an incident of `lease` was detected.
pub open spec fn archive_with_detection(
    archive: ArchiveView,
    lease: Seq<char>,
    device: Option<Seq<char>>,
    id: Seq<char>,
    detected_at_unix: i64,
    samples: Seq<NetworkIncidentSample>,
) -> ArchiveView {
    let prepared = archive_with_session(archive, lease, device);
    let position = session_position(archive.sessions, lease, 0);
    ArchiveView {
        sessions: prepared.sessions.update(
            position,
            session_with_detection(prepared.sessions[position], id, detected_at_unix, samples),
        ),
        ..prepared
    }
}

/// Milliseconds from detection to recovery, never negative.
pub open spec fn incident_duration(detected_at_unix: i64, recovered_at_unix: i64) -> int {
    let seconds = crate::network_incidents::seconds_between(recovered_at_unix, detected_at_unix);
    if seconds < 0 {
        0
    } else {
        seconds * 1000
    }
}

/// The incident, closed.
pub open spec fn recovered(incident: SummaryView, recovered_at_unix: i64) -> SummaryView {
    SummaryView {
        recovered_at_unix: Some(recovered_at_unix),
        duration_ms: Some(
            incident_duration(incident.detected_at_unix, recovered_at_unix) as u64,
        ),
        open: false,
        ..incident
    }
}

/// The session after the incident detected at `detected_at_unix` recovered: a
/// detailed one if there is one, else a summarised one.
pub open spec fn session_with_recovery(
    session: SessionView,
    detected_at_unix: i64,
    recovered_at_unix: i64,
) -> SessionView {
    let detailed = incident_position(session.detailed, detected_at_unix, 0);
    let additional = summary_position(session.additional, detected_at_unix, 0);
    if detailed < session.detailed.len() {
        let incident = session.detailed[detailed];
        SessionView {
            detailed: session.detailed.update(
                detailed,
                IncidentView {
                    summary: recovered(incident.summary, recovered_at_unix),
                    ..incident
                },
            ),
            ..session
        }
    } else if additional < session.additional.len() {
        SessionView {
            additional: session.additional.update(
                additional,
                recovered(session.additional[additional], recovered_at_unix),
            ),
            ..session
        }
    } else {
        session
    }
}

/// Whether the archive holds an incident of `lease` detected at that time.
pub open spec fn records_incident(
    archive: ArchiveView,
    lease: Seq<char>,
    detected_at_unix: i64,
) -> bool {
    let position = session_position(archive.sessions, lease, 0);
    position < archive.sessions.len() && {
        let session = archive.sessions[position];
        incident_position(session.detailed, detected_at_unix, 0) < session.detailed.len()
            || summary_position(session.additional, detected_at_unix, 0) < session.additional.len()
    }
}

/// The archive after an incident of `lease` recovered.
pub open spec fn archive_with_recovery(
    archive: ArchiveView,
    lease: Seq<char>,
    detected_at_unix: i64,
    recovered_at_unix: i64,
) -> ArchiveView {
    let position = session_position(archive.sessions, lease, 0);
    if position < archive.sessions.len() {
        ArchiveView {
            sessions: archive.sessions.update(
                position,
                session_with_recovery(
                    archive.sessions[position],
                    detected_at_unix,
                    recovered_at_unix,
                ),
            ),
            ..archive
        }
    } else {
        archive
    }
}

proof fn lemma_session_position_bounds(sessions: Seq<SessionView>, lease: Seq<char>, from: int)
    requires
        0 <= from <= sessions.len(),
    ensures
        from <= session_position(sessions, lease, from) <= sessions.len(),
        session_position(sessions, lease, from) < sessions.len()
            ==> sessions[session_position(sessions, lease, from)].connection_lease_id == lease,
    decreases sessions.len() - from,
{
    if from < sessions.len() && sessions[from].connection_lease_id != lease {
        lemma_session_position_bounds(sessions, lease, from + 1);
    }
}

proof fn lemma_incident_position_bounds(incidents: Seq<IncidentView>, at: i64, from: int)
    requires
        0 <= from <= incidents.len(),
    ensures
        from <= incident_position(incidents, at, from) <= incidents.len(),
        incident_position(incidents, at, from) < incidents.len()
            ==> incidents[incident_position(incidents, at, from)].summary.detected_at_unix == at,
    decreases incidents.len() - from,
{
    if from < incidents.len() && incidents[from].summary.detected_at_unix != at {
        lemma_incident_position_bounds(incidents, at, from + 1);
    }
}

proof fn lemma_summary_position_bounds(incidents: Seq<SummaryView>, at: i64, from: int)
    requires
        0 <= from <= incidents.len(),
    ensures
        from <= summary_position(incidents, at, from) <= incidents.len(),
        summary_position(incidents, at, from) < incidents.len() ==> incidents[summary_position(
            incidents,
            at,
            from,
        )].detected_at_unix == at,
    decreases incidents.len() - from,
{
    if from < incidents.len() && incidents[from].detected_at_unix != at {
        lemma_summary_position_bounds(incidents, at, from + 1);
    }
}

impl NetworkIncidentSession {
    fn incident_position(&self, detected_at_unix: i64) -> (position: usize)
        ensures
            position == incident_position(self@.detailed, detected_at_unix, 0),
            position <= self.detailed@.len(),
    {
        let mut position: usize = 0;
        while position < self.detailed.len() && self.detailed[position].detected_at_unix
            != detected_at_unix
            invariant
                position <= self.detailed@.len(),
                incident_position(self@.detailed, detected_at_unix, 0) == incident_position(
                    self@.detailed,
                    detected_at_unix,
                    position as int,
                ),
            decreases self.detailed.len() - position,
        {
            position += 1;
        }
        position
    }

    fn summary_position(&self, detected_at_unix: i64) -> (position: usize)
        ensures
            position == summary_position(self@.additional, detected_at_unix, 0),
            position <= self.additional@.len(),
    {
        let mut position: usize = 0;
        while position < self.additional.len() && self.additional[position].detected_at_unix
            != detected_at_unix
            invariant
                position <= self.additional@.len(),
                summary_position(self@.additional, detected_at_unix, 0) == summary_position(
                    self@.additional,
                    detected_at_unix,
                    position as int,
                ),
            decreases self.additional.len() - position,
        {
            position += 1;
        }
        position
    }

    fn record_detection(
        &mut self,
        id: String,
        detected_at_unix: i64,
        samples: Vec<NetworkIncidentSample>,
    )
        ensures
            final(self)@ == session_with_detection(old(self)@, id@, detected_at_unix, samples@),
    {
        let ghost before = self@;
        let kind = "suspected_data_path_stall".to_owned();
        if self.detailed.len() < MAX_DETAILED_INCIDENTS {
            self.detailed.push(
                NetworkIncident {
                    id,
                    kind,
                    detected_at_unix,
                    recovered_at_unix: None,
                    duration_ms: None,
                    open: true,
                    samples,
                },
            );
        } else {
            self.additional.push(
                NetworkIncidentSummary {
                    id,
                    kind,
                    detected_at_unix,
                    recovered_at_unix: None,
                    duration_ms: None,
                    open: true,
                },
            );
        }
        assert(self@ =~~= session_with_detection(before, id@, detected_at_unix, samples@));
    }

    fn record_recovery(&mut self, detected_at_unix: i64, recovered_at_unix: i64) -> (found: bool)
        requires
            incident_duration(detected_at_unix, recovered_at_unix) <= u64::MAX,
        ensures
            final(self)@ == session_with_recovery(old(self)@, detected_at_unix, recovered_at_unix),
            found == (incident_position(old(self)@.detailed, detected_at_unix, 0)
                < old(self)@.detailed.len() || summary_position(
                old(self)@.additional,
                detected_at_unix,
                0,
            ) < old(self)@.additional.len()),
    {
        let ghost before = self@;
        let seconds: i64 = saturating_seconds_between(recovered_at_unix, detected_at_unix);
        let duration_ms: u64 = if seconds < 0 {
            0
        } else {
            seconds as u64 * 1_000
        };
        let detailed: usize = self.incident_position(detected_at_unix);
        proof {
            lemma_incident_position_bounds(before.detailed, detected_at_unix, 0);
            lemma_summary_position_bounds(before.additional, detected_at_unix, 0);
        }
        if detailed < self.detailed.len() {
            let incident = &mut self.detailed[detailed];
            incident.recovered_at_unix = Some(recovered_at_unix);
            incident.duration_ms = Some(duration_ms);
            incident.open = false;
            assert(self@ =~~= session_with_recovery(before, detected_at_unix, recovered_at_unix));
            return true;
        }
        let additional: usize = self.summary_position(detected_at_unix);
        if additional < self.additional.len() {
            let incident = &mut self.additional[additional];
            incident.recovered_at_unix = Some(recovered_at_unix);
            incident.duration_ms = Some(duration_ms);
            incident.open = false;
            assert(self@ =~~= session_with_recovery(before, detected_at_unix, recovered_at_unix));
            return true;
        }
        false
    }
}

impl NetworkIncidentArchive {
    pub fn new() -> (archive: Self)
        ensures
            archive@ == empty_archive(),
    {
        let archive = NetworkIncidentArchive {
            version: FORMAT_VERSION,
            sessions: Vec::new(),
            compaction: None,
        };
        assert(archive@ =~~= empty_archive());
        archive
    }

    /// Whether an archive that was read can be used as it is.
    pub fn is_supported(&self) -> (supported: bool)
        ensures
            supported == (self@.version == FORMAT_VERSION),
    {
        self.version == FORMAT_VERSION
    }

    fn session_position(&self, connection_id: &str) -> (position: usize)
        ensures
            position == session_position(self@.sessions, connection_id@, 0),
            position <= self.sessions@.len(),
    {
        let mut position: usize = 0;
        while position < self.sessions.len() && !same_text(
            self.sessions[position].connection_lease_id.as_str(),
            connection_id,
        )
            invariant
                position <= self.sessions@.len(),
                session_position(self@.sessions, connection_id@, 0) == session_position(
                    self@.sessions,
                    connection_id@,
                    position as int,
                ),
            decreases self.sessions.len() - position,
        {
            position += 1;
        }
        position
    }

    /// Finds or adds the session of `connection_id` and returns its place.
    fn archive_session(&mut self, connection_id: &str, device_id: &Option<String>) -> (position:
        usize)
        ensures
            final(self)@ == archive_with_session(
                old(self)@,
                connection_id@,
                crate::text::text_of(*device_id),
            ),
            position == session_position(old(self)@.sessions, connection_id@, 0),
            position < final(self)@.sessions.len(),
    {
        let ghost before = self@;
        let position: usize = self.session_position(connection_id);
        if position < self.sessions.len() {
            if self.sessions[position].device_id.is_none() {
                self.sessions[position].device_id = device_id.clone();
            }
        } else {
            self.sessions.push(
                NetworkIncidentSession {
                    device_id: device_id.clone(),
                    connection_lease_id: connection_id.to_owned(),
                    detailed: Vec::new(),
                    additional: Vec::new(),
                    additional_count: 0,
                    first_additional_at_unix: None,
                    last_additional_at_unix: None,
                },
            );
        }
        assert(self@ =~~= archive_with_session(
            before,
            connection_id@,
            crate::text::text_of(*device_id),
        ));
        position
    }

    /// Records that the data path of `connection_id` stalled. `id` names the
    /// incident and is chosen by the caller.
    pub fn record_detection(
        &mut self,
        connection_id: &str,
        device_id: &Option<String>,
        id: String,
        detected_at_unix: i64,
        samples: Vec<NetworkIncidentSample>,
    )
        ensures
            final(self)@ == archive_with_detection(
                old(self)@,
                connection_id@,
                crate::text::text_of(*device_id),
                id@,
                detected_at_unix,
                samples@,
            ),
    {
        let ghost before = self@;
        let position: usize = self.archive_session(connection_id, device_id);
        self.sessions[position].record_detection(id, detected_at_unix, samples);
        assert(self@ =~~= archive_with_detection(
            before,
            connection_id@,
            crate::text::text_of(*device_id),
            id@,
            detected_at_unix,
            samples@,
        ));
    }

    /// Records that an incident recovered and says whether the archive changed.
    pub fn record_recovery(
        &mut self,
        connection_id: &str,
        detected_at_unix: i64,
        recovered_at_unix: i64,
    ) -> (changed: bool)
        requires
            incident_duration(detected_at_unix, recovered_at_unix) <= u64::MAX,
        ensures
            final(self)@ == archive_with_recovery(
                old(self)@,
                connection_id@,
                detected_at_unix,
                recovered_at_unix,
            ),
            changed == records_incident(old(self)@, connection_id@, detected_at_unix),
    {
        let ghost before = self@;
        let position: usize = self.session_position(connection_id);
        if position >= self.sessions.len() {
            return false;
        }
        let changed = self.sessions[position].record_recovery(detected_at_unix, recovered_at_unix);
        assert(self@ =~~= archive_with_recovery(
            before,
            connection_id@,
            detected_at_unix,
            recovered_at_unix,
        ));
        changed
    }
}

/// Whether `value` lies between the given limits, each of which may be absent.
pub open spec fn in_interval(value: i64, started_at: Option<i64>, ended_at: Option<i64>) -> bool {
    &&& started_at matches Some(start) ==> value >= start
    &&& ended_at matches Some(end) ==> value <= end
}

pub fn timestamp_in_interval(value: i64, started_at: Option<i64>, ended_at: Option<i64>) -> (inside:
    bool)
    ensures
        inside == in_interval(value, started_at, ended_at),
{
    let after_start = match started_at {
        Some(start) => value >= start,
        None => true,
    };
    let before_end = match ended_at {
        Some(end) => value <= end,
        None => true,
    };
    after_start && before_end
}

/// Whether a report on the interval has to mention the incident: it is still
/// open, or it was detected or recovered in that time.
pub open spec fn concerns(
    incident: SummaryView,
    started_at: Option<i64>,
    ended_at: Option<i64>,
) -> bool {
    ||| incident.open
    ||| in_interval(incident.detected_at_unix, started_at, ended_at)
    ||| (incident.recovered_at_unix matches Some(recovered_at) && in_interval(
        recovered_at,
        started_at,
        ended_at,
    ))
}

/// Which incidents a report asks for. An absent field asks for all.
#[derive(Clone, Copy)]
pub struct SnapshotScope<'a> {
    pub connection_id: Option<&'a str>,
    pub device_id: Option<&'a str>,
    pub started_at_unix: Option<i64>,
    pub ended_at_unix: Option<i64>,
}

pub struct ScopeView {
    pub connection_id: Option<Seq<char>>,
    pub device_id: Option<Seq<char>>,
    pub started_at_unix: Option<i64>,
    pub ended_at_unix: Option<i64>,
}

impl<'a> View for SnapshotScope<'a> {
    type V = ScopeView;

    open spec fn view(&self) -> ScopeView {
        ScopeView {
            connection_id: match self.connection_id {
                Some(value) => Some(value@),
                None => None,
            },
            device_id: match self.device_id {
                Some(value) => Some(value@),
                None => None,
            },
            started_at_unix: self.started_at_unix,
            ended_at_unix: self.ended_at_unix,
        }
    }
}

pub open spec fn in_scope(session: SessionView, scope: ScopeView) -> bool {
    &&& scope.connection_id matches Some(value) ==> session.connection_lease_id == value
    &&& scope.device_id matches Some(value) ==> session.device_id == Some(value)
}

pub open spec fn has_incidents(session: SessionView) -> bool {
    session.detailed.len() > 0 || session.additional.len() > 0
}

/// The session with only the incidents that concern the interval.
pub open spec fn restricted(session: SessionView, scope: ScopeView) -> SessionView {
    SessionView {
        detailed: session.detailed.filter(
            |incident: IncidentView|
                concerns(incident.summary, scope.started_at_unix, scope.ended_at_unix),
        ),
        additional: session.additional.filter(
            |incident: SummaryView|
                concerns(incident, scope.started_at_unix, scope.ended_at_unix),
        ),
        ..session
    }
}

/// The part of the archive that a report on `scope` has to hold.
pub open spec fn selected(archive: ArchiveView, scope: ScopeView) -> ArchiveView {
    ArchiveView {
        sessions: archive.sessions.filter(
            |session: SessionView| in_scope(session, scope),
        ).map_values(|session: SessionView| restricted(session, scope)).filter(
            |session: SessionView| has_incidents(session),
        ),
        ..archive
    }
}

/// Names of the incidents of a session, detailed ones first.
pub open spec fn session_incidents(session: SessionView) -> Seq<SummaryView> {
    Seq::new(session.detailed.len(), |i: int| session.detailed[i].summary) + session.additional
}

/// All incidents of some sessions, in order.
pub open spec fn all_incidents(sessions: Seq<SessionView>) -> Seq<SummaryView>
    decreases sessions.len(),
{
    if sessions.len() == 0 {
        Seq::empty()
    } else {
        all_incidents(sessions.drop_last()) + session_incidents(sessions.last())
    }
}

pub open spec fn ids_of(incidents: Seq<SummaryView>) -> Seq<Seq<char>> {
    incidents.map_values(|incident: SummaryView| incident.id)
}

pub open spec fn open_ids_of(incidents: Seq<SummaryView>) -> Seq<Seq<char>> {
    ids_of(incidents.filter(|incident: SummaryView| incident.open))
}

/// What a report has to be kept in step with once it was delivered.
pub struct NetworkIncidentSelection {
    pub incident_ids: Vec<String>,
    pub open_incident_ids: Vec<String>,
}

/// Whether delivering a report on `selection` removes the incident `id`.
pub open spec fn is_pruned(
    id: Seq<char>,
    incident_ids: Seq<Seq<char>>,
    open_incident_ids: Seq<Seq<char>>,
    retain_open: bool,
) -> bool {
    incident_ids.contains(id) && !(retain_open && open_incident_ids.contains(id))
}

pub open spec fn pruned_session(
    session: SessionView,
    lease: Seq<char>,
    incident_ids: Seq<Seq<char>>,
    open_incident_ids: Seq<Seq<char>>,
    retain_open: bool,
) -> SessionView {
    if session.connection_lease_id != lease {
        session
    } else {
        SessionView {
            detailed: session.detailed.filter(
                |incident: IncidentView|
                    !is_pruned(incident.summary.id, incident_ids, open_incident_ids, retain_open),
            ),
            additional: session.additional.filter(
                |incident: SummaryView|
                    !is_pruned(incident.id, incident_ids, open_incident_ids, retain_open),
            ),
            ..session
        }
    }
}

/// The archive after a report of `lease` was delivered.
pub open spec fn pruned(
    archive: ArchiveView,
    lease: Seq<char>,
    incident_ids: Seq<Seq<char>>,
    open_incident_ids: Seq<Seq<char>>,
    retain_open: bool,
) -> ArchiveView {
    ArchiveView {
        sessions: archive.sessions.map_values(
            |session: SessionView|
                pruned_session(session, lease, incident_ids, open_incident_ids, retain_open),
        ).filter(|session: SessionView| has_incidents(session)),
        ..archive
    }
}

fn contains_text(values: &Vec<String>, text: &str) -> (found: bool)
    ensures
        found == crate::text::texts_of(values@).contains(text@),
{
    let mut index: usize = 0;
    while index < values.len()
        invariant
            index <= values@.len(),
            forall|i: int| 0 <= i < index ==> crate::text::texts_of(values@)[i] != text@,
        decreases values.len() - index,
    {
        if same_text(values[index].as_str(), text) {
            assert(crate::text::texts_of(values@)[index as int] == text@);
            return true;
        }
        index += 1;
    }
    false
}

impl NetworkIncidentSession {
    fn is_in_scope(&self, scope: SnapshotScope) -> (inside: bool)
        ensures
            inside == in_scope(self@, scope@),
    {
        if let Some(connection_id) = scope.connection_id {
            if !same_text(self.connection_lease_id.as_str(), connection_id) {
                return false;
            }
        }
        match (scope.device_id, &self.device_id) {
            (Some(wanted), Some(device_id)) => same_text(device_id.as_str(), wanted),
            (Some(_), None) => false,
            (None, _) => true,
        }
    }

    fn has_incidents(&self) -> (result: bool)
        ensures
            result == has_incidents(self@),
    {
        self.detailed.len() > 0 || self.additional.len() > 0
    }

    fn restrict(&mut self, scope: SnapshotScope)
        ensures
            final(self)@ == restricted(old(self)@, scope@),
    {
        let ghost before = self@;
        let mut detailed: Vec<NetworkIncident> = Vec::new();
        std::mem::swap(&mut detailed, &mut self.detailed);
        self.detailed = incidents_in_interval(
            detailed,
            scope.started_at_unix,
            scope.ended_at_unix,
        );
        let mut additional: Vec<NetworkIncidentSummary> = Vec::new();
        std::mem::swap(&mut additional, &mut self.additional);
        self.additional = summaries_in_interval(
            additional,
            scope.started_at_unix,
            scope.ended_at_unix,
        );
        assert(self@ =~= restricted(before, scope@));
    }

    fn prune(&mut self, connection_id: &str, selection: &NetworkIncidentSelection, retain_open: bool)
        ensures
            final(self)@ == pruned_session(
                old(self)@,
                connection_id@,
                crate::text::texts_of(selection.incident_ids@),
                crate::text::texts_of(selection.open_incident_ids@),
                retain_open,
            ),
    {
        let ghost before = self@;
        if !same_text(self.connection_lease_id.as_str(), connection_id) {
            return;
        }
        let mut detailed: Vec<NetworkIncident> = Vec::new();
        std::mem::swap(&mut detailed, &mut self.detailed);
        self.detailed = retained_incidents(detailed, selection, retain_open);
        let mut additional: Vec<NetworkIncidentSummary> = Vec::new();
        std::mem::swap(&mut additional, &mut self.additional);
        self.additional = retained_summaries(additional, selection, retain_open);
        assert(self@ =~= pruned_session(
            before,
            connection_id@,
            crate::text::texts_of(selection.incident_ids@),
            crate::text::texts_of(selection.open_incident_ids@),
            retain_open,
        ));
    }
}

fn concerns_interval(
    open: bool,
    detected_at_unix: i64,
    recovered_at_unix: Option<i64>,
    started_at: Option<i64>,
    ended_at: Option<i64>,
) -> (result: bool)
    ensures
        result == (open || in_interval(detected_at_unix, started_at, ended_at) || (
        recovered_at_unix matches Some(recovered_at) && in_interval(
            recovered_at,
            started_at,
            ended_at,
        ))),
{
    if open || timestamp_in_interval(detected_at_unix, started_at, ended_at) {
        return true;
    }
    match recovered_at_unix {
        Some(recovered_at) => timestamp_in_interval(recovered_at, started_at, ended_at),
        None => false,
    }
}

fn incidents_in_interval(
    incidents: Vec<NetworkIncident>,
    started_at: Option<i64>,
    ended_at: Option<i64>,
) -> (kept: Vec<NetworkIncident>)
    ensures
        incidents_of(kept@) == incidents_of(incidents@).filter(
            |incident: IncidentView| concerns(incident.summary, started_at, ended_at),
        ),
{
    let ghost all = incidents_of(incidents@);
    let ghost wanted = |incident: IncidentView| concerns(incident.summary, started_at, ended_at);
    let mut kept: Vec<NetworkIncident> = Vec::new();
    for incident in iter: incidents
        invariant
            iter.seq() == incidents@,
            all == incidents_of(incidents@),
            wanted == (|incident: IncidentView| concerns(incident.summary, started_at, ended_at)),
            incidents_of(kept@) == all.take(iter.index() as int).filter(wanted),
    {
        let ghost index = iter.index() as int;
        let ghost before = kept@;
        reveal(Seq::filter);
        assert(all.take(index + 1).drop_last() =~= all.take(index));
        if concerns_interval(
            incident.open,
            incident.detected_at_unix,
            incident.recovered_at_unix,
            started_at,
            ended_at,
        ) {
            kept.push(incident);
            assert(incidents_of(kept@) =~= incidents_of(before).push(all[index]));
        }
    }
    assert(all.take(all.len() as int) =~= all);
    kept
}

fn summaries_in_interval(
    incidents: Vec<NetworkIncidentSummary>,
    started_at: Option<i64>,
    ended_at: Option<i64>,
) -> (kept: Vec<NetworkIncidentSummary>)
    ensures
        summaries_of(kept@) == summaries_of(incidents@).filter(
            |incident: SummaryView| concerns(incident, started_at, ended_at),
        ),
{
    let ghost all = summaries_of(incidents@);
    let ghost wanted = |incident: SummaryView| concerns(incident, started_at, ended_at);
    let mut kept: Vec<NetworkIncidentSummary> = Vec::new();
    for incident in iter: incidents
        invariant
            iter.seq() == incidents@,
            all == summaries_of(incidents@),
            wanted == (|incident: SummaryView| concerns(incident, started_at, ended_at)),
            summaries_of(kept@) == all.take(iter.index() as int).filter(wanted),
    {
        let ghost index = iter.index() as int;
        let ghost before = kept@;
        reveal(Seq::filter);
        assert(all.take(index + 1).drop_last() =~= all.take(index));
        if concerns_interval(
            incident.open,
            incident.detected_at_unix,
            incident.recovered_at_unix,
            started_at,
            ended_at,
        ) {
            kept.push(incident);
            assert(summaries_of(kept@) =~= summaries_of(before).push(all[index]));
        }
    }
    assert(all.take(all.len() as int) =~= all);
    kept
}

fn prunes(id: &String, selection: &NetworkIncidentSelection, retain_open: bool) -> (result: bool)
    ensures
        result == is_pruned(
            id@,
            crate::text::texts_of(selection.incident_ids@),
            crate::text::texts_of(selection.open_incident_ids@),
            retain_open,
        ),
{
    contains_text(&selection.incident_ids, id.as_str()) && !(retain_open && contains_text(
        &selection.open_incident_ids,
        id.as_str(),
    ))
}

fn retained_incidents(
    incidents: Vec<NetworkIncident>,
    selection: &NetworkIncidentSelection,
    retain_open: bool,
) -> (kept: Vec<NetworkIncident>)
    ensures
        incidents_of(kept@) == incidents_of(incidents@).filter(
            |incident: IncidentView|
                !is_pruned(
                    incident.summary.id,
                    crate::text::texts_of(selection.incident_ids@),
                    crate::text::texts_of(selection.open_incident_ids@),
                    retain_open,
                ),
        ),
{
    let ghost all = incidents_of(incidents@);
    let ghost wanted = |incident: IncidentView|
        !is_pruned(
            incident.summary.id,
            crate::text::texts_of(selection.incident_ids@),
            crate::text::texts_of(selection.open_incident_ids@),
            retain_open,
        );
    let mut kept: Vec<NetworkIncident> = Vec::new();
    for incident in iter: incidents
        invariant
            iter.seq() == incidents@,
            all == incidents_of(incidents@),
            wanted == (|incident: IncidentView|
                !is_pruned(
                    incident.summary.id,
                    crate::text::texts_of(selection.incident_ids@),
                    crate::text::texts_of(selection.open_incident_ids@),
                    retain_open,
                )),
            incidents_of(kept@) == all.take(iter.index() as int).filter(wanted),
    {
        let ghost index = iter.index() as int;
        let ghost before = kept@;
        reveal(Seq::filter);
        assert(all.take(index + 1).drop_last() =~= all.take(index));
        if !prunes(&incident.id, selection, retain_open) {
            kept.push(incident);
            assert(incidents_of(kept@) =~= incidents_of(before).push(all[index]));
        }
    }
    assert(all.take(all.len() as int) =~= all);
    kept
}

fn retained_summaries(
    incidents: Vec<NetworkIncidentSummary>,
    selection: &NetworkIncidentSelection,
    retain_open: bool,
) -> (kept: Vec<NetworkIncidentSummary>)
    ensures
        summaries_of(kept@) == summaries_of(incidents@).filter(
            |incident: SummaryView|
                !is_pruned(
                    incident.id,
                    crate::text::texts_of(selection.incident_ids@),
                    crate::text::texts_of(selection.open_incident_ids@),
                    retain_open,
                ),
        ),
{
    let ghost all = summaries_of(incidents@);
    let ghost wanted = |incident: SummaryView|
        !is_pruned(
            incident.id,
            crate::text::texts_of(selection.incident_ids@),
            crate::text::texts_of(selection.open_incident_ids@),
            retain_open,
        );
    let mut kept: Vec<NetworkIncidentSummary> = Vec::new();
    for incident in iter: incidents
        invariant
            iter.seq() == incidents@,
            all == summaries_of(incidents@),
            wanted == (|incident: SummaryView|
                !is_pruned(
                    incident.id,
                    crate::text::texts_of(selection.incident_ids@),
                    crate::text::texts_of(selection.open_incident_ids@),
                    retain_open,
                )),
            summaries_of(kept@) == all.take(iter.index() as int).filter(wanted),
    {
        let ghost index = iter.index() as int;
        let ghost before = kept@;
        reveal(Seq::filter);
        assert(all.take(index + 1).drop_last() =~= all.take(index));
        if !prunes(&incident.id, selection, retain_open) {
            kept.push(incident);
            assert(summaries_of(kept@) =~= summaries_of(before).push(all[index]));
        }
    }
    assert(all.take(all.len() as int) =~= all);
    kept
}

/// Adds the names of the incidents of one session.
fn collect_ids(
    session: &NetworkIncidentSession,
    incident_ids: &mut Vec<String>,
    open_incident_ids: &mut Vec<String>,
    Ghost(seen): Ghost<Seq<SummaryView>>,
)
    requires
        crate::text::texts_of(old(incident_ids)@) == ids_of(seen),
        crate::text::texts_of(old(open_incident_ids)@) == open_ids_of(seen),
    ensures
        crate::text::texts_of(final(incident_ids)@) == ids_of(seen + session_incidents(session@)),
        crate::text::texts_of(final(open_incident_ids)@) == open_ids_of(seen + session_incidents(session@)),
{
    let ghost own = session_incidents(session@);
    assert(seen + own.take(0) =~= seen);
    let mut index: usize = 0;
    while index < session.detailed.len()
        invariant
            index <= session.detailed@.len(),
            own == session_incidents(session@),
            crate::text::texts_of(incident_ids@) == ids_of(seen + own.take(index as int)),
            crate::text::texts_of(open_incident_ids@) == open_ids_of(seen + own.take(index as int)),
        decreases session.detailed.len() - index,
    {
        let incident = &session.detailed[index];
        proof {
            lemma_ids_of_next(seen, own, index as int);
        }
        push_id(&incident.id, incident.open, incident_ids, open_incident_ids);
        assert(own[index as int] == incident@.summary);
        index += 1;
    }
    let mut rest: usize = 0;
    while rest < session.additional.len()
        invariant
            rest <= session.additional@.len(),
            own == session_incidents(session@),
            crate::text::texts_of(incident_ids@) == ids_of(
                seen + own.take(session.detailed@.len() + rest as int),
            ),
            crate::text::texts_of(open_incident_ids@) == open_ids_of(
                seen + own.take(session.detailed@.len() + rest as int),
            ),
        decreases session.additional.len() - rest,
    {
        let incident = &session.additional[rest];
        proof {
            lemma_ids_of_next(seen, own, session.detailed@.len() + rest as int);
        }
        assert(own[session.detailed@.len() + rest as int] == incident@);
        push_id(&incident.id, incident.open, incident_ids, open_incident_ids);
        rest += 1;
    }
    assert(own.take(own.len() as int) =~= own);
}

proof fn lemma_ids_of_next(seen: Seq<SummaryView>, own: Seq<SummaryView>, index: int)
    requires
        0 <= index < own.len(),
    ensures
        ids_of(seen + own.take(index + 1)) == ids_of(seen + own.take(index)).push(own[index].id),
        open_ids_of(seen + own.take(index + 1)) == if own[index].open {
            open_ids_of(seen + own.take(index)).push(own[index].id)
        } else {
            open_ids_of(seen + own.take(index))
        },
{
    reveal(Seq::filter);
    let longer = seen + own.take(index + 1);
    assert(longer.drop_last() =~= seen + own.take(index));
    assert(longer.last() == own[index]);
    assert(ids_of(longer) =~= ids_of(longer.drop_last()).push(own[index].id));
    let open = |incident: SummaryView| incident.open;
    if own[index].open {
        assert(longer.filter(open) =~= longer.drop_last().filter(open).push(own[index]));
        assert(ids_of(longer.filter(open)) =~= ids_of(longer.drop_last().filter(open)).push(
            own[index].id,
        ));
    }
}

fn push_id(
    id: &String,
    open: bool,
    incident_ids: &mut Vec<String>,
    open_incident_ids: &mut Vec<String>,
)
    ensures
        crate::text::texts_of(final(incident_ids)@) == crate::text::texts_of(old(incident_ids)@).push(id@),
        crate::text::texts_of(final(open_incident_ids)@) == if open {
            crate::text::texts_of(old(open_incident_ids)@).push(id@)
        } else {
            crate::text::texts_of(old(open_incident_ids)@)
        },
{
    incident_ids.push(id.clone());
    assert(crate::text::texts_of(incident_ids@) =~= crate::text::texts_of(old(incident_ids)@).push(id@));
    if open {
        open_incident_ids.push(id.clone());
        assert(crate::text::texts_of(open_incident_ids@) =~= crate::text::texts_of(old(open_incident_ids)@).push(id@));
    }
}

impl NetworkIncidentArchive {
    /// Keeps what a report on `scope` has to hold and names its incidents, or
    /// returns nothing where there is nothing to report.
    pub fn select(&mut self, scope: SnapshotScope) -> (selection: Option<NetworkIncidentSelection>)
        ensures
            final(self)@ == selected(old(self)@, scope@),
            selection is None <==> selected(old(self)@, scope@).sessions.len() == 0,
            selection matches Some(selection) ==> {
                let incidents = all_incidents(selected(old(self)@, scope@).sessions);
                &&& crate::text::texts_of(selection.incident_ids@) == ids_of(incidents)
                &&& crate::text::texts_of(selection.open_incident_ids@) == open_ids_of(incidents)
            },
    {
        let ghost before = self@;
        let ghost inside = |session: SessionView| in_scope(session, scope@);
        let ghost narrow = |session: SessionView| restricted(session, scope@);
        let ghost useful = |session: SessionView| has_incidents(session);
        let mut sessions: Vec<NetworkIncidentSession> = Vec::new();
        std::mem::swap(&mut sessions, &mut self.sessions);
        let ghost all = sessions_of(sessions@);
        let mut kept: Vec<NetworkIncidentSession> = Vec::new();
        let mut incident_ids: Vec<String> = Vec::new();
        let mut open_incident_ids: Vec<String> = Vec::new();
        proof {
            reveal(Seq::filter);
            assert(all.take(0).filter(inside).map_values(narrow) =~= Seq::empty());
            assert(sessions_of(kept@) =~= all.take(0).filter(inside).map_values(narrow).filter(
                useful,
            ));
            assert(crate::text::texts_of(incident_ids@) =~= ids_of(all_incidents(sessions_of(kept@))));
            assert(crate::text::texts_of(open_incident_ids@) =~= open_ids_of(all_incidents(sessions_of(kept@))));
        }
        for session in iter: sessions
            invariant
                iter.seq() == sessions@,
                all == sessions_of(sessions@),
                inside == (|session: SessionView| in_scope(session, scope@)),
                narrow == (|session: SessionView| restricted(session, scope@)),
                useful == (|session: SessionView| has_incidents(session)),
                sessions_of(kept@) == all.take(iter.index() as int).filter(inside).map_values(
                    narrow,
                ).filter(useful),
                crate::text::texts_of(incident_ids@) == ids_of(all_incidents(sessions_of(kept@))),
                crate::text::texts_of(open_incident_ids@) == open_ids_of(all_incidents(sessions_of(kept@))),
        {
            let ghost index = iter.index() as int;
            let ghost earlier = kept@;
            proof {
                lemma_select_next(all, index, inside, narrow, useful);
            }
            if session.is_in_scope(scope) {
                let mut session = session;
                session.restrict(scope);
                if session.has_incidents() {
                    collect_ids(
                        &session,
                        &mut incident_ids,
                        &mut open_incident_ids,
                        Ghost(all_incidents(sessions_of(kept@))),
                    );
                    kept.push(session);
                    assert(sessions_of(kept@) =~= sessions_of(earlier).push(session@));
                    assert(sessions_of(kept@).drop_last() =~= sessions_of(earlier));
                }
            }
        }
        assert(all.take(all.len() as int) =~= all);
        self.sessions = kept;
        assert(self@ =~= selected(before, scope@));
        if self.sessions.len() == 0 {
            return None;
        }
        Some(NetworkIncidentSelection { incident_ids, open_incident_ids })
    }

    /// Removes what a delivered report held. Incidents that were open in it may
    /// be kept, for their recovery has not been reported.
    pub fn prune(
        &mut self,
        connection_id: &str,
        selection: &NetworkIncidentSelection,
        retain_open: bool,
    )
        ensures
            final(self)@ == pruned(
                old(self)@,
                connection_id@,
                crate::text::texts_of(selection.incident_ids@),
                crate::text::texts_of(selection.open_incident_ids@),
                retain_open,
            ),
    {
        let ghost before = self@;
        let ghost incident_ids = crate::text::texts_of(selection.incident_ids@);
        let ghost open_incident_ids = crate::text::texts_of(selection.open_incident_ids@);
        let ghost shrink = |session: SessionView|
            pruned_session(
                session,
                connection_id@,
                incident_ids,
                open_incident_ids,
                retain_open,
            );
        let ghost useful = |session: SessionView| has_incidents(session);
        let mut sessions: Vec<NetworkIncidentSession> = Vec::new();
        std::mem::swap(&mut sessions, &mut self.sessions);
        let ghost all = sessions_of(sessions@);
        let mut kept: Vec<NetworkIncidentSession> = Vec::new();
        proof {
            reveal(Seq::filter);
            assert(all.take(0).map_values(shrink) =~= Seq::empty());
            assert(sessions_of(kept@) =~= all.take(0).map_values(shrink).filter(useful));
        }
        for session in iter: sessions
            invariant
                iter.seq() == sessions@,
                all == sessions_of(sessions@),
                incident_ids == crate::text::texts_of(selection.incident_ids@),
                open_incident_ids == crate::text::texts_of(selection.open_incident_ids@),
                shrink == (|session: SessionView|
                    pruned_session(
                        session,
                        connection_id@,
                        incident_ids,
                        open_incident_ids,
                        retain_open,
                    )),
                useful == (|session: SessionView| has_incidents(session)),
                sessions_of(kept@) == all.take(iter.index() as int).map_values(shrink).filter(
                    useful,
                ),
        {
            let ghost index = iter.index() as int;
            let ghost earlier = kept@;
            proof {
                reveal(Seq::filter);
                let longer = all.take(index + 1).map_values(shrink);
                assert(longer.drop_last() =~= all.take(index).map_values(shrink));
                assert(longer.last() == shrink(all[index]));
            }
            let mut session = session;
            session.prune(connection_id, selection, retain_open);
            if session.has_incidents() {
                kept.push(session);
                assert(sessions_of(kept@) =~= sessions_of(earlier).push(session@));
            }
        }
        assert(all.take(all.len() as int) =~= all);
        self.sessions = kept;
        assert(self@ =~= pruned(
            before,
            connection_id@,
            incident_ids,
            open_incident_ids,
            retain_open,
        ));
    }
}

proof fn lemma_select_next(
    all: Seq<SessionView>,
    index: int,
    inside: spec_fn(SessionView) -> bool,
    narrow: spec_fn(SessionView) -> SessionView,
    useful: spec_fn(SessionView) -> bool,
)
    requires
        0 <= index < all.len(),
    ensures
        all.take(index + 1).filter(inside).map_values(narrow).filter(useful) == if inside(
            all[index],
        ) && useful(narrow(all[index])) {
            all.take(index).filter(inside).map_values(narrow).filter(useful).push(
                narrow(all[index]),
            )
        } else {
            all.take(index).filter(inside).map_values(narrow).filter(useful)
        },
{
    reveal(Seq::filter);
    let shorter = all.take(index).filter(inside);
    assert(all.take(index + 1).drop_last() =~= all.take(index));
    if inside(all[index]) {
        let longer = shorter.push(all[index]);
        assert(all.take(index + 1).filter(inside) =~= longer);
        assert(longer.map_values(narrow) =~= shorter.map_values(narrow).push(narrow(all[index])));
        assert(longer.map_values(narrow).drop_last() =~= shorter.map_values(narrow));
    }
}

/// The time given to the incident number `index` of a session whose incidents
/// were once only counted: they are spread evenly between the first and the
/// last time that was kept.
pub open spec fn legacy_time(session: SessionView, index: int) -> i64 {
    let first = match session.first_additional_at_unix {
        Some(first) => first,
        None => match session.last_additional_at_unix {
            Some(last) => last,
            None => 0,
        },
    };
    let last = match session.last_additional_at_unix {
        Some(last) => if last >= first {
            last
        } else {
            first
        },
        None => first,
    };
    let span = clamp_i64(last - first);
    let denominator = if session.additional_count <= 2 {
        1
    } else {
        session.additional_count - 1
    };
    clamp_i64(first + clamp_i64(span * index) / denominator) as i64
}

pub open spec fn clamp_i64(value: int) -> int {
    if value > i64::MAX {
        i64::MAX as int
    } else if value < i64::MIN {
        i64::MIN as int
    } else {
        value
    }
}

/// An incident that had no name has one now; nothing else changed.
pub open spec fn named(before: SummaryView, after: SummaryView) -> bool {
    if before.id.len() == 0 {
        &&& crate::identifiers::is_random_identifier(after.id)
        &&& after == SummaryView { id: after.id, ..before }
    } else {
        after == before
    }
}

/// A session whose incidents all have names and are all listed.
pub open spec fn prepared_session(before: SessionView, after: SessionView) -> bool {
    let listed = before.additional.len();
    &&& after.device_id == before.device_id
    &&& after.connection_lease_id == before.connection_lease_id
    &&& after.detailed.len() == before.detailed.len()
    &&& forall|i: int|
        0 <= i < before.detailed.len() ==> {
            &&& named(before.detailed[i].summary, (#[trigger] after.detailed[i]).summary)
            &&& after.detailed[i].samples == before.detailed[i].samples
        }
    &&& after.additional.len() == listed + before.additional_count
    &&& forall|i: int| 0 <= i < listed ==> named(before.additional[i], #[trigger] after.additional[i])
    &&& forall|i: int|
        listed <= i < after.additional.len() ==> is_legacy_incident(
            #[trigger] after.additional[i],
            legacy_time(before, i - listed),
        )
    &&& after.additional_count == 0
    &&& after.first_additional_at_unix == if before.additional_count == 0 {
        before.first_additional_at_unix
    } else {
        None
    }
    &&& after.last_additional_at_unix == if before.additional_count == 0 {
        before.last_additional_at_unix
    } else {
        None
    }
}

pub open spec fn is_legacy_incident(incident: SummaryView, detected_at_unix: i64) -> bool {
    &&& crate::identifiers::is_random_identifier(incident.id)
    &&& incident == SummaryView {
        id: incident.id,
        kind: stall_kind(),
        detected_at_unix,
        recovered_at_unix: None,
        duration_ms: None,
        open: false,
    }
}

/// Whether a session has incidents without a name or without an entry.
pub open spec fn needs_preparation(session: SessionView) -> bool {
    ||| exists|i: int|
        0 <= i < session.detailed.len() && (#[trigger] session.detailed[i]).summary.id.len() == 0
    ||| exists|i: int|
        0 <= i < session.additional.len() && (#[trigger] session.additional[i]).id.len() == 0
    ||| session.additional_count > 0
}

pub open spec fn is_oversized(session: SessionView) -> bool {
    session.additional_count > MAXIMUM_LEGACY_ADDITIONAL_INCIDENTS
}

/// What became of an archive that was read at the start.
#[derive(Clone, Copy, Debug, PartialEq, Eq, Structural)]
pub enum ArchivePreparation {
    Unchanged,
    Changed,
    LegacyAggregateTooLarge,
}

/// `value` times `factor`, clamped to the range of `i64`.
fn saturating_product(value: i64, factor: i64) -> (product: i64)
    requires
        value >= 0,
        factor >= 0,
    ensures
        product == clamp_i64(value * factor),
{
    assert(value * factor >= 0) by (nonlinear_arith)
        requires
            value >= 0,
            factor >= 0,
    ;
    match value.checked_mul(factor) {
        Some(product) => product,
        None => i64::MAX,
    }
}

impl NetworkIncidentSession {
    /// Names the incidents that have no name and says whether there were any.
    fn name_incidents(&mut self) -> (changed: bool)
        ensures
            final(self)@ == (SessionView {
                detailed: final(self)@.detailed,
                additional: final(self)@.additional,
                ..old(self)@
            }),
            final(self)@.detailed.len() == old(self)@.detailed.len(),
            final(self)@.additional.len() == old(self)@.additional.len(),
            forall|i: int|
                0 <= i < old(self)@.detailed.len() ==> {
                    &&& named(
                        old(self)@.detailed[i].summary,
                        (#[trigger] final(self)@.detailed[i]).summary,
                    )
                    &&& final(self)@.detailed[i].samples == old(self)@.detailed[i].samples
                },
            forall|i: int|
                0 <= i < old(self)@.additional.len() ==> named(
                    old(self)@.additional[i],
                    #[trigger] final(self)@.additional[i],
                ),
            changed == (needs_preparation(
                SessionView { additional_count: 0, ..old(self)@ },
            )),
            !changed ==> final(self)@ == old(self)@,
    {
        let ghost before = self@;
        let mut changed = false;
        let mut index: usize = 0;
        while index < self.detailed.len()
            invariant
                index <= self.detailed@.len(),
                self@ == (SessionView { detailed: self@.detailed, ..before }),
                self@.detailed.len() == before.detailed.len(),
                forall|i: int|
                    0 <= i < index ==> {
                        &&& named(before.detailed[i].summary, (#[trigger] self@.detailed[i]).summary)
                        &&& self@.detailed[i].samples == before.detailed[i].samples
                    },
                forall|i: int|
                    index <= i < before.detailed.len() ==> #[trigger] self@.detailed[i]
                        == before.detailed[i],
                changed == exists|i: int|
                    0 <= i < index && (#[trigger] before.detailed[i]).summary.id.len() == 0,
                !changed ==> self@ == before,
            decreases self.detailed.len() - index,
        {
            let ghost earlier = self@;
            let unnamed = self.detailed[index].id.as_str().is_empty();
            assert(unnamed == (before.detailed[index as int].summary.id.len() == 0)) by {
                assert(earlier.detailed[index as int] == before.detailed[index as int]);
            }
            if unnamed {
                self.detailed[index].id = crate::identifiers::random_identifier();
                changed = true;
                assert(self@.detailed =~= earlier.detailed.update(
                    index as int,
                    self@.detailed[index as int],
                ));
            }
            assert(self@ =~= (SessionView { detailed: self@.detailed, ..before }));
            proof {
                let old_one = before.detailed[index as int];
                let new_one = self@.detailed[index as int];
                assert(earlier.detailed[index as int] == old_one);
                assert(named(old_one.summary, new_one.summary));
                assert(new_one.samples == old_one.samples);
            }
            index += 1;
        }
        let ghost between = self@;
        let mut position: usize = 0;
        while position < self.additional.len()
            invariant
                position <= self.additional@.len(),
                self@ == (SessionView { additional: self@.additional, ..between }),
                between.additional == before.additional,
                self@.additional.len() == before.additional.len(),
                forall|i: int|
                    0 <= i < position ==> named(before.additional[i], #[trigger] self@.additional[i]),
                forall|i: int|
                    position <= i < before.additional.len() ==> #[trigger] self@.additional[i]
                        == before.additional[i],
                changed == ((exists|i: int|
                    0 <= i < before.detailed.len() && (
                    #[trigger] before.detailed[i]).summary.id.len() == 0) || (exists|i: int|
                    0 <= i < position && (#[trigger] before.additional[i]).id.len() == 0)),
                !changed ==> self@ == before,
            decreases self.additional.len() - position,
        {
            let ghost earlier = self@;
            let unnamed = self.additional[position].id.as_str().is_empty();
            assert(unnamed == (before.additional[position as int].id.len() == 0)) by {
                assert(earlier.additional[position as int] == before.additional[position as int]);
            }
            if unnamed {
                self.additional[position].id = crate::identifiers::random_identifier();
                changed = true;
                assert(self@.additional =~= earlier.additional.update(
                    position as int,
                    self@.additional[position as int],
                ));
            }
            assert(self@ =~= (SessionView { additional: self@.additional, ..between }));
            position += 1;
        }
        changed
    }

    /// Lists the incidents that were only counted.
    fn list_counted_incidents(&mut self)
        requires
            0 < old(self)@.additional_count <= MAXIMUM_LEGACY_ADDITIONAL_INCIDENTS,
        ensures
            final(self)@ == (SessionView {
                additional: final(self)@.additional,
                additional_count: 0,
                first_additional_at_unix: None,
                last_additional_at_unix: None,
                ..old(self)@
            }),
            final(self)@.additional.len() == old(self)@.additional.len()
                + old(self)@.additional_count,
            forall|i: int|
                0 <= i < old(self)@.additional.len() ==> #[trigger] final(self)@.additional[i]
                    == old(self)@.additional[i],
            forall|i: int|
                old(self)@.additional.len() <= i < final(self)@.additional.len()
                    ==> is_legacy_incident(
                    #[trigger] final(self)@.additional[i],
                    legacy_time(old(self)@, i - old(self)@.additional.len()),
                ),
    {
        let ghost before = self@;
        let first: i64 = match self.first_additional_at_unix {
            Some(first) => first,
            None => match self.last_additional_at_unix {
                Some(last) => last,
                None => 0,
            },
        };
        let last: i64 = match self.last_additional_at_unix {
            Some(last) => if last >= first {
                last
            } else {
                first
            },
            None => first,
        };
        let count: u64 = self.additional_count;
        let denominator: i64 = if count <= 2 {
            1
        } else {
            (count - 1) as i64
        };
        let span: i64 = saturating_seconds_between(last, first);
        let mut index: u64 = 0;
        while index < count
            invariant
                index <= count,
                count == before.additional_count,
                0 < count <= MAXIMUM_LEGACY_ADDITIONAL_INCIDENTS,
                span >= 0,
                denominator >= 1,
                forall|i: int|
                    0 <= i ==> #[trigger] legacy_time(before, i) == clamp_i64(
                        first + clamp_i64(span * i) / (denominator as int),
                    ) as i64,
                self@ == (SessionView { additional: self@.additional, ..before }),
                self@.additional.len() == before.additional.len() + index,
                forall|i: int|
                    0 <= i < before.additional.len() ==> #[trigger] self@.additional[i]
                        == before.additional[i],
                forall|i: int|
                    before.additional.len() <= i < self@.additional.len() ==> is_legacy_incident(
                        #[trigger] self@.additional[i],
                        legacy_time(before, i - before.additional.len()),
                    ),
            decreases count - index,
        {
            let ghost earlier = self@;
            let product: i64 = saturating_product(span, index as i64);
            let offset: i64 = product / denominator;
            assert(0 <= offset <= product) by (nonlinear_arith)
                requires
                    product >= 0,
                    denominator >= 1,
                    offset == (product as int) / (denominator as int),
            ;
            let detected_at_unix: i64 = match first.checked_add(offset) {
                Some(time) => time,
                None => i64::MAX,
            };
            assert(detected_at_unix == legacy_time(before, index as int));
            self.additional.push(
                NetworkIncidentSummary {
                    id: crate::identifiers::random_identifier(),
                    kind: "suspected_data_path_stall".to_owned(),
                    detected_at_unix,
                    recovered_at_unix: None,
                    duration_ms: None,
                    open: false,
                },
            );
            assert(self@.additional =~= earlier.additional.push(self@.additional.last()));
            assert(self@ =~= (SessionView { additional: self@.additional, ..before }));
            index += 1;
        }
        self.additional_count = 0;
        self.first_additional_at_unix = None;
        self.last_additional_at_unix = None;
    }

    fn prepare(&mut self) -> (changed: bool)
        requires
            !is_oversized(old(self)@),
        ensures
            prepared_session(old(self)@, final(self)@),
            changed == needs_preparation(old(self)@),
            !changed ==> final(self)@ == old(self)@,
    {
        let ghost before = self@;
        let named = self.name_incidents();
        assert(named == needs_preparation(SessionView { additional_count: 0, ..before }));
        let ghost after = self@;
        assert forall|i: int| 0 <= i implies legacy_time(after, i) == #[trigger] legacy_time(
            before,
            i,
        ) by {}
        if self.additional_count == 0 {
            return named;
        }
        self.list_counted_incidents();
        true
    }
}

impl NetworkIncidentArchive {
    /// Brings an archive that was just read into the form in which incidents
    /// are recorded. One that counts too many incidents cannot be converted.
    pub fn prepare(&mut self) -> (outcome: ArchivePreparation)
        ensures
            outcome == ArchivePreparation::LegacyAggregateTooLarge <==> exists|i: int|
                0 <= i < old(self)@.sessions.len() && is_oversized(#[trigger] old(self)@.sessions[i]),
            outcome == ArchivePreparation::LegacyAggregateTooLarge ==> final(self)@ == old(self)@,
            outcome == ArchivePreparation::Changed ==> (exists|i: int|
                0 <= i < old(self)@.sessions.len() && needs_preparation(
                    #[trigger] old(self)@.sessions[i],
                )),
            outcome == ArchivePreparation::Unchanged ==> final(self)@ == old(self)@ && (forall|i: int|
                0 <= i < old(self)@.sessions.len() ==> !needs_preparation(
                    #[trigger] old(self)@.sessions[i],
                )),
            outcome != ArchivePreparation::LegacyAggregateTooLarge ==> {
                &&& final(self)@ == (ArchiveView {
                    sessions: final(self)@.sessions,
                    ..old(self)@
                })
                &&& final(self)@.sessions.len() == old(self)@.sessions.len()
                &&& forall|i: int|
                    0 <= i < old(self)@.sessions.len() ==> prepared_session(
                        old(self)@.sessions[i],
                        #[trigger] final(self)@.sessions[i],
                    )
            },
    {
        let ghost before = self@;
        let mut index: usize = 0;
        while index < self.sessions.len()
            invariant
                index <= self.sessions@.len(),
                self@ == before,
                forall|i: int| 0 <= i < index ==> !is_oversized(#[trigger] before.sessions[i]),
            decreases self.sessions.len() - index,
        {
            if self.sessions[index].additional_count > MAXIMUM_LEGACY_ADDITIONAL_INCIDENTS {
                assert(is_oversized(before.sessions[index as int]));
                return ArchivePreparation::LegacyAggregateTooLarge;
            }
            index += 1;
        }
        let mut changed = false;
        let mut position: usize = 0;
        while position < self.sessions.len()
            invariant
                position <= self.sessions@.len(),
                self@ == (ArchiveView { sessions: self@.sessions, ..before }),
                self@.sessions.len() == before.sessions.len(),
                forall|i: int|
                    0 <= i < before.sessions.len() ==> !is_oversized(#[trigger] before.sessions[i]),
                forall|i: int|
                    0 <= i < position ==> prepared_session(
                        before.sessions[i],
                        #[trigger] self@.sessions[i],
                    ),
                forall|i: int|
                    position <= i < before.sessions.len() ==> #[trigger] self@.sessions[i]
                        == before.sessions[i],
                changed == exists|i: int|
                    0 <= i < position && needs_preparation(#[trigger] before.sessions[i]),
                !changed ==> self@ == before,
            decreases self.sessions.len() - position,
        {
            let ghost earlier = self@;
            assert(self.sessions@[position as int]@ == earlier.sessions[position as int]);
            assert(earlier.sessions[position as int] == before.sessions[position as int]);
            let session_changed = self.sessions[position].prepare();
            if session_changed {
                changed = true;
                assert(needs_preparation(before.sessions[position as int]));
            }
            assert(self@.sessions =~= earlier.sessions.update(
                position as int,
                self.sessions@[position as int]@,
            ));
            assert(self@ =~= (ArchiveView { sessions: self@.sessions, ..before }));
            position += 1;
        }
        if changed {
            ArchivePreparation::Changed
        } else {
            ArchivePreparation::Unchanged
        }
    }
}

} // verus!
