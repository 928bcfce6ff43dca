//! The diagnostics of the application: what it notes, and what it reports.
use crate::automatic_diagnostics::{
    AutomaticError, AutomaticObservation, AutomaticStateView, DesktopAutomaticDiagnostics,
    PendingSeal,
};
use crate::report_logs::{application_log, bounded_helper_log};
use crate::resource_usage::{DiagnosticResourceUsage, ResourceSnapshot};
use crate::text::same_text;
use crate::tunnel::TunnelMetrics;
use vstd::prelude::*;

verus! {

/// Something that has happened, as it is noted.
#[derive(Debug)]
pub struct LogRecord {
    pub timestamp_unix: i64,
    pub kind: String,
    pub operation_id: Option<String>,
    pub request_id: Option<String>,
    pub code: Option<String>,
    pub duration_ms: Option<u64>,
}

/// A reading of the tunnel, as it is noted.
#[derive(Debug)]
pub struct TunnelMetricsLogRecord {
    pub timestamp_unix: i64,
    pub kind: &'static str,
    pub operation_id: String,
    pub received_bytes: u64,
    pub sent_bytes: u64,
    pub received_delta_bytes: u64,
    pub sent_delta_bytes: u64,
    pub latest_handshake_epoch_millis: Option<u64>,
    pub handshake_age_seconds: Option<u64>,
    pub probe_succeeded: Option<bool>,
    pub latency_ms: Option<u32>,
}

#[derive(Debug)]
pub enum LogEntry {
    Event(LogRecord),
    TunnelMetrics(TunnelMetricsLogRecord),
}

pub enum EntryView {
    Event {
        timestamp_unix: i64,
        kind: Seq<char>,
        operation_id: Option<Seq<char>>,
        request_id: Option<Seq<char>>,
        code: Option<Seq<char>>,
        duration_ms: Option<u64>,
    },
    TunnelMetrics {
        timestamp_unix: i64,
        kind: Seq<char>,
        session_id: Seq<char>,
        received_bytes: u64,
        sent_bytes: u64,
        received_delta_bytes: u64,
        sent_delta_bytes: u64,
        latest_handshake_epoch_millis: Option<u64>,
        handshake_age_seconds: Option<u64>,
        probe_succeeded: Option<bool>,
        latency_ms: Option<u32>,
    },
}

impl View for LogEntry {
    type V = EntryView;

    open spec fn view(&self) -> EntryView {
        match self {
            LogEntry::Event(record) => EntryView::Event {
                timestamp_unix: record.timestamp_unix,
                kind: record.kind@,
                operation_id: crate::text::text_of(record.operation_id),
                request_id: crate::text::text_of(record.request_id),
                code: crate::text::text_of(record.code),
                duration_ms: record.duration_ms,
            },
            LogEntry::TunnelMetrics(record) => EntryView::TunnelMetrics {
                timestamp_unix: record.timestamp_unix,
                kind: record.kind@,
                session_id: record.operation_id@,
                received_bytes: record.received_bytes,
                sent_bytes: record.sent_bytes,
                received_delta_bytes: record.received_delta_bytes,
                sent_delta_bytes: record.sent_delta_bytes,
                latest_handshake_epoch_millis: record.latest_handshake_epoch_millis,
                handshake_age_seconds: record.handshake_age_seconds,
                probe_succeeded: record.probe_succeeded,
                latency_ms: record.latency_ms,
            },
        }
    }
}

pub open spec fn entries_of(entries: Seq<LogEntry>) -> Seq<EntryView> {
    Seq::new(entries.len(), |i: int| entries[i]@)
}

pub open spec fn optional(text: Option<&str>) -> Option<Seq<char>> {
    match text {
        Some(text) => Some(text@),
        None => None,
    }
}

pub open spec fn event(
    timestamp_unix: i64,
    kind: Seq<char>,
    operation_id: Option<Seq<char>>,
    request_id: Option<Seq<char>>,
    code: Option<Seq<char>>,
    duration_ms: Option<u64>,
) -> EntryView {
    EntryView::Event { timestamp_unix, kind, operation_id, request_id, code, duration_ms }
}

/// An event of the core of the client.
#[derive(Debug)]
pub struct CoreLogEvent {
    pub kind: &'static str,
    pub operation_id: Option<String>,
    pub request_id: Option<String>,
    pub code: Option<String>,
}

/// What is noted of an event of the core.
pub open spec fn core_entry(
    core_event: CoreLogEvent,
    duration_ms: Option<u64>,
    now_unix: i64,
) -> EntryView {
    event(
        now_unix,
        core_event.kind@,
        crate::text::text_of(core_event.operation_id),
        crate::text::text_of(core_event.request_id),
        crate::text::text_of(core_event.code),
        duration_ms,
    )
}

pub open spec fn capped_millis(millis: u128) -> u64 {
    if millis > u64::MAX {
        u64::MAX
    } else {
        millis as u64
    }
}

/// How much a counter has grown since the last reading; one that has gone back
/// was started anew, and so was one without an earlier reading.
pub open spec fn grown_since(previous: Option<u64>, current: u64) -> u64 {
    match previous {
        Some(previous) => if current >= previous {
            (current - previous) as u64
        } else {
            current
        },
        None => current,
    }
}

pub fn counter_delta(previous: Option<u64>, current: u64) -> (delta: u64)
    ensures
        delta == grown_since(previous, current),
{
    match previous {
        Some(previous) => if current >= previous {
            current - previous
        } else {
            current
        },
        None => current,
    }
}

pub open spec fn received_of(sample: Option<TunnelMetrics>) -> Option<u64> {
    match sample {
        Some(sample) => Some(sample.received_bytes),
        None => None,
    }
}

pub open spec fn sent_of(sample: Option<TunnelMetrics>) -> Option<u64> {
    match sample {
        Some(sample) => Some(sample.sent_bytes),
        None => None,
    }
}

/// How long ago a handshake was, in seconds, at a time in seconds.
pub open spec fn handshake_age(handshake_millis: u64, now_unix: i64) -> u64 {
    let now_millis = if now_unix < 0 {
        0
    } else {
        now_unix * 1_000
    };
    if now_millis < handshake_millis {
        0
    } else {
        ((now_millis - handshake_millis) / 1_000) as u64
    }
}

/// What is noted of a reading.
pub open spec fn metrics_entry(
    operation_id: Seq<char>,
    sample: TunnelMetrics,
    previous: Option<TunnelMetrics>,
    probe_result: Option<Option<u32>>,
    now_unix: i64,
) -> EntryView {
    EntryView::TunnelMetrics {
        timestamp_unix: now_unix,
        kind: "tunnel.data_plane_snapshot"@,
        session_id: operation_id,
        received_bytes: sample.received_bytes,
        sent_bytes: sample.sent_bytes,
        received_delta_bytes: grown_since(received_of(previous), sample.received_bytes),
        sent_delta_bytes: grown_since(sent_of(previous), sample.sent_bytes),
        latest_handshake_epoch_millis: sample.latest_handshake_epoch_millis,
        handshake_age_seconds: match sample.latest_handshake_epoch_millis {
            Some(handshake) => Some(handshake_age(handshake, now_unix)),
            None => None,
        },
        probe_succeeded: match probe_result {
            Some(result) => Some(result is Some),
            None => None,
        },
        latency_ms: match probe_result {
            Some(result) => result,
            None => None,
        },
    }
}

/// The latest time, in seconds, whose milliseconds fit in 64 bits.
pub const LAST_LOGGED_SECOND: i64 = 18_446_744_073_709_551;

/// The resources in use when an interval of a session began.
pub struct AutomaticResourceBaseline {
    pub session_id: String,
    pub interval_started_at: i64,
    pub snapshot: ResourceSnapshot,
}

#[verifier::ext_equal]
pub struct BaselineView {
    pub session_id: Seq<char>,
    pub interval_started_at: i64,
    pub snapshot: ResourceSnapshot,
}

pub open spec fn baseline_of(baseline: Option<AutomaticResourceBaseline>) -> Option<BaselineView> {
    match baseline {
        Some(baseline) => Some(
            BaselineView {
                session_id: baseline.session_id@,
                interval_started_at: baseline.interval_started_at,
                snapshot: baseline.snapshot,
            },
        ),
        None => None,
    }
}

/// The diagnostics of the application. What is noted waits in `outbox` until
/// it was written.
pub struct AppDiagnostics {
    pub resource_baseline: ResourceSnapshot,
    pub automatic: DesktopAutomaticDiagnostics,
    pub automatic_resource_baseline: Option<AutomaticResourceBaseline>,
    pub outbox: Vec<LogEntry>,
}

#[verifier::ext_equal]
pub struct DiagnosticsView {
    pub resource_baseline: ResourceSnapshot,
    pub automatic: AutomaticStateView,
    pub upload_in_progress: bool,
    pub automatic_resource_baseline: Option<BaselineView>,
    pub outbox: Seq<EntryView>,
}

impl View for AppDiagnostics {
    type V = DiagnosticsView;

    open spec fn view(&self) -> DiagnosticsView {
        DiagnosticsView {
            resource_baseline: self.resource_baseline,
            automatic: self.automatic.state@,
            upload_in_progress: self.automatic.upload_in_progress,
            automatic_resource_baseline: baseline_of(self.automatic_resource_baseline),
            outbox: entries_of(self.outbox@),
        }
    }
}

/// The state after one more entry.
pub open spec fn with_entry(diagnostics: DiagnosticsView, entry: EntryView) -> DiagnosticsView {
    DiagnosticsView { outbox: diagnostics.outbox.push(entry), ..diagnostics }
}

/// A report as the panel takes it.
#[derive(Debug)]
pub struct DiagnosticUploadRequest {
    pub report_id: Option<String>,
    pub trigger: String,
    pub tunnel_session_id: Option<String>,
    pub sequence: Option<u64>,
    pub interval_started_at_unix: Option<i64>,
    pub interval_ended_at_unix: Option<i64>,
    pub tunnel_running: Option<bool>,
    pub connection_lease_id: Option<String>,
    pub generated_at_unix: i64,
    pub app_version: String,
    pub platform_version: Option<String>,
    pub architecture: String,
    pub application_log: String,
    pub helper_log: Option<String>,
    pub network_incidents: Option<String>,
    pub resource_usage: Option<DiagnosticResourceUsage>,
}

/// What was gathered for a report.
#[derive(Debug)]
pub struct ReportSources {
    pub previous_log: String,
    pub current_log: String,
    pub startup_log: String,
    pub helper_log: Option<String>,
    pub network_incidents: Option<String>,
    pub app_version: String,
    pub platform_version: Option<String>,
    pub architecture: String,
}

/// Whether the logs, incidents and versions of a report are those that were gathered.
pub open spec fn holds_sources(report: DiagnosticUploadRequest, sources: ReportSources) -> bool {
    &&& report.application_log@ == crate::report_logs::application_log_of(
        sources.previous_log@,
        sources.current_log@,
        sources.startup_log@,
    )
    &&& crate::text::text_of(report.helper_log) == crate::report_logs::helper_log_of(
        crate::text::text_of(sources.helper_log),
    )
    &&& report.network_incidents == sources.network_incidents
    &&& report.app_version == sources.app_version
    &&& report.platform_version == sources.platform_version
    &&& report.architecture == sources.architecture
}

/// Whether a baseline is that of the interval that was sealed.
pub open spec fn baseline_matches(
    baseline: BaselineView,
    seal: crate::automatic_diagnostics::SealView,
) -> bool {
    baseline.session_id == seal.session_id && baseline.interval_started_at == seal.started_at
}

/// Whether a report says of a sealed interval what it has to.
pub open spec fn reports_seal(
    report: DiagnosticUploadRequest,
    seal: crate::automatic_diagnostics::SealView,
) -> bool {
    &&& crate::text::text_of(report.report_id) == Some(seal.report_id)
    &&& report.trigger@ == seal.trigger
    &&& crate::text::text_of(report.tunnel_session_id) == Some(seal.session_id)
    &&& report.sequence == Some(seal.sequence)
    &&& report.interval_started_at_unix == Some(seal.started_at)
    &&& report.interval_ended_at_unix == Some(seal.ended_at)
    &&& report.tunnel_running == Some(seal.tunnel_running)
    &&& crate::text::text_of(report.connection_lease_id) == seal.connection_id
    &&& report.generated_at_unix == seal.ended_at
}

/// How the kind of a failure is noted.
pub open spec fn failure_kind(error: AutomaticError) -> Seq<char> {
    match error {
        AutomaticError::SealChanged => "other error"@,
        AutomaticError::SessionUnavailable => "other error"@,
        _ => "invalid input parameter"@,
    }
}

pub fn failure_kind_name(error: AutomaticError) -> (name: &'static str)
    ensures
        name@ == failure_kind(error),
{
    match error {
        AutomaticError::SealChanged | AutomaticError::SessionUnavailable => "other error",
        AutomaticError::InvalidScope
        | AutomaticError::InvalidReportId
        | AutomaticError::ReportIdMismatch => "invalid input parameter",
    }
}

fn as_text(text: &Option<String>) -> (result: Option<&str>)
    ensures
        optional(result) == crate::text::text_of(*text),
{
    match text {
        Some(text) => Some(text.as_str()),
        None => None,
    }
}

fn owned(text: Option<&str>) -> (result: Option<String>)
    ensures
        crate::text::text_of(result) == optional(text),
{
    match text {
        Some(text) => Some(text.to_owned()),
        None => None,
    }
}

/// What a look at the queue for an upload comes to; `latest` where the newest
/// report is to be sent at once.
pub open spec fn candidate_taken(
    before: DiagnosticsView,
    after: DiagnosticsView,
    name: Option<Seq<char>>,
    now: i64,
    latest: bool,
    names: Seq<Seq<char>>,
) -> bool {
    if !before.upload_in_progress && crate::automatic_diagnostics::upload_allowed(
        before.automatic,
        now,
        latest,
    ) {
        &&& name == crate::automatic_diagnostics::chosen_report(before.automatic, names, latest)
        &&& after == (DiagnosticsView {
            automatic: crate::automatic_diagnostics::state_after_choice(
                before.automatic,
                names,
                latest,
            ),
            upload_in_progress: name is Some,
            ..before
        })
    } else {
        name is None && after == before
    }
}

impl AppDiagnostics {
    /// Diagnostics that begin with a note of the start, and of what was wrong
    /// with the reports that were kept.
    pub fn new(
        resource_baseline: ResourceSnapshot,
        automatic: DesktopAutomaticDiagnostics,
        now_unix: i64,
    ) -> (diagnostics: Self)
        ensures
            ({
                let started = event(now_unix, "application.started"@, None, None, None, None);
                diagnostics@ == (DiagnosticsView {
                    resource_baseline,
                    automatic: automatic.state@,
                    upload_in_progress: automatic.upload_in_progress,
                    automatic_resource_baseline: None,
                    outbox: match crate::text::text_of(automatic.warning) {
                        Some(warning) => seq![
                            started,
                            event(
                                now_unix,
                                "diagnostics.sent_prune_failed"@,
                                None,
                                None,
                                Some(warning),
                                None,
                            ),
                        ],
                        None => seq![started],
                    },
                })
            }),
    {
        let warning = automatic.startup_warning().clone();
        let mut diagnostics = AppDiagnostics {
            resource_baseline,
            automatic,
            automatic_resource_baseline: None,
            outbox: Vec::new(),
        };
        assert(entries_of(diagnostics.outbox@) =~= Seq::empty());
        diagnostics.record_named("application.started", None, None, None, now_unix);
        if let Some(warning) = warning {
            diagnostics.record_named(
                "diagnostics.sent_prune_failed",
                None,
                None,
                Some(warning.as_str()),
                now_unix,
            );
        }
        diagnostics
    }

    /// What was noted since the last time, in its order.
    pub fn take_entries(&mut self) -> (entries: Vec<LogEntry>)
        ensures
            entries_of(entries@) == old(self)@.outbox,
            final(self)@ == (DiagnosticsView { outbox: Seq::empty(), ..old(self)@ }),
    {
        let mut entries: Vec<LogEntry> = Vec::new();
        std::mem::swap(&mut entries, &mut self.outbox);
        assert(entries_of(self.outbox@) =~= Seq::empty());
        entries
    }

    fn append(&mut self, entry: LogEntry)
        ensures
            final(self)@ == with_entry(old(self)@, entry@),
            final(self).automatic == old(self).automatic,
    {
        let ghost before = self.outbox@;
        self.outbox.push(entry);
        assert(entries_of(self.outbox@) =~= entries_of(before).push(entry@));
    }

    /// Notes something that has happened.
    pub fn record_named(
        &mut self,
        kind: &str,
        operation_id: Option<&str>,
        request_id: Option<&str>,
        code: Option<&str>,
        now_unix: i64,
    )
        ensures
            final(self)@ == with_entry(
                old(self)@,
                event(
                    now_unix,
                    kind@,
                    optional(operation_id),
                    optional(request_id),
                    optional(code),
                    None,
                ),
            ),
            final(self).automatic == old(self).automatic,
    {
        self.record_with_duration(kind, operation_id, request_id, code, None, now_unix);
    }

    /// Notes something that took a while, in milliseconds.
    pub fn record_timed_named(
        &mut self,
        kind: &str,
        operation_id: Option<&str>,
        request_id: Option<&str>,
        code: Option<&str>,
        duration_millis: u128,
        now_unix: i64,
    )
        ensures
            final(self)@ == with_entry(
                old(self)@,
                event(
                    now_unix,
                    kind@,
                    optional(operation_id),
                    optional(request_id),
                    optional(code),
                    Some(capped_millis(duration_millis)),
                ),
            ),
            final(self).automatic == old(self).automatic,
    {
        let duration_ms: u64 = if duration_millis > u64::MAX as u128 {
            u64::MAX
        } else {
            duration_millis as u64
        };
        self.record_with_duration(
            kind,
            operation_id,
            request_id,
            code,
            Some(duration_ms),
            now_unix,
        );
    }

    /// Notes an event of the core.
    pub fn record(&mut self, core_event: &CoreLogEvent, now_unix: i64)
        ensures
            final(self)@ == with_entry(old(self)@, core_entry(*core_event, None, now_unix)),
            final(self).automatic == old(self).automatic,
    {
        self.record_with_duration(
            core_event.kind,
            as_text(&core_event.operation_id),
            as_text(&core_event.request_id),
            as_text(&core_event.code),
            None,
            now_unix,
        );
    }

    /// Notes an event of the core that took a while.
    pub fn record_timed(&mut self, core_event: &CoreLogEvent, duration_ms: u64, now_unix: i64)
        ensures
            final(self)@ == with_entry(
                old(self)@,
                core_entry(*core_event, Some(duration_ms), now_unix),
            ),
            final(self).automatic == old(self).automatic,
    {
        self.record_with_duration(
            core_event.kind,
            as_text(&core_event.operation_id),
            as_text(&core_event.request_id),
            as_text(&core_event.code),
            Some(duration_ms),
            now_unix,
        );
    }

    pub fn record_with_duration(
        &mut self,
        kind: &str,
        operation_id: Option<&str>,
        request_id: Option<&str>,
        code: Option<&str>,
        duration_ms: Option<u64>,
        now_unix: i64,
    )
        ensures
            final(self)@ == with_entry(
                old(self)@,
                event(
                    now_unix,
                    kind@,
                    optional(operation_id),
                    optional(request_id),
                    optional(code),
                    duration_ms,
                ),
            ),
            final(self).automatic == old(self).automatic,
    {
        let record = LogRecord {
            timestamp_unix: now_unix,
            kind: kind.to_owned(),
            operation_id: owned(operation_id),
            request_id: owned(request_id),
            code: owned(code),
            duration_ms,
        };
        self.append(LogEntry::Event(record));
    }

    /// Notes a reading of the tunnel, against the one that was noted before
    /// and with what a probe said.
    pub fn record_tunnel_metrics(
        &mut self,
        operation_id: &str,
        sample: &TunnelMetrics,
        previous: &Option<TunnelMetrics>,
        probe_result: Option<Option<u32>>,
        now_unix: i64,
    )
        requires
            now_unix <= LAST_LOGGED_SECOND,
        ensures
            final(self)@ == with_entry(
                old(self)@,
                metrics_entry(operation_id@, *sample, *previous, probe_result, now_unix),
            ),
            final(self).automatic == old(self).automatic,
    {
        let now_millis: u64 = if now_unix < 0 {
            0
        } else {
            now_unix as u64 * 1_000
        };
        let (previous_received, previous_sent): (Option<u64>, Option<u64>) = match previous {
            Some(previous) => (Some(previous.received_bytes), Some(previous.sent_bytes)),
            None => (None, None),
        };
        let handshake_age_seconds: Option<u64> = match sample.latest_handshake_epoch_millis {
            Some(handshake) => Some(now_millis.saturating_sub(handshake) / 1_000),
            None => None,
        };
        let (probe_succeeded, latency_ms): (Option<bool>, Option<u32>) = match probe_result {
            Some(result) => (Some(result.is_some()), result),
            None => (None, None),
        };
        let record = TunnelMetricsLogRecord {
            timestamp_unix: now_unix,
            kind: "tunnel.data_plane_snapshot",
            operation_id: operation_id.to_owned(),
            received_bytes: sample.received_bytes,
            sent_bytes: sample.sent_bytes,
            received_delta_bytes: counter_delta(previous_received, sample.received_bytes),
            sent_delta_bytes: counter_delta(previous_sent, sample.sent_bytes),
            latest_handshake_epoch_millis: sample.latest_handshake_epoch_millis,
            handshake_age_seconds,
            probe_succeeded,
            latency_ms,
        };
        self.append(LogEntry::TunnelMetrics(record));
    }

    /// A report that the user has asked for, on a connection if there is one.
    pub fn build_report_with_helper(
        &self,
        resource_snapshot: ResourceSnapshot,
        sources: ReportSources,
        connection_lease_id: Option<String>,
        now_unix: i64,
    ) -> (report: DiagnosticUploadRequest)
        ensures
            report.report_id is None,
            report.trigger@ == "manual"@,
            report.tunnel_session_id is None,
            report.sequence is None,
            report.interval_started_at_unix is None,
            report.interval_ended_at_unix is None,
            report.tunnel_running is None,
            report.connection_lease_id == connection_lease_id,
            report.generated_at_unix == now_unix,
            holds_sources(report, sources),
            report.resource_usage matches Some(usage) && crate::resource_usage::usage_between(
                usage,
                self.resource_baseline,
                resource_snapshot,
            ),
    {
        DiagnosticUploadRequest {
            report_id: None,
            trigger: "manual".to_owned(),
            tunnel_session_id: None,
            sequence: None,
            interval_started_at_unix: None,
            interval_ended_at_unix: None,
            tunnel_running: None,
            connection_lease_id,
            generated_at_unix: now_unix,
            app_version: sources.app_version,
            platform_version: sources.platform_version,
            architecture: sources.architecture,
            application_log: application_log(
                sources.previous_log,
                sources.current_log.as_str(),
                sources.startup_log,
            ),
            helper_log: bounded_helper_log(sources.helper_log),
            network_incidents: sources.network_incidents,
            resource_usage: Some(self.resource_baseline.report(resource_snapshot)),
        }
    }

    /// Selects the device that reports belong to. Returns whether the state of
    /// the reports has to be saved; a device that cannot have any is noted.
    pub fn set_automatic_device(&mut self, device_id: &str, now_unix: i64) -> (changed: bool)
        ensures
            if crate::automatic_diagnostics::is_scope(device_id@) {
                &&& changed == (old(self)@.automatic.current_device_id != Some(device_id@))
                &&& final(self)@ == (DiagnosticsView {
                    automatic: AutomaticStateView {
                        current_device_id: Some(device_id@),
                        ..old(self)@.automatic
                    },
                    ..old(self)@
                })
            } else {
                &&& !changed
                &&& final(self)@ == with_entry(
                    old(self)@,
                    event(
                        now_unix,
                        "diagnostics.automatic_device_write_failed"@,
                        None,
                        None,
                        Some("invalid input parameter"@),
                        None,
                    ),
                )
            },
    {
        match self.automatic.set_current_device(device_id) {
            Ok(changed) => changed,
            Err(error) => {
                let kind = failure_kind_name(error);
                self.record_named(
                    "diagnostics.automatic_device_write_failed",
                    None,
                    None,
                    Some(kind),
                    now_unix,
                );
                false
            },
        }
    }

    /// Forgets the device. Returns whether the state of the reports has to be
    /// saved.
    pub fn clear_automatic_device(&mut self) -> (changed: bool)
        ensures
            changed == (old(self)@.automatic.current_device_id is Some),
            final(self)@ == (DiagnosticsView {
                automatic: AutomaticStateView {
                    current_device_id: None,
                    ..old(self)@.automatic
                },
                ..old(self)@
            }),
    {
        self.automatic.clear_current_device()
    }

    /// Looks at the tunnel. Returns what was seen, and whether the state of the
    /// reports has to be saved.
    pub fn observe_automatic_tunnel(
        &mut self,
        session_id: Option<&str>,
        tunnel_may_be_running: bool,
        now: i64,
    ) -> (result: (AutomaticObservation, bool))
        ensures
            ({
                let connection = optional(session_id);
                let outcome = crate::automatic_diagnostics::observation_outcome(
                    old(self)@.automatic,
                    connection,
                    tunnel_may_be_running,
                    now,
                );
                let after = final(self)@.automatic;
                let begins = outcome is Started || outcome is Stopped || outcome is Checkpoint;
                let id = if outcome is Started {
                    after.session->0.session_id
                } else if begins {
                    after.pending_seal->0.report_id
                } else {
                    Seq::empty()
                };
                &&& final(self)@ == (DiagnosticsView { automatic: after, ..old(self)@ })
                &&& after == crate::automatic_diagnostics::state_after_observation(
                    old(self)@.automatic,
                    connection,
                    tunnel_may_be_running,
                    now,
                    id,
                )
                &&& begins ==> crate::identifiers::is_random_identifier(id)
                &&& result.1 == begins
                &&& result.0.seal_pending == (after.pending_seal is Some)
                &&& result.0.interval_started is Some <==> outcome is Started
                &&& result.0.interval_started matches Some(interval) ==> interval.session_id@ == id
                    && interval.started_at == now
            }),
    {
        self.automatic.observe(session_id, tunnel_may_be_running, now)
    }

    /// Remembers the resources in use where an interval has begun.
    pub fn begin_automatic_resource_interval(
        &mut self,
        observation: &AutomaticObservation,
        snapshot: ResourceSnapshot,
    )
        ensures
            final(self)@ == (DiagnosticsView {
                automatic_resource_baseline: match observation.interval_started {
                    Some(interval) => Some(
                        BaselineView {
                            session_id: interval.session_id@,
                            interval_started_at: interval.started_at,
                            snapshot,
                        },
                    ),
                    None => old(self)@.automatic_resource_baseline,
                },
                ..old(self)@
            }),
    {
        if let Some(interval) = &observation.interval_started {
            self.automatic_resource_baseline = Some(
                AutomaticResourceBaseline {
                    session_id: interval.session_id.clone(),
                    interval_started_at: interval.started_at,
                    snapshot,
                },
            );
        }
    }

    /// The interval that waits to be reported, if one does.
    pub fn pending_automatic_seal(&self) -> (seal: Option<PendingSeal>)
        ensures
            seal == self.automatic.state.pending_seal,
    {
        self.automatic.pending_seal()
    }

    /// The report on a sealed interval. What was used of the resources is in
    /// it only where it is known from the beginning of that very interval on.
    pub fn automatic_report(
        &self,
        seal: &PendingSeal,
        resource_snapshot: ResourceSnapshot,
        sources: ReportSources,
    ) -> (report: DiagnosticUploadRequest)
        ensures
            reports_seal(report, seal@),
            holds_sources(report, sources),
            match self@.automatic_resource_baseline {
                Some(baseline) => if baseline_matches(baseline, seal@) {
                    report.resource_usage matches Some(usage)
                        && crate::resource_usage::usage_between(
                        usage,
                        baseline.snapshot,
                        resource_snapshot,
                    )
                } else {
                    report.resource_usage is None
                },
                None => report.resource_usage is None,
            },
    {
        let resource_usage = match &self.automatic_resource_baseline {
            Some(baseline) => {
                if same_text(baseline.session_id.as_str(), seal.session_id.as_str())
                    && baseline.interval_started_at == seal.started_at {
                    Some(baseline.snapshot.report(resource_snapshot))
                } else {
                    None
                }
            },
            None => None,
        };
        DiagnosticUploadRequest {
            report_id: Some(seal.report_id.clone()),
            trigger: seal.trigger.clone(),
            tunnel_session_id: Some(seal.session_id.clone()),
            sequence: Some(seal.sequence),
            interval_started_at_unix: Some(seal.started_at),
            interval_ended_at_unix: Some(seal.ended_at),
            tunnel_running: Some(seal.tunnel_running),
            connection_lease_id: seal.connection_id.clone(),
            generated_at_unix: seal.ended_at,
            app_version: sources.app_version,
            platform_version: sources.platform_version,
            architecture: sources.architecture,
            application_log: application_log(
                sources.previous_log,
                sources.current_log.as_str(),
                sources.startup_log,
            ),
            helper_log: bounded_helper_log(sources.helper_log),
            network_incidents: sources.network_incidents,
            resource_usage,
        }
    }

    /// The report on a sealed interval was written to the queue. Where the
    /// tunnel goes on, the next interval begins with the resources in use now.
    pub fn materialize_automatic_report(
        &mut self,
        seal: &PendingSeal,
        resource_snapshot: ResourceSnapshot,
    ) -> (result: Result<(), AutomaticError>)
        ensures
            match crate::automatic_diagnostics::completion_error(old(self)@.automatic, seal@) {
                Some(error) => {
                    &&& result == Err::<(), AutomaticError>(error)
                    &&& final(self)@ == old(self)@
                },
                None => {
                    &&& result == Ok::<(), AutomaticError>(())
                    &&& final(self)@ == (DiagnosticsView {
                        automatic: crate::automatic_diagnostics::state_after_completion(
                            old(self)@.automatic,
                            seal@,
                        ),
                        automatic_resource_baseline: if seal@.tunnel_running {
                            Some(
                                BaselineView {
                                    session_id: seal@.session_id,
                                    interval_started_at: seal@.ended_at,
                                    snapshot: resource_snapshot,
                                },
                            )
                        } else {
                            None
                        },
                        ..old(self)@
                    })
                },
            },
    {
        if let Err(error) = self.automatic.materialize(seal) {
            return Err(error);
        }
        self.automatic_resource_baseline =
        if seal.tunnel_running {
            Some(
                AutomaticResourceBaseline {
                    session_id: seal.session_id.clone(),
                    interval_started_at: seal.ended_at,
                    snapshot: resource_snapshot,
                },
            )
        } else {
            None
        };
        Ok(())
    }

    /// The report whose turn it is among the files of the queue.
    pub fn automatic_upload_candidate(&mut self, now: i64, files: &Vec<String>) -> (name: Option<
        String,
    >)
        ensures
            candidate_taken(
                old(self)@,
                final(self)@,
                crate::text::text_of(name),
                now,
                false,
                crate::text::texts_of(files@),
            ),
    {
        self.automatic.upload_candidate(now, files)
    }

    /// The newest report of the queue, at once.
    pub fn automatic_latest_upload_candidate(&mut self, now: i64, files: &Vec<String>) -> (name:
        Option<String>)
        ensures
            candidate_taken(
                old(self)@,
                final(self)@,
                crate::text::text_of(name),
                now,
                true,
                crate::text::texts_of(files@),
            ),
    {
        self.automatic.upload_latest_candidate(now, files)
    }

    /// An upload has ended, whatever came of it.
    pub fn release_automatic_upload(&mut self)
        ensures
            final(self)@ == (DiagnosticsView { upload_in_progress: false, ..old(self)@ }),
    {
        self.automatic.release_upload();
    }

    /// A report was delivered; `files` is what is left in the queue.
    pub fn automatic_upload_succeeded(&mut self, now: i64, files: &Vec<String>)
        ensures
            final(self)@ == (DiagnosticsView {
                automatic: crate::automatic_diagnostics::state_after_success(
                    old(self)@.automatic,
                    crate::text::texts_of(files@),
                    now,
                ),
                ..old(self)@
            }),
    {
        self.automatic.upload_succeeded(now, files);
    }

    /// An upload has failed. Returns how long to wait before the next one.
    pub fn automatic_upload_failed(&mut self, now: i64) -> (delay: i64)
        ensures
            delay == crate::automatic_diagnostics::retry_delay(
                old(self)@.automatic.retry_attempt as nat,
            ),
            final(self)@ == (DiagnosticsView {
                automatic: crate::automatic_diagnostics::state_after_failure(
                    old(self)@.automatic,
                    now,
                ),
                ..old(self)@
            }),
    {
        self.automatic.upload_failed(now)
    }
}

/// The next interval of a session that goes on is measured from the very end
/// of the last one: its baseline is the one that its report will need.
pub proof fn law_next_interval_has_its_baseline(
    seal: crate::automatic_diagnostics::SealView,
    next: crate::automatic_diagnostics::SealView,
    snapshot: ResourceSnapshot,
)
    requires
        next.session_id == seal.session_id,
        next.started_at == seal.ended_at,
    ensures
        baseline_matches(
            (BaselineView {
                session_id: seal.session_id,
                interval_started_at: seal.ended_at,
                snapshot,
            }),
            next,
        ),
{
}

} // verus!
