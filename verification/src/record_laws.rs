//! What holds of what is noted and reported: every note says what has happened
//! and when, a report says what its interval was, and only what the panel has
//! counts as delivered.
use crate::automatic_diagnostics::{AutomaticError, AutomaticStateView, SealView};
use crate::command_records::{
    inventory_entry, startup_entry, startup_timeout, InventoryOutcome, StartupOutcome,
};
use crate::diagnostics::{
    baseline_matches, candidate_taken, capped_millis, core_entry, failure_kind, grown_since,
    handshake_age, holds_sources, metrics_entry, reports_seal, with_entry, BaselineView,
    CoreLogEvent, DiagnosticUploadRequest, DiagnosticsView, EntryView, ReportSources,
};
use crate::errors::{ApplicationError, CoreApiError};
use crate::metrics_scheduler::diagnostics_due;
use crate::report_delivery::{delivery_entry, state_after_delivery, SentReport, UploadOutcome};
use crate::schedulers::{verdict_is, UploadVerdict};
use crate::tunnel::TunnelMetrics;
use vstd::prelude::*;

verus! {

/// A note is added behind all others, and changes nothing else.
pub proof fn law_note_comes_last(diagnostics: DiagnosticsView, entry: EntryView)
    ensures
        ({
            let after = with_entry(diagnostics, entry);
            &&& after.outbox.len() == diagnostics.outbox.len() + 1
            &&& after.outbox.last() == entry
            &&& after.outbox.drop_last() =~= diagnostics.outbox
            &&& after.automatic == diagnostics.automatic
            &&& after.upload_in_progress == diagnostics.upload_in_progress
            &&& after.resource_baseline == diagnostics.resource_baseline
            &&& after.automatic_resource_baseline == diagnostics.automatic_resource_baseline
        }),
{
}

/// What a counter is said to have grown by leads from the earlier reading to
/// the later one; where it was started anew, it has grown by all it shows.
pub proof fn law_noted_growth_leads_from_reading_to_reading(
    previous: u64,
    current: u64,
    next: u64,
)
    ensures
        previous <= current ==> previous + grown_since(Some(previous), current) == current,
        current < previous ==> grown_since(Some(previous), current) == current,
        grown_since(None, current) == current,
        previous <= current <= next ==> grown_since(Some(previous), current) + grown_since(
            Some(current),
            next,
        ) == grown_since(Some(previous), next),
{
}

/// The age of a handshake in whole seconds leads from it to now, and there is
/// none of a handshake that is yet to come.
pub proof fn law_noted_handshake_age(handshake_millis: u64, now_unix: i64)
    requires
        0 <= now_unix <= crate::diagnostics::LAST_LOGGED_SECOND,
    ensures
        handshake_millis >= now_unix * 1_000 ==> handshake_age(handshake_millis, now_unix) == 0,
        handshake_millis <= now_unix * 1_000 ==> handshake_millis + handshake_age(
            handshake_millis,
            now_unix,
        ) * 1_000 <= now_unix * 1_000 < handshake_millis + (handshake_age(
            handshake_millis,
            now_unix,
        ) + 1) * 1_000,
{
}

/// What is noted of a reading: its counters as they are, how much each has
/// grown by its own, and of a probe whether it was made, whether it succeeded
/// and how long it took.
pub proof fn law_reading_is_noted_as_it_was(
    session: Seq<char>,
    sample: TunnelMetrics,
    previous: Option<TunnelMetrics>,
    probe: Option<Option<u32>>,
    now_unix: i64,
)
    ensures
        match metrics_entry(session, sample, previous, probe, now_unix) {
            EntryView::TunnelMetrics {
                timestamp_unix,
                kind,
                session_id,
                received_bytes,
                sent_bytes,
                received_delta_bytes,
                sent_delta_bytes,
                latest_handshake_epoch_millis,
                handshake_age_seconds,
                probe_succeeded,
                latency_ms,
            } => {
                &&& timestamp_unix == now_unix
                &&& kind == "tunnel.data_plane_snapshot"@
                &&& session_id == session
                &&& received_bytes == sample.received_bytes
                &&& sent_bytes == sample.sent_bytes
                &&& previous is None ==> received_delta_bytes == sample.received_bytes
                    && sent_delta_bytes == sample.sent_bytes
                &&& previous matches Some(before) ==> (before.received_bytes
                    <= sample.received_bytes ==> before.received_bytes + received_delta_bytes
                    == sample.received_bytes) && (before.sent_bytes <= sample.sent_bytes
                    ==> before.sent_bytes + sent_delta_bytes == sample.sent_bytes)
                &&& latest_handshake_epoch_millis == sample.latest_handshake_epoch_millis
                &&& handshake_age_seconds is Some <==> sample.latest_handshake_epoch_millis is Some
                &&& probe is None ==> probe_succeeded is None && latency_ms is None
                &&& probe is Some ==> latency_ms == probe->0
                &&& probe is Some && probe->0 is Some ==> probe_succeeded == Some(true)
                &&& probe is Some && probe->0 is None ==> probe_succeeded == Some(false)
            },
            _ => false,
        },
{
}

/// An event of the core is noted under its own names and at the time of the
/// note.
pub proof fn law_event_is_noted_as_it_was(core: CoreLogEvent, duration: Option<u64>, now: i64)
    ensures
        match core_entry(core, duration, now) {
            EntryView::Event {
                timestamp_unix,
                kind,
                operation_id,
                request_id,
                code,
                duration_ms,
            } => {
                &&& timestamp_unix == now
                &&& kind == core.kind@
                &&& duration_ms == duration
                &&& operation_id is Some <==> core.operation_id is Some
                &&& request_id is Some <==> core.request_id is Some
                &&& code is Some <==> core.code is Some
                &&& core.operation_id is Some ==> operation_id->0 == core.operation_id->0@
                &&& core.request_id is Some ==> request_id->0 == core.request_id->0@
                &&& core.code is Some ==> code->0 == core.code->0@
            },
            _ => false,
        },
        forall|millis: u128|
            #![trigger capped_millis(millis)]
            (millis <= u64::MAX ==> capped_millis(millis) == millis) && (millis > u64::MAX
                ==> capped_millis(millis) == u64::MAX),
{
}

/// A report on a sealed interval names the interval by its ends, its session
/// and its number, and is dated at its end.
pub proof fn law_report_says_what_its_interval_was(report: DiagnosticUploadRequest, seal: SealView)
    requires
        reports_seal(report, seal),
    ensures
        report.report_id is Some && report.report_id->0@ == seal.report_id,
        report.tunnel_session_id is Some && report.tunnel_session_id->0@ == seal.session_id,
        report.trigger@ == seal.trigger,
        report.sequence == Some(seal.sequence),
        report.interval_started_at_unix == Some(seal.started_at),
        report.interval_ended_at_unix == Some(seal.ended_at),
        report.generated_at_unix == seal.ended_at,
        report.tunnel_running == Some(seal.tunnel_running),
        report.connection_lease_id is Some <==> seal.connection_id is Some,
        seal.connection_id is Some ==> report.connection_lease_id->0@ == seal.connection_id->0,
{
}

/// A report holds what was gathered for it: versions and incidents as they are,
/// and each of its logs from the end of what was logged.
pub proof fn law_report_holds_what_was_gathered(
    report: DiagnosticUploadRequest,
    sources: ReportSources,
)
    requires
        holds_sources(report, sources),
    ensures
        report.network_incidents == sources.network_incidents,
        report.app_version == sources.app_version,
        report.platform_version == sources.platform_version,
        report.architecture == sources.architecture,
        ({
            let whole = sources.previous_log@ + sources.current_log@ + sources.startup_log@;
            let log = report.application_log@;
            &&& log.len() <= whole.len()
            &&& log == whole.skip(whole.len() - log.len())
            &&& crate::report_logs::bytes_of(whole) <= 320 * 1024 ==> log == whole
        }),
        sources.helper_log is None ==> report.helper_log is None,
        report.helper_log matches Some(log) ==> sources.helper_log is Some && log@.len()
            <= sources.helper_log->0@.len() && log@ == sources.helper_log->0@.skip(
            sources.helper_log->0@.len() - log@.len(),
        ),
{
    crate::report_logs::law_tail_is_the_longest_end_that_fits(
        sources.previous_log@ + sources.current_log@ + sources.startup_log@,
        327_680,
    );
    if sources.helper_log is Some {
        crate::report_logs::law_tail_is_the_longest_end_that_fits(
            sources.helper_log->0@,
            65_536,
        );
    }
}

/// The resources that a report tells of are those of its own interval: of the
/// same session, from the same beginning.
pub proof fn law_baseline_is_of_one_interval(baseline: BaselineView, seal: SealView)
    ensures
        baseline_matches(baseline, seal) <==> baseline.session_id == seal.session_id
            && baseline.interval_started_at == seal.started_at,
{
}

/// No report is taken while another is being sent; one that is taken is being
/// sent from then on, and nothing else changes but what the queue remembers.
pub proof fn law_reports_are_sent_one_at_a_time(
    before: DiagnosticsView,
    after: DiagnosticsView,
    name: Option<Seq<char>>,
    now: i64,
    latest: bool,
    names: Seq<Seq<char>>,
)
    requires
        candidate_taken(before, after, name, now, latest, names),
    ensures
        before.upload_in_progress ==> name is None && after == before,
        name is Some ==> !before.upload_in_progress && after.upload_in_progress,
        name is None && !before.upload_in_progress ==> !after.upload_in_progress,
        after.outbox == before.outbox,
        after.resource_baseline == before.resource_baseline,
        after.automatic_resource_baseline == before.automatic_resource_baseline,
        !latest && now < before.automatic.next_upload_at ==> name is None && after == before,
{
}

/// A report counts as delivered exactly where the panel has named that very
/// report; a failure is known by its own code, and an answer on another report
/// by one that says so.
pub proof fn law_only_the_named_report_is_delivered(
    verdict: UploadVerdict,
    expected: Option<Seq<char>>,
    answer: Result<String, ApplicationError>,
)
    requires
        verdict_is(verdict, expected, answer),
    ensures
        verdict is Delivered <==> match answer {
            Ok(named) => expected is Some && expected->0 == named@,
            Err(_) => false,
        },
        match verdict {
            UploadVerdict::Delivered => true,
            UploadVerdict::Failed { code } => match answer {
                Ok(_) => code@ == "invalid_diagnostics_response"@,
                Err(ApplicationError::Api(CoreApiError::Retryable)) => code@
                    == "temporary_network_error"@,
                Err(ApplicationError::Api(CoreApiError::Rejected { code: own, .. })) => code@
                    == own@,
                Err(_) => true,
            },
        },
{
}

/// A report that was delivered and put away lets the queue go on at once, with
/// what is left in it; the panel's name for it is noted.
pub proof fn law_delivery_is_noted(
    state: AutomaticStateView,
    report: SentReport,
    outcome: UploadOutcome,
    now_unix: i64,
)
    ensures
        match delivery_entry(report, outcome, now_unix) {
            EntryView::Event {
                timestamp_unix,
                kind,
                operation_id,
                request_id,
                code,
                duration_ms,
            } => {
                &&& timestamp_unix == now_unix
                &&& duration_ms is None
                &&& kind == "diagnostics.automatic_report_uploaded"@ <==> match outcome {
                    UploadOutcome::Delivered { archived, .. } => archived is Ok,
                    _ => false,
                }
                &&& match outcome {
                    UploadOutcome::Delivered { request_id: answered, .. } => request_id == Some(
                        answered@,
                    ),
                    _ => request_id is None,
                }
                &&& match outcome {
                    UploadOutcome::Failed { code: own } => code == Some(own@),
                    UploadOutcome::Unreadable { kind: own } => code == Some(own@),
                    UploadOutcome::Delivered { archived: Err(own), .. } => code == Some(own@),
                    UploadOutcome::Delivered { archived: Ok(_), .. } => code == Some(
                        report.trigger@,
                    ),
                }
                &&& !(outcome is Unreadable) ==> (operation_id is Some
                    <==> report.tunnel_session_id is Some)
                &&& !(outcome is Unreadable) && operation_id is Some ==> operation_id->0
                    == report.tunnel_session_id->0@
            },
            _ => false,
        },
        match outcome {
            UploadOutcome::Delivered { archived: Ok(_), .. } => state_after_delivery(
                state,
                outcome,
                now_unix,
            ).retry_attempt == 0,
            _ => state_after_delivery(state, outcome, now_unix).next_upload_at > state.next_upload_at
                || state_after_delivery(state, outcome, now_unix).next_upload_at >= now_unix,
        },
{
    reveal_strlit("diagnostics.automatic_report_uploaded");
    reveal_strlit("diagnostics.automatic_report_read_failed");
    reveal_strlit("diagnostics.automatic_sent_archive_failed");
    reveal_strlit("diagnostics.automatic_upload_failed");
    assert("diagnostics.automatic_report_uploaded"@.len() == 37);
    assert("diagnostics.automatic_report_read_failed"@.len() == 40);
    assert("diagnostics.automatic_sent_archive_failed"@.len() == 41);
    assert("diagnostics.automatic_upload_failed"@.len() == 35);
}

/// The end of the start is noted with how long it took, as ready only where it
/// is, and otherwise with the code of what went wrong.
pub proof fn law_end_of_the_start_is_noted(outcome: StartupOutcome, elapsed: u64, now_unix: i64)
    ensures
        match startup_entry(outcome, elapsed, now_unix) {
            EntryView::Event {
                timestamp_unix,
                kind,
                operation_id,
                request_id,
                code,
                duration_ms,
            } => {
                &&& timestamp_unix == now_unix
                &&& duration_ms == Some(elapsed)
                &&& operation_id is None
                &&& match outcome {
                    StartupOutcome::Ready { request_id: own } => kind
                        == "startup.bootstrap.ready"@ && request_id == Some(own@) && code is None,
                    StartupOutcome::Failed(error) => kind == "startup.bootstrap.failed"@
                        && request_id is None && code == Some(error.code@),
                    StartupOutcome::TimedOut => kind == "startup.bootstrap.failed"@
                        && request_id is None && code == Some(startup_timeout().code),
                }
            },
            _ => false,
        },
        startup_timeout().code == "startup_timeout"@,
{
}

/// A list of applications that was read is noted with their number, one that
/// was not with the code of what went wrong.
pub proof fn law_inventory_is_noted(outcome: InventoryOutcome, now_unix: i64)
    ensures
        match inventory_entry(outcome, now_unix) {
            EntryView::Event {
                timestamp_unix,
                kind,
                operation_id,
                request_id,
                code,
                duration_ms,
            } => {
                &&& timestamp_unix == now_unix
                &&& operation_id is None && request_id is None
                &&& match outcome {
                    InventoryOutcome::Listed { applications, elapsed_ms } => {
                        &&& kind == "startup.application_inventory.completed"@
                        &&& duration_ms == Some(elapsed_ms)
                        &&& code is Some
                        &&& "applications="@.is_prefix_of(code->0)
                        &&& crate::text::number_in(code->0.skip(13)) == Some(applications)
                    },
                    InventoryOutcome::Failed { error, elapsed_ms } => {
                        &&& kind == "startup.application_inventory.failed"@
                        &&& duration_ms == Some(elapsed_ms)
                        &&& code == Some(error.code@)
                    },
                    InventoryOutcome::WorkerUnavailable => {
                        &&& kind == "startup.application_inventory.failed"@
                        &&& duration_ms is None
                        &&& code == Some("worker_unavailable"@)
                    },
                }
            },
            _ => false,
        },
{
    if let InventoryOutcome::Listed { applications, elapsed_ms } = outcome {
        let number = crate::text::decimal(applications as nat);
        crate::text_laws::law_written_number_is_read_back(applications, applications);
        reveal_strlit("applications=");
        assert(("applications="@ + number).skip(13) =~= number);
    }
}

/// The diagnostics of a session are due with its first reading and then once a
/// minute has passed; those of another session are due at once.
pub proof fn law_diagnostics_are_due_every_minute(
    session: Seq<char>,
    other: Seq<char>,
    attempt: u64,
    now: u64,
)
    requires
        session != other,
    ensures
        diagnostics_due(None, session, Some(attempt), now),
        diagnostics_due(Some(other), session, Some(attempt), now),
        diagnostics_due(Some(session), session, None, now),
        diagnostics_due(Some(session), session, Some(attempt), now) <==> now - attempt >= 60
            * 1_000_000_000,
{
}

/// A failure of the queue is noted as that of its input only where the input is
/// to blame.
pub proof fn law_kind_of_a_failure_is_noted(error: AutomaticError)
    ensures
        failure_kind(error) == "other error"@ <==> error == AutomaticError::SealChanged || error
            == AutomaticError::SessionUnavailable,
        failure_kind(error) == "invalid input parameter"@ <==> error != AutomaticError::SealChanged
            && error != AutomaticError::SessionUnavailable,
{
    reveal_strlit("other error");
    reveal_strlit("invalid input parameter");
    assert("other error"@.len() == 11 && "invalid input parameter"@.len() == 23);
}

} // verus!
