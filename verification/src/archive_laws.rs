//! What holds of single incidents in the archive: how they are entered, closed
//! and selected, and what a compacted report still tells of them.
use crate::incident_archive::{
    archive_with_detection, archive_with_recovery, concerns, in_scope, incident_duration,
    is_oversized, legacy_time, named, needs_preparation, prepared_session, pruned_session,
    recovered, restricted, selected, session_position, session_with_detection,
    session_with_recovery, ArchiveView, IncidentView, NetworkIncidentArchive,
    NetworkIncidentCompaction, ScopeView, SessionView, SummaryView,
};
use crate::incident_compaction::{
    archive_at, compacted_samples, detected_times, earlier, earliest, ends_with, is_retained, later,
    latest, next_archive, next_stage, omitted_times, reached, retained_incidents, retained_place,
    step_after, summary_times, was_too_large, with_fewer_summaries, with_omission, without_details,
    CompactionStage, CompactionStep, SnapshotError,
};
use crate::network_incidents::NetworkIncidentSample;
use vstd::prelude::*;

verus! {

proof fn lemma_first_session(sessions: Seq<SessionView>, lease: Seq<char>, from: int)
    requires
        0 <= from <= sessions.len(),
    ensures
        ({
            let place = session_position(sessions, lease, from);
            &&& from <= place <= sessions.len()
            &&& place < sessions.len() ==> sessions[place].connection_lease_id == lease
            &&& forall|i: int|
                from <= i < place ==> (#[trigger] sessions[i]).connection_lease_id != lease
        }),
    decreases sessions.len() - from,
{
    if from < sessions.len() && sessions[from].connection_lease_id != lease {
        lemma_first_session(sessions, lease, from + 1);
    }
}

/// A detected stall is entered last of its session, as open and with the name
/// and the time that it was given: in detail, with its samples, while the
/// session has fewer than three details, and as a summary after that. Nothing
/// that was there is changed.
pub proof fn law_detection_is_entered_last(
    session: SessionView,
    id: Seq<char>,
    detected_at_unix: i64,
    samples: Seq<NetworkIncidentSample>,
)
    ensures
        ({
            let after = session_with_detection(session, id, detected_at_unix, samples);
            let entered = SummaryView {
                id,
                kind: "suspected_data_path_stall"@,
                detected_at_unix,
                recovered_at_unix: None,
                duration_ms: None,
                open: true,
            };
            &&& session.detailed.len() < 3 ==> {
                &&& after.detailed.len() == session.detailed.len() + 1
                &&& after.detailed.last().summary == entered
                &&& after.detailed.last().samples == samples
                &&& after.detailed.drop_last() =~= session.detailed
                &&& after.additional == session.additional
            }
            &&& session.detailed.len() >= 3 ==> {
                &&& after.detailed == session.detailed
                &&& after.additional.len() == session.additional.len() + 1
                &&& after.additional.last() == entered
                &&& after.additional.drop_last() =~= session.additional
            }
            &&& after.connection_lease_id == session.connection_lease_id
            &&& after.device_id == session.device_id
            &&& after.additional_count == session.additional_count
            &&& after.first_additional_at_unix == session.first_additional_at_unix
            &&& after.last_additional_at_unix == session.last_additional_at_unix
        }),
{
}

/// A detection belongs to the first session of its lease, which learns its
/// device where it knew none, and to a new one, placed last, where the lease
/// has none. All other sessions stay.
pub proof fn law_detection_belongs_to_its_lease(
    archive: ArchiveView,
    lease: Seq<char>,
    device: Option<Seq<char>>,
    id: Seq<char>,
    detected_at_unix: i64,
    samples: Seq<NetworkIncidentSample>,
)
    ensures
        ({
            let after = archive_with_detection(
                archive,
                lease,
                device,
                id,
                detected_at_unix,
                samples,
            );
            let known = exists|i: int|
                0 <= i < archive.sessions.len() && (#[trigger] archive.sessions[i]).connection_lease_id
                    == lease;
            &&& after.version == archive.version
            &&& after.compaction == archive.compaction
            &&& after.sessions.len() == archive.sessions.len() + (if known {
                0int
            } else {
                1
            })
            &&& forall|i: int|
                0 <= i < archive.sessions.len() && archive.sessions[i].connection_lease_id != lease
                    ==> #[trigger] after.sessions[i] == archive.sessions[i]
            &&& !known ==> {
                &&& after.sessions.last().connection_lease_id == lease
                &&& after.sessions.last().device_id == device
                &&& after.sessions.last().detailed.len() == 1
                &&& after.sessions.last().additional.len() == 0
                &&& after.sessions.last().additional_count == 0
            }
            &&& forall|i: int|
                0 <= i < archive.sessions.len() && archive.sessions[i].connection_lease_id == lease
                    && (forall|j: int|
                    0 <= j < i ==> (#[trigger] archive.sessions[j]).connection_lease_id != lease)
                    ==> {
                    &&& (#[trigger] after.sessions[i]).connection_lease_id == lease
                    &&& archive.sessions[i].device_id is None ==> after.sessions[i].device_id
                        == device
                    &&& archive.sessions[i].device_id is Some ==> after.sessions[i].device_id
                        == archive.sessions[i].device_id
                    &&& after.sessions[i].detailed.len() + after.sessions[i].additional.len()
                        == archive.sessions[i].detailed.len()
                        + archive.sessions[i].additional.len() + 1
                }
        }),
{
    lemma_first_session(archive.sessions, lease, 0);
}

/// An incident that has recovered keeps its name, its kind and when it was
/// detected; it lasted as many milliseconds as lie between the two times, and
/// none where the clock was set back.
pub proof fn law_recovered_incident_tells_how_long_it_lasted(
    incident: SummaryView,
    recovered_at_unix: i64,
)
    requires
        incident_duration(incident.detected_at_unix, recovered_at_unix) <= u64::MAX,
    ensures
        ({
            let after = recovered(incident, recovered_at_unix);
            &&& after.id == incident.id
            &&& after.kind == incident.kind
            &&& after.detected_at_unix == incident.detected_at_unix
            &&& after.recovered_at_unix == Some(recovered_at_unix)
            &&& !after.open
            &&& recovered_at_unix <= incident.detected_at_unix ==> after.duration_ms == Some(0u64)
            &&& 0 <= recovered_at_unix - incident.detected_at_unix <= i64::MAX ==> {
                &&& after.duration_ms is Some
                &&& after.duration_ms->0 == 1000 * (recovered_at_unix - incident.detected_at_unix)
            }
        }),
{
}

/// A recovery changes one incident at most, and one that was detected at the
/// time that is given: a detailed one before a summarised one. The samples stay.
pub proof fn law_recovery_changes_one_incident(
    session: SessionView,
    detected_at_unix: i64,
    recovered_at_unix: i64,
)
    ensures
        ({
            let after = session_with_recovery(session, detected_at_unix, recovered_at_unix);
            &&& after.detailed.len() == session.detailed.len()
            &&& after.additional.len() == session.additional.len()
            &&& after.connection_lease_id == session.connection_lease_id
            &&& after.device_id == session.device_id
            &&& after.additional_count == session.additional_count
            &&& forall|i: int|
                0 <= i < session.detailed.len() ==> {
                    &&& (#[trigger] after.detailed[i]).samples == session.detailed[i].samples
                    &&& after.detailed[i] != session.detailed[i]
                        ==> session.detailed[i].summary.detected_at_unix == detected_at_unix
                        && after.additional == session.additional
                }
            &&& forall|i: int|
                0 <= i < session.additional.len() && #[trigger] after.additional[i]
                    != session.additional[i] ==> session.additional[i].detected_at_unix
                    == detected_at_unix
            &&& forall|i: int, j: int|
                0 <= i < j < session.detailed.len() && after.detailed[i] != session.detailed[i]
                    ==> after.detailed[j] == session.detailed[j]
            &&& forall|i: int, j: int|
                0 <= i < j < session.additional.len() && after.additional[i]
                    != session.additional[i] ==> after.additional[j] == session.additional[j]
        }),
{
    lemma_first_incident(session.detailed, detected_at_unix, 0);
    lemma_first_summary(session.additional, detected_at_unix, 0);
}

proof fn lemma_first_incident(incidents: Seq<IncidentView>, at: i64, from: int)
    requires
        0 <= from <= incidents.len(),
    ensures
        ({
            let place = crate::incident_archive::incident_position(incidents, at, from);
            &&& from <= place <= incidents.len()
            &&& place < incidents.len() ==> incidents[place].summary.detected_at_unix == at
            &&& forall|i: int|
                from <= i < place ==> (#[trigger] incidents[i]).summary.detected_at_unix != at
        }),
    decreases incidents.len() - from,
{
    if from < incidents.len() && incidents[from].summary.detected_at_unix != at {
        lemma_first_incident(incidents, at, from + 1);
    }
}

proof fn lemma_first_summary(incidents: Seq<SummaryView>, at: i64, from: int)
    requires
        0 <= from <= incidents.len(),
    ensures
        ({
            let place = crate::incident_archive::summary_position(incidents, at, from);
            &&& from <= place <= incidents.len()
            &&& place < incidents.len() ==> incidents[place].detected_at_unix == at
            &&& forall|i: int| from <= i < place ==> (#[trigger] incidents[i]).detected_at_unix != at
        }),
    decreases incidents.len() - from,
{
    if from < incidents.len() && incidents[from].detected_at_unix != at {
        lemma_first_summary(incidents, at, from + 1);
    }
}

/// Whether `time` is none before the first limit and none after the last.
pub open spec fn lies_between(time: i64, first: Option<i64>, last: Option<i64>) -> bool {
    !(first is Some && time < first->0) && !(last is Some && last->0 < time)
}

/// A report holds of a session exactly the incidents that are open, or were
/// detected or recovered in its interval, ends included.
pub proof fn law_report_holds_what_happened_in_its_interval(
    session: SessionView,
    scope: ScopeView,
    incident: IncidentView,
    summary: SummaryView,
)
    ensures
        ({
            let kept = restricted(session, scope);
            let first = scope.started_at_unix;
            let last = scope.ended_at_unix;
            &&& kept.detailed.contains(incident) <==> session.detailed.contains(incident) && (
            incident.summary.open || lies_between(incident.summary.detected_at_unix, first, last)
                || (incident.summary.recovered_at_unix is Some && lies_between(
                incident.summary.recovered_at_unix->0,
                first,
                last,
            )))
            &&& kept.additional.contains(summary) <==> session.additional.contains(summary) && (
            summary.open || lies_between(summary.detected_at_unix, first, last) || (
            summary.recovered_at_unix is Some && lies_between(
                summary.recovered_at_unix->0,
                first,
                last,
            )))
            &&& kept.connection_lease_id == session.connection_lease_id
            &&& kept.device_id == session.device_id
            &&& kept.additional_count == session.additional_count
        }),
{
    broadcast use vstd::seq_lib::group_seq_properties;

    let kept = restricted(session, scope);
    let details = |incident: IncidentView|
        concerns(incident.summary, scope.started_at_unix, scope.ended_at_unix);
    let summaries = |incident: SummaryView|
        concerns(incident, scope.started_at_unix, scope.ended_at_unix);
    lemma_filter_contains(session.detailed, details, incident);
    lemma_filter_contains(session.additional, summaries, summary);
}

pub(crate) proof fn lemma_filter_contains<A>(values: Seq<A>, keep: spec_fn(A) -> bool, value: A)
    ensures
        values.filter(keep).contains(value) <==> values.contains(value) && keep(value),
    decreases values.len(),
{
    reveal(Seq::filter);
    if values.len() > 0 {
        let rest = values.drop_last();
        lemma_filter_contains(rest, keep, value);
        assert(values.contains(value) <==> rest.contains(value) || values.last() == value) by {
            if values.contains(value) {
                let i = choose|i: int| 0 <= i < values.len() && values[i] == value;
                if i < values.len() - 1 {
                    assert(rest[i] == value);
                }
            }
            if rest.contains(value) {
                let i = choose|i: int| 0 <= i < rest.len() && rest[i] == value;
                assert(values[i] == value);
            }
            if values.last() == value {
                assert(values[values.len() - 1] == value);
            }
        }
        let kept = rest.filter(keep);
        if keep(values.last()) {
            let more = kept.push(values.last());
            assert(values.filter(keep) == more);
            assert(more.contains(value) <==> kept.contains(value) || values.last() == value) by {
                if more.contains(value) {
                    let i = choose|i: int| 0 <= i < more.len() && more[i] == value;
                    if i < kept.len() {
                        assert(kept[i] == value);
                    }
                }
                if kept.contains(value) {
                    let i = choose|i: int| 0 <= i < kept.len() && kept[i] == value;
                    assert(more[i] == value);
                }
                if values.last() == value {
                    assert(more[more.len() - 1] == value);
                }
            }
        } else {
            assert(values.filter(keep) == kept);
        }
    }
}

/// A report is on the lease and the device that it asks for, and on any where
/// it asks for none. It holds no session without incidents.
pub proof fn law_report_is_on_what_it_asks_for(
    archive: ArchiveView,
    scope: ScopeView,
    session: SessionView,
)
    ensures
        in_scope(session, scope) <==> (scope.connection_id is None || scope.connection_id == Some(
            session.connection_lease_id,
        )) && (scope.device_id is None || scope.device_id == session.device_id),
        selected(archive, scope).sessions.contains(session) ==> session.detailed.len() > 0
            || session.additional.len() > 0,
        selected(archive, scope).version == archive.version,
        selected(archive, scope).compaction == archive.compaction,
{
    let inside = archive.sessions.filter(|session: SessionView| in_scope(session, scope));
    let narrowed = inside.map_values(|session: SessionView| restricted(session, scope));
    lemma_filter_contains(
        narrowed,
        |session: SessionView| crate::incident_archive::has_incidents(session),
        session,
    );
}

/// Of its own lease a delivered report removes exactly the incidents that it
/// named, but for those that were open in it where they are to be kept; of
/// another lease it removes nothing.
pub proof fn law_delivery_removes_what_was_named(
    session: SessionView,
    lease: Seq<char>,
    named_ids: Seq<Seq<char>>,
    open_ids: Seq<Seq<char>>,
    retain_open: bool,
    incident: IncidentView,
    summary: SummaryView,
)
    ensures
        ({
            let after = pruned_session(session, lease, named_ids, open_ids, retain_open);
            let own = session.connection_lease_id == lease;
            &&& !own ==> after == session
            &&& own ==> (after.detailed.contains(incident) <==> session.detailed.contains(incident)
                && (!named_ids.contains(incident.summary.id) || retain_open && open_ids.contains(
                incident.summary.id,
            )))
            &&& own ==> (after.additional.contains(summary) <==> session.additional.contains(
                summary,
            ) && (!named_ids.contains(summary.id) || retain_open && open_ids.contains(summary.id)))
            &&& after.connection_lease_id == session.connection_lease_id
            &&& after.device_id == session.device_id
            &&& after.additional_count == session.additional_count
        }),
{
    lemma_filter_contains(
        session.detailed,
        |incident: IncidentView|
            !crate::incident_archive::is_pruned(
                incident.summary.id,
                named_ids,
                open_ids,
                retain_open,
            ),
        incident,
    );
    lemma_filter_contains(
        session.additional,
        |incident: SummaryView|
            !crate::incident_archive::is_pruned(incident.id, named_ids, open_ids, retain_open),
        summary,
    );
}

/// Of more than twelve samples a compacted incident keeps the first six and the
/// last six, in their order; of up to twelve it keeps all.
pub proof fn law_compacted_incident_keeps_its_ends(samples: Seq<NetworkIncidentSample>)
    ensures
        ({
            let kept = compacted_samples(samples);
            &&& samples.len() <= 12 ==> kept == samples
            &&& samples.len() > 12 ==> {
                &&& kept.len() == 12
                &&& forall|i: int| 0 <= i < 6 ==> #[trigger] kept[i] == samples[i]
                &&& forall|i: int|
                    6 <= i < 12 ==> #[trigger] kept[i] == samples[samples.len() - 12 + i]
            }
        }),
{
}

/// The earliest of some times is one of them that none precedes, the latest one
/// that none follows; there is none only of no times.
pub proof fn law_earliest_and_latest_are_the_ends(times: Seq<i64>)
    ensures
        earliest(times) is None <==> times.len() == 0,
        latest(times) is None <==> times.len() == 0,
        times.len() > 0 ==> times.contains(earliest(times)->0) && times.contains(latest(times)->0),
        forall|i: int|
            0 <= i < times.len() ==> earliest(times)->0 <= #[trigger] times[i] <= latest(times)->0,
    decreases times.len(),
{
    if times.len() > 0 {
        let rest = times.drop_last();
        law_earliest_and_latest_are_the_ends(rest);
        assert(times[times.len() - 1] == times.last());
        if rest.len() > 0 {
            let first = choose|i: int| 0 <= i < rest.len() && rest[i] == earliest(rest)->0;
            let last = choose|i: int| 0 <= i < rest.len() && rest[i] == latest(rest)->0;
            assert(times[first] == earliest(rest)->0);
            assert(times[last] == latest(rest)->0);
        }
        assert forall|i: int| 0 <= i < times.len() implies earliest(times)->0 <= #[trigger] times[i]
            <= latest(times)->0 by {
            if i < times.len() - 1 {
                assert(rest[i] == times[i]);
            }
        }
    }
}

/// What stands for the first and the last time of a group covers everything
/// that joins the group, and is still one of the times that went into it.
pub proof fn law_range_covers_what_joins_it(left: Option<i64>, right: Option<i64>)
    ensures
        earlier(left, right) == left || earlier(left, right) == right,
        later(left, right) == left || later(left, right) == right,
        earlier(left, right) is None <==> left is None && right is None,
        later(left, right) is None <==> left is None && right is None,
        left is Some ==> earlier(left, right)->0 <= left->0 <= later(left, right)->0,
        right is Some ==> earlier(left, right)->0 <= right->0 <= later(left, right)->0,
{
}

/// Giving up the details of a session keeps its summaries and counts the
/// incidents, and the time in which they were detected covers each of them.
pub proof fn law_details_that_are_given_up_are_covered(session: SessionView)
    requires
        session.additional_count + session.detailed.len() <= u64::MAX,
    ensures
        ({
            let after = without_details(session);
            &&& after.detailed.len() == 0
            &&& after.additional == session.additional
            &&& after.additional_count == session.additional_count + session.detailed.len()
            &&& after.connection_lease_id == session.connection_lease_id
            &&& after.device_id == session.device_id
            &&& forall|i: int|
                0 <= i < session.detailed.len() ==> after.first_additional_at_unix is Some
                    && after.last_additional_at_unix is Some && after.first_additional_at_unix->0
                    <= (#[trigger] session.detailed[i]).summary.detected_at_unix
                    <= after.last_additional_at_unix->0
            &&& session.first_additional_at_unix is Some ==> after.first_additional_at_unix->0
                <= session.first_additional_at_unix->0
            &&& session.last_additional_at_unix is Some ==> after.last_additional_at_unix->0
                >= session.last_additional_at_unix->0
        }),
{
    let times = detected_times(session.detailed);
    law_earliest_and_latest_are_the_ends(times);
    assert forall|i: int| 0 <= i < session.detailed.len() implies ({
        let after = without_details(session);
        after.first_additional_at_unix is Some && after.last_additional_at_unix is Some
            && after.first_additional_at_unix->0 <= (#[trigger] session.detailed[i]).summary.detected_at_unix
            <= after.last_additional_at_unix->0
    }) by {
        assert(times[i] == session.detailed[i].summary.detected_at_unix);
    }
}

/// A session that is left out is counted with all its incidents, and the time
/// that the note covers holds each of them.
pub proof fn law_session_that_is_left_out_is_covered(
    noted: NetworkIncidentCompaction,
    session: SessionView,
)
    requires
        noted.omitted_session_count < u64::MAX,
        noted.omitted_incident_count + session.additional_count + session.additional.len()
            + session.detailed.len() <= u64::MAX,
    ensures
        ({
            let after = with_omission(Some(noted), session);
            let first = after.first_omitted_at_unix;
            let last = after.last_omitted_at_unix;
            &&& after.omitted_session_count == noted.omitted_session_count + 1
            &&& after.omitted_incident_count == noted.omitted_incident_count
                + session.additional_count + session.additional.len() + session.detailed.len()
            &&& forall|i: int|
                0 <= i < session.detailed.len() ==> first is Some && last is Some && first->0 <= (
                #[trigger] session.detailed[i]).summary.detected_at_unix <= last->0
            &&& forall|i: int|
                0 <= i < session.additional.len() ==> first is Some && last is Some && first->0 <= (
                #[trigger] session.additional[i]).detected_at_unix <= last->0
            &&& noted.first_omitted_at_unix is Some ==> first is Some && first->0
                <= noted.first_omitted_at_unix->0
            &&& noted.last_omitted_at_unix is Some ==> last is Some && last->0
                >= noted.last_omitted_at_unix->0
            &&& session.first_additional_at_unix is Some ==> first is Some && first->0
                <= session.first_additional_at_unix->0
            &&& session.last_additional_at_unix is Some ==> last is Some && last->0
                >= session.last_additional_at_unix->0
        }),
        with_omission(None, session).omitted_session_count == 1,
        with_omission(None, session).omitted_incident_count == session.additional_count
            + session.additional.len() + session.detailed.len(),
{
    let details = detected_times(session.detailed);
    let summaries = summary_times(session.additional);
    law_earliest_and_latest_are_the_ends(details);
    law_earliest_and_latest_are_the_ends(summaries);
    let after = with_omission(Some(noted), session);
    let first = after.first_omitted_at_unix;
    let last = after.last_omitted_at_unix;
    assert forall|i: int| 0 <= i < session.detailed.len() implies first is Some && last is Some
        && first->0 <= (#[trigger] session.detailed[i]).summary.detected_at_unix <= last->0 by {
        assert(details[i] == session.detailed[i].summary.detected_at_unix);
    }
    assert forall|i: int| 0 <= i < session.additional.len() implies first is Some && last is Some
        && first->0 <= (#[trigger] session.additional[i]).detected_at_unix <= last->0 by {
        assert(summaries[i] == session.additional[i].detected_at_unix);
    }
}

/// Of many summaries a compacted session keeps the first and the last, and the
/// others at equal distances between them; of up to 64 it keeps all.
pub proof fn law_retained_summaries_are_spread_evenly(count: int, sample: int)
    requires
        count > 64,
        63 * (count - 1) <= usize::MAX,
        0 <= sample < 63,
    ensures
        is_retained(count, 0),
        is_retained(count, count - 1),
        is_retained(count, retained_place(count, sample)),
        retained_place(count, sample) < retained_place(count, sample + 1) < count,
        retained_place(count, sample + 1) - retained_place(count, sample) <= (count - 1) / 63 + 1,
        retained_place(count, sample + 1) - retained_place(count, sample) >= (count - 1) / 63,
{
    let span = count - 1;
    let here = sample * span;
    let there = (sample + 1) * span;
    assert(there == here + span) by (nonlinear_arith)
        requires
            here == sample * span,
            there == (sample + 1) * span,
    ;
    assert(0 <= here && there <= 63 * span) by (nonlinear_arith)
        requires
            0 <= sample < 63,
            span >= 64,
            here == sample * span,
            there == (sample + 1) * span,
    ;
    assert(retained_place(count, sample) == here / 63);
    assert(retained_place(count, sample + 1) == there / 63);
    assert(0 * span == 0 && 63 * span <= usize::MAX);
    assert(retained_place(count, 0) == 0);
    assert(retained_place(count, 63) == span);
}

/// The summaries that a compacted session no longer lists are covered by the
/// time that it gives for them.
pub proof fn law_summaries_that_are_given_up_are_covered(session: SessionView)
    requires
        session.additional.len() > 64,
    ensures
        ({
            let after = with_fewer_summaries(session);
            &&& after.detailed == session.detailed
            &&& after.connection_lease_id == session.connection_lease_id
            &&& after.device_id == session.device_id
            &&& forall|i: int|
                0 <= i < session.additional.len() && !is_retained(
                    session.additional.len() as int,
                    i,
                ) ==> after.first_additional_at_unix is Some && after.last_additional_at_unix is Some
                    && after.first_additional_at_unix->0 <= (
                #[trigger] session.additional[i]).detected_at_unix
                    <= after.last_additional_at_unix->0
            &&& forall|i: int|
                0 <= i < session.additional.len() && is_retained(
                    session.additional.len() as int,
                    i,
                ) ==> after.additional.contains(#[trigger] session.additional[i])
            &&& session.first_additional_at_unix is Some ==> after.first_additional_at_unix->0
                <= session.first_additional_at_unix->0
            &&& session.last_additional_at_unix is Some ==> after.last_additional_at_unix->0
                >= session.last_additional_at_unix->0
        }),
        forall|other: SessionView|
            other.additional.len() <= 64 ==> #[trigger] with_fewer_summaries(other) == other,
{
    let count = session.additional.len() as int;
    let omitted = omitted_times(session.additional, count);
    law_earliest_and_latest_are_the_ends(omitted);
    assert forall|i: int| 0 <= i < count && !is_retained(count, i) implies ({
        let after = with_fewer_summaries(session);
        after.first_additional_at_unix is Some && after.last_additional_at_unix is Some
            && after.first_additional_at_unix->0 <= (#[trigger] session.additional[i]).detected_at_unix
            <= after.last_additional_at_unix->0
    }) by {
        lemma_listed_or_omitted(session.additional, count, i);
        let at = choose|at: int|
            0 <= at < omitted.len() && omitted[at] == session.additional[i].detected_at_unix;
        assert(omitted[at] == session.additional[i].detected_at_unix);
    }
    assert forall|i: int| 0 <= i < count && is_retained(count, i) implies with_fewer_summaries(
        session,
    ).additional.contains(#[trigger] session.additional[i]) by {
        lemma_listed_or_omitted(session.additional, count, i);
    }
}

proof fn lemma_listed_or_omitted(incidents: Seq<SummaryView>, upto: int, i: int)
    requires
        0 <= i < upto <= incidents.len(),
    ensures
        is_retained(incidents.len() as int, i) ==> retained_incidents(incidents, upto).contains(
            incidents[i],
        ),
        !is_retained(incidents.len() as int, i) ==> omitted_times(incidents, upto).contains(
            incidents[i].detected_at_unix,
        ),
    decreases upto,
{
    let listed = retained_incidents(incidents, upto);
    let omitted = omitted_times(incidents, upto);
    let before = retained_incidents(incidents, upto - 1);
    let omitted_before = omitted_times(incidents, upto - 1);
    if i == upto - 1 {
        if is_retained(incidents.len() as int, i) {
            assert(listed[listed.len() - 1] == incidents[i]);
        } else {
            assert(omitted[omitted.len() - 1] == incidents[i].detected_at_unix);
        }
    } else {
        lemma_listed_or_omitted(incidents, upto - 1, i);
        if is_retained(incidents.len() as int, i) {
            let at = choose|at: int| 0 <= at < before.len() && before[at] == incidents[i];
            assert(listed[at] == incidents[i]);
        } else {
            let at = choose|at: int|
                0 <= at < omitted_before.len() && omitted_before[at]
                    == incidents[i].detected_at_unix;
            assert(omitted[at] == incidents[i].detected_at_unix);
        }
    }
}

/// A report of up to 61440 bytes is delivered as it is. A larger one gives up
/// first most of its summaries and samples, then all samples, then the details,
/// and after that one session at a time, the oldest first; it is refused only
/// where one session at most is left.
pub proof fn law_report_is_made_smaller_step_by_step(
    archive: ArchiveView,
    stage: CompactionStage,
    payload_bytes: usize,
)
    ensures
        payload_bytes <= 61_440 <==> step_after(archive, stage, payload_bytes)
            == CompactionStep::Ready,
        step_after(archive, stage, payload_bytes) == CompactionStep::TooLarge <==> payload_bytes
            > 61_440 && stage == CompactionStage::Counted && archive.sessions.len() <= 1,
        next_stage(CompactionStage::Complete) == CompactionStage::Compacted,
        next_stage(CompactionStage::Compacted) == CompactionStage::WithoutSamples,
        next_stage(CompactionStage::WithoutSamples) == CompactionStage::Counted,
        next_stage(CompactionStage::Counted) == CompactionStage::Counted,
        ({
            let after = next_archive(archive, stage);
            let kept = stage != CompactionStage::Counted;
            &&& after.version == archive.version
            &&& kept ==> after.sessions.len() == archive.sessions.len() && after.compaction
                == archive.compaction
            &&& !kept && archive.sessions.len() > 0 ==> after.sessions =~= archive.sessions.subrange(
                1,
                archive.sessions.len() as int,
            ) && after.compaction is Some
            &&& forall|i: int|
                0 <= i < archive.sessions.len() && kept ==> {
                    let before = archive.sessions[i];
                    let session = #[trigger] after.sessions[i];
                    &&& session.connection_lease_id == before.connection_lease_id
                    &&& session.device_id == before.device_id
                    &&& stage != CompactionStage::WithoutSamples ==> session.detailed.len()
                        == before.detailed.len() && (forall|k: int|
                        0 <= k < before.detailed.len() ==> (#[trigger] session.detailed[k]).summary
                            == before.detailed[k].summary)
                    &&& stage == CompactionStage::Complete ==> (forall|k: int|
                        0 <= k < before.detailed.len() ==> (#[trigger] session.detailed[k]).samples
                            == compacted_samples(before.detailed[k].samples))
                    &&& stage == CompactionStage::Compacted ==> session.additional
                        == before.additional && (forall|k: int|
                        0 <= k < before.detailed.len() ==> (
                        #[trigger] session.detailed[k]).samples.len() == 0)
                    &&& stage == CompactionStage::WithoutSamples ==> session.additional
                        == before.additional && session.detailed.len() == 0
                }
        }),
{
}

/// Incidents that were once only counted are spread over the time that was
/// kept: the first is given its beginning, the last its end, and each lies
/// between them.
pub proof fn law_counted_incidents_are_spread_over_their_time(
    session: SessionView,
    first: i64,
    last: i64,
    index: int,
)
    requires
        session.first_additional_at_unix == Some(first),
        session.last_additional_at_unix == Some(last),
        first <= last,
        2 <= session.additional_count <= 100_000,
        0 <= index < session.additional_count,
        (last - first) * session.additional_count <= i64::MAX,
    ensures
        legacy_time(session, 0) == first,
        legacy_time(session, session.additional_count - 1) == last,
        first <= legacy_time(session, index) <= last,
        index + 1 < session.additional_count ==> legacy_time(session, index) <= legacy_time(
            session,
            index + 1,
        ),
{
    let span = (last - first) as int;
    let gaps = session.additional_count - 1;
    assert(span <= span * session.additional_count) by (nonlinear_arith)
        requires
            span >= 0,
            session.additional_count >= 2,
    ;
    assert(0 <= span * index && span * index <= span * gaps && span * gaps <= span
        * session.additional_count) by (nonlinear_arith)
        requires
            span >= 0,
            0 <= index <= gaps,
            gaps + 1 == session.additional_count,
    ;
    assert(span * gaps / gaps == span) by (nonlinear_arith)
        requires
            gaps >= 1,
    ;
    assert(0 <= (span * index) / gaps <= span) by (nonlinear_arith)
        requires
            gaps >= 1,
            0 <= span * index <= span * gaps,
            span >= 0,
    ;
    assert(span * 0 == 0);
    assert(0int / gaps == 0) by (nonlinear_arith)
        requires
            gaps >= 1,
    ;
    if index + 1 < session.additional_count {
        assert(span * index <= span * (index + 1) && span * (index + 1) <= span * gaps)
            by (nonlinear_arith)
            requires
                span >= 0,
                index + 1 <= gaps,
        ;
        assert((span * index) / gaps <= (span * (index + 1)) / gaps) by (nonlinear_arith)
            requires
                gaps >= 1,
                span * index <= span * (index + 1),
        ;
        assert((span * (index + 1)) / gaps <= span) by (nonlinear_arith)
            requires
                gaps >= 1,
                span * (index + 1) <= span * gaps,
                span >= 0,
        ;
    }
}

/// Preparing a session names what had no name and lists what was only counted;
/// nothing that had a name is touched, and nothing is lost.
pub proof fn law_prepared_session_has_lost_nothing(
    before: SessionView,
    after: SessionView,
    i: int,
)
    requires
        prepared_session(before, after),
    ensures
        after.detailed.len() == before.detailed.len(),
        after.additional.len() == before.additional.len() + before.additional_count,
        after.additional_count == 0,
        after.connection_lease_id == before.connection_lease_id,
        after.device_id == before.device_id,
        0 <= i < before.detailed.len() && before.detailed[i].summary.id.len() > 0
            ==> after.detailed[i] == before.detailed[i],
        0 <= i < before.detailed.len() ==> after.detailed[i].summary.id.len() > 0
            && after.detailed[i].summary.detected_at_unix
            == before.detailed[i].summary.detected_at_unix && after.detailed[i].summary.open
            == before.detailed[i].summary.open,
        0 <= i < before.additional.len() && before.additional[i].id.len() > 0
            ==> after.additional[i] == before.additional[i],
        before.additional.len() <= i < after.additional.len() ==> !after.additional[i].open
            && after.additional[i].recovered_at_unix is None,
        before.additional_count == 0 ==> after.first_additional_at_unix
            == before.first_additional_at_unix && after.last_additional_at_unix
            == before.last_additional_at_unix,
        before.additional_count > 0 ==> after.first_additional_at_unix is None
            && after.last_additional_at_unix is None,
        !needs_preparation(after),
{
    assert forall|k: int| 0 <= k < after.detailed.len() implies (
    #[trigger] after.detailed[k]).summary.id.len() > 0 by {
        assert(named(before.detailed[k].summary, after.detailed[k].summary));
    }
    assert forall|k: int| 0 <= k < after.additional.len() implies (
    #[trigger] after.additional[k]).id.len() > 0 by {
        if k < before.additional.len() {
            assert(named(before.additional[k], after.additional[k]));
        }
    }
    if 0 <= i < before.detailed.len() {
        assert(named(before.detailed[i].summary, after.detailed[i].summary));
    }
    if 0 <= i < before.additional.len() {
        assert(named(before.additional[i], after.additional[i]));
    }
}

/// A report is refused exactly where one session at most is left, reduced to
/// counts, and is still too large: for an archive of one session that is the
/// fourth attempt.
pub proof fn law_single_session_is_refused_at_the_fourth_attempt<
    F: Fn(&NetworkIncidentArchive) -> Option<String>,
>(serialize: F, archive: ArchiveView, written: NetworkIncidentArchive)
    requires
        archive.sessions.len() <= 1,
        reached(serialize, archive, 3),
        written@ == archive_at(archive, 3),
        was_too_large(serialize, archive_at(archive, 3)),
    ensures
        ends_with(serialize, archive, 3, written, Err(SnapshotError::TooLarge)),
        archive_at(archive, 3).sessions.len() == archive.sessions.len(),
        forall|attempt: nat, payload: Result<String, SnapshotError>|
            attempt < 3 && #[trigger] ends_with(serialize, archive, attempt, written, payload)
                ==> payload != Err::<String, SnapshotError>(SnapshotError::TooLarge),
{
    reveal_with_fuel(archive_at, 4);
}

/// A recovery keeps every session of another lease, and the archive as it is
/// where it knows nothing of the lease.
pub proof fn law_recovery_belongs_to_its_lease(
    archive: ArchiveView,
    lease: Seq<char>,
    detected_at_unix: i64,
    recovered_at_unix: i64,
)
    ensures
        ({
            let after = archive_with_recovery(
                archive,
                lease,
                detected_at_unix,
                recovered_at_unix,
            );
            &&& after.version == archive.version
            &&& after.compaction == archive.compaction
            &&& after.sessions.len() == archive.sessions.len()
            &&& forall|i: int|
                0 <= i < archive.sessions.len() && archive.sessions[i].connection_lease_id != lease
                    ==> #[trigger] after.sessions[i] == archive.sessions[i]
            &&& (forall|i: int|
                0 <= i < archive.sessions.len() ==> (
                #[trigger] archive.sessions[i]).connection_lease_id != lease) ==> after == archive
            &&& forall|i: int, j: int|
                0 <= i < j < archive.sessions.len() && archive.sessions[i].connection_lease_id
                    == lease ==> after.sessions[j] == archive.sessions[j]
        }),
{
    lemma_first_session(archive.sessions, lease, 0);
}

/// An archive that only counts more than 100000 incidents of a session cannot
/// be listed; any other can.
pub proof fn law_too_many_counted_incidents_are_not_listed(session: SessionView)
    ensures
        is_oversized(session) <==> session.additional_count >= 100_001,
{
}

/// An attempt was too large exactly where what was written of it has more than
/// 61440 bytes.
pub proof fn law_attempt_is_too_large_by_its_bytes<
    F: Fn(&NetworkIncidentArchive) -> Option<String>,
>(serialize: F, archive: NetworkIncidentArchive, payload: String)
    requires
        call_ensures(serialize, (&archive,), Some(payload)),
    ensures
        crate::text::byte_len(payload@) > 61_440 ==> was_too_large(serialize, archive@),
        (forall|other: NetworkIncidentArchive, text: String|
            #[trigger] call_ensures(serialize, (&other,), Some(text)) && other@ == archive@
                ==> crate::text::byte_len(text@) <= 61_440) ==> !was_too_large(serialize, archive@),
{
}

} // verus!
