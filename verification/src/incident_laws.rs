//! What holds of the incident archive as a whole: nothing is reported twice,
//! nothing unreported is lost, and a compacted report still counts everything.
use crate::incident_archive::{
    ArchiveView, IncidentView, NetworkIncidentArchive, ScopeView, SessionView, SummaryView,
};
use crate::incident_compaction::{
    archive_at, archive_total, ends_with, incident_total, is_outcome, last_attempt, next_archive,
    reached, sessions_total, stage_at, was_too_large, CompactionStage, SnapshotError,
};
use crate::network_incidents::NetworkIncidentSample;
use vstd::prelude::*;

verus! {

/// An incident that was detected is in the archive.
pub proof fn law_detection_is_recorded(
    archive: ArchiveView,
    lease: Seq<char>,
    device: Option<Seq<char>>,
    id: Seq<char>,
    detected_at_unix: i64,
    samples: Seq<NetworkIncidentSample>,
)
    ensures
        crate::incident_archive::records_incident(
            crate::incident_archive::archive_with_detection(
                archive,
                lease,
                device,
                id,
                detected_at_unix,
                samples,
            ),
            lease,
            detected_at_unix,
        ),
{
    let after = crate::incident_archive::archive_with_detection(
        archive,
        lease,
        device,
        id,
        detected_at_unix,
        samples,
    );
    lemma_session_position(archive.sessions, lease, 0);
    let position = crate::incident_archive::session_position(archive.sessions, lease, 0);
    lemma_position_of_extension(archive.sessions, after.sessions, lease, 0);
    let session = after.sessions[position];
    if session.detailed.len() > 0 && session.detailed.last().summary.detected_at_unix
        == detected_at_unix {
        lemma_incident_found(session.detailed, detected_at_unix, 0, session.detailed.len() - 1);
    }
    if session.additional.len() > 0 && session.additional.last().detected_at_unix
        == detected_at_unix {
        lemma_summary_found(session.additional, detected_at_unix, 0, session.additional.len() - 1);
    }
}

proof fn lemma_session_position(sessions: Seq<SessionView>, lease: Seq<char>, from: int)
    requires
        0 <= from <= sessions.len(),
    ensures
        from <= crate::incident_archive::session_position(sessions, lease, from) <= sessions.len(),
        crate::incident_archive::session_position(sessions, lease, from) < sessions.len()
            ==> sessions[crate::incident_archive::session_position(
            sessions,
            lease,
            from,
        )].connection_lease_id == lease,
    decreases sessions.len() - from,
{
    if from < sessions.len() && sessions[from].connection_lease_id != lease {
        lemma_session_position(sessions, lease, from + 1);
    }
}

/// Changing the session that was found, or adding one where none was found,
/// leaves the search at the same place.
proof fn lemma_position_of_extension(
    before: Seq<SessionView>,
    after: Seq<SessionView>,
    lease: Seq<char>,
    from: int,
)
    requires
        0 <= from <= crate::incident_archive::session_position(before, lease, from),
        crate::incident_archive::session_position(before, lease, from) < after.len(),
        before.len() <= after.len(),
        after[crate::incident_archive::session_position(before, lease, from)].connection_lease_id
            == lease,
        forall|i: int|
            0 <= i < before.len() && i != crate::incident_archive::session_position(
                before,
                lease,
                from,
            ) ==> #[trigger] after[i] == before[i],
    ensures
        crate::incident_archive::session_position(after, lease, from)
            == crate::incident_archive::session_position(before, lease, from),
    decreases before.len() - from,
{
    if from < before.len() && before[from].connection_lease_id != lease {
        lemma_session_position(before, lease, from + 1);
        assert(after[from] == before[from]);
        lemma_position_of_extension(before, after, lease, from + 1);
    }
}

proof fn lemma_incident_found(incidents: Seq<IncidentView>, at: i64, from: int, place: int)
    requires
        0 <= from <= place < incidents.len(),
        incidents[place].summary.detected_at_unix == at,
    ensures
        from <= crate::incident_archive::incident_position(incidents, at, from) <= place,
        incidents[crate::incident_archive::incident_position(
            incidents,
            at,
            from,
        )].summary.detected_at_unix == at,
    decreases place - from,
{
    if incidents[from].summary.detected_at_unix != at {
        lemma_incident_found(incidents, at, from + 1, place);
    }
}

proof fn lemma_summary_found(incidents: Seq<SummaryView>, at: i64, from: int, place: int)
    requires
        0 <= from <= place < incidents.len(),
        incidents[place].detected_at_unix == at,
    ensures
        from <= crate::incident_archive::summary_position(incidents, at, from) <= place,
        incidents[crate::incident_archive::summary_position(incidents, at, from)].detected_at_unix
            == at,
    decreases place - from,
{
    if incidents[from].detected_at_unix != at {
        lemma_summary_found(incidents, at, from + 1, place);
    }
}

/// Whether the incident at `place` is closed and tells when and how.
pub open spec fn is_closed_at(
    incidents: Seq<SummaryView>,
    place: int,
    detected_at_unix: i64,
    recovered_at_unix: i64,
) -> bool {
    &&& 0 <= place < incidents.len()
    &&& !incidents[place].open
    &&& incidents[place].detected_at_unix == detected_at_unix
    &&& incidents[place].recovered_at_unix == Some(recovered_at_unix)
    &&& incidents[place].duration_ms == Some(
        crate::incident_archive::incident_duration(detected_at_unix, recovered_at_unix) as u64,
    )
}

/// A recovery closes one incident of that lease and time: it is no longer open
/// and tells when it recovered and how long it lasted. Sessions of other leases
/// stay as they were.
pub proof fn law_recovery_closes_the_incident(
    archive: ArchiveView,
    lease: Seq<char>,
    detected_at_unix: i64,
    recovered_at_unix: i64,
)
    requires
        crate::incident_archive::records_incident(archive, lease, detected_at_unix),
    ensures
        ({
            let after = crate::incident_archive::archive_with_recovery(
                archive,
                lease,
                detected_at_unix,
                recovered_at_unix,
            );
            let position = crate::incident_archive::session_position(archive.sessions, lease, 0);
            &&& after.sessions.len() == archive.sessions.len()
            &&& forall|i: int|
                0 <= i < after.sessions.len() && i != position ==> #[trigger] after.sessions[i]
                    == archive.sessions[i]
            &&& exists|place: int|
                #[trigger] is_closed_at(
                    crate::incident_archive::session_incidents(after.sessions[position]),
                    place,
                    detected_at_unix,
                    recovered_at_unix,
                )
        }),
{
    let after = crate::incident_archive::archive_with_recovery(
        archive,
        lease,
        detected_at_unix,
        recovered_at_unix,
    );
    lemma_session_position(archive.sessions, lease, 0);
    let position = crate::incident_archive::session_position(archive.sessions, lease, 0);
    let session = archive.sessions[position];
    let detailed = crate::incident_archive::incident_position(session.detailed, detected_at_unix, 0);
    let additional = crate::incident_archive::summary_position(
        session.additional,
        detected_at_unix,
        0,
    );
    lemma_positions_hold(session, detected_at_unix);
    let incidents = crate::incident_archive::session_incidents(after.sessions[position]);
    if detailed < session.detailed.len() {
        assert(is_closed_at(incidents, detailed, detected_at_unix, recovered_at_unix));
    } else {
        assert(is_closed_at(
            incidents,
            session.detailed.len() + additional,
            detected_at_unix,
            recovered_at_unix,
        ));
    }
}

proof fn lemma_positions_hold(session: SessionView, at: i64)
    ensures
        0 <= crate::incident_archive::incident_position(session.detailed, at, 0)
            <= session.detailed.len(),
        crate::incident_archive::incident_position(session.detailed, at, 0)
            < session.detailed.len() ==> session.detailed[crate::incident_archive::incident_position(
            session.detailed,
            at,
            0,
        )].summary.detected_at_unix == at,
        0 <= crate::incident_archive::summary_position(session.additional, at, 0)
            <= session.additional.len(),
        crate::incident_archive::summary_position(session.additional, at, 0)
            < session.additional.len()
            ==> session.additional[crate::incident_archive::summary_position(
            session.additional,
            at,
            0,
        )].detected_at_unix == at,
{
    lemma_incident_search(session.detailed, at, 0);
    lemma_summary_search(session.additional, at, 0);
}

proof fn lemma_incident_search(incidents: Seq<IncidentView>, at: i64, from: int)
    requires
        0 <= from <= incidents.len(),
    ensures
        from <= crate::incident_archive::incident_position(incidents, at, from) <= incidents.len(),
        crate::incident_archive::incident_position(incidents, at, from) < incidents.len()
            ==> incidents[crate::incident_archive::incident_position(
            incidents,
            at,
            from,
        )].summary.detected_at_unix == at,
    decreases incidents.len() - from,
{
    if from < incidents.len() && incidents[from].summary.detected_at_unix != at {
        lemma_incident_search(incidents, at, from + 1);
    }
}

proof fn lemma_summary_search(incidents: Seq<SummaryView>, at: i64, from: int)
    requires
        0 <= from <= incidents.len(),
    ensures
        from <= crate::incident_archive::summary_position(incidents, at, from) <= incidents.len(),
        crate::incident_archive::summary_position(incidents, at, from) < incidents.len()
            ==> incidents[crate::incident_archive::summary_position(
            incidents,
            at,
            from,
        )].detected_at_unix == at,
    decreases incidents.len() - from,
{
    if from < incidents.len() && incidents[from].detected_at_unix != at {
        lemma_summary_search(incidents, at, from + 1);
    }
}

/// Every incident of a session in scope that is open, or that was detected or
/// recovered in the interval, is named by the report.
pub proof fn law_report_names_every_concerned_incident(
    archive: ArchiveView,
    scope: ScopeView,
    session: int,
    incident: int,
)
    requires
        0 <= session < archive.sessions.len(),
        crate::incident_archive::in_scope(archive.sessions[session], scope),
        0 <= incident < crate::incident_archive::session_incidents(archive.sessions[session]).len(),
        crate::incident_archive::concerns(
            crate::incident_archive::session_incidents(archive.sessions[session])[incident],
            scope.started_at_unix,
            scope.ended_at_unix,
        ),
    ensures
        crate::incident_archive::ids_of(
            crate::incident_archive::all_incidents(
                crate::incident_archive::selected(archive, scope).sessions,
            ),
        ).contains(
            crate::incident_archive::session_incidents(archive.sessions[session])[incident].id,
        ),
{
    let original = archive.sessions[session];
    let narrow = |s: SessionView| crate::incident_archive::restricted(s, scope);
    let inside = |s: SessionView| crate::incident_archive::in_scope(s, scope);
    let useful = |s: SessionView| crate::incident_archive::has_incidents(s);
    let wanted = crate::incident_archive::session_incidents(original)[incident];
    let kept = narrow(original);
    let detail_pred = |i: IncidentView|
        crate::incident_archive::concerns(i.summary, scope.started_at_unix, scope.ended_at_unix);
    let summary_pred = |i: SummaryView|
        crate::incident_archive::concerns(i, scope.started_at_unix, scope.ended_at_unix);
    assert(crate::incident_archive::session_incidents(kept).contains(wanted)) by {
        if incident < original.detailed.len() {
            original.detailed.lemma_filter_contains(detail_pred, incident);
            let place = choose|j: int|
                0 <= j < kept.detailed.len() && kept.detailed[j] == original.detailed[incident];
            assert(crate::incident_archive::session_incidents(kept)[place] == wanted);
        } else {
            let offset = incident - original.detailed.len();
            original.additional.lemma_filter_contains(summary_pred, offset);
            let place = choose|j: int|
                0 <= j < kept.additional.len() && kept.additional[j] == original.additional[offset];
            assert(crate::incident_archive::session_incidents(kept)[kept.detailed.len() + place]
                == wanted);
        }
    }
    let first = archive.sessions.filter(inside);
    archive.sessions.lemma_filter_contains(inside, session);
    let j = choose|j: int| 0 <= j < first.len() && first[j] == original;
    let second = first.map_values(narrow);
    assert(second[j] == kept);
    assert(crate::incident_archive::has_incidents(kept));
    second.lemma_filter_contains(useful, j);
    let chosen = crate::incident_archive::selected(archive, scope).sessions;
    assert(chosen.contains(kept));
    let k = choose|k: int| 0 <= k < chosen.len() && chosen[k] == kept;
    lemma_all_incidents_contains(chosen, k, wanted);
    let all = crate::incident_archive::all_incidents(chosen);
    let at = choose|at: int| 0 <= at < all.len() && all[at] == wanted;
    assert(crate::incident_archive::ids_of(all)[at] == wanted.id);
}

proof fn lemma_all_incidents_contains(sessions: Seq<SessionView>, session: int, incident: SummaryView)
    requires
        0 <= session < sessions.len(),
        crate::incident_archive::session_incidents(sessions[session]).contains(incident),
    ensures
        crate::incident_archive::all_incidents(sessions).contains(incident),
    decreases sessions.len(),
{
    let rest = crate::incident_archive::all_incidents(sessions.drop_last());
    let own = crate::incident_archive::session_incidents(sessions.last());
    let all = crate::incident_archive::all_incidents(sessions);
    if session == sessions.len() - 1 {
        let place = choose|i: int| 0 <= i < own.len() && own[i] == incident;
        assert(all[rest.len() + place] == incident);
    } else {
        assert(sessions.drop_last()[session] == sessions[session]);
        lemma_all_incidents_contains(sessions.drop_last(), session, incident);
        let place = choose|i: int| 0 <= i < rest.len() && rest[i] == incident;
        assert(all[place] == incident);
    }
}

/// Once a report was delivered, no incident that it named is left in a session
/// of its lease, unless open ones were to be kept and it was open.
pub proof fn law_delivered_incidents_are_removed(
    archive: ArchiveView,
    lease: Seq<char>,
    incident_ids: Seq<Seq<char>>,
    open_incident_ids: Seq<Seq<char>>,
    retain_open: bool,
    session: int,
    incident: int,
)
    requires
        0 <= session < crate::incident_archive::pruned(
            archive,
            lease,
            incident_ids,
            open_incident_ids,
            retain_open,
        ).sessions.len(),
        crate::incident_archive::pruned(
            archive,
            lease,
            incident_ids,
            open_incident_ids,
            retain_open,
        ).sessions[session].connection_lease_id == lease,
        0 <= incident < crate::incident_archive::session_incidents(
            crate::incident_archive::pruned(
                archive,
                lease,
                incident_ids,
                open_incident_ids,
                retain_open,
            ).sessions[session],
        ).len(),
    ensures
        !crate::incident_archive::is_pruned(
            crate::incident_archive::session_incidents(
                crate::incident_archive::pruned(
                    archive,
                    lease,
                    incident_ids,
                    open_incident_ids,
                    retain_open,
                ).sessions[session],
            )[incident].id,
            incident_ids,
            open_incident_ids,
            retain_open,
        ),
{
    let shrink = |s: SessionView|
        crate::incident_archive::pruned_session(
            s,
            lease,
            incident_ids,
            open_incident_ids,
            retain_open,
        );
    let useful = |s: SessionView| crate::incident_archive::has_incidents(s);
    let mapped = archive.sessions.map_values(shrink);
    let kept = mapped.filter(useful)[session];
    assert(mapped.filter(useful).contains(kept));
    mapped.lemma_filter_contains_rev(useful, kept);
    let origin = choose|j: int| 0 <= j < mapped.len() && mapped[j] == kept;
    let original = archive.sessions[origin];
    assert(kept == shrink(original));
    let detail_pred = |i: IncidentView|
        !crate::incident_archive::is_pruned(
            i.summary.id,
            incident_ids,
            open_incident_ids,
            retain_open,
        );
    let summary_pred = |i: SummaryView|
        !crate::incident_archive::is_pruned(i.id, incident_ids, open_incident_ids, retain_open);
    if incident < kept.detailed.len() {
        original.detailed.lemma_filter_pred(detail_pred, incident);
    } else {
        original.additional.lemma_filter_pred(summary_pred, incident - kept.detailed.len());
    }
}

/// Whether the session at `place` belongs to `lease` and has the incident.
pub open spec fn holds_incident(
    sessions: Seq<SessionView>,
    place: int,
    lease: Seq<char>,
    incident: SummaryView,
) -> bool {
    &&& 0 <= place < sessions.len()
    &&& sessions[place].connection_lease_id == lease
    &&& crate::incident_archive::session_incidents(sessions[place]).contains(incident)
}

/// Delivering a report touches nothing else: an incident that it did not
/// remove, and every incident of another lease, is still in the archive.
pub proof fn law_unreported_incidents_are_kept(
    archive: ArchiveView,
    lease: Seq<char>,
    incident_ids: Seq<Seq<char>>,
    open_incident_ids: Seq<Seq<char>>,
    retain_open: bool,
    session: int,
    incident: int,
)
    requires
        0 <= session < archive.sessions.len(),
        0 <= incident < crate::incident_archive::session_incidents(archive.sessions[session]).len(),
        archive.sessions[session].connection_lease_id != lease
            || !crate::incident_archive::is_pruned(
            crate::incident_archive::session_incidents(archive.sessions[session])[incident].id,
            incident_ids,
            open_incident_ids,
            retain_open,
        ),
    ensures
        exists|kept: int|
            #[trigger] holds_incident(
                crate::incident_archive::pruned(
                    archive,
                    lease,
                    incident_ids,
                    open_incident_ids,
                    retain_open,
                ).sessions,
                kept,
                archive.sessions[session].connection_lease_id,
                crate::incident_archive::session_incidents(archive.sessions[session])[incident],
            ),
{
    let original = archive.sessions[session];
    let wanted = crate::incident_archive::session_incidents(original)[incident];
    let shrink = |s: SessionView|
        crate::incident_archive::pruned_session(
            s,
            lease,
            incident_ids,
            open_incident_ids,
            retain_open,
        );
    let useful = |s: SessionView| crate::incident_archive::has_incidents(s);
    let mapped = archive.sessions.map_values(shrink);
    let after = mapped[session];
    let detail_pred = |i: IncidentView|
        !crate::incident_archive::is_pruned(
            i.summary.id,
            incident_ids,
            open_incident_ids,
            retain_open,
        );
    let summary_pred = |i: SummaryView|
        !crate::incident_archive::is_pruned(i.id, incident_ids, open_incident_ids, retain_open);
    assert(crate::incident_archive::session_incidents(after).contains(wanted)) by {
        if original.connection_lease_id != lease {
            assert(crate::incident_archive::session_incidents(after)[incident] == wanted);
        } else if incident < original.detailed.len() {
            original.detailed.lemma_filter_contains(detail_pred, incident);
            let place = choose|j: int|
                0 <= j < after.detailed.len() && after.detailed[j] == original.detailed[incident];
            assert(crate::incident_archive::session_incidents(after)[place] == wanted);
        } else {
            let offset = incident - original.detailed.len();
            original.additional.lemma_filter_contains(summary_pred, offset);
            let place = choose|j: int|
                0 <= j < after.additional.len() && after.additional[j]
                    == original.additional[offset];
            assert(crate::incident_archive::session_incidents(after)[after.detailed.len() + place]
                == wanted);
        }
    }
    mapped.lemma_filter_contains(useful, session);
    let sessions = crate::incident_archive::pruned(
        archive,
        lease,
        incident_ids,
        open_incident_ids,
        retain_open,
    ).sessions;
    assert(sessions == mapped.filter(useful));
    let kept = choose|k: int| 0 <= k < sessions.len() && sessions[k] == after;
    assert(holds_incident(sessions, kept, original.connection_lease_id, wanted));
}

/// The whole of a lease.
pub open spec fn lease_scope(lease: Seq<char>) -> ScopeView {
    ScopeView {
        connection_id: Some(lease),
        device_id: None,
        started_at_unix: None,
        ended_at_unix: None,
    }
}

/// Delivering a report on everything that is known of a lease leaves nothing
/// to report on it.
pub proof fn law_delivered_lease_has_nothing_left_to_report(
    archive: ArchiveView,
    lease: Seq<char>,
    open_incident_ids: Seq<Seq<char>>,
)
    ensures
        crate::incident_archive::selected(
            crate::incident_archive::pruned(
                archive,
                lease,
                crate::incident_archive::ids_of(
                    crate::incident_archive::all_incidents(
                        crate::incident_archive::selected(archive, lease_scope(lease)).sessions,
                    ),
                ),
                open_incident_ids,
                false,
            ),
            lease_scope(lease),
        ).sessions.len() == 0,
{
    let scope = lease_scope(lease);
    let ids = crate::incident_archive::ids_of(
        crate::incident_archive::all_incidents(
            crate::incident_archive::selected(archive, scope).sessions,
        ),
    );
    let after = crate::incident_archive::pruned(archive, lease, ids, open_incident_ids, false);
    let inside = |s: SessionView| crate::incident_archive::in_scope(s, scope);
    let shrink = |s: SessionView|
        crate::incident_archive::pruned_session(s, lease, ids, open_incident_ids, false);
    let useful = |s: SessionView| crate::incident_archive::has_incidents(s);
    let mapped = archive.sessions.map_values(shrink);
    assert forall|k: int| 0 <= k < after.sessions.len() implies !inside(
        #[trigger] after.sessions[k],
    ) by {
        let kept = after.sessions[k];
        mapped.lemma_filter_pred(useful, k);
        assert(mapped.filter(useful).contains(kept));
        mapped.lemma_filter_contains_rev(useful, kept);
        let origin = choose|j: int| 0 <= j < mapped.len() && mapped[j] == kept;
        let original = archive.sessions[origin];
        if kept.connection_lease_id == lease {
            law_delivered_incidents_are_removed(
                archive,
                lease,
                ids,
                open_incident_ids,
                false,
                k,
                0,
            );
            let left = crate::incident_archive::session_incidents(kept)[0];
            lemma_pruned_incident_has_origin(original, lease, ids, open_incident_ids, left);
            let place = choose|i: int|
                0 <= i < crate::incident_archive::session_incidents(original).len()
                    && crate::incident_archive::session_incidents(original)[i] == left;
            law_report_names_every_concerned_incident(archive, scope, origin, place);
        }
    }
    after.sessions.lemma_all_neg_filter_empty(inside);
    let narrow = |s: SessionView| crate::incident_archive::restricted(s, scope);
    let none = after.sessions.filter(inside).map_values(narrow);
    none.lemma_filter_len(useful);
}

proof fn lemma_pruned_incident_has_origin(
    session: SessionView,
    lease: Seq<char>,
    incident_ids: Seq<Seq<char>>,
    open_incident_ids: Seq<Seq<char>>,
    incident: SummaryView,
)
    requires
        crate::incident_archive::session_incidents(
            crate::incident_archive::pruned_session(
                session,
                lease,
                incident_ids,
                open_incident_ids,
                false,
            ),
        ).contains(incident),
    ensures
        crate::incident_archive::session_incidents(session).contains(incident),
{
    let after = crate::incident_archive::pruned_session(
        session,
        lease,
        incident_ids,
        open_incident_ids,
        false,
    );
    let all = crate::incident_archive::session_incidents(after);
    let place = choose|i: int| 0 <= i < all.len() && all[i] == incident;
    let detail_pred = |i: IncidentView|
        !crate::incident_archive::is_pruned(
            i.summary.id,
            incident_ids,
            open_incident_ids,
            false,
        );
    let summary_pred = |i: SummaryView|
        !crate::incident_archive::is_pruned(i.id, incident_ids, open_incident_ids, false);
    let own = crate::incident_archive::session_incidents(session);
    if session.connection_lease_id != lease {
    } else if place < after.detailed.len() {
        let detail = after.detailed[place];
        assert(session.detailed.filter(detail_pred).contains(detail));
        session.detailed.lemma_filter_contains_rev(detail_pred, detail);
        let origin = choose|j: int| 0 <= j < session.detailed.len() && session.detailed[j] == detail;
        assert(own[origin] == incident);
    } else {
        assert(after.additional[place - after.detailed.len()] == incident);
        assert(session.additional.filter(summary_pred).contains(incident));
        session.additional.lemma_filter_contains_rev(summary_pred, incident);
        let origin = choose|j: int|
            0 <= j < session.additional.len() && session.additional[j] == incident;
        assert(own[session.detailed.len() + origin] == incident);
    }
}

proof fn lemma_retained_and_omitted(incidents: Seq<SummaryView>, upto: int)
    requires
        0 <= upto <= incidents.len(),
    ensures
        crate::incident_compaction::retained_incidents(incidents, upto).len()
            + crate::incident_compaction::omitted_times(incidents, upto).len() == upto,
    decreases upto,
{
    if upto > 0 {
        lemma_retained_and_omitted(incidents, upto - 1);
    }
}

/// Giving up summaries and details changes how incidents are listed, not how
/// many there are, as long as the count fits its field.
pub proof fn law_compaction_counts_every_incident(session: SessionView)
    requires
        incident_total(session) <= u64::MAX,
    ensures
        incident_total(crate::incident_compaction::with_fewer_summaries(session))
            == incident_total(session),
        incident_total(crate::incident_compaction::without_details(session)) == incident_total(
            session,
        ),
{
    lemma_retained_and_omitted(session.additional, session.additional.len() as int);
}

proof fn lemma_mapped_total(sessions: Seq<SessionView>, change: spec_fn(SessionView) -> SessionView)
    requires
        forall|i: int|
            0 <= i < sessions.len() ==> incident_total(change(#[trigger] sessions[i]))
                == incident_total(sessions[i]),
    ensures
        sessions_total(sessions.map_values(change)) == sessions_total(sessions),
    decreases sessions.len(),
{
    let mapped = sessions.map_values(change);
    if sessions.len() > 0 {
        let shorter = sessions.drop_last();
        assert forall|i: int| 0 <= i < shorter.len() implies incident_total(
            change(#[trigger] shorter[i]),
        ) == incident_total(shorter[i]) by {
            assert(shorter[i] == sessions[i]);
        }
        lemma_mapped_total(shorter, change);
        assert(mapped.drop_last() =~= shorter.map_values(change));
        assert(mapped.last() == change(sessions.last()));
        assert(sessions.last() == sessions[sessions.len() - 1]);
    }
}

proof fn lemma_total_is_not_negative(sessions: Seq<SessionView>)
    ensures
        sessions_total(sessions) >= 0,
    decreases sessions.len(),
{
    if sessions.len() > 0 {
        lemma_total_is_not_negative(sessions.drop_last());
    }
}

proof fn lemma_session_is_part_of_total(sessions: Seq<SessionView>, place: int)
    requires
        0 <= place < sessions.len(),
    ensures
        incident_total(sessions[place]) <= sessions_total(sessions),
    decreases sessions.len(),
{
    lemma_total_is_not_negative(sessions.drop_last());
    if place < sessions.len() - 1 {
        assert(sessions.drop_last()[place] == sessions[place]);
        lemma_session_is_part_of_total(sessions.drop_last(), place);
    }
}

proof fn lemma_total_without_first(sessions: Seq<SessionView>)
    requires
        sessions.len() > 0,
    ensures
        sessions_total(sessions) == incident_total(sessions[0]) + sessions_total(
            sessions.drop_first(),
        ),
    decreases sessions.len(),
{
    let shorter = sessions.drop_last();
    if sessions.len() == 1 {
        assert(sessions_total(shorter) == 0);
        assert(sessions_total(sessions.drop_first()) == 0);
    } else {
        lemma_total_without_first(shorter);
        assert(sessions.drop_first().drop_last() =~= shorter.drop_first());
        assert(sessions.drop_first().last() == sessions.last());
        assert(shorter[0] == sessions[0]);
    }
}

proof fn lemma_next_archive_total(archive: ArchiveView, stage: CompactionStage)
    requires
        archive_total(archive) <= u64::MAX,
        stage == CompactionStage::Counted ==> archive.sessions.len() > 0,
    ensures
        archive_total(next_archive(archive, stage)) == archive_total(archive),
{
    let sessions = archive.sessions;
    lemma_total_is_not_negative(sessions);
    assert forall|i: int| 0 <= i < sessions.len() implies incident_total(#[trigger] sessions[i])
        <= u64::MAX by {
        lemma_session_is_part_of_total(sessions, i);
    }
    match stage {
        CompactionStage::Complete => {
            let change = |session: SessionView|
                crate::incident_compaction::with_samples(
                    crate::incident_compaction::with_fewer_summaries(session),
                    |samples: Seq<NetworkIncidentSample>|
                        crate::incident_compaction::compacted_samples(samples),
                );
            assert forall|i: int| 0 <= i < sessions.len() implies incident_total(
                change(#[trigger] sessions[i]),
            ) == incident_total(sessions[i]) by {
                law_compaction_counts_every_incident(sessions[i]);
            }
            lemma_mapped_total(sessions, change);
        },
        CompactionStage::Compacted => {
            lemma_mapped_total(
                sessions,
                |session: SessionView|
                    crate::incident_compaction::with_samples(
                        session,
                        |samples: Seq<NetworkIncidentSample>| Seq::empty(),
                    ),
            );
        },
        CompactionStage::WithoutSamples => {
            let change = |session: SessionView|
                crate::incident_compaction::without_details(session);
            assert forall|i: int| 0 <= i < sessions.len() implies incident_total(
                change(#[trigger] sessions[i]),
            ) == incident_total(sessions[i]) by {
                law_compaction_counts_every_incident(sessions[i]);
            }
            lemma_mapped_total(sessions, change);
        },
        CompactionStage::Counted => {
            lemma_total_without_first(sessions);
            lemma_total_is_not_negative(sessions.drop_first());
        },
    }
}

/// How many sessions an attempt still holds.
proof fn lemma_sessions_at(archive: ArchiveView, attempt: nat)
    requires
        attempt <= archive.sessions.len() + 3,
    ensures
        archive_at(archive, attempt).sessions.len() == (if attempt <= 3 {
            archive.sessions.len() as int
        } else {
            archive.sessions.len() + 3 - attempt
        }),
    decreases attempt,
{
    if attempt > 0 {
        lemma_sessions_at(archive, (attempt - 1) as nat);
    }
}

/// Every incident of an archive is counted in each attempt at a report on it,
/// also where sessions had to be left out, as long as the count fits its field.
pub proof fn law_report_counts_every_incident(archive: ArchiveView, attempt: nat)
    requires
        archive_total(archive) <= u64::MAX,
        attempt <= last_attempt(archive),
    ensures
        archive_total(archive_at(archive, attempt)) == archive_total(archive),
    decreases attempt,
{
    if attempt > 0 {
        let previous = (attempt - 1) as nat;
        law_report_counts_every_incident(archive, previous);
        lemma_sessions_at(archive, previous);
        lemma_next_archive_total(archive_at(archive, previous), stage_at(previous));
    }
}

/// No attempt is made after the last one.
pub proof fn lemma_reached_attempt<F: Fn(&NetworkIncidentArchive) -> Option<String>>(
    serialize: F,
    archive: ArchiveView,
    attempt: nat,
)
    requires
        reached(serialize, archive, attempt),
    ensures
        attempt <= last_attempt(archive),
{
    let end = last_attempt(archive);
    lemma_sessions_at(archive, end);
    if attempt > end {
        assert(archive_at(archive, end).sessions.len() > 1);
    }
}

/// A report is owed: where the archive can be written and some attempt, up to
/// the one with a single session reduced to counts, is small enough, the
/// attempts end with a report.
pub proof fn law_report_is_owed_where_it_fits<F: Fn(&NetworkIncidentArchive) -> Option<String>>(
    serialize: F,
    archive: ArchiveView,
    fitting: nat,
    payload: Result<String, SnapshotError>,
)
    requires
        forall|written: NetworkIncidentArchive| !#[trigger]
            call_ensures(serialize, (&written,), None),
        fitting <= last_attempt(archive),
        !was_too_large(serialize, archive_at(archive, fitting)),
        is_outcome(serialize, archive, payload),
    ensures
        payload is Ok,
{
    let (attempt, written) = choose|attempt: nat, written: NetworkIncidentArchive| #[trigger]
        ends_with(serialize, archive, attempt, written, payload);
    if payload == Err::<String, SnapshotError>(SnapshotError::TooLarge) {
        lemma_reached_attempt(serialize, archive, attempt);
        lemma_sessions_at(archive, attempt);
        assert(attempt == last_attempt(archive));
    }
}

/// A report never leaves out all sessions: one on an archive with sessions
/// holds the newest of them.
pub proof fn law_report_keeps_a_session<F: Fn(&NetworkIncidentArchive) -> Option<String>>(
    serialize: F,
    archive: ArchiveView,
    attempt: nat,
)
    requires
        archive.sessions.len() > 0,
        reached(serialize, archive, attempt),
    ensures
        archive_at(archive, attempt).sessions.len() > 0,
        archive_at(archive, attempt).sessions.last().connection_lease_id
            == archive.sessions.last().connection_lease_id,
{
    lemma_reached_attempt(serialize, archive, attempt);
    lemma_sessions_at(archive, attempt);
    lemma_newest_session(archive, attempt);
}

proof fn lemma_newest_session(archive: ArchiveView, attempt: nat)
    requires
        archive.sessions.len() > 0,
        attempt <= last_attempt(archive),
    ensures
        archive_at(archive, attempt).sessions.last().connection_lease_id
            == archive.sessions.last().connection_lease_id,
    decreases attempt,
{
    if attempt > 0 {
        lemma_newest_session(archive, (attempt - 1) as nat);
        lemma_sessions_at(archive, (attempt - 1) as nat);
        lemma_sessions_at(archive, attempt);
    }
}

proof fn lemma_retained_prefix(incidents: Seq<SummaryView>, upto: int, samples: int)
    requires
        64 < incidents.len(),
        63 * (incidents.len() - 1) <= usize::MAX,
        0 <= upto <= incidents.len(),
        0 <= samples <= 64,
        forall|s: int|
            0 <= s < 64 ==> (#[trigger] crate::incident_compaction::retained_place(
                incidents.len() as int,
                s,
            ) < upto <==> s < samples),
    ensures
        crate::incident_compaction::retained_incidents(incidents, upto).len() == samples,
    decreases upto,
{
    let count = incidents.len() as int;
    if upto == 0 {
        if samples > 0 {
            assert(crate::incident_compaction::retained_place(count, 0) >= 0);
        }
    } else if crate::incident_compaction::is_retained(count, upto - 1) {
        let s = choose|s: int|
            0 <= s < 64 && #[trigger] crate::incident_compaction::retained_place(count, s) == upto
                - 1;
        assert(s == samples - 1) by {
            if s < samples - 1 {
                lemma_places_grow(count, s, samples - 1);
            }
        }
        assert forall|t: int| 0 <= t < 64 implies (
        #[trigger] crate::incident_compaction::retained_place(count, t) < upto - 1 <==> t < samples
            - 1) by {
            if t < samples - 1 {
                lemma_places_grow(count, t, samples - 1);
            }
        }
        lemma_retained_prefix(incidents, upto - 1, samples - 1);
    } else {
        assert forall|t: int| 0 <= t < 64 implies (
        #[trigger] crate::incident_compaction::retained_place(count, t) < upto - 1 <==> t
            < samples) by {
            assert(crate::incident_compaction::retained_place(count, t) != upto - 1);
        }
        lemma_retained_prefix(incidents, upto - 1, samples);
    }
}

proof fn lemma_places_grow(count: int, left: int, right: int)
    requires
        64 < count,
        63 * (count - 1) <= usize::MAX,
        0 <= left < right < 64,
    ensures
        crate::incident_compaction::retained_place(count, left)
            < crate::incident_compaction::retained_place(count, right),
{
    assert(left * (count - 1) + 63 <= right * (count - 1)) by (nonlinear_arith)
        requires
            left < right,
            count > 64,
    ;
    assert(right * (count - 1) <= 63 * (count - 1)) by (nonlinear_arith)
        requires
            right <= 63,
            count > 64,
    ;
}

/// Of more than 64 listed incidents a compacted session lists exactly 64.
pub proof fn law_compacted_session_lists_sixty_four(session: SessionView)
    requires
        session.additional.len() > 64,
        63 * (session.additional.len() - 1) <= usize::MAX,
    ensures
        crate::incident_compaction::with_fewer_summaries(session).additional.len() == 64,
{
    let count = session.additional.len() as int;
    assert forall|s: int| 0 <= s < 64 implies (
    #[trigger] crate::incident_compaction::retained_place(count, s) < count <==> s < 64) by {
        assert(s * (count - 1) <= 63 * (count - 1)) by (nonlinear_arith)
            requires
                s <= 63,
                count > 64,
        ;
    }
    lemma_retained_prefix(session.additional, count, 64);
}

} // verus!
