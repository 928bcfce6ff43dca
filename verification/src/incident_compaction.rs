//! How a report on network incidents is made small enough to be delivered:
//! details are given up step by step while every incident stays counted.
use crate::incident_archive::{
    IncidentView, NetworkIncident, NetworkIncidentArchive, NetworkIncidentCompaction,
    NetworkIncidentSession, NetworkIncidentSummary, SessionView, SummaryView, ArchiveView,
};
use crate::network_incidents::{
    NetworkIncidentSample, MAX_COMPACTED_ADDITIONAL_INCIDENTS, MAX_COMPACTED_SAMPLES_PER_INCIDENT,
    MAX_SNAPSHOT_PAYLOAD_BYTES,
};
use vstd::prelude::*;

verus! {

/// The smaller of two times, of which either may be missing.
pub open spec fn earlier(left: Option<i64>, right: Option<i64>) -> Option<i64> {
    match (left, right) {
        (Some(l), Some(r)) => Some(if l <= r {
            l
        } else {
            r
        }),
        (Some(l), None) => Some(l),
        (None, r) => r,
    }
}

/// The greater of two times, of which either may be missing.
pub open spec fn later(left: Option<i64>, right: Option<i64>) -> Option<i64> {
    match (left, right) {
        (Some(l), Some(r)) => Some(if l >= r {
            l
        } else {
            r
        }),
        (Some(l), None) => Some(l),
        (None, r) => r,
    }
}

pub open spec fn earliest(times: Seq<i64>) -> Option<i64>
    decreases times.len(),
{
    if times.len() == 0 {
        None
    } else {
        earlier(earliest(times.drop_last()), Some(times.last()))
    }
}

pub open spec fn latest(times: Seq<i64>) -> Option<i64>
    decreases times.len(),
{
    if times.len() == 0 {
        None
    } else {
        later(latest(times.drop_last()), Some(times.last()))
    }
}

pub open spec fn capped_sum(left: int, right: int) -> u64 {
    if left + right > u64::MAX {
        u64::MAX
    } else {
        (left + right) as u64
    }
}

pub fn min_optional(left: Option<i64>, right: Option<i64>) -> (result: Option<i64>)
    ensures
        result == earlier(left, right),
{
    match (left, right) {
        (Some(l), Some(r)) => Some(if l <= r {
            l
        } else {
            r
        }),
        (Some(l), None) => Some(l),
        (None, r) => r,
    }
}

pub fn max_optional(left: Option<i64>, right: Option<i64>) -> (result: Option<i64>)
    ensures
        result == later(left, right),
{
    match (left, right) {
        (Some(l), Some(r)) => Some(if l >= r {
            l
        } else {
            r
        }),
        (Some(l), None) => Some(l),
        (None, r) => r,
    }
}

/// The first and the last half of the samples that a compacted incident keeps.
pub open spec fn compacted_samples(samples: Seq<NetworkIncidentSample>) -> Seq<
    NetworkIncidentSample,
> {
    if samples.len() <= MAX_COMPACTED_SAMPLES_PER_INCIDENT {
        samples
    } else {
        samples.take(6) + samples.skip(samples.len() - 6)
    }
}

pub fn compact_samples(samples: &mut Vec<NetworkIncidentSample>)
    ensures
        final(samples)@ == compacted_samples(old(samples)@),
{
    if samples.len() <= MAX_COMPACTED_SAMPLES_PER_INCIDENT {
        return;
    }
    let ghost before = samples@;
    let head: usize = MAX_COMPACTED_SAMPLES_PER_INCIDENT / 2;
    let tail: usize = MAX_COMPACTED_SAMPLES_PER_INCIDENT - head;
    let mut compacted: Vec<NetworkIncidentSample> = Vec::new();
    let mut index: usize = 0;
    while index < head
        invariant
            head == 6,
            index <= head,
            samples@ == before,
            before.len() > 12,
            compacted@ == before.take(index as int),
        decreases head - index,
    {
        compacted.push(samples[index]);
        assert(before.take(index + 1) =~= before.take(index as int).push(before[index as int]));
        index += 1;
    }
    let start: usize = samples.len() - tail;
    let mut place: usize = start;
    assert(compacted@ =~= before.take(6) + before.subrange(start as int, place as int));
    while place < samples.len()
        invariant
            start <= place <= samples@.len(),
            samples@ == before,
            before.len() > 12,
            compacted@ == before.take(6) + before.subrange(start as int, place as int),
        decreases samples.len() - place,
    {
        compacted.push(samples[place]);
        assert(before.subrange(start as int, place + 1) =~= before.subrange(
            start as int,
            place as int,
        ).push(before[place as int]));
        assert(compacted@ =~= before.take(6) + before.subrange(start as int, place + 1));
        place += 1;
    }
    assert(before.subrange(start as int, before.len() as int) =~= before.skip(before.len() - 6));
    *samples = compacted;
}

/// The place of retained incident number `sample` among `count`.
pub open spec fn retained_place(count: int, sample: int) -> int {
    (if sample * (count - 1) > usize::MAX {
        usize::MAX as int
    } else {
        sample * (count - 1)
    }) / 63
}

/// Whether the incident at `index` is one of the evenly spaced ones that a
/// compacted report still lists.
pub open spec fn is_retained(count: int, index: int) -> bool {
    exists|sample: int| 0 <= sample < 64 && #[trigger] retained_place(count, sample) == index
}

/// The listed incidents among the first `upto`.
pub open spec fn retained_incidents(incidents: Seq<SummaryView>, upto: int) -> Seq<SummaryView>
    decreases upto,
{
    if upto <= 0 {
        Seq::empty()
    } else if is_retained(incidents.len() as int, upto - 1) {
        retained_incidents(incidents, upto - 1).push(incidents[upto - 1])
    } else {
        retained_incidents(incidents, upto - 1)
    }
}

/// When the incidents among the first `upto` that are only counted were
/// detected.
pub open spec fn omitted_times(incidents: Seq<SummaryView>, upto: int) -> Seq<i64>
    decreases upto,
{
    if upto <= 0 {
        Seq::empty()
    } else if is_retained(incidents.len() as int, upto - 1) {
        omitted_times(incidents, upto - 1)
    } else {
        omitted_times(incidents, upto - 1).push(incidents[upto - 1].detected_at_unix)
    }
}

/// The session with at most 64 incidents listed beside the detailed ones; the
/// others are counted, with the times of the first and the last.
pub open spec fn with_fewer_summaries(session: SessionView) -> SessionView {
    let count = session.additional.len() as int;
    if count <= MAX_COMPACTED_ADDITIONAL_INCIDENTS {
        session
    } else {
        let omitted = omitted_times(session.additional, count);
        SessionView {
            additional: retained_incidents(session.additional, count),
            additional_count: capped_sum(session.additional_count as int, omitted.len() as int),
            first_additional_at_unix: earlier(session.first_additional_at_unix, earliest(omitted)),
            last_additional_at_unix: later(session.last_additional_at_unix, latest(omitted)),
            ..session
        }
    }
}

pub open spec fn detected_times(incidents: Seq<IncidentView>) -> Seq<i64> {
    Seq::new(incidents.len(), |i: int| incidents[i].summary.detected_at_unix)
}

pub open spec fn summary_times(incidents: Seq<SummaryView>) -> Seq<i64> {
    Seq::new(incidents.len(), |i: int| incidents[i].detected_at_unix)
}

/// The session with its detailed incidents only counted.
pub open spec fn without_details(session: SessionView) -> SessionView {
    if session.detailed.len() == 0 {
        session
    } else {
        let times = detected_times(session.detailed);
        SessionView {
            detailed: Seq::empty(),
            additional_count: capped_sum(
                session.additional_count as int,
                session.detailed.len() as int,
            ),
            first_additional_at_unix: earlier(session.first_additional_at_unix, earliest(times)),
            last_additional_at_unix: later(session.last_additional_at_unix, latest(times)),
            ..session
        }
    }
}

/// The session with the samples of each detailed incident reduced by `reduce`.
pub open spec fn with_samples(
    session: SessionView,
    reduce: spec_fn(Seq<NetworkIncidentSample>) -> Seq<NetworkIncidentSample>,
) -> SessionView {
    SessionView {
        detailed: session.detailed.map_values(
            |incident: IncidentView| IncidentView { samples: reduce(incident.samples), ..incident },
        ),
        ..session
    }
}

fn mark_retained(count: usize) -> (flags: Vec<bool>)
    requires
        count > MAX_COMPACTED_ADDITIONAL_INCIDENTS,
    ensures
        flags@.len() == count,
        forall|i: int| 0 <= i < count ==> #[trigger] flags@[i] == is_retained(count as int, i),
{
    let mut flags: Vec<bool> = vec![false; count];
    let mut sample: usize = 0;
    while sample < MAX_COMPACTED_ADDITIONAL_INCIDENTS
        invariant
            sample <= 64,
            count > 64,
            flags@.len() == count,
            forall|i: int|
                0 <= i < count ==> #[trigger] flags@[i] == exists|s: int|
                    0 <= s < sample && #[trigger] retained_place(count as int, s) == i,
        decreases 64 - sample,
    {
        let ghost before = flags@;
        let product: usize = match sample.checked_mul(count - 1) {
            Some(product) => product,
            None => usize::MAX,
        };
        let place: usize = product / (MAX_COMPACTED_ADDITIONAL_INCIDENTS - 1);
        assert(place == retained_place(count as int, sample as int));
        assert(place < count) by {
            assert(sample * (count - 1) <= 63 * (count - 1)) by (nonlinear_arith)
                requires
                    sample <= 63,
                    count > 64,
            ;
        }
        flags.set(place, true);
        assert forall|i: int| 0 <= i < count implies #[trigger] flags@[i] == exists|s: int|
            0 <= s < sample + 1 && #[trigger] retained_place(count as int, s) == i by {
            if i == place {
                assert(retained_place(count as int, sample as int) == i);
            } else {
                assert(flags@[i] == before[i]);
                if exists|s: int|
                    0 <= s < sample + 1 && #[trigger] retained_place(count as int, s) == i {
                    let s = choose|s: int|
                        0 <= s < sample + 1 && #[trigger] retained_place(count as int, s) == i;
                    assert(s != sample);
                }
            }
        }
        sample += 1;
    }
    assert forall|i: int| 0 <= i < count implies #[trigger] flags@[i] == is_retained(
        count as int,
        i,
    ) by {}
    flags
}

pub fn compact_additional_incidents(session: &mut NetworkIncidentSession)
    ensures
        final(session)@ == with_fewer_summaries(old(session)@),
{
    if session.additional.len() <= MAX_COMPACTED_ADDITIONAL_INCIDENTS {
        return;
    }
    let ghost before = session@;
    let mut original: Vec<NetworkIncidentSummary> = Vec::new();
    std::mem::swap(&mut original, &mut session.additional);
    let ghost all = crate::incident_archive::summaries_of(original@);
    let count: usize = original.len();
    let retained = mark_retained(count);
    let mut kept: Vec<NetworkIncidentSummary> = Vec::new();
    let mut omitted_count: u64 = 0;
    let mut first: Option<i64> = None;
    let mut last: Option<i64> = None;
    let mut index: usize = 0;
    let ghost mut omitted = Seq::<i64>::empty();
    assert(crate::incident_archive::summaries_of(kept@) =~= retained_incidents(all, 0));
    for incident in iter: original
        invariant
            iter.seq() == original@,
            index == iter.index(),
            all == crate::incident_archive::summaries_of(original@),
            count == all.len(),
            retained@.len() == count,
            forall|i: int| 0 <= i < count ==> #[trigger] retained@[i] == is_retained(count as int, i),
            crate::incident_archive::summaries_of(kept@) == retained_incidents(all, index as int),
            omitted == omitted_times(all, index as int),
            omitted.len() <= index,
            omitted_count == omitted.len(),
            first == earliest(omitted),
            last == latest(omitted),
    {
        let ghost kept_before = kept@;
        if retained[index] {
            kept.push(incident);
            assert(crate::incident_archive::summaries_of(kept@)
                =~= crate::incident_archive::summaries_of(kept_before).push(all[index as int]));
        } else {
            omitted_count = omitted_count.saturating_add(1);
            first = min_optional(first, Some(incident.detected_at_unix));
            last = max_optional(last, Some(incident.detected_at_unix));
            proof {
                let longer = omitted.push(incident.detected_at_unix);
                assert(longer.drop_last() =~= omitted);
                omitted = longer;
            }
        }
        index += 1;
    }
    session.additional = kept;
    session.additional_count = session.additional_count.saturating_add(omitted_count);
    session.first_additional_at_unix = min_optional(session.first_additional_at_unix, first);
    session.last_additional_at_unix = max_optional(session.last_additional_at_unix, last);
    assert(session@ =~= with_fewer_summaries(before));
}

pub fn aggregate_detailed_incidents(session: &mut NetworkIncidentSession)
    ensures
        final(session)@ == without_details(old(session)@),
{
    if session.detailed.len() == 0 {
        return;
    }
    let ghost before = session@;
    let count: u64 = session.detailed.len() as u64;
    let (first, last) = detected_range(&session.detailed);
    session.detailed.clear();
    session.additional_count = session.additional_count.saturating_add(count);
    session.first_additional_at_unix = min_optional(session.first_additional_at_unix, first);
    session.last_additional_at_unix = max_optional(session.last_additional_at_unix, last);
    assert(session@ =~= without_details(before));
}

fn detected_range(incidents: &Vec<NetworkIncident>) -> (range: (Option<i64>, Option<i64>))
    ensures
        range.0 == earliest(detected_times(crate::incident_archive::incidents_of(incidents@))),
        range.1 == latest(detected_times(crate::incident_archive::incidents_of(incidents@))),
{
    let ghost times = detected_times(crate::incident_archive::incidents_of(incidents@));
    let mut first: Option<i64> = None;
    let mut last: Option<i64> = None;
    let mut index: usize = 0;
    while index < incidents.len()
        invariant
            index <= incidents@.len(),
            times == detected_times(crate::incident_archive::incidents_of(incidents@)),
            first == earliest(times.take(index as int)),
            last == latest(times.take(index as int)),
        decreases incidents.len() - index,
    {
        first = min_optional(first, Some(incidents[index].detected_at_unix));
        last = max_optional(last, Some(incidents[index].detected_at_unix));
        assert(times.take(index + 1).drop_last() =~= times.take(index as int));
        index += 1;
    }
    assert(times.take(times.len() as int) =~= times);
    (first, last)
}

fn summary_range(incidents: &Vec<NetworkIncidentSummary>) -> (range: (Option<i64>, Option<i64>))
    ensures
        range.0 == earliest(summary_times(crate::incident_archive::summaries_of(incidents@))),
        range.1 == latest(summary_times(crate::incident_archive::summaries_of(incidents@))),
{
    let ghost times = summary_times(crate::incident_archive::summaries_of(incidents@));
    let mut first: Option<i64> = None;
    let mut last: Option<i64> = None;
    let mut index: usize = 0;
    while index < incidents.len()
        invariant
            index <= incidents@.len(),
            times == summary_times(crate::incident_archive::summaries_of(incidents@)),
            first == earliest(times.take(index as int)),
            last == latest(times.take(index as int)),
        decreases incidents.len() - index,
    {
        first = min_optional(first, Some(incidents[index].detected_at_unix));
        last = max_optional(last, Some(incidents[index].detected_at_unix));
        assert(times.take(index + 1).drop_last() =~= times.take(index as int));
        index += 1;
    }
    assert(times.take(times.len() as int) =~= times);
    (first, last)
}

/// The note on what was left out, after one more session was.
pub open spec fn with_omission(
    compaction: Option<NetworkIncidentCompaction>,
    session: SessionView,
) -> NetworkIncidentCompaction {
    let so_far = match compaction {
        Some(compaction) => compaction,
        None => NetworkIncidentCompaction {
            omitted_session_count: 0,
            omitted_incident_count: 0,
            first_omitted_at_unix: None,
            last_omitted_at_unix: None,
        },
    };
    let details = detected_times(session.detailed);
    let summaries = summary_times(session.additional);
    NetworkIncidentCompaction {
        omitted_session_count: capped_sum(so_far.omitted_session_count as int, 1),
        omitted_incident_count: capped_sum(
            so_far.omitted_incident_count as int,
            capped_sum(
                capped_sum(
                    session.additional_count as int,
                    session.additional.len() as int,
                ) as int,
                session.detailed.len() as int,
            ) as int,
        ),
        first_omitted_at_unix: earlier(
            so_far.first_omitted_at_unix,
            earlier(
                earlier(session.first_additional_at_unix, earliest(details)),
                earliest(summaries),
            ),
        ),
        last_omitted_at_unix: later(
            so_far.last_omitted_at_unix,
            later(later(session.last_additional_at_unix, latest(details)), latest(summaries)),
        ),
    }
}

pub fn record_omitted_session(
    archive: &mut NetworkIncidentArchive,
    session: &NetworkIncidentSession,
)
    ensures
        final(archive)@ == (ArchiveView {
            compaction: Some(with_omission(old(archive)@.compaction, session@)),
            ..old(archive)@
        }),
{
    let count: u64 = session.additional_count.saturating_add(
        session.additional.len() as u64,
    ).saturating_add(session.detailed.len() as u64);
    let (first_detailed, last_detailed) = detected_range(&session.detailed);
    let (first_summary, last_summary) = summary_range(&session.additional);
    let first = min_optional(
        min_optional(session.first_additional_at_unix, first_detailed),
        first_summary,
    );
    let last = max_optional(
        max_optional(session.last_additional_at_unix, last_detailed),
        last_summary,
    );
    let so_far = match archive.compaction {
        Some(compaction) => compaction,
        None => NetworkIncidentCompaction {
            omitted_session_count: 0,
            omitted_incident_count: 0,
            first_omitted_at_unix: None,
            last_omitted_at_unix: None,
        },
    };
    archive.compaction = Some(
        NetworkIncidentCompaction {
            omitted_session_count: so_far.omitted_session_count.saturating_add(1),
            omitted_incident_count: so_far.omitted_incident_count.saturating_add(count),
            first_omitted_at_unix: min_optional(so_far.first_omitted_at_unix, first),
            last_omitted_at_unix: max_optional(so_far.last_omitted_at_unix, last),
        },
    );
}

pub open spec fn map_sessions(
    archive: ArchiveView,
    change: spec_fn(SessionView) -> SessionView,
) -> ArchiveView {
    ArchiveView { sessions: archive.sessions.map_values(change), ..archive }
}

/// The archive with fewer summaries and samples in each session.
pub open spec fn compacted_archive(archive: ArchiveView) -> ArchiveView {
    map_sessions(
        archive,
        |session: SessionView|
            with_samples(
                with_fewer_summaries(session),
                |samples: Seq<NetworkIncidentSample>| compacted_samples(samples),
            ),
    )
}

/// The archive without samples.
pub open spec fn archive_without_samples(archive: ArchiveView) -> ArchiveView {
    map_sessions(
        archive,
        |session: SessionView|
            with_samples(session, |samples: Seq<NetworkIncidentSample>| Seq::empty()),
    )
}

/// The archive with the detailed incidents only counted.
pub open spec fn counted_archive(archive: ArchiveView) -> ArchiveView {
    map_sessions(archive, |session: SessionView| without_details(session))
}

/// The archive without its oldest session, which is noted as left out.
pub open spec fn without_first_session(archive: ArchiveView) -> ArchiveView {
    ArchiveView {
        sessions: archive.sessions.drop_first(),
        compaction: Some(with_omission(archive.compaction, archive.sessions[0])),
        ..archive
    }
}

/// How much of the archive a report still holds.
#[derive(Clone, Copy, Debug, PartialEq, Eq, Structural)]
pub enum CompactionStage {
    Complete,
    Compacted,
    WithoutSamples,
    Counted,
}

/// What is to be done with a report of a given size.
#[derive(Clone, Copy, Debug, PartialEq, Eq, Structural)]
pub enum CompactionStep {
    Ready,
    Retry,
    TooLarge,
}

/// What follows a report of `payload_bytes` bytes at `stage`.
pub open spec fn step_after(
    archive: ArchiveView,
    stage: CompactionStage,
    payload_bytes: usize,
) -> CompactionStep {
    if payload_bytes <= MAX_SNAPSHOT_PAYLOAD_BYTES {
        CompactionStep::Ready
    } else if stage == CompactionStage::Counted && archive.sessions.len() <= 1 {
        CompactionStep::TooLarge
    } else {
        CompactionStep::Retry
    }
}

pub open spec fn next_stage(stage: CompactionStage) -> CompactionStage {
    match stage {
        CompactionStage::Complete => CompactionStage::Compacted,
        CompactionStage::Compacted => CompactionStage::WithoutSamples,
        CompactionStage::WithoutSamples => CompactionStage::Counted,
        CompactionStage::Counted => CompactionStage::Counted,
    }
}

/// The archive of the next attempt.
pub open spec fn next_archive(archive: ArchiveView, stage: CompactionStage) -> ArchiveView {
    match stage {
        CompactionStage::Complete => compacted_archive(archive),
        CompactionStage::Compacted => archive_without_samples(archive),
        CompactionStage::WithoutSamples => counted_archive(archive),
        CompactionStage::Counted => without_first_session(archive),
    }
}

fn compact_session(session: &mut NetworkIncidentSession)
    ensures
        final(session)@ == with_samples(
            with_fewer_summaries(old(session)@),
            |samples: Seq<NetworkIncidentSample>| compacted_samples(samples),
        ),
{
    compact_additional_incidents(session);
    let ghost before = session@;
    let ghost target = with_samples(
        before,
        |samples: Seq<NetworkIncidentSample>| compacted_samples(samples),
    );
    let mut index: usize = 0;
    while index < session.detailed.len()
        invariant
            index <= session.detailed@.len(),
            session@ == (SessionView { detailed: session@.detailed, ..before }),
            session@.detailed.len() == before.detailed.len(),
            target == with_samples(
                before,
                |samples: Seq<NetworkIncidentSample>| compacted_samples(samples),
            ),
            forall|i: int|
                0 <= i < index ==> #[trigger] session@.detailed[i] == target.detailed[i],
            forall|i: int|
                index <= i < before.detailed.len() ==> #[trigger] session@.detailed[i]
                    == before.detailed[i],
        decreases session.detailed.len() - index,
    {
        let ghost earlier = session@;
        assert(session.detailed@[index as int]@ == earlier.detailed[index as int]);
        compact_samples(&mut session.detailed[index].samples);
        assert(session@.detailed =~= earlier.detailed.update(
            index as int,
            target.detailed[index as int],
        ));
        assert(session@ =~= (SessionView { detailed: session@.detailed, ..before }));
        index += 1;
    }
    assert(session@ =~= target);
}

fn clear_samples(session: &mut NetworkIncidentSession)
    ensures
        final(session)@ == with_samples(
            old(session)@,
            |samples: Seq<NetworkIncidentSample>| Seq::empty(),
        ),
{
    let ghost before = session@;
    let ghost target = with_samples(before, |samples: Seq<NetworkIncidentSample>| Seq::empty());
    let mut index: usize = 0;
    while index < session.detailed.len()
        invariant
            index <= session.detailed@.len(),
            session@ == (SessionView { detailed: session@.detailed, ..before }),
            session@.detailed.len() == before.detailed.len(),
            target == with_samples(before, |samples: Seq<NetworkIncidentSample>| Seq::empty()),
            forall|i: int|
                0 <= i < index ==> #[trigger] session@.detailed[i] == target.detailed[i],
            forall|i: int|
                index <= i < before.detailed.len() ==> #[trigger] session@.detailed[i]
                    == before.detailed[i],
        decreases session.detailed.len() - index,
    {
        let ghost earlier = session@;
        assert(session.detailed@[index as int]@ == earlier.detailed[index as int]);
        session.detailed[index].samples.clear();
        assert(session@.detailed =~= earlier.detailed.update(
            index as int,
            target.detailed[index as int],
        ));
        assert(session@ =~= (SessionView { detailed: session@.detailed, ..before }));
        index += 1;
    }
    assert(session@ =~= target);
}

/// Reduces every session of the archive by one stage.
fn reduce_sessions(archive: &mut NetworkIncidentArchive, stage: CompactionStage)
    requires
        stage != CompactionStage::Counted,
    ensures
        final(archive)@ == next_archive(old(archive)@, stage),
{
    let ghost before = archive@;
    let ghost target = next_archive(before, stage);
    let mut index: usize = 0;
    while index < archive.sessions.len()
        invariant
            stage != CompactionStage::Counted,
            index <= archive.sessions@.len(),
            archive@ == (ArchiveView { sessions: archive@.sessions, ..before }),
            archive@.sessions.len() == before.sessions.len(),
            target == next_archive(before, stage),
            forall|i: int|
                0 <= i < index ==> #[trigger] archive@.sessions[i] == target.sessions[i],
            forall|i: int|
                index <= i < before.sessions.len() ==> #[trigger] archive@.sessions[i]
                    == before.sessions[i],
        decreases archive.sessions.len() - index,
    {
        let ghost earlier = archive@;
        assert(archive.sessions@[index as int]@ == earlier.sessions[index as int]);
        match stage {
            CompactionStage::Complete => compact_session(&mut archive.sessions[index]),
            CompactionStage::Compacted => clear_samples(&mut archive.sessions[index]),
            _ => aggregate_detailed_incidents(&mut archive.sessions[index]),
        }
        assert(archive.sessions@[index as int]@ == target.sessions[index as int]);
        assert(archive@.sessions =~= earlier.sessions.update(
            index as int,
            target.sessions[index as int],
        ));
        assert(archive@ =~= (ArchiveView { sessions: archive@.sessions, ..before }));
        index += 1;
    }
    assert(archive@ =~= target);
}

/// Decides on a report of `payload_bytes` bytes and prepares the next attempt
/// where it was too large.
pub fn compaction_step(
    archive: &mut NetworkIncidentArchive,
    stage: &mut CompactionStage,
    payload_bytes: usize,
) -> (step: CompactionStep)
    ensures
        step == step_after(old(archive)@, *old(stage), payload_bytes),
        step == CompactionStep::Retry ==> {
            &&& final(archive)@ == next_archive(old(archive)@, *old(stage))
            &&& *final(stage) == next_stage(*old(stage))
        },
        step != CompactionStep::Retry ==> {
            &&& *final(archive) == *old(archive)
            &&& *final(stage) == *old(stage)
        },
{
    if payload_bytes <= MAX_SNAPSHOT_PAYLOAD_BYTES {
        return CompactionStep::Ready;
    }
    match *stage {
        CompactionStage::Counted => {
            if archive.sessions.len() <= 1 {
                return CompactionStep::TooLarge;
            }
            let ghost before = archive@;
            let omitted = archive.sessions.remove(0);
            assert(archive@.sessions =~= before.sessions.drop_first());
            record_omitted_session(archive, &omitted);
            assert(archive@ =~= without_first_session(before));
        },
        CompactionStage::Complete => {
            reduce_sessions(archive, CompactionStage::Complete);
            *stage = CompactionStage::Compacted;
        },
        CompactionStage::Compacted => {
            reduce_sessions(archive, CompactionStage::Compacted);
            *stage = CompactionStage::WithoutSamples;
        },
        CompactionStage::WithoutSamples => {
            reduce_sessions(archive, CompactionStage::WithoutSamples);
            *stage = CompactionStage::Counted;
        },
    }
    CompactionStep::Retry
}

/// Why a report could not be made.
#[derive(Clone, Copy, Debug, PartialEq, Eq, Structural)]
pub enum SnapshotError {
    Serialization,
    TooLarge,
}

/// The stage of attempt number `attempt`.
pub open spec fn stage_at(attempt: nat) -> CompactionStage {
    if attempt == 0 {
        CompactionStage::Complete
    } else if attempt == 1 {
        CompactionStage::Compacted
    } else if attempt == 2 {
        CompactionStage::WithoutSamples
    } else {
        CompactionStage::Counted
    }
}

/// What attempt number `attempt` at a report on `archive` holds.
pub open spec fn archive_at(archive: ArchiveView, attempt: nat) -> ArchiveView
    decreases attempt,
{
    if attempt == 0 {
        archive
    } else {
        next_archive(
            archive_at(archive, (attempt - 1) as nat),
            stage_at((attempt - 1) as nat),
        )
    }
}

/// Whether `serialize` has written an archive with this content as a report of
/// more bytes than can be delivered.
pub open spec fn was_too_large<F: Fn(&NetworkIncidentArchive) -> Option<String>>(
    serialize: F,
    content: ArchiveView,
) -> bool {
    exists|archive: NetworkIncidentArchive, payload: String| #[trigger]
        call_ensures(serialize, (&archive,), Some(payload)) && archive@ == content
            && crate::text::byte_len(payload@) > MAX_SNAPSHOT_PAYLOAD_BYTES
}

/// All incidents that a session stands for, listed or only counted.
pub open spec fn incident_total(session: SessionView) -> int {
    session.detailed.len() + session.additional.len() + session.additional_count
}

/// All incidents that the sessions stand for.
pub open spec fn sessions_total(sessions: Seq<SessionView>) -> int
    decreases sessions.len(),
{
    if sessions.len() == 0 {
        0
    } else {
        sessions_total(sessions.drop_last()) + incident_total(sessions.last())
    }
}

/// All incidents that the archive stands for, those of the sessions that were
/// left out among them.
pub open spec fn archive_total(archive: ArchiveView) -> int {
    sessions_total(archive.sessions) + match archive.compaction {
        Some(compaction) => compaction.omitted_incident_count as int,
        None => 0,
    }
}

/// The number of the last attempt at a report on `archive`: the one at which a
/// single session is left, reduced to counts.
pub open spec fn last_attempt(archive: ArchiveView) -> nat {
    if archive.sessions.len() <= 1 {
        3
    } else {
        archive.sessions.len() + 2
    }
}

/// Whether attempt number `attempt` at a report on `archive` was made: every
/// attempt before it was too large, and left something to give up.
pub open spec fn reached<F: Fn(&NetworkIncidentArchive) -> Option<String>>(
    serialize: F,
    archive: ArchiveView,
    attempt: nat,
) -> bool {
    forall|earlier: nat|
        earlier < attempt ==> was_too_large(serialize, #[trigger] archive_at(archive, earlier)) && (
        earlier >= 3 ==> archive_at(archive, earlier).sessions.len() > 1)
}

/// Whether the attempts at a report on `archive` ended at attempt number
/// `attempt` with `written` and `payload`: with a report that can be delivered,
/// with an archive that could not be written, or with a single session,
/// reduced to counts, that is still too large.
pub open spec fn ends_with<F: Fn(&NetworkIncidentArchive) -> Option<String>>(
    serialize: F,
    archive: ArchiveView,
    attempt: nat,
    written: NetworkIncidentArchive,
    payload: Result<String, SnapshotError>,
) -> bool {
    &&& reached(serialize, archive, attempt)
    &&& written@ == archive_at(archive, attempt)
    &&& match payload {
        Ok(payload) => {
            &&& call_ensures(serialize, (&written,), Some(payload))
            &&& crate::text::byte_len(payload@) <= MAX_SNAPSHOT_PAYLOAD_BYTES
        },
        Err(SnapshotError::Serialization) => call_ensures(serialize, (&written,), None),
        Err(SnapshotError::TooLarge) => {
            &&& was_too_large(serialize, archive_at(archive, attempt))
            &&& attempt >= 3
            &&& archive_at(archive, attempt).sessions.len() <= 1
        },
    }
}

/// Whether the attempts at a report on `archive` ended with `payload`.
pub open spec fn is_outcome<F: Fn(&NetworkIncidentArchive) -> Option<String>>(
    serialize: F,
    archive: ArchiveView,
    payload: Result<String, SnapshotError>,
) -> bool {
    exists|attempt: nat, written: NetworkIncidentArchive| #[trigger]
        ends_with(serialize, archive, attempt, written, payload)
}

/// Writes a report on the archive with `serialize`, giving up details until it
/// can be delivered: the first attempt that is small enough is the report. It
/// is refused only where a single session, reduced to counts, is too large.
pub fn bounded_snapshot_payload<F: Fn(&NetworkIncidentArchive) -> Option<String>>(
    archive: &mut NetworkIncidentArchive,
    serialize: F,
) -> (payload: Result<String, SnapshotError>)
    requires
        forall|archive: &NetworkIncidentArchive| #[trigger] call_requires(serialize, (archive,)),
    ensures
        exists|attempt: nat| #[trigger]
            ends_with(serialize, old(archive)@, attempt, *final(archive), payload),
        !was_too_large(serialize, old(archive)@) ==> *final(archive) == *old(archive),
        archive_total(old(archive)@) <= u64::MAX ==> archive_total(final(archive)@)
            == archive_total(old(archive)@),
{
    let ghost before = archive@;
    let mut stage = CompactionStage::Complete;
    let ghost mut attempt: nat = 0;
    loop
        invariant
            forall|archive: &NetworkIncidentArchive| #[trigger]
                call_requires(serialize, (archive,)),
            before == old(archive)@,
            stage == stage_at(attempt),
            archive@ == archive_at(before, attempt),
            reached(serialize, before, attempt),
            attempt == 0 ==> *archive == *old(archive),
        decreases
                (match stage {
                    CompactionStage::Complete => 3int,
                    CompactionStage::Compacted => 2,
                    CompactionStage::WithoutSamples => 1,
                    CompactionStage::Counted => 0,
                }),
                archive@.sessions.len(),
    {
        let ghost written = *archive;
        proof {
            assert(attempt > 0 ==> was_too_large(serialize, archive_at(before, 0)));
            crate::incident_laws::lemma_reached_attempt(serialize, before, attempt);
            if archive_total(before) <= u64::MAX {
                crate::incident_laws::law_report_counts_every_incident(before, attempt);
            }
        }
        let payload = match serialize(archive) {
            Some(payload) => payload,
            None => {
                assert(ends_with(
                    serialize,
                    before,
                    attempt,
                    *archive,
                    Err::<String, SnapshotError>(SnapshotError::Serialization),
                ));
                return Err(SnapshotError::Serialization);
            },
        };
        let payload_bytes: usize = payload.as_str().len();
        assert(call_ensures(serialize, (&written,), Some(payload)));
        match compaction_step(archive, &mut stage, payload_bytes) {
            CompactionStep::Ready => {
                assert(ends_with(
                    serialize,
                    before,
                    attempt,
                    *archive,
                    Ok::<String, SnapshotError>(payload),
                ));
                return Ok(payload);
            },
            CompactionStep::TooLarge => {
                assert(ends_with(
                    serialize,
                    before,
                    attempt,
                    *archive,
                    Err::<String, SnapshotError>(SnapshotError::TooLarge),
                ));
                return Err(SnapshotError::TooLarge);
            },
            CompactionStep::Retry => {
                proof {
                    assert(was_too_large(serialize, archive_at(before, attempt)));
                    attempt = attempt + 1;
                }
            },
        }
    }
}

} // verus!
