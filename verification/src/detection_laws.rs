//! What the detector does with the readings of a connection: traffic that is
//! not answered is remembered over short pauses, a stall is found once it has
//! lasted long enough, and an answer ends it.
use crate::network_incidents::{
    action_after, counted, detector_after, detector_after_failure, handshake_age, DetectorAction,
    DetectorView,
};
use crate::tunnel::TunnelMetrics;
use vstd::prelude::*;

verus! {

/// The counters of a connection at some time.
pub struct Reading {
    pub sample: TunnelMetrics,
    pub at: i64,
}

/// The detector after some readings of one connection, each of which is
/// compared with the one before it. The first has no predecessor.
pub open spec fn detector_after_readings(
    detector: DetectorView,
    connection: Seq<char>,
    readings: Seq<Reading>,
) -> DetectorView
    decreases readings.len(),
{
    if readings.len() == 0 {
        detector
    } else {
        detector_after(
            detector_after_readings(detector, connection, readings.drop_last()),
            connection,
            readings.last().sample,
            if readings.len() == 1 {
                None
            } else {
                Some(readings[readings.len() - 2].sample)
            },
            readings.last().at,
        )
    }
}

/// Whether something was sent between a reading and the one before it.
pub open spec fn sends(readings: Seq<Reading>, place: int) -> bool {
    place > 0 && readings[place].sample.sent_bytes > readings[place - 1].sample.sent_bytes
}

/// When something was last sent, at a reading that follows the first traffic.
pub open spec fn last_sent_at(readings: Seq<Reading>, place: int) -> i64
    decreases place,
{
    if place <= 0 || sends(readings, place) {
        readings[place].at
    } else {
        last_sent_at(readings, place - 1)
    }
}

/// Whether nothing is received while the readings go on in time, and what is
/// sent begins at `first`, without a pause of more than ten seconds after it.
pub open spec fn unanswered_from(readings: Seq<Reading>, first: int) -> bool {
    &&& 0 < first < readings.len()
    &&& sends(readings, first)
    &&& forall|i: int, j: int|
        0 <= i <= j < readings.len() ==> (#[trigger] readings[i]).at <= (#[trigger] readings[j]).at
    &&& forall|i: int, j: int|
        0 <= i <= j < readings.len() ==> (#[trigger] readings[i]).sample.received_bytes == (
        #[trigger] readings[j]).sample.received_bytes
    &&& forall|i: int, j: int|
        0 <= i <= j < readings.len() ==> (#[trigger] readings[i]).sample.sent_bytes <= (
        #[trigger] readings[j]).sample.sent_bytes
    &&& forall|i: int| 0 < i < first ==> !#[trigger] sends(readings, i)
    &&& forall|i: int|
        first < i < readings.len() ==> readings[i].at - #[trigger] last_sent_at(readings, i) <= 10
}

proof fn lemma_last_sent_at(readings: Seq<Reading>, first: int, place: int)
    requires
        unanswered_from(readings, first),
        first <= place < readings.len(),
    ensures
        readings[first].at <= last_sent_at(readings, place) <= readings[place].at,
    decreases place,
{
    if !sends(readings, place) {
        lemma_last_sent_at(readings, first, place - 1);
        assert(readings[place - 1].at <= readings[place].at);
    } else {
        assert(readings[first].at <= readings[place].at);
    }
}

proof fn lemma_candidate_of_prefix(
    detector: DetectorView,
    connection: Seq<char>,
    readings: Seq<Reading>,
    first: int,
    second: int,
    upto: int,
)
    requires
        detector.connection_id != Some(connection),
        unanswered_from(readings, first),
        first < second < readings.len(),
        sends(readings, second),
        0 < upto <= readings.len(),
    ensures
        ({
            let after = detector_after_readings(detector, connection, readings.take(upto));
            &&& after.connection_id == Some(connection)
            &&& after.started_at_unix == readings[0].at
            &&& upto <= first ==> {
                &&& after.open_incident_at_unix is None
                &&& after.candidate.started_at_unix is None
                &&& after.candidate.last_activity_at_unix is None
                &&& after.candidate.sent_bytes == 0
                &&& after.candidate.active_samples == 0
            }
            &&& upto > first && after.open_incident_at_unix is None ==> {
                &&& after.candidate.started_at_unix == Some(readings[first].at)
                &&& after.candidate.last_activity_at_unix == Some(last_sent_at(readings, upto - 1))
                &&& after.candidate.sent_bytes == readings[upto - 1].sample.sent_bytes
                    - readings[first - 1].sample.sent_bytes
                &&& after.candidate.active_samples >= 1
                &&& second < upto ==> after.candidate.active_samples >= 2
            }
        }),
    decreases upto,
{
    let prefix = readings.take(upto);
    assert(prefix.last() == readings[upto - 1]);
    assert(prefix.drop_last() =~= readings.take(upto - 1));
    if upto == 1 {
        assert(readings.take(0) =~= Seq::empty());
    } else {
        lemma_candidate_of_prefix(detector, connection, readings, first, second, upto - 1);
        assert(prefix[prefix.len() - 2] == readings[upto - 2]);
        let place = upto - 1;
        assert(readings[place - 1].sample.received_bytes == readings[place].sample.received_bytes);
        assert(readings[place - 1].sample.sent_bytes <= readings[place].sample.sent_bytes);
        if place < first {
            assert(!sends(readings, place));
        } else if place > first {
            assert(readings[place].at - last_sent_at(readings, place) <= 10);
            lemma_last_sent_at(readings, first, place);
            lemma_last_sent_at(readings, first, place - 1);
            assert(readings[first - 1].sample.sent_bytes <= readings[place - 1].sample.sent_bytes);
        } else {
            assert(readings[first - 1].sample.sent_bytes <= readings[first].sample.sent_bytes);
        }
    }
}

/// A stall is found: on a connection that was read for at least ten seconds, an
/// incident is open once traffic has gone unanswered for five seconds, with at
/// least 1024 bytes sent at two readings or more, whatever pauses of up to ten
/// seconds there were.
pub proof fn law_stall_is_detected(
    detector: DetectorView,
    connection: Seq<char>,
    readings: Seq<Reading>,
    first: int,
    second: int,
)
    requires
        detector.connection_id != Some(connection),
        unanswered_from(readings, first),
        first < second < readings.len(),
        sends(readings, second),
        readings.last().at - readings[0].at >= 10,
        readings.last().at - readings[first].at >= 5,
        readings.last().sample.sent_bytes - readings[first - 1].sample.sent_bytes >= 1024,
    ensures
        detector_after_readings(detector, connection, readings).open_incident_at_unix is Some,
{
    let count = readings.len() as int;
    assert(readings.take(count) =~= readings);
    lemma_candidate_of_prefix(detector, connection, readings, first, second, count);
    lemma_candidate_of_prefix(detector, connection, readings, first, second, count - 1);
    assert(readings.drop_last() =~= readings.take(count - 1));
    lemma_last_sent_at(readings, first, count - 1);
}

/// A second without traffic changes nothing of what was sent before it, unless
/// more than ten seconds have passed since.
pub proof fn law_short_pause_keeps_the_candidate(
    detector: DetectorView,
    connection: Seq<char>,
    sample: TunnelMetrics,
    previous: TunnelMetrics,
    now_unix: i64,
)
    requires
        detector.connection_id == Some(connection),
        sample.received_bytes == previous.received_bytes,
        sample.sent_bytes == previous.sent_bytes,
        detector.candidate.last_activity_at_unix matches Some(last) ==> now_unix - last <= 10,
    ensures
        detector_after(detector, connection, sample, Some(previous), now_unix).candidate
            == detector.candidate,
{
}

/// Traffic that nothing followed for more than ten seconds is forgotten, unless
/// it has become an incident.
pub proof fn law_long_pause_drops_the_candidate(
    detector: DetectorView,
    connection: Seq<char>,
    sample: TunnelMetrics,
    previous: TunnelMetrics,
    now_unix: i64,
)
    requires
        detector.connection_id == Some(connection),
        sample.received_bytes == previous.received_bytes,
        sample.sent_bytes == previous.sent_bytes,
        detector.candidate.last_activity_at_unix matches Some(last) && now_unix - last > 10,
    ensures
        ({
            let after = detector_after(detector, connection, sample, Some(previous), now_unix);
            if detector.open_incident_at_unix is Some {
                after.candidate == detector.candidate
            } else {
                &&& after.candidate.started_at_unix is None
                &&& after.candidate.last_activity_at_unix is None
                &&& after.candidate.sent_bytes == 0
                &&& after.candidate.active_samples == 0
            }
        }),
{
}

/// Traffic that brought nothing back is added to what was sent before it; the
/// first of it begins the candidate.
pub proof fn law_unanswered_traffic_adds_up(
    detector: DetectorView,
    connection: Seq<char>,
    sample: TunnelMetrics,
    previous: TunnelMetrics,
    now_unix: i64,
)
    requires
        detector.connection_id == Some(connection),
        sample.received_bytes == previous.received_bytes,
        sample.sent_bytes > previous.sent_bytes,
        detector.candidate.sent_bytes + (sample.sent_bytes - previous.sent_bytes) <= u64::MAX,
        detector.candidate.active_samples < u8::MAX,
    ensures
        ({
            let before = detector.candidate;
            let after = detector_after(
                detector,
                connection,
                sample,
                Some(previous),
                now_unix,
            ).candidate;
            &&& after.sent_bytes == before.sent_bytes + (sample.sent_bytes - previous.sent_bytes)
            &&& after.active_samples == before.active_samples + 1
            &&& after.last_activity_at_unix == Some(now_unix)
            &&& before.started_at_unix is Some ==> after.started_at_unix == before.started_at_unix
            &&& before.started_at_unix is None ==> after.started_at_unix == Some(now_unix)
        }),
{
}

/// The counts of a candidate stop at what their fields hold; they never start
/// over.
pub proof fn law_candidate_counts_never_go_back(
    detector: DetectorView,
    connection: Seq<char>,
    sample: TunnelMetrics,
    previous: TunnelMetrics,
    now_unix: i64,
)
    requires
        detector.connection_id == Some(connection),
        sample.received_bytes == previous.received_bytes,
        sample.sent_bytes > previous.sent_bytes,
    ensures
        ({
            let after = detector_after(
                detector,
                connection,
                sample,
                Some(previous),
                now_unix,
            ).candidate;
            &&& after.sent_bytes >= detector.candidate.sent_bytes
            &&& after.sent_bytes >= sample.sent_bytes - previous.sent_bytes
            &&& after.active_samples >= detector.candidate.active_samples
        }),
{
}

/// While nothing comes back, an incident that is open stays the same, and one
/// is opened exactly where a session of ten seconds has five seconds of
/// unanswered traffic with 1024 bytes or more at two readings or more.
pub proof fn law_incident_opens_exactly_on_a_stall(
    detector: DetectorView,
    connection: Seq<char>,
    sample: TunnelMetrics,
    previous: TunnelMetrics,
    now_unix: i64,
)
    requires
        detector.connection_id == Some(connection),
        sample.received_bytes == previous.received_bytes,
        sample.sent_bytes >= previous.sent_bytes,
    ensures
        ({
            let after = detector_after(detector, connection, sample, Some(previous), now_unix);
            let stalled = after.candidate.started_at_unix matches Some(since) && now_unix - since
                >= 5 && now_unix - detector.started_at_unix >= 10 && after.candidate.sent_bytes
                >= 1024 && after.candidate.active_samples >= 2;
            after.open_incident_at_unix == (if detector.open_incident_at_unix is Some {
                detector.open_incident_at_unix
            } else if stalled {
                Some(now_unix)
            } else {
                None
            })
        }),
{
}

/// Anything that came back ends both the candidate and the incident: more than
/// at the reading before, or anything at all on a counter that has restarted.
pub proof fn law_answer_ends_the_stall(
    detector: DetectorView,
    connection: Seq<char>,
    sample: TunnelMetrics,
    previous: TunnelMetrics,
    now_unix: i64,
)
    requires
        sample.received_bytes > previous.received_bytes || 0 < sample.received_bytes
            < previous.received_bytes,
    ensures
        ({
            let after = detector_after(detector, connection, sample, Some(previous), now_unix);
            &&& after.open_incident_at_unix is None
            &&& after.candidate.started_at_unix is None
            &&& after.candidate.last_activity_at_unix is None
            &&& after.candidate.sent_bytes == 0
            &&& after.candidate.active_samples == 0
        }),
{
}

/// What has to be written follows from how the incident has changed: it is
/// recorded when it opens, with all samples up to then, its recovery when it
/// ends, and nothing otherwise.
pub proof fn law_change_of_the_incident_is_written(
    detector: DetectorView,
    connection: Seq<char>,
    sample: TunnelMetrics,
    previous: Option<TunnelMetrics>,
    now_unix: i64,
    action: DetectorAction,
)
    requires
        detector.connection_id == Some(connection),
        action_after(action, detector, connection, sample, previous, now_unix),
    ensures
        ({
            let after = detector_after(detector, connection, sample, previous, now_unix);
            match (detector.open_incident_at_unix, after.open_incident_at_unix) {
                (None, Some(opened)) => {
                    &&& opened == now_unix
                    &&& action matches DetectorAction::RecordDetection { detected_at_unix, samples }
                    &&& detected_at_unix == now_unix
                    &&& samples@ == after.samples
                },
                (Some(opened), None) => {
                    &&& action matches DetectorAction::RecordRecovery {
                        detected_at_unix,
                        recovered_at_unix,
                    }
                    &&& detected_at_unix == opened
                    &&& recovered_at_unix == now_unix
                },
                _ => action is Nothing,
            }
        }),
{
}

/// The first reading of another connection begins a session at that time, with
/// that reading alone and nothing to be written; a connection that goes on
/// keeps the beginning of its session.
pub proof fn law_session_begins_with_its_first_reading(
    detector: DetectorView,
    connection: Seq<char>,
    sample: TunnelMetrics,
    previous: Option<TunnelMetrics>,
    now_unix: i64,
    action: DetectorAction,
)
    requires
        action_after(action, detector, connection, sample, previous, now_unix),
    ensures
        ({
            let after = detector_after(detector, connection, sample, previous, now_unix);
            &&& after.connection_id == Some(connection)
            &&& detector.connection_id == Some(connection) ==> after.started_at_unix
                == detector.started_at_unix
            &&& detector.connection_id != Some(connection) ==> {
                &&& after.started_at_unix == now_unix
                &&& after.open_incident_at_unix is None
                &&& after.samples.len() == 1
                &&& action is Nothing
            }
        }),
{
}

/// Every reading is kept as the last sample, with what was counted since the
/// one before it; of more than sixty samples the oldest is given up.
pub proof fn law_reading_becomes_the_last_sample(
    detector: DetectorView,
    connection: Seq<char>,
    sample: TunnelMetrics,
    previous: TunnelMetrics,
    now_unix: i64,
)
    requires
        detector.connection_id == Some(connection),
        detector.samples.len() <= 60,
        sample.received_bytes >= previous.received_bytes,
        sample.sent_bytes >= previous.sent_bytes,
    ensures
        ({
            let samples = detector_after(
                detector,
                connection,
                sample,
                Some(previous),
                now_unix,
            ).samples;
            let kept = samples.last();
            &&& samples.drop_last() == (if detector.samples.len() == 60 {
                detector.samples.drop_first()
            } else {
                detector.samples
            })
            &&& kept.observed_at_unix == now_unix
            &&& kept.received_bytes == sample.received_bytes
            &&& kept.sent_bytes == sample.sent_bytes
            &&& kept.received_delta_bytes == sample.received_bytes - previous.received_bytes
            &&& kept.sent_delta_bytes == sample.sent_bytes - previous.sent_bytes
            &&& kept.latest_handshake_epoch_millis == sample.latest_handshake_epoch_millis
            &&& kept.handshake_age_seconds is Some == sample.latest_handshake_epoch_millis is Some
        }),
{
    let samples = detector_after(detector, connection, sample, Some(previous), now_unix).samples;
    assert(samples.drop_last() =~= (if detector.samples.len() == 60 {
        detector.samples.drop_first()
    } else {
        detector.samples
    }));
}

/// What was counted since a reading: the difference, or all that a restarted
/// counter shows. Without an earlier reading nothing was counted.
pub proof fn law_counted_bytes(before: u64, more: u64, restarted: u64)
    requires
        before + more <= u64::MAX,
        restarted < before,
    ensures
        counted(Some(before), (before + more) as u64) == more,
        counted(Some(before), restarted) == restarted,
        counted(None, before) == 0,
{
}

/// The age of a handshake in whole seconds; one of the future has none.
pub proof fn law_handshake_age(now_unix: i64, handshake_millis: u64)
    requires
        0 <= now_unix <= 1_000_000_000_000,
    ensures
        ({
            let age = handshake_age(now_unix, handshake_millis);
            if handshake_millis <= now_unix * 1000 {
                age * 1000 <= now_unix * 1000 - handshake_millis < age * 1000 + 1000
            } else {
                age == 0
            }
        }),
{
}

/// Where the archive could not be written, the incident is as it was before the
/// reading: a recovery that was not written leaves it open, a detection that
/// was not written leaves none. Another connection, another incident and all
/// else that the detector knows stay.
pub proof fn law_unwritten_change_is_taken_back(
    detector: DetectorView,
    connection: Seq<char>,
    action: DetectorAction,
)
    ensures
        ({
            let after = detector_after_failure(detector, connection, action);
            let own = detector.connection_id == Some(connection);
            &&& after == DetectorView {
                open_incident_at_unix: after.open_incident_at_unix,
                ..detector
            }
            &&& !own || action is Nothing ==> after == detector
            &&& own ==> (action matches DetectorAction::RecordRecovery { detected_at_unix, .. }
                ==> after.open_incident_at_unix is Some && (detector.open_incident_at_unix is None
                ==> after.open_incident_at_unix == Some(detected_at_unix)) && (
            detector.open_incident_at_unix is Some ==> after == detector))
            &&& own ==> (action matches DetectorAction::RecordDetection { detected_at_unix, .. }
                ==> after.open_incident_at_unix != Some(detected_at_unix) && (
            detector.open_incident_at_unix != Some(detected_at_unix) ==> after == detector))
        }),
{
}

} // verus!
