//! What is shown of a connection, over all that was read and probed of it: the
//! traffic adds up, latency and loss are those of the last probes, and the
//! limit on recovery lets through what it should.
use crate::connection_metrics::{
    answered, attempt_allowed, limiter_after_begin, loss_percent, median, metrics_after,
    metrics_for, next_allowed, probe_due, response_of, LimiterView, SessionMetricsView,
};
use crate::tunnel::TunnelMetrics;
use vstd::prelude::*;

verus! {

/// A reading of the counters and, where one was made, a probe.
pub struct Record {
    pub sample: TunnelMetrics,
    pub probe: Option<Option<u32>>,
}

/// The session of a lease after some records.
pub open spec fn metrics_after_records(
    session: Option<SessionMetricsView>,
    lease: Seq<char>,
    records: Seq<Record>,
) -> SessionMetricsView
    decreases records.len(),
{
    if records.len() == 0 {
        metrics_for(session, lease)
    } else {
        metrics_after(
            Some(metrics_after_records(session, lease, records.drop_last())),
            lease,
            records.last().sample,
            records.last().probe,
        )
    }
}

/// The probes that were made, in their order.
pub open spec fn probes_made(records: Seq<Record>) -> Seq<Option<u32>>
    decreases records.len(),
{
    if records.len() == 0 {
        Seq::empty()
    } else {
        match records.last().probe {
            Some(probe) => probes_made(records.drop_last()).push(probe),
            None => probes_made(records.drop_last()),
        }
    }
}

proof fn lemma_records_stay_with_their_lease(
    session: Option<SessionMetricsView>,
    lease: Seq<char>,
    records: Seq<Record>,
)
    ensures
        metrics_after_records(session, lease, records).lease_id == lease,
    decreases records.len(),
{
    if records.len() > 0 {
        lemma_records_stay_with_their_lease(session, lease, records.drop_last());
    }
}

/// However many probes were made of a lease, the window holds the last twelve
/// of them in their order, or all of them where there were fewer.
pub proof fn law_window_is_the_last_twelve_probes(
    session: Option<SessionMetricsView>,
    lease: Seq<char>,
    records: Seq<Record>,
)
    requires
        session matches Some(session) ==> session.lease_id != lease,
    ensures
        ({
            let made = probes_made(records);
            metrics_after_records(session, lease, records).probes == (if made.len() <= 12 {
                made
            } else {
                made.skip(made.len() - 12)
            })
        }),
    decreases records.len(),
{
    if records.len() > 0 {
        let earlier = records.drop_last();
        law_window_is_the_last_twelve_probes(session, lease, earlier);
        lemma_records_stay_with_their_lease(session, lease, earlier);
        let before = probes_made(earlier);
        let made = probes_made(records);
        let window = metrics_after_records(session, lease, records).probes;
        if made.len() > 12 && records.last().probe is Some {
            assert(window =~= made.skip(made.len() - 12));
        } else if made.len() <= 12 {
            assert(window =~= made);
        }
    }
}

/// A probe that was made is the last of the window; a reading without one
/// leaves the window as it was.
pub proof fn law_probe_becomes_the_last_of_the_window(
    session: SessionMetricsView,
    sample: TunnelMetrics,
    probe: Option<u32>,
)
    requires
        session.probes.len() <= 12,
    ensures
        ({
            let after = metrics_after(Some(session), session.lease_id, sample, Some(probe)).probes;
            &&& after.len() == (if session.probes.len() < 12 {
                session.probes.len() + 1
            } else {
                12
            })
            &&& after.last() == probe
            &&& forall|i: int|
                1 <= i < after.len() ==> #[trigger] after[after.len() - 1 - i]
                    == session.probes[session.probes.len() - i]
        }),
        metrics_after(Some(session), session.lease_id, sample, None).probes == session.probes,
{
}

/// The totals grow by the traffic since the last reading, received and sent
/// each by its own: by the difference, or by all that a restarted counter shows.
pub proof fn law_totals_grow_by_the_traffic(
    session: SessionMetricsView,
    sample: TunnelMetrics,
    probe: Option<Option<u32>>,
)
    requires
        session.received.total == session.received.offset + session.received.previous,
        session.sent.total == session.sent.offset + session.sent.previous,
        session.received.total + sample.received_bytes <= u64::MAX,
        session.sent.total + sample.sent_bytes <= u64::MAX,
    ensures
        ({
            let after = metrics_after(Some(session), session.lease_id, sample, probe);
            &&& after.received.total - session.received.total == (if sample.received_bytes
                >= session.received.previous {
                sample.received_bytes - session.received.previous
            } else {
                sample.received_bytes as int
            })
            &&& after.sent.total - session.sent.total == (if sample.sent_bytes
                >= session.sent.previous {
                sample.sent_bytes - session.sent.previous
            } else {
                sample.sent_bytes as int
            })
            &&& after.received.previous == sample.received_bytes
            &&& after.sent.previous == sample.sent_bytes
        }),
{
}

/// A connection with another lease starts from nothing: its totals are its
/// first reading, and no earlier probe counts for it.
pub proof fn law_other_lease_starts_from_nothing(
    session: SessionMetricsView,
    lease: Seq<char>,
    sample: TunnelMetrics,
    probe: Option<Option<u32>>,
)
    requires
        session.lease_id != lease,
    ensures
        ({
            let after = metrics_after(Some(session), lease, sample, probe);
            &&& after == metrics_after(None, lease, sample, probe)
            &&& after.lease_id == lease
            &&& after.received.total == sample.received_bytes
            &&& after.sent.total == sample.sent_bytes
            &&& after.last_probe_at_nanos is None
            &&& after.probes.len() == (if probe is Some {
                1int
            } else {
                0
            })
        }),
{
}

/// A reading of the same lease keeps when it was last probed.
pub proof fn law_reading_keeps_the_time_of_the_probe(
    session: SessionMetricsView,
    sample: TunnelMetrics,
    probe: Option<Option<u32>>,
)
    ensures
        ({
            let after = metrics_after(Some(session), session.lease_id, sample, probe);
            &&& after.lease_id == session.lease_id
            &&& after.last_probe_at_nanos == session.last_probe_at_nanos
        }),
{
}

/// How many of the probes were not answered.
pub open spec fn lost(probes: Seq<Option<u32>>) -> int
    decreases probes.len(),
{
    if probes.len() == 0 {
        0
    } else {
        lost(probes.drop_last()) + (if probes.last() is None {
            1int
        } else {
            0
        })
    }
}

proof fn lemma_lost_and_answered(probes: Seq<Option<u32>>)
    ensures
        0 <= lost(probes) <= probes.len(),
        lost(probes) + answered(probes).len() == probes.len(),
    decreases probes.len(),
{
    if probes.len() > 0 {
        lemma_lost_and_answered(probes.drop_last());
    }
}

/// The loss is the share of the probes that were not answered, to the nearest
/// percent, and a half is rounded up.
pub proof fn law_loss_is_the_share_of_lost_probes(probes: Seq<Option<u32>>)
    requires
        0 < probes.len(),
    ensures
        0 <= loss_percent(probes) <= 100,
        2 * 100 * lost(probes) - probes.len() < 2 * loss_percent(probes) * probes.len() <= 2 * 100
            * lost(probes) + probes.len(),
        lost(probes) == 0 ==> loss_percent(probes) == 0,
        lost(probes) == probes.len() ==> loss_percent(probes) == 100,
{
    lemma_lost_and_answered(probes);
    let count = probes.len() as int;
    let missing = lost(probes);
    let half = count / 2;
    let value = (missing * 100 + half) / count;
    assert(value * count <= missing * 100 + half < value * count + count) by (nonlinear_arith)
        requires
            count > 0,
            value == (missing * 100 + half) / count,
    ;
    assert(0 <= value <= 100) by (nonlinear_arith)
        requires
            value * count <= missing * 100 + half < value * count + count,
            0 <= missing <= count,
            half == count / 2,
            count > 0,
    ;
    assert(loss_percent(probes) == value);
    let product = value * count;
    assert(2 * value * count == 2 * product) by (nonlinear_arith)
        requires
            product == value * count,
    ;
    assert(2 * loss_percent(probes) * probes.len() == 2 * product);
    assert(count == 2 * half || count == 2 * half + 1);
    assert(200 * missing - count < 2 * product <= 200 * missing + count);
    if missing == 0 {
        assert(value == 0) by (nonlinear_arith)
            requires
                value * count <= half,
                half < count,
                value >= 0,
                count > 0,
        ;
    }
    if missing == count {
        assert(value == 100) by (nonlinear_arith)
            requires
                count * 100 + half < value * count + count,
                value <= 100,
                half >= 0,
                count > 0,
        ;
    }
}

/// What is shown are the totals, and latency and loss of the window once it
/// holds three probes of which one was answered; before that neither is shown.
pub proof fn law_latency_is_shown_after_three_probes(session: SessionMetricsView)
    ensures
        ({
            let shown = response_of(session);
            let ready = session.probes.len() >= 3 && lost(session.probes) < session.probes.len();
            &&& shown.received_bytes == session.received.total
            &&& shown.sent_bytes == session.sent.total
            &&& shown.latency_ms is Some == ready
            &&& shown.packet_loss_percent is Some == ready
            &&& ready ==> shown.latency_ms == Some(median(answered(session.probes)))
            &&& ready ==> shown.packet_loss_percent == Some(loss_percent(session.probes))
        }),
{
    lemma_lost_and_answered(session.probes);
}

/// The answered probes keep their latencies and their order, one for each.
pub proof fn law_answered_probes_are_all_counted(probes: Seq<Option<u32>>, latency: u32)
    ensures
        answered(probes.push(Some(latency))) == answered(probes).push(latency),
        answered(probes.push(None)) == answered(probes),
        answered(Seq::empty()) == Seq::<u32>::empty(),
{
    assert(probes.push(Some(latency)).drop_last() =~= probes);
    assert(probes.push(None).drop_last() =~= probes);
}

/// The median does not depend on the order of the latencies, and of ascending
/// ones it is the one in the middle, or the mean of the two there.
pub proof fn law_median_is_in_the_middle(latencies: Seq<u32>, ascending: Seq<u32>)
    requires
        latencies.len() > 0,
        latencies.to_multiset() == ascending.to_multiset(),
        forall|i: int, j: int| 0 <= i < j < ascending.len() ==> ascending[i] <= ascending[j],
    ensures
        ascending.len() == latencies.len(),
        ascending.len() % 2 == 1 ==> median(latencies) == ascending[(ascending.len() / 2) as int],
        ascending.len() % 2 == 0 ==> median(latencies) == (ascending[ascending.len() / 2 - 1]
            + ascending[(ascending.len() / 2) as int]) / 2,
{
    let leq = |l: u32, r: u32| crate::connection_metrics::ascending(l, r);
    let sorted = latencies.sort_by(leq);
    assert(vstd::relations::total_ordering(leq));
    latencies.lemma_sort_by_ensures(leq);
    assert(vstd::relations::sorted_by(ascending, leq));
    vstd::seq_lib::lemma_sorted_unique(sorted, ascending, leq);
    latencies.to_multiset_ensures();
    ascending.to_multiset_ensures();
    sorted.to_multiset_ensures();
}

/// A lease that was never probed is probed at once; after that a second apart
/// until there are three probes, and ten seconds apart from then on.
pub proof fn law_probes_keep_their_distance(session: SessionMetricsView, now_nanos: u64)
    ensures
        probe_due(session, now_nanos) == (match session.last_probe_at_nanos {
            None => true,
            Some(last) => now_nanos - last >= (if session.probes.len() < 3 {
                1_000_000_000int
            } else {
                10_000_000_000
            }),
        }),
{
}

/// Fewer than two attempts in the last ten minutes leave room for one more: an
/// attempt is allowed where fewer than two were made, or the older of two lies
/// ten minutes back; otherwise it is refused.
pub proof fn law_attempt_is_allowed_while_there_is_room(
    limiter: LimiterView,
    lease: Seq<char>,
    now_unix: i64,
)
    requires
        limiter.lease_id == lease,
        limiter.attempts.len() <= 2,
        now_unix >= i64::MIN + 600,
    ensures
        attempt_allowed(limiter, lease, now_unix) <==> limiter.attempts.len() < 2
            || limiter.attempts[0] <= now_unix - 600,
{
    reveal_with_fuel(crate::connection_metrics::unexpired, 3);
}

/// An allowed attempt is the newest that counts; a refused one is not counted,
/// and one that lies ten minutes back counts no more.
pub proof fn law_allowed_attempt_is_counted_last(
    limiter: LimiterView,
    lease: Seq<char>,
    now_unix: i64,
)
    requires
        limiter.attempts.len() <= 2,
        now_unix >= i64::MIN + 600,
    ensures
        ({
            let after = limiter_after_begin(limiter, lease, now_unix);
            &&& after.lease_id == lease
            &&& after.attempts.len() <= 2
            &&& attempt_allowed(limiter, lease, now_unix) ==> after.attempts.len() > 0
                && after.attempts.last() == now_unix
            &&& !attempt_allowed(limiter, lease, now_unix) ==> after == limiter
            &&& limiter.lease_id != lease ==> after.attempts == seq![now_unix]
            &&& limiter.lease_id == lease && limiter.attempts.len() > 0 && limiter.attempts[0]
                > now_unix - 600 && attempt_allowed(limiter, lease, now_unix) ==> after.attempts
                == limiter.attempts.push(now_unix)
        }),
{
    reveal_with_fuel(crate::connection_metrics::unexpired, 3);
    let after = limiter_after_begin(limiter, lease, now_unix);
    if limiter.lease_id != lease {
        assert(after.attempts =~= seq![now_unix]);
    }
}

/// Where the limit is reached, the next attempt is announced for ten minutes
/// after the older of the two; nothing is announced otherwise.
pub proof fn law_next_attempt_is_announced(limiter: LimiterView, lease: Seq<char>)
    requires
        limiter.attempts.len() <= 2,
    ensures
        next_allowed(limiter, lease) is Some <==> limiter.lease_id == lease
            && limiter.attempts.len() == 2,
        next_allowed(limiter, lease) matches Some(next) ==> next == limiter.attempts[0] + 600
            || limiter.attempts[0] + 600 > i64::MAX && next == i64::MAX,
{
}

} // verus!
