//! Traffic, latency and loss of the current connection, and the limit on how
//! often a stalled connection may be recovered.
//!
//! Times on the monotonic clock are given in nanoseconds from a fixed origin.
use crate::text::same_text;
use crate::tunnel::TunnelMetrics;
use std::collections::VecDeque;
use vstd::prelude::*;

verus! {

pub const PROBE_INTERVAL_NANOS: u64 = 10_000_000_000;

pub const INITIAL_PROBE_INTERVAL_NANOS: u64 = 1_000_000_000;

pub const INITIAL_PROBE_SAMPLES: usize = 3;

pub const PROBE_WINDOW: usize = 12;

pub const OBSERVATION_TTL_NANOS: u64 = 15_000_000_000;

pub const STALL_RECOVERY_WINDOW_SECONDS: i64 = 600;

pub const MAX_STALL_RECOVERY_ATTEMPTS: usize = 2;

/// What is shown of the current connection.
#[derive(Clone, Copy, Debug, PartialEq, Eq, Structural)]
pub struct ConnectionMetricsResponse {
    pub received_bytes: u64,
    pub sent_bytes: u64,
    pub latency_ms: Option<u32>,
    pub packet_loss_percent: Option<u8>,
}

/// Recovery attempts on one lease that still count against the limit.
pub struct StallRecoveryLimiter {
    pub lease_id: String,
    pub attempts: VecDeque<i64>,
}

#[verifier::ext_equal]
pub struct LimiterView {
    pub lease_id: Seq<char>,
    pub attempts: Seq<i64>,
}

impl View for StallRecoveryLimiter {
    type V = LimiterView;

    open spec fn view(&self) -> LimiterView {
        LimiterView { lease_id: self.lease_id@, attempts: self.attempts@ }
    }
}

pub open spec fn no_attempts() -> LimiterView {
    LimiterView { lease_id: Seq::empty(), attempts: Seq::empty() }
}

/// Attempts at or before this time no longer count at `now_unix`.
pub open spec fn attempt_cutoff(now_unix: i64) -> i64 {
    if now_unix - STALL_RECOVERY_WINDOW_SECONDS < i64::MIN {
        i64::MIN
    } else {
        (now_unix - STALL_RECOVERY_WINDOW_SECONDS) as i64
    }
}

/// The attempts from the first one after the cutoff.
pub open spec fn unexpired(attempts: Seq<i64>, cutoff: i64) -> Seq<i64>
    decreases attempts.len(),
{
    if attempts.len() > 0 && attempts[0] <= cutoff {
        unexpired(attempts.drop_first(), cutoff)
    } else {
        attempts
    }
}

/// What counts for `lease` at `now_unix`.
pub open spec fn counting_attempts(limiter: LimiterView, lease: Seq<char>, now_unix: i64) -> Seq<
    i64,
> {
    if limiter.lease_id == lease {
        unexpired(limiter.attempts, attempt_cutoff(now_unix))
    } else {
        Seq::empty()
    }
}

pub open spec fn attempt_allowed(limiter: LimiterView, lease: Seq<char>, now_unix: i64) -> bool {
    counting_attempts(limiter, lease, now_unix).len() < MAX_STALL_RECOVERY_ATTEMPTS
}

/// The limiter after an attempt was asked for: a refused one is not counted.
pub open spec fn limiter_after_begin(
    limiter: LimiterView,
    lease: Seq<char>,
    now_unix: i64,
) -> LimiterView {
    let counting = counting_attempts(limiter, lease, now_unix);
    LimiterView {
        lease_id: lease,
        attempts: if attempt_allowed(limiter, lease, now_unix) {
            counting.push(now_unix)
        } else {
            counting
        },
    }
}

/// The limiter after the attempt begun at `attempt_unix` was called off.
pub open spec fn limiter_after_cancel(
    limiter: LimiterView,
    lease: Seq<char>,
    attempt_unix: i64,
) -> LimiterView {
    if limiter.lease_id == lease && limiter.attempts.len() > 0 && limiter.attempts.last()
        == attempt_unix {
        LimiterView { attempts: limiter.attempts.drop_last(), ..limiter }
    } else {
        limiter
    }
}

/// When the next attempt is allowed, where the limit has been reached.
pub open spec fn next_allowed(limiter: LimiterView, lease: Seq<char>) -> Option<i64> {
    if limiter.lease_id != lease || limiter.attempts.len() < MAX_STALL_RECOVERY_ATTEMPTS {
        None
    } else {
        let next = limiter.attempts[0] + STALL_RECOVERY_WINDOW_SECONDS;
        Some(if next > i64::MAX {
            i64::MAX
        } else {
            next as i64
        })
    }
}

impl StallRecoveryLimiter {
    /// No more attempts are counted than are allowed.
    pub open spec fn wf(self) -> bool {
        self.attempts@.len() <= MAX_STALL_RECOVERY_ATTEMPTS
    }

    pub fn new() -> (limiter: Self)
        ensures
            limiter.wf(),
            limiter@ == no_attempts(),
    {
        StallRecoveryLimiter { lease_id: String::new(), attempts: VecDeque::new() }
    }

    /// Asks for an attempt on `lease_id` and counts it if it is allowed.
    pub fn begin_attempt(&mut self, lease_id: &str, now_unix: i64) -> (allowed: bool)
        requires
            old(self).wf(),
        ensures
            final(self).wf(),
            allowed == attempt_allowed(old(self)@, lease_id@, now_unix),
            final(self)@ == limiter_after_begin(old(self)@, lease_id@, now_unix),
    {
        let ghost before = self@;
        if !same_text(self.lease_id.as_str(), lease_id) {
            self.lease_id = lease_id.to_owned();
            self.attempts.clear();
        }
        let cutoff: i64 = match now_unix.checked_sub(STALL_RECOVERY_WINDOW_SECONDS) {
            Some(cutoff) => cutoff,
            None => i64::MIN,
        };
        while self.attempts.len() > 0 && self.attempts[0] <= cutoff
            invariant
                self.wf(),
                self@.lease_id == lease_id@,
                cutoff == attempt_cutoff(now_unix),
                unexpired(self.attempts@, cutoff) == counting_attempts(
                    before,
                    lease_id@,
                    now_unix,
                ),
            decreases self.attempts@.len(),
        {
            let ghost earlier = self.attempts@;
            self.attempts.pop_front();
            assert(self.attempts@ =~= earlier.drop_first());
        }
        if self.attempts.len() >= MAX_STALL_RECOVERY_ATTEMPTS {
            return false;
        }
        self.attempts.push_back(now_unix);
        true
    }

    /// Gives back an attempt that was not made after all.
    pub fn cancel_attempt(&mut self, lease_id: &str, attempt_unix: i64)
        requires
            old(self).wf(),
        ensures
            final(self).wf(),
            final(self)@ == limiter_after_cancel(old(self)@, lease_id@, attempt_unix),
    {
        if same_text(self.lease_id.as_str(), lease_id) && self.attempts.len() > 0
            && self.attempts[self.attempts.len() - 1] == attempt_unix {
            let ghost earlier = self.attempts@;
            self.attempts.pop_back();
            assert(self.attempts@ =~= earlier.drop_last());
        }
    }

    pub fn next_attempt_at_unix(&self, lease_id: &str) -> (next: Option<i64>)
        ensures
            next == next_allowed(self@, lease_id@),
    {
        if !same_text(self.lease_id.as_str(), lease_id) || self.attempts.len()
            < MAX_STALL_RECOVERY_ATTEMPTS {
            return None;
        }
        Some(
            match self.attempts[0].checked_add(STALL_RECOVERY_WINDOW_SECONDS) {
                Some(next) => next,
                None => i64::MAX,
            },
        )
    }

    pub fn reset(&mut self)
        ensures
            final(self).wf(),
            final(self)@ == no_attempts(),
    {
        self.lease_id = String::new();
        self.attempts.clear();
    }
}

/// An attempt that was called off is not counted: the limiter is left with
/// what counted before it.
pub proof fn law_cancelled_attempt_is_not_counted(
    limiter: LimiterView,
    lease: Seq<char>,
    now_unix: i64,
)
    requires
        attempt_allowed(limiter, lease, now_unix),
    ensures
        limiter_after_cancel(limiter_after_begin(limiter, lease, now_unix), lease, now_unix)
            == (LimiterView {
            lease_id: lease,
            attempts: counting_attempts(limiter, lease, now_unix),
        }),
{
    let counting = counting_attempts(limiter, lease, now_unix);
    assert(counting.push(now_unix).drop_last() =~= counting);
}

/// Another lease has a limit of its own.
pub proof fn law_new_lease_is_not_limited(limiter: LimiterView, lease: Seq<char>, now_unix: i64)
    requires
        limiter.lease_id != lease,
    ensures
        attempt_allowed(limiter, lease, now_unix),
{
}

/// When the limit has been reached, an attempt is allowed at the time that is
/// named for it.
pub proof fn law_attempt_is_allowed_when_announced(limiter: LimiterView, lease: Seq<char>)
    requires
        limiter.attempts.len() <= MAX_STALL_RECOVERY_ATTEMPTS,
        next_allowed(limiter, lease) is Some,
        limiter.attempts[0] + STALL_RECOVERY_WINDOW_SECONDS <= i64::MAX,
    ensures
        attempt_allowed(limiter, lease, next_allowed(limiter, lease)->0),
{
    let cutoff = attempt_cutoff(next_allowed(limiter, lease)->0);
    lemma_unexpired_is_shorter(limiter.attempts.drop_first(), cutoff);
}

proof fn lemma_unexpired_is_shorter(attempts: Seq<i64>, cutoff: i64)
    ensures
        unexpired(attempts, cutoff).len() <= attempts.len(),
    decreases attempts.len(),
{
    if attempts.len() > 0 && attempts[0] <= cutoff {
        lemma_unexpired_is_shorter(attempts.drop_first(), cutoff);
    }
}

/// The limiter after attempts on one lease were asked for at these times.
pub open spec fn limiter_after_requests(lease: Seq<char>, times: Seq<i64>) -> LimiterView
    decreases times.len(),
{
    if times.len() == 0 {
        LimiterView { lease_id: lease, attempts: Seq::empty() }
    } else {
        limiter_after_begin(limiter_after_requests(lease, times.drop_last()), lease, times.last())
    }
}

/// Those of the times at which the attempt was allowed.
pub open spec fn allowed_times(lease: Seq<char>, times: Seq<i64>) -> Seq<i64>
    decreases times.len(),
{
    if times.len() == 0 {
        Seq::empty()
    } else {
        let earlier = allowed_times(lease, times.drop_last());
        if attempt_allowed(
            limiter_after_requests(lease, times.drop_last()),
            lease,
            times.last(),
        ) {
            earlier.push(times.last())
        } else {
            earlier
        }
    }
}

pub open spec fn in_order(times: Seq<i64>) -> bool {
    forall|i: int, j: int| 0 <= i <= j < times.len() ==> times[i] <= times[j]
}

proof fn lemma_unexpired_is_a_tail(attempts: Seq<i64>, cutoff: i64) -> (dropped: int)
    ensures
        0 <= dropped <= attempts.len(),
        unexpired(attempts, cutoff) == attempts.skip(dropped),
        forall|i: int| 0 <= i < dropped ==> #[trigger] attempts[i] <= cutoff,
    decreases attempts.len(),
{
    if attempts.len() > 0 && attempts[0] <= cutoff {
        let rest = lemma_unexpired_is_a_tail(attempts.drop_first(), cutoff);
        assert(attempts.drop_first().skip(rest) =~= attempts.skip(rest + 1));
        assert forall|i: int| 0 <= i < rest + 1 implies #[trigger] attempts[i] <= cutoff by {
            if i > 0 {
                assert(attempts.drop_first()[i - 1] <= cutoff);
            }
        }
        rest + 1
    } else {
        assert(attempts.skip(0) =~= attempts);
        0
    }
}

proof fn lemma_limiter_holds_the_latest(lease: Seq<char>, times: Seq<i64>) -> (dropped: int)
    requires
        in_order(times),
        forall|i: int| 0 <= i < times.len() ==> #[trigger] times[i] >= i64::MIN + 600,
    ensures
        0 <= dropped <= allowed_times(lease, times).len(),
        limiter_after_requests(lease, times).lease_id == lease,
        limiter_after_requests(lease, times).attempts == allowed_times(lease, times).skip(dropped),
        forall|i: int|
            0 <= i < dropped ==> #[trigger] allowed_times(lease, times)[i] + 600 <= times.last(),
        dropped > 0 ==> times.len() > 0,
        forall|i: int|
            0 <= i < allowed_times(lease, times).len() ==> times.contains(
                #[trigger] allowed_times(lease, times)[i],
            ),
        in_order(allowed_times(lease, times)),
    decreases times.len(),
{
    let all = allowed_times(lease, times);
    if times.len() == 0 {
        assert(all.skip(0) =~= all);
        0
    } else {
        let rest = times.drop_last();
        let now = times.last();
        let earlier = allowed_times(lease, rest);
        assert forall|i: int| 0 <= i < rest.len() implies #[trigger] rest[i] >= i64::MIN + 600 by {
            assert(rest[i] == times[i]);
        }
        let before = lemma_limiter_holds_the_latest(lease, rest);
        let limiter = limiter_after_requests(lease, rest);
        let more = lemma_unexpired_is_a_tail(limiter.attempts, attempt_cutoff(now));
        let counting = counting_attempts(limiter, lease, now);
        assert(earlier.skip(before).skip(more) =~= earlier.skip(before + more));
        let dropped = before + more;
        assert forall|i: int| 0 <= i < dropped implies #[trigger] earlier[i] + 600 <= now by {
            if i < before {
                assert(rest.last() <= now) by {
                    assert(rest.last() == times[times.len() - 2]);
                }
            } else {
                assert(limiter.attempts[i - before] == earlier[i]);
            }
        }
        assert forall|i: int| 0 <= i < earlier.len() implies times.contains(
            #[trigger] earlier[i],
        ) && earlier[i] <= now by {
            let place = choose|p: int| 0 <= p < rest.len() && rest[p] == earlier[i];
            assert(times[place] == earlier[i]);
        }
        if attempt_allowed(limiter, lease, now) {
            assert(all =~= earlier.push(now));
            assert(earlier.skip(dropped).push(now) =~= all.skip(dropped));
            assert(times[times.len() - 1] == now);
            assert forall|i: int| 0 <= i < all.len() implies times.contains(#[trigger] all[i]) by {
                if i < earlier.len() {
                    assert(all[i] == earlier[i]);
                }
            }
            assert forall|i: int| 0 <= i < dropped implies #[trigger] all[i] + 600 <= now by {
                assert(all[i] == earlier[i]);
            }
        }
        dropped
    }
}

/// However often recovery is asked for, of any three attempts that are allowed
/// on one lease the last comes at least ten minutes after the first.
pub proof fn law_recovery_cannot_loop(
    lease: Seq<char>,
    times: Seq<i64>,
    first: int,
    second: int,
    third: int,
)
    requires
        in_order(times),
        forall|i: int| 0 <= i < times.len() ==> #[trigger] times[i] >= i64::MIN + 600,
        0 <= first < second < third < allowed_times(lease, times).len(),
    ensures
        allowed_times(lease, times)[third] - allowed_times(lease, times)[first]
            >= STALL_RECOVERY_WINDOW_SECONDS,
    decreases times.len(),
{
    if times.len() > 0 {
        let rest = times.drop_last();
        let now = times.last();
        let earlier = allowed_times(lease, rest);
        let all = allowed_times(lease, times);
        assert forall|i: int| 0 <= i < rest.len() implies #[trigger] rest[i] >= i64::MIN + 600 by {
            assert(rest[i] == times[i]);
        }
        if third < earlier.len() {
            law_recovery_cannot_loop(lease, rest, first, second, third);
            assert(all[third] == earlier[third]);
            assert(all[first] == earlier[first]);
        } else {
            let limiter = limiter_after_requests(lease, rest);
            let before = lemma_limiter_holds_the_latest(lease, rest);
            let more = lemma_unexpired_is_a_tail(limiter.attempts, attempt_cutoff(now));
            assert(earlier.skip(before).skip(more) =~= earlier.skip(before + more));
            assert(earlier.len() - (before + more) < 2);
            assert(first < before + more);
            assert(all[first] == earlier[first]);
            if first < before {
                assert(earlier[first] + 600 <= rest.last());
                assert(rest.last() == times[times.len() - 2]);
            } else {
                assert(limiter.attempts[first - before] == earlier[first]);
            }
        }
    }
}

/// Counters and probes of the connection with one lease.
pub struct SessionMetrics {
    pub lease_id: String,
    pub received_offset: u64,
    pub sent_offset: u64,
    pub previous_received: u64,
    pub previous_sent: u64,
    pub received_bytes: u64,
    pub sent_bytes: u64,
    pub probes: VecDeque<Option<u32>>,
    pub last_probe_at_nanos: Option<u64>,
}

/// A counter that goes on where the backend started anew.
pub struct CounterView {
    pub offset: u64,
    pub previous: u64,
    pub total: u64,
}

#[verifier::ext_equal]
pub struct SessionMetricsView {
    pub lease_id: Seq<char>,
    pub received: CounterView,
    pub sent: CounterView,
    pub probes: Seq<Option<u32>>,
    pub last_probe_at_nanos: Option<u64>,
}

impl View for SessionMetrics {
    type V = SessionMetricsView;

    open spec fn view(&self) -> SessionMetricsView {
        SessionMetricsView {
            lease_id: self.lease_id@,
            received: CounterView {
                offset: self.received_offset,
                previous: self.previous_received,
                total: self.received_bytes,
            },
            sent: CounterView {
                offset: self.sent_offset,
                previous: self.previous_sent,
                total: self.sent_bytes,
            },
            probes: self.probes@,
            last_probe_at_nanos: self.last_probe_at_nanos,
        }
    }
}

pub open spec fn capped(value: int) -> u64 {
    if value > u64::MAX {
        u64::MAX
    } else {
        value as u64
    }
}

/// The counter after a reading: one that is lower than the last was started
/// anew, and what had been counted before it is kept.
pub open spec fn counter_after(counter: CounterView, reading: u64) -> CounterView {
    let offset = if reading < counter.previous {
        capped(counter.offset + counter.previous)
    } else {
        counter.offset
    };
    CounterView { offset, previous: reading, total: capped(offset + reading) }
}

pub open spec fn fresh_counter() -> CounterView {
    CounterView { offset: 0, previous: 0, total: 0 }
}

pub open spec fn fresh_metrics(lease: Seq<char>) -> SessionMetricsView {
    SessionMetricsView {
        lease_id: lease,
        received: fresh_counter(),
        sent: fresh_counter(),
        probes: Seq::empty(),
        last_probe_at_nanos: None,
    }
}

/// The session as it stands for `lease`: another lease starts afresh.
pub open spec fn metrics_for(session: Option<SessionMetricsView>, lease: Seq<char>) -> SessionMetricsView {
    match session {
        Some(session) => if session.lease_id == lease {
            session
        } else {
            fresh_metrics(lease)
        },
        None => fresh_metrics(lease),
    }
}

/// Whether a probe is due: quickly until there are enough samples, then at
/// longer intervals.
pub open spec fn probe_due(session: SessionMetricsView, now_nanos: u64) -> bool {
    match session.last_probe_at_nanos {
        None => true,
        Some(last) => now_nanos >= last && now_nanos - last >= (if session.probes.len()
            < INITIAL_PROBE_SAMPLES {
            INITIAL_PROBE_INTERVAL_NANOS
        } else {
            PROBE_INTERVAL_NANOS
        }),
    }
}

/// The last twelve probes, with one more.
pub open spec fn probes_with(probes: Seq<Option<u32>>, probe: Option<u32>) -> Seq<Option<u32>> {
    if probes.len() == PROBE_WINDOW {
        probes.drop_first().push(probe)
    } else {
        probes.push(probe)
    }
}

pub open spec fn metrics_after(
    session: Option<SessionMetricsView>,
    lease: Seq<char>,
    sample: TunnelMetrics,
    probe: Option<Option<u32>>,
) -> SessionMetricsView {
    let current = metrics_for(session, lease);
    SessionMetricsView {
        received: counter_after(current.received, sample.received_bytes),
        sent: counter_after(current.sent, sample.sent_bytes),
        probes: match probe {
            Some(latency) => probes_with(current.probes, latency),
            None => current.probes,
        },
        ..current
    }
}

/// The latencies of the probes that were answered.
pub open spec fn answered(probes: Seq<Option<u32>>) -> Seq<u32>
    decreases probes.len(),
{
    if probes.len() == 0 {
        Seq::empty()
    } else {
        match probes.last() {
            Some(latency) => answered(probes.drop_last()).push(latency),
            None => answered(probes.drop_last()),
        }
    }
}

pub open spec fn ascending(left: u32, right: u32) -> bool {
    left <= right
}

/// The middle one of the latencies, or the mean of the two in the middle.
pub open spec fn median(latencies: Seq<u32>) -> u32 {
    let sorted = latencies.sort_by(|l: u32, r: u32| ascending(l, r));
    let middle = (sorted.len() / 2) as int;
    if sorted.len() % 2 == 0 {
        ((sorted[middle - 1] + sorted[middle]) / 2) as u32
    } else {
        sorted[middle]
    }
}

/// Lost probes in percent, rounded to the nearest whole number.
pub open spec fn loss_percent(probes: Seq<Option<u32>>) -> u8 {
    let lost = probes.len() - answered(probes).len();
    ((lost * 100 + (probes.len() / 2) as int) / (probes.len() as int)) as u8
}

/// What is shown of a session: latency and loss only after enough probes, of
/// which one was answered.
pub open spec fn response_of(session: SessionMetricsView) -> ConnectionMetricsResponse {
    let ready = session.probes.len() >= INITIAL_PROBE_SAMPLES && answered(session.probes).len() > 0;
    ConnectionMetricsResponse {
        received_bytes: session.received.total,
        sent_bytes: session.sent.total,
        latency_ms: if ready {
            Some(median(answered(session.probes)))
        } else {
            None
        },
        packet_loss_percent: if ready {
            Some(loss_percent(session.probes))
        } else {
            None
        },
    }
}

/// Metrics of the current connection and when a client last looked at them.
pub struct ConnectionMetricsTracker {
    pub session: Option<SessionMetrics>,
    pub last_observed_at_nanos: Option<u64>,
}

pub open spec fn session_view(session: Option<SessionMetrics>) -> Option<SessionMetricsView> {
    match session {
        Some(session) => Some(session@),
        None => None,
    }
}

pub open spec fn counter_wf(counter: CounterView) -> bool {
    counter.total == capped(counter.offset + counter.previous)
}

pub open spec fn metrics_wf(session: SessionMetricsView) -> bool {
    &&& session.probes.len() <= PROBE_WINDOW
    &&& counter_wf(session.received)
    &&& counter_wf(session.sent)
}

/// Puts a latency into its place among ascending ones.
fn insert_sorted(sorted: &mut Vec<u32>, latency: u32)
    requires
        vstd::relations::sorted_by(old(sorted)@, |l: u32, r: u32| ascending(l, r)),
    ensures
        vstd::relations::sorted_by(final(sorted)@, |l: u32, r: u32| ascending(l, r)),
        final(sorted)@.len() == old(sorted)@.len() + 1,
        final(sorted)@.to_multiset() == old(sorted)@.to_multiset().insert(latency),
{
    let ghost before = sorted@;
    let mut place: usize = 0;
    while place < sorted.len() && sorted[place] <= latency
        invariant
            place <= sorted@.len(),
            sorted@ == before,
            vstd::relations::sorted_by(before, |l: u32, r: u32| ascending(l, r)),
            forall|i: int| 0 <= i < place ==> before[i] <= latency,
        decreases sorted.len() - place,
    {
        place += 1;
    }
    sorted.insert(place, latency);
    proof {
        vstd::seq_lib::to_multiset_insert(before, place as int, latency);
        let leq = |l: u32, r: u32| ascending(l, r);
        assert forall|i: int, j: int| 0 <= i < j < sorted@.len() implies #[trigger] leq(
            sorted@[i],
            sorted@[j],
        ) by {
            let left = if i < place {
                i
            } else {
                i - 1
            };
            let right = if j < place {
                j
            } else {
                j - 1
            };
            if i != place && j != place {
                assert(leq(before[left], before[right]));
            } else if i == place {
                if place < before.len() {
                    assert(right == place || leq(before[place as int], before[right]));
                }
            }
        }
    }
}

/// The latencies of the answered probes in ascending order.
fn sorted_latencies(probes: &VecDeque<Option<u32>>) -> (sorted: Vec<u32>)
    ensures
        sorted@ == answered(probes@).sort_by(|l: u32, r: u32| ascending(l, r)),
        sorted@.len() == answered(probes@).len(),
{
    let mut sorted: Vec<u32> = Vec::new();
    let mut index: usize = 0;
    assert(sorted@ =~= answered(probes@.take(0)));
    while index < probes.len()
        invariant
            index <= probes@.len(),
            vstd::relations::sorted_by(sorted@, |l: u32, r: u32| ascending(l, r)),
            sorted@.to_multiset() == answered(probes@.take(index as int)).to_multiset(),
            sorted@.len() == answered(probes@.take(index as int)).len(),
        decreases probes.len() - index,
    {
        let probe: Option<u32> = probes[index];
        let ghost shorter = probes@.take(index as int);
        assert(probes@.take(index + 1).drop_last() =~= shorter);
        if let Some(latency) = probe {
            insert_sorted(&mut sorted, latency);
            proof {
                vstd::seq_lib::to_multiset_build(answered(shorter), latency);
            }
        }
        index += 1;
    }
    proof {
        let leq = |l: u32, r: u32| ascending(l, r);
        let all = answered(probes@);
        assert(probes@.take(probes@.len() as int) =~= probes@);
        assert(vstd::relations::total_ordering(leq));
        all.lemma_sort_by_ensures(leq);
        vstd::seq_lib::lemma_sorted_unique(sorted@, all.sort_by(leq), leq);
    }
    sorted
}

impl SessionMetrics {
    fn new(lease_id: &str) -> (session: Self)
        ensures
            session@ == fresh_metrics(lease_id@),
    {
        SessionMetrics {
            lease_id: lease_id.to_owned(),
            received_offset: 0,
            sent_offset: 0,
            previous_received: 0,
            previous_sent: 0,
            received_bytes: 0,
            sent_bytes: 0,
            probes: VecDeque::new(),
            last_probe_at_nanos: None,
        }
    }
}

proof fn lemma_answered_is_shorter(probes: Seq<Option<u32>>)
    ensures
        answered(probes).len() <= probes.len(),
    decreases probes.len(),
{
    if probes.len() > 0 {
        lemma_answered_is_shorter(probes.drop_last());
    }
}

impl ConnectionMetricsTracker {
    pub open spec fn wf(self) -> bool {
        self.session matches Some(session) ==> metrics_wf(session@)
    }

    pub fn new() -> (tracker: Self)
        ensures
            tracker.wf(),
            tracker.session is None,
            tracker.last_observed_at_nanos is None,
    {
        ConnectionMetricsTracker { session: None, last_observed_at_nanos: None }
    }

    /// Notes that a client looks at the metrics.
    pub fn mark_observed(&mut self, now_nanos: u64)
        ensures
            final(self).session == old(self).session,
            final(self).last_observed_at_nanos == Some(now_nanos),
    {
        self.last_observed_at_nanos = Some(now_nanos);
    }

    /// Whether a client looked at the metrics in the last fifteen seconds.
    pub fn is_observed(&self, now_nanos: u64) -> (observed: bool)
        ensures
            observed == (self.last_observed_at_nanos matches Some(last) && now_nanos - last
                <= OBSERVATION_TTL_NANOS),
    {
        match self.last_observed_at_nanos {
            Some(last) => now_nanos.saturating_sub(last) <= OBSERVATION_TTL_NANOS,
            None => false,
        }
    }

    fn take_session(&mut self, lease_id: &str) -> (session: SessionMetrics)
        requires
            old(self).wf(),
        ensures
            session@ == metrics_for(session_view(old(self).session), lease_id@),
            metrics_wf(session@),
            final(self).session is None,
            final(self).last_observed_at_nanos == old(self).last_observed_at_nanos,
    {
        match self.session.take() {
            Some(session) => if same_text(session.lease_id.as_str(), lease_id) {
                session
            } else {
                SessionMetrics::new(lease_id)
            },
            None => SessionMetrics::new(lease_id),
        }
    }

    /// Whether the connection should be probed now; if so, it counts as probed.
    pub fn should_probe(&mut self, lease_id: &str, now_nanos: u64) -> (due: bool)
        requires
            old(self).wf(),
        ensures
            final(self).wf(),
            final(self).last_observed_at_nanos == old(self).last_observed_at_nanos,
            due == probe_due(metrics_for(session_view(old(self).session), lease_id@), now_nanos),
            session_view(final(self).session) == Some(
                if due {
                    SessionMetricsView {
                        last_probe_at_nanos: Some(now_nanos),
                        ..metrics_for(session_view(old(self).session), lease_id@)
                    }
                } else {
                    metrics_for(session_view(old(self).session), lease_id@)
                },
            ),
    {
        let mut current = self.take_session(lease_id);
        let interval: u64 = if current.probes.len() < INITIAL_PROBE_SAMPLES {
            INITIAL_PROBE_INTERVAL_NANOS
        } else {
            PROBE_INTERVAL_NANOS
        };
        let due = match current.last_probe_at_nanos {
            Some(last) => now_nanos.saturating_sub(last) >= interval,
            None => true,
        };
        if due {
            current.last_probe_at_nanos = Some(now_nanos);
        }
        self.session = Some(current);
        due
    }

    /// Takes in a reading of the counters and, where one was made, a probe.
    pub fn record(&mut self, lease_id: &str, sample: &TunnelMetrics, probe_result: Option<Option<u32>>)
        requires
            old(self).wf(),
        ensures
            final(self).wf(),
            final(self).last_observed_at_nanos == old(self).last_observed_at_nanos,
            session_view(final(self).session) == Some(
                metrics_after(
                    session_view(old(self).session),
                    lease_id@,
                    *sample,
                    probe_result,
                ),
            ),
    {
        let mut current = self.take_session(lease_id);
        let ghost before = current@;
        if sample.received_bytes < current.previous_received {
            current.received_offset = current.received_offset.saturating_add(
                current.previous_received,
            );
        }
        if sample.sent_bytes < current.previous_sent {
            current.sent_offset = current.sent_offset.saturating_add(current.previous_sent);
        }
        current.previous_received = sample.received_bytes;
        current.previous_sent = sample.sent_bytes;
        current.received_bytes = current.received_offset.saturating_add(sample.received_bytes);
        current.sent_bytes = current.sent_offset.saturating_add(sample.sent_bytes);
        if let Some(latency_ms) = probe_result {
            if current.probes.len() == PROBE_WINDOW {
                current.probes.pop_front();
                assert(current.probes@ =~= before.probes.drop_first());
            }
            current.probes.push_back(latency_ms);
        }
        self.session = Some(current);
    }

    /// What is to be shown of the connection with this lease.
    pub fn snapshot(&self, lease_id: &str) -> (response: Option<ConnectionMetricsResponse>)
        requires
            self.wf(),
        ensures
            response == match self.session {
                Some(session) => if session@.lease_id == lease_id@ {
                    Some(response_of(session@))
                } else {
                    None
                },
                None => None,
            },
    {
        let current = match &self.session {
            Some(session) => if same_text(session.lease_id.as_str(), lease_id) {
                session
            } else {
                return None;
            },
            None => {
                return None;
            },
        };
        let successful = sorted_latencies(&current.probes);
        let total: usize = current.probes.len();
        proof {
            lemma_answered_is_shorter(current.probes@);
        }
        let (latency_ms, packet_loss_percent): (Option<u32>, Option<u8>) = if total
            >= INITIAL_PROBE_SAMPLES && successful.len() > 0 {
            let middle: usize = successful.len() / 2;
            let latency: u32 = if successful.len() % 2 == 0 {
                ((successful[middle - 1] as u64 + successful[middle] as u64) / 2) as u32
            } else {
                successful[middle]
            };
            let lost: usize = total - successful.len();
            let percent: usize = (lost * 100 + total / 2) / total;
            assert(percent <= 100) by (nonlinear_arith)
                requires
                    3 <= total <= 12,
                    lost < total,
                    percent == ((lost * 100 + (total / 2) as int) / (total as int)),
            ;
            (Some(latency), Some(percent as u8))
        } else {
            (None, None)
        };
        Some(
            ConnectionMetricsResponse {
                received_bytes: current.received_bytes,
                sent_bytes: current.sent_bytes,
                latency_ms,
                packet_loss_percent,
            },
        )
    }

    pub fn clear(&mut self)
        ensures
            final(self).wf(),
            final(self).session is None,
            final(self).last_observed_at_nanos == old(self).last_observed_at_nanos,
    {
        self.session = None;
    }
}

/// The totals of a lease never go back, whatever the backend's counters do.
pub proof fn law_totals_never_go_back(
    session: SessionMetricsView,
    sample: TunnelMetrics,
    probe: Option<Option<u32>>,
)
    requires
        metrics_wf(session),
    ensures
        metrics_wf(metrics_after(Some(session), session.lease_id, sample, probe)),
        metrics_after(Some(session), session.lease_id, sample, probe).received.total
            >= session.received.total,
        metrics_after(Some(session), session.lease_id, sample, probe).sent.total
            >= session.sent.total,
{
}

/// A counter that was started anew adds to what was counted before it.
pub proof fn law_restarted_counter_adds_up(counter: CounterView, reading: u64)
    requires
        counter_wf(counter),
        reading < counter.previous,
        counter.total + reading <= u64::MAX,
    ensures
        counter_after(counter, reading).total == counter.total + reading,
{
}

/// The median lies between the fastest and the slowest answered probe.
pub proof fn law_median_is_between_the_extremes(latencies: Seq<u32>, low: u32, high: u32)
    requires
        latencies.len() > 0,
        forall|i: int| 0 <= i < latencies.len() ==> low <= #[trigger] latencies[i] <= high,
    ensures
        low <= median(latencies) <= high,
{
    let leq = |l: u32, r: u32| ascending(l, r);
    assert(vstd::relations::total_ordering(leq));
    latencies.lemma_sort_by_ensures(leq);
    let sorted = latencies.sort_by(leq);
    vstd::seq_lib::to_multiset_len(latencies);
    vstd::seq_lib::to_multiset_len(sorted);
    assert forall|i: int| 0 <= i < sorted.len() implies low <= #[trigger] sorted[i] <= high by {
        assert(sorted.contains(sorted[i]));
        if !latencies.contains(sorted[i]) {
            assert(!sorted.contains(sorted[i]));
        }
        let place = choose|p: int| 0 <= p < latencies.len() && latencies[p] == sorted[i];
        assert(low <= latencies[place] <= high);
    }
    let middle = (sorted.len() / 2) as int;
    assert(low <= sorted[middle] <= high);
    if sorted.len() % 2 == 0 {
        assert(low <= sorted[middle - 1] <= high);
    }
}

} // verus!
