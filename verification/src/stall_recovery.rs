//! How a desktop client gets a stalled connection going again: when it tries,
//! what it tries, and when it gives up for the time being.
use crate::connection_metrics::{LimiterView, StallRecoveryLimiter};
use crate::text::same_text;
use vstd::prelude::*;

verus! {

/// What the incident detector said of the last reading.
#[derive(Clone, Copy, Debug, PartialEq, Eq, Structural)]
pub enum TunnelMetricsObservation {
    Detected,
    Recovered,
    Unchanged,
}

/// Which path has failed.
#[derive(Clone, Copy, Debug, PartialEq, Eq, Structural)]
pub enum DesktopStallClassification {
    TunnelPathFailed,
    PhysicalPathFailed,
    RecoveredBeforeProbe,
    Ambiguous,
}

#[derive(Clone, Copy, Debug, PartialEq, Eq, Structural)]
pub enum MacosStallRecoveryResult {
    Complete,
    Retry,
    RetryAt(i64),
    DirectProbeUnavailable,
}

#[derive(Clone, Copy, Debug, PartialEq, Eq, Structural)]
pub enum MacosStallProbeAction {
    Complete,
    RetryProbe,
    Recover,
}

pub open spec fn stall_classification(tunnel_ok: bool, direct_ok: Option<bool>) -> DesktopStallClassification {
    if tunnel_ok {
        DesktopStallClassification::RecoveredBeforeProbe
    } else {
        match direct_ok {
            Some(true) => DesktopStallClassification::TunnelPathFailed,
            Some(false) => DesktopStallClassification::PhysicalPathFailed,
            None => DesktopStallClassification::Ambiguous,
        }
    }
}

/// The tunnel is recovered where only it has failed, or where that could not
/// be told twice in a row.
pub open spec fn stall_action(
    classification: DesktopStallClassification,
    allow_uncertain_recovery: bool,
) -> MacosStallProbeAction {
    match classification {
        DesktopStallClassification::RecoveredBeforeProbe => MacosStallProbeAction::Complete,
        DesktopStallClassification::TunnelPathFailed => MacosStallProbeAction::Recover,
        _ => if allow_uncertain_recovery {
            MacosStallProbeAction::Recover
        } else {
            MacosStallProbeAction::RetryProbe
        },
    }
}

pub open spec fn classification_text(classification: DesktopStallClassification) -> Seq<char> {
    match classification {
        DesktopStallClassification::TunnelPathFailed => "tunnel_path_failed_direct_ok"@,
        DesktopStallClassification::PhysicalPathFailed => "physical_path_failed"@,
        DesktopStallClassification::RecoveredBeforeProbe => "recovered_before_probe"@,
        DesktopStallClassification::Ambiguous => "ambiguous"@,
    }
}

pub fn classify_desktop_stall_probe(
    tunnel_probe_succeeded: bool,
    direct_probe_succeeded: Option<bool>,
) -> (classification: DesktopStallClassification)
    ensures
        classification == stall_classification(tunnel_probe_succeeded, direct_probe_succeeded),
{
    if tunnel_probe_succeeded {
        return DesktopStallClassification::RecoveredBeforeProbe;
    }
    match direct_probe_succeeded {
        Some(true) => DesktopStallClassification::TunnelPathFailed,
        Some(false) => DesktopStallClassification::PhysicalPathFailed,
        None => DesktopStallClassification::Ambiguous,
    }
}

pub fn classify_macos_stall_recovery(
    classification: DesktopStallClassification,
    allow_uncertain_recovery: bool,
) -> (action: MacosStallProbeAction)
    ensures
        action == stall_action(classification, allow_uncertain_recovery),
{
    match classification {
        DesktopStallClassification::RecoveredBeforeProbe => MacosStallProbeAction::Complete,
        DesktopStallClassification::TunnelPathFailed => MacosStallProbeAction::Recover,
        DesktopStallClassification::PhysicalPathFailed
        | DesktopStallClassification::Ambiguous => if allow_uncertain_recovery {
            MacosStallProbeAction::Recover
        } else {
            MacosStallProbeAction::RetryProbe
        },
    }
}

fn classification_code(classification: DesktopStallClassification) -> (code: &'static str)
    ensures
        code@ == classification_text(classification),
{
    match classification {
        DesktopStallClassification::TunnelPathFailed => "tunnel_path_failed_direct_ok",
        DesktopStallClassification::PhysicalPathFailed => "physical_path_failed",
        DesktopStallClassification::RecoveredBeforeProbe => "recovered_before_probe",
        DesktopStallClassification::Ambiguous => "ambiguous",
    }
}

/// The attempts at one stall of one lease.
pub struct MacosStallRecoveryEpisode {
    pub lease_id: String,
    pub pending: bool,
    pub retry_count: u8,
    pub direct_probe_failures: u8,
    pub next_attempt_at_unix: Option<i64>,
}

#[verifier::ext_equal]
pub struct EpisodeView {
    pub lease_id: Seq<char>,
    pub pending: bool,
    pub retry_count: u8,
    pub direct_probe_failures: u8,
    pub next_attempt_at_unix: Option<i64>,
}

impl View for MacosStallRecoveryEpisode {
    type V = EpisodeView;

    open spec fn view(&self) -> EpisodeView {
        EpisodeView {
            lease_id: self.lease_id@,
            pending: self.pending,
            retry_count: self.retry_count,
            direct_probe_failures: self.direct_probe_failures,
            next_attempt_at_unix: self.next_attempt_at_unix,
        }
    }
}

pub open spec fn no_episode(lease: Seq<char>) -> EpisodeView {
    EpisodeView {
        lease_id: lease,
        pending: false,
        retry_count: 0,
        direct_probe_failures: 0,
        next_attempt_at_unix: None,
    }
}

pub open spec fn episode_for(episode: EpisodeView, lease: Seq<char>) -> EpisodeView {
    if episode.lease_id == lease {
        episode
    } else {
        no_episode(lease)
    }
}

pub open spec fn episode_due(episode: EpisodeView, now_unix: i64) -> bool {
    episode.pending && (episode.next_attempt_at_unix matches Some(next) ==> now_unix >= next)
}

/// Whether something is to be tried after a reading.
pub open spec fn attempt_wanted(
    episode: EpisodeView,
    lease: Seq<char>,
    observation: TunnelMetricsObservation,
    now_unix: i64,
) -> bool {
    match observation {
        TunnelMetricsObservation::Detected => true,
        TunnelMetricsObservation::Recovered => false,
        TunnelMetricsObservation::Unchanged => episode_due(episode_for(episode, lease), now_unix),
    }
}

pub open spec fn episode_after_reading(
    episode: EpisodeView,
    lease: Seq<char>,
    observation: TunnelMetricsObservation,
) -> EpisodeView {
    match observation {
        TunnelMetricsObservation::Detected => EpisodeView { pending: true, ..no_episode(lease) },
        TunnelMetricsObservation::Recovered => no_episode(Seq::empty()),
        TunnelMetricsObservation::Unchanged => episode_for(episode, lease),
    }
}

pub open spec fn plus_one(count: u8) -> u8 {
    if count == u8::MAX {
        u8::MAX
    } else {
        (count + 1) as u8
    }
}

pub open spec fn retry_delay_seconds(retry_count: u8) -> i64 {
    if retry_count == 1 {
        5
    } else if retry_count == 2 {
        15
    } else {
        60
    }
}

pub open spec fn later_by(now_unix: i64, seconds: i64) -> i64 {
    if now_unix + seconds > i64::MAX {
        i64::MAX
    } else {
        (now_unix + seconds) as i64
    }
}

/// The episode after an attempt: longer and longer pauses until it succeeds.
pub open spec fn episode_after_attempt(
    episode: EpisodeView,
    result: MacosStallRecoveryResult,
    now_unix: i64,
) -> EpisodeView {
    match result {
        MacosStallRecoveryResult::Complete => no_episode(episode.lease_id),
        MacosStallRecoveryResult::RetryAt(next) => EpisodeView {
            pending: true,
            next_attempt_at_unix: Some(next),
            ..episode
        },
        _ => EpisodeView {
            pending: true,
            retry_count: plus_one(episode.retry_count),
            direct_probe_failures: if result == MacosStallRecoveryResult::DirectProbeUnavailable {
                plus_one(episode.direct_probe_failures)
            } else {
                episode.direct_probe_failures
            },
            next_attempt_at_unix: Some(
                later_by(now_unix, retry_delay_seconds(plus_one(episode.retry_count))),
            ),
            ..episode
        },
    }
}

pub fn saturating_later(now_unix: i64, seconds: i64) -> (time: i64)
    requires
        seconds >= 0,
    ensures
        time == later_by(now_unix, seconds),
{
    match now_unix.checked_add(seconds) {
        Some(time) => time,
        None => i64::MAX,
    }
}

impl MacosStallRecoveryEpisode {
    pub fn new() -> (episode: Self)
        ensures
            episode@ == no_episode(Seq::empty()),
    {
        MacosStallRecoveryEpisode {
            lease_id: String::new(),
            pending: false,
            retry_count: 0,
            direct_probe_failures: 0,
            next_attempt_at_unix: None,
        }
    }

    pub fn should_attempt(
        &mut self,
        lease_id: &str,
        observation: TunnelMetricsObservation,
        now_unix: i64,
    ) -> (attempt: bool)
        ensures
            attempt == attempt_wanted(old(self)@, lease_id@, observation, now_unix),
            final(self)@ == episode_after_reading(old(self)@, lease_id@, observation),
    {
        if !same_text(self.lease_id.as_str(), lease_id) {
            self.reset();
            self.lease_id = lease_id.to_owned();
        }
        match observation {
            TunnelMetricsObservation::Detected => {
                self.pending = true;
                self.retry_count = 0;
                self.direct_probe_failures = 0;
                self.next_attempt_at_unix = None;
                true
            },
            TunnelMetricsObservation::Recovered => {
                self.reset();
                false
            },
            TunnelMetricsObservation::Unchanged => self.pending && match self.next_attempt_at_unix {
                Some(next) => now_unix >= next,
                None => true,
            },
        }
    }

    pub fn allows_uncertain_recovery(&self) -> (allowed: bool)
        ensures
            allowed == (self@.direct_probe_failures > 0),
    {
        self.direct_probe_failures > 0
    }

    pub fn complete(&mut self, result: MacosStallRecoveryResult, now_unix: i64)
        ensures
            final(self)@ == episode_after_attempt(old(self)@, result, now_unix),
    {
        match result {
            MacosStallRecoveryResult::Complete => {
                self.pending = false;
                self.retry_count = 0;
                self.direct_probe_failures = 0;
                self.next_attempt_at_unix = None;
            },
            MacosStallRecoveryResult::Retry | MacosStallRecoveryResult::DirectProbeUnavailable => {
                self.pending = true;
                self.retry_count = self.retry_count.saturating_add(1);
                if result == MacosStallRecoveryResult::DirectProbeUnavailable {
                    self.direct_probe_failures = self.direct_probe_failures.saturating_add(1);
                }
                let delay_seconds: i64 = if self.retry_count == 1 {
                    5
                } else if self.retry_count == 2 {
                    15
                } else {
                    60
                };
                self.next_attempt_at_unix = Some(saturating_later(now_unix, delay_seconds));
            },
            MacosStallRecoveryResult::RetryAt(next_attempt_at_unix) => {
                self.pending = true;
                self.next_attempt_at_unix = Some(next_attempt_at_unix);
            },
        }
    }

    pub fn reset(&mut self)
        ensures
            final(self)@ == no_episode(Seq::empty()),
    {
        *self = MacosStallRecoveryEpisode::new();
    }
}

/// What the core did about a stalled data plane.
#[derive(Clone, Copy, Debug, PartialEq, Eq, Structural)]
pub enum StalledDataPlaneRecoveryOutcome {
    Busy,
    Skipped,
    Unsupported,
    Rebound,
    Reconnected,
}

/// What is noted in the log of the session that is being recovered.
pub struct RecoveryRecord {
    pub kind: &'static str,
    pub code: Option<String>,
}

#[verifier::ext_equal]
pub struct RecordView {
    pub kind: Seq<char>,
    pub code: Option<Seq<char>>,
}

impl View for RecoveryRecord {
    type V = RecordView;

    open spec fn view(&self) -> RecordView {
        RecordView { kind: self.kind@, code: crate::text::text_of(self.code) }
    }
}

pub open spec fn records_of(records: Seq<RecoveryRecord>) -> Seq<RecordView> {
    Seq::new(records.len(), |i: int| records[i]@)
}

pub open spec fn note(kind: Seq<char>, code: Option<Seq<char>>) -> RecordView {
    RecordView { kind, code }
}

/// Where the recovery of a stall stands: what it waits for.
#[derive(Clone, Copy, Debug, PartialEq, Eq, Structural)]
pub enum MacosRecovery {
    /// The two probes that tell which path has failed.
    Classifying { allow_uncertain_recovery: bool },
    /// Whether the connection intent takes care of it.
    AskingIntent,
    /// The socket of the tunnel being bound anew.
    Rebinding { attempt_unix: i64 },
    /// The probe after that.
    CheckingRebind { attempt_unix: i64 },
    /// The tunnel being restarted.
    Restarting { retry: bool, attempt_unix: i64 },
    /// The probe after that.
    CheckingRestart { retry: bool, attempt_unix: i64 },
}

/// What has happened.
pub enum MacosRecoveryEvent {
    Probed { tunnel_ok: bool, direct_ok: Option<bool> },
    IntentAsked { handled: bool },
    Recovered(Result<StalledDataPlaneRecoveryOutcome, String>),
    Checked { tunnel_ok: bool },
}

/// What is to be done next.
#[derive(Clone, Copy, Debug, PartialEq, Eq, Structural)]
pub enum MacosRecoveryAction {
    AskIntent,
    RebindUdp,
    /// Wait two seconds, then probe the tunnel.
    PauseAndProbe,
    RestartLocalTunnel,
    Probe,
    Finish(MacosStallRecoveryResult),
}

#[verifier::ext_equal]
pub struct RecoveryStepView {
    pub state: MacosRecovery,
    pub limiter: LimiterView,
    pub action: MacosRecoveryAction,
    pub records: Seq<RecordView>,
}

/// Whether a recovery that stands at `state` waits for such an event.
pub open spec fn expects(state: MacosRecovery, event: MacosRecoveryEvent) -> bool {
    match state {
        MacosRecovery::Classifying { .. } => event is Probed,
        MacosRecovery::AskingIntent => event is IntentAsked,
        MacosRecovery::Rebinding { .. } => event is Recovered,
        MacosRecovery::CheckingRebind { .. } => event is Checked,
        MacosRecovery::Restarting { .. } => event is Recovered,
        MacosRecovery::CheckingRestart { .. } => event is Checked,
    }
}

pub open spec fn finished(
    state: MacosRecovery,
    limiter: LimiterView,
    result: MacosStallRecoveryResult,
    records: Seq<RecordView>,
) -> RecoveryStepView {
    RecoveryStepView { state, limiter, action: MacosRecoveryAction::Finish(result), records }
}

pub open spec fn retry_when_allowed(limiter: LimiterView, lease: Seq<char>, now_unix: i64) -> MacosStallRecoveryResult {
    MacosStallRecoveryResult::RetryAt(
        match crate::connection_metrics::next_allowed(limiter, lease) {
            Some(next) => next,
            None => later_by(now_unix, 60),
        },
    )
}

/// After the probes: only a tunnel whose path has failed is recovered.
pub open spec fn step_after_probes(
    state: MacosRecovery,
    limiter: LimiterView,
    tunnel_ok: bool,
    direct_ok: Option<bool>,
    allow_uncertain_recovery: bool,
) -> RecoveryStepView {
    let classification = stall_classification(tunnel_ok, direct_ok);
    let code = Some(classification_text(classification));
    let classified = seq![note("tunnel.stall.classified"@, code)];
    match stall_action(classification, allow_uncertain_recovery) {
        MacosStallProbeAction::Complete => finished(
            state,
            limiter,
            MacosStallRecoveryResult::Complete,
            classified,
        ),
        MacosStallProbeAction::RetryProbe => finished(
            state,
            limiter,
            MacosStallRecoveryResult::DirectProbeUnavailable,
            classified,
        ),
        MacosStallProbeAction::Recover => RecoveryStepView {
            state: MacosRecovery::AskingIntent,
            limiter,
            action: MacosRecoveryAction::AskIntent,
            records: if classification == DesktopStallClassification::TunnelPathFailed {
                classified
            } else {
                classified.push(note("tunnel.stall.direct_probe_fallback"@, code))
            },
        },
    }
}

/// After the intent was asked: an attempt has to be allowed by the limiter.
pub open spec fn step_after_intent(
    state: MacosRecovery,
    limiter: LimiterView,
    lease: Seq<char>,
    handled: bool,
    now_unix: i64,
) -> RecoveryStepView {
    let counted = crate::connection_metrics::limiter_after_begin(limiter, lease, now_unix);
    if handled {
        finished(state, limiter, MacosStallRecoveryResult::Complete, Seq::empty())
    } else if !crate::connection_metrics::attempt_allowed(limiter, lease, now_unix) {
        finished(
            state,
            counted,
            retry_when_allowed(counted, lease, now_unix),
            seq![note("tunnel.stall.recovery_skipped"@, Some("rate_limited"@))],
        )
    } else {
        RecoveryStepView {
            state: MacosRecovery::Rebinding { attempt_unix: now_unix },
            limiter: counted,
            action: MacosRecoveryAction::RebindUdp,
            records: Seq::empty(),
        }
    }
}

pub open spec fn restart_first(
    limiter: LimiterView,
    attempt_unix: i64,
    records: Seq<RecordView>,
) -> RecoveryStepView {
    RecoveryStepView {
        state: MacosRecovery::Restarting { retry: false, attempt_unix },
        limiter,
        action: MacosRecoveryAction::RestartLocalTunnel,
        records,
    }
}

/// After the socket was bound anew, or could not be.
pub open spec fn step_after_rebind(
    state: MacosRecovery,
    limiter: LimiterView,
    lease: Seq<char>,
    outcome: Result<StalledDataPlaneRecoveryOutcome, String>,
    attempt_unix: i64,
) -> RecoveryStepView {
    let refunded = crate::connection_metrics::limiter_after_cancel(limiter, lease, attempt_unix);
    match outcome {
        Ok(StalledDataPlaneRecoveryOutcome::Rebound) => RecoveryStepView {
            state: MacosRecovery::CheckingRebind { attempt_unix },
            limiter,
            action: MacosRecoveryAction::PauseAndProbe,
            records: seq![note("tunnel.stall.udp_rebound"@, None)],
        },
        Ok(StalledDataPlaneRecoveryOutcome::Busy) => finished(
            state,
            refunded,
            MacosStallRecoveryResult::Retry,
            seq![note("tunnel.stall.recovery_skipped"@, Some("connection_busy"@))],
        ),
        Ok(StalledDataPlaneRecoveryOutcome::Skipped) => finished(
            state,
            refunded,
            MacosStallRecoveryResult::Complete,
            seq![note("tunnel.stall.recovery_skipped"@, Some("connection_changed"@))],
        ),
        Ok(StalledDataPlaneRecoveryOutcome::Unsupported) => restart_first(
            limiter,
            attempt_unix,
            seq![note("tunnel.stall.udp_rebind_unavailable"@, None)],
        ),
        Ok(StalledDataPlaneRecoveryOutcome::Reconnected) => finished(
            state,
            limiter,
            MacosStallRecoveryResult::Complete,
            Seq::empty(),
        ),
        Err(error) => restart_first(
            limiter,
            attempt_unix,
            seq![note("tunnel.stall.udp_rebind_failed"@, Some(error@))],
        ),
    }
}

/// After the tunnel was restarted, or could not be.
pub open spec fn step_after_restart(
    state: MacosRecovery,
    limiter: LimiterView,
    lease: Seq<char>,
    outcome: Result<StalledDataPlaneRecoveryOutcome, String>,
    retry: bool,
    attempt_unix: i64,
) -> RecoveryStepView {
    let refunded = crate::connection_metrics::limiter_after_cancel(limiter, lease, attempt_unix);
    let skipped = "tunnel.stall.local_restart_skipped"@;
    match outcome {
        Ok(StalledDataPlaneRecoveryOutcome::Reconnected) => RecoveryStepView {
            state: MacosRecovery::CheckingRestart { retry, attempt_unix },
            limiter,
            action: MacosRecoveryAction::Probe,
            records: Seq::empty(),
        },
        Ok(StalledDataPlaneRecoveryOutcome::Busy) => finished(
            state,
            refunded,
            MacosStallRecoveryResult::Retry,
            seq![note(skipped, Some("busy"@))],
        ),
        Ok(StalledDataPlaneRecoveryOutcome::Skipped) => finished(
            state,
            refunded,
            MacosStallRecoveryResult::Complete,
            seq![note(skipped, Some("connection_changed"@))],
        ),
        Ok(StalledDataPlaneRecoveryOutcome::Unsupported) => finished(
            state,
            limiter,
            MacosStallRecoveryResult::Complete,
            seq![note(skipped, Some("unsupported"@))],
        ),
        Ok(StalledDataPlaneRecoveryOutcome::Rebound) => finished(
            state,
            limiter,
            MacosStallRecoveryResult::Complete,
            seq![note(skipped, Some("unexpected_rebound"@))],
        ),
        Err(error) => finished(
            state,
            limiter,
            MacosStallRecoveryResult::Retry,
            seq![note("tunnel.stall.local_restart_failed"@, Some(error@))],
        ),
    }
}

/// After the probe of a restarted tunnel: one more restart is made where the
/// limiter allows it.
pub open spec fn step_after_restart_check(
    state: MacosRecovery,
    limiter: LimiterView,
    lease: Seq<char>,
    tunnel_ok: bool,
    retry: bool,
    now_unix: i64,
) -> RecoveryStepView {
    let counted = crate::connection_metrics::limiter_after_begin(limiter, lease, now_unix);
    let failed = note(
        "tunnel.stall.local_restart_verification_failed"@,
        Some(
            if retry {
                "retry"@
            } else {
                "first_attempt"@
            },
        ),
    );
    if tunnel_ok {
        finished(
            state,
            limiter,
            MacosStallRecoveryResult::Complete,
            seq![
                note(
                    "tunnel.stall.local_tunnel_restarted"@,
                    Some(
                        if retry {
                            "verified_retry"@
                        } else {
                            "verified_first_attempt"@
                        },
                    ),
                ),
            ],
        )
    } else if retry {
        finished(state, limiter, retry_when_allowed(limiter, lease, now_unix), seq![failed])
    } else if !crate::connection_metrics::attempt_allowed(limiter, lease, now_unix) {
        finished(
            state,
            counted,
            retry_when_allowed(counted, lease, now_unix),
            seq![failed, note("tunnel.stall.local_restart_retry_skipped"@, Some("rate_limited"@))],
        )
    } else {
        RecoveryStepView {
            state: MacosRecovery::Restarting { retry: true, attempt_unix: now_unix },
            limiter: counted,
            action: MacosRecoveryAction::RestartLocalTunnel,
            records: seq![failed],
        }
    }
}

/// One step of the recovery of a stall on `lease`.
pub open spec fn recovery_step(
    state: MacosRecovery,
    limiter: LimiterView,
    lease: Seq<char>,
    event: MacosRecoveryEvent,
    now_unix: i64,
) -> RecoveryStepView {
    match (state, event) {
        (
            MacosRecovery::Classifying { allow_uncertain_recovery },
            MacosRecoveryEvent::Probed { tunnel_ok, direct_ok },
        ) => step_after_probes(state, limiter, tunnel_ok, direct_ok, allow_uncertain_recovery),
        (MacosRecovery::AskingIntent, MacosRecoveryEvent::IntentAsked { handled }) => {
            step_after_intent(state, limiter, lease, handled, now_unix)
        },
        (MacosRecovery::Rebinding { attempt_unix }, MacosRecoveryEvent::Recovered(outcome)) => {
            step_after_rebind(state, limiter, lease, outcome, attempt_unix)
        },
        (
            MacosRecovery::CheckingRebind { attempt_unix },
            MacosRecoveryEvent::Checked { tunnel_ok },
        ) => if tunnel_ok {
            finished(
                state,
                limiter,
                MacosStallRecoveryResult::Complete,
                seq![note("tunnel.stall.recovered_after_rebind"@, None)],
            )
        } else {
            restart_first(limiter, attempt_unix, Seq::empty())
        },
        (
            MacosRecovery::Restarting { retry, attempt_unix },
            MacosRecoveryEvent::Recovered(outcome),
        ) => step_after_restart(state, limiter, lease, outcome, retry, attempt_unix),
        (
            MacosRecovery::CheckingRestart { retry, .. },
            MacosRecoveryEvent::Checked { tunnel_ok },
        ) => step_after_restart_check(state, limiter, lease, tunnel_ok, retry, now_unix),
        _ => finished(state, limiter, MacosStallRecoveryResult::Retry, Seq::empty()),
    }
}

pub(crate) fn record(kind: &'static str, code: &str) -> (record: RecoveryRecord)
    ensures
        record@ == note(kind@, Some(code@)),
{
    RecoveryRecord { kind, code: Some(code.to_owned()) }
}

pub(crate) fn bare_record(kind: &'static str) -> (record: RecoveryRecord)
    ensures
        record@ == note(kind@, None),
{
    RecoveryRecord { kind, code: None }
}

pub(crate) fn one(record: RecoveryRecord) -> (records: Vec<RecoveryRecord>)
    ensures
        records_of(records@) == seq![record@],
{
    let mut records: Vec<RecoveryRecord> = Vec::new();
    records.push(record);
    assert(records_of(records@) =~= seq![record@]);
    records
}

pub(crate) fn two(first: RecoveryRecord, second: RecoveryRecord) -> (records: Vec<RecoveryRecord>)
    ensures
        records_of(records@) == seq![first@, second@],
{
    let mut records: Vec<RecoveryRecord> = Vec::new();
    records.push(first);
    records.push(second);
    assert(records_of(records@) =~= seq![first@, second@]);
    records
}

pub(crate) fn no_records() -> (records: Vec<RecoveryRecord>)
    ensures
        records_of(records@) == Seq::<RecordView>::empty(),
{
    let records: Vec<RecoveryRecord> = Vec::new();
    assert(records_of(records@) =~= Seq::empty());
    records
}

fn retry_at(limiter: &StallRecoveryLimiter, lease_id: &str, now_unix: i64) -> (result:
    MacosStallRecoveryResult)
    ensures
        result == retry_when_allowed(limiter@, lease_id@, now_unix),
{
    MacosStallRecoveryResult::RetryAt(
        match limiter.next_attempt_at_unix(lease_id) {
            Some(next) => next,
            None => saturating_later(now_unix, 60),
        },
    )
}

impl MacosRecovery {
    /// A recovery that begins with the probes.
    pub fn begin(allow_uncertain_recovery: bool) -> (recovery: Self)
        ensures
            recovery == (MacosRecovery::Classifying { allow_uncertain_recovery }),
    {
        MacosRecovery::Classifying { allow_uncertain_recovery }
    }

    /// Takes in what has happened and says what to do next.
    pub fn step(
        &mut self,
        limiter: &mut StallRecoveryLimiter,
        lease_id: &str,
        event: MacosRecoveryEvent,
        now_unix: i64,
    ) -> (result: (MacosRecoveryAction, Vec<RecoveryRecord>))
        requires
            old(limiter).wf(),
            expects(*old(self), event),
        ensures
            final(limiter).wf(),
            ({
                let step = recovery_step(
                    *old(self),
                    old(limiter)@,
                    lease_id@,
                    event,
                    now_unix,
                );
                &&& *final(self) == step.state
                &&& final(limiter)@ == step.limiter
                &&& result.0 == step.action
                &&& records_of(result.1@) == step.records
            }),
    {
        match (*self, event) {
            (
                MacosRecovery::Classifying { allow_uncertain_recovery },
                MacosRecoveryEvent::Probed { tunnel_ok, direct_ok },
            ) => self.classify(tunnel_ok, direct_ok, allow_uncertain_recovery),
            (MacosRecovery::AskingIntent, MacosRecoveryEvent::IntentAsked { handled }) => {
                if handled {
                    return (
                        MacosRecoveryAction::Finish(MacosStallRecoveryResult::Complete),
                        no_records(),
                    );
                }
                if !limiter.begin_attempt(lease_id, now_unix) {
                    return (
                        MacosRecoveryAction::Finish(retry_at(limiter, lease_id, now_unix)),
                        one(record("tunnel.stall.recovery_skipped", "rate_limited")),
                    );
                }
                *self = MacosRecovery::Rebinding { attempt_unix: now_unix };
                (MacosRecoveryAction::RebindUdp, no_records())
            },
            (MacosRecovery::Rebinding { attempt_unix }, MacosRecoveryEvent::Recovered(outcome)) => {
                self.rebound(limiter, lease_id, outcome, attempt_unix)
            },
            (
                MacosRecovery::CheckingRebind { attempt_unix },
                MacosRecoveryEvent::Checked { tunnel_ok },
            ) => {
                if tunnel_ok {
                    return (
                        MacosRecoveryAction::Finish(MacosStallRecoveryResult::Complete),
                        one(bare_record("tunnel.stall.recovered_after_rebind")),
                    );
                }
                *self = MacosRecovery::Restarting { retry: false, attempt_unix };
                (MacosRecoveryAction::RestartLocalTunnel, no_records())
            },
            (
                MacosRecovery::Restarting { retry, attempt_unix },
                MacosRecoveryEvent::Recovered(outcome),
            ) => self.restarted(limiter, lease_id, outcome, retry, attempt_unix),
            (
                MacosRecovery::CheckingRestart { retry, .. },
                MacosRecoveryEvent::Checked { tunnel_ok },
            ) => self.restart_checked(limiter, lease_id, tunnel_ok, retry, now_unix),
            _ => (MacosRecoveryAction::Finish(MacosStallRecoveryResult::Retry), no_records()),
        }
    }

    fn classify(
        &mut self,
        tunnel_ok: bool,
        direct_ok: Option<bool>,
        allow_uncertain_recovery: bool,
    ) -> (result: (MacosRecoveryAction, Vec<RecoveryRecord>))
        ensures
            forall|limiter: LimiterView|
                {
                    let step = #[trigger] step_after_probes(
                        *old(self),
                        limiter,
                        tunnel_ok,
                        direct_ok,
                        allow_uncertain_recovery,
                    );
                    &&& *final(self) == step.state
                    &&& limiter == step.limiter
                    &&& result.0 == step.action
                    &&& records_of(result.1@) == step.records
                },
    {
        let classification = classify_desktop_stall_probe(tunnel_ok, direct_ok);
        let code = classification_code(classification);
        let classified = record("tunnel.stall.classified", code);
        match classify_macos_stall_recovery(classification, allow_uncertain_recovery) {
            MacosStallProbeAction::Complete => (
                MacosRecoveryAction::Finish(MacosStallRecoveryResult::Complete),
                one(classified),
            ),
            MacosStallProbeAction::RetryProbe => (
                MacosRecoveryAction::Finish(MacosStallRecoveryResult::DirectProbeUnavailable),
                one(classified),
            ),
            MacosStallProbeAction::Recover => {
                *self = MacosRecovery::AskingIntent;
                let fallback = classification != DesktopStallClassification::TunnelPathFailed;
                let records = if fallback {
                    let ghost first = classified@;
                    let second = record("tunnel.stall.direct_probe_fallback", code);
                    assert(seq![first].push(second@) =~= seq![first, second@]);
                    two(classified, second)
                } else {
                    one(classified)
                };
                (MacosRecoveryAction::AskIntent, records)
            },
        }
    }

    fn rebound(
        &mut self,
        limiter: &mut StallRecoveryLimiter,
        lease_id: &str,
        outcome: Result<StalledDataPlaneRecoveryOutcome, String>,
        attempt_unix: i64,
    ) -> (result: (MacosRecoveryAction, Vec<RecoveryRecord>))
        requires
            old(limiter).wf(),
        ensures
            final(limiter).wf(),
            ({
                let step = step_after_rebind(
                    *old(self),
                    old(limiter)@,
                    lease_id@,
                    outcome,
                    attempt_unix,
                );
                &&& *final(self) == step.state
                &&& final(limiter)@ == step.limiter
                &&& result.0 == step.action
                &&& records_of(result.1@) == step.records
            }),
    {
        match outcome {
            Ok(StalledDataPlaneRecoveryOutcome::Rebound) => {
                *self = MacosRecovery::CheckingRebind { attempt_unix };
                (
                    MacosRecoveryAction::PauseAndProbe,
                    one(bare_record("tunnel.stall.udp_rebound")),
                )
            },
            Ok(StalledDataPlaneRecoveryOutcome::Busy) => {
                limiter.cancel_attempt(lease_id, attempt_unix);
                (
                    MacosRecoveryAction::Finish(MacosStallRecoveryResult::Retry),
                    one(record("tunnel.stall.recovery_skipped", "connection_busy")),
                )
            },
            Ok(StalledDataPlaneRecoveryOutcome::Skipped) => {
                limiter.cancel_attempt(lease_id, attempt_unix);
                (
                    MacosRecoveryAction::Finish(MacosStallRecoveryResult::Complete),
                    one(record("tunnel.stall.recovery_skipped", "connection_changed")),
                )
            },
            Ok(StalledDataPlaneRecoveryOutcome::Unsupported) => {
                *self = MacosRecovery::Restarting { retry: false, attempt_unix };
                (
                    MacosRecoveryAction::RestartLocalTunnel,
                    one(bare_record("tunnel.stall.udp_rebind_unavailable")),
                )
            },
            Ok(StalledDataPlaneRecoveryOutcome::Reconnected) => (
                MacosRecoveryAction::Finish(MacosStallRecoveryResult::Complete),
                no_records(),
            ),
            Err(error) => {
                *self = MacosRecovery::Restarting { retry: false, attempt_unix };
                (
                    MacosRecoveryAction::RestartLocalTunnel,
                    one(record("tunnel.stall.udp_rebind_failed", error.as_str())),
                )
            },
        }
    }

    fn restarted(
        &mut self,
        limiter: &mut StallRecoveryLimiter,
        lease_id: &str,
        outcome: Result<StalledDataPlaneRecoveryOutcome, String>,
        retry: bool,
        attempt_unix: i64,
    ) -> (result: (MacosRecoveryAction, Vec<RecoveryRecord>))
        requires
            old(limiter).wf(),
        ensures
            final(limiter).wf(),
            ({
                let step = step_after_restart(
                    *old(self),
                    old(limiter)@,
                    lease_id@,
                    outcome,
                    retry,
                    attempt_unix,
                );
                &&& *final(self) == step.state
                &&& final(limiter)@ == step.limiter
                &&& result.0 == step.action
                &&& records_of(result.1@) == step.records
            }),
    {
        match outcome {
            Ok(StalledDataPlaneRecoveryOutcome::Reconnected) => {
                *self = MacosRecovery::CheckingRestart { retry, attempt_unix };
                (MacosRecoveryAction::Probe, no_records())
            },
            Ok(StalledDataPlaneRecoveryOutcome::Busy) => {
                limiter.cancel_attempt(lease_id, attempt_unix);
                (
                    MacosRecoveryAction::Finish(MacosStallRecoveryResult::Retry),
                    one(record("tunnel.stall.local_restart_skipped", "busy")),
                )
            },
            Ok(StalledDataPlaneRecoveryOutcome::Skipped) => {
                limiter.cancel_attempt(lease_id, attempt_unix);
                (
                    MacosRecoveryAction::Finish(MacosStallRecoveryResult::Complete),
                    one(record("tunnel.stall.local_restart_skipped", "connection_changed")),
                )
            },
            Ok(StalledDataPlaneRecoveryOutcome::Unsupported) => (
                MacosRecoveryAction::Finish(MacosStallRecoveryResult::Complete),
                one(record("tunnel.stall.local_restart_skipped", "unsupported")),
            ),
            Ok(StalledDataPlaneRecoveryOutcome::Rebound) => (
                MacosRecoveryAction::Finish(MacosStallRecoveryResult::Complete),
                one(record("tunnel.stall.local_restart_skipped", "unexpected_rebound")),
            ),
            Err(error) => (
                MacosRecoveryAction::Finish(MacosStallRecoveryResult::Retry),
                one(record("tunnel.stall.local_restart_failed", error.as_str())),
            ),
        }
    }

    fn restart_checked(
        &mut self,
        limiter: &mut StallRecoveryLimiter,
        lease_id: &str,
        tunnel_ok: bool,
        retry: bool,
        now_unix: i64,
    ) -> (result: (MacosRecoveryAction, Vec<RecoveryRecord>))
        requires
            old(limiter).wf(),
        ensures
            final(limiter).wf(),
            ({
                let step = step_after_restart_check(
                    *old(self),
                    old(limiter)@,
                    lease_id@,
                    tunnel_ok,
                    retry,
                    now_unix,
                );
                &&& *final(self) == step.state
                &&& final(limiter)@ == step.limiter
                &&& result.0 == step.action
                &&& records_of(result.1@) == step.records
            }),
    {
        if tunnel_ok {
            return (
                MacosRecoveryAction::Finish(MacosStallRecoveryResult::Complete),
                one(
                    record(
                        "tunnel.stall.local_tunnel_restarted",
                        if retry {
                            "verified_retry"
                        } else {
                            "verified_first_attempt"
                        },
                    ),
                ),
            );
        }
        let failed = record(
            "tunnel.stall.local_restart_verification_failed",
            if retry {
                "retry"
            } else {
                "first_attempt"
            },
        );
        if retry {
            return (
                MacosRecoveryAction::Finish(retry_at(limiter, lease_id, now_unix)),
                one(failed),
            );
        }
        if !limiter.begin_attempt(lease_id, now_unix) {
            return (
                MacosRecoveryAction::Finish(retry_at(limiter, lease_id, now_unix)),
                two(
                    failed,
                    record("tunnel.stall.local_restart_retry_skipped", "rate_limited"),
                ),
            );
        }
        *self = MacosRecovery::Restarting { retry: true, attempt_unix: now_unix };
        (MacosRecoveryAction::RestartLocalTunnel, one(failed))
    }
}

/// Nothing is done to a tunnel while the probes say that it works.
pub proof fn law_working_tunnel_is_left_alone(
    limiter: LimiterView,
    lease: Seq<char>,
    direct_ok: Option<bool>,
    allow_uncertain_recovery: bool,
    now_unix: i64,
)
    ensures
        ({
            let state = MacosRecovery::Classifying { allow_uncertain_recovery };
            let event = MacosRecoveryEvent::Probed { tunnel_ok: true, direct_ok };
            let step = recovery_step(state, limiter, lease, event, now_unix);
            &&& step.action == MacosRecoveryAction::Finish(MacosStallRecoveryResult::Complete)
            &&& step.limiter == limiter
        }),
{
}

/// Recovery of the tunnel begins only where the direct path works, or where
/// an earlier direct probe has already failed.
pub proof fn law_first_doubtful_probe_is_repeated(
    limiter: LimiterView,
    lease: Seq<char>,
    tunnel_ok: bool,
    direct_ok: Option<bool>,
    now_unix: i64,
)
    ensures
        ({
            let state = MacosRecovery::Classifying { allow_uncertain_recovery: false };
            let event = MacosRecoveryEvent::Probed { tunnel_ok, direct_ok };
            let step = recovery_step(state, limiter, lease, event, now_unix);
            step.action == MacosRecoveryAction::AskIntent <==> !tunnel_ok && direct_ok == Some(true)
        }),
{
}

/// The tunnel is touched (its socket bound anew, or the tunnel restarted once
/// more) only where the limiter allows an attempt at that time, and that
/// attempt is then counted.
pub proof fn law_every_attempt_is_counted(
    state: MacosRecovery,
    limiter: LimiterView,
    lease: Seq<char>,
    event: MacosRecoveryEvent,
    now_unix: i64,
)
    requires
        expects(state, event),
        state is AskingIntent || state is CheckingRestart,
    ensures
        ({
            let step = recovery_step(state, limiter, lease, event, now_unix);
            step.action == MacosRecoveryAction::RebindUdp || step.action
                == MacosRecoveryAction::RestartLocalTunnel ==> {
                &&& crate::connection_metrics::attempt_allowed(limiter, lease, now_unix)
                &&& step.limiter == crate::connection_metrics::limiter_after_begin(
                    limiter,
                    lease,
                    now_unix,
                )
            }
        }),
{
}

/// A tunnel is restarted at most twice in one recovery.
pub proof fn law_third_restart_is_never_tried(
    limiter: LimiterView,
    lease: Seq<char>,
    event: MacosRecoveryEvent,
    attempt_unix: i64,
    now_unix: i64,
)
    requires
        event is Checked,
    ensures
        recovery_step(
            MacosRecovery::CheckingRestart { retry: true, attempt_unix },
            limiter,
            lease,
            event,
            now_unix,
        ).action is Finish,
{
}

/// The steps that are left before a recovery is over, at most.
pub open spec fn steps_left(state: MacosRecovery) -> nat {
    match state {
        MacosRecovery::Classifying { .. } => 8,
        MacosRecovery::AskingIntent => 7,
        MacosRecovery::Rebinding { .. } => 6,
        MacosRecovery::CheckingRebind { .. } => 5,
        MacosRecovery::Restarting { retry, .. } => if retry { 2 } else { 4 },
        MacosRecovery::CheckingRestart { retry, .. } => if retry { 1 } else { 3 },
    }
}

/// Every recovery ends: each step finishes it or brings it nearer to its end.
pub proof fn law_recovery_ends(
    state: MacosRecovery,
    limiter: LimiterView,
    lease: Seq<char>,
    event: MacosRecoveryEvent,
    now_unix: i64,
)
    requires
        expects(state, event),
    ensures
        ({
            let step = recovery_step(state, limiter, lease, event, now_unix);
            step.action is Finish || steps_left(step.state) < steps_left(state)
        }),
{
}

/// A recovery that did not succeed is tried again, never before five seconds
/// have passed, and one that succeeded is over.
pub proof fn law_unfinished_recovery_is_retried(
    episode: EpisodeView,
    result: MacosStallRecoveryResult,
    now_unix: i64,
)
    requires
        now_unix <= i64::MAX - 60,
        !(result is RetryAt),
    ensures
        ({
            let after = episode_after_attempt(episode, result, now_unix);
            &&& after.pending == (result != MacosStallRecoveryResult::Complete)
            &&& after.pending ==> !episode_due(after, (now_unix + 4) as i64)
            &&& after.pending ==> episode_due(after, (now_unix + 60) as i64)
        }),
{
}

/// Traffic that comes back ends the episode: nothing is tried until the next
/// stall is detected.
pub proof fn law_recovered_traffic_ends_the_episode(
    episode: EpisodeView,
    lease: Seq<char>,
    later: Seq<char>,
    now_unix: i64,
)
    ensures
        ({
            let after = episode_after_reading(episode, lease, TunnelMetricsObservation::Recovered);
            !attempt_wanted(after, later, TunnelMetricsObservation::Unchanged, now_unix)
        }),
{
}

} // verus!
