//! What is done when the Windows service that runs the tunnel does not answer.
use crate::connection_metrics::{LimiterView, StallRecoveryLimiter};
use crate::errors::TunnelError;
use crate::stall_recovery::{
    RecordView, RecoveryRecord, StalledDataPlaneRecoveryOutcome, bare_record, no_records, one,
    record, saturating_later,
};
use crate::text::same_text;
use crate::tunnel::TunnelStatus;
use vstd::prelude::*;

verus! {

#[derive(Clone, Copy, Debug, PartialEq, Eq, Structural)]
pub enum WindowsServiceRecoveryDecision {
    Wait,
    NoAction,
    RestartLocalTunnel,
}

pub open spec fn is_outage(error: TunnelError) -> bool {
    match error {
        TunnelError::Backend(code) => code@ == "service_unavailable"@ || code@
            == "service_timeout"@,
        TunnelError::InvalidOptions { .. } => false,
    }
}

pub open spec fn is_route_failure(error: TunnelError) -> bool {
    match error {
        TunnelError::Backend(code) => code@ == "endpoint_route_lost"@ || code@
            == "endpoint_route_unavailable"@,
        TunnelError::InvalidOptions { .. } => false,
    }
}

pub open spec fn decision_for(status: Option<TunnelStatus>) -> WindowsServiceRecoveryDecision {
    match status {
        Some(TunnelStatus::Stopped) => WindowsServiceRecoveryDecision::RestartLocalTunnel,
        Some(TunnelStatus::Failed) => WindowsServiceRecoveryDecision::RestartLocalTunnel,
        Some(TunnelStatus::Running) => WindowsServiceRecoveryDecision::NoAction,
        _ => WindowsServiceRecoveryDecision::Wait,
    }
}

/// Whether the service manager itself does not answer.
pub fn is_windows_service_outage(error: &TunnelError) -> (outage: bool)
    ensures
        outage == is_outage(*error),
{
    match error {
        TunnelError::Backend(code) => same_text(code.as_str(), "service_unavailable")
            || same_text(code.as_str(), "service_timeout"),
        TunnelError::InvalidOptions { .. } => false,
    }
}

pub fn should_attempt_windows_service_recovery(error: &TunnelError, episode_active: bool) -> (attempt:
    bool)
    ensures
        attempt == (is_outage(*error) || is_route_failure(*error) || episode_active),
{
    if is_windows_service_outage(error) || episode_active {
        return true;
    }
    match error {
        TunnelError::Backend(code) => same_text(code.as_str(), "endpoint_route_lost")
            || same_text(code.as_str(), "endpoint_route_unavailable"),
        TunnelError::InvalidOptions { .. } => false,
    }
}

/// The tunnel is restarted only from a state in which it stays by itself.
pub fn classify_windows_service_recovery(status: Option<TunnelStatus>) -> (decision:
    WindowsServiceRecoveryDecision)
    ensures
        decision == decision_for(status),
{
    match status {
        Some(TunnelStatus::Stopped) | Some(TunnelStatus::Failed) => {
            WindowsServiceRecoveryDecision::RestartLocalTunnel
        },
        Some(TunnelStatus::Running) => WindowsServiceRecoveryDecision::NoAction,
        Some(TunnelStatus::Starting) | Some(TunnelStatus::Stopping) | None => {
            WindowsServiceRecoveryDecision::Wait
        },
    }
}

/// What follows from the outcome of a restart.
#[derive(Clone, Copy, Debug)]
pub struct WindowsLocalRestartOutcomeDecision {
    pub code: &'static str,
    pub refund_attempt: bool,
    pub retry_immediately: bool,
}

pub open spec fn outcome_text(outcome: StalledDataPlaneRecoveryOutcome) -> Seq<char> {
    match outcome {
        StalledDataPlaneRecoveryOutcome::Busy => "busy"@,
        StalledDataPlaneRecoveryOutcome::Skipped => "connection_changed"@,
        StalledDataPlaneRecoveryOutcome::Unsupported => "unsupported"@,
        StalledDataPlaneRecoveryOutcome::Rebound => "unexpected_rebound"@,
        StalledDataPlaneRecoveryOutcome::Reconnected => "reconnected"@,
    }
}

/// An attempt that never reached the tunnel is given back.
pub open spec fn outcome_refunds(outcome: StalledDataPlaneRecoveryOutcome) -> bool {
    outcome == StalledDataPlaneRecoveryOutcome::Busy || outcome
        == StalledDataPlaneRecoveryOutcome::Skipped
}

pub fn classify_windows_local_restart_outcome(outcome: StalledDataPlaneRecoveryOutcome) -> (decision:
    WindowsLocalRestartOutcomeDecision)
    ensures
        decision.code@ == outcome_text(outcome),
        decision.refund_attempt == outcome_refunds(outcome),
        !decision.retry_immediately,
{
    match outcome {
        StalledDataPlaneRecoveryOutcome::Busy => WindowsLocalRestartOutcomeDecision {
            code: "busy",
            refund_attempt: true,
            retry_immediately: false,
        },
        StalledDataPlaneRecoveryOutcome::Skipped => WindowsLocalRestartOutcomeDecision {
            code: "connection_changed",
            refund_attempt: true,
            retry_immediately: false,
        },
        StalledDataPlaneRecoveryOutcome::Unsupported => WindowsLocalRestartOutcomeDecision {
            code: "unsupported",
            refund_attempt: false,
            retry_immediately: false,
        },
        StalledDataPlaneRecoveryOutcome::Rebound => WindowsLocalRestartOutcomeDecision {
            code: "unexpected_rebound",
            refund_attempt: false,
            retry_immediately: false,
        },
        StalledDataPlaneRecoveryOutcome::Reconnected => WindowsLocalRestartOutcomeDecision {
            code: "reconnected",
            refund_attempt: false,
            retry_immediately: false,
        },
    }
}

/// The state of one outage: whether it is waited for, and when it is looked
/// at again.
#[derive(Clone, Copy, Debug, PartialEq, Eq, Structural)]
pub struct WindowsServiceRecoveryEpisode {
    pub pending: bool,
    pub next_poll_at_unix: Option<i64>,
}

pub open spec fn no_outage() -> WindowsServiceRecoveryEpisode {
    WindowsServiceRecoveryEpisode { pending: false, next_poll_at_unix: None }
}

pub open spec fn poll_due(
    episode: WindowsServiceRecoveryEpisode,
    service_outage: bool,
    now_unix: i64,
) -> bool {
    service_outage && (episode.pending || (episode.next_poll_at_unix matches Some(next)
        ==> now_unix >= next))
}

pub open spec fn outage_after_poll(pending: bool, now_unix: i64) -> WindowsServiceRecoveryEpisode {
    WindowsServiceRecoveryEpisode {
        pending,
        next_poll_at_unix: if pending {
            None
        } else {
            Some(crate::stall_recovery::later_by(now_unix, 10))
        },
    }
}

impl WindowsServiceRecoveryEpisode {
    pub fn new() -> (episode: Self)
        ensures
            episode == no_outage(),
    {
        WindowsServiceRecoveryEpisode { pending: false, next_poll_at_unix: None }
    }

    pub fn is_active(&self) -> (active: bool)
        ensures
            active == (*self != no_outage()),
    {
        self.pending || self.next_poll_at_unix.is_some()
    }

    pub fn should_poll(&self, service_outage: bool, now_unix: i64) -> (poll: bool)
        ensures
            poll == poll_due(*self, service_outage, now_unix),
    {
        service_outage && (self.pending || match self.next_poll_at_unix {
            Some(next) => now_unix >= next,
            None => true,
        })
    }

    pub fn first_outage(&self) -> (first: bool)
        ensures
            first == (*self == no_outage()),
    {
        !self.pending && self.next_poll_at_unix.is_none()
    }

    pub fn complete(&mut self, pending: bool, now_unix: i64)
        ensures
            *final(self) == outage_after_poll(pending, now_unix),
    {
        self.pending = pending;
        self.next_poll_at_unix =
        if pending {
            None
        } else {
            Some(saturating_later(now_unix, 10))
        };
    }

    pub fn reset(&mut self)
        ensures
            *final(self) == no_outage(),
    {
        *self = WindowsServiceRecoveryEpisode::new();
    }
}

/// Where the recovery from an outage stands: what it waits for.
#[derive(Clone, Copy, Debug, PartialEq, Eq, Structural)]
pub enum WindowsServiceRecovery {
    CheckingStatus { first_failure: bool },
    Restarting { attempt_unix: i64 },
}

/// What has happened; a failure brings its text.
pub enum WindowsServiceEvent {
    Status(Result<TunnelStatus, String>),
    Restarted(Result<StalledDataPlaneRecoveryOutcome, String>),
}

#[derive(Clone, Copy, Debug, PartialEq, Eq, Structural)]
pub enum WindowsServiceAction {
    RestartLocalTunnel,
    /// The recovery is over; `pending` where the outage is to be watched.
    Finish { pending: bool },
}

#[verifier::ext_equal]
pub struct ServiceStepView {
    pub state: WindowsServiceRecovery,
    pub limiter: LimiterView,
    pub action: WindowsServiceAction,
    pub records: Seq<RecordView>,
}

pub open spec fn service_expects(state: WindowsServiceRecovery, event: WindowsServiceEvent) -> bool {
    match state {
        WindowsServiceRecovery::CheckingStatus { .. } => event is Status,
        WindowsServiceRecovery::Restarting { .. } => event is Restarted,
    }
}

pub open spec fn step_after_status(
    state: WindowsServiceRecovery,
    limiter: LimiterView,
    lease: Seq<char>,
    status: Result<TunnelStatus, String>,
    first_failure: bool,
    now_unix: i64,
) -> ServiceStepView {
    let counted = crate::connection_metrics::limiter_after_begin(limiter, lease, now_unix);
    let known = match status {
        Ok(known) => Some(known),
        Err(_) => None,
    };
    match decision_for(known) {
        WindowsServiceRecoveryDecision::Wait => ServiceStepView {
            state,
            limiter,
            action: WindowsServiceAction::Finish { pending: true },
            records: match status {
                Err(error) => if first_failure {
                    seq![
                        crate::stall_recovery::note(
                            "windows.service.recovery_waiting"@,
                            Some(error@),
                        ),
                    ]
                } else {
                    Seq::empty()
                },
                Ok(_) => Seq::empty(),
            },
        },
        WindowsServiceRecoveryDecision::NoAction => ServiceStepView {
            state,
            limiter,
            action: WindowsServiceAction::Finish { pending: false },
            records: if first_failure {
                seq![
                    crate::stall_recovery::note(
                        "windows.service.status_running_after_metrics_failure"@,
                        None,
                    ),
                ]
            } else {
                Seq::empty()
            },
        },
        WindowsServiceRecoveryDecision::RestartLocalTunnel => if crate::connection_metrics::attempt_allowed(
        limiter, lease, now_unix) {
            ServiceStepView {
                state: WindowsServiceRecovery::Restarting { attempt_unix: now_unix },
                limiter: counted,
                action: WindowsServiceAction::RestartLocalTunnel,
                records: Seq::empty(),
            }
        } else {
            ServiceStepView {
                state,
                limiter: counted,
                action: WindowsServiceAction::Finish { pending: false },
                records: seq![
                    crate::stall_recovery::note(
                        "windows.service.local_restart_skipped"@,
                        Some("rate_limited"@),
                    ),
                ],
            }
        },
    }
}

pub open spec fn step_after_service_restart(
    state: WindowsServiceRecovery,
    limiter: LimiterView,
    lease: Seq<char>,
    outcome: Result<StalledDataPlaneRecoveryOutcome, String>,
    attempt_unix: i64,
) -> ServiceStepView {
    match outcome {
        Ok(StalledDataPlaneRecoveryOutcome::Reconnected) => ServiceStepView {
            state,
            limiter,
            action: WindowsServiceAction::Finish { pending: false },
            records: seq![
                crate::stall_recovery::note("windows.service.local_tunnel_restarted"@, None),
            ],
        },
        Ok(other) => ServiceStepView {
            state,
            limiter: if outcome_refunds(other) {
                crate::connection_metrics::limiter_after_cancel(limiter, lease, attempt_unix)
            } else {
                limiter
            },
            action: WindowsServiceAction::Finish { pending: false },
            records: seq![
                crate::stall_recovery::note(
                    "windows.service.local_restart_skipped"@,
                    Some(outcome_text(other)),
                ),
            ],
        },
        Err(error) => ServiceStepView {
            state,
            limiter,
            action: WindowsServiceAction::Finish { pending: true },
            records: seq![
                crate::stall_recovery::note(
                    "windows.service.local_restart_failed"@,
                    Some(error@),
                ),
            ],
        },
    }
}

/// One step of the recovery from an outage during `lease`.
pub open spec fn service_step(
    state: WindowsServiceRecovery,
    limiter: LimiterView,
    lease: Seq<char>,
    event: WindowsServiceEvent,
    now_unix: i64,
) -> ServiceStepView {
    match (state, event) {
        (
            WindowsServiceRecovery::CheckingStatus { first_failure },
            WindowsServiceEvent::Status(status),
        ) => step_after_status(state, limiter, lease, status, first_failure, now_unix),
        (
            WindowsServiceRecovery::Restarting { attempt_unix },
            WindowsServiceEvent::Restarted(outcome),
        ) => step_after_service_restart(state, limiter, lease, outcome, attempt_unix),
        _ => ServiceStepView {
            state,
            limiter,
            action: WindowsServiceAction::Finish { pending: true },
            records: Seq::empty(),
        },
    }
}

impl WindowsServiceRecovery {
    /// A recovery that begins by asking for the status of the tunnel.
    pub fn begin(first_failure: bool) -> (recovery: Self)
        ensures
            recovery == (WindowsServiceRecovery::CheckingStatus { first_failure }),
    {
        WindowsServiceRecovery::CheckingStatus { first_failure }
    }

    /// Takes in what has happened and says what to do next.
    pub fn step(
        &mut self,
        limiter: &mut StallRecoveryLimiter,
        lease_id: &str,
        event: WindowsServiceEvent,
        now_unix: i64,
    ) -> (result: (WindowsServiceAction, Vec<RecoveryRecord>))
        requires
            old(limiter).wf(),
            service_expects(*old(self), event),
        ensures
            final(limiter).wf(),
            ({
                let step = service_step(*old(self), old(limiter)@, lease_id@, event, now_unix);
                &&& *final(self) == step.state
                &&& final(limiter)@ == step.limiter
                &&& result.0 == step.action
                &&& crate::stall_recovery::records_of(result.1@) == step.records
            }),
    {
        match (*self, event) {
            (
                WindowsServiceRecovery::CheckingStatus { first_failure },
                WindowsServiceEvent::Status(status),
            ) => {
                let (known, records) = match status {
                    Ok(known) => (Some(known), no_records()),
                    Err(error) => (
                        None,
                        if first_failure {
                            one(record("windows.service.recovery_waiting", error.as_str()))
                        } else {
                            no_records()
                        },
                    ),
                };
                match classify_windows_service_recovery(known) {
                    WindowsServiceRecoveryDecision::Wait => (
                        WindowsServiceAction::Finish { pending: true },
                        records,
                    ),
                    WindowsServiceRecoveryDecision::NoAction => (
                        WindowsServiceAction::Finish { pending: false },
                        if first_failure {
                            one(
                                bare_record("windows.service.status_running_after_metrics_failure"),
                            )
                        } else {
                            no_records()
                        },
                    ),
                    WindowsServiceRecoveryDecision::RestartLocalTunnel => {
                        if !limiter.begin_attempt(lease_id, now_unix) {
                            return (
                                WindowsServiceAction::Finish { pending: false },
                                one(
                                    record("windows.service.local_restart_skipped", "rate_limited"),
                                ),
                            );
                        }
                        *self = WindowsServiceRecovery::Restarting { attempt_unix: now_unix };
                        (WindowsServiceAction::RestartLocalTunnel, no_records())
                    },
                }
            },
            (
                WindowsServiceRecovery::Restarting { attempt_unix },
                WindowsServiceEvent::Restarted(outcome),
            ) => match outcome {
                Ok(StalledDataPlaneRecoveryOutcome::Reconnected) => (
                    WindowsServiceAction::Finish { pending: false },
                    one(bare_record("windows.service.local_tunnel_restarted")),
                ),
                Ok(other) => {
                    let decision = classify_windows_local_restart_outcome(other);
                    if decision.refund_attempt {
                        limiter.cancel_attempt(lease_id, attempt_unix);
                    }
                    (
                        WindowsServiceAction::Finish { pending: decision.retry_immediately },
                        one(record("windows.service.local_restart_skipped", decision.code)),
                    )
                },
                Err(error) => (
                    WindowsServiceAction::Finish { pending: true },
                    one(record("windows.service.local_restart_failed", error.as_str())),
                ),
            },
            _ => (WindowsServiceAction::Finish { pending: true }, no_records()),
        }
    }
}

/// A tunnel that may still come up by itself is never restarted.
pub proof fn law_only_a_stopped_tunnel_is_restarted(
    limiter: LimiterView,
    lease: Seq<char>,
    status: Result<TunnelStatus, String>,
    first_failure: bool,
    now_unix: i64,
)
    ensures
        ({
            let state = WindowsServiceRecovery::CheckingStatus { first_failure };
            let event = WindowsServiceEvent::Status(status);
            let step = service_step(state, limiter, lease, event, now_unix);
            step.action == WindowsServiceAction::RestartLocalTunnel <==> {
                &&& status == Ok::<TunnelStatus, String>(TunnelStatus::Stopped) || status == Ok::<
                    TunnelStatus,
                    String,
                >(TunnelStatus::Failed)
                &&& crate::connection_metrics::attempt_allowed(limiter, lease, now_unix)
            }
        }),
{
}

/// A restart that found the connection busy or changed does not count
/// against later ones.
pub proof fn law_restart_that_did_not_happen_is_not_counted(
    limiter: LimiterView,
    lease: Seq<char>,
    outcome: StalledDataPlaneRecoveryOutcome,
    now_unix: i64,
)
    requires
        crate::connection_metrics::attempt_allowed(limiter, lease, now_unix),
        outcome_refunds(outcome),
    ensures
        ({
            let begun = service_step(
                WindowsServiceRecovery::CheckingStatus { first_failure: false },
                limiter,
                lease,
                WindowsServiceEvent::Status(Ok(TunnelStatus::Stopped)),
                now_unix,
            );
            let done = service_step(
                begun.state,
                begun.limiter,
                lease,
                WindowsServiceEvent::Restarted(Ok(outcome)),
                now_unix,
            );
            done.limiter == (LimiterView {
                lease_id: lease,
                attempts: crate::connection_metrics::counting_attempts(limiter, lease, now_unix),
            })
        }),
{
    crate::connection_metrics::law_cancelled_attempt_is_not_counted(limiter, lease, now_unix);
}

} // verus!
