//! The state that an intent keeps between its attempts, and how the answers of
//! the coordinator of generations change it.
use crate::commands::CommandError;
use crate::connection_intent::{
    AttemptKind, InitialDesktopPreflight, RecoveryDecision, RecoveryPolicyContext,
    StallRecoveryPlan, StartRuntimeAction, attempt_kind_for_stall_plan, attempt_reports_recovery,
    can_begin_stall_recovery, connection_matches_core_state, next_capability_refresh_requirement,
    next_reconcile_requirement, recovering_action, retry_at_after_wakeup, update_policy_context,
};
use crate::core_state::{ConnectOptions, Connection, ConnectionIntentStatus, CoreState};
use crate::errors::{ApplicationError, error_retry_after_seconds, stable_error_code};
use crate::text::same_text;
use vstd::prelude::*;

verus! {

/// What an intent keeps between its attempts.
pub struct RuntimeState {
    pub options: Option<ConnectOptions>,
    pub policy: RecoveryPolicyContext,
    pub next_retry_at_unix: Option<i64>,
    pub retry_not_before_unix: Option<i64>,
    pub reconcile_before_attempt: bool,
    pub repair_before_attempt: bool,
    pub refresh_capability_before_attempt: bool,
    pub armed: bool,
    pub attempt_kind: AttemptKind,
    pub retry_count: u32,
    pub owned_lease_id: Option<String>,
    pub initial_preflight: Option<InitialDesktopPreflight>,
}

/// What is shown of an intent.
#[derive(Clone, Copy, Debug, PartialEq, Eq, Structural)]
pub struct ConnectionIntentSnapshot {
    pub status: ConnectionIntentStatus,
    pub next_retry_at_unix: Option<i64>,
}

/// What the coordinator of generations said of a start.
pub enum StartDisposition {
    Connected(Connection),
    Recovering { generation: u64 },
}

/// How a start goes on.
pub enum StartStep {
    /// The connection is already up.
    Connected(Connection),
    /// The connection that the coordinator remembers is gone: its intent is to
    /// be cancelled, and the start repeated.
    CancelStale,
    Run(u64),
    Wait(Option<i64>),
}

/// No intent at all.
pub open spec fn no_intent() -> RuntimeState {
    RuntimeState {
        options: None,
        policy: crate::connection_intent::fresh_policy(),
        next_retry_at_unix: None,
        retry_not_before_unix: None,
        reconcile_before_attempt: false,
        repair_before_attempt: false,
        refresh_capability_before_attempt: false,
        armed: false,
        attempt_kind: AttemptKind::Start,
        retry_count: 0,
        owned_lease_id: None,
        initial_preflight: None,
    }
}

/// A new intent; what a connection that is up has left is kept.
pub open spec fn new_intent(
    state: RuntimeState,
    options: ConnectOptions,
    preflight: Option<InitialDesktopPreflight>,
) -> RuntimeState {
    RuntimeState {
        options: Some(options),
        policy: crate::connection_intent::fresh_policy(),
        next_retry_at_unix: None,
        retry_not_before_unix: None,
        reconcile_before_attempt: false,
        repair_before_attempt: false,
        retry_count: 0,
        attempt_kind: if state.armed {
            state.attempt_kind
        } else {
            AttemptKind::Start
        },
        initial_preflight: preflight,
        ..state
    }
}

/// The state without a connection of its own.
pub open spec fn disowned(state: RuntimeState) -> RuntimeState {
    RuntimeState {
        armed: false,
        owned_lease_id: None,
        attempt_kind: AttemptKind::Start,
        ..state
    }
}

/// Whether the time for the next attempt has come.
pub open spec fn retry_is_due(state: RuntimeState, status: ConnectionIntentStatus, now_unix: i64) -> bool {
    &&& status == ConnectionIntentStatus::Recovering
    &&& state.next_retry_at_unix matches Some(next)
    &&& next <= now_unix
}

pub open spec fn seconds_until(next: i64, now_unix: i64) -> u64 {
    if next <= now_unix {
        0
    } else if next - now_unix > i64::MAX {
        i64::MAX as u64
    } else {
        (next - now_unix) as u64
    }
}

pub open spec fn retry_time(now_unix: i64, delay_seconds: u64) -> i64 {
    let delay = if delay_seconds > i64::MAX {
        i64::MAX as int
    } else {
        delay_seconds as int
    };
    if now_unix + delay > i64::MAX {
        i64::MAX
    } else {
        (now_unix + delay) as i64
    }
}

fn pause_until(next: i64, now_unix: i64) -> (seconds: u64)
    ensures
        seconds == seconds_until(next, now_unix),
{
    if next <= now_unix {
        return 0;
    }
    match next.checked_sub(now_unix) {
        Some(seconds) => seconds as u64,
        None => i64::MAX as u64,
    }
}

fn time_after(now_unix: i64, delay_seconds: u64) -> (time: i64)
    ensures
        time == retry_time(now_unix, delay_seconds),
{
    let delay: i64 = if delay_seconds > i64::MAX as u64 {
        i64::MAX
    } else {
        delay_seconds as i64
    };
    match now_unix.checked_add(delay) {
        Some(time) => time,
        None => i64::MAX,
    }
}

/// The error of an intent that is no longer wanted.
pub fn cancelled_error() -> (error: CommandError)
    ensures
        error@ == crate::commands::error_text(
            "connection_intent_cancelled"@,
            "Подключение отменено"@,
        ),
{
    CommandError::new("connection_intent_cancelled", "Подключение отменено")
}

/// Whether a stall concerns the connection of an intent.
#[derive(Clone, Copy, Debug, PartialEq, Eq, Structural)]
pub enum StallOwnership {
    /// It is not the intent's to recover.
    Foreign,
    /// The intent is already at work.
    Handled,
    Owned,
}

pub open spec fn stall_ownership_of(
    state: RuntimeState,
    status: ConnectionIntentStatus,
    lease_id: Seq<char>,
) -> StallOwnership {
    if state.options is None {
        StallOwnership::Foreign
    } else if !(state.armed && status == ConnectionIntentStatus::Idle) {
        StallOwnership::Handled
    } else if crate::text::text_of(state.owned_lease_id) != Some(lease_id) {
        StallOwnership::Foreign
    } else {
        StallOwnership::Owned
    }
}

/// The state after the coordinator has taken a stall in.
pub open spec fn stall_begun(state: RuntimeState) -> RuntimeState {
    RuntimeState {
        attempt_kind: AttemptKind::StallReplacement,
        refresh_capability_before_attempt: true,
        next_retry_at_unix: None,
        retry_not_before_unix: None,
        ..state
    }
}

/// The state after a connection has come up.
pub open spec fn connected(state: RuntimeState, connection: Connection) -> RuntimeState {
    RuntimeState {
        next_retry_at_unix: None,
        retry_not_before_unix: None,
        policy: crate::connection_intent::fresh_policy(),
        refresh_capability_before_attempt: false,
        armed: true,
        attempt_kind: AttemptKind::Start,
        retry_count: 0,
        owned_lease_id: Some(connection.lease_id),
        initial_preflight: None,
        ..state
    }
}

/// The state after a failure from which there is no recovery.
pub open spec fn blocked(state: RuntimeState) -> RuntimeState {
    RuntimeState {
        next_retry_at_unix: None,
        retry_not_before_unix: None,
        options: if state.armed {
            state.options
        } else {
            None
        },
        initial_preflight: if state.armed {
            state.initial_preflight
        } else {
            None
        },
        ..state
    }
}

/// When the next attempt is made: where the panel has said how long to wait,
/// then; otherwise when the coordinator has scheduled it.
pub open spec fn next_retry(
    decision: RecoveryDecision,
    scheduled_unix: Option<i64>,
    now_unix: i64,
) -> Option<i64> {
    match decision {
        RecoveryDecision::RetryAfter(delay) => Some(retry_time(now_unix, delay)),
        _ => scheduled_unix,
    }
}

/// The state after a failure that is to be retried.
pub open spec fn retrying(
    state: RuntimeState,
    code: Seq<char>,
    decision: RecoveryDecision,
    scheduled_unix: Option<i64>,
    now_unix: i64,
) -> RuntimeState {
    let next = next_retry(decision, scheduled_unix, now_unix);
    RuntimeState {
        policy: crate::connection_intent::policy_after(state.policy, code, decision),
        reconcile_before_attempt: state.reconcile_before_attempt
            || crate::connection_intent::reconciles(decision),
        repair_before_attempt: decision == RecoveryDecision::RetryOnce || decision
            == RecoveryDecision::RestartLocalTunnel,
        next_retry_at_unix: next,
        retry_not_before_unix: if decision is RetryAfter {
            next
        } else {
            None
        },
        retry_count: if state.retry_count == u32::MAX {
            u32::MAX
        } else {
            (state.retry_count + 1) as u32
        },
        ..state
    }
}

/// What is reported of a failure that is retried.
#[derive(Clone, Copy, Debug, PartialEq, Eq, Structural)]
pub struct ScheduledRetry {
    pub attempt: u32,
    pub delay_seconds: u64,
    pub next_retry_at_unix: Option<i64>,
}

impl RuntimeState {
    pub fn new() -> (state: Self)
        ensures
            state == no_intent(),
    {
        RuntimeState {
            options: None,
            policy: RecoveryPolicyContext::new(),
            next_retry_at_unix: None,
            retry_not_before_unix: None,
            reconcile_before_attempt: false,
            repair_before_attempt: false,
            refresh_capability_before_attempt: false,
            armed: false,
            attempt_kind: AttemptKind::Start,
            retry_count: 0,
            owned_lease_id: None,
            initial_preflight: None,
        }
    }

    pub fn snapshot(&self, status: ConnectionIntentStatus) -> (snapshot: ConnectionIntentSnapshot)
        ensures
            snapshot == (ConnectionIntentSnapshot {
                status,
                next_retry_at_unix: self.next_retry_at_unix,
            }),
    {
        ConnectionIntentSnapshot { status, next_retry_at_unix: self.next_retry_at_unix }
    }

    fn initialize_episode(
        &mut self,
        options: ConnectOptions,
        preflight: Option<InitialDesktopPreflight>,
    )
        ensures
            *final(self) == new_intent(*old(self), options, preflight),
    {
        self.options = Some(options);
        self.policy = RecoveryPolicyContext::new();
        self.next_retry_at_unix = None;
        self.retry_not_before_unix = None;
        self.reconcile_before_attempt = false;
        self.repair_before_attempt = false;
        self.retry_count = 0;
        if !self.armed {
            self.attempt_kind = AttemptKind::Start;
        }
        self.initial_preflight = preflight;
    }

    /// A start was asked for and the coordinator has answered. `options` are
    /// those of the start, made to fit its layer.
    pub fn start_or_resume(
        &mut self,
        core_state: &CoreState,
        disposition: StartDisposition,
        previous_generation: u64,
        options: ConnectOptions,
        preflight: Option<InitialDesktopPreflight>,
    ) -> (step: StartStep)
        ensures
            match disposition {
                StartDisposition::Connected(connection) => {
                    &&& step == (if crate::connection_intent::matches_core(
                        *core_state,
                        connection,
                    ) {
                        StartStep::Connected(connection)
                    } else {
                        StartStep::CancelStale
                    })
                    &&& *final(self) == *old(self)
                },
                StartDisposition::Recovering { generation } => if generation
                    == previous_generation {
                    &&& step == StartStep::Wait(old(self).next_retry_at_unix)
                    &&& *final(self) == *old(self)
                } else {
                    &&& step == StartStep::Run(generation)
                    &&& *final(self) == new_intent(*old(self), options, preflight)
                },
            },
    {
        match disposition {
            StartDisposition::Connected(connection) => {
                if connection_matches_core_state(core_state, &connection) {
                    StartStep::Connected(connection)
                } else {
                    StartStep::CancelStale
                }
            },
            StartDisposition::Recovering { generation } => {
                match recovering_action(previous_generation, generation, self.next_retry_at_unix) {
                    StartRuntimeAction::Run(generation) => {
                        self.initialize_episode(options, preflight);
                        StartStep::Run(generation)
                    },
                    StartRuntimeAction::Wait(next) => StartStep::Wait(next),
                }
            },
        }
    }

    /// The coordinator was asked to cancel the intent of a connection that is
    /// gone.
    pub fn stale_intent_cancelled(&mut self, cancelled: bool) -> (result: Result<(), CommandError>)
        ensures
            result is Ok == cancelled,
            result matches Err(error) ==> error@ == crate::commands::error_text(
                "connection_busy"@,
                "Предыдущее подключение ещё завершается"@,
            ),
            *final(self) == (if cancelled {
                disowned(*old(self))
            } else {
                *old(self)
            }),
    {
        if !cancelled {
            return Err(
                CommandError::new("connection_busy", "Предыдущее подключение ещё завершается"),
            );
        }
        self.armed = false;
        self.owned_lease_id = None;
        self.attempt_kind = AttemptKind::Start;
        Ok(())
    }

    /// The start was repeated after that.
    pub fn start_after_cancel(
        &mut self,
        disposition: StartDisposition,
        options: ConnectOptions,
        preflight: Option<InitialDesktopPreflight>,
    ) -> (result: Result<u64, CommandError>)
        ensures
            match disposition {
                StartDisposition::Recovering { generation } => {
                    &&& result == Ok::<u64, CommandError>(generation)
                    &&& *final(self) == new_intent(*old(self), options, preflight)
                },
                StartDisposition::Connected(_) => {
                    &&& result matches Err(error)
                    &&& error@ == crate::commands::error_text(
                        "connection_busy"@,
                        "Не удалось начать новое подключение"@,
                    )
                    &&& *final(self) == *old(self)
                },
            },
    {
        match disposition {
            StartDisposition::Recovering { generation } => {
                self.initialize_episode(options, preflight);
                Ok(generation)
            },
            StartDisposition::Connected(_) => Err(
                CommandError::new("connection_busy", "Не удалось начать новое подключение"),
            ),
        }
    }

    /// The coordinator was asked to cancel the intent; what was kept for it is
    /// dropped where it did.
    pub fn cancel(&mut self, cancelled: bool)
        ensures
            *final(self) == (if cancelled {
                no_intent()
            } else {
                *old(self)
            }),
    {
        if cancelled {
            *self = RuntimeState::new();
        }
    }

    /// The network has changed while an attempt was waited for.
    pub fn network_wakeup(&mut self, now_unix: i64)
        ensures
            *final(self) == (RuntimeState {
                next_retry_at_unix: Some(
                    crate::connection_intent::wakeup_time(
                        old(self).retry_not_before_unix,
                        now_unix,
                    ),
                ),
                ..*old(self)
            }),
    {
        self.next_retry_at_unix = Some(retry_at_after_wakeup(self.retry_not_before_unix, now_unix));
    }

    /// How long to sleep before the next attempt; none where nothing is
    /// scheduled.
    pub fn retry_pause_seconds(&self, status: ConnectionIntentStatus, now_unix: i64) -> (pause:
        Option<u64>)
        ensures
            pause == (match self.next_retry_at_unix {
                Some(next) => if status == ConnectionIntentStatus::Recovering {
                    Some(seconds_until(next, now_unix))
                } else {
                    None
                },
                None => None,
            }),
    {
        match self.next_retry_at_unix {
            Some(next) => if status == ConnectionIntentStatus::Recovering {
                Some(pause_until(next, now_unix))
            } else {
                None
            },
            None => None,
        }
    }

    /// Whether to make the next attempt now.
    pub fn retry_due(&self, status: ConnectionIntentStatus, now_unix: i64) -> (due: bool)
        ensures
            due == retry_is_due(*self, status, now_unix),
    {
        status == ConnectionIntentStatus::Recovering && match self.next_retry_at_unix {
            Some(next) => next <= now_unix,
            None => false,
        }
    }

    pub fn stall_ownership(&self, status: ConnectionIntentStatus, lease_id: &str) -> (ownership:
        StallOwnership)
        ensures
            ownership == stall_ownership_of(*self, status, lease_id@),
    {
        if self.options.is_none() {
            return StallOwnership::Foreign;
        }
        if !can_begin_stall_recovery(status, self.armed) {
            return StallOwnership::Handled;
        }
        match &self.owned_lease_id {
            Some(owned) => if same_text(owned.as_str(), lease_id) {
                StallOwnership::Owned
            } else {
                StallOwnership::Foreign
            },
            None => StallOwnership::Foreign,
        }
    }

    /// The coordinator has taken the stall of the intent's connection in.
    pub fn handle_stall(&mut self, plan: StallRecoveryPlan)
        ensures
            *final(self) == stall_begun(*old(self)),
    {
        self.attempt_kind = attempt_kind_for_stall_plan(plan);
        self.refresh_capability_before_attempt = true;
        self.next_retry_at_unix = None;
        self.retry_not_before_unix = None;
    }

    /// An attempt has brought a connection up. `accepted` is whether the
    /// coordinator still wants it. Returns whether that is a recovery.
    pub fn complete_success(&mut self, accepted: bool, connection: &Connection) -> (recovered: bool)
        ensures
            recovered == (old(self).retry_count > 0 || old(self).attempt_kind
                != AttemptKind::Start),
            *final(self) == (if accepted {
                connected(*old(self), *connection)
            } else {
                *old(self)
            }),
    {
        let recovered = attempt_reports_recovery(self.attempt_kind, self.retry_count);
        if accepted {
            self.next_retry_at_unix = None;
            self.retry_not_before_unix = None;
            self.policy = RecoveryPolicyContext::new();
            self.refresh_capability_before_attempt = false;
            self.armed = true;
            self.attempt_kind = AttemptKind::Start;
            self.retry_count = 0;
            self.owned_lease_id = Some(connection.lease_id.clone());
            self.initial_preflight = None;
        }
        recovered
    }

    /// An attempt has failed. Returns the code that is to be classified with
    /// the policy of the state.
    pub fn attempt_failed(&mut self, error: &ApplicationError) -> (code: String)
        ensures
            code@ == crate::errors::application_code(*error, "transport_error"@),
            *final(self) == (RuntimeState {
                policy: RecoveryPolicyContext {
                    retry_after_seconds: crate::errors::retry_after(*error),
                    ..old(self).policy
                },
                ..*old(self)
            }),
    {
        self.policy.retry_after_seconds = error_retry_after_seconds(error);
        stable_error_code(error)
    }

    /// The failure was classified. Returns whether it is a terminal one, of
    /// which the coordinator is told first.
    pub fn failure_classified(&mut self, decision: RecoveryDecision) -> (terminal: bool)
        ensures
            terminal == (decision == RecoveryDecision::Terminal),
            *final(self) == (RuntimeState {
                refresh_capability_before_attempt: old(self).refresh_capability_before_attempt
                    || decision == RecoveryDecision::RetryNewOperation,
                ..*old(self)
            }),
    {
        self.refresh_capability_before_attempt =
        next_capability_refresh_requirement(self.refresh_capability_before_attempt, decision);
        decision == RecoveryDecision::Terminal
    }

    /// The coordinator was told of a terminal failure; `marked` is whether the
    /// intent was still wanted. Where it was not, the attempt was cancelled.
    pub fn complete_terminal(&mut self, marked: bool) -> (result: Result<(), CommandError>)
        ensures
            result is Ok == marked,
            result matches Err(error) ==> error@ == crate::commands::error_text(
                "connection_intent_cancelled"@,
                "Подключение отменено"@,
            ),
            *final(self) == (if marked {
                blocked(*old(self))
            } else {
                *old(self)
            }),
    {
        if !marked {
            return Err(cancelled_error());
        }
        self.next_retry_at_unix = None;
        self.retry_not_before_unix = None;
        if !self.armed {
            self.options = None;
            self.initial_preflight = None;
        }
        Ok(())
    }

    /// The coordinator was asked about a failure that can be retried;
    /// `wanted` is whether the intent still is, `scheduled_unix` the time that
    /// it has scheduled (which counts unless the panel named one).
    pub fn complete_retryable(
        &mut self,
        code: &str,
        decision: RecoveryDecision,
        wanted: bool,
        scheduled_unix: Option<i64>,
        now_unix: i64,
    ) -> (result: Result<ScheduledRetry, CommandError>)
        ensures
            result is Ok == wanted,
            result matches Err(error) ==> error@ == crate::commands::error_text(
                "connection_intent_cancelled"@,
                "Подключение отменено"@,
            ),
            result matches Ok(retry) ==> retry == (ScheduledRetry {
                attempt: final(self).retry_count,
                delay_seconds: match next_retry(decision, scheduled_unix, now_unix) {
                    Some(next) => seconds_until(next, now_unix),
                    None => 0,
                },
                next_retry_at_unix: next_retry(decision, scheduled_unix, now_unix),
            }),
            *final(self) == (if wanted {
                retrying(*old(self), code@, decision, scheduled_unix, now_unix)
            } else {
                *old(self)
            }),
    {
        if !wanted {
            return Err(cancelled_error());
        }
        update_policy_context(&mut self.policy, code, decision);
        self.reconcile_before_attempt =
        next_reconcile_requirement(self.reconcile_before_attempt, decision);
        self.repair_before_attempt = decision == RecoveryDecision::RetryOnce || decision
            == RecoveryDecision::RestartLocalTunnel;
        let (next, server_deadline) = match decision {
            RecoveryDecision::RetryAfter(delay) => (Some(time_after(now_unix, delay)), true),
            _ => (scheduled_unix, false),
        };
        self.next_retry_at_unix = next;
        self.retry_not_before_unix =
        if server_deadline {
            next
        } else {
            None
        };
        self.retry_count = self.retry_count.saturating_add(1);
        let delay_seconds: u64 = match next {
            Some(next) => pause_until(next, now_unix),
            None => 0,
        };
        Ok(
            ScheduledRetry {
                attempt: self.retry_count,
                delay_seconds,
                next_retry_at_unix: next,
            },
        )
    }
}

} // verus!
