//! One attempt of an intent, as a machine that is told what the panel, the
//! tunnel and the coordinator of generations have answered.
use crate::commands::CommandError;
use crate::connection_intent::{
    AttemptKind, InitialDesktopPreflight, InitialDesktopPreflightAction, InitialDesktopStartMode,
    RecoveryDecision, RecoveryPolicyContext, ResolvedStart, initial_desktop_preflight_action,
};
use crate::core_state::{ConnectOptions, Connection, ConnectionIntentStatus, LeaseStatus};
use crate::errors::ApplicationError;
use crate::intent_runtime::{RuntimeState, cancelled_error};
use crate::stall_recovery::StalledDataPlaneRecoveryOutcome;
use vstd::prelude::*;

verus! {

/// Where an attempt stands: what is to be done, or asked of the coordinator,
/// and told to it next.
#[derive(Clone, Copy, Debug, PartialEq, Eq, Structural)]
pub enum AttemptStage {
    /// Ask the panel for the device and its capabilities.
    ResolvingStart,
    /// Ask whether the attempt is still current.
    ConfirmingStart { start: ResolvedStart },
    /// Give the coordinator the options that were found.
    ReplacingOptions { mode: InitialDesktopStartMode, options: ConnectOptions },
    /// Take the steps before the first attempt.
    Preflight { mode: InitialDesktopStartMode },
    /// Ask whether the attempt is still current.
    ConfirmingPreflight,
    /// Ask the coordinator to give the intent up for a single start.
    AbandoningIntent,
    /// Make that single start.
    StartingLegacy { skip_probe_refresh: bool },
    /// Ask the panel whether a new operation is allowed.
    RefreshingCapability,
    /// Ask whether the attempt is still current.
    ConfirmingCapability,
    /// Settle an operation whose outcome is not known.
    Reconciling,
    /// Ask whether the attempt is still current.
    ConfirmingReconcile,
    /// Repair the tunnel service.
    Repairing,
    /// Start a connection, or replace the stalled one.
    Connecting,
}

/// What the attempt was told.
pub enum AttemptEvent {
    StartResolved(Result<ResolvedStart, ApplicationError>),
    Current(bool),
    OptionsReplaced(bool),
    PreflightDone(Result<(), ApplicationError>),
    IntentAbandoned(bool),
    LegacyStarted(Result<Connection, ApplicationError>),
    CapabilityRefreshed(Result<(), ApplicationError>),
    Reconciled(Result<(), ApplicationError>),
    Repaired,
    /// Also the status of the lease that the core has after a failure.
    Connected(Result<Connection, ApplicationError>, Option<LeaseStatus>),
}

/// How the attempt goes on.
pub enum AttemptOutcome {
    /// As its stage says.
    Continue,
    /// It has failed: the failure is to be classified.
    Fail(ApplicationError),
    /// It has brought a connection up: the coordinator is to be told.
    Succeed(Connection),
    /// It is no longer wanted.
    Cancelled,
    /// It is over, and this is the answer.
    Answer(Result<Connection, ApplicationError>),
}

/// One attempt: what it was begun with, and where it stands.
pub struct IntentAttempt {
    pub options: ConnectOptions,
    pub reconcile: bool,
    pub repair: bool,
    pub kind: AttemptKind,
    pub refresh_capability: bool,
    pub preflight: Option<InitialDesktopPreflight>,
    pub stage: AttemptStage,
}

pub struct AttemptStepView {
    pub attempt: IntentAttempt,
    pub state: RuntimeState,
    pub outcome: AttemptOutcome,
}

pub open spec fn awaits(stage: AttemptStage, event: AttemptEvent) -> bool {
    match stage {
        AttemptStage::ResolvingStart => event is StartResolved,
        AttemptStage::ConfirmingStart { .. } => event is Current,
        AttemptStage::ReplacingOptions { .. } => event is OptionsReplaced,
        AttemptStage::Preflight { .. } => event is PreflightDone,
        AttemptStage::ConfirmingPreflight => event is Current,
        AttemptStage::AbandoningIntent => event is IntentAbandoned,
        AttemptStage::StartingLegacy { .. } => event is LegacyStarted,
        AttemptStage::RefreshingCapability => event is CapabilityRefreshed,
        AttemptStage::ConfirmingCapability => event is Current,
        AttemptStage::Reconciling => event is Reconciled,
        AttemptStage::ConfirmingReconcile => event is Current,
        AttemptStage::Repairing => event is Repaired,
        AttemptStage::Connecting => event is Connected,
    }
}

pub open spec fn stage_after_reconcile(attempt: IntentAttempt) -> AttemptStage {
    if attempt.repair {
        AttemptStage::Repairing
    } else {
        AttemptStage::Connecting
    }
}

pub open spec fn stage_after_capability(attempt: IntentAttempt) -> AttemptStage {
    if attempt.reconcile {
        AttemptStage::Reconciling
    } else {
        stage_after_reconcile(attempt)
    }
}

pub open spec fn stage_after_preflight(attempt: IntentAttempt) -> AttemptStage {
    if attempt.refresh_capability {
        AttemptStage::RefreshingCapability
    } else {
        stage_after_capability(attempt)
    }
}

pub open spec fn at_stage(attempt: IntentAttempt, stage: AttemptStage) -> IntentAttempt {
    IntentAttempt { stage, ..attempt }
}

pub open spec fn goes_on(attempt: IntentAttempt, state: RuntimeState, stage: AttemptStage) -> AttemptStepView {
    AttemptStepView {
        attempt: at_stage(attempt, stage),
        state,
        outcome: AttemptOutcome::Continue,
    }
}

pub open spec fn ends(attempt: IntentAttempt, state: RuntimeState, outcome: AttemptOutcome) -> AttemptStepView {
    AttemptStepView { attempt, state, outcome }
}

/// The state of an intent that was given up for a single start.
pub open spec fn abandoned(state: RuntimeState) -> RuntimeState {
    RuntimeState { armed: state.armed, ..crate::intent_runtime::no_intent() }
}

pub open spec fn skips_probe_refresh(attempt: IntentAttempt) -> bool {
    attempt.preflight matches Some(preflight) && preflight.quick_toggle_skip_probe_refresh == Some(
        true,
    )
}

/// Whether a lease has come to its end.
pub open spec fn lease_is_over(status: Option<LeaseStatus>) -> bool {
    status == Some(LeaseStatus::Released) || status == Some(LeaseStatus::Failed)
}

/// One step of an attempt.
pub open spec fn attempt_step(
    attempt: IntentAttempt,
    state: RuntimeState,
    event: AttemptEvent,
) -> AttemptStepView {
    match (attempt.stage, event) {
        (AttemptStage::ResolvingStart, AttemptEvent::StartResolved(resolved)) => match resolved {
            Ok(start) => goes_on(attempt, state, AttemptStage::ConfirmingStart { start }),
            Err(error) => ends(attempt, state, AttemptOutcome::Fail(error)),
        },
        (AttemptStage::ConfirmingStart { start }, AttemptEvent::Current(current)) => if !current {
            ends(attempt, state, AttemptOutcome::Cancelled)
        } else {
            goes_on(
                attempt,
                state,
                match start.options {
                    Some(options) => AttemptStage::ReplacingOptions { mode: start.mode, options },
                    None => AttemptStage::Preflight { mode: start.mode },
                },
            )
        },
        (
            AttemptStage::ReplacingOptions { mode, options },
            AttemptEvent::OptionsReplaced(replaced),
        ) => if !replaced {
            ends(attempt, state, AttemptOutcome::Cancelled)
        } else {
            goes_on(
                IntentAttempt { options, ..attempt },
                RuntimeState { options: Some(options), ..state },
                AttemptStage::Preflight { mode },
            )
        },
        (AttemptStage::Preflight { mode }, AttemptEvent::PreflightDone(done)) => match done {
            Err(error) => ends(attempt, state, AttemptOutcome::Fail(error)),
            Ok(_) => goes_on(
                attempt,
                state,
                if mode == InitialDesktopStartMode::Recovery {
                    AttemptStage::ConfirmingPreflight
                } else {
                    AttemptStage::AbandoningIntent
                },
            ),
        },
        (AttemptStage::ConfirmingPreflight, AttemptEvent::Current(current)) => if !current {
            ends(attempt, state, AttemptOutcome::Cancelled)
        } else {
            goes_on(
                attempt,
                RuntimeState { initial_preflight: None, ..state },
                stage_after_preflight(attempt),
            )
        },
        (
            AttemptStage::AbandoningIntent,
            AttemptEvent::IntentAbandoned(given_up),
        ) => if !given_up {
            ends(attempt, state, AttemptOutcome::Cancelled)
        } else {
            goes_on(
                attempt,
                abandoned(state),
                AttemptStage::StartingLegacy { skip_probe_refresh: skips_probe_refresh(attempt) },
            )
        },
        (AttemptStage::StartingLegacy { .. }, AttemptEvent::LegacyStarted(started)) => ends(
            attempt,
            state,
            AttemptOutcome::Answer(started),
        ),
        (
            AttemptStage::RefreshingCapability,
            AttemptEvent::CapabilityRefreshed(refreshed),
        ) => match refreshed {
            Ok(_) => goes_on(attempt, state, AttemptStage::ConfirmingCapability),
            Err(error) => ends(attempt, state, AttemptOutcome::Fail(error)),
        },
        (AttemptStage::ConfirmingCapability, AttemptEvent::Current(current)) => if !current {
            ends(attempt, state, AttemptOutcome::Cancelled)
        } else {
            goes_on(
                attempt,
                RuntimeState { refresh_capability_before_attempt: false, ..state },
                stage_after_capability(attempt),
            )
        },
        (AttemptStage::Reconciling, AttemptEvent::Reconciled(reconciled)) => match reconciled {
            Ok(_) => goes_on(attempt, state, AttemptStage::ConfirmingReconcile),
            Err(error) => ends(
                attempt,
                RuntimeState { reconcile_before_attempt: true, ..state },
                AttemptOutcome::Fail(error),
            ),
        },
        (AttemptStage::ConfirmingReconcile, AttemptEvent::Current(current)) => if !current {
            ends(attempt, state, AttemptOutcome::Cancelled)
        } else {
            goes_on(attempt, state, stage_after_reconcile(attempt))
        },
        (AttemptStage::Repairing, AttemptEvent::Repaired) => goes_on(
            attempt,
            state,
            AttemptStage::Connecting,
        ),
        (AttemptStage::Connecting, AttemptEvent::Connected(result, lease)) => match result {
            Ok(connection) => ends(attempt, state, AttemptOutcome::Succeed(connection)),
            Err(error) => ends(
                attempt,
                if attempt.kind == AttemptKind::StallReplacement && lease_is_over(lease) {
                    RuntimeState { attempt_kind: AttemptKind::Start, ..state }
                } else {
                    state
                },
                AttemptOutcome::Fail(error),
            ),
        },
        _ => ends(attempt, state, AttemptOutcome::Cancelled),
    }
}

/// Why an attempt without options cannot be made.
pub open spec fn missing_options(
    status: ConnectionIntentStatus,
    current_generation: u64,
    generation: u64,
) -> crate::commands::CommandErrorView {
    if current_generation != generation || status == ConnectionIntentStatus::Idle {
        crate::commands::error_text("connection_intent_cancelled"@, "Подключение отменено"@)
    } else {
        crate::commands::error_text(
            "connection_intent_unavailable"@,
            "Параметры восстановления недоступны"@,
        )
    }
}

/// The attempt that an intent is due.
pub open spec fn attempt_of(state: RuntimeState) -> IntentAttempt
    recommends
        state.options is Some,
{
    let attempt = IntentAttempt {
        options: state.options->0,
        reconcile: state.reconcile_before_attempt,
        repair: state.repair_before_attempt,
        kind: state.attempt_kind,
        refresh_capability: state.refresh_capability_before_attempt,
        preflight: state.initial_preflight,
        stage: AttemptStage::ResolvingStart,
    };
    if state.initial_preflight is Some {
        attempt
    } else {
        at_stage(attempt, stage_after_preflight(attempt))
    }
}

/// The state while an attempt is under way: what it takes with it is no
/// longer due.
pub open spec fn attempting(state: RuntimeState) -> RuntimeState {
    RuntimeState {
        next_retry_at_unix: None,
        retry_not_before_unix: None,
        reconcile_before_attempt: false,
        repair_before_attempt: false,
        ..state
    }
}

impl RuntimeState {
    /// Why no attempt can be made, where none can: the intent was cancelled,
    /// or it has no options.
    pub fn attempt_refused(
        &self,
        status: ConnectionIntentStatus,
        current_generation: u64,
        generation: u64,
    ) -> (refused: Option<CommandError>)
        ensures
            refused is Some == self.options is None,
            refused matches Some(error) ==> error@ == missing_options(
                status,
                current_generation,
                generation,
            ),
    {
        if self.options.is_some() {
            None
        } else if current_generation != generation || status == ConnectionIntentStatus::Idle {
            Some(cancelled_error())
        } else {
            Some(
                CommandError::new(
                    "connection_intent_unavailable",
                    "Параметры восстановления недоступны",
                ),
            )
        }
    }

    /// Begins an attempt, once the coordinator was asked; `begun` is what it
    /// said. Where it did not, the intent goes on waiting.
    pub fn begin_attempt(&mut self, begun: bool) -> (attempt: Option<IntentAttempt>)
        requires
            old(self).options is Some,
        ensures
            attempt == (if begun {
                Some(attempt_of(*old(self)))
            } else {
                None
            }),
            *final(self) == (if begun {
                attempting(*old(self))
            } else {
                *old(self)
            }),
    {
        if !begun {
            return None;
        }
        let options = match self.options {
            Some(options) => options,
            None => return None,
        };
        let preflight = match &self.initial_preflight {
            Some(preflight) => Some(preflight.duplicate()),
            None => None,
        };
        let mut attempt = IntentAttempt {
            options,
            reconcile: self.reconcile_before_attempt,
            repair: self.repair_before_attempt,
            kind: self.attempt_kind,
            refresh_capability: self.refresh_capability_before_attempt,
            preflight,
            stage: AttemptStage::ResolvingStart,
        };
        if attempt.preflight.is_none() {
            attempt.stage = attempt.after_preflight();
        }
        self.next_retry_at_unix = None;
        self.retry_not_before_unix = None;
        self.reconcile_before_attempt = false;
        self.repair_before_attempt = false;
        Some(attempt)
    }

    fn abandon_initial_intent_for_legacy(&mut self)
        ensures
            *final(self) == abandoned(*old(self)),
    {
        self.options = None;
        self.policy = RecoveryPolicyContext::new();
        self.next_retry_at_unix = None;
        self.retry_not_before_unix = None;
        self.reconcile_before_attempt = false;
        self.repair_before_attempt = false;
        self.refresh_capability_before_attempt = false;
        self.initial_preflight = None;
        self.attempt_kind = AttemptKind::Start;
        self.retry_count = 0;
        self.owned_lease_id = None;
    }
}

impl IntentAttempt {
    fn after_reconcile(&self) -> (stage: AttemptStage)
        ensures
            stage == stage_after_reconcile(*self),
    {
        if self.repair {
            AttemptStage::Repairing
        } else {
            AttemptStage::Connecting
        }
    }

    fn after_capability(&self) -> (stage: AttemptStage)
        ensures
            stage == stage_after_capability(*self),
    {
        if self.reconcile {
            AttemptStage::Reconciling
        } else {
            self.after_reconcile()
        }
    }

    fn after_preflight(&self) -> (stage: AttemptStage)
        ensures
            stage == stage_after_preflight(*self),
    {
        if self.refresh_capability {
            AttemptStage::RefreshingCapability
        } else {
            self.after_capability()
        }
    }

    fn skip_probe_refresh(&self) -> (skip: bool)
        ensures
            skip == skips_probe_refresh(*self),
    {
        match &self.preflight {
            Some(preflight) => match preflight.quick_toggle_skip_probe_refresh {
                Some(skip) => skip,
                None => false,
            },
            None => false,
        }
    }

    /// Takes in what the attempt was told and says how it goes on.
    pub fn step(&mut self, state: &mut RuntimeState, event: AttemptEvent) -> (outcome:
        AttemptOutcome)
        requires
            awaits(old(self).stage, event),
        ensures
            ({
                let step = attempt_step(*old(self), *old(state), event);
                &&& *final(self) == step.attempt
                &&& *final(state) == step.state
                &&& outcome == step.outcome
            }),
    {
        match self.stage {
            AttemptStage::ResolvingStart
            | AttemptStage::ConfirmingStart { .. }
            | AttemptStage::ReplacingOptions { .. }
            | AttemptStage::Preflight { .. }
            | AttemptStage::ConfirmingPreflight
            | AttemptStage::AbandoningIntent
            | AttemptStage::StartingLegacy { .. } => self.first_start_step(state, event),
            _ => self.connect_step(state, event),
        }
    }

    #[verifier::rlimit(40)]
    fn first_start_step(&mut self, state: &mut RuntimeState, event: AttemptEvent) -> (outcome:
        AttemptOutcome)
        requires
            awaits(old(self).stage, event),
            attempt_steps_left(old(self).stage) > 6,
        ensures
            ({
                let step = attempt_step(*old(self), *old(state), event);
                &&& *final(self) == step.attempt
                &&& *final(state) == step.state
                &&& outcome == step.outcome
            }),
    {
        match (self.stage, event) {
            (AttemptStage::ResolvingStart, AttemptEvent::StartResolved(resolved)) => {
                match resolved {
                    Ok(start) => {
                        self.stage = AttemptStage::ConfirmingStart { start };
                        AttemptOutcome::Continue
                    },
                    Err(error) => AttemptOutcome::Fail(error),
                }
            },
            (AttemptStage::ConfirmingStart { start }, AttemptEvent::Current(current)) => {
                if !current {
                    return AttemptOutcome::Cancelled;
                }
                self.stage =
                match start.options {
                    Some(options) => AttemptStage::ReplacingOptions { mode: start.mode, options },
                    None => AttemptStage::Preflight { mode: start.mode },
                };
                AttemptOutcome::Continue
            },
            (
                AttemptStage::ReplacingOptions { mode, options },
                AttemptEvent::OptionsReplaced(replaced),
            ) => {
                if !replaced {
                    return AttemptOutcome::Cancelled;
                }
                state.options = Some(options);
                self.options = options;
                self.stage = AttemptStage::Preflight { mode };
                AttemptOutcome::Continue
            },
            (AttemptStage::Preflight { mode }, AttemptEvent::PreflightDone(done)) => {
                match (initial_desktop_preflight_action(mode, done.is_ok()), done) {
                    (InitialDesktopPreflightAction::ContinueRecovery, _) => {
                        self.stage = AttemptStage::ConfirmingPreflight;
                        AttemptOutcome::Continue
                    },
                    (InitialDesktopPreflightAction::RunLegacy, _) => {
                        self.stage = AttemptStage::AbandoningIntent;
                        AttemptOutcome::Continue
                    },
                    (InitialDesktopPreflightAction::RetryIntent, Err(error)) => {
                        AttemptOutcome::Fail(error)
                    },
                    (InitialDesktopPreflightAction::RetryIntent, Ok(_)) => {
                        AttemptOutcome::Cancelled
                    },
                }
            },
            (AttemptStage::ConfirmingPreflight, AttemptEvent::Current(current)) => {
                if !current {
                    return AttemptOutcome::Cancelled;
                }
                state.initial_preflight = None;
                self.stage = self.after_preflight();
                AttemptOutcome::Continue
            },
            (AttemptStage::AbandoningIntent, AttemptEvent::IntentAbandoned(given_up)) => {
                if !given_up {
                    return AttemptOutcome::Cancelled;
                }
                state.abandon_initial_intent_for_legacy();
                self.stage =
                AttemptStage::StartingLegacy { skip_probe_refresh: self.skip_probe_refresh() };
                AttemptOutcome::Continue
            },
            (AttemptStage::StartingLegacy { .. }, AttemptEvent::LegacyStarted(started)) => {
                AttemptOutcome::Answer(started)
            },
            _ => AttemptOutcome::Cancelled,
        }
    }

    #[verifier::rlimit(40)]
    fn connect_step(&mut self, state: &mut RuntimeState, event: AttemptEvent) -> (outcome:
        AttemptOutcome)
        requires
            awaits(old(self).stage, event),
            attempt_steps_left(old(self).stage) <= 6,
        ensures
            ({
                let step = attempt_step(*old(self), *old(state), event);
                &&& *final(self) == step.attempt
                &&& *final(state) == step.state
                &&& outcome == step.outcome
            }),
    {
        match (self.stage, event) {
            (AttemptStage::RefreshingCapability, AttemptEvent::CapabilityRefreshed(refreshed)) => {
                match refreshed {
                    Ok(_) => {
                        self.stage = AttemptStage::ConfirmingCapability;
                        AttemptOutcome::Continue
                    },
                    Err(error) => AttemptOutcome::Fail(error),
                }
            },
            (AttemptStage::ConfirmingCapability, AttemptEvent::Current(current)) => {
                if !current {
                    return AttemptOutcome::Cancelled;
                }
                state.refresh_capability_before_attempt = false;
                self.stage = self.after_capability();
                AttemptOutcome::Continue
            },
            (AttemptStage::Reconciling, AttemptEvent::Reconciled(reconciled)) => {
                match reconciled {
                    Ok(_) => {
                        self.stage = AttemptStage::ConfirmingReconcile;
                        AttemptOutcome::Continue
                    },
                    Err(error) => {
                        state.reconcile_before_attempt = true;
                        AttemptOutcome::Fail(error)
                    },
                }
            },
            (AttemptStage::ConfirmingReconcile, AttemptEvent::Current(current)) => {
                if !current {
                    return AttemptOutcome::Cancelled;
                }
                self.stage = self.after_reconcile();
                AttemptOutcome::Continue
            },
            (AttemptStage::Repairing, AttemptEvent::Repaired) => {
                self.stage = AttemptStage::Connecting;
                AttemptOutcome::Continue
            },
            (AttemptStage::Connecting, AttemptEvent::Connected(result, lease)) => {
                match result {
                    Ok(connection) => AttemptOutcome::Succeed(connection),
                    Err(error) => {
                        let over = match lease {
                            Some(LeaseStatus::Released) | Some(LeaseStatus::Failed) => true,
                            _ => false,
                        };
                        if self.kind == AttemptKind::StallReplacement && over {
                            state.attempt_kind = AttemptKind::Start;
                        }
                        AttemptOutcome::Fail(error)
                    },
                }
            },
            _ => AttemptOutcome::Cancelled,
        }
    }
}

/// How long to wait after the `failures`-th failure to undo a connection that
/// is no longer wanted.
pub open spec fn compensation_delay(failures: nat) -> u64 {
    if failures == 0 {
        0
    } else if failures == 1 {
        2
    } else if failures == 2 {
        5
    } else if failures == 3 {
        15
    } else if failures == 4 {
        30
    } else if failures == 5 {
        60
    } else {
        300
    }
}

pub const COMPENSATION_DELAYS_SECONDS: [u64; 7] = [0, 2, 5, 15, 30, 60, 300];

/// Counts one more failure to undo a connection. Returns how long to wait and
/// whether the failure is noted: the first one is.
pub fn compensation_failed(failures: &mut usize) -> (retry: (u64, bool))
    ensures
        *final(failures) == (if *old(failures) == usize::MAX {
            usize::MAX
        } else {
            (*old(failures) + 1) as usize
        }),
        retry.0 == compensation_delay(*final(failures) as nat),
        retry.1 == (*old(failures) == 0),
{
    let first = *failures == 0;
    *failures = failures.saturating_add(1);
    let last: usize = 6;
    let index: usize = if *failures < last {
        *failures
    } else {
        last
    };
    (COMPENSATION_DELAYS_SECONDS[index], first)
}

/// Where the local recovery of a stalled connection stands.
#[derive(Clone, Copy, Debug, PartialEq, Eq, Structural)]
pub enum LocalRecovery {
    Rebinding,
    /// Wait two seconds, then probe.
    CheckingRebind,
    Restarting,
    CheckingRestart,
}

/// How it ended.
#[derive(Clone, Copy, Debug)]
pub enum LocalRecoveryOutcome {
    Continue,
    /// The connection works again; `event` is noted where it is still the one
    /// of the intent.
    Recovered { event: &'static str },
    Failed,
}

pub open spec fn rebind_event() -> Seq<char> {
    "connection.intent.stall_recovered_after_rebind"@
}

pub open spec fn restart_event() -> Seq<char> {
    "connection.intent.stall_recovered_after_local_restart"@
}

impl LocalRecovery {
    /// The core has bound the socket anew or restarted the tunnel, or could
    /// not; none stands for a failure.
    pub fn tried(&mut self, outcome: Option<StalledDataPlaneRecoveryOutcome>) -> (result:
        LocalRecoveryOutcome)
        requires
            *old(self) == LocalRecovery::Rebinding || *old(self) == LocalRecovery::Restarting,
        ensures
            match *old(self) {
                LocalRecovery::Rebinding => {
                    &&& result is Continue
                    &&& *final(self) == (if outcome == Some(
                        StalledDataPlaneRecoveryOutcome::Rebound,
                    ) {
                        LocalRecovery::CheckingRebind
                    } else {
                        LocalRecovery::Restarting
                    })
                },
                _ => if outcome == Some(StalledDataPlaneRecoveryOutcome::Reconnected) {
                    result is Continue && *final(self) == LocalRecovery::CheckingRestart
                } else {
                    result is Failed && *final(self) == *old(self)
                },
            },
    {
        match *self {
            LocalRecovery::Rebinding => {
                *self =
                match outcome {
                    Some(StalledDataPlaneRecoveryOutcome::Rebound) => LocalRecovery::CheckingRebind,
                    _ => LocalRecovery::Restarting,
                };
                LocalRecoveryOutcome::Continue
            },
            _ => match outcome {
                Some(StalledDataPlaneRecoveryOutcome::Reconnected) => {
                    *self = LocalRecovery::CheckingRestart;
                    LocalRecoveryOutcome::Continue
                },
                _ => LocalRecoveryOutcome::Failed,
            },
        }
    }

    /// The tunnel was probed after that.
    pub fn probed(&mut self, tunnel_ok: bool) -> (result: LocalRecoveryOutcome)
        requires
            *old(self) == LocalRecovery::CheckingRebind || *old(self)
                == LocalRecovery::CheckingRestart,
        ensures
            match *old(self) {
                LocalRecovery::CheckingRebind => if tunnel_ok {
                    &&& result matches LocalRecoveryOutcome::Recovered { event }
                    &&& event@ == rebind_event()
                    &&& *final(self) == *old(self)
                } else {
                    result is Continue && *final(self) == LocalRecovery::Restarting
                },
                _ => if tunnel_ok {
                    &&& result matches LocalRecoveryOutcome::Recovered { event }
                    &&& event@ == restart_event()
                    &&& *final(self) == *old(self)
                } else {
                    result is Failed && *final(self) == *old(self)
                },
            },
    {
        match *self {
            LocalRecovery::CheckingRebind => if tunnel_ok {
                LocalRecoveryOutcome::Recovered {
                    event: "connection.intent.stall_recovered_after_rebind",
                }
            } else {
                *self = LocalRecovery::Restarting;
                LocalRecoveryOutcome::Continue
            },
            _ => if tunnel_ok {
                LocalRecoveryOutcome::Recovered {
                    event: "connection.intent.stall_recovered_after_local_restart",
                }
            } else {
                LocalRecoveryOutcome::Failed
            },
        }
    }
}

/// A change of the network never brings an attempt forward past the time that
/// the panel has asked to wait for.
pub proof fn law_wakeup_respects_the_server_deadline(
    state: RuntimeState,
    code: Seq<char>,
    delay_seconds: u64,
    scheduled_unix: Option<i64>,
    now_unix: i64,
    wakeup_unix: i64,
)
    ensures
        ({
            let decision = RecoveryDecision::RetryAfter(delay_seconds);
            let waiting = crate::intent_runtime::retrying(
                state,
                code,
                decision,
                scheduled_unix,
                now_unix,
            );
            let woken = RuntimeState {
                next_retry_at_unix: Some(
                    crate::connection_intent::wakeup_time(
                        waiting.retry_not_before_unix,
                        wakeup_unix,
                    ),
                ),
                ..waiting
            };
            let deadline = crate::intent_runtime::retry_time(now_unix, delay_seconds);
            forall|time: i64|
                time < deadline ==> !#[trigger] crate::intent_runtime::retry_is_due(
                    woken,
                    ConnectionIntentStatus::Recovering,
                    time,
                )
        }),
{
}

/// A change of the network brings every other attempt forward to now.
pub proof fn law_wakeup_runs_other_attempts_at_once(state: RuntimeState, wakeup_unix: i64)
    requires
        state.retry_not_before_unix is None,
    ensures
        crate::intent_runtime::retry_is_due(
            (RuntimeState {
                next_retry_at_unix: Some(
                    crate::connection_intent::wakeup_time(
                        state.retry_not_before_unix,
                        wakeup_unix,
                    ),
                ),
                ..state
            }),
            ConnectionIntentStatus::Recovering,
            wakeup_unix,
        ),
{
}

/// The steps that are left before an attempt is over, at most.
pub open spec fn attempt_steps_left(stage: AttemptStage) -> nat {
    match stage {
        AttemptStage::ResolvingStart => 12,
        AttemptStage::ConfirmingStart { .. } => 11,
        AttemptStage::ReplacingOptions { .. } => 10,
        AttemptStage::Preflight { .. } => 9,
        AttemptStage::ConfirmingPreflight => 8,
        AttemptStage::AbandoningIntent => 8,
        AttemptStage::StartingLegacy { .. } => 7,
        AttemptStage::RefreshingCapability => 6,
        AttemptStage::ConfirmingCapability => 5,
        AttemptStage::Reconciling => 4,
        AttemptStage::ConfirmingReconcile => 3,
        AttemptStage::Repairing => 2,
        AttemptStage::Connecting => 1,
    }
}

/// Every attempt ends.
pub proof fn law_attempt_ends(attempt: IntentAttempt, state: RuntimeState, event: AttemptEvent)
    requires
        awaits(attempt.stage, event),
    ensures
        ({
            let step = attempt_step(attempt, state, event);
            step.outcome is Continue ==> attempt_steps_left(step.attempt.stage)
                < attempt_steps_left(attempt.stage)
        }),
{
}

/// An attempt that is no longer current goes no further and changes nothing:
/// nothing of it can start a connection.
pub proof fn law_cancelled_attempt_stops(attempt: IntentAttempt, state: RuntimeState)
    requires
        awaits(attempt.stage, AttemptEvent::Current(false)),
    ensures
        ({
            let step = attempt_step(attempt, state, AttemptEvent::Current(false));
            step.outcome is Cancelled && step.state == state
        }),
{
}

/// A start without recovery is made only where the panel does not allow
/// recovery, once the steps before it have succeeded and the intent was given
/// up.
pub proof fn law_legacy_start_needs_a_given_up_intent(
    attempt: IntentAttempt,
    state: RuntimeState,
    event: AttemptEvent,
)
    requires
        awaits(attempt.stage, event),
    ensures
        ({
            let step = attempt_step(attempt, state, event);
            let after = step.attempt.stage;
            &&& step.outcome is Continue && after is StartingLegacy ==> attempt.stage
                == AttemptStage::AbandoningIntent && step.state.options is None
                && step.state.next_retry_at_unix is None
            &&& step.outcome is Continue && after == AttemptStage::AbandoningIntent
                ==> attempt.stage == (AttemptStage::Preflight {
                mode: InitialDesktopStartMode::Legacy,
            }) && (event matches AttemptEvent::PreflightDone(Ok(_)))
        }),
{
}

/// An operation whose outcome is not known stays due to be settled until it
/// was: an attempt that could not settle it fails, and the next one begins
/// with it again.
pub proof fn law_unsettled_operation_is_settled_first(
    attempt: IntentAttempt,
    state: RuntimeState,
    error: ApplicationError,
    code: Seq<char>,
    decision: RecoveryDecision,
    scheduled_unix: Option<i64>,
    now_unix: i64,
)
    requires
        attempt.stage == AttemptStage::Reconciling,
        state.options is Some,
    ensures
        ({
            let step = attempt_step(attempt, state, AttemptEvent::Reconciled(Err(error)));
            let waiting = crate::intent_runtime::retrying(
                step.state,
                code,
                decision,
                scheduled_unix,
                now_unix,
            );
            step.outcome == AttemptOutcome::Fail(error) && attempt_of(waiting).reconcile
        }),
{
}

/// What is done once before the first attempt is done again until it has
/// succeeded, and never after that.
pub proof fn law_preflight_is_repeated_until_it_succeeds(
    attempt: IntentAttempt,
    state: RuntimeState,
    event: AttemptEvent,
)
    requires
        awaits(attempt.stage, event),
    ensures
        ({
            let step = attempt_step(attempt, state, event);
            let passed = attempt.stage == AttemptStage::ConfirmingPreflight && event
                == AttemptEvent::Current(true);
            let given_up = attempt.stage == AttemptStage::AbandoningIntent && event
                == AttemptEvent::IntentAbandoned(true);
            step.state.initial_preflight == if passed || given_up {
                None
            } else {
                state.initial_preflight
            }
        }),
{
}

} // verus!
