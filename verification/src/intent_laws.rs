//! What holds of the wish to be connected, from the first start to the last
//! retry: what a start asks for, in which order an attempt works, and what is
//! kept of it until the next one.
use crate::connection_intent::{
    locally_recovered, matches_core, other_device, policy_after, preflight_action, preflight_steps,
    start_mode, start_of, wakeup_time, AttemptKind, InitialDesktopPreflight,
    InitialDesktopPreflightAction, InitialDesktopStartMode, PreflightStep, RecoveryDecision,
    RecoveryPolicyContext, StartBootstrap,
};
use crate::core_state::{
    allows_intent, ConnectOptions, Connection, ConnectionIntentCapability, ConnectionIntentStatus,
    CoreState, EgressMode, Layer, LeaseStatus, Phase,
};
use crate::intent_attempt::{
    attempt_of, attempt_step, attempting, awaits, compensation_delay, missing_options, AttemptEvent,
    AttemptOutcome, AttemptStage, IntentAttempt,
};
use crate::intent_runtime::{
    blocked, connected, disowned, new_intent, next_retry, no_intent, retry_is_due, retry_time,
    retrying, seconds_until, stall_begun, stall_ownership_of, RuntimeState, StallOwnership,
};
use crate::metrics_scheduler::ClientPlatform;
use vstd::prelude::*;

verus! {

/// A start that takes the defaults of the device asks for exactly those that
/// the panel gave, with the egress that was chosen for them; any other start
/// keeps the options it was made with.
pub proof fn law_quick_start_takes_the_defaults_of_the_device(
    preflight: InitialDesktopPreflight,
    bootstrap: StartBootstrap,
    egress_mode: EgressMode,
    now_unix: i64,
)
    ensures
        ({
            let start = start_of(preflight, bootstrap, egress_mode, now_unix);
            match preflight.quick_toggle_skip_probe_refresh {
                Some(_) => {
                    &&& start.options matches Some(options)
                    &&& options.layer == bootstrap.layer
                    &&& options.tic_connection_mode == bootstrap.tic_connection_mode
                    &&& options.route_mode == bootstrap.route_mode
                    &&& options.egress_mode == egress_mode
                    &&& options.allow_alternate
                },
                None => start.options is None,
            }
        }),
{
}

/// Two starts that take the defaults of the device ask for the same only where
/// the defaults are the same.
pub proof fn law_other_defaults_make_another_start(
    preflight: InitialDesktopPreflight,
    left: StartBootstrap,
    right: StartBootstrap,
    egress_mode: EgressMode,
    now_unix: i64,
)
    requires
        preflight.quick_toggle_skip_probe_refresh is Some,
        start_of(preflight, left, egress_mode, now_unix).options == start_of(
            preflight,
            right,
            egress_mode,
            now_unix,
        ).options,
    ensures
        left.layer == right.layer,
        left.tic_connection_mode == right.tic_connection_mode,
        left.route_mode == right.route_mode,
{
}

/// A start recovers where the panel has granted that in time, under a valid
/// revision; it is a single start otherwise.
pub proof fn law_recovery_needs_a_grant_that_has_not_expired(
    preflight: InitialDesktopPreflight,
    bootstrap: StartBootstrap,
    egress_mode: EgressMode,
    now_unix: i64,
)
    ensures
        ({
            let granted = bootstrap.capability matches Some(capability)
                && capability.connection_intent_recovery_v1 && capability.revision > 0 && (
            capability.expires_at_unix matches Some(expires) && now_unix < expires);
            &&& start_of(preflight, bootstrap, egress_mode, now_unix).mode == (if granted {
                InitialDesktopStartMode::Recovery
            } else {
                InitialDesktopStartMode::Legacy
            })
            &&& allows_intent(bootstrap.capability, now_unix) == granted
        }),
{
}

/// A grant that has expired stays so.
pub proof fn law_expired_grant_is_not_renewed_by_time(
    capability: Option<ConnectionIntentCapability>,
    now_unix: i64,
    later_unix: i64,
)
    requires
        now_unix <= later_unix,
    ensures
        allows_intent(capability, later_unix) ==> allows_intent(capability, now_unix),
        start_mode(capability, later_unix) == InitialDesktopStartMode::Recovery ==> start_mode(
            capability,
            now_unix,
        ) == InitialDesktopStartMode::Recovery,
{
}

/// A start is for another device exactly where it names one and the panel
/// answered for a different one.
pub proof fn law_start_is_refused_for_another_device_only(
    preflight: InitialDesktopPreflight,
    bootstrap: StartBootstrap,
)
    ensures
        preflight.expected_device_id is None ==> !other_device(preflight, bootstrap),
        preflight.expected_device_id matches Some(expected) ==> (expected@ == bootstrap.device_id@)
            != other_device(preflight, bootstrap),
{
}

/// Before the first attempt the tunnel is prepared once; a peer is bound before
/// it where one was asked for, Defender is looked at after it for a stray on
/// Windows, and the applications are listed last. Nothing else is done.
pub proof fn law_first_attempt_is_prepared_in_order(
    binding_requested: bool,
    platform: ClientPlatform,
    layer: Layer,
)
    ensures
        ({
            let steps = preflight_steps(binding_requested, platform, layer);
            let checks = platform == ClientPlatform::Windows && layer == Layer::Stray;
            let bound = if binding_requested {
                1int
            } else {
                0
            };
            &&& steps.len() == bound + 2 + (if checks {
                1int
            } else {
                0
            })
            &&& binding_requested ==> steps[0] == PreflightStep::BindPeer
            &&& steps[bound] == PreflightStep::PrepareTunnel
            &&& checks ==> steps[bound + 1] == PreflightStep::CheckDefender
            &&& steps.last() == PreflightStep::RefreshApplications
        }),
{
}

/// After the steps before it an attempt recovers or starts once, as the panel
/// has granted; where a step failed it is tried again.
pub proof fn law_failed_preparation_is_retried(mode: InitialDesktopStartMode, succeeded: bool)
    ensures
        preflight_action(mode, succeeded) == InitialDesktopPreflightAction::RetryIntent
            <==> !succeeded,
        preflight_action(mode, succeeded) == InitialDesktopPreflightAction::ContinueRecovery
            <==> succeeded && mode == InitialDesktopStartMode::Recovery,
{
}

/// A connection counts as up only where the core is connected with that lease.
pub proof fn law_connection_is_up_only_with_its_own_lease(
    state: CoreState,
    connection: Connection,
    expected_generation: u64,
    current_generation: u64,
    armed: bool,
    owned: Option<Seq<char>>,
    lease: Seq<char>,
)
    ensures
        matches_core(state, connection) <==> state.phase == Phase::Connected && (
        state.connection matches Some(current) && current.lease_id@ == connection.lease_id@),
        locally_recovered(state, expected_generation, current_generation, armed, owned, lease)
            <==> armed && expected_generation == current_generation && owned == Some(lease)
            && state.phase == Phase::Connected && (state.connection matches Some(current)
            && current.lease_id@ == lease),
{
}

/// An attempt takes everything that is due from the state, and begins with the
/// first thing that is: the start that was never prepared, then the grant, then
/// an operation that is not settled, then a repair, then the connection.
pub proof fn law_attempt_begins_with_what_is_due(state: RuntimeState)
    requires
        state.options is Some,
    ensures
        ({
            let attempt = attempt_of(state);
            &&& Some(attempt.options) == state.options
            &&& attempt.kind == state.attempt_kind
            &&& attempt.preflight == state.initial_preflight
            &&& attempt.reconcile == state.reconcile_before_attempt
            &&& attempt.repair == state.repair_before_attempt
            &&& attempt.refresh_capability == state.refresh_capability_before_attempt
            &&& attempt.stage == (if state.initial_preflight is Some {
                AttemptStage::ResolvingStart
            } else if state.refresh_capability_before_attempt {
                AttemptStage::RefreshingCapability
            } else if state.reconcile_before_attempt {
                AttemptStage::Reconciling
            } else if state.repair_before_attempt {
                AttemptStage::Repairing
            } else {
                AttemptStage::Connecting
            })
        }),
{
}

/// While an attempt is under way nothing is scheduled, and what it has taken is
/// due no more; everything else of the intent is kept.
pub proof fn law_running_attempt_keeps_the_intent(state: RuntimeState)
    ensures
        ({
            let running = attempting(state);
            &&& running.next_retry_at_unix is None
            &&& running.retry_not_before_unix is None
            &&& !running.reconcile_before_attempt
            &&& !running.repair_before_attempt
            &&& running.options == state.options
            &&& running.policy == state.policy
            &&& running.refresh_capability_before_attempt
                == state.refresh_capability_before_attempt
            &&& running.armed == state.armed
            &&& running.attempt_kind == state.attempt_kind
            &&& running.retry_count == state.retry_count
            &&& running.owned_lease_id == state.owned_lease_id
            &&& running.initial_preflight == state.initial_preflight
        }),
{
}

/// A connection is asked for only after everything that was due before it: the
/// grant, the settling of an operation and the repair are skipped only where
/// they were not due.
pub proof fn law_connection_comes_after_everything_due(
    attempt: IntentAttempt,
    state: RuntimeState,
    event: AttemptEvent,
)
    requires
        awaits(attempt.stage, event),
    ensures
        ({
            let step = attempt_step(attempt, state, event);
            let stage = attempt.stage;
            let granted = stage == AttemptStage::ConfirmingCapability || !attempt.refresh_capability
                && stage == AttemptStage::ConfirmingPreflight;
            let settled = stage == AttemptStage::ConfirmingReconcile || !attempt.reconcile
                && granted;
            let repaired = stage == AttemptStage::Repairing || !attempt.repair && settled;
            &&& step.outcome is Continue && step.attempt.stage == AttemptStage::Connecting
                ==> repaired
            &&& step.outcome is Continue && step.attempt.stage == AttemptStage::Repairing
                ==> attempt.repair && settled
            &&& step.outcome is Continue && step.attempt.stage == AttemptStage::Reconciling
                ==> attempt.reconcile && granted
            &&& step.outcome is Continue && step.attempt.stage == AttemptStage::RefreshingCapability
                ==> attempt.refresh_capability && stage == AttemptStage::ConfirmingPreflight
        }),
{
}

/// What was asked for and succeeded is confirmed before the attempt goes on,
/// and a confirmed attempt goes on.
pub proof fn law_confirmed_attempt_goes_on(
    attempt: IntentAttempt,
    state: RuntimeState,
    event: AttemptEvent,
)
    requires
        awaits(attempt.stage, event),
    ensures
        ({
            let step = attempt_step(attempt, state, event);
            let after = step.attempt.stage;
            &&& event == AttemptEvent::Current(true) ==> step.outcome is Continue
            &&& (event matches AttemptEvent::StartResolved(Ok(start)) ==> step.outcome is Continue
                && after == (AttemptStage::ConfirmingStart { start }))
            &&& (event matches AttemptEvent::CapabilityRefreshed(Ok(_)) ==> step.outcome is Continue
                && after == AttemptStage::ConfirmingCapability)
            &&& (event matches AttemptEvent::Reconciled(Ok(_)) ==> step.outcome is Continue && after
                == AttemptStage::ConfirmingReconcile)
            &&& event is Repaired ==> step.outcome is Continue && after == AttemptStage::Connecting
            &&& event == AttemptEvent::OptionsReplaced(true) ==> step.outcome is Continue
                && after is Preflight
            &&& (event matches AttemptEvent::PreflightDone(Ok(_)) ==> step.outcome is Continue && (
            after == AttemptStage::ConfirmingPreflight || after == AttemptStage::AbandoningIntent))
            &&& event == AttemptEvent::IntentAbandoned(true) ==> step.outcome is Continue
                && after is StartingLegacy
        }),
{
}

/// How an attempt ends follows from what it was told last: a failure is passed
/// on as it is, a connection that came up is its success, and what the
/// coordinator does not want any more is cancelled.
pub proof fn law_attempt_ends_with_what_it_was_told(
    attempt: IntentAttempt,
    state: RuntimeState,
    event: AttemptEvent,
)
    requires
        awaits(attempt.stage, event),
    ensures
        ({
            let outcome = attempt_step(attempt, state, event).outcome;
            match event {
                AttemptEvent::StartResolved(Err(error)) => outcome == AttemptOutcome::Fail(error),
                AttemptEvent::PreflightDone(Err(error)) => outcome == AttemptOutcome::Fail(error),
                AttemptEvent::CapabilityRefreshed(Err(error)) => outcome == AttemptOutcome::Fail(
                    error,
                ),
                AttemptEvent::Reconciled(Err(error)) => outcome == AttemptOutcome::Fail(error),
                AttemptEvent::Connected(Err(error), _) => outcome == AttemptOutcome::Fail(error),
                AttemptEvent::Connected(Ok(connection), _) => outcome == AttemptOutcome::Succeed(
                    connection,
                ),
                AttemptEvent::LegacyStarted(started) => outcome == AttemptOutcome::Answer(started),
                AttemptEvent::Current(false) => outcome is Cancelled,
                AttemptEvent::OptionsReplaced(false) => outcome is Cancelled,
                AttemptEvent::IntentAbandoned(false) => outcome is Cancelled,
                _ => outcome is Continue,
            }
        }),
{
}

/// The options that the panel gave replace those of the attempt and of the
/// intent once the coordinator has taken them; nothing else changes options.
pub proof fn law_options_change_only_with_the_coordinator(
    attempt: IntentAttempt,
    state: RuntimeState,
    event: AttemptEvent,
)
    requires
        awaits(attempt.stage, event),
    ensures
        ({
            let step = attempt_step(attempt, state, event);
            let given_up = event == AttemptEvent::IntentAbandoned(true);
            match attempt.stage {
                AttemptStage::ReplacingOptions { mode, options } => if event
                    == AttemptEvent::OptionsReplaced(true) {
                    &&& step.attempt.options == options
                    &&& step.state.options == Some(options)
                    &&& step.attempt.stage == (AttemptStage::Preflight { mode })
                } else {
                    step.attempt.options == attempt.options && step.state.options == state.options
                },
                AttemptStage::ConfirmingStart { start } => {
                    &&& step.attempt.options == attempt.options
                    &&& step.state.options == state.options
                    &&& event == AttemptEvent::Current(true) ==> step.attempt.stage == (
                    match start.options {
                        Some(options) => AttemptStage::ReplacingOptions {
                            mode: start.mode,
                            options,
                        },
                        None => AttemptStage::Preflight { mode: start.mode },
                    })
                },
                _ => {
                    &&& step.attempt.options == attempt.options
                    &&& !given_up ==> step.state.options == state.options
                },
            }
        }),
{
}

/// An attempt that is not given up leaves alone what the intent owns and counts.
pub proof fn law_attempt_leaves_the_connection_alone(
    attempt: IntentAttempt,
    state: RuntimeState,
    event: AttemptEvent,
)
    requires
        awaits(attempt.stage, event),
    ensures
        ({
            let after = attempt_step(attempt, state, event).state;
            let given_up = event == AttemptEvent::IntentAbandoned(true);
            &&& after.armed == state.armed
            &&& !given_up ==> {
                &&& after.owned_lease_id == state.owned_lease_id
                &&& after.retry_count == state.retry_count
                &&& after.policy == state.policy
                &&& after.next_retry_at_unix == state.next_retry_at_unix
                &&& after.retry_not_before_unix == state.retry_not_before_unix
                &&& after.repair_before_attempt == state.repair_before_attempt
            }
            &&& given_up ==> {
                &&& after.options is None
                &&& after.owned_lease_id is None
                &&& after.initial_preflight is None
                &&& after.next_retry_at_unix is None
                &&& after.retry_count == 0
            }
        }),
{
}

/// The grant is due until it was refreshed and confirmed; a start replaces a
/// stalled connection no longer once its lease has come to an end.
pub proof fn law_attempt_settles_only_what_it_has_done(
    attempt: IntentAttempt,
    state: RuntimeState,
    event: AttemptEvent,
)
    requires
        awaits(attempt.stage, event),
        event != AttemptEvent::IntentAbandoned(true),
    ensures
        ({
            let after = attempt_step(attempt, state, event).state;
            let refreshed = attempt.stage == AttemptStage::ConfirmingCapability && event
                == AttemptEvent::Current(true);
            let unsettled = event matches AttemptEvent::Reconciled(Err(_));
            let lease_over = attempt.kind == AttemptKind::StallReplacement && (
            event matches AttemptEvent::Connected(Err(_), lease) && (lease == Some(
                LeaseStatus::Released,
            ) || lease == Some(LeaseStatus::Failed)));
            &&& after.refresh_capability_before_attempt == (
            state.refresh_capability_before_attempt && !refreshed)
            &&& after.reconcile_before_attempt == (state.reconcile_before_attempt || unsettled)
            &&& after.attempt_kind == (if lease_over {
                AttemptKind::Start
            } else {
                state.attempt_kind
            })
        }),
{
}

/// A single start refreshes the probes unless the quick toggle said not to.
pub proof fn law_single_start_refreshes_the_probes(attempt: IntentAttempt, state: RuntimeState)
    requires
        attempt.stage == AttemptStage::AbandoningIntent,
    ensures
        ({
            let told_not_to = attempt.preflight matches Some(preflight)
                && preflight.quick_toggle_skip_probe_refresh == Some(true);
            attempt_step(attempt, state, AttemptEvent::IntentAbandoned(true)).attempt.stage == (
            AttemptStage::StartingLegacy { skip_probe_refresh: told_not_to })
        }),
{
}

/// An attempt without options says why: the intent is gone, or it has none.
pub proof fn law_missing_options_are_told_apart(
    status: ConnectionIntentStatus,
    current_generation: u64,
    generation: u64,
)
    ensures
        missing_options(status, current_generation, generation) == (if current_generation
            == generation && status != ConnectionIntentStatus::Idle {
            crate::commands::error_text(
                "connection_intent_unavailable"@,
                "Параметры восстановления недоступны"@,
            )
        } else {
            crate::commands::error_text("connection_intent_cancelled"@, "Подключение отменено"@)
        }),
{
}

/// A connection that is not wanted is undone again and again: after two, five,
/// fifteen, thirty and sixty seconds, and then every five minutes.
pub proof fn law_undoing_is_tried_ever_more_seldom(failures: nat)
    ensures
        compensation_delay(failures) <= compensation_delay(failures + 1),
        compensation_delay(1) == 2,
        compensation_delay(2) == 5,
        compensation_delay(3) == 15,
        compensation_delay(4) == 30,
        compensation_delay(5) == 60,
        failures >= 6 ==> compensation_delay(failures) == 300,
{
}

/// A failure that is retried is counted, and retried when the panel or the
/// coordinator has said; nothing else of the intent is lost.
pub proof fn law_retry_keeps_the_intent(
    state: RuntimeState,
    code: Seq<char>,
    decision: RecoveryDecision,
    scheduled_unix: Option<i64>,
    now_unix: i64,
)
    requires
        state.retry_count < u32::MAX,
    ensures
        ({
            let waiting = retrying(state, code, decision, scheduled_unix, now_unix);
            let repairs = decision == RecoveryDecision::RetryOnce || decision
                == RecoveryDecision::RestartLocalTunnel;
            let reconciles = decision == RecoveryDecision::ReconcileOnce || decision
                == RecoveryDecision::ReconcileThenRetry;
            &&& waiting.retry_count == state.retry_count + 1
            &&& waiting.options == state.options
            &&& waiting.armed == state.armed
            &&& waiting.attempt_kind == state.attempt_kind
            &&& waiting.owned_lease_id == state.owned_lease_id
            &&& waiting.initial_preflight == state.initial_preflight
            &&& waiting.refresh_capability_before_attempt
                == state.refresh_capability_before_attempt
            &&& waiting.repair_before_attempt == repairs
            &&& waiting.reconcile_before_attempt == (state.reconcile_before_attempt || reconciles)
            &&& !(decision is RetryAfter) ==> waiting.next_retry_at_unix == scheduled_unix
                && waiting.retry_not_before_unix is None
        }),
{
}

/// A time that the panel asked to wait is waited, neither less nor more, and no
/// change of the network brings the attempt forward before it.
pub proof fn law_panel_decides_when_to_retry(
    state: RuntimeState,
    code: Seq<char>,
    delay_seconds: u64,
    scheduled_unix: Option<i64>,
    now_unix: i64,
    wakeup_unix: i64,
)
    requires
        delay_seconds <= i64::MAX,
        now_unix + delay_seconds <= i64::MAX,
    ensures
        ({
            let decision = RecoveryDecision::RetryAfter(delay_seconds);
            let waiting = retrying(state, code, decision, scheduled_unix, now_unix);
            let deadline = now_unix + delay_seconds;
            &&& waiting.next_retry_at_unix matches Some(next) && next == deadline
            &&& waiting.retry_not_before_unix == waiting.next_retry_at_unix
            &&& next_retry(decision, scheduled_unix, now_unix) == waiting.next_retry_at_unix
            &&& wakeup_time(waiting.retry_not_before_unix, wakeup_unix) == (if wakeup_unix
                > deadline {
                wakeup_unix as int
            } else {
                deadline
            })
            &&& wakeup_time(None, wakeup_unix) == wakeup_unix
        }),
{
}

/// An attempt is due from its time on while the intent recovers, and the pause
/// before it ends then.
pub proof fn law_attempt_is_due_after_its_pause(state: RuntimeState, next: i64, now_unix: i64)
    requires
        state.next_retry_at_unix == Some(next),
    ensures
        retry_is_due(state, ConnectionIntentStatus::Recovering, now_unix) <==> next <= now_unix,
        !retry_is_due(state, ConnectionIntentStatus::Idle, now_unix),
        !retry_is_due(state, ConnectionIntentStatus::BlockedTerminal, now_unix),
        seconds_until(next, now_unix) == 0 <==> next <= now_unix,
        next > now_unix && next - now_unix <= i64::MAX ==> now_unix + seconds_until(next, now_unix)
            == next,
        retry_time(now_unix, 0) == now_unix,
{
}

/// A connection that came up is the intent's own: it is watched from then on,
/// with nothing due and nothing counted against it, and keeps its options.
pub proof fn law_connection_that_came_up_is_owned(state: RuntimeState, connection: Connection)
    ensures
        ({
            let up = connected(state, connection);
            &&& up.owned_lease_id == Some(connection.lease_id)
            &&& up.armed
            &&& up.options == state.options
            &&& up.retry_count == 0
            &&& up.attempt_kind == AttemptKind::Start
            &&& up.next_retry_at_unix is None
            &&& up.retry_not_before_unix is None
            &&& up.initial_preflight is None
            &&& !up.refresh_capability_before_attempt
            &&& up.policy.retry_after_seconds is None
            &&& !up.policy.stalled_reconcile_attempted
            &&& !up.policy.service_recovery_attempted
            &&& !up.policy.profile_reissue_attempted
            &&& forall|lease: Seq<char>|
                state.options is Some ==> (#[trigger] stall_ownership_of(
                    up,
                    ConnectionIntentStatus::Idle,
                    lease,
                ) == StallOwnership::Owned <==> lease == connection.lease_id@)
        }),
{
}

/// A stall is the intent's to recover only where it holds that very connection
/// and is not at work already.
pub proof fn law_stall_of_another_connection_is_not_taken(
    state: RuntimeState,
    status: ConnectionIntentStatus,
    lease: Seq<char>,
)
    ensures
        ({
            let ownership = stall_ownership_of(state, status, lease);
            &&& ownership == StallOwnership::Owned <==> state.options is Some && state.armed
                && status == ConnectionIntentStatus::Idle && (
            state.owned_lease_id matches Some(owned) && owned@ == lease)
            &&& ownership == StallOwnership::Handled <==> state.options is Some && (!state.armed
                || status != ConnectionIntentStatus::Idle)
        }),
{
}

/// A stall that is taken in is answered by replacing the connection, once the
/// panel was asked whether that is allowed.
pub proof fn law_stall_is_answered_by_a_replacement(state: RuntimeState)
    ensures
        ({
            let begun = stall_begun(state);
            &&& begun.attempt_kind == AttemptKind::StallReplacement
            &&& begun.refresh_capability_before_attempt
            &&& begun.next_retry_at_unix is None
            &&& begun.retry_not_before_unix is None
            &&& begun.options == state.options
            &&& begun.armed == state.armed
            &&& begun.owned_lease_id == state.owned_lease_id
            &&& begun.retry_count == state.retry_count
            &&& begun.policy == state.policy
            &&& begun.reconcile_before_attempt == state.reconcile_before_attempt
            &&& begun.initial_preflight == state.initial_preflight
        }),
{
}

/// A new intent starts with its own options and preparation and with nothing of
/// an earlier one: nothing is due, scheduled, counted or already tried.
pub proof fn law_new_intent_starts_clean(
    state: RuntimeState,
    options: ConnectOptions,
    preflight: Option<InitialDesktopPreflight>,
)
    ensures
        ({
            let fresh = new_intent(state, options, preflight);
            &&& fresh.options == Some(options)
            &&& fresh.initial_preflight == preflight
            &&& fresh.next_retry_at_unix is None
            &&& fresh.retry_not_before_unix is None
            &&& !fresh.reconcile_before_attempt
            &&& !fresh.repair_before_attempt
            &&& fresh.retry_count == 0
            &&& fresh.policy.retry_after_seconds is None
            &&& !fresh.policy.stalled_reconcile_attempted
            &&& !fresh.policy.service_recovery_attempted
            &&& !fresh.policy.profile_reissue_attempted
            &&& fresh.armed == state.armed
            &&& fresh.owned_lease_id == state.owned_lease_id
            &&& fresh.refresh_capability_before_attempt == state.refresh_capability_before_attempt
            &&& fresh.attempt_kind == (if state.armed {
                state.attempt_kind
            } else {
                AttemptKind::Start
            })
        }),
{
}

/// Without an intent there is nothing to retry, to recover or to own; a
/// connection that is gone is owned no more, and the rest of its intent stays.
pub proof fn law_intent_that_is_gone_owns_nothing(
    state: RuntimeState,
    status: ConnectionIntentStatus,
    lease: Seq<char>,
    now_unix: i64,
)
    ensures
        !retry_is_due(no_intent(), status, now_unix),
        stall_ownership_of(no_intent(), status, lease) == StallOwnership::Foreign,
        !no_intent().armed && no_intent().owned_lease_id is None && no_intent().retry_count == 0,
        no_intent().options is None && no_intent().initial_preflight is None,
        no_intent().next_retry_at_unix is None && no_intent().retry_not_before_unix is None,
        !no_intent().reconcile_before_attempt && !no_intent().repair_before_attempt
            && !no_intent().refresh_capability_before_attempt,
        no_intent().attempt_kind == AttemptKind::Start,
        ({
            let gone = disowned(state);
            &&& !gone.armed
            &&& gone.owned_lease_id is None
            &&& gone.attempt_kind == AttemptKind::Start
            &&& gone.options == state.options
            &&& gone.policy == state.policy
            &&& gone.next_retry_at_unix == state.next_retry_at_unix
            &&& gone.retry_count == state.retry_count
            &&& gone.initial_preflight == state.initial_preflight
            &&& gone.retry_not_before_unix == state.retry_not_before_unix
            &&& gone.reconcile_before_attempt == state.reconcile_before_attempt
            &&& gone.repair_before_attempt == state.repair_before_attempt
            &&& gone.refresh_capability_before_attempt == state.refresh_capability_before_attempt
        }),
{
}

/// A failure from which there is no recovery schedules nothing; only a
/// connection that was up before it keeps its options.
pub proof fn law_blocked_intent_schedules_nothing(state: RuntimeState)
    ensures
        ({
            let stopped = blocked(state);
            &&& stopped.next_retry_at_unix is None
            &&& stopped.retry_not_before_unix is None
            &&& stopped.armed == state.armed
            &&& stopped.owned_lease_id == state.owned_lease_id
            &&& stopped.attempt_kind == state.attempt_kind
            &&& stopped.retry_count == state.retry_count
            &&& stopped.policy == state.policy
            &&& state.armed ==> stopped.options == state.options && stopped.initial_preflight
                == state.initial_preflight
            &&& !state.armed ==> stopped.options is None && stopped.initial_preflight is None
        }),
{
}

/// What may be tried once is remembered once it was decided, and never
/// forgotten by a later failure.
pub proof fn law_what_is_tried_once_is_remembered(
    context: RecoveryPolicyContext,
    code: Seq<char>,
    decision: RecoveryDecision,
)
    ensures
        ({
            let after = policy_after(context, code, decision);
            let once = decision == RecoveryDecision::RetryOnce;
            let profile = code == "amneziawg_profile_mismatch"@ || code
                == "awg3_profile_apply_failed"@ || code == "awg3_profile_transform_mismatch"@;
            &&& after.retry_after_seconds == context.retry_after_seconds
            &&& after.stalled_reconcile_attempted == (context.stalled_reconcile_attempted
                || decision == RecoveryDecision::ReconcileOnce)
            &&& after.service_recovery_attempted == (context.service_recovery_attempted || once
                && code == "service_unavailable"@)
            &&& after.profile_reissue_attempted == (context.profile_reissue_attempted || once
                && profile && code != "service_unavailable"@)
        }),
{
}

} // verus!
