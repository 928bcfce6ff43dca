//! What recovery of a stalled tunnel owes: a tunnel that does not work is never
//! taken for recovered, each remedy is followed by the next, and what was not
//! done is not counted.
use crate::connection_metrics::{attempt_allowed, counting_attempts, LimiterView};
use crate::stall_recovery::{
    attempt_wanted, episode_after_attempt, episode_after_reading, expects, note, recovery_step,
    EpisodeView, MacosRecovery, MacosRecoveryAction, MacosRecoveryEvent, MacosStallRecoveryResult,
    RecordView, StalledDataPlaneRecoveryOutcome, TunnelMetricsObservation,
};
use vstd::prelude::*;

verus! {

/// A probe that failed never ends a recovery as complete, whatever was done
/// before it.
pub proof fn law_failed_probe_never_completes(
    state: MacosRecovery,
    limiter: LimiterView,
    lease: Seq<char>,
    event: MacosRecoveryEvent,
    now_unix: i64,
)
    requires
        expects(state, event),
        event matches MacosRecoveryEvent::Checked { tunnel_ok } ==> !tunnel_ok,
        event matches MacosRecoveryEvent::Probed { tunnel_ok, .. } ==> !tunnel_ok,
        event is Checked || event is Probed,
    ensures
        recovery_step(state, limiter, lease, event, now_unix).action
            != MacosRecoveryAction::Finish(MacosStallRecoveryResult::Complete),
{
}

/// A probe that succeeded ends the recovery as complete, with nothing more
/// counted against the lease.
pub proof fn law_working_tunnel_completes(
    state: MacosRecovery,
    limiter: LimiterView,
    lease: Seq<char>,
    event: MacosRecoveryEvent,
    now_unix: i64,
)
    requires
        expects(state, event),
        event matches MacosRecoveryEvent::Checked { tunnel_ok } ==> tunnel_ok,
        event matches MacosRecoveryEvent::Probed { tunnel_ok, .. } ==> tunnel_ok,
        event is Checked || event is Probed,
    ensures
        ({
            let step = recovery_step(state, limiter, lease, event, now_unix);
            &&& step.action == MacosRecoveryAction::Finish(MacosStallRecoveryResult::Complete)
            &&& step.limiter == limiter
        }),
{
}

/// A recovery is complete only where the tunnel was seen to work, the intent
/// took it over, the connection is another one by now, or the core has done
/// something else than it was asked for that leaves nothing to try.
pub proof fn law_recovery_completes_only_with_a_reason(
    state: MacosRecovery,
    limiter: LimiterView,
    lease: Seq<char>,
    event: MacosRecoveryEvent,
    now_unix: i64,
)
    requires
        expects(state, event),
        recovery_step(state, limiter, lease, event, now_unix).action
            == MacosRecoveryAction::Finish(MacosStallRecoveryResult::Complete),
    ensures
        match event {
            MacosRecoveryEvent::Probed { tunnel_ok, .. } => tunnel_ok,
            MacosRecoveryEvent::Checked { tunnel_ok } => tunnel_ok,
            MacosRecoveryEvent::IntentAsked { handled } => handled,
            MacosRecoveryEvent::Recovered(outcome) => match outcome {
                Ok(StalledDataPlaneRecoveryOutcome::Skipped) => true,
                Ok(StalledDataPlaneRecoveryOutcome::Reconnected) => state is Rebinding,
                Ok(StalledDataPlaneRecoveryOutcome::Rebound) => state is Restarting,
                Ok(StalledDataPlaneRecoveryOutcome::Unsupported) => state is Restarting,
                _ => false,
            },
        },
{
}

/// Where binding the socket anew did not help, could not be done or failed, the
/// tunnel is restarted; that restart still belongs to the same attempt.
pub proof fn law_rebind_is_followed_by_a_restart(
    limiter: LimiterView,
    lease: Seq<char>,
    attempt_unix: i64,
    outcome: Result<StalledDataPlaneRecoveryOutcome, String>,
    now_unix: i64,
)
    requires
        outcome is Err || outcome == Ok::<StalledDataPlaneRecoveryOutcome, String>(
            StalledDataPlaneRecoveryOutcome::Unsupported,
        ),
    ensures
        ({
            let checked = recovery_step(
                MacosRecovery::CheckingRebind { attempt_unix },
                limiter,
                lease,
                MacosRecoveryEvent::Checked { tunnel_ok: false },
                now_unix,
            );
            let failed = recovery_step(
                MacosRecovery::Rebinding { attempt_unix },
                limiter,
                lease,
                MacosRecoveryEvent::Recovered(outcome),
                now_unix,
            );
            let restarting = MacosRecovery::Restarting { retry: false, attempt_unix };
            &&& checked.action == MacosRecoveryAction::RestartLocalTunnel
            &&& checked.state == restarting
            &&& checked.limiter == limiter
            &&& failed.action == MacosRecoveryAction::RestartLocalTunnel
            &&& failed.state == restarting
            &&& failed.limiter == limiter
        }),
{
}

/// A socket that was bound anew is probed after a pause, a restarted tunnel at
/// once; neither is believed without that.
pub proof fn law_remedy_is_verified(
    limiter: LimiterView,
    lease: Seq<char>,
    attempt_unix: i64,
    retry: bool,
    now_unix: i64,
)
    ensures
        ({
            let rebound = recovery_step(
                MacosRecovery::Rebinding { attempt_unix },
                limiter,
                lease,
                MacosRecoveryEvent::Recovered(Ok(StalledDataPlaneRecoveryOutcome::Rebound)),
                now_unix,
            );
            let restarted = recovery_step(
                MacosRecovery::Restarting { retry, attempt_unix },
                limiter,
                lease,
                MacosRecoveryEvent::Recovered(Ok(StalledDataPlaneRecoveryOutcome::Reconnected)),
                now_unix,
            );
            &&& rebound.action == MacosRecoveryAction::PauseAndProbe
            &&& rebound.state == (MacosRecovery::CheckingRebind { attempt_unix })
            &&& rebound.limiter == limiter
            &&& restarted.action == MacosRecoveryAction::Probe
            &&& restarted.state == (MacosRecovery::CheckingRestart { retry, attempt_unix })
            &&& restarted.limiter == limiter
        }),
{
}

/// A tunnel that does not work while the direct path does is recovered: the
/// intent is asked, and where it does not take it over and the limit leaves
/// room, the socket is bound anew.
pub proof fn law_failed_tunnel_is_recovered(
    limiter: LimiterView,
    lease: Seq<char>,
    allow_uncertain_recovery: bool,
    now_unix: i64,
    later_unix: i64,
)
    ensures
        ({
            let asked = recovery_step(
                MacosRecovery::Classifying { allow_uncertain_recovery },
                limiter,
                lease,
                MacosRecoveryEvent::Probed { tunnel_ok: false, direct_ok: Some(true) },
                now_unix,
            );
            let begun = recovery_step(
                asked.state,
                asked.limiter,
                lease,
                MacosRecoveryEvent::IntentAsked { handled: false },
                later_unix,
            );
            &&& asked.action == MacosRecoveryAction::AskIntent
            &&& asked.state == MacosRecovery::AskingIntent
            &&& asked.limiter == limiter
            &&& attempt_allowed(limiter, lease, later_unix) ==> {
                &&& begun.action == MacosRecoveryAction::RebindUdp
                &&& begun.state == (MacosRecovery::Rebinding { attempt_unix: later_unix })
                &&& begun.limiter.lease_id == lease
                &&& begun.limiter.attempts == counting_attempts(limiter, lease, later_unix).push(
                    later_unix,
                )
            }
            &&& !attempt_allowed(limiter, lease, later_unix) ==> (
            begun.action matches MacosRecoveryAction::Finish(
                MacosStallRecoveryResult::RetryAt(_),
            ))
        }),
{
}

/// A probe that leaves the cause open is repeated the first time and taken for
/// a failed tunnel after that.
pub proof fn law_doubt_is_resolved_by_trying(
    limiter: LimiterView,
    lease: Seq<char>,
    direct_ok: Option<bool>,
    now_unix: i64,
)
    requires
        direct_ok != Some(true),
    ensures
        ({
            let event = MacosRecoveryEvent::Probed { tunnel_ok: false, direct_ok };
            let first = MacosRecovery::Classifying { allow_uncertain_recovery: false };
            let again = MacosRecovery::Classifying { allow_uncertain_recovery: true };
            &&& recovery_step(first, limiter, lease, event, now_unix).action
                == MacosRecoveryAction::Finish(MacosStallRecoveryResult::DirectProbeUnavailable)
            &&& recovery_step(again, limiter, lease, event, now_unix).action
                == MacosRecoveryAction::AskIntent
        }),
{
}

/// A stall that the intent takes over is left to it, with nothing counted.
pub proof fn law_intent_takes_a_stall_over(
    limiter: LimiterView,
    lease: Seq<char>,
    now_unix: i64,
)
    ensures
        ({
            let step = recovery_step(
                MacosRecovery::AskingIntent,
                limiter,
                lease,
                MacosRecoveryEvent::IntentAsked { handled: true },
                now_unix,
            );
            &&& step.action == MacosRecoveryAction::Finish(MacosStallRecoveryResult::Complete)
            &&& step.limiter == limiter
        }),
{
}

/// A tunnel that does not work after its restart is restarted once more where
/// the limit leaves room for that attempt, and is tried again later otherwise.
pub proof fn law_failed_restart_is_repeated_once(
    limiter: LimiterView,
    lease: Seq<char>,
    attempt_unix: i64,
    now_unix: i64,
)
    ensures
        ({
            let failed = MacosRecoveryEvent::Checked { tunnel_ok: false };
            let first = recovery_step(
                MacosRecovery::CheckingRestart { retry: false, attempt_unix },
                limiter,
                lease,
                failed,
                now_unix,
            );
            let second = recovery_step(
                MacosRecovery::CheckingRestart { retry: true, attempt_unix },
                limiter,
                lease,
                failed,
                now_unix,
            );
            &&& attempt_allowed(limiter, lease, now_unix) ==> {
                &&& first.action == MacosRecoveryAction::RestartLocalTunnel
                &&& first.state == (MacosRecovery::Restarting {
                    retry: true,
                    attempt_unix: now_unix,
                })
                &&& first.limiter.attempts == counting_attempts(limiter, lease, now_unix).push(
                    now_unix,
                )
            }
            &&& !attempt_allowed(limiter, lease, now_unix) ==> (
            first.action matches MacosRecoveryAction::Finish(MacosStallRecoveryResult::RetryAt(_)))
            &&& second.action matches MacosRecoveryAction::Finish(
                MacosStallRecoveryResult::RetryAt(_),
            )
            &&& second.limiter == limiter
        }),
{
}

/// A recovery that has to wait is tried again when the limit allows the next
/// attempt, or a minute later where the limit does not name a time.
pub proof fn law_refused_recovery_waits_for_the_limit(
    limiter: LimiterView,
    lease: Seq<char>,
    attempt_unix: i64,
    now_unix: i64,
)
    requires
        limiter.lease_id == lease,
        limiter.attempts.len() <= 2,
        now_unix <= i64::MAX - 60,
    ensures
        ({
            let second = recovery_step(
                MacosRecovery::CheckingRestart { retry: true, attempt_unix },
                limiter,
                lease,
                MacosRecoveryEvent::Checked { tunnel_ok: false },
                now_unix,
            );
            &&& second.action matches MacosRecoveryAction::Finish(
                MacosStallRecoveryResult::RetryAt(next),
            )
            &&& limiter.attempts.len() < 2 ==> next == now_unix + 60
            &&& limiter.attempts.len() == 2 && limiter.attempts[0] + 600 <= i64::MAX ==> next
                == limiter.attempts[0] + 600
        }),
        !attempt_allowed(limiter, lease, now_unix) && limiter.attempts[0] + 600 <= i64::MAX ==> ({
            let asked = recovery_step(
                MacosRecovery::AskingIntent,
                limiter,
                lease,
                MacosRecoveryEvent::IntentAsked { handled: false },
                now_unix,
            );
            let first = recovery_step(
                MacosRecovery::CheckingRestart { retry: false, attempt_unix },
                limiter,
                lease,
                MacosRecoveryEvent::Checked { tunnel_ok: false },
                now_unix,
            );
            let later = MacosStallRecoveryResult::RetryAt((limiter.attempts[0] + 600) as i64);
            &&& asked.action == MacosRecoveryAction::Finish(later)
            &&& asked.limiter == limiter
            &&& first.action == MacosRecoveryAction::Finish(later)
            &&& first.limiter == limiter
        }),
{
    reveal_with_fuel(crate::connection_metrics::unexpired, 3);
}

/// An attempt that the core did not make is given back: the limit is what it
/// was before, a busy core is asked again and a connection that is another one
/// by now is left alone.
pub proof fn law_attempt_that_was_not_made_is_given_back(
    limiter: LimiterView,
    lease: Seq<char>,
    now_unix: i64,
    later_unix: i64,
)
    requires
        attempt_allowed(limiter, lease, now_unix),
    ensures
        ({
            let begun = recovery_step(
                MacosRecovery::AskingIntent,
                limiter,
                lease,
                MacosRecoveryEvent::IntentAsked { handled: false },
                now_unix,
            );
            let busy = recovery_step(
                begun.state,
                begun.limiter,
                lease,
                MacosRecoveryEvent::Recovered(Ok(StalledDataPlaneRecoveryOutcome::Busy)),
                later_unix,
            );
            let skipped = recovery_step(
                begun.state,
                begun.limiter,
                lease,
                MacosRecoveryEvent::Recovered(Ok(StalledDataPlaneRecoveryOutcome::Skipped)),
                later_unix,
            );
            &&& busy.action == MacosRecoveryAction::Finish(MacosStallRecoveryResult::Retry)
            &&& skipped.action == MacosRecoveryAction::Finish(MacosStallRecoveryResult::Complete)
            &&& busy.limiter.attempts == counting_attempts(limiter, lease, now_unix)
            &&& skipped.limiter.attempts == counting_attempts(limiter, lease, now_unix)
        }),
{
    let counting = counting_attempts(limiter, lease, now_unix);
    assert(counting.push(now_unix).drop_last() =~= counting);
}

/// A restart that the core did not make is given back too; one that failed is
/// tried again, and keeps its count.
pub proof fn law_restart_that_was_not_made_is_given_back(
    limiter: LimiterView,
    lease: Seq<char>,
    retry: bool,
    attempt_unix: i64,
    error: String,
    now_unix: i64,
)
    requires
        limiter.lease_id == lease,
        limiter.attempts.len() > 0,
        limiter.attempts.last() == attempt_unix,
    ensures
        ({
            let state = MacosRecovery::Restarting { retry, attempt_unix };
            let busy = recovery_step(
                state,
                limiter,
                lease,
                MacosRecoveryEvent::Recovered(Ok(StalledDataPlaneRecoveryOutcome::Busy)),
                now_unix,
            );
            let skipped = recovery_step(
                state,
                limiter,
                lease,
                MacosRecoveryEvent::Recovered(Ok(StalledDataPlaneRecoveryOutcome::Skipped)),
                now_unix,
            );
            let failed = recovery_step(
                state,
                limiter,
                lease,
                MacosRecoveryEvent::Recovered(Err(error)),
                now_unix,
            );
            &&& busy.action == MacosRecoveryAction::Finish(MacosStallRecoveryResult::Retry)
            &&& busy.limiter.attempts == limiter.attempts.drop_last()
            &&& skipped.action == MacosRecoveryAction::Finish(MacosStallRecoveryResult::Complete)
            &&& skipped.limiter.attempts == limiter.attempts.drop_last()
            &&& failed.action == MacosRecoveryAction::Finish(MacosStallRecoveryResult::Retry)
            &&& failed.limiter == limiter
        }),
{
}

/// What is noted of a recovery says what has happened: how the stall was
/// classified, what was tried, that it was verified or failed, and why it was
/// skipped.
pub proof fn law_recovery_is_noted(
    state: MacosRecovery,
    limiter: LimiterView,
    lease: Seq<char>,
    event: MacosRecoveryEvent,
    now_unix: i64,
)
    requires
        expects(state, event),
    ensures
        ({
            let notes = recovery_step(state, limiter, lease, event, now_unix).records;
            match (state, event) {
                (_, MacosRecoveryEvent::Probed { tunnel_ok, direct_ok }) => {
                    &&& notes.len() > 0
                    &&& notes[0] == note(
                        "tunnel.stall.classified"@,
                        Some(
                            if tunnel_ok {
                                "recovered_before_probe"@
                            } else if direct_ok == Some(true) {
                                "tunnel_path_failed_direct_ok"@
                            } else if direct_ok == Some(false) {
                                "physical_path_failed"@
                            } else {
                                "ambiguous"@
                            },
                        ),
                    )
                },
                (_, MacosRecoveryEvent::IntentAsked { handled }) => if handled || attempt_allowed(
                    limiter,
                    lease,
                    now_unix,
                ) {
                    notes.len() == 0
                } else {
                    notes == seq![note("tunnel.stall.recovery_skipped"@, Some("rate_limited"@))]
                },
                (MacosRecovery::CheckingRebind { .. }, MacosRecoveryEvent::Checked { tunnel_ok }) => {
                    if tunnel_ok {
                        notes == seq![note("tunnel.stall.recovered_after_rebind"@, None)]
                    } else {
                        notes.len() == 0
                    }
                },
                (
                    MacosRecovery::CheckingRestart { retry, .. },
                    MacosRecoveryEvent::Checked { tunnel_ok },
                ) => if tunnel_ok {
                    notes == seq![
                        note(
                            "tunnel.stall.local_tunnel_restarted"@,
                            Some(
                                if retry {
                                    "verified_retry"@
                                } else {
                                    "verified_first_attempt"@
                                },
                            ),
                        ),
                    ]
                } else {
                    &&& notes.len() > 0
                    &&& notes[0] == note(
                        "tunnel.stall.local_restart_verification_failed"@,
                        Some(
                            if retry {
                                "retry"@
                            } else {
                                "first_attempt"@
                            },
                        ),
                    )
                },
                (
                    MacosRecovery::Rebinding { .. },
                    MacosRecoveryEvent::Recovered(outcome),
                ) => notes == (match outcome {
                    Ok(StalledDataPlaneRecoveryOutcome::Rebound) => seq![
                        note("tunnel.stall.udp_rebound"@, None),
                    ],
                    Ok(StalledDataPlaneRecoveryOutcome::Busy) => seq![
                        note("tunnel.stall.recovery_skipped"@, Some("connection_busy"@)),
                    ],
                    Ok(StalledDataPlaneRecoveryOutcome::Skipped) => seq![
                        note("tunnel.stall.recovery_skipped"@, Some("connection_changed"@)),
                    ],
                    Ok(StalledDataPlaneRecoveryOutcome::Unsupported) => seq![
                        note("tunnel.stall.udp_rebind_unavailable"@, None),
                    ],
                    Ok(StalledDataPlaneRecoveryOutcome::Reconnected) => Seq::<RecordView>::empty(),
                    Err(error) => seq![note("tunnel.stall.udp_rebind_failed"@, Some(error@))],
                }),
                (_, MacosRecoveryEvent::Recovered(outcome)) => match outcome {
                    Ok(StalledDataPlaneRecoveryOutcome::Reconnected) => notes.len() == 0,
                    Err(error) => notes == seq![
                        note("tunnel.stall.local_restart_failed"@, Some(error@)),
                    ],
                    Ok(other) => notes == seq![
                        note(
                            "tunnel.stall.local_restart_skipped"@,
                            Some(
                                match other {
                                    StalledDataPlaneRecoveryOutcome::Busy => "busy"@,
                                    StalledDataPlaneRecoveryOutcome::Skipped =>
                                        "connection_changed"@,
                                    StalledDataPlaneRecoveryOutcome::Rebound =>
                                        "unexpected_rebound"@,
                                    _ => "unsupported"@,
                                },
                            ),
                        ),
                    ],
                },
                _ => true,
            }
        }),
{
}

/// A stall that was detected is tried at once, traffic that came back ends the
/// matter, and in between an attempt is made when its time has come.
pub proof fn law_attempt_follows_the_reading(
    episode: EpisodeView,
    lease: Seq<char>,
    now_unix: i64,
)
    ensures
        attempt_wanted(episode, lease, TunnelMetricsObservation::Detected, now_unix),
        !attempt_wanted(episode, lease, TunnelMetricsObservation::Recovered, now_unix),
        attempt_wanted(episode, lease, TunnelMetricsObservation::Unchanged, now_unix)
            <==> episode.lease_id == lease && episode.pending && (
        episode.next_attempt_at_unix matches Some(next) ==> next <= now_unix),
        ({
            let begun = episode_after_reading(episode, lease, TunnelMetricsObservation::Detected);
            &&& begun.lease_id == lease
            &&& begun.pending
            &&& begun.retry_count == 0
            &&& begun.direct_probe_failures == 0
            &&& begun.next_attempt_at_unix is None
        }),
        !episode_after_reading(episode, lease, TunnelMetricsObservation::Recovered).pending,
        episode.lease_id == lease ==> episode_after_reading(
            episode,
            lease,
            TunnelMetricsObservation::Unchanged,
        ) == episode,
{
}

/// A recovery that did not succeed is tried again after five seconds, then
/// fifteen, then a minute each; a failed direct probe is remembered, a time that
/// was named is kept, and success ends the episode.
pub proof fn law_retries_come_ever_more_seldom(
    episode: EpisodeView,
    result: MacosStallRecoveryResult,
    now_unix: i64,
)
    requires
        now_unix <= i64::MAX - 60,
        episode.retry_count < u8::MAX,
        episode.direct_probe_failures < u8::MAX,
    ensures
        ({
            let after = episode_after_attempt(episode, result, now_unix);
            &&& after.lease_id == episode.lease_id
            &&& match result {
                MacosStallRecoveryResult::Complete => {
                    &&& !after.pending
                    &&& after.retry_count == 0
                    &&& after.direct_probe_failures == 0
                    &&& after.next_attempt_at_unix is None
                },
                MacosStallRecoveryResult::RetryAt(next) => {
                    &&& after.pending
                    &&& after.next_attempt_at_unix == Some(next)
                    &&& after.retry_count == episode.retry_count
                    &&& after.direct_probe_failures == episode.direct_probe_failures
                },
                _ => {
                    &&& after.pending
                    &&& after.retry_count == episode.retry_count + 1
                    &&& after.direct_probe_failures - episode.direct_probe_failures == (if result
                        == MacosStallRecoveryResult::DirectProbeUnavailable {
                        1int
                    } else {
                        0
                    })
                    &&& after.next_attempt_at_unix matches Some(next)
                    &&& next - now_unix == (if episode.retry_count == 0 {
                        5int
                    } else if episode.retry_count == 1 {
                        15
                    } else {
                        60
                    })
                },
            }
        }),
{
}

} // verus!
