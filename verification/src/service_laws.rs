//! What holds around a connection that is up: how often it is read, what is
//! done when the service that runs it does not answer, and how it is stopped.
use crate::commands::{application_error, is_repairable_stop, is_service_error};
use crate::connection_commands::{
    needs_stop, repairable_tunnel_stop, starts_on_toggle, stop_step, toggle_refusal, ConnectionStop,
    StopOutcomeView, StopStage,
};
use crate::connection_metrics::{attempt_allowed, counting_attempts, LimiterView};
use crate::core_state::{Connection, CoreState, Layer, Phase};
use crate::errors::{ApplicationError, CoreError, TunnelError};
use crate::metrics_scheduler::{
    after_observation, after_tick, idle, outage_relevant, recovery_wanted, tick_of, ClientPlatform,
    SchedulerView,
};
use crate::service_recovery::{
    is_outage, is_route_failure, no_outage, outage_after_poll, outcome_refunds, outcome_text,
    poll_due, service_step, WindowsServiceAction, WindowsServiceEvent, WindowsServiceRecovery,
};
use crate::stall_recovery::{note, StalledDataPlaneRecoveryOutcome, TunnelMetricsObservation};
use crate::tunnel::TunnelStatus;
use vstd::prelude::*;

verus! {

/// A tunnel that has ended is restarted where the limit leaves room, and that
/// attempt is counted. One that runs needs nothing, and one that is between two
/// states, or whose state is not known, is watched on. Neither is counted.
pub proof fn law_ended_tunnel_is_restarted(
    limiter: LimiterView,
    lease: Seq<char>,
    status: Result<TunnelStatus, String>,
    first_failure: bool,
    now_unix: i64,
)
    ensures
        ({
            let state = WindowsServiceRecovery::CheckingStatus { first_failure };
            let step = service_step(
                state,
                limiter,
                lease,
                WindowsServiceEvent::Status(status),
                now_unix,
            );
            match status {
                Ok(TunnelStatus::Stopped) | Ok(TunnelStatus::Failed) => if attempt_allowed(
                    limiter,
                    lease,
                    now_unix,
                ) {
                    &&& step.action == WindowsServiceAction::RestartLocalTunnel
                    &&& step.state == (WindowsServiceRecovery::Restarting {
                        attempt_unix: now_unix,
                    })
                    &&& step.limiter.lease_id == lease
                    &&& step.limiter.attempts == counting_attempts(limiter, lease, now_unix).push(
                        now_unix,
                    )
                    &&& step.records.len() == 0
                } else {
                    &&& step.action == (WindowsServiceAction::Finish { pending: false })
                    &&& step.limiter.attempts == counting_attempts(limiter, lease, now_unix)
                    &&& step.records == seq![
                        note("windows.service.local_restart_skipped"@, Some("rate_limited"@)),
                    ]
                },
                Ok(TunnelStatus::Running) => {
                    &&& step.action == (WindowsServiceAction::Finish { pending: false })
                    &&& step.limiter == limiter
                    &&& step.records.len() == (if first_failure {
                        1int
                    } else {
                        0
                    })
                    &&& first_failure ==> step.records[0] == note(
                        "windows.service.status_running_after_metrics_failure"@,
                        None,
                    )
                },
                Ok(_) => {
                    &&& step.action == (WindowsServiceAction::Finish { pending: true })
                    &&& step.limiter == limiter
                    &&& step.records.len() == 0
                },
                Err(error) => {
                    &&& step.action == (WindowsServiceAction::Finish { pending: true })
                    &&& step.limiter == limiter
                    &&& step.records.len() == (if first_failure {
                        1int
                    } else {
                        0
                    })
                    &&& first_failure ==> step.records[0] == note(
                        "windows.service.recovery_waiting"@,
                        Some(error@),
                    )
                },
            }
        }),
{
}

/// A restart ends the recovery; only one that failed is watched on. What the
/// core has not done is given back, everything else stays counted, and either
/// is noted.
pub proof fn law_restart_of_the_service_ends_the_recovery(
    limiter: LimiterView,
    lease: Seq<char>,
    outcome: Result<StalledDataPlaneRecoveryOutcome, String>,
    attempt_unix: i64,
    now_unix: i64,
)
    requires
        limiter.lease_id == lease,
        limiter.attempts.len() > 0,
        limiter.attempts.last() == attempt_unix,
    ensures
        ({
            let step = service_step(
                WindowsServiceRecovery::Restarting { attempt_unix },
                limiter,
                lease,
                WindowsServiceEvent::Restarted(outcome),
                now_unix,
            );
            &&& step.action == (WindowsServiceAction::Finish { pending: outcome is Err })
            &&& step.limiter.attempts == (match outcome {
                Ok(StalledDataPlaneRecoveryOutcome::Busy)
                | Ok(StalledDataPlaneRecoveryOutcome::Skipped) => limiter.attempts.drop_last(),
                _ => limiter.attempts,
            })
            &&& step.records == seq![
                match outcome {
                    Ok(StalledDataPlaneRecoveryOutcome::Reconnected) => note(
                        "windows.service.local_tunnel_restarted"@,
                        None,
                    ),
                    Ok(StalledDataPlaneRecoveryOutcome::Busy) => note(
                        "windows.service.local_restart_skipped"@,
                        Some("busy"@),
                    ),
                    Ok(StalledDataPlaneRecoveryOutcome::Skipped) => note(
                        "windows.service.local_restart_skipped"@,
                        Some("connection_changed"@),
                    ),
                    Ok(StalledDataPlaneRecoveryOutcome::Unsupported) => note(
                        "windows.service.local_restart_skipped"@,
                        Some("unsupported"@),
                    ),
                    Ok(StalledDataPlaneRecoveryOutcome::Rebound) => note(
                        "windows.service.local_restart_skipped"@,
                        Some("unexpected_rebound"@),
                    ),
                    Err(error) => note("windows.service.local_restart_failed"@, Some(error@)),
                },
            ]
        }),
{
}

/// Only a service that does not answer, and a route that was lost, are outages.
pub proof fn law_outage_is_told_by_its_code(code: String)
    ensures
        is_outage(TunnelError::Backend(code)) <==> code@ == "service_unavailable"@ || code@
            == "service_timeout"@,
        is_route_failure(TunnelError::Backend(code)) <==> code@ == "endpoint_route_lost"@ || code@
            == "endpoint_route_unavailable"@,
        !is_outage(TunnelError::InvalidOptions { code }),
        !is_route_failure(TunnelError::InvalidOptions { code }),
{
}

/// An outage is looked at as soon as it is seen, at every turn while it is
/// watched, and otherwise again after ten seconds; without one nothing is done.
pub proof fn law_outage_is_looked_at_again(pending: bool, seen_unix: i64, now_unix: i64)
    requires
        seen_unix <= i64::MAX - 10,
    ensures
        poll_due(no_outage(), true, now_unix),
        !poll_due(outage_after_poll(pending, seen_unix), false, now_unix),
        poll_due(outage_after_poll(pending, seen_unix), true, now_unix) <==> pending || now_unix
            >= seen_unix + 10,
        outage_after_poll(pending, seen_unix) != no_outage(),
{
}

/// A session is due a record of its diagnostics at its first turn, and from a
/// minute after the last one on. The counters are read where they are shown,
/// where that record is due and always on a desktop; the address of the tunnel's
/// end is asked for on a Mac that is on a stray.
pub proof fn law_turn_reads_what_is_needed(
    scheduler: SchedulerView,
    session: Seq<char>,
    layer: Layer,
    observed: bool,
    now_nanos: u64,
)
    ensures
        ({
            let tick = tick_of(scheduler, session, layer, observed, now_nanos);
            let due = scheduler.last_diagnostics_session != Some(session) || (
            scheduler.last_diagnostics_at_nanos matches Some(last) ==> now_nanos - last
                >= 60_000_000_000);
            &&& tick.diagnostics_due == due
            &&& tick.poll == (observed || due || scheduler.platform != ClientPlatform::Android)
            &&& tick.collect_probe_target == (scheduler.platform == ClientPlatform::Macos && layer
                == Layer::Stray)
        }),
{
}

/// A turn of the session that is known keeps everything that was read and tried
/// of it; only the time of the record moves, where one was due. A turn that
/// reads nothing changes nothing.
pub proof fn law_turn_keeps_the_session(
    scheduler: SchedulerView,
    session: Seq<char>,
    layer: Layer,
    observed: bool,
    now_nanos: u64,
)
    requires
        scheduler.last_diagnostics_session == Some(session),
    ensures
        ({
            let tick = tick_of(scheduler, session, layer, observed, now_nanos);
            let after = after_tick(scheduler, session, tick, now_nanos);
            &&& after.platform == scheduler.platform
            &&& after.failure_recorded == scheduler.failure_recorded
            &&& after.last_diagnostics_session == Some(session)
            &&& after.last_diagnostics_sample == scheduler.last_diagnostics_sample
            &&& after.last_incident_sample == scheduler.last_incident_sample
            &&& after.skipped_probe_session == scheduler.skipped_probe_session
            &&& after.limiter == scheduler.limiter
            &&& after.macos_stall_recovery == scheduler.macos_stall_recovery
            &&& after.windows_service_recovery == scheduler.windows_service_recovery
            &&& after.last_diagnostics_at_nanos == (if tick.diagnostics_due {
                Some(now_nanos)
            } else {
                scheduler.last_diagnostics_at_nanos
            })
        }),
{
}

/// A stall is recovered from on a Mac that is on a stray, and nowhere else; the
/// rest of what the turns keep is not touched by that.
pub proof fn law_stall_is_recovered_on_a_mac_alone(
    scheduler: SchedulerView,
    session: Seq<char>,
    layer: Layer,
    observation: Option<TunnelMetricsObservation>,
    now_unix: i64,
)
    ensures
        ({
            let concerned = scheduler.platform == ClientPlatform::Macos && layer == Layer::Stray;
            let after = after_observation(scheduler, session, layer, observation);
            &&& recovery_wanted(scheduler, session, layer, observation, now_unix) ==> concerned
                && observation is Some && observation != Some(TunnelMetricsObservation::Recovered)
            &&& concerned && observation == Some(TunnelMetricsObservation::Detected)
                ==> recovery_wanted(scheduler, session, layer, observation, now_unix)
                && after.macos_stall_recovery.pending && after.macos_stall_recovery.lease_id
                == session
            &&& observation is None && concerned ==> after == scheduler
            &&& scheduler.platform != ClientPlatform::Macos ==> after == scheduler
            &&& scheduler.platform == ClientPlatform::Macos && layer != Layer::Stray
                ==> !after.macos_stall_recovery.pending
            &&& after.limiter == scheduler.limiter
            &&& after.last_incident_sample == scheduler.last_incident_sample
            &&& after.last_diagnostics_sample == scheduler.last_diagnostics_sample
            &&& after.last_diagnostics_session == scheduler.last_diagnostics_session
            &&& after.windows_service_recovery == scheduler.windows_service_recovery
        }),
{
}

/// Without a connection nothing is kept: no reading, no attempt, no episode and
/// no failure that was noted.
pub proof fn law_nothing_is_kept_without_a_connection(platform: ClientPlatform)
    ensures
        ({
            let nothing = idle(platform);
            &&& nothing.platform == platform
            &&& !nothing.failure_recorded
            &&& nothing.last_diagnostics_at_nanos is None
            &&& nothing.last_diagnostics_session is None
            &&& nothing.last_diagnostics_sample is None
            &&& nothing.last_incident_sample is None
            &&& nothing.skipped_probe_session is None
            &&& nothing.limiter.attempts.len() == 0
            &&& !nothing.macos_stall_recovery.pending
            &&& nothing.macos_stall_recovery.retry_count == 0
            &&& !nothing.windows_service_recovery.pending
            &&& nothing.windows_service_recovery.next_poll_at_unix is None
        }),
{
}

/// A failed reading concerns the service where it tells of an outage or of a
/// lost route, and any failure does while an outage is watched.
pub proof fn law_failure_concerns_the_service(scheduler: SchedulerView, error: TunnelError)
    ensures
        ({
            let watched = scheduler.windows_service_recovery.pending
                || scheduler.windows_service_recovery.next_poll_at_unix is Some;
            let told = error matches TunnelError::Backend(code) && (code@ == "service_unavailable"@
                || code@ == "service_timeout"@ || code@ == "endpoint_route_lost"@ || code@
                == "endpoint_route_unavailable"@);
            outage_relevant(scheduler, error) <==> watched || told
        }),
{
}

/// A connection that the core has stopped is stopped, at the first try or the
/// second. A service that fails at the first is repaired; nothing to stop is in
/// order where a start was called off; every other failure is the answer.
pub proof fn law_stop_is_answered(
    stop: ConnectionStop,
    result: Result<Connection, ApplicationError>,
)
    requires
        stop.stage != StopStage::Preparing,
    ensures
        ({
            let (after, outcome) = stop_step(stop, result);
            let first = stop.stage == StopStage::Stopping;
            match result {
                Ok(connection) => outcome == StopOutcomeView::Stopped(connection) && after == stop,
                Err(error) => {
                    let missing = error == ApplicationError::Core(
                        CoreError::SavedConnectionUnavailable,
                    );
                    let repairable = error matches ApplicationError::Core(CoreError::Tunnel(code))
                        && is_service_error(code@);
                    &&& outcome == StopOutcomeView::NothingToStop <==> first
                        && stop.tolerate_missing && missing
                    &&& outcome == StopOutcomeView::Continue <==> first && repairable
                    &&& outcome == StopOutcomeView::Continue ==> after.stage
                        == StopStage::Preparing && after.tolerate_missing == stop.tolerate_missing
                    &&& !(first && (repairable || stop.tolerate_missing && missing)) ==> outcome
                        == StopOutcomeView::Failed(application_error(error)) && after == stop
                },
            }
        }),
{
}

/// Which failures tell that the service itself has to be repaired, by the core
/// and by the tunnel alike.
pub proof fn law_service_failure_is_repairable(code: String)
    ensures
        is_repairable_stop(ApplicationError::Core(CoreError::Tunnel(code))) == is_service_error(
            code@,
        ),
        repairable_tunnel_stop(TunnelError::Backend(code)) == is_service_error(code@),
        !repairable_tunnel_stop(TunnelError::InvalidOptions { code }),
        is_service_error("service_unavailable"@),
        is_service_error("service_timeout"@),
        is_service_error("service_outdated"@),
        is_service_error("service_stopping"@),
        is_service_error(code@) ==> code@ == "service_unavailable"@ || code@ == "service_timeout"@
            || code@ == "tunnel_service_unavailable"@ || code@ == "tunnel_service_timeout"@ || code@
            == "service_outdated"@ || code@ == "service_stopping"@ || code@ == "udp_rebind_failed"@
            || code@ == "udp_rebind_timeout"@ || code@ == "unsupported_protocol"@ || code@
            == "unauthorized_client"@ || code@ == "truncated_frame"@ || code@
            == "missing_service_version"@,
{
}

/// Before the application ends, everything is stopped that is up, coming up or
/// going down, or that was wanted; an idle core is left alone.
pub proof fn law_nothing_is_left_running(state: CoreState, intent_cancelled: bool)
    ensures
        intent_cancelled ==> needs_stop(state, intent_cancelled),
        state.connection is Some ==> needs_stop(state, intent_cancelled),
        state.phase == Phase::Connected || state.phase == Phase::Connecting || state.phase
            == Phase::Stopping ==> needs_stop(state, intent_cancelled),
        !intent_cancelled && state.connection is None && state.phase != Phase::Connected
            && state.phase != Phase::Connecting && state.phase != Phase::Stopping ==> !needs_stop(
            state,
            intent_cancelled,
        ),
{
}

/// A toggle starts where the client is ready, or was before something failed;
/// elsewhere it says what is in the way, each with its own code.
pub proof fn law_toggle_starts_where_nothing_is_in_the_way(phase: Phase)
    ensures
        starts_on_toggle(phase) <==> phase == Phase::Ready || phase == Phase::Error || phase
            == Phase::ServerUnavailable,
        toggle_refusal(phase).code == (match phase {
            Phase::SignedOut => "signed_out"@,
            Phase::NeedsPeerBinding => "peer_binding_required"@,
            Phase::AccessExpired => "access_expired"@,
            Phase::UpdateRequired => "update_required"@,
            _ => "connection_busy"@,
        }),
{
}

/// A toggle that can do nothing says why as everything else does that meets the
/// same: that someone has to sign in, that access has expired, that an update
/// is due. A peer has to be chosen first, and what is under way has to end.
pub proof fn law_refused_toggle_says_why(phase: Phase)
    ensures
        toggle_refusal(Phase::SignedOut) == crate::commands::core_error(CoreError::SignedOut),
        toggle_refusal(Phase::AccessExpired) == crate::commands::core_error(
            CoreError::AccessExpired,
        ),
        toggle_refusal(Phase::UpdateRequired) == crate::commands::core_error(
            CoreError::UpdateRequired,
        ),
        toggle_refusal(Phase::NeedsPeerBinding) == crate::commands::error_text(
            "peer_binding_required"@,
            "Сначала выберите пир в приложении"@,
        ),
        phase != Phase::SignedOut && phase != Phase::AccessExpired && phase != Phase::UpdateRequired
            && phase != Phase::NeedsPeerBinding ==> toggle_refusal(phase)
            == crate::commands::error_text(
            "connection_busy"@,
            "Дождитесь завершения текущего действия"@,
        ),
{
}

/// What came of a restart is noted under a name of its own; only an attempt
/// that never reached the tunnel is given back.
pub proof fn law_outcome_of_a_restart_has_its_name(outcome: StalledDataPlaneRecoveryOutcome)
    ensures
        outcome_text(StalledDataPlaneRecoveryOutcome::Busy) == "busy"@,
        outcome_text(StalledDataPlaneRecoveryOutcome::Skipped) == "connection_changed"@,
        outcome_text(StalledDataPlaneRecoveryOutcome::Unsupported) == "unsupported"@,
        outcome_text(StalledDataPlaneRecoveryOutcome::Rebound) == "unexpected_rebound"@,
        outcome_text(StalledDataPlaneRecoveryOutcome::Reconnected) == "reconnected"@,
        outcome_refunds(outcome) <==> outcome == StalledDataPlaneRecoveryOutcome::Busy || outcome
            == StalledDataPlaneRecoveryOutcome::Skipped,
{
}

} // verus!
