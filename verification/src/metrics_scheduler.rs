//! The loop that reads the counters of the tunnel once a second: when it
//! reads, what it keeps from one reading to the next, and what it notes.
use crate::connection_metrics::{LimiterView, StallRecoveryLimiter};
use crate::core_state::Layer;
use crate::errors::TunnelError;
use crate::service_recovery::{
    WindowsServiceRecoveryEpisode, should_attempt_windows_service_recovery,
};
use crate::stall_recovery::{EpisodeView, MacosStallRecoveryEpisode, TunnelMetricsObservation};
use crate::text::same_text;
use crate::tunnel::TunnelMetrics;
use vstd::prelude::*;

verus! {

/// How far apart two diagnostic records of one session are, in nanoseconds.
pub const CONNECTION_DIAGNOSTICS_INTERVAL_NANOS: u64 = 60_000_000_000;

/// The system that the client runs on.
#[derive(Clone, Copy, Debug, PartialEq, Eq, Structural)]
pub enum ClientPlatform {
    Android,
    Linux,
    Macos,
    Windows,
}

impl ClientPlatform {
    pub open spec fn desktop(self) -> bool {
        self != ClientPlatform::Android
    }

    pub fn is_desktop(&self) -> (desktop: bool)
        ensures
            desktop == self.desktop(),
    {
        match self {
            ClientPlatform::Android => false,
            _ => true,
        }
    }
}

pub open spec fn diagnostics_due(
    previous_session: Option<Seq<char>>,
    current_session: Seq<char>,
    previous_attempt_nanos: Option<u64>,
    now_nanos: u64,
) -> bool {
    ||| previous_session != Some(current_session)
    ||| (previous_attempt_nanos matches Some(attempt) ==> now_nanos - attempt
        >= CONNECTION_DIAGNOSTICS_INTERVAL_NANOS)
}

/// Whether the session has changed or a minute has passed since the last
/// record; times are those of a monotonic clock, in nanoseconds.
pub fn connection_diagnostics_due(
    previous_session: Option<&str>,
    current_session: &str,
    previous_attempt_nanos: Option<u64>,
    now_nanos: u64,
) -> (due: bool)
    ensures
        due == diagnostics_due(
            match previous_session {
                Some(session) => Some(session@),
                None => None,
            },
            current_session@,
            previous_attempt_nanos,
            now_nanos,
        ),
{
    let same_session = match previous_session {
        Some(session) => same_text(session, current_session),
        None => false,
    };
    !same_session || match previous_attempt_nanos {
        Some(attempt) => now_nanos.saturating_sub(attempt)
            >= CONNECTION_DIAGNOSTICS_INTERVAL_NANOS,
        None => true,
    }
}

pub fn connection_metrics_poll_required(
    observed: bool,
    diagnostics_due: bool,
    endpoint_route_guard: bool,
    incident_sampling: bool,
) -> (required: bool)
    ensures
        required == (observed || diagnostics_due || endpoint_route_guard || incident_sampling),
{
    observed || diagnostics_due || endpoint_route_guard || incident_sampling
}

/// What one turn of the loop is to do.
#[derive(Clone, Copy, Debug, PartialEq, Eq, Structural)]
pub struct MetricsTick {
    pub poll: bool,
    pub diagnostics_due: bool,
    pub collect_probe_target: bool,
}

/// What follows from a failed reading on Windows.
#[derive(Clone, Copy, Debug, PartialEq, Eq, Structural)]
pub enum ServiceOutage {
    Ignored,
    Recover { first_outage: bool },
}

/// What the loop keeps.
pub struct MetricsScheduler {
    pub platform: ClientPlatform,
    pub failure_recorded: bool,
    pub last_diagnostics_at_nanos: Option<u64>,
    pub last_diagnostics_session: Option<String>,
    pub last_diagnostics_sample: Option<TunnelMetrics>,
    pub last_incident_sample: Option<TunnelMetrics>,
    pub skipped_probe_session: Option<String>,
    pub limiter: StallRecoveryLimiter,
    pub macos_stall_recovery: MacosStallRecoveryEpisode,
    pub windows_service_recovery: WindowsServiceRecoveryEpisode,
}

#[verifier::ext_equal]
pub struct SchedulerView {
    pub platform: ClientPlatform,
    pub failure_recorded: bool,
    pub last_diagnostics_at_nanos: Option<u64>,
    pub last_diagnostics_session: Option<Seq<char>>,
    pub last_diagnostics_sample: Option<TunnelMetrics>,
    pub last_incident_sample: Option<TunnelMetrics>,
    pub skipped_probe_session: Option<Seq<char>>,
    pub limiter: LimiterView,
    pub macos_stall_recovery: EpisodeView,
    pub windows_service_recovery: WindowsServiceRecoveryEpisode,
}

impl View for MetricsScheduler {
    type V = SchedulerView;

    open spec fn view(&self) -> SchedulerView {
        SchedulerView {
            platform: self.platform,
            failure_recorded: self.failure_recorded,
            last_diagnostics_at_nanos: self.last_diagnostics_at_nanos,
            last_diagnostics_session: crate::text::text_of(self.last_diagnostics_session),
            last_diagnostics_sample: self.last_diagnostics_sample,
            last_incident_sample: self.last_incident_sample,
            skipped_probe_session: crate::text::text_of(self.skipped_probe_session),
            limiter: self.limiter@,
            macos_stall_recovery: self.macos_stall_recovery@,
            windows_service_recovery: self.windows_service_recovery,
        }
    }
}

/// The state in which no connection is up.
pub open spec fn idle(platform: ClientPlatform) -> SchedulerView {
    SchedulerView {
        platform,
        failure_recorded: false,
        last_diagnostics_at_nanos: None,
        last_diagnostics_session: None,
        last_diagnostics_sample: None,
        last_incident_sample: None,
        skipped_probe_session: None,
        limiter: crate::connection_metrics::no_attempts(),
        macos_stall_recovery: crate::stall_recovery::no_episode(Seq::empty()),
        windows_service_recovery: crate::service_recovery::no_outage(),
    }
}

/// What a session is due.
pub open spec fn tick_of(
    scheduler: SchedulerView,
    session: Seq<char>,
    layer: Layer,
    observed: bool,
    now_nanos: u64,
) -> MetricsTick {
    let due = diagnostics_due(
        scheduler.last_diagnostics_session,
        session,
        scheduler.last_diagnostics_at_nanos,
        now_nanos,
    );
    MetricsTick {
        poll: observed || due || scheduler.platform.desktop(),
        diagnostics_due: due,
        collect_probe_target: scheduler.platform == ClientPlatform::Macos && layer
            == Layer::Stray,
    }
}

/// The state with everything forgotten that belongs to one session.
pub open spec fn session_forgotten(scheduler: SchedulerView) -> SchedulerView {
    SchedulerView {
        failure_recorded: false,
        last_diagnostics_sample: None,
        last_incident_sample: None,
        limiter: crate::connection_metrics::no_attempts(),
        macos_stall_recovery: crate::stall_recovery::no_episode(Seq::empty()),
        windows_service_recovery: crate::service_recovery::no_outage(),
        ..scheduler
    }
}

pub open spec fn after_tick(
    scheduler: SchedulerView,
    session: Seq<char>,
    tick: MetricsTick,
    now_nanos: u64,
) -> SchedulerView {
    if !tick.poll {
        scheduler
    } else {
        let current = if scheduler.last_diagnostics_session == Some(session) {
            scheduler
        } else {
            session_forgotten(scheduler)
        };
        if tick.diagnostics_due {
            SchedulerView {
                last_diagnostics_at_nanos: Some(now_nanos),
                last_diagnostics_session: Some(session),
                ..current
            }
        } else {
            current
        }
    }
}

/// Whether a stall is to be recovered from after a reading.
pub open spec fn recovery_wanted(
    scheduler: SchedulerView,
    session: Seq<char>,
    layer: Layer,
    observation: Option<TunnelMetricsObservation>,
    now_unix: i64,
) -> bool {
    &&& scheduler.platform == ClientPlatform::Macos
    &&& layer == Layer::Stray
    &&& observation matches Some(observed)
    &&& crate::stall_recovery::attempt_wanted(
        scheduler.macos_stall_recovery,
        session,
        observed,
        now_unix,
    )
}

pub open spec fn after_observation(
    scheduler: SchedulerView,
    session: Seq<char>,
    layer: Layer,
    observation: Option<TunnelMetricsObservation>,
) -> SchedulerView {
    if scheduler.platform != ClientPlatform::Macos {
        scheduler
    } else if layer != Layer::Stray {
        SchedulerView {
            macos_stall_recovery: crate::stall_recovery::no_episode(Seq::empty()),
            ..scheduler
        }
    } else {
        match observation {
            Some(observed) => SchedulerView {
                macos_stall_recovery: crate::stall_recovery::episode_after_reading(
                    scheduler.macos_stall_recovery,
                    session,
                    observed,
                ),
                ..scheduler
            },
            None => scheduler,
        }
    }
}

/// Whether a failed reading concerns the service that runs the tunnel.
pub open spec fn outage_relevant(scheduler: SchedulerView, error: TunnelError) -> bool {
    ||| crate::service_recovery::is_outage(error)
    ||| crate::service_recovery::is_route_failure(error)
    ||| scheduler.windows_service_recovery != crate::service_recovery::no_outage()
}

impl MetricsScheduler {
    pub open spec fn wf(self) -> bool {
        self.limiter.wf()
    }

    pub fn new(platform: ClientPlatform) -> (scheduler: Self)
        ensures
            scheduler.wf(),
            scheduler@ == idle(platform),
    {
        MetricsScheduler {
            platform,
            failure_recorded: false,
            last_diagnostics_at_nanos: None,
            last_diagnostics_session: None,
            last_diagnostics_sample: None,
            last_incident_sample: None,
            skipped_probe_session: None,
            limiter: StallRecoveryLimiter::new(),
            macos_stall_recovery: MacosStallRecoveryEpisode::new(),
            windows_service_recovery: WindowsServiceRecoveryEpisode::new(),
        }
    }

    /// No connection is up: everything is forgotten.
    pub fn disconnected(&mut self)
        ensures
            final(self).wf(),
            final(self)@ == idle(old(self)@.platform),
    {
        *self = MetricsScheduler::new(self.platform);
    }

    /// One turn of the loop, while a connection is up.
    pub fn tick(&mut self, session_id: &str, layer: Layer, observed: bool, now_nanos: u64) -> (tick:
        MetricsTick)
        requires
            old(self).wf(),
        ensures
            final(self).wf(),
            tick == tick_of(old(self)@, session_id@, layer, observed, now_nanos),
            final(self)@ == after_tick(old(self)@, session_id@, tick, now_nanos),
    {
        let (new_session, due) = match &self.last_diagnostics_session {
            Some(session) => (
                !same_text(session.as_str(), session_id),
                connection_diagnostics_due(
                    Some(session.as_str()),
                    session_id,
                    self.last_diagnostics_at_nanos,
                    now_nanos,
                ),
            ),
            None => (
                true,
                connection_diagnostics_due(
                    None,
                    session_id,
                    self.last_diagnostics_at_nanos,
                    now_nanos,
                ),
            ),
        };
        let endpoint_route_guard = self.platform == ClientPlatform::Windows && layer
            == Layer::Stray;
        let tick = MetricsTick {
            poll: connection_metrics_poll_required(
                observed,
                due,
                endpoint_route_guard,
                self.platform.is_desktop(),
            ),
            diagnostics_due: due,
            collect_probe_target: self.platform == ClientPlatform::Macos && layer == Layer::Stray,
        };
        if !tick.poll {
            return tick;
        }
        if new_session {
            self.last_diagnostics_sample = None;
            self.last_incident_sample = None;
            self.failure_recorded = false;
            self.limiter.reset();
            self.macos_stall_recovery.reset();
            self.windows_service_recovery.reset();
        }
        if due {
            self.last_diagnostics_at_nanos = Some(now_nanos);
            self.last_diagnostics_session = Some(session_id.to_owned());
        }
        tick
    }

    /// Whether it is to be noted that this system cannot probe the tunnel:
    /// once for each session.
    pub fn probe_skipped(&mut self, session_id: &str, probe: bool) -> (note: bool)
        requires
            old(self).wf(),
        ensures
            final(self).wf(),
            note == (probe && old(self)@.platform == ClientPlatform::Android && old(
                self,
            )@.skipped_probe_session != Some(session_id@)),
            final(self)@ == (SchedulerView {
                skipped_probe_session: if note {
                    Some(session_id@)
                } else {
                    old(self)@.skipped_probe_session
                },
                ..old(self)@
            }),
    {
        let noted = match &self.skipped_probe_session {
            Some(session) => same_text(session.as_str(), session_id),
            None => false,
        };
        let note = probe && self.platform == ClientPlatform::Android && !noted;
        if note {
            self.skipped_probe_session = Some(session_id.to_owned());
        }
        note
    }

    /// A reading has come. The address to probe directly is taken out of it,
    /// so that it is recorded nowhere.
    pub fn sample_read(&mut self, sample: &mut TunnelMetrics) -> (probe_target: Option<String>)
        requires
            old(self).wf(),
        ensures
            final(self).wf(),
            final(self)@ == (SchedulerView {
                failure_recorded: false,
                windows_service_recovery: crate::service_recovery::no_outage(),
                ..old(self)@
            }),
            probe_target == (if old(self)@.platform == ClientPlatform::Macos {
                old(sample).probe_target
            } else {
                None
            }),
            *final(sample) == (TunnelMetrics {
                probe_target: if old(self)@.platform == ClientPlatform::Macos {
                    None
                } else {
                    old(sample).probe_target
                },
                ..*old(sample)
            }),
    {
        self.failure_recorded = false;
        self.windows_service_recovery.reset();
        if self.platform == ClientPlatform::Macos {
            sample.probe_target.take()
        } else {
            None
        }
    }

    /// The incident detector has seen the reading.
    pub fn incident_sampled(&mut self, sample: &TunnelMetrics)
        requires
            old(self).wf(),
        ensures
            final(self).wf(),
            final(self)@ == (SchedulerView { last_incident_sample: Some(*sample), ..old(self)@ }),
    {
        self.last_incident_sample = Some(sample.duplicate());
    }

    /// Whether to recover from a stall now, after what the incident detector
    /// said.
    pub fn recovery_due(
        &mut self,
        session_id: &str,
        layer: Layer,
        observation: Option<TunnelMetricsObservation>,
        now_unix: i64,
    ) -> (due: bool)
        requires
            old(self).wf(),
        ensures
            final(self).wf(),
            due == recovery_wanted(old(self)@, session_id@, layer, observation, now_unix),
            final(self)@ == after_observation(old(self)@, session_id@, layer, observation),
    {
        if self.platform != ClientPlatform::Macos {
            return false;
        }
        if layer != Layer::Stray {
            self.macos_stall_recovery.reset();
            return false;
        }
        match observation {
            Some(observed) => self.macos_stall_recovery.should_attempt(
                session_id,
                observed,
                now_unix,
            ),
            None => false,
        }
    }

    /// The reading has been noted in the diagnostics of the session.
    pub fn diagnostics_recorded(&mut self, sample: &TunnelMetrics)
        requires
            old(self).wf(),
        ensures
            final(self).wf(),
            final(self)@ == (SchedulerView {
                last_diagnostics_sample: Some(*sample),
                ..old(self)@
            }),
    {
        self.last_diagnostics_sample = Some(sample.duplicate());
    }

    /// A reading has failed, or the backend has none. Whether that is to be
    /// noted: once until a reading succeeds.
    pub fn metrics_unavailable(&mut self) -> (note: bool)
        requires
            old(self).wf(),
        ensures
            final(self).wf(),
            note == !old(self)@.failure_recorded,
            final(self)@ == (SchedulerView { failure_recorded: true, ..old(self)@ }),
    {
        let note = !self.failure_recorded;
        self.failure_recorded = true;
        note
    }

    /// Whether a failed reading is to be answered by a recovery of the
    /// service that runs the tunnel.
    pub fn service_outage(&mut self, error: &TunnelError, now_unix: i64) -> (outage: ServiceOutage)
        requires
            old(self).wf(),
        ensures
            final(self).wf(),
            ({
                let before = old(self)@;
                let episode = before.windows_service_recovery;
                let relevant = outage_relevant(before, *error);
                if before.platform != ClientPlatform::Windows {
                    outage == ServiceOutage::Ignored && final(self)@ == before
                } else if crate::service_recovery::poll_due(episode, relevant, now_unix) {
                    &&& outage == (ServiceOutage::Recover {
                        first_outage: episode == crate::service_recovery::no_outage(),
                    })
                    &&& final(self)@ == before
                } else {
                    &&& outage == ServiceOutage::Ignored
                    &&& final(self)@ == (SchedulerView {
                        windows_service_recovery: if relevant {
                            episode
                        } else {
                            crate::service_recovery::no_outage()
                        },
                        ..before
                    })
                }
            }),
    {
        if self.platform != ClientPlatform::Windows {
            return ServiceOutage::Ignored;
        }
        let relevant = should_attempt_windows_service_recovery(
            error,
            self.windows_service_recovery.is_active(),
        );
        if self.windows_service_recovery.should_poll(relevant, now_unix) {
            return ServiceOutage::Recover {
                first_outage: self.windows_service_recovery.first_outage(),
            };
        }
        if !relevant {
            self.windows_service_recovery.reset();
        }
        ServiceOutage::Ignored
    }
}

/// On a desktop every turn reads the counters, whether or not a window shows
/// them: incidents are seen all the same.
pub proof fn law_desktop_reads_every_second(
    scheduler: SchedulerView,
    session: Seq<char>,
    layer: Layer,
    observed: bool,
    now_nanos: u64,
)
    requires
        scheduler.platform.desktop(),
    ensures
        tick_of(scheduler, session, layer, observed, now_nanos).poll,
{
}

/// After a turn that was due diagnostics, the next such turn of the same
/// session comes no sooner than a minute later, even where the reading fails.
pub proof fn law_failed_diagnostics_are_throttled(
    scheduler: SchedulerView,
    session: Seq<char>,
    layer: Layer,
    observed: bool,
    now_nanos: u64,
    later_nanos: u64,
)
    requires
        tick_of(scheduler, session, layer, observed, now_nanos).diagnostics_due,
    ensures
        ({
            let tick = tick_of(scheduler, session, layer, observed, now_nanos);
            let after = after_tick(scheduler, session, tick, now_nanos);
            tick_of(after, session, layer, observed, later_nanos).diagnostics_due == (later_nanos
                >= now_nanos + CONNECTION_DIAGNOSTICS_INTERVAL_NANOS)
        }),
{
}

/// Nothing of an earlier session is carried into a new one: neither its
/// readings nor its recovery attempts.
pub proof fn law_new_session_starts_clean(
    scheduler: SchedulerView,
    session: Seq<char>,
    layer: Layer,
    observed: bool,
    now_nanos: u64,
)
    requires
        scheduler.last_diagnostics_session != Some(session),
    ensures
        ({
            let tick = tick_of(scheduler, session, layer, observed, now_nanos);
            let after = after_tick(scheduler, session, tick, now_nanos);
            &&& tick.poll && tick.diagnostics_due
            &&& after == (SchedulerView {
                last_diagnostics_at_nanos: Some(now_nanos),
                last_diagnostics_session: Some(session),
                skipped_probe_session: scheduler.skipped_probe_session,
                ..idle(scheduler.platform)
            })
        }),
{
}

} // verus!
