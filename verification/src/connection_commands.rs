//! The commands that connect and disconnect, as machines that are told what
//! the core, the tunnel and the service of Android have answered.
use crate::app_responses::StartCommandRequest;
use crate::commands::{CommandError, CommandErrorView, repairable_stop_error, tunnel_service_error};
use crate::core_state::{
    Connection, ConnectionIntentCapability, ConnectionIntentStatus, CoreState, Phase,
    allows_new_connection_intent_operation,
};
use crate::errors::{ApplicationError, CoreError, TunnelError, rejection};
use crate::text::same_text;
use crate::tunnel::TunnelStatus;
use vstd::prelude::*;

verus! {

/// Where a stop of the connection stands.
#[derive(Clone, Copy, Debug, PartialEq, Eq, Structural)]
pub enum StopStage {
    /// The core is stopping the connection.
    Stopping,
    /// The tunnel service is being repaired.
    Preparing,
    /// The core is stopping the connection for the second time.
    StoppingAgain,
}

/// A stop of the connection. `tolerate_missing` where it is no failure that
/// there was nothing to stop: a start was cancelled instead.
#[derive(Clone, Copy, Debug, PartialEq, Eq, Structural)]
pub struct ConnectionStop {
    pub stage: StopStage,
    pub tolerate_missing: bool,
}

pub enum StopOutcome {
    Continue,
    Stopped(Connection),
    NothingToStop,
    Failed(CommandError),
}

pub enum StopOutcomeView {
    Continue,
    Stopped(Connection),
    NothingToStop,
    Failed(CommandErrorView),
}

impl View for StopOutcome {
    type V = StopOutcomeView;

    open spec fn view(&self) -> StopOutcomeView {
        match self {
            StopOutcome::Continue => StopOutcomeView::Continue,
            StopOutcome::Stopped(connection) => StopOutcomeView::Stopped(*connection),
            StopOutcome::NothingToStop => StopOutcomeView::NothingToStop,
            StopOutcome::Failed(error) => StopOutcomeView::Failed(error@),
        }
    }
}

/// What follows from the first try to stop.
pub open spec fn stop_step(stop: ConnectionStop, result: Result<Connection, ApplicationError>) -> (
    ConnectionStop,
    StopOutcomeView,
) {
    match result {
        Ok(connection) => (stop, StopOutcomeView::Stopped(connection)),
        Err(error) => if stop.stage == StopStage::Stopping && stop.tolerate_missing && error
            == ApplicationError::Core(CoreError::SavedConnectionUnavailable) {
            (stop, StopOutcomeView::NothingToStop)
        } else if stop.stage == StopStage::Stopping && crate::commands::is_repairable_stop(error) {
            (ConnectionStop { stage: StopStage::Preparing, ..stop }, StopOutcomeView::Continue)
        } else {
            (stop, StopOutcomeView::Failed(crate::commands::application_error(error)))
        },
    }
}

impl ConnectionStop {
    pub fn begin(tolerate_missing: bool) -> (stop: Self)
        ensures
            stop == (ConnectionStop { stage: StopStage::Stopping, tolerate_missing }),
    {
        ConnectionStop { stage: StopStage::Stopping, tolerate_missing }
    }

    /// The core has tried to stop the connection. A service that does not
    /// answer is repaired, once, before the second and last try.
    pub fn stopped(&mut self, result: Result<Connection, ApplicationError>) -> (outcome: StopOutcome)
        requires
            old(self).stage != StopStage::Preparing,
        ensures
            (*final(self), outcome@) == stop_step(*old(self), result),
    {
        match result {
            Ok(connection) => StopOutcome::Stopped(connection),
            Err(error) => {
                if self.stage == StopStage::Stopping {
                    let missing = match &error {
                        ApplicationError::Core(CoreError::SavedConnectionUnavailable) => true,
                        _ => false,
                    };
                    if self.tolerate_missing && missing {
                        return StopOutcome::NothingToStop;
                    }
                    if repairable_stop_error(&error) {
                        self.stage = StopStage::Preparing;
                        return StopOutcome::Continue;
                    }
                }
                StopOutcome::Failed(CommandError::from_application(error))
            },
        }
    }

    /// The service was repaired, or could not be.
    pub fn prepared(&mut self, result: Result<(), TunnelError>) -> (outcome: StopOutcome)
        requires
            old(self).stage == StopStage::Preparing,
        ensures
            match result {
                Ok(_) => {
                    &&& outcome@ == StopOutcomeView::Continue
                    &&& *final(self) == (ConnectionStop {
                        stage: StopStage::StoppingAgain,
                        ..*old(self)
                    })
                },
                Err(error) => {
                    &&& outcome@ == StopOutcomeView::Failed(crate::commands::tunnel_error(error))
                    &&& *final(self) == *old(self)
                },
            },
    {
        match result {
            Ok(_) => {
                self.stage = StopStage::StoppingAgain;
                StopOutcome::Continue
            },
            Err(error) => StopOutcome::Failed(CommandError::from_tunnel(error)),
        }
    }
}

pub open spec fn needs_stop(state: CoreState, intent_cancelled: bool) -> bool {
    ||| intent_cancelled
    ||| state.connection is Some
    ||| state.phase == Phase::Connected
    ||| state.phase == Phase::Connecting
    ||| state.phase == Phase::Stopping
}

/// Whether anything has to be stopped before the application ends.
pub fn shutdown_requires_stop(state: &CoreState, intent_cancelled: bool) -> (required: bool)
    ensures
        required == needs_stop(*state, intent_cancelled),
{
    intent_cancelled || state.connection.is_some() || match state.phase {
        Phase::Connected | Phase::Connecting | Phase::Stopping => true,
        _ => false,
    }
}

/// Where a stop of the tunnel alone stands, before a logout.
#[derive(Clone, Copy, Debug, PartialEq, Eq, Structural)]
pub enum TunnelStop {
    CheckingStatus,
    Stopping,
    Preparing,
    StoppingAgain,
}

pub enum TunnelStopOutcome {
    Continue,
    Stopped,
    Failed(TunnelError),
}

pub open spec fn repairable_tunnel_stop(error: TunnelError) -> bool {
    error matches TunnelError::Backend(code) && crate::commands::is_service_error(code@)
}

impl TunnelStop {
    /// The status of the tunnel was read; a tunnel that is down already need
    /// not be stopped.
    pub fn status_read(&mut self, status: Option<TunnelStatus>) -> (outcome: TunnelStopOutcome)
        requires
            *old(self) == TunnelStop::CheckingStatus,
        ensures
            if status == Some(TunnelStatus::Stopped) || status == Some(TunnelStatus::Failed) {
                outcome == TunnelStopOutcome::Stopped && *final(self) == *old(self)
            } else {
                outcome == TunnelStopOutcome::Continue && *final(self) == TunnelStop::Stopping
            },
    {
        match status {
            Some(TunnelStatus::Stopped) | Some(TunnelStatus::Failed) => TunnelStopOutcome::Stopped,
            _ => {
                *self = TunnelStop::Stopping;
                TunnelStopOutcome::Continue
            },
        }
    }

    /// The tunnel was stopped, or could not be.
    pub fn stopped(&mut self, result: Result<(), TunnelError>) -> (outcome: TunnelStopOutcome)
        requires
            *old(self) == TunnelStop::Stopping || *old(self) == TunnelStop::StoppingAgain,
        ensures
            match result {
                Ok(_) => outcome == TunnelStopOutcome::Stopped && *final(self) == *old(self),
                Err(error) => if *old(self) == TunnelStop::Stopping && repairable_tunnel_stop(
                    error,
                ) {
                    outcome == TunnelStopOutcome::Continue && *final(self) == TunnelStop::Preparing
                } else {
                    outcome == TunnelStopOutcome::Failed(error) && *final(self) == *old(self)
                },
            },
    {
        match result {
            Ok(_) => TunnelStopOutcome::Stopped,
            Err(error) => {
                let repairable = match &error {
                    TunnelError::Backend(code) => tunnel_service_error(code.as_str()),
                    TunnelError::InvalidOptions { .. } => false,
                };
                if *self == TunnelStop::Stopping && repairable {
                    *self = TunnelStop::Preparing;
                    return TunnelStopOutcome::Continue;
                }
                TunnelStopOutcome::Failed(error)
            },
        }
    }

    /// The service was repaired, or could not be.
    pub fn prepared(&mut self, result: Result<(), TunnelError>) -> (outcome: TunnelStopOutcome)
        requires
            *old(self) == TunnelStop::Preparing,
        ensures
            match result {
                Ok(_) => outcome == TunnelStopOutcome::Continue && *final(self)
                    == TunnelStop::StoppingAgain,
                Err(error) => outcome == TunnelStopOutcome::Failed(error) && *final(self) == *old(
                    self,
                ),
            },
    {
        match result {
            Ok(_) => {
                *self = TunnelStop::StoppingAgain;
                TunnelStopOutcome::Continue
            },
            Err(error) => TunnelStopOutcome::Failed(error),
        }
    }
}

/// What a quick toggle does.
#[derive(Clone, Copy, Debug, PartialEq, Eq, Structural)]
pub enum QuickToggleAction {
    Stop,
    Start,
}

/// Why a quick toggle can do nothing in a phase.
pub open spec fn toggle_refusal(phase: Phase) -> CommandErrorView {
    match phase {
        Phase::SignedOut => crate::commands::error_text(
            "signed_out"@,
            "Нужно снова войти в приложение"@,
        ),
        Phase::NeedsPeerBinding => crate::commands::error_text(
            "peer_binding_required"@,
            "Сначала выберите пир в приложении"@,
        ),
        Phase::AccessExpired => crate::commands::error_text(
            "access_expired"@,
            "Срок доступа уже истёк"@,
        ),
        Phase::UpdateRequired => crate::commands::error_text(
            "update_required"@,
            "Для продолжения необходимо обновить приложение"@,
        ),
        _ => crate::commands::error_text(
            "connection_busy"@,
            "Дождитесь завершения текущего действия"@,
        ),
    }
}

pub open spec fn starts_on_toggle(phase: Phase) -> bool {
    phase == Phase::Ready || phase == Phase::Error || phase == Phase::ServerUnavailable
}

/// A quick toggle stops what is connected or under way, and starts where
/// nothing is.
pub fn quick_toggle(intent_status: ConnectionIntentStatus, phase: Phase) -> (action: Result<
    QuickToggleAction,
    CommandError,
>)
    ensures
        if intent_status != ConnectionIntentStatus::Idle || phase == Phase::Connected {
            action == Ok::<QuickToggleAction, CommandError>(QuickToggleAction::Stop)
        } else if starts_on_toggle(phase) {
            action == Ok::<QuickToggleAction, CommandError>(QuickToggleAction::Start)
        } else {
            action matches Err(error) && error@ == toggle_refusal(phase)
        },
{
    if intent_status != ConnectionIntentStatus::Idle {
        return Ok(QuickToggleAction::Stop);
    }
    match phase {
        Phase::Connected => Ok(QuickToggleAction::Stop),
        Phase::Ready | Phase::Error | Phase::ServerUnavailable => Ok(QuickToggleAction::Start),
        Phase::Connecting | Phase::Stopping | Phase::Measuring | Phase::Authenticating => Err(
            CommandError::new("connection_busy", "Дождитесь завершения текущего действия"),
        ),
        Phase::SignedOut => Err(CommandError::new("signed_out", "Нужно снова войти в приложение")),
        Phase::NeedsPeerBinding => Err(
            CommandError::new("peer_binding_required", "Сначала выберите пир в приложении"),
        ),
        Phase::AccessExpired => Err(CommandError::new("access_expired", "Срок доступа уже истёк")),
        Phase::UpdateRequired => Err(
            CommandError::new("update_required", "Для продолжения необходимо обновить приложение"),
        ),
    }
}

/// Where the state that is shown comes from.
#[derive(Clone, Copy, Debug, PartialEq, Eq, Structural)]
pub enum StateSource {
    /// The panel is asked first.
    Bootstrap,
    /// The core looks at the tunnel.
    ReconcileTunnel,
    /// The core knows.
    Core,
}

/// A change that was made outside the application is taken in before its
/// state is shown; the panel is asked about it where that is due.
pub fn state_source(changed: bool, projection_applied: bool, reconcile_due: bool) -> (source:
    StateSource)
    ensures
        source == (if !(changed && projection_applied) {
            StateSource::Core
        } else if reconcile_due {
            StateSource::Bootstrap
        } else {
            StateSource::ReconcileTunnel
        }),
{
    if !(changed && projection_applied) {
        StateSource::Core
    } else if reconcile_due {
        StateSource::Bootstrap
    } else {
        StateSource::ReconcileTunnel
    }
}

/// What the service of Android says of its intent.
#[derive(Debug)]
pub struct AndroidIntentStatus {
    pub desired_active: bool,
    pub status: String,
    pub lease_phase: Option<String>,
    pub next_retry_at_unix: Option<i64>,
}

/// Whether the service has stored an intent such that it survives the
/// application.
pub open spec fn is_durable(acknowledged: AndroidIntentStatus) -> bool {
    &&& acknowledged.desired_active
    &&& acknowledged.lease_phase matches Some(phase)
    &&& {
        ||| (phase@ == "start_pending"@ || phase@ == "lease_acquired"@)
            && acknowledged.status@ == "recovering"@
        ||| (phase@ == "cleanup_pending"@ || phase@ == "stale_cleanup"@)
            && acknowledged.status@ == "stopping"@
        ||| phase@ == "active_checkpoint"@ && acknowledged.status@ == "none"@
    }
}

pub fn android_start_acknowledgement_is_durable(acknowledged: &AndroidIntentStatus) -> (durable: bool)
    ensures
        durable == is_durable(*acknowledged),
{
    if !acknowledged.desired_active {
        return false;
    }
    let status = acknowledged.status.as_str();
    match &acknowledged.lease_phase {
        Some(phase) => {
            let phase = phase.as_str();
            ((same_text(phase, "start_pending") || same_text(phase, "lease_acquired"))
                && same_text(status, "recovering")) || ((same_text(phase, "cleanup_pending")
                || same_text(phase, "stale_cleanup")) && same_text(status, "stopping")) || (
            same_text(phase, "active_checkpoint") && same_text(status, "none"))
        },
        None => false,
    }
}

/// Where a start on Android stands: what is to be done next.
#[derive(Clone, Copy, Debug, PartialEq, Eq, Structural)]
pub enum AndroidStartStage {
    /// Ask the service for its intent.
    ReadingStatus,
    /// Ask whether a stop has come in the meantime.
    Confirming { service_owned: bool },
    /// Ask the panel for the device and its capability.
    Bootstrapping,
    /// Ask once more whether a stop has come, before a start without the
    /// service.
    ConfirmingLegacy,
    /// Bind the peer that the request names.
    BindingPeer,
    /// Start without the service.
    StartingLegacy,
    /// Gather what the service needs.
    BuildingRequest,
    /// Hand the intent to the service.
    HandingOver,
}

/// What a start on Android was told.
pub enum AndroidStartEvent {
    StatusRead(Option<AndroidIntentStatus>),
    Confirmed(Result<(), CommandError>),
    Bootstrapped(Result<(String, Option<ConnectionIntentCapability>), ApplicationError>),
    PeerBound(Result<(), ApplicationError>),
    LegacyStarted(Result<Connection, CommandError>),
    RequestBuilt(Result<(), ApplicationError>),
    HandedOver(Result<AndroidIntentStatus, CommandError>),
}

pub enum AndroidStartOutcome {
    Continue,
    Connected(Connection),
    Recovering(Option<i64>),
    Failed(CommandError),
}

pub enum AndroidStartOutcomeView {
    Continue,
    Connected(Connection),
    Recovering(Option<i64>),
    Failed(CommandErrorView),
}

impl View for AndroidStartOutcome {
    type V = AndroidStartOutcomeView;

    open spec fn view(&self) -> AndroidStartOutcomeView {
        match self {
            AndroidStartOutcome::Continue => AndroidStartOutcomeView::Continue,
            AndroidStartOutcome::Connected(connection) => AndroidStartOutcomeView::Connected(
                *connection,
            ),
            AndroidStartOutcome::Recovering(next) => AndroidStartOutcomeView::Recovering(*next),
            AndroidStartOutcome::Failed(error) => AndroidStartOutcomeView::Failed(error@),
        }
    }
}

pub open spec fn android_start_awaits(stage: AndroidStartStage, event: AndroidStartEvent) -> bool {
    match stage {
        AndroidStartStage::ReadingStatus => event is StatusRead,
        AndroidStartStage::Confirming { .. } => event is Confirmed,
        AndroidStartStage::Bootstrapping => event is Bootstrapped,
        AndroidStartStage::ConfirmingLegacy => event is Confirmed,
        AndroidStartStage::BindingPeer => event is PeerBound,
        AndroidStartStage::StartingLegacy => event is LegacyStarted,
        AndroidStartStage::BuildingRequest => event is RequestBuilt,
        AndroidStartStage::HandingOver => event is HandedOver,
    }
}

/// Whether a stage belongs to a start without the service.
pub open spec fn is_legacy(stage: AndroidStartStage) -> bool {
    ||| stage == AndroidStartStage::ConfirmingLegacy
    ||| stage == AndroidStartStage::BindingPeer
    ||| stage == AndroidStartStage::StartingLegacy
}

/// One step of a start on Android for a device. An intent that the service
/// already has stays with it; otherwise the capability decides. A start without
/// the service is made unless a stop has come, and after the peer was bound
/// where the request names one.
pub open spec fn android_start_step(
    stage: AndroidStartStage,
    device_id: Seq<char>,
    binding_requested: bool,
    event: AndroidStartEvent,
    now_unix: i64,
) -> (AndroidStartStage, AndroidStartOutcomeView) {
    match (stage, event) {
        (AndroidStartStage::ReadingStatus, AndroidStartEvent::StatusRead(status)) => match status {
            Some(status) => (
                AndroidStartStage::Confirming { service_owned: status.lease_phase is Some },
                AndroidStartOutcomeView::Continue,
            ),
            None => (
                stage,
                AndroidStartOutcomeView::Failed(
                    crate::commands::error_text(
                        "android_service_status_unavailable"@,
                        "Не удалось проверить состояние службы подключения"@,
                    ),
                ),
            ),
        },
        (
            AndroidStartStage::Confirming { service_owned },
            AndroidStartEvent::Confirmed(confirmed),
        ) => match confirmed {
            Ok(_) => (
                if service_owned {
                    AndroidStartStage::BuildingRequest
                } else {
                    AndroidStartStage::Bootstrapping
                },
                AndroidStartOutcomeView::Continue,
            ),
            Err(error) => (stage, AndroidStartOutcomeView::Failed(error@)),
        },
        (AndroidStartStage::Bootstrapping, AndroidStartEvent::Bootstrapped(bootstrap)) => {
            match bootstrap {
                Ok((device, capability)) => if device@ != device_id {
                    (
                        stage,
                        AndroidStartOutcomeView::Failed(
                            crate::commands::error_text(
                                "device_mismatch"@,
                                "Подключение запрошено для другого устройства"@,
                            ),
                        ),
                    )
                } else if crate::core_state::allows_intent(capability, now_unix) {
                    (AndroidStartStage::BuildingRequest, AndroidStartOutcomeView::Continue)
                } else {
                    (AndroidStartStage::ConfirmingLegacy, AndroidStartOutcomeView::Continue)
                },
                Err(error) => (
                    stage,
                    AndroidStartOutcomeView::Failed(crate::commands::application_error(error)),
                ),
            }
        },
        (AndroidStartStage::ConfirmingLegacy, AndroidStartEvent::Confirmed(confirmed)) => {
            match confirmed {
                Ok(_) => (
                    if binding_requested {
                        AndroidStartStage::BindingPeer
                    } else {
                        AndroidStartStage::StartingLegacy
                    },
                    AndroidStartOutcomeView::Continue,
                ),
                Err(error) => (stage, AndroidStartOutcomeView::Failed(error@)),
            }
        },
        (AndroidStartStage::BindingPeer, AndroidStartEvent::PeerBound(bound)) => match bound {
            Ok(_) => (AndroidStartStage::StartingLegacy, AndroidStartOutcomeView::Continue),
            Err(error) => (
                stage,
                AndroidStartOutcomeView::Failed(crate::commands::application_error(error)),
            ),
        },
        (AndroidStartStage::StartingLegacy, AndroidStartEvent::LegacyStarted(started)) => (
            stage,
            match started {
                Ok(connection) => AndroidStartOutcomeView::Connected(connection),
                Err(error) => AndroidStartOutcomeView::Failed(error@),
            },
        ),
        (AndroidStartStage::BuildingRequest, AndroidStartEvent::RequestBuilt(built)) => match built {
            Ok(_) => (AndroidStartStage::HandingOver, AndroidStartOutcomeView::Continue),
            Err(error) => (
                stage,
                AndroidStartOutcomeView::Failed(crate::commands::application_error(error)),
            ),
        },
        (AndroidStartStage::HandingOver, AndroidStartEvent::HandedOver(handed_over)) => (
            stage,
            match handed_over {
                Ok(acknowledged) => if is_durable(acknowledged) {
                    AndroidStartOutcomeView::Recovering(acknowledged.next_retry_at_unix)
                } else {
                    AndroidStartOutcomeView::Failed(
                        crate::commands::error_text(
                            "connection_intent_persist_failed"@,
                            "Не удалось сохранить намерение подключения"@,
                        ),
                    )
                },
                Err(error) => AndroidStartOutcomeView::Failed(error@),
            },
        ),
        _ => (stage, AndroidStartOutcomeView::Continue),
    }
}

impl AndroidStartStage {
    pub fn begin() -> (stage: Self)
        ensures
            stage == AndroidStartStage::ReadingStatus,
    {
        AndroidStartStage::ReadingStatus
    }

    /// Takes in what the start was told and says how it goes on.
    pub fn step(&mut self, request: &StartCommandRequest, event: AndroidStartEvent, now_unix: i64) -> (outcome:
        AndroidStartOutcome)
        requires
            android_start_awaits(*old(self), event),
        ensures
            (*final(self), outcome@) == android_start_step(
                *old(self),
                request.device_id@,
                request.binding_requested,
                event,
                now_unix,
            ),
    {
        match (*self, event) {
            (AndroidStartStage::ReadingStatus, AndroidStartEvent::StatusRead(status)) => {
                match status {
                    Some(status) => {
                        *self =
                        AndroidStartStage::Confirming {
                            service_owned: status.lease_phase.is_some(),
                        };
                        AndroidStartOutcome::Continue
                    },
                    None => AndroidStartOutcome::Failed(
                        CommandError::new(
                            "android_service_status_unavailable",
                            "Не удалось проверить состояние службы подключения",
                        ),
                    ),
                }
            },
            (
                AndroidStartStage::Confirming { service_owned },
                AndroidStartEvent::Confirmed(confirmed),
            ) => {
                match confirmed {
                    Ok(_) => {
                        *self =
                        if service_owned {
                            AndroidStartStage::BuildingRequest
                        } else {
                            AndroidStartStage::Bootstrapping
                        };
                        AndroidStartOutcome::Continue
                    },
                    Err(error) => AndroidStartOutcome::Failed(error),
                }
            },
            (AndroidStartStage::Bootstrapping, AndroidStartEvent::Bootstrapped(bootstrap)) => {
                match bootstrap {
                    Ok((device, capability)) => {
                        if !same_text(device.as_str(), request.device_id.as_str()) {
                            return AndroidStartOutcome::Failed(
                                CommandError::new(
                                    "device_mismatch",
                                    "Подключение запрошено для другого устройства",
                                ),
                            );
                        }
                        *self =
                        if allows_new_connection_intent_operation(&capability, now_unix) {
                            AndroidStartStage::BuildingRequest
                        } else {
                            AndroidStartStage::ConfirmingLegacy
                        };
                        AndroidStartOutcome::Continue
                    },
                    Err(error) => AndroidStartOutcome::Failed(
                        CommandError::from_application(error),
                    ),
                }
            },
            (AndroidStartStage::ConfirmingLegacy, AndroidStartEvent::Confirmed(confirmed)) => {
                match confirmed {
                    Ok(_) => {
                        *self =
                        if request.binding_requested {
                            AndroidStartStage::BindingPeer
                        } else {
                            AndroidStartStage::StartingLegacy
                        };
                        AndroidStartOutcome::Continue
                    },
                    Err(error) => AndroidStartOutcome::Failed(error),
                }
            },
            (AndroidStartStage::BindingPeer, AndroidStartEvent::PeerBound(bound)) => {
                match bound {
                    Ok(_) => {
                        *self = AndroidStartStage::StartingLegacy;
                        AndroidStartOutcome::Continue
                    },
                    Err(error) => AndroidStartOutcome::Failed(
                        CommandError::from_application(error),
                    ),
                }
            },
            (AndroidStartStage::StartingLegacy, AndroidStartEvent::LegacyStarted(started)) => {
                match started {
                    Ok(connection) => AndroidStartOutcome::Connected(connection),
                    Err(error) => AndroidStartOutcome::Failed(error),
                }
            },
            (AndroidStartStage::BuildingRequest, AndroidStartEvent::RequestBuilt(built)) => {
                match built {
                    Ok(_) => {
                        *self = AndroidStartStage::HandingOver;
                        AndroidStartOutcome::Continue
                    },
                    Err(error) => AndroidStartOutcome::Failed(
                        CommandError::from_application(error),
                    ),
                }
            },
            (AndroidStartStage::HandingOver, AndroidStartEvent::HandedOver(handed_over)) => {
                match handed_over {
                    Ok(acknowledged) => if android_start_acknowledgement_is_durable(
                        &acknowledged,
                    ) {
                        AndroidStartOutcome::Recovering(acknowledged.next_retry_at_unix)
                    } else {
                        AndroidStartOutcome::Failed(
                            CommandError::new(
                                "connection_intent_persist_failed",
                                "Не удалось сохранить намерение подключения",
                            ),
                        )
                    },
                    Err(error) => AndroidStartOutcome::Failed(error),
                }
            },
            _ => AndroidStartOutcome::Continue,
        }
    }
}

/// Whether a connection without the service has to be stopped too, after the
/// service was told to stop: it has none of its own.
pub fn legacy_stop_required(cancelled: &AndroidIntentStatus) -> (required: bool)
    ensures
        required == cancelled.lease_phase is None,
{
    cancelled.lease_phase.is_none()
}

pub open spec fn recovers_at_startup(error: ApplicationError) -> bool {
    error == ApplicationError::Core(CoreError::SignedOut) || error == ApplicationError::Core(
        CoreError::AuthRecoveryRequired,
    )
}

/// Whether the credentials are recovered after the first bootstrap failed:
/// only where they are the reason. Any other failure is the answer.
pub fn route_android_startup_recovery(first_error: ApplicationError) -> (result: Result<
    (),
    CommandError,
>)
    ensures
        result is Ok == recovers_at_startup(first_error),
        result matches Err(error) ==> error@ == crate::commands::application_error(first_error),
{
    match first_error {
        ApplicationError::Core(CoreError::SignedOut) => Ok(()),
        ApplicationError::Core(CoreError::AuthRecoveryRequired) => Ok(()),
        other => Err(CommandError::from_application(other)),
    }
}

/// Whether the ordinary bootstrap is tried after that recovery.
pub fn bootstrap_after_recovery(recovery: Result<(), CoreError>) -> (result: Result<
    (),
    CommandError,
>)
    ensures
        match recovery {
            Ok(_) => result is Ok,
            Err(CoreError::AuthRecoveryRequired) => result is Ok,
            Err(error) => result matches Err(refused) && refused@ == crate::commands::core_error(
                error,
            ),
        },
{
    match recovery {
        Ok(_) => Ok(()),
        Err(CoreError::AuthRecoveryRequired) => Ok(()),
        Err(error) => Err(CommandError::from_core(error)),
    }
}

/// Why the runtime was not ready on a desktop.
#[derive(Clone, Copy, Debug, PartialEq, Eq, Structural)]
pub enum RuntimeReadyError {
    RefreshPending,
    RecoveryRequired,
    Timeout,
    Service,
    Other,
}

pub open spec fn runtime_ready_failure(error: RuntimeReadyError) -> CommandErrorView {
    match error {
        RuntimeReadyError::RefreshPending => crate::commands::error_text(
            "auth_refresh_pending"@,
            "Восстанавливаем соединение с аккаунтом. Повторим автоматически; данные входа сохранены"@,
        ),
        RuntimeReadyError::Other => crate::commands::core_error(CoreError::AuthRecoveryRequired),
        _ => crate::commands::error_text(
            "runtime_startup_pending"@,
            "Завершается подготовка приложения и предыдущего подключения. Повторим автоматически; данные входа сохранены"@,
        ),
    }
}

pub fn runtime_ready_error(error: RuntimeReadyError) -> (result: CommandError)
    ensures
        result@ == runtime_ready_failure(error),
{
    match error {
        RuntimeReadyError::RefreshPending => CommandError::new(
            "auth_refresh_pending",
            "Восстанавливаем соединение с аккаунтом. Повторим автоматически; данные входа сохранены",
        ),
        RuntimeReadyError::RecoveryRequired
        | RuntimeReadyError::Timeout
        | RuntimeReadyError::Service => CommandError::new(
            "runtime_startup_pending",
            "Завершается подготовка приложения и предыдущего подключения. Повторим автоматически; данные входа сохранены",
        ),
        RuntimeReadyError::Other => CommandError::from_core(CoreError::AuthRecoveryRequired),
    }
}

/// How a logout is answered. What the owner of the credentials said comes
/// first; `background_cleared` is none where the system has no background
/// connection to clear.
pub fn logout_result(
    logout: Result<(), ApplicationError>,
    quick_plan_cleared: bool,
    background_cleared: Option<bool>,
) -> (result: Result<(), CommandError>)
    ensures
        match logout {
            Err(error) => result matches Err(answer) && answer@
                == crate::commands::application_error(error),
            Ok(_) => if !quick_plan_cleared {
                result matches Err(answer) && answer@ == crate::commands::error_text(
                    "quick_state_persist_failed"@,
                    "Не удалось очистить данные быстрого подключения"@,
                )
            } else if background_cleared == Some(false) {
                result matches Err(answer) && answer@ == crate::commands::error_text(
                    "background_storage_unavailable"@,
                    "Не удалось очистить данные фонового подключения"@,
                )
            } else {
                result is Ok
            },
        },
{
    match logout {
        Err(error) => Err(CommandError::from_application(error)),
        Ok(_) => {
            if !quick_plan_cleared {
                return Err(
                    CommandError::new(
                        "quick_state_persist_failed",
                        "Не удалось очистить данные быстрого подключения",
                    ),
                );
            }
            match background_cleared {
                Some(cleared) => if cleared {
                    Ok(())
                } else {
                    Err(
                        CommandError::new(
                            "background_storage_unavailable",
                            "Не удалось очистить данные фонового подключения",
                        ),
                    )
                },
                None => Ok(()),
            }
        },
    }
}

/// What clearing the quick connection says of the service of Android: it is
/// stopped where the clearing succeeded, and after a sign-out only where that
/// succeeded too. Nothing is known otherwise.
pub fn cleared_activity(signed_out: bool, quick_plan_cleared: bool) -> (answer: Option<bool>)
    ensures
        answer == (if signed_out && quick_plan_cleared {
            Some(false)
        } else {
            None
        }),
{
    if signed_out && quick_plan_cleared {
        Some(false)
    } else {
        None
    }
}

/// Whether a start can go on after the installed applications were listed.
/// Where they decide what goes through the tunnel (`required`), a list that
/// could not be had, or an empty one, refuses the start.
pub fn installed_applications_before_start(required: bool, listed: Option<usize>) -> (result: Result<
    (),
    ApplicationError,
>)
    ensures
        result is Ok == (!required || (listed matches Some(count) && count > 0)),
        result matches Err(error) ==> crate::errors::is_rejection(
            error,
            "installed_applications_unavailable"@,
            "Не удалось получить список приложений"@,
        ),
{
    let available = match listed {
        Some(count) => count > 0,
        None => false,
    };
    if required && !available {
        return Err(
            rejection("installed_applications_unavailable", "Не удалось получить список приложений"),
        );
    }
    Ok(())
}

/// A stop is tried at most twice, with one repair of the service in between.
pub proof fn law_stop_is_tried_at_most_twice(
    tolerate_missing: bool,
    first: Result<Connection, ApplicationError>,
    second: Result<Connection, ApplicationError>,
)
    ensures
        ({
            let begun = ConnectionStop { stage: StopStage::Stopping, tolerate_missing };
            let (after_first, outcome) = stop_step(begun, first);
            let again = ConnectionStop { stage: StopStage::StoppingAgain, ..after_first };
            &&& outcome is Continue ==> after_first.stage == StopStage::Preparing
            &&& !(stop_step(again, second).1 is Continue)
        }),
{
}

/// A start that the service was chosen for never falls back to a start of its
/// own, so that no second connection can come up beside the service's.
pub proof fn law_service_start_never_falls_back(
    stage: AndroidStartStage,
    device_id: Seq<char>,
    binding_requested: bool,
    event: AndroidStartEvent,
    now_unix: i64,
)
    requires
        android_start_awaits(stage, event),
        stage == AndroidStartStage::BuildingRequest || stage == AndroidStartStage::HandingOver
            || stage == (AndroidStartStage::Confirming { service_owned: true }),
    ensures
        ({
            let (after, outcome) = android_start_step(
                stage,
                device_id,
                binding_requested,
                event,
                now_unix,
            );
            &&& !is_legacy(after)
            &&& !(outcome is Connected)
        }),
{
}

/// A start without the service is begun only where the service has no intent
/// and the panel does not allow one.
pub proof fn law_legacy_start_needs_a_missing_capability(
    stage: AndroidStartStage,
    device_id: Seq<char>,
    binding_requested: bool,
    event: AndroidStartEvent,
    now_unix: i64,
)
    requires
        android_start_awaits(stage, event),
        !is_legacy(stage),
        is_legacy(android_start_step(stage, device_id, binding_requested, event, now_unix).0),
    ensures
        stage == AndroidStartStage::Bootstrapping,
        event matches AndroidStartEvent::Bootstrapped(Ok((device, capability))) && device@
            == device_id && !crate::core_state::allows_intent(capability, now_unix),
{
}

/// A start without the service is made only after it was confirmed that no stop
/// has come, and, where the request names a peer, after that peer was bound. A
/// peer is bound only after that confirmation, and only where one is named.
pub proof fn law_legacy_start_is_confirmed_and_bound(
    stage: AndroidStartStage,
    device_id: Seq<char>,
    binding_requested: bool,
    event: AndroidStartEvent,
    now_unix: i64,
)
    requires
        android_start_awaits(stage, event),
    ensures
        ({
            let after = android_start_step(stage, device_id, binding_requested, event, now_unix).0;
            let confirmed = stage == AndroidStartStage::ConfirmingLegacy && (
            event matches AndroidStartEvent::Confirmed(Ok(_)));
            let bound = stage == AndroidStartStage::BindingPeer && (
            event matches AndroidStartEvent::PeerBound(Ok(_)));
            &&& stage != AndroidStartStage::BindingPeer && after == AndroidStartStage::BindingPeer
                ==> confirmed && binding_requested
            &&& stage != AndroidStartStage::StartingLegacy && after
                == AndroidStartStage::StartingLegacy ==> bound || confirmed && !binding_requested
        }),
{
}

/// A stop that came while the panel was asked ends a start without the service:
/// it neither binds a peer nor starts.
pub proof fn law_stop_ends_a_legacy_start(
    device_id: Seq<char>,
    binding_requested: bool,
    error: CommandError,
    now_unix: i64,
)
    ensures
        android_start_step(
            AndroidStartStage::ConfirmingLegacy,
            device_id,
            binding_requested,
            AndroidStartEvent::Confirmed(Err(error)),
            now_unix,
        ) == (AndroidStartStage::ConfirmingLegacy, AndroidStartOutcomeView::Failed(error@)),
{
}

} // verus!
