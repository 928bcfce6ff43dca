//! What the Android user interface believes of the tunnel service while its
//! own commands are under way. Replies that come late must not undo what the
//! user asked for since.
use crate::commands::CommandError;
use crate::core_state::ConnectionIntentStatus;
use crate::text::same_text;
use vstd::prelude::*;

verus! {

/// Whether the tunnel service was last known to be active.
#[derive(Clone, Copy, Debug, PartialEq, Eq, Structural)]
pub enum DesiredActivity {
    Unknown,
    Stopped,
    Active,
}

#[derive(Clone, Copy, Debug, PartialEq, Eq, Structural)]
pub struct AndroidDesiredActiveProjection {
    pub value: DesiredActivity,
}

pub open spec fn activity(desired_active: Option<bool>) -> DesiredActivity {
    match desired_active {
        Some(true) => DesiredActivity::Active,
        Some(false) => DesiredActivity::Stopped,
        None => DesiredActivity::Unknown,
    }
}

/// What is shown when the service cannot be asked: only a stop that was
/// confirmed counts as idle.
pub open spec fn fallback_status(projection: AndroidDesiredActiveProjection) -> ConnectionIntentStatus {
    if projection.value == DesiredActivity::Stopped {
        ConnectionIntentStatus::Idle
    } else {
        ConnectionIntentStatus::Recovering
    }
}

pub open spec fn projected(desired_active: Option<bool>) -> AndroidDesiredActiveProjection {
    AndroidDesiredActiveProjection { value: activity(desired_active) }
}

impl AndroidDesiredActiveProjection {
    pub fn new() -> (projection: Self)
        ensures
            projection == projected(None),
    {
        AndroidDesiredActiveProjection { value: DesiredActivity::Unknown }
    }

    pub fn observe_confirmed(&mut self, desired_active: bool)
        ensures
            *final(self) == projected(Some(desired_active)),
    {
        self.value = if desired_active {
            DesiredActivity::Active
        } else {
            DesiredActivity::Stopped
        };
    }

    pub fn observe_snapshot(&mut self, changed: bool, desired_active: Option<bool>)
        ensures
            *final(self) == if changed {
                projected(desired_active)
            } else {
                *old(self)
            },
    {
        if !changed {
            return;
        }
        match desired_active {
            Some(desired_active) => self.observe_confirmed(desired_active),
            None => {
                self.value = DesiredActivity::Unknown;
            },
        }
    }

    pub fn status_unavailable_fallback(&self) -> (status: ConnectionIntentStatus)
        ensures
            status == fallback_status(*self),
    {
        match self.value {
            DesiredActivity::Stopped => ConnectionIntentStatus::Idle,
            _ => ConnectionIntentStatus::Recovering,
        }
    }
}

/// Stands for the starts that were asked for before the next stop.
#[derive(Clone, Copy, Debug, PartialEq, Eq, Structural)]
pub struct AndroidUiStartTicket(pub u64);

/// Stands for a command that changes what is projected.
#[derive(Clone, Copy, Debug, PartialEq, Eq, Structural)]
pub struct AndroidProjectionTicket(pub u64);

/// Stands for an observation of the service.
#[derive(Clone, Copy, Debug, PartialEq, Eq, Structural)]
pub struct AndroidProjectionObservationTicket {
    pub projection_epoch: u64,
    pub observation_sequence: u64,
}

/// The command that is under way, if one is.
#[derive(Clone, Copy, Debug, PartialEq, Eq, Structural)]
pub enum PendingProjection {
    Stable,
    Stopping,
    Starting,
    Toggling,
}

/// Puts the commands and observations of the user interface in order.
#[derive(Clone, Copy, Debug, PartialEq, Eq, Structural)]
pub struct AndroidUiStartStopCoordinator {
    pub epoch: u64,
    pub projection_epoch: u64,
    pub observation_sequence: u64,
    pub applied_observation_sequence: u64,
    pub pending_projection: PendingProjection,
}

pub open spec fn next(counter: u64) -> u64 {
    if counter == u64::MAX {
        0
    } else {
        (counter + 1) as u64
    }
}

pub open spec fn start_is_current(
    coordinator: AndroidUiStartStopCoordinator,
    ticket: AndroidUiStartTicket,
) -> bool {
    ticket.0 == coordinator.epoch
}

pub open spec fn command_is_current(
    coordinator: AndroidUiStartStopCoordinator,
    ticket: AndroidProjectionTicket,
) -> bool {
    ticket.0 == coordinator.projection_epoch
}

pub open spec fn observation_is_current(
    coordinator: AndroidUiStartStopCoordinator,
    ticket: AndroidProjectionObservationTicket,
) -> bool {
    &&& ticket.projection_epoch == coordinator.projection_epoch
    &&& ticket.observation_sequence >= coordinator.applied_observation_sequence
}

/// Whether an observation may be believed while a command is under way.
pub open spec fn matches_pending(pending: PendingProjection, desired_active: Option<bool>) -> bool {
    match pending {
        PendingProjection::Stable => true,
        PendingProjection::Stopping => desired_active == Some(false),
        PendingProjection::Starting => desired_active == Some(true),
        PendingProjection::Toggling => false,
    }
}

pub open spec fn after_observing(coordinator: AndroidUiStartStopCoordinator) -> AndroidUiStartStopCoordinator {
    AndroidUiStartStopCoordinator {
        observation_sequence: next(coordinator.observation_sequence),
        ..coordinator
    }
}

pub open spec fn observation_ticket(coordinator: AndroidUiStartStopCoordinator) -> AndroidProjectionObservationTicket {
    AndroidProjectionObservationTicket {
        projection_epoch: coordinator.projection_epoch,
        observation_sequence: next(coordinator.observation_sequence),
    }
}

pub open spec fn after_start(coordinator: AndroidUiStartStopCoordinator) -> AndroidUiStartStopCoordinator {
    AndroidUiStartStopCoordinator {
        projection_epoch: next(coordinator.projection_epoch),
        pending_projection: PendingProjection::Starting,
        ..coordinator
    }
}

pub open spec fn after_stop(coordinator: AndroidUiStartStopCoordinator) -> AndroidUiStartStopCoordinator {
    AndroidUiStartStopCoordinator {
        epoch: next(coordinator.epoch),
        projection_epoch: next(coordinator.projection_epoch),
        pending_projection: PendingProjection::Stopping,
        ..coordinator
    }
}

pub open spec fn after_toggle(coordinator: AndroidUiStartStopCoordinator) -> AndroidUiStartStopCoordinator {
    AndroidUiStartStopCoordinator {
        projection_epoch: next(coordinator.projection_epoch),
        pending_projection: PendingProjection::Toggling,
        ..coordinator
    }
}

/// The coordinator after the current command ended.
pub open spec fn after_command(coordinator: AndroidUiStartStopCoordinator) -> AndroidUiStartStopCoordinator {
    AndroidUiStartStopCoordinator {
        projection_epoch: next(coordinator.projection_epoch),
        pending_projection: PendingProjection::Stable,
        ..coordinator
    }
}

pub open spec fn after_applying(
    coordinator: AndroidUiStartStopCoordinator,
    ticket: AndroidProjectionObservationTicket,
) -> AndroidUiStartStopCoordinator {
    AndroidUiStartStopCoordinator {
        applied_observation_sequence: ticket.observation_sequence,
        ..coordinator
    }
}

/// Whether a status reply is believed.
pub open spec fn accepts_observation(
    coordinator: AndroidUiStartStopCoordinator,
    ticket: AndroidProjectionObservationTicket,
    desired_active: Option<bool>,
) -> bool {
    observation_is_current(coordinator, ticket) && matches_pending(
        coordinator.pending_projection,
        desired_active,
    )
}

pub open spec fn cancelled() -> crate::commands::CommandErrorView {
    crate::commands::error_text("connection_intent_cancelled"@, "Подключение отменено"@)
}

pub fn android_start_epoch_is_current(expected: u64, current: u64) -> (result: bool)
    ensures
        result == (expected == current),
{
    expected == current
}

fn cancelled_error() -> (error: CommandError)
    ensures
        error@ == cancelled(),
{
    CommandError::new("connection_intent_cancelled", "Подключение отменено")
}

impl AndroidUiStartStopCoordinator {
    pub fn new() -> (coordinator: Self)
        ensures
            coordinator == (AndroidUiStartStopCoordinator {
                epoch: 0,
                projection_epoch: 0,
                observation_sequence: 0,
                applied_observation_sequence: 0,
                pending_projection: PendingProjection::Stable,
            }),
    {
        AndroidUiStartStopCoordinator {
            epoch: 0,
            projection_epoch: 0,
            observation_sequence: 0,
            applied_observation_sequence: 0,
            pending_projection: PendingProjection::Stable,
        }
    }

    pub fn start_ticket(&self) -> (ticket: AndroidUiStartTicket)
        ensures
            ticket == AndroidUiStartTicket(self.epoch),
    {
        AndroidUiStartTicket(self.epoch)
    }

    pub fn projection_ticket(&mut self) -> (ticket: AndroidProjectionObservationTicket)
        ensures
            ticket == observation_ticket(*old(self)),
            *final(self) == after_observing(*old(self)),
    {
        self.observation_sequence = self.observation_sequence.wrapping_add(1);
        AndroidProjectionObservationTicket {
            projection_epoch: self.projection_epoch,
            observation_sequence: self.observation_sequence,
        }
    }

    fn next_projection_ticket(&mut self) -> (ticket: AndroidProjectionTicket)
        ensures
            *final(self) == (AndroidUiStartStopCoordinator {
                projection_epoch: next(old(self).projection_epoch),
                ..*old(self)
            }),
            ticket == AndroidProjectionTicket(final(self).projection_epoch),
    {
        self.projection_epoch = self.projection_epoch.wrapping_add(1);
        AndroidProjectionTicket(self.projection_epoch)
    }

    pub fn ensure_current(&self, ticket: AndroidUiStartTicket) -> (result: Result<(), CommandError>)
        ensures
            result is Ok <==> start_is_current(*self, ticket),
            result matches Err(error) ==> error@ == cancelled(),
    {
        if android_start_epoch_is_current(ticket.0, self.epoch) {
            Ok(())
        } else {
            Err(cancelled_error())
        }
    }

    /// Begins to start the tunnel, unless a stop came first.
    pub fn begin_projected_start(
        &mut self,
        ticket: AndroidUiStartTicket,
        projection: &mut AndroidDesiredActiveProjection,
    ) -> (result: Result<AndroidProjectionTicket, CommandError>)
        ensures
            result is Ok <==> start_is_current(*old(self), ticket),
            result matches Ok(command) ==> {
                &&& *final(self) == after_start(*old(self))
                &&& *final(projection) == projected(None)
                &&& command == AndroidProjectionTicket(final(self).projection_epoch)
            },
            result matches Err(error) ==> {
                &&& error@ == cancelled()
                &&& *final(self) == *old(self)
                &&& *final(projection) == *old(projection)
            },
    {
        if let Err(error) = self.ensure_current(ticket) {
            return Err(error);
        }
        let command = self.next_projection_ticket();
        self.pending_projection = PendingProjection::Starting;
        projection.observe_snapshot(true, None);
        Ok(command)
    }

    /// Takes in the acknowledgement of a start, unless something came since.
    pub fn commit_projected_start(
        &mut self,
        ticket: AndroidUiStartTicket,
        command: AndroidProjectionTicket,
        projection: &mut AndroidDesiredActiveProjection,
        desired_active: bool,
    ) -> (result: Result<(), CommandError>)
        ensures
            result is Ok <==> start_is_current(*old(self), ticket) && command_is_current(
                *old(self),
                command,
            ),
            result is Ok ==> *final(self) == after_command(*old(self)),
            result is Ok ==> *final(projection) == projected(Some(desired_active)),
            result matches Err(error) ==> {
                &&& error@ == cancelled()
                &&& *final(self) == *old(self)
                &&& *final(projection) == *old(projection)
            },
    {
        if let Err(error) = self.ensure_current(ticket) {
            return Err(error);
        }
        if !self.projection_is_current(command) {
            return Err(cancelled_error());
        }
        projection.observe_confirmed(desired_active);
        self.pending_projection = PendingProjection::Stable;
        self.next_projection_ticket();
        Ok(())
    }

    /// Begins to stop the tunnel. Starts that were asked for before are void.
    pub fn begin_projected_stop(&mut self) -> (command: AndroidProjectionTicket)
        ensures
            *final(self) == after_stop(*old(self)),
            command == AndroidProjectionTicket(final(self).projection_epoch),
    {
        self.epoch = self.epoch.wrapping_add(1);
        let command = self.next_projection_ticket();
        self.pending_projection = PendingProjection::Stopping;
        command
    }

    /// Begins to forget the connection. Starts that were asked for before are
    /// void.
    pub fn begin_projected_clear(&mut self) -> (command: AndroidProjectionTicket)
        ensures
            *final(self) == after_stop(*old(self)),
            command == AndroidProjectionTicket(final(self).projection_epoch),
    {
        self.epoch = self.epoch.wrapping_add(1);
        let command = self.next_projection_ticket();
        self.pending_projection = PendingProjection::Stopping;
        command
    }

    /// Begins to turn the tunnel over, whatever its state.
    pub fn begin_projected_toggle(&mut self, projection: &mut AndroidDesiredActiveProjection) -> (
    command: AndroidProjectionTicket)
        ensures
            *final(self) == after_toggle(*old(self)),
            *final(projection) == projected(None),
            command == AndroidProjectionTicket(final(self).projection_epoch),
    {
        let command = self.next_projection_ticket();
        self.pending_projection = PendingProjection::Toggling;
        projection.observe_snapshot(true, None);
        command
    }

    /// Begins a stop and hands it to the service.
    pub fn dispatch_projected_stop<T, F: FnOnce() -> T>(&mut self, dispatch: F) -> (result: (
        AndroidProjectionTicket,
        T,
    ))
        requires
            call_requires(dispatch, ()),
        ensures
            *final(self) == after_stop(*old(self)),
            result.0 == AndroidProjectionTicket(final(self).projection_epoch),
            call_ensures(dispatch, (), result.1),
    {
        let command = self.begin_projected_stop();
        (command, dispatch())
    }

    /// Begins to forget the connection and hands that to the service.
    pub fn dispatch_projected_clear<T, F: FnOnce() -> T>(&mut self, dispatch: F) -> (result: (
        AndroidProjectionTicket,
        T,
    ))
        requires
            call_requires(dispatch, ()),
        ensures
            *final(self) == after_stop(*old(self)),
            result.0 == AndroidProjectionTicket(final(self).projection_epoch),
            call_ensures(dispatch, (), result.1),
    {
        let command = self.begin_projected_clear();
        (command, dispatch())
    }

    /// Begins to turn the tunnel over and hands that to the service.
    pub fn dispatch_projected_toggle<T, F: FnOnce() -> T>(
        &mut self,
        projection: &mut AndroidDesiredActiveProjection,
        dispatch: F,
    ) -> (result: (AndroidProjectionTicket, T))
        requires
            call_requires(dispatch, ()),
        ensures
            *final(self) == after_toggle(*old(self)),
            *final(projection) == projected(None),
            result.0 == AndroidProjectionTicket(final(self).projection_epoch),
            call_ensures(dispatch, (), result.1),
    {
        let command = self.begin_projected_toggle(projection);
        (command, dispatch())
    }

    /// Takes in the result of a command, unless another came since.
    pub fn commit_projected_action(
        &mut self,
        ticket: AndroidProjectionTicket,
        projection: &mut AndroidDesiredActiveProjection,
        desired_active: bool,
    ) -> (committed: bool)
        ensures
            committed == command_is_current(*old(self), ticket),
            committed ==> *final(self) == after_command(*old(self)),
            committed ==> *final(projection) == projected(Some(desired_active)),
            !committed ==> *final(self) == *old(self),
            !committed ==> *final(projection) == *old(projection),
    {
        if !self.projection_is_current(ticket) {
            return false;
        }
        projection.observe_confirmed(desired_active);
        self.pending_projection = PendingProjection::Stable;
        self.next_projection_ticket();
        true
    }

    /// Ends a command without a result.
    pub fn finish_projected_action(&mut self, ticket: AndroidProjectionTicket)
        ensures
            *final(self) == if command_is_current(*old(self), ticket) {
                after_command(*old(self))
            } else {
                *old(self)
            },
    {
        if self.projection_is_current(ticket) {
            self.pending_projection = PendingProjection::Stable;
            self.next_projection_ticket();
        }
    }

    /// Ends a command with what the service has answered to it: whether it is to
    /// be active, or nothing where the command came to nothing.
    pub fn settle_projected_action(
        &mut self,
        ticket: AndroidProjectionTicket,
        projection: &mut AndroidDesiredActiveProjection,
        answer: Option<bool>,
    )
        ensures
            *final(self) == (if command_is_current(*old(self), ticket) {
                after_command(*old(self))
            } else {
                *old(self)
            }),
            *final(projection) == (if answer is Some && command_is_current(*old(self), ticket) {
                projected(answer)
            } else {
                *old(projection)
            }),
    {
        match answer {
            Some(desired_active) => {
                self.commit_projected_action(ticket, projection, desired_active);
            },
            None => self.finish_projected_action(ticket),
        }
    }

    /// Takes in a status reply, if it is still to be believed.
    pub fn observe_projected_status(
        &mut self,
        ticket: AndroidProjectionObservationTicket,
        projection: &mut AndroidDesiredActiveProjection,
        desired_active: bool,
    ) -> (applied: bool)
        ensures
            applied == accepts_observation(*old(self), ticket, Some(desired_active)),
            applied ==> *final(self) == after_applying(*old(self), ticket),
            applied ==> *final(projection) == projected(Some(desired_active)),
            !applied ==> *final(self) == *old(self),
            !applied ==> *final(projection) == *old(projection),
    {
        if !self.projection_observation_is_current(ticket) {
            return false;
        }
        if !Self::projection_observation_matches_pending(
            self.pending_projection,
            Some(desired_active),
        ) {
            return false;
        }
        projection.observe_confirmed(desired_active);
        self.applied_observation_sequence = ticket.observation_sequence;
        true
    }

    /// Takes in a snapshot of the service, if it is still to be believed. One
    /// without a change is always in order.
    pub fn observe_projected_snapshot(
        &mut self,
        ticket: AndroidProjectionObservationTicket,
        projection: &mut AndroidDesiredActiveProjection,
        changed: bool,
        desired_active: Option<bool>,
    ) -> (applied: bool)
        ensures
            applied == (!changed || accepts_observation(*old(self), ticket, desired_active)),
            changed && applied ==> *final(self) == after_applying(*old(self), ticket),
            changed && applied ==> *final(projection) == projected(desired_active),
            !(changed && applied) ==> *final(self) == *old(self),
            !(changed && applied) ==> *final(projection) == *old(projection),
    {
        if !changed {
            return true;
        }
        if !self.projection_observation_is_current(ticket) {
            return false;
        }
        if !Self::projection_observation_matches_pending(self.pending_projection, desired_active) {
            return false;
        }
        self.applied_observation_sequence = ticket.observation_sequence;
        projection.observe_snapshot(true, desired_active);
        true
    }

    /// Ends a status request: says whether the reply is to be believed and
    /// what to show otherwise.
    pub fn finalize_projected_status(
        &mut self,
        ticket: AndroidProjectionObservationTicket,
        projection: &mut AndroidDesiredActiveProjection,
        desired_active: Option<bool>,
    ) -> (result: (bool, ConnectionIntentStatus))
        ensures
            result.0 == (desired_active is Some && accepts_observation(
                *old(self),
                ticket,
                desired_active,
            )),
            result.1 == fallback_status(*final(projection)),
            *final(projection) == if result.0 {
                projected(desired_active)
            } else {
                *old(projection)
            },
            *final(self) == if observation_is_current(*old(self), ticket) && (desired_active is None
                || result.0) {
                after_applying(*old(self), ticket)
            } else {
                *old(self)
            },
    {
        let observation_is_current = self.projection_observation_is_current(ticket);
        let status_is_current = observation_is_current && desired_active.is_some()
            && Self::projection_observation_matches_pending(self.pending_projection, desired_active);
        if status_is_current {
            if let Some(desired_active) = desired_active {
                projection.observe_confirmed(desired_active);
            }
        }
        if observation_is_current && (desired_active.is_none() || status_is_current) {
            self.applied_observation_sequence = ticket.observation_sequence;
        }
        (status_is_current, projection.status_unavailable_fallback())
    }

    /// Ends a status request that failed.
    pub fn projected_status_fallback(
        &mut self,
        ticket: AndroidProjectionObservationTicket,
        projection: &AndroidDesiredActiveProjection,
    ) -> (status: ConnectionIntentStatus)
        ensures
            status == fallback_status(*projection),
            *final(self) == if observation_is_current(*old(self), ticket) {
                after_applying(*old(self), ticket)
            } else {
                *old(self)
            },
    {
        if self.projection_observation_is_current(ticket) {
            self.applied_observation_sequence = ticket.observation_sequence;
        }
        projection.status_unavailable_fallback()
    }

    pub fn projection_is_current(&self, ticket: AndroidProjectionTicket) -> (current: bool)
        ensures
            current == command_is_current(*self, ticket),
    {
        ticket.0 == self.projection_epoch
    }

    pub fn projection_observation_is_current(
        &self,
        ticket: AndroidProjectionObservationTicket,
    ) -> (current: bool)
        ensures
            current == observation_is_current(*self, ticket),
    {
        ticket.projection_epoch == self.projection_epoch && ticket.observation_sequence
            >= self.applied_observation_sequence
    }

    pub fn projection_observation_matches_pending(
        pending: PendingProjection,
        desired_active: Option<bool>,
    ) -> (result: bool)
        ensures
            result == matches_pending(pending, desired_active),
    {
        match pending {
            PendingProjection::Stable => true,
            PendingProjection::Stopping => desired_active == Some(false),
            PendingProjection::Starting => desired_active == Some(true),
            PendingProjection::Toggling => false,
        }
    }

    /// Voids the starts that were asked for before, for a stop that projects
    /// nothing.
    pub fn cancel_starts(&mut self)
        ensures
            *final(self) == (AndroidUiStartStopCoordinator {
                epoch: next(old(self).epoch),
                ..*old(self)
            }),
    {
        self.epoch = self.epoch.wrapping_add(1);
    }

    /// The result of a start that has run: void if a stop came meanwhile.
    pub fn finish_start<T>(
        &self,
        ticket: AndroidUiStartTicket,
        result: Result<T, CommandError>,
    ) -> (outcome: Result<T, CommandError>)
        ensures
            start_is_current(*self, ticket) ==> outcome == result,
            !start_is_current(*self, ticket) ==> (outcome matches Err(error) && error@
                == cancelled()),
    {
        match self.ensure_current(ticket) {
            Ok(_) => result,
            Err(error) => Err(error),
        }
    }
}

/// How far a side effect has come.
pub enum SideEffectPoll<T> {
    Pending,
    Ready(T),
}

/// A start that is handed to the service once it is polled for the first time.
pub struct AndroidProjectedStart {
    pub ticket: AndroidUiStartTicket,
    pub command: Option<AndroidProjectionTicket>,
}

impl AndroidProjectedStart {
    pub fn new(ticket: AndroidUiStartTicket) -> (start: Self)
        ensures
            start.ticket == ticket,
            start.command is None,
    {
        AndroidProjectedStart { ticket, command: None }
    }

    /// Comes before every poll of the service: the first begins the command,
    /// unless a stop came first.
    pub fn before_poll(
        &mut self,
        coordinator: &mut AndroidUiStartStopCoordinator,
        projection: &mut AndroidDesiredActiveProjection,
    ) -> (result: Result<(), CommandError>)
        ensures
            final(self).ticket == old(self).ticket,
            old(self).command is Some ==> result is Ok && *final(self) == *old(self)
                && *final(coordinator) == *old(coordinator) && *final(projection) == *old(
                projection,
            ),
            old(self).command is None ==> {
                &&& result is Ok <==> start_is_current(*old(coordinator), old(self).ticket)
                &&& result is Ok ==> {
                    &&& *final(coordinator) == after_start(*old(coordinator))
                    &&& *final(projection) == projected(None)
                    &&& final(self).command == Some(
                        AndroidProjectionTicket(final(coordinator).projection_epoch),
                    )
                }
                &&& result matches Err(error) ==> {
                    &&& error@ == cancelled()
                    &&& *final(self) == *old(self)
                    &&& *final(coordinator) == *old(coordinator)
                    &&& *final(projection) == *old(projection)
                }
            },
    {
        if self.command.is_some() {
            return Ok(());
        }
        match coordinator.begin_projected_start(self.ticket, projection) {
            Ok(command) => {
                self.command = Some(command);
                Ok(())
            },
            Err(error) => Err(error),
        }
    }

    /// Comes after every poll of the service: a failure ends the command.
    pub fn after_poll<T>(
        &self,
        coordinator: &mut AndroidUiStartStopCoordinator,
        polled: SideEffectPoll<Result<T, CommandError>>,
    ) -> (result: SideEffectPoll<Result<(AndroidProjectionTicket, T), CommandError>>)
        requires
            self.command is Some,
        ensures
            match polled {
                SideEffectPoll::Pending => {
                    &&& result is Pending
                    &&& *final(coordinator) == *old(coordinator)
                },
                SideEffectPoll::Ready(Ok(value)) => {
                    &&& result == SideEffectPoll::Ready(
                        Ok::<(AndroidProjectionTicket, T), CommandError>((self.command->0, value)),
                    )
                    &&& *final(coordinator) == *old(coordinator)
                },
                SideEffectPoll::Ready(Err(error)) => {
                    &&& result == SideEffectPoll::Ready(
                        Err::<(AndroidProjectionTicket, T), CommandError>(error),
                    )
                    &&& *final(coordinator) == if command_is_current(
                        *old(coordinator),
                        self.command->0,
                    ) {
                        after_command(*old(coordinator))
                    } else {
                        *old(coordinator)
                    }
                },
            },
    {
        match polled {
            SideEffectPoll::Pending => SideEffectPoll::Pending,
            SideEffectPoll::Ready(Ok(value)) => SideEffectPoll::Ready(
                Ok((self.command.unwrap(), value)),
            ),
            SideEffectPoll::Ready(Err(error)) => {
                if let Some(command) = self.command {
                    coordinator.finish_projected_action(command);
                }
                SideEffectPoll::Ready(Err(error))
            },
        }
    }
}

/// What a status of the service means, or what is shown without one.
pub open spec fn projected_intent(
    status: Option<(Seq<char>, Option<i64>)>,
    fallback: ConnectionIntentStatus,
) -> (ConnectionIntentStatus, Option<i64>) {
    match status {
        Some((text, next_retry_at_unix)) => if text == "recovering"@ {
            (ConnectionIntentStatus::Recovering, next_retry_at_unix)
        } else if text == "blocked_terminal"@ {
            (ConnectionIntentStatus::BlockedTerminal, next_retry_at_unix)
        } else {
            (ConnectionIntentStatus::Idle, None)
        },
        None => (fallback, None),
    }
}

pub fn project_android_connection_intent_status(
    status: Option<(&str, Option<i64>)>,
    status_unavailable_fallback: ConnectionIntentStatus,
) -> (result: (ConnectionIntentStatus, Option<i64>))
    ensures
        result == projected_intent(
            match status {
                Some((text, next_retry_at_unix)) => Some((text@, next_retry_at_unix)),
                None => None,
            },
            status_unavailable_fallback,
        ),
{
    match status {
        Some((text, next_retry_at_unix)) => if same_text(text, "recovering") {
            (ConnectionIntentStatus::Recovering, next_retry_at_unix)
        } else if same_text(text, "blocked_terminal") {
            (ConnectionIntentStatus::BlockedTerminal, next_retry_at_unix)
        } else {
            (ConnectionIntentStatus::Idle, None)
        },
        None => (status_unavailable_fallback, None),
    }
}

/// A stop voids every start that was asked for before it, whatever the service
/// answers to it later.
pub proof fn law_stop_voids_earlier_starts(coordinator: AndroidUiStartStopCoordinator)
    ensures
        !start_is_current(after_stop(coordinator), AndroidUiStartTicket(coordinator.epoch)),
        !start_is_current(
            after_command(after_stop(coordinator)),
            AndroidUiStartTicket(coordinator.epoch),
        ),
{
}

/// A counter after some steps.
pub open spec fn counter_after(counter: u64, steps: nat) -> u64
    decreases steps,
{
    if steps == 0 {
        counter
    } else {
        next(counter_after(counter, (steps - 1) as nat))
    }
}

proof fn lemma_counter_after(counter: u64, steps: nat)
    requires
        steps <= u64::MAX,
    ensures
        counter_after(counter, steps) == if counter + steps <= u64::MAX {
            counter + steps
        } else {
            counter + steps - u64::MAX - 1
        },
    decreases steps,
{
    if steps > 0 {
        lemma_counter_after(counter, (steps - 1) as nat);
    }
}

/// However many stops follow, a start that was asked for before the first of
/// them stays void, until the counter of stops has gone all the way round.
pub proof fn law_voided_start_stays_void(ticket: AndroidUiStartTicket, stops: nat)
    requires
        0 < stops <= u64::MAX,
    ensures
        counter_after(ticket.0, stops) != ticket.0,
{
    lemma_counter_after(ticket.0, stops);
}

/// The acknowledgement of a command that another followed is not taken in:
/// neither a late stop over a newer start nor a late start over a newer stop.
pub proof fn law_late_acknowledgement_is_ignored(
    coordinator: AndroidUiStartStopCoordinator,
    command: AndroidProjectionTicket,
)
    requires
        command_is_current(coordinator, command),
    ensures
        !command_is_current(after_start(coordinator), command),
        !command_is_current(after_stop(coordinator), command),
        !command_is_current(after_toggle(coordinator), command),
        !command_is_current(after_command(coordinator), command),
        !command_is_current(after_command(after_start(coordinator)), command),
        !command_is_current(after_command(after_stop(coordinator)), command),
        !command_is_current(after_command(after_toggle(coordinator)), command),
{
}

/// An observation that was begun before a command is not believed once the
/// command has begun, nor once it has ended.
pub proof fn law_observation_before_a_command_is_ignored(
    coordinator: AndroidUiStartStopCoordinator,
    desired_active: Option<bool>,
)
    ensures
        ({
            let ticket = observation_ticket(coordinator);
            let observed = after_observing(coordinator);
            &&& !accepts_observation(after_start(observed), ticket, desired_active)
            &&& !accepts_observation(after_stop(observed), ticket, desired_active)
            &&& !accepts_observation(after_toggle(observed), ticket, desired_active)
            &&& !accepts_observation(after_command(after_start(observed)), ticket, desired_active)
            &&& !accepts_observation(after_command(after_stop(observed)), ticket, desired_active)
            &&& !accepts_observation(after_command(after_toggle(observed)), ticket, desired_active)
        }),
{
}

/// Once a later observation was taken in, an earlier one is not believed.
pub proof fn law_older_observation_is_ignored(
    coordinator: AndroidUiStartStopCoordinator,
    desired_active: Option<bool>,
)
    requires
        coordinator.observation_sequence < u64::MAX - 1,
    ensures
        ({
            let older = observation_ticket(coordinator);
            let between = after_observing(coordinator);
            let newer = observation_ticket(between);
            !accepts_observation(
                after_applying(after_observing(between), newer),
                older,
                desired_active,
            )
        }),
{
}

/// While a command is under way only what it asked for is believed, and while
/// the tunnel is being turned over nothing is.
pub proof fn law_pending_command_fences_contradictions(
    coordinator: AndroidUiStartStopCoordinator,
    ticket: AndroidProjectionObservationTicket,
)
    ensures
        !accepts_observation(after_start(coordinator), ticket, Some(false)),
        !accepts_observation(after_start(coordinator), ticket, None),
        !accepts_observation(after_stop(coordinator), ticket, Some(true)),
        !accepts_observation(after_stop(coordinator), ticket, None),
        !accepts_observation(after_toggle(coordinator), ticket, Some(true)),
        !accepts_observation(after_toggle(coordinator), ticket, Some(false)),
        !accepts_observation(after_toggle(coordinator), ticket, None),
{
}

/// The interface shows idle without an answer of the service only where a stop
/// was the last thing confirmed.
pub proof fn law_idle_is_shown_only_after_a_confirmed_stop(desired_active: Option<bool>)
    ensures
        fallback_status(projected(desired_active)) == ConnectionIntentStatus::Idle
            <==> desired_active == Some(false),
{
}

} // verus!
