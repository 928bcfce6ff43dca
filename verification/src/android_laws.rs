//! What holds of the client on Android: how a start finds its way to the
//! service or past it, what is believed of the service meanwhile, and what the
//! service is given to work on its own.
use crate::android_projection::{
    accepts_observation, after_applying, after_command, after_observing, after_start, after_stop,
    after_toggle, command_is_current, fallback_status, next, observation_ticket, projected,
    projected_intent, start_is_current, AndroidProjectionObservationTicket, AndroidProjectionTicket,
    AndroidUiStartStopCoordinator, AndroidUiStartTicket, PendingProjection,
};
use crate::android_provision::{
    provision_mode, snapshot_is, AndroidBackgroundCapabilitySnapshot,
    AndroidBackgroundProvisionMode, BackgroundCredentialStatus,
};
use crate::android_runtime::{
    other_than, paths_except, place_of_runtime, shown_paths, RuntimePath, RuntimePathView,
};
use crate::commands::{application_error, error_text};
use crate::connection_commands::{
    android_start_awaits, android_start_step, is_durable, is_legacy, recovers_at_startup,
    runtime_ready_failure, AndroidIntentStatus, AndroidStartEvent, AndroidStartOutcomeView,
    AndroidStartStage, RuntimeReadyError,
};
use crate::core_state::{ConnectionIntentCapability, ConnectionIntentStatus};
use crate::errors::{ApplicationError, CoreError};
use crate::runtime_commands::RuntimeSlot;
use vstd::prelude::*;

verus! {

/// A start goes to the service where the service has an intent already, or the
/// panel has granted one for that very device; everything before the hand-over
/// succeeds in turn, and the start is then the service's to recover.
pub proof fn law_start_reaches_the_service(
    device: Seq<char>,
    binding_requested: bool,
    status: AndroidIntentStatus,
    panel_device: String,
    capability: Option<ConnectionIntentCapability>,
    acknowledged: AndroidIntentStatus,
    now_unix: i64,
)
    requires
        panel_device@ == device,
        crate::core_state::allows_intent(capability, now_unix),
        is_durable(acknowledged),
    ensures
        ({
            let read = android_start_step(
                AndroidStartStage::ReadingStatus,
                device,
                binding_requested,
                AndroidStartEvent::StatusRead(Some(status)),
                now_unix,
            );
            let confirmed = android_start_step(
                read.0,
                device,
                binding_requested,
                AndroidStartEvent::Confirmed(Ok(())),
                now_unix,
            );
            let asked = android_start_step(
                AndroidStartStage::Bootstrapping,
                device,
                binding_requested,
                AndroidStartEvent::Bootstrapped(Ok((panel_device, capability))),
                now_unix,
            );
            let built = android_start_step(
                asked.0,
                device,
                binding_requested,
                AndroidStartEvent::RequestBuilt(Ok(())),
                now_unix,
            );
            let handed = android_start_step(
                built.0,
                device,
                binding_requested,
                AndroidStartEvent::HandedOver(Ok(acknowledged)),
                now_unix,
            );
            &&& read.1 is Continue && confirmed.1 is Continue && asked.1 is Continue
            &&& confirmed.0 == (if status.lease_phase is Some {
                AndroidStartStage::BuildingRequest
            } else {
                AndroidStartStage::Bootstrapping
            })
            &&& asked.0 == AndroidStartStage::BuildingRequest
            &&& built.1 is Continue && built.0 == AndroidStartStage::HandingOver
            &&& handed.1 == AndroidStartOutcomeView::Recovering(acknowledged.next_retry_at_unix)
        }),
{
}

/// What a start was told wrong is its answer, as it was told; a service that
/// cannot be asked, another device and an intent that the service did not keep
/// each have an answer of their own.
pub proof fn law_start_fails_with_what_went_wrong(
    stage: AndroidStartStage,
    device: Seq<char>,
    binding_requested: bool,
    event: AndroidStartEvent,
    now_unix: i64,
)
    requires
        android_start_awaits(stage, event),
    ensures
        ({
            let (after, outcome) = android_start_step(
                stage,
                device,
                binding_requested,
                event,
                now_unix,
            );
            match event {
                AndroidStartEvent::StatusRead(None) => outcome == AndroidStartOutcomeView::Failed(
                    error_text(
                        "android_service_status_unavailable"@,
                        "Не удалось проверить состояние службы подключения"@,
                    ),
                ),
                AndroidStartEvent::StatusRead(Some(_)) => outcome is Continue,
                AndroidStartEvent::Confirmed(Err(error)) => outcome
                    == AndroidStartOutcomeView::Failed(error@),
                AndroidStartEvent::Confirmed(Ok(_)) => outcome is Continue,
                AndroidStartEvent::Bootstrapped(Err(error)) => outcome
                    == AndroidStartOutcomeView::Failed(application_error(error)),
                AndroidStartEvent::Bootstrapped(Ok((other, _))) => if other@ == device {
                    outcome is Continue
                } else {
                    outcome == AndroidStartOutcomeView::Failed(
                        error_text(
                            "device_mismatch"@,
                            "Подключение запрошено для другого устройства"@,
                        ),
                    )
                },
                AndroidStartEvent::PeerBound(Err(error)) => outcome
                    == AndroidStartOutcomeView::Failed(application_error(error)),
                AndroidStartEvent::PeerBound(Ok(_)) => outcome is Continue,
                AndroidStartEvent::LegacyStarted(Err(error)) => outcome
                    == AndroidStartOutcomeView::Failed(error@),
                AndroidStartEvent::LegacyStarted(Ok(connection)) => outcome
                    == AndroidStartOutcomeView::Connected(connection),
                AndroidStartEvent::RequestBuilt(Err(error)) => outcome
                    == AndroidStartOutcomeView::Failed(application_error(error)),
                AndroidStartEvent::RequestBuilt(Ok(_)) => outcome is Continue,
                AndroidStartEvent::HandedOver(Err(error)) => outcome
                    == AndroidStartOutcomeView::Failed(error@),
                AndroidStartEvent::HandedOver(Ok(acknowledged)) => if is_durable(acknowledged) {
                    outcome == AndroidStartOutcomeView::Recovering(acknowledged.next_retry_at_unix)
                } else {
                    outcome == AndroidStartOutcomeView::Failed(
                        error_text(
                            "connection_intent_persist_failed"@,
                            "Не удалось сохранить намерение подключения"@,
                        ),
                    )
                },
            }
        }),
{
}

/// The service has kept an intent only where it wants to be active and what it
/// says it is doing fits how far the lease has come.
pub proof fn law_kept_intent_is_consistent(acknowledged: AndroidIntentStatus)
    ensures
        is_durable(acknowledged) ==> acknowledged.desired_active && acknowledged.lease_phase is Some,
        !acknowledged.desired_active ==> !is_durable(acknowledged),
        acknowledged.desired_active ==> (acknowledged.lease_phase matches Some(phase) ==> {
            &&& phase@ == "start_pending"@ || phase@ == "lease_acquired"@ ==> (is_durable(
                acknowledged,
            ) || acknowledged.status@ != "recovering"@)
            &&& phase@ == "cleanup_pending"@ || phase@ == "stale_cleanup"@ ==> (is_durable(
                acknowledged,
            ) || acknowledged.status@ != "stopping"@)
            &&& phase@ == "active_checkpoint"@ ==> (is_durable(acknowledged) || acknowledged.status@
                != "none"@)
        }),
        is_durable(acknowledged) ==> (acknowledged.lease_phase matches Some(phase) && ((
        acknowledged.status@ == "recovering"@ && (phase@ == "start_pending"@ || phase@
            == "lease_acquired"@)) || (acknowledged.status@ == "stopping"@ && (phase@
            == "cleanup_pending"@ || phase@ == "stale_cleanup"@)) || (acknowledged.status@
            == "none"@ && phase@ == "active_checkpoint"@))),
{
}

/// A start that was asked for stays current until a stop, whatever else is
/// begun, ended or observed meanwhile.
pub proof fn law_start_is_current_until_a_stop(
    coordinator: AndroidUiStartStopCoordinator,
    ticket: AndroidUiStartTicket,
    seen: AndroidProjectionObservationTicket,
)
    ensures
        start_is_current(coordinator, AndroidUiStartTicket(coordinator.epoch)),
        start_is_current(after_start(coordinator), ticket) == start_is_current(coordinator, ticket),
        start_is_current(after_toggle(coordinator), ticket) == start_is_current(
            coordinator,
            ticket,
        ),
        start_is_current(after_command(coordinator), ticket) == start_is_current(
            coordinator,
            ticket,
        ),
        start_is_current(after_observing(coordinator), ticket) == start_is_current(
            coordinator,
            ticket,
        ),
        start_is_current(after_applying(coordinator, seen), ticket) == start_is_current(
            coordinator,
            ticket,
        ),
        start_is_current(coordinator, ticket) ==> !start_is_current(
            after_stop(coordinator),
            ticket,
        ),
{
}

/// A command that was begun is current until it ends or another begins;
/// looking at the service does not disturb it.
pub proof fn law_command_is_current_until_the_next(
    coordinator: AndroidUiStartStopCoordinator,
    seen: AndroidProjectionObservationTicket,
)
    ensures
        ({
            let begun = after_start(coordinator);
            let command = AndroidProjectionTicket(begun.projection_epoch);
            &&& command_is_current(begun, command)
            &&& command_is_current(after_observing(begun), command)
            &&& command_is_current(after_applying(begun, seen), command)
            &&& !command_is_current(after_command(begun), command)
            &&& !command_is_current(after_stop(begun), command)
            &&& !command_is_current(after_toggle(begun), command)
            &&& !command_is_current(after_start(begun), command)
            &&& begun.pending_projection == PendingProjection::Starting
        }),
        after_stop(coordinator).pending_projection == PendingProjection::Stopping,
        after_toggle(coordinator).pending_projection == PendingProjection::Toggling,
        after_command(coordinator).pending_projection == PendingProjection::Stable,
        crate::android_projection::cancelled() == application_error(
            ApplicationError::Core(CoreError::StartCancelled),
        ),
        next(coordinator.epoch) != coordinator.epoch,
        coordinator.epoch < u64::MAX ==> next(coordinator.epoch) == coordinator.epoch + 1,
{
}

/// What the service says is believed where nothing has come since it was asked:
/// anything while no command is under way, what a start or a stop asked for
/// while that is, and nothing while a toggle is.
pub proof fn law_current_answer_is_believed(
    coordinator: AndroidUiStartStopCoordinator,
    desired_active: Option<bool>,
)
    requires
        coordinator.applied_observation_sequence <= coordinator.observation_sequence < u64::MAX,
    ensures
        ({
            let ticket = observation_ticket(coordinator);
            let asked = after_observing(coordinator);
            let starting = after_start(coordinator);
            let stopping = after_stop(coordinator);
            &&& coordinator.pending_projection == PendingProjection::Stable ==> accepts_observation(
                asked,
                ticket,
                desired_active,
            )
            &&& accepts_observation(
                after_observing(starting),
                observation_ticket(starting),
                Some(true),
            )
            &&& accepts_observation(
                after_observing(stopping),
                observation_ticket(stopping),
                Some(false),
            )
            &&& desired_active != Some(true) ==> !accepts_observation(
                after_observing(starting),
                observation_ticket(starting),
                desired_active,
            )
            &&& desired_active != Some(false) ==> !accepts_observation(
                after_observing(stopping),
                observation_ticket(stopping),
                desired_active,
            )
            &&& !accepts_observation(
                after_observing(after_toggle(coordinator)),
                observation_ticket(after_toggle(coordinator)),
                desired_active,
            )
        }),
{
}

/// Looking at the service changes nothing but the count of looks, and what was
/// believed last is remembered by its number.
pub proof fn law_looking_changes_no_command(
    coordinator: AndroidUiStartStopCoordinator,
    ticket: AndroidProjectionObservationTicket,
)
    ensures
        ({
            let asked = after_observing(coordinator);
            &&& asked.epoch == coordinator.epoch
            &&& asked.projection_epoch == coordinator.projection_epoch
            &&& asked.pending_projection == coordinator.pending_projection
            &&& asked.applied_observation_sequence == coordinator.applied_observation_sequence
            &&& asked.observation_sequence != coordinator.observation_sequence
            &&& observation_ticket(coordinator).observation_sequence == asked.observation_sequence
            &&& observation_ticket(coordinator).projection_epoch == coordinator.projection_epoch
            &&& after_applying(coordinator, ticket).applied_observation_sequence
                == ticket.observation_sequence
            &&& after_applying(coordinator, ticket).pending_projection
                == coordinator.pending_projection
        }),
{
}

/// What is projected and shown: a start or an unknown state is shown as
/// recovering where the service does not answer, a confirmed stop as idle; an
/// answer is shown as it is, with the time of the next try only while it is
/// recovering or blocked.
pub proof fn law_answer_of_the_service_is_shown(
    text: Seq<char>,
    next_retry_at_unix: Option<i64>,
    fallback: ConnectionIntentStatus,
)
    ensures
        projected(Some(true)) != projected(Some(false)),
        projected(None) != projected(Some(true)),
        fallback_status(projected(Some(true))) == ConnectionIntentStatus::Recovering,
        fallback_status(projected(None)) == ConnectionIntentStatus::Recovering,
        fallback_status(projected(Some(false))) == ConnectionIntentStatus::Idle,
        projected_intent(None, fallback) == (fallback, None::<i64>),
        projected_intent(Some((text, next_retry_at_unix)), fallback) == (if text == "recovering"@ {
            (ConnectionIntentStatus::Recovering, next_retry_at_unix)
        } else if text == "blocked_terminal"@ {
            (ConnectionIntentStatus::BlockedTerminal, next_retry_at_unix)
        } else {
            (ConnectionIntentStatus::Idle, None)
        }),
{
    reveal_strlit("recovering");
    reveal_strlit("blocked_terminal");
}

/// The service is left alone exactly where nothing is under way, its credential
/// is that of this device, ready and good for more than a week, and it has the
/// capability that it is to have, which has not expired.
pub proof fn law_service_is_left_alone_only_when_complete(
    status: BackgroundCredentialStatus,
    device: Seq<char>,
    desired: AndroidBackgroundCapabilitySnapshot,
    now: i64,
)
    requires
        now <= i64::MAX - 604_800,
    ensures
        ({
            let mode = provision_mode(status, device, desired, now);
            let ready = status.configured && status.mutation_ready && (
            status.device_id matches Some(own) && own@ == device) && (
            status.expires_at_unix matches Some(expires) && expires > now + 604_800);
            let unexpired = status.capability_expires_at_unix matches Some(expires) && expires
                > now;
            let stored = status.capability_revision == desired.revision
                && status.capability_enabled == desired.enabled && (desired.enabled
                ==> status.capability_expires_at_unix == Some(desired.expires_at_unix));
            &&& mode == AndroidBackgroundProvisionMode::Noop <==> !status.mutation_pending && ready
                && stored && (status.capability_enabled ==> unexpired)
            &&& mode == AndroidBackgroundProvisionMode::RefreshStoredCapability
                <==> !status.mutation_pending && ready && !(stored && (status.capability_enabled
                ==> unexpired))
            &&& mode == AndroidBackgroundProvisionMode::UiAuthenticatedTwoPhase
                <==> status.mutation_pending || !ready && (desired.enabled
                || status.capability_enabled && unexpired)
            &&& mode == AndroidBackgroundProvisionMode::Legacy <==> !status.mutation_pending
                && !ready && !desired.enabled && !(status.capability_enabled && unexpired)
        }),
{
}

/// What the service stores of a capability: a usable one as it is, any other as
/// disabled since long ago; an invalid revision as none.
pub proof fn law_unusable_capability_is_stored_as_disabled(
    snapshot: AndroidBackgroundCapabilitySnapshot,
    capability: Option<ConnectionIntentCapability>,
    now: i64,
)
    requires
        snapshot_is(snapshot, capability, now),
    ensures
        ({
            let usable = capability matches Some(own) && own.connection_intent_recovery_v1
                && own.revision > 0 && (own.expires_at_unix matches Some(expires) && expires > now);
            &&& snapshot.enabled == usable
            &&& usable ==> Some(snapshot.expires_at_unix) == capability->0.expires_at_unix
                && snapshot.expires_at@ == capability->0.expires_at@
            &&& !usable ==> snapshot.expires_at_unix == 1 && snapshot.expires_at@
                == "1970-01-01T00:00:01Z"@
            &&& (capability matches Some(own) && own.revision > 0) ==> snapshot.revision
                == capability->0.revision
            &&& !(capability matches Some(own) && own.revision > 0) ==> snapshot.revision == 0
        }),
{
}

proof fn lemma_place_of_runtime(
    paths: Seq<RuntimePath>,
    slot: RuntimeSlot,
    version: Seq<char>,
    from: int,
)
    requires
        0 <= from <= paths.len(),
    ensures
        ({
            let place = place_of_runtime(paths, slot, version, from);
            &&& from <= place <= paths.len()
            &&& place < paths.len() ==> paths[place].slot == slot && paths[place].runtime_version@
                == version
            &&& forall|i: int|
                from <= i < place ==> (#[trigger] paths[i]).slot != slot
                    || paths[i].runtime_version@ != version
        }),
    decreases paths.len() - from,
{
    if from < paths.len() && !(paths[from].slot == slot && paths[from].runtime_version@
        == version) {
        lemma_place_of_runtime(paths, slot, version, from + 1);
    }
}

/// The storage of a runtime is the first that has both its slot and its
/// version, and it is found wherever there is one.
pub proof fn law_runtime_is_found_by_slot_and_version(
    paths: Seq<RuntimePath>,
    slot: RuntimeSlot,
    version: Seq<char>,
)
    ensures
        ({
            let place = place_of_runtime(paths, slot, version, 0);
            &&& 0 <= place <= paths.len()
            &&& place < paths.len() ==> paths[place].slot == slot && paths[place].runtime_version@
                == version
            &&& forall|i: int|
                0 <= i < place ==> (#[trigger] paths[i]).slot != slot || paths[i].runtime_version@
                    != version
        }),
{
    lemma_place_of_runtime(paths, slot, version, 0);
}

/// The sign-in is recovered at the start only where it is what failed; a desktop
/// that is not ready says whether that passes by itself.
pub proof fn law_startup_failure_is_told_apart(error: ApplicationError, ready: RuntimeReadyError)
    ensures
        recovers_at_startup(error) <==> error == ApplicationError::Core(CoreError::SignedOut)
            || error == ApplicationError::Core(CoreError::AuthRecoveryRequired),
        runtime_ready_failure(ready).code == (match ready {
            RuntimeReadyError::RefreshPending => "auth_refresh_pending"@,
            RuntimeReadyError::RecoveryRequired => "runtime_startup_pending"@,
            RuntimeReadyError::Timeout => "runtime_startup_pending"@,
            RuntimeReadyError::Service => "runtime_startup_pending"@,
            RuntimeReadyError::Other => "auth_recovery_required"@,
        }),
        runtime_ready_failure(RuntimeReadyError::Other) == application_error(
            ApplicationError::Core(CoreError::AuthRecoveryRequired),
        ),
        runtime_ready_failure(RuntimeReadyError::RefreshPending).message
            == "Восстанавливаем соединение с аккаунтом. Повторим автоматически; данные входа сохранены"@,
        runtime_ready_failure(RuntimeReadyError::RecoveryRequired) == runtime_ready_failure(
            RuntimeReadyError::Timeout,
        ),
        runtime_ready_failure(RuntimeReadyError::Service) == runtime_ready_failure(
            RuntimeReadyError::Timeout,
        ),
        runtime_ready_failure(RuntimeReadyError::Timeout).message
            == "Завершается подготовка приложения и предыдущего подключения. Повторим автоматически; данные входа сохранены"@,
{
}

/// Without the service a start confirms once more that it is wanted, binds the
/// peer exactly where one was asked for, and then connects; each of these
/// follows the one before it, and what failed is where the start stays.
pub proof fn law_start_without_the_service_is_in_order(
    stage: AndroidStartStage,
    device: Seq<char>,
    binding_requested: bool,
    event: AndroidStartEvent,
    panel_device: String,
    capability: Option<ConnectionIntentCapability>,
    now_unix: i64,
)
    requires
        android_start_awaits(stage, event),
        panel_device@ == device,
        !crate::core_state::allows_intent(capability, now_unix),
    ensures
        android_start_step(
            AndroidStartStage::Bootstrapping,
            device,
            binding_requested,
            AndroidStartEvent::Bootstrapped(Ok((panel_device, capability))),
            now_unix,
        ).0 == AndroidStartStage::ConfirmingLegacy,
        android_start_step(
            AndroidStartStage::ConfirmingLegacy,
            device,
            true,
            AndroidStartEvent::Confirmed(Ok(())),
            now_unix,
        ).0 == AndroidStartStage::BindingPeer,
        android_start_step(
            AndroidStartStage::ConfirmingLegacy,
            device,
            false,
            AndroidStartEvent::Confirmed(Ok(())),
            now_unix,
        ).0 == AndroidStartStage::StartingLegacy,
        ({
            let (after, outcome) = android_start_step(
                stage,
                device,
                binding_requested,
                event,
                now_unix,
            );
            &&& !(outcome is Continue) ==> after == stage
            &&& outcome is Continue ==> after != stage
            &&& outcome is Connected ==> stage == AndroidStartStage::StartingLegacy
            &&& outcome is Recovering ==> stage == AndroidStartStage::HandingOver
            &&& outcome is Continue && stage == AndroidStartStage::BindingPeer ==> after
                == AndroidStartStage::StartingLegacy
            &&& outcome is Continue ==> (is_legacy(after) <==> is_legacy(stage) || stage
                == AndroidStartStage::Bootstrapping && after == AndroidStartStage::ConfirmingLegacy)
        }),
        is_legacy(stage) <==> stage == AndroidStartStage::ConfirmingLegacy || stage
            == AndroidStartStage::BindingPeer || stage == AndroidStartStage::StartingLegacy,
{
}

/// The storage that is kept beside the selected one is all of the other, and
/// none of it.
pub proof fn law_other_storage_is_kept(
    paths: Seq<RuntimePath>,
    selected: RuntimePathView,
    path: RuntimePathView,
)
    ensures
        paths_except(paths, selected).contains(path) <==> path != selected && exists|i: int|
            0 <= i < paths.len() && (#[trigger] paths[i])@ == path,
{
    let shown = shown_paths(paths);
    crate::archive_laws::lemma_filter_contains(shown, other_than(selected), path);
    if shown.contains(path) {
        let i = choose|i: int| 0 <= i < shown.len() && shown[i] == path;
        assert(paths[i]@ == path);
    }
    if exists|i: int| 0 <= i < paths.len() && (#[trigger] paths[i])@ == path {
        let i = choose|i: int| 0 <= i < paths.len() && (#[trigger] paths[i])@ == path;
        assert(shown[i] == path);
    }
}

} // verus!
