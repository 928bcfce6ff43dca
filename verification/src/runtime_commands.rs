//! Commands about the runtime that is used and about updates.
use crate::commands::{CommandError, CommandErrorView};
use crate::text::{contains_text, same_text};
use vstd::prelude::*;

verus! {

#[derive(Clone, Copy, Debug, PartialEq, Eq, Structural)]
pub enum RuntimeSlot {
    Stable,
    Latest,
}

pub fn runtime_slot_for_selection(use_stable: bool) -> (slot: RuntimeSlot)
    ensures
        slot == (if use_stable {
            RuntimeSlot::Stable
        } else {
            RuntimeSlot::Latest
        }),
{
    if use_stable {
        RuntimeSlot::Stable
    } else {
        RuntimeSlot::Latest
    }
}

/// Which runtime runs, is chosen, and is about to be used.
#[derive(Clone, Copy, Debug, PartialEq, Eq, Structural)]
pub struct RuntimeSwitchStatus {
    pub active_slot: RuntimeSlot,
    pub selected_slot: RuntimeSlot,
    pub pending_slot: Option<RuntimeSlot>,
    pub restart_required: bool,
}

#[derive(Clone, Copy, Debug, PartialEq, Eq, Structural)]
pub enum RuntimeSelection {
    CancelPending,
    Request(RuntimeSlot),
    Nothing,
}

/// What choosing a runtime comes to: a switch that is about to happen is
/// called off where the runtime that runs was chosen again.
pub fn runtime_select(current: RuntimeSwitchStatus, use_stable: bool) -> (selection: RuntimeSelection)
    ensures
        ({
            let desired = if use_stable {
                RuntimeSlot::Stable
            } else {
                RuntimeSlot::Latest
            };
            selection == (if desired == current.active_slot && current.restart_required {
                RuntimeSelection::CancelPending
            } else if desired != current.selected_slot || current.pending_slot is Some {
                RuntimeSelection::Request(desired)
            } else {
                RuntimeSelection::Nothing
            })
        }),
{
    let desired = runtime_slot_for_selection(use_stable);
    if desired == current.active_slot && current.restart_required {
        RuntimeSelection::CancelPending
    } else if desired != current.selected_slot || current.pending_slot.is_some() {
        RuntimeSelection::Request(desired)
    } else {
        RuntimeSelection::Nothing
    }
}

pub fn runtime_switch_error() -> (error: CommandError)
    ensures
        error@ == crate::commands::error_text(
            "runtime_switch_recovery_required"@,
            "Переключение runtime требует безопасного восстановления"@,
        ),
{
    CommandError::new(
        "runtime_switch_recovery_required",
        "Переключение runtime требует безопасного восстановления",
    )
}

pub open spec fn update_message(error: Seq<char>) -> Seq<char> {
    if crate::text::occurs_in(error, "backend is unavailable"@) {
        "На этом устройстве обновление устанавливается вручную"@
    } else if crate::text::occurs_in(error, "install_permission_denied"@) {
        "Разрешите Nelomai устанавливать обновления и повторите попытку"@
    } else if crate::text::occurs_in(error, "preference"@) {
        "Не удалось сохранить настройки обновлений"@
    } else {
        "Не удалось установить обновление"@
    }
}

/// What is shown of a failed update, by the words that its error holds.
pub fn update_error_message(error: &str) -> (message: &'static str)
    ensures
        message@ == update_message(error@),
{
    if contains_text(error, "backend is unavailable") {
        "На этом устройстве обновление устанавливается вручную"
    } else if contains_text(error, "install_permission_denied") {
        "Разрешите Nelomai устанавливать обновления и повторите попытку"
    } else if contains_text(error, "preference") {
        "Не удалось сохранить настройки обновлений"
    } else {
        "Не удалось установить обновление"
    }
}

pub fn update_command_error(error: &str) -> (result: CommandError)
    ensures
        result@ == crate::commands::error_text("update_failed"@, update_message(error@)),
{
    CommandError::new("update_failed", update_error_message(error))
}

pub open spec fn update_not_ready() -> CommandErrorView {
    crate::commands::error_text("update_not_ready"@, "Обновление ещё не готово к перезапуску"@)
}

/// Whether the application may be restarted for an update in this phase of it.
pub fn update_restart_allowed(phase: &str) -> (result: Result<(), CommandError>)
    ensures
        result is Ok == (phase@ == "ready_to_restart"@),
        result matches Err(error) ==> error@ == update_not_ready(),
{
    if same_text(phase, "ready_to_restart") {
        Ok(())
    } else {
        Err(CommandError::new("update_not_ready", "Обновление ещё не готово к перезапуску"))
    }
}

} // verus!
