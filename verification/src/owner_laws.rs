//! What holds around the connection: which program runs, what an update may
//! rest on, what the tray and the preferences say, when a Mac that wakes up is
//! given time, and what the channel of the records means.
use crate::container::{
    action_for, base64_char, base64_text, container_message, installation_result, plan_for,
    restart_result, start_fenced, ContainerError, HandoffPlan, InstallationAction, OperationView,
    ProofView,
};
use crate::core_state::Phase;
use crate::preferences::{default_preferences, restored, servers_of, DnsProvider, StoredPreferences};
use crate::private_storage::{
    done_reply, failure_reply, frame_of, is_frame_size, loaded_reply, request_bytes, request_of,
    size_of,
};
use crate::recovery_gate::{fully_awake, gate_step, is_new_wake, RecoveryGate};
use crate::runtime_commands::update_message;
use crate::text::occurs_in;
use crate::tray::{bytes_shown, nearest, presentation_of, spacing, unit_of, unit_size, unit_text};
use crate::versions::{is_version, numbers_after, plain_version};
use vstd::prelude::*;

verus! {

/// A program is installed exactly where nothing is installed or it is newer;
/// it goes on as it is only where it is the installed one and that is
/// protected, and an installed one that is not protected is repaired.
pub proof fn law_program_that_runs_is_the_installed_one(
    candidate_after: Option<bool>,
    protected: bool,
    running_installed: bool,
)
    ensures
        ({
            let action = action_for(candidate_after, protected, running_installed);
            &&& action == InstallationAction::InstallCandidate <==> candidate_after != Some(false)
            &&& action == InstallationAction::Continue <==> candidate_after == Some(false)
                && protected && running_installed
            &&& action == InstallationAction::LaunchInstalled <==> candidate_after == Some(false)
                && protected && !running_installed
            &&& action == InstallationAction::RepairInstalled <==> candidate_after == Some(false)
                && !protected
            &&& plan_for(action) is Install <==> action == InstallationAction::InstallCandidate
                || action == InstallationAction::RepairInstalled
            &&& plan_for(action) == HandoffPlan::Continue <==> action
                == InstallationAction::Continue
            &&& plan_for(action) == HandoffPlan::Launch <==> action
                == InstallationAction::LaunchInstalled
            &&& plan_for(InstallationAction::RepairInstalled) == (HandoffPlan::Install {
                from_installed: true,
            })
            &&& plan_for(InstallationAction::InstallCandidate) == (HandoffPlan::Install {
                from_installed: false,
            })
        }),
{
}

/// Whether the operation that replaces the program is the one of that proof.
pub open spec fn is_of(state: OperationView, stop: ProofView) -> bool {
    state.replacement == Some((stop, true)) || state.replacement == Some((stop, false))
}

/// Whether the program that replaces this one was installed.
pub open spec fn is_installed(state: OperationView) -> bool {
    exists|stop: ProofView| state.replacement == Some((stop, true))
}

/// An installation begins exactly where the tunnel was seen to stop and there
/// is a proof of it for the very operation that was begun, if one was; the
/// first thing that is missing is what is told.
pub proof fn law_installation_needs_the_stop(state: OperationView, current: Option<ProofView>)
    ensures
        installation_result(state, current) is Ok <==> state.observed_helper_stop && current is Some
            && (state.replacement is None || is_of(state, current->0)),
        !state.observed_helper_stop ==> installation_result(state, current) == Err::<
            (),
            ContainerError,
        >(ContainerError::StopReceiptUnavailable),
        state.observed_helper_stop && current is None ==> installation_result(state, current)
            == Err::<(), ContainerError>(ContainerError::StopProofUnavailable),
        state.observed_helper_stop && current is Some && installation_result(state, current) is Err
            ==> installation_result(state, current) == Err::<(), ContainerError>(
            ContainerError::UpdateOperationChanged,
        ),
{
    if let Some((previous, installed)) = state.replacement {
        assert(state.replacement == Some((previous, installed)));
        assert(installed == true || installed == false);
    }
}

/// The installed program is started exactly where the tunnel was seen to stop
/// and the operation that installed it is still the one that is proved.
pub proof fn law_restart_needs_the_stop(state: OperationView, current: Option<ProofView>)
    ensures
        restart_result(state, current) is Ok <==> state.observed_helper_stop
            && is_installed(state) && current is Some && is_of(state, current->0),
        !state.observed_helper_stop ==> restart_result(state, current) == Err::<
            (),
            ContainerError,
        >(ContainerError::StopReceiptUnavailable),
        state.observed_helper_stop && !is_installed(state)
            ==> restart_result(state, current) == Err::<(), ContainerError>(
            ContainerError::InstalledReceiptUnavailable,
        ),
        state.observed_helper_stop && is_installed(state) && !(current is Some && is_of(
            state,
            current->0,
        )) ==> restart_result(state, current) == Err::<
            (),
            ContainerError,
        >(ContainerError::InstalledReceiptChanged),
{
}

/// An installation that began and succeeded leads to the restart, with the same
/// proof and no other; a tunnel is started only where neither is under way.
pub proof fn law_installation_leads_to_the_restart(
    state: OperationView,
    stop: ProofView,
    other: ProofView,
    update_pending: bool,
)
    requires
        installation_result(state, Some(stop)) is Ok,
        other != stop,
    ensures
        ({
            let begun = OperationView { replacement: Some((stop, false)), ..state };
            let installed = OperationView { replacement: Some((stop, true)), ..begun };
            &&& restart_result(begun, Some(stop)) is Err
            &&& restart_result(installed, Some(stop)) is Ok
            &&& restart_result(installed, Some(other)) is Err
            &&& restart_result(installed, None) is Err
            &&& installation_result(begun, Some(stop)) is Ok
            &&& installation_result(begun, Some(other)) is Err
            &&& start_fenced(begun, update_pending) && start_fenced(installed, update_pending)
        }),
        start_fenced(state, update_pending) <==> update_pending || state.replacement is Some,
{
}

/// What the owner refuses is said by a sentence of its own.
pub proof fn law_refusals_of_the_owner_say_why()
    ensures
        container_message(ContainerError::StartFenced) == "native start fenced by update"@,
        container_message(ContainerError::PreparationFenced)
            == "native preparation fenced by update"@,
        container_message(ContainerError::RollbackRejected) == "container rollback rejected"@,
        container_message(ContainerError::StopReceiptUnavailable)
            == "live helper stop receipt unavailable"@,
        container_message(ContainerError::StopProofUnavailable) == "update stop proof unavailable"@,
        container_message(ContainerError::InstalledReceiptUnavailable)
            == "installed update receipt unavailable"@,
        container_message(ContainerError::InstalledReceiptChanged)
            == "installed update receipt changed"@,
        container_message(ContainerError::UpdateOperationChanged) == "update operation changed"@,
        container_message(ContainerError::UpdateStateUnavailable) == "update state unavailable"@,
        container_message(ContainerError::UpdateAuthorityUnavailable)
            == "pending update authority unavailable"@,
        container_message(ContainerError::UpdateAuthorityChanged)
            == "pending update authority changed"@,
        container_message(ContainerError::ExecutableVersionMismatch)
            == "container executable version mismatch"@,
        container_message(ContainerError::ManifestKeyUnavailable)
            == "pinned runtime manifest key unavailable"@,
        container_message(ContainerError::RunsAsRoot) == "product cannot run as root"@,
        container_message(ContainerError::BrokerRequired) == "installed common broker required"@,
        container_message(ContainerError::NativeIdentityMismatch)
            == "common native identity mismatch"@,
        container_message(ContainerError::InvalidCandidateVersion) == "invalid candidate version"@,
        container_message(ContainerError::InvalidInstalledVersion) == "invalid installed version"@,
        container_message(ContainerError::InvalidPreviousVersion) == "invalid previous version"@,
        container_message(ContainerError::UpdaterUnavailable) == "updater unavailable"@,
        container_message(ContainerError::UpdateNotReady) == "update not ready"@,
        container_message(ContainerError::RuntimeSwitchUnavailable)
            == "runtime switch unavailable"@,
        container_message(ContainerError::RuntimeSwitchNotReady) == "runtime switch not ready"@,
        container_message(ContainerError::PresentationTooLarge) == "tray presentation too large"@,
        container_message(ContainerError::StorageAlreadyOpened) == "storage already opened"@,
        container_message(ContainerError::InstallationFailed) == "common installation failed"@,
        container_message(ContainerError::InstallationCancelled)
            == "common installation cancelled"@,
{
}

/// A key of Base64 has four characters for each three bytes, padded to whole
/// groups.
pub proof fn law_key_has_four_characters_for_three_bytes(bytes: Seq<u8>)
    ensures
        base64_text(bytes).len() == 4 * ((bytes.len() + 2) / 3),
        base64_char(0) == 'A' && base64_char(25) == 'Z' && base64_char(26) == 'a' && base64_char(51)
            == 'z' && base64_char(52) == '0' && base64_char(61) == '9' && base64_char(62) == '+'
            && base64_char(63) == '/',
    decreases bytes.len(),
{
    if bytes.len() > 2 {
        law_key_has_four_characters_for_three_bytes(bytes.subrange(3, bytes.len() as int));
    }
}

/// Versions are compared by their first number, then by the second, then by the
/// third: of two that differ one comes after the other, and never both.
pub proof fn law_versions_are_ordered(
    left: (u64, u64, u64),
    middle: (u64, u64, u64),
    right: (u64, u64, u64),
)
    ensures
        left == right || numbers_after(left, right) || numbers_after(right, left),
        !(numbers_after(left, right) && numbers_after(right, left)),
        !numbers_after(left, left),
        numbers_after(left, middle) && numbers_after(middle, right) ==> numbers_after(left, right),
        left.0 > right.0 ==> numbers_after(left, right),
        left.0 == right.0 && left.1 > right.1 ==> numbers_after(left, right),
        is_version(plain_version(left.0, left.1, left.2)),
{
    crate::versions::lemma_plain_version_is_version();
}

/// What is rounded is as near as a whole number can be, and even where two are
/// equally near.
pub proof fn law_rounding_is_to_the_nearest(value: nat, divisor: nat)
    requires
        divisor > 0,
    ensures
        2 * value <= 2 * nearest(value, divisor) * divisor + divisor,
        2 * nearest(value, divisor) * divisor <= 2 * value + divisor,
        2 * nearest(value, divisor) * divisor == 2 * value + divisor ==> nearest(value, divisor) % 2
            == 0,
        2 * value == 2 * nearest(value, divisor) * divisor + divisor ==> nearest(value, divisor) % 2
            == 0,
{
    let quotient = value / divisor;
    let rest = value % divisor;
    assert(value == quotient * divisor + rest && 0 <= rest < divisor) by (nonlinear_arith)
        requires
            divisor > 0,
            quotient == value / divisor,
            rest == value % divisor,
    ;
    let product = quotient * divisor;
    assert((quotient + 1) * divisor == product + divisor) by (nonlinear_arith)
        requires
            product == quotient * divisor,
    ;
    assert(2 * quotient * divisor == 2 * product) by (nonlinear_arith)
        requires
            product == quotient * divisor,
    ;
    assert(2 * (quotient + 1) * divisor == 2 * product + 2 * divisor) by (nonlinear_arith)
        requires
            product == quotient * divisor,
    ;
}

/// An amount of traffic is shown in the largest unit of which it has one, each
/// of 1024 of the one before it.
pub proof fn law_traffic_is_shown_in_the_largest_unit(value: nat, unit: nat)
    requires
        unit < 4,
    ensures
        unit_size(0) == 1,
        unit_size(unit + 1) == 1024 * unit_size(unit),
        value > 0 ==> unit_size(unit_of(value)) <= value,
        unit_of(value) < 4 ==> value < unit_size(unit_of(value) + 1),
        unit_of(value) <= 4,
        unit_text(0) == "Б"@ && unit_text(1) == "КБ"@ && unit_text(2) == "МБ"@ && unit_text(3)
            == "ГБ"@ && unit_text(4) == "ТБ"@,
{
}

/// What is shown in a larger unit is a whole number of it, a comma and a tenth,
/// which together are the amount to the nearest tenth.
pub proof fn law_shown_traffic_has_one_decimal(bytes: u64)
    requires
        1_024 <= bytes < 9_007_199_254_740_992,
    ensures
        exists|whole: nat, tenth: nat|
            {
                &&& tenth < 10
                &&& 10 * whole + tenth == nearest(
                    10 * bytes as nat,
                    unit_size(unit_of(bytes as nat)),
                )
                &&& bytes_shown(bytes) == #[trigger] crate::text::decimal(whole) + ","@
                    + #[trigger] crate::text::decimal(tenth) + " "@ + unit_text(
                    unit_of(bytes as nat),
                )
            },
{
    assert(spacing(bytes as nat) == 1);
    assert(nearest(bytes as nat, 1) == bytes) by {
        assert(bytes as nat / 1 == bytes && bytes as nat % 1 == 0);
    }
    let tenths = nearest(10 * bytes as nat, unit_size(unit_of(bytes as nat)));
    let whole = tenths / 10;
    let tenth = tenths % 10;
    assert(crate::tray::in_double_precision(bytes as nat) == bytes);
    assert(bytes_shown(bytes) == crate::text::decimal(whole) + ","@ + crate::text::decimal(tenth)
        + " "@ + unit_text(unit_of(bytes as nat)));
}

/// The tray offers to disconnect exactly while connected, and shows traffic
/// then alone: what was received before what was sent.
pub proof fn law_tray_shows_the_connection(phase: Phase, received: u64, sent: u64)
    ensures
        phase == Phase::Connected ==> {
            &&& presentation_of(phase, None).toggle_text == "Отключить VPN"@
            &&& presentation_of(phase, Some((received, sent))).toggle_text == "Отключить VPN"@
            &&& presentation_of(phase, Some((received, sent))).traffic_text
                == "Трафик сессии: ↓ "@ + bytes_shown(received) + "  ↑ "@ + bytes_shown(sent)
            &&& presentation_of(phase, None).traffic_text == "Трафик сессии: подсчитывается..."@
        },
        phase != Phase::Connected ==> {
            &&& presentation_of(phase, Some((received, sent))) == presentation_of(phase, None)
            &&& presentation_of(phase, None).toggle_text == "Включить VPN"@
            &&& presentation_of(phase, None).traffic_text == "Трафик сессии: нет подключения"@
        },
{
}

/// A failed update is told by the words of its error: where it has to be done
/// by hand, where a permission is missing, where it could not be noted.
pub proof fn law_failed_update_is_told_by_its_words(error: Seq<char>)
    ensures
        occurs_in(error, "backend is unavailable"@) ==> update_message(error)
            == "На этом устройстве обновление устанавливается вручную"@,
        !occurs_in(error, "backend is unavailable"@) && occurs_in(
            error,
            "install_permission_denied"@,
        ) ==> update_message(error)
            == "Разрешите Nelomai устанавливать обновления и повторите попытку"@,
        !occurs_in(error, "backend is unavailable"@) && !occurs_in(
            error,
            "install_permission_denied"@,
        ) && occurs_in(error, "preference"@) ==> update_message(error)
            == "Не удалось сохранить настройки обновлений"@,
        !occurs_in(error, "backend is unavailable"@) && !occurs_in(
            error,
            "install_permission_denied"@,
        ) && !occurs_in(error, "preference"@) ==> update_message(error)
            == "Не удалось установить обновление"@,
{
}

/// A Mac that is not fully awake holds recovery back, and a reading of it is
/// remembered until the next full wake.
pub proof fn law_sleeping_system_holds_recovery_back(
    gate: RecoveryGate,
    capabilities: u64,
    wake: Option<i64>,
    now_nanos: u64,
    now_unix: i64,
)
    requires
        now_nanos <= u64::MAX - 15_000_000_000,
    ensures
        ({
            let (after, reason) = gate_step(gate, Some(capabilities), wake, now_nanos, now_unix);
            &&& !fully_awake(capabilities) ==> reason == Some("sleep_or_dark_wake"@)
                && after.was_dark && after.wake_stamp == wake
            &&& fully_awake(capabilities) ==> !after.was_dark
            &&& fully_awake(capabilities) && gate.was_dark ==> reason == Some("wake_grace"@)
                && after.resume_after_nanos == Some((now_nanos + 15_000_000_000) as u64)
            &&& fully_awake(capabilities) && !gate.was_dark && !is_new_wake(gate, wake, now_unix)
                ==> (reason is Some <==> gate.resume_after_nanos is Some && now_nanos
                < gate.resume_after_nanos->0)
            &&& fully_awake(capabilities) && wake is Some ==> after.wake_stamp == wake
            &&& fully_awake(capabilities) && wake is None ==> after.wake_stamp == gate.wake_stamp
            &&& reason is None ==> after.resume_after_nanos is None
        }),
        fully_awake(capabilities) <==> capabilities & 1 == 1 && capabilities & 2 == 2
            && capabilities & 8 == 8,
{
    assert((capabilities & 11 == 11) <==> (capabilities & 1 == 1 && capabilities & 2 == 2
        && capabilities & 8 == 8)) by (bit_vector);
}

/// The first wake that is known counts as new for fifteen seconds, any later
/// one where it is another than the last; without a time there is none.
pub proof fn law_wake_is_new_once(gate: RecoveryGate, stamp: i64, now_unix: i64)
    ensures
        !is_new_wake(gate, None, now_unix),
        gate.wake_stamp == Some(stamp) ==> !is_new_wake(gate, Some(stamp), now_unix),
        gate.wake_stamp is Some && gate.wake_stamp != Some(stamp) ==> is_new_wake(
            gate,
            Some(stamp),
            now_unix,
        ),
        gate.wake_stamp is None ==> (is_new_wake(gate, Some(stamp), now_unix) <==> stamp <= now_unix
            < stamp + 15),
{
}

/// A preference that was saved is in use, and one that was not has its default:
/// the application stays in the tray, and name servers are chosen by it.
pub proof fn law_missing_preference_has_its_default(stored: StoredPreferences)
    ensures
        restored(None).close_to_tray,
        restored(None).dns_provider == DnsProvider::Auto,
        restored(Some(stored)).close_to_tray == (stored.close_to_tray != Some(false)),
        stored.dns_provider is Some ==> restored(Some(stored)).dns_provider
            == stored.dns_provider->0,
        stored.dns_provider is None ==> restored(Some(stored)).dns_provider == DnsProvider::Auto,
        restored(None) == default_preferences(),
{
}

/// The name servers of a provider are its own, the first one first.
pub proof fn law_servers_are_those_of_the_provider()
    ensures
        servers_of(DnsProvider::Google) == seq![[8u8, 8, 8, 8], [8u8, 8, 4, 4]],
        servers_of(DnsProvider::Yandex) == seq![[77u8, 88, 8, 8], [77u8, 88, 8, 1]],
        servers_of(DnsProvider::Quad9) == seq![[9u8, 9, 9, 9], [149u8, 112, 112, 112]],
        servers_of(DnsProvider::Auto).len() == 4,
{
}

/// Only the bytes that a request is written as are taken for it.
pub proof fn law_request_is_written_in_one_way(body: Seq<u8>)
    ensures
        request_of(body) matches Some(request) ==> request_bytes(request) == body,
        body.len() < 2 ==> request_of(body) is None,
        body.len() > 0 && !(1 <= body[0] <= 3) ==> request_of(body) is None,
        body.len() > 2 && body[0] != 2 ==> request_of(body) is None,
{
    if let Some(request) = request_of(body) {
        assert(request_bytes(request) =~= body);
    }
}

/// The answers can be told apart: a failure, what was carried out, a record
/// that is not there and one that is; a frame has a byte at least and eight
/// mebibytes at most.
pub proof fn law_answers_can_be_told_apart(bytes: Seq<u8>, header: Seq<u8>)
    requires
        header.len() == 4,
    ensures
        failure_reply() != done_reply(),
        failure_reply() == seq![255u8],
        done_reply() == seq![0u8],
        loaded_reply(None) != failure_reply(),
        bytes.len() < 8 * 1024 * 1024 <==> loaded_reply(Some(bytes)) != failure_reply(),
        bytes.len() < 8 * 1024 * 1024 ==> loaded_reply(Some(bytes)) != loaded_reply(None)
            && loaded_reply(Some(bytes)) =~= seq![1u8] + bytes,
        is_frame_size(size_of(header)) <==> 1 <= size_of(header) <= 8 * 1024 * 1024,
        header[0] == 0 && header[1] == 0 && header[2] == 0 && header[3] == 0 ==> size_of(header)
            == 0,
        header[3] > 0 ==> !is_frame_size(size_of(header)),
{
    assert(failure_reply()[0] == 255);
    assert(done_reply()[0] == 0);
    assert(loaded_reply(None)[0] == 0);
    if bytes.len() < 8 * 1024 * 1024 {
        assert(loaded_reply(Some(bytes))[0] == 1);
    }
}

/// The size of a frame is written with its lowest byte first, and read so.
pub proof fn law_lowest_byte_comes_first(body: Seq<u8>, a: u8, b: u8, c: u8, d: u8)
    ensures
        size_of(seq![a, b, c, d]) == a + 256 * b + 65_536 * c + 16_777_216 * d,
        body.len() < 256 ==> frame_of(body).take(4) =~= seq![body.len() as u8, 0u8, 0u8, 0u8],
        frame_of(body).len() == body.len() + 4,
        frame_of(body)[0] == body.len() % 256,
        frame_of(body)[1] == body.len() / 256 % 256,
{
}

} // verus!
