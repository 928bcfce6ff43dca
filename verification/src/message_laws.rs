//! What holds of the answers of the user interface: an error has one code
//! wherever it is told, names can be told apart, and nothing is shown of a
//! state that is not there.
use crate::app_responses::{
    cleanup_shown, egress_text, intent_text, layer_text, phase_text, route_text, shown_phase,
    tic_mode_text, AppStateResponse, StartCommandResponse, StartupStage,
};
use crate::commands::{
    application_error, backend_message, core_error, core_tunnel_error, is_repairable_stop,
    is_service_error, route_error_message, split_tunnel_error, tunnel_error,
};
use crate::core_state::{
    Connection, ConnectionIntentStatus, EgressMode, Layer, Phase, RouteMode, TicConnectionMode,
};
use crate::errors::{
    application_code, is_rejection, retry_after, ApplicationError, CoreApiError, CoreError,
    TunnelError,
};
use vstd::prelude::*;

verus! {

/// An error is shown under the code by which it is known elsewhere. Only the
/// errors of the tunnel and of split tunnelling are shown under codes of their
/// own, and a panel that cannot be reached as one that is unavailable for now.
pub proof fn law_error_has_one_code(error: ApplicationError)
    ensures
        !(error is Core && (error->Core_0 is Tunnel || error->Core_0 is SplitTunnel))
            ==> application_error(error).code == application_code(
            error,
            "temporarily_unavailable"@,
        ),
{
}

/// An error of the core tells the same whether it comes by itself or as an
/// error of the application, and so does an answer of the panel.
pub proof fn law_error_is_told_alike_on_every_way(
    error: CoreError,
    answer: CoreApiError,
    unreachable: Seq<char>,
)
    ensures
        application_error(ApplicationError::Core(error)) == core_error(error),
        application_error(ApplicationError::Api(answer)) == application_error(
            ApplicationError::Core(CoreError::Api(answer)),
        ),
        application_code(ApplicationError::Api(answer), unreachable) == application_code(
            ApplicationError::Core(CoreError::Api(answer)),
            unreachable,
        ),
        retry_after(ApplicationError::Api(answer)) == retry_after(
            ApplicationError::Core(CoreError::Api(answer)),
        ),
        application_error(ApplicationError::Storage) == core_error(CoreError::Storage),
        application_error(ApplicationError::Api(CoreApiError::Unauthorized)) == core_error(
            CoreError::SignedOut,
        ),
        application_error(ApplicationError::Api(CoreApiError::AccessExpired)) == core_error(
            CoreError::AccessExpired,
        ),
{
}

/// A refusal of the panel is passed on in its own words and with its own delay;
/// nothing else asks for a delay.
pub proof fn law_refusal_of_the_panel_is_passed_on(error: ApplicationError, unreachable: Seq<char>)
    ensures
        match error {
            ApplicationError::Api(
                CoreApiError::Rejected { code, message, retry_after_seconds },
            ) => {
                &&& application_error(error).code == code@
                &&& application_error(error).message == message@
                &&& application_code(error, unreachable) == code@
                &&& retry_after(error) == retry_after_seconds
            },
            ApplicationError::Core(
                CoreError::Api(CoreApiError::Rejected { code, message, retry_after_seconds }),
            ) => {
                &&& application_error(error).code == code@
                &&& application_error(error).message == message@
                &&& application_code(error, unreachable) == code@
                &&& retry_after(error) == retry_after_seconds
            },
            _ => retry_after(error) is None,
        },
        match error {
            ApplicationError::Api(CoreApiError::Retryable) => application_code(error, unreachable)
                == unreachable,
            ApplicationError::Core(CoreError::Api(CoreApiError::Retryable)) => application_code(
                error,
                unreachable,
            ) == unreachable,
            ApplicationError::Core(CoreError::Tunnel(code)) => application_code(error, unreachable)
                == code@,
            ApplicationError::Core(CoreError::SplitTunnel(code)) => application_code(
                error,
                unreachable,
            ) == code@,
            _ => true,
        },
{
}

/// An error of the tunnel keeps its code, unless the service is to be repaired
/// or the code is not one that is shown; a route error keeps it always, and is
/// told alike on both ways on which it comes.
pub proof fn law_tunnel_error_keeps_its_code(code: String)
    ensures
        ({
            let through_core = core_tunnel_error(code@);
            let direct = tunnel_error(TunnelError::Backend(code));
            let refused = tunnel_error(TunnelError::InvalidOptions { code });
            &&& direct == refused
            &&& through_core.code == code@ || through_core.code == "tunnel_service_unavailable"@
                || through_core.code == "tunnel_failed"@
            &&& direct.code == code@ || direct.code == "tunnel_service_unavailable"@ || direct.code
                == "tunnel_failed"@
            &&& is_service_error(code@) && code@ != "tunnel_handshake_timeout"@
                ==> through_core.code == "tunnel_service_unavailable"@
            &&& route_error_message(code@) is Some && !is_service_error(code@) && code@
                != "tunnel_handshake_timeout"@ && code@ != "physical_network_monitor_unavailable"@
                ==> through_core.code == code@ && through_core.message
                == route_error_message(code@)->0
            &&& direct.code == "tunnel_failed"@ && code@ != "tunnel_failed"@ ==> backend_message(
                code@,
            ) is None && route_error_message(code@) is None
            &&& core_error(CoreError::Tunnel(code)) == through_core
            &&& core_error(CoreError::SplitTunnel(code)) == split_tunnel_error(code@)
        }),
{
    reveal_strlit("tunnel_service_unavailable");
    reveal_strlit("tunnel_failed");
    assert("tunnel_service_unavailable"@.len() != "tunnel_failed"@.len());
}

/// What is wrong with a service by which code: it is unavailable, it is slow,
/// it is too old, it is stopping, it could not bind its port again, or it does
/// not speak as it should. No other code is about the service.
pub proof fn law_service_error_is_one_of_a_few(code: Seq<char>)
    ensures
        is_service_error(code) <==> seq![
            "service_unavailable"@,
            "service_timeout"@,
            "tunnel_service_unavailable"@,
            "tunnel_service_timeout"@,
            "service_outdated"@,
            "service_stopping"@,
            "udp_rebind_failed"@,
            "udp_rebind_timeout"@,
            "unsupported_protocol"@,
            "unauthorized_client"@,
            "truncated_frame"@,
            "missing_service_version"@,
        ].contains(code),
{
    let codes = seq![
        "service_unavailable"@,
        "service_timeout"@,
        "tunnel_service_unavailable"@,
        "tunnel_service_timeout"@,
        "service_outdated"@,
        "service_stopping"@,
        "udp_rebind_failed"@,
        "udp_rebind_timeout"@,
        "unsupported_protocol"@,
        "unauthorized_client"@,
        "truncated_frame"@,
        "missing_service_version"@,
    ];
    assert(codes[0] == "service_unavailable"@ && codes[1] == "service_timeout"@ && codes[2]
        == "tunnel_service_unavailable"@ && codes[3] == "tunnel_service_timeout"@ && codes[4]
        == "service_outdated"@ && codes[5] == "service_stopping"@ && codes[6]
        == "udp_rebind_failed"@ && codes[7] == "udp_rebind_timeout"@ && codes[8]
        == "unsupported_protocol"@ && codes[9] == "unauthorized_client"@ && codes[10]
        == "truncated_frame"@ && codes[11] == "missing_service_version"@);
}

/// A stop is tried again after a repair exactly where it was the tunnel service
/// that failed it.
pub proof fn law_stop_is_repaired_for_the_service_alone(error: ApplicationError)
    ensures
        is_repairable_stop(error) <==> match error {
            ApplicationError::Core(CoreError::Tunnel(code)) => is_service_error(code@),
            _ => false,
        },
{
}

/// A split-tunnel error that the user can act on keeps its code; any other is
/// shown as settings that are unavailable for now.
pub proof fn law_split_tunnel_error_is_told_apart(code: Seq<char>)
    ensures
        split_tunnel_error(code).code == code || split_tunnel_error(code).code
            == "split_tunnel_policy_unavailable"@,
        code == "split_tunnel_empty_include_selection"@ || code == "split_tunnel_apply_failed"@
            || code == "split_tunnel_stop_failed"@ || code == "split_tunnel_rollback_failed"@
            || code == "split_tunnel_address_rule_invalid"@ <==> split_tunnel_error(code).message
            != "Настройки split-tunnel временно недоступны"@,
        split_tunnel_error(code).message != "Настройки split-tunnel временно недоступны"@
            ==> split_tunnel_error(code).code == code,
{
    reveal_strlit("Настройки split-tunnel временно недоступны");
    reveal_strlit("Выберите хотя бы одно приложение для подключения через VPN");
    reveal_strlit("Не удалось применить новые настройки. Предыдущее подключение восстановлено");
    reveal_strlit(
        "Не удалось остановить подключение для применения новых настроек. Повторите позже",
    );
    reveal_strlit("Не удалось восстановить подключение. Запустите его снова");
    reveal_strlit("Укажите корректный IPv4-адрес, домен или HTTP(S)-ссылку");
    assert("Настройки split-tunnel временно недоступны"@[1] == 'а');
    assert("Выберите хотя бы одно приложение для подключения через VPN"@[1] == 'ы');
    assert("Не удалось применить новые настройки. Предыдущее подключение восстановлено"@[1] == 'е');
    assert("Не удалось остановить подключение для применения новых настроек. Повторите позже"@[1]
        == 'е');
    assert("Не удалось восстановить подключение. Запустите его снова"@[1] == 'е');
    assert("Укажите корректный IPv4-адрес, домен или HTTP(S)-ссылку"@[1] == 'к');
}

/// Phases that are shown under different names are different phases, and no two
/// phases share a name.
pub proof fn law_phases_can_be_told_apart(left: Phase, right: Phase)
    ensures
        phase_text(left) == phase_text(right) <==> left == right,
        phase_text(Phase::Connected) == "connected"@,
        phase_text(Phase::Connecting) == "connecting"@,
        phase_text(Phase::Ready) == "ready"@,
        phase_text(Phase::Stopping) == "stopping"@,
        phase_text(Phase::SignedOut) == "signed_out"@,
        phase_text(Phase::AccessExpired) == "access_expired"@,
        phase_text(Phase::UpdateRequired) == "update_required"@,
        phase_text(Phase::ServerUnavailable) == "server_unavailable"@,
        phase_text(Phase::NeedsPeerBinding) == "needs_peer_binding"@,
        phase_text(Phase::Authenticating) == "authenticating"@,
        phase_text(Phase::Measuring) == "measuring"@,
        phase_text(Phase::Error) == "error"@,
{
    reveal_strlit("signed_out");
    reveal_strlit("authenticating");
    reveal_strlit("needs_peer_binding");
    reveal_strlit("access_expired");
    reveal_strlit("ready");
    reveal_strlit("measuring");
    reveal_strlit("connecting");
    reveal_strlit("connected");
    reveal_strlit("stopping");
    reveal_strlit("update_required");
    reveal_strlit("server_unavailable");
    reveal_strlit("error");
    assert(phase_text(left) == phase_text(right) ==> phase_text(left)[0] == phase_text(right)[0]
        && phase_text(left)[1] == phase_text(right)[1]);
    assert(phase_text(left) == phase_text(right) ==> phase_text(left).len() == phase_text(
        right,
    ).len());
}

/// While nothing is being recovered the phase is shown as it is. A recovery is
/// shown as connecting while it goes through the phases that it passes by
/// itself, and every other phase shows through it.
pub proof fn law_recovery_is_shown_as_connecting(phase: Phase, status: ConnectionIntentStatus)
    ensures
        status != ConnectionIntentStatus::Recovering ==> shown_phase(phase, status) == phase_text(
            phase,
        ),
        ({
            let shown = shown_phase(phase, ConnectionIntentStatus::Recovering);
            match phase {
                Phase::Ready | Phase::Connecting | Phase::Stopping | Phase::ServerUnavailable => shown
                    == "connecting"@,
                _ => shown == phase_text(phase),
            }
        }),
        status == ConnectionIntentStatus::Idle ==> intent_text(status) == "none"@,
        status == ConnectionIntentStatus::Recovering ==> intent_text(status) == "recovering"@,
        status == ConnectionIntentStatus::BlockedTerminal ==> intent_text(status)
            == "blocked_terminal"@,
{
}

/// A cleanup is shown only where it was confirmed that one is due, and never of
/// a connection that is up, or being made for the first time.
pub proof fn law_cleanup_is_shown_where_it_is_due(response: AppStateResponse)
    ensures
        !cleanup_shown(response, false),
        response.phase@ == "connected"@ ==> !cleanup_shown(response, true),
        response.phase@ == "connecting"@ ==> (cleanup_shown(response, true)
            <==> response.connection_intent_status@ == "recovering"@),
        response.phase@ == "stopping"@ || response.phase@ == "ready"@ ==> cleanup_shown(
            response,
            true,
        ),
        response.phase@ != "stopping"@ && response.phase@ != "ready"@ && response.phase@
            != "connecting"@ ==> !cleanup_shown(response, true),
{
    reveal_strlit("connected");
    reveal_strlit("connecting");
    reveal_strlit("stopping");
    reveal_strlit("ready");
    assert("connected"@.len() == 9 && "connecting"@.len() == 10 && "stopping"@.len() == 8
        && "ready"@.len() == 5);
}

/// The choices of a start are handed on under names of their own.
pub proof fn law_choices_can_be_told_apart()
    ensures
        layer_text(Layer::Tic) == "tic"@ && layer_text(Layer::Stray) == "stray"@,
        tic_mode_text(TicConnectionMode::Personal) == "personal"@ && tic_mode_text(
            TicConnectionMode::Dynamic,
        ) == "dynamic"@,
        route_text(RouteMode::Standalone) == "standalone"@ && route_text(RouteMode::ViaTak)
            == "via_tak"@,
        egress_text(EgressMode::Ipv4) == "ipv4"@ && egress_text(EgressMode::PreferIpv6)
            == "prefer_ipv6"@,
        layer_text(Layer::Tic) != layer_text(Layer::Stray),
        tic_mode_text(TicConnectionMode::Personal) != tic_mode_text(TicConnectionMode::Dynamic),
        route_text(RouteMode::Standalone) != route_text(RouteMode::ViaTak),
        egress_text(EgressMode::Ipv4) != egress_text(EgressMode::PreferIpv6),
{
    reveal_strlit("tic");
    reveal_strlit("stray");
    reveal_strlit("personal");
    reveal_strlit("dynamic");
    reveal_strlit("standalone");
    reveal_strlit("via_tak");
    reveal_strlit("ipv4");
    reveal_strlit("prefer_ipv6");
    assert("tic"@.len() == 3 && "stray"@.len() == 5 && "personal"@.len() == 8 && "dynamic"@.len()
        == 7 && "standalone"@.len() == 10 && "via_tak"@.len() == 7 && "ipv4"@.len() == 4
        && "prefer_ipv6"@.len() == 11);
}

/// A stage of the start is known by its name alone, and noted under a name of
/// its own.
pub proof fn law_startup_stages_can_be_told_apart(left: StartupStage, right: StartupStage)
    ensures
        left.name() == right.name() <==> left == right,
        left.event() == right.event() <==> left == right,
        StartupStage::FrontendMounted.event() == "startup.frontend.mounted"@,
        StartupStage::FrontendFirstFrame.event() == "startup.frontend.first_frame"@,
        StartupStage::BootstrapSlow.event() == "startup.bootstrap.slow"@,
        StartupStage::FrontendMounted.name() == "frontend_mounted"@,
        StartupStage::FrontendFirstFrame.name() == "frontend_first_frame"@,
        StartupStage::BootstrapSlow.name() == "bootstrap_slow"@,
{
    reveal_strlit("startup.frontend.mounted");
    reveal_strlit("startup.frontend.first_frame");
    reveal_strlit("startup.bootstrap.slow");
    reveal_strlit("frontend_mounted");
    reveal_strlit("frontend_first_frame");
    reveal_strlit("bootstrap_slow");
    assert(left.name().len() == right.name().len() ==> left == right);
    assert(left.event().len() == right.event().len() ==> left == right);
}

/// What the core refuses is told in words of its own: who has to sign in, wait,
/// pay, update or try again is told so.
pub proof fn law_core_errors_are_told_in_their_words(code: Seq<char>)
    ensures
        core_error(CoreError::SignedOut).message == "Нужно снова войти в приложение"@,
        core_error(CoreError::AccessExpired).message == "Срок доступа уже истёк"@,
        core_error(CoreError::UpdateRequired).message
            == "Для продолжения необходимо обновить приложение"@,
        core_error(CoreError::SavedConnectionUnavailable).message
            == "Сохранённое подключение сейчас недоступно"@,
        core_error(CoreError::StartCancelled).message == "Подключение отменено"@,
        core_error(CoreError::Storage).message == "Защищённое хранилище временно недоступно"@,
        core_error(CoreError::AuthenticationOutcomeUnknown).message
            == "Исход входа неизвестен; требуется явный повторный вход"@,
        core_error(CoreError::AuthRecoveryRequired).message
            == "Требуется восстановление авторизации и безопасное завершение старого подключения"@,
        core_error(CoreError::Api(CoreApiError::Retryable)).message
            == "Не удалось связаться с панелью"@,
        application_error(ApplicationError::Clock).message == "Не удалось определить текущее время"@,
        application_error(ApplicationError::RecoveryDeferred).message
            == "Восстановление продолжится после пробуждения"@,
        route_error_message("route_conflict"@)
            == Some("Не удалось применить split-tunnel: на устройстве уже существует такой маршрут"@),
        code == "route_plan_too_large"@ || code == "route_state_too_large"@ ==> (
        route_error_message(code) == Some("Список адресов split-tunnel слишком большой"@)),
{
    reveal_strlit("route_conflict");
    reveal_strlit("route_plan_too_large");
    reveal_strlit("route_state_too_large");
    assert("route_conflict"@.len() == 14 && "route_plan_too_large"@.len() == 20
        && "route_state_too_large"@.len() == 21);
}

/// What a backend says that the user can act on is shown under its own code; a
/// component that is missing or too old is to be installed again.
pub proof fn law_backend_error_is_shown_as_it_is(code: String)
    ensures
        ({
            let shown = tunnel_error(TunnelError::Backend(code));
            let outdated = code@ == "service_unavailable"@ || code@ == "service_timeout"@ || code@
                == "service_outdated"@ || code@ == "unauthorized_client"@ || code@
                == "truncated_frame"@;
            let known = code@ == "tunnel_handshake_timeout"@ || code@ == "vpn_permission_denied"@
                || code@ == "tunnel_backend_unavailable"@ || code@ == "helper_install_cancelled"@
                || code@ == "helper_authorization_unavailable"@ || code@
                == "helper_installer_timeout"@ || code@ == "helper_resources_unavailable"@ || code@
                == "defender_exclusion_missing"@ || code@ == "amneziawg_component_missing"@ || code@
                == "antivirus_may_block_amneziawg"@ || code@
                == "defender_exclusion_repair_cancelled"@ || code@
                == "defender_exclusion_repair_failed"@ || code@
                == "physical_network_monitor_unavailable"@;
            &&& outdated ==> shown.code == "tunnel_service_unavailable"@ && shown.message
                == "Компоненты подключения не установлены или устарели. Переустановите приложение"@
            &&& known && !outdated ==> shown.code == code@
            &&& !known && !outdated && route_error_message(code@) is None ==> shown.code
                == "tunnel_failed"@ && shown.message
                == "Не удалось запустить подключение на устройстве"@
            &&& !known && !outdated && route_error_message(code@) is Some ==> shown.code == code@
                && shown.message == route_error_message(code@)->0
            &&& backend_message(code@) is Some <==> known
        }),
{
}

/// What is about a route: its own codes, each with a message.
pub proof fn law_route_error_is_one_of_these(code: Seq<char>)
    ensures
        route_error_message(code) is Some <==> code == "route_conflict"@ || code
            == "route_plan_too_large"@ || code == "route_state_too_large"@ || code
            == "physical_egress_unavailable"@ || code == "local_networks_unavailable"@ || code
            == "endpoint_route_unavailable"@ || code == "endpoint_route_lost"@ || code
            == "route_state_invalid"@ || code == "route_state_read_failed"@ || code
            == "route_state_write_failed"@ || code == "route_state_serialize_failed"@ || code
            == "route_state_activate_failed"@ || code == "route_state_remove_failed"@ || code
            == "route_add_failed"@ || code == "route_del_failed"@ || code == "route_delete_failed"@
            || code == "route_command_failed"@ || code == "route_command_unavailable"@ || code
            == "route_table_unavailable"@ || code == "ip_command_unavailable"@,
{
}

/// A refusal that the client makes up is shown as one of the panel, in the same
/// words, and asks for no delay.
pub proof fn law_own_refusal_is_shown_alike(
    error: ApplicationError,
    code: Seq<char>,
    message: Seq<char>,
)
    requires
        is_rejection(error, code, message),
    ensures
        application_error(error) == crate::commands::error_text(code, message),
        retry_after(error) is None,
{
}

/// A start is answered either with its connection or with the time of the next
/// try, never with both.
pub proof fn law_start_has_one_answer(
    response: StartCommandResponse,
    connection: Connection,
    next_retry_at_unix: Option<i64>,
)
    ensures
        response.is_connected(connection) ==> {
            &&& response.status@ == "connected"@
            &&& response.connection == Some(connection)
            &&& response.next_retry_at_unix is None
            &&& !response.is_recovering(next_retry_at_unix)
        },
        response.is_recovering(next_retry_at_unix) ==> {
            &&& response.status@ == "recovering"@
            &&& response.connection is None
            &&& response.next_retry_at_unix == next_retry_at_unix
        },
{
}

/// A restart for an update that is not ready is refused as such.
pub proof fn law_early_restart_is_refused_as_such()
    ensures
        crate::runtime_commands::update_not_ready().code == "update_not_ready"@,
        crate::runtime_commands::update_not_ready().message
            == "Обновление ещё не готово к перезапуску"@,
        crate::container::failure_body() == vstd::utf8::encode_utf8("common operation failed"@),
{
}

} // verus!
