//! What the commands of the user interface answer.
use crate::errors::{ApplicationError, CoreApiError, CoreError, TunnelError};
use crate::text::same_text;
use vstd::prelude::*;

verus! {

/// An error as the user interface shows it: a code to act on and a message.
#[derive(Debug)]
pub struct CommandError {
    pub code: String,
    pub message: String,
}

#[verifier::ext_equal]
pub struct CommandErrorView {
    pub code: Seq<char>,
    pub message: Seq<char>,
}

impl View for CommandError {
    type V = CommandErrorView;

    open spec fn view(&self) -> CommandErrorView {
        CommandErrorView { code: self.code@, message: self.message@ }
    }
}

pub open spec fn error_text(code: Seq<char>, message: Seq<char>) -> CommandErrorView {
    CommandErrorView { code, message }
}

/// Codes of a tunnel service that has to be repaired or replaced.
pub open spec fn is_service_error(code: Seq<char>) -> bool {
    ||| code == "service_unavailable"@
    ||| code == "service_timeout"@
    ||| code == "tunnel_service_unavailable"@
    ||| code == "tunnel_service_timeout"@
    ||| code == "service_outdated"@
    ||| code == "service_stopping"@
    ||| code == "udp_rebind_failed"@
    ||| code == "udp_rebind_timeout"@
    ||| code == "unsupported_protocol"@
    ||| code == "unauthorized_client"@
    ||| code == "truncated_frame"@
    ||| code == "missing_service_version"@
}

/// Codes of a route that could not be changed, without a more exact message.
pub open spec fn is_plain_route_error(code: Seq<char>) -> bool {
    ||| code == "route_state_invalid"@
    ||| code == "route_state_read_failed"@
    ||| code == "route_state_write_failed"@
    ||| code == "route_state_serialize_failed"@
    ||| code == "route_state_activate_failed"@
    ||| code == "route_state_remove_failed"@
    ||| code == "route_add_failed"@
    ||| code == "route_del_failed"@
    ||| code == "route_delete_failed"@
    ||| code == "route_command_failed"@
    ||| code == "route_command_unavailable"@
    ||| code == "route_table_unavailable"@
    ||| code == "ip_command_unavailable"@
}

/// The message for a route error, for codes that are one.
pub open spec fn route_error_message(code: Seq<char>) -> Option<Seq<char>> {
    if code == "route_conflict"@ {
        Some("Не удалось применить split-tunnel: на устройстве уже существует такой маршрут"@)
    } else if code == "route_plan_too_large"@ || code == "route_state_too_large"@ {
        Some("Список адресов split-tunnel слишком большой"@)
    } else if code == "physical_egress_unavailable"@ {
        Some("Не удалось определить текущее подключение устройства к сети"@)
    } else if code == "local_networks_unavailable"@ {
        Some("Не удалось определить локальные сети этого устройства"@)
    } else if code == "endpoint_route_unavailable"@ {
        Some("Не удалось безопасно проложить маршрут до Stray-сервера. Переподключите устройство к сети и нажмите «Старт» снова"@)
    } else if code == "endpoint_route_lost"@ {
        Some("Сеть изменилась, поэтому Stray остановлен для защиты. Нажмите «Старт» снова"@)
    } else if is_plain_route_error(code) {
        Some("Не удалось применить маршруты split-tunnel"@)
    } else {
        None
    }
}

/// How an answer of the panel is shown.
pub open spec fn api_error(error: CoreApiError) -> CommandErrorView {
    match error {
        CoreApiError::Unauthorized => error_text("signed_out"@, "Нужно снова войти в приложение"@),
        CoreApiError::AccessExpired => error_text("access_expired"@, "Срок доступа уже истёк"@),
        CoreApiError::Retryable => error_text(
            "temporarily_unavailable"@,
            "Не удалось связаться с панелью"@,
        ),
        CoreApiError::Rejected { code, message, .. } => error_text(code@, message@),
    }
}

/// How a tunnel error that the core passed on is shown.
pub open spec fn core_tunnel_error(code: Seq<char>) -> CommandErrorView {
    if code == "tunnel_handshake_timeout"@ {
        error_text("tunnel_handshake_timeout"@, "Stray-сервер не ответил через текущую сеть"@)
    } else if is_service_error(code) {
        error_text(
            "tunnel_service_unavailable"@,
            "Служба подключения недоступна. Повторите действие и разрешите её восстановление"@,
        )
    } else if code == "physical_network_monitor_unavailable"@ {
        error_text(
            "physical_network_monitor_unavailable"@,
            "Не удалось отслеживать смену сети на устройстве"@,
        )
    } else {
        match route_error_message(code) {
            Some(message) => error_text(code, message),
            None => error_text("tunnel_failed"@, "Не удалось изменить состояние подключения"@),
        }
    }
}

/// How a split-tunnel error is shown.
pub open spec fn split_tunnel_error(code: Seq<char>) -> CommandErrorView {
    if code == "split_tunnel_empty_include_selection"@ {
        error_text(code, "Выберите хотя бы одно приложение для подключения через VPN"@)
    } else if code == "split_tunnel_apply_failed"@ {
        error_text(
            code,
            "Не удалось применить новые настройки. Предыдущее подключение восстановлено"@,
        )
    } else if code == "split_tunnel_stop_failed"@ {
        error_text(
            code,
            "Не удалось остановить подключение для применения новых настроек. Повторите позже"@,
        )
    } else if code == "split_tunnel_rollback_failed"@ {
        error_text(code, "Не удалось восстановить подключение. Запустите его снова"@)
    } else if code == "split_tunnel_address_rule_invalid"@ {
        error_text(code, "Укажите корректный IPv4-адрес, домен или HTTP(S)-ссылку"@)
    } else {
        error_text(
            "split_tunnel_policy_unavailable"@,
            "Настройки split-tunnel временно недоступны"@,
        )
    }
}

/// How an error of the core is shown.
pub open spec fn core_error(error: CoreError) -> CommandErrorView {
    match error {
        CoreError::AuthenticationOutcomeUnknown => error_text(
            "authentication_outcome_unknown"@,
            "Исход входа неизвестен; требуется явный повторный вход"@,
        ),
        CoreError::AuthRecoveryRequired => error_text(
            "auth_recovery_required"@,
            "Требуется восстановление авторизации и безопасное завершение старого подключения"@,
        ),
        CoreError::SignedOut => error_text("signed_out"@, "Нужно снова войти в приложение"@),
        CoreError::AccessExpired => error_text("access_expired"@, "Срок доступа уже истёк"@),
        CoreError::UpdateRequired => error_text(
            "update_required"@,
            "Для продолжения необходимо обновить приложение"@,
        ),
        CoreError::SavedConnectionUnavailable => error_text(
            "saved_connection_unavailable"@,
            "Сохранённое подключение сейчас недоступно"@,
        ),
        CoreError::StartCancelled => error_text(
            "connection_intent_cancelled"@,
            "Подключение отменено"@,
        ),
        CoreError::Storage => error_text(
            "storage_unavailable"@,
            "Защищённое хранилище временно недоступно"@,
        ),
        CoreError::Api(error) => api_error(error),
        CoreError::Tunnel(code) => core_tunnel_error(code@),
        CoreError::SplitTunnel(code) => split_tunnel_error(code@),
    }
}

/// How an error of the application is shown.
pub open spec fn application_error(error: ApplicationError) -> CommandErrorView {
    match error {
        ApplicationError::Storage => error_text(
            "storage_unavailable"@,
            "Защищённое хранилище временно недоступно"@,
        ),
        ApplicationError::Clock => error_text(
            "clock_unavailable"@,
            "Не удалось определить текущее время"@,
        ),
        ApplicationError::RecoveryDeferred => error_text(
            "recovery_power_deferred"@,
            "Восстановление продолжится после пробуждения"@,
        ),
        ApplicationError::Api(error) => api_error(error),
        ApplicationError::Core(error) => core_error(error),
    }
}

pub open spec fn tunnel_code(error: TunnelError) -> Seq<char> {
    match error {
        TunnelError::Backend(code) => code@,
        TunnelError::InvalidOptions { code } => code@,
    }
}

/// Codes of a tunnel component that is missing or too old.
pub open spec fn is_outdated_component(code: Seq<char>) -> bool {
    ||| code == "service_unavailable"@
    ||| code == "service_timeout"@
    ||| code == "service_outdated"@
    ||| code == "unauthorized_client"@
    ||| code == "truncated_frame"@
}

/// The message for the codes of a tunnel backend that are shown as they are.
pub open spec fn backend_message(code: Seq<char>) -> Option<Seq<char>> {
    if code == "tunnel_handshake_timeout"@ {
        Some("Stray-сервер не ответил через текущую сеть"@)
    } else if code == "vpn_permission_denied"@ {
        Some("Без разрешения Android подключение невозможно"@)
    } else if code == "tunnel_backend_unavailable"@ {
        Some("Система подключения недоступна на этом устройстве"@)
    } else if code == "helper_install_cancelled"@ {
        Some("Настройка подключения отменена"@)
    } else if code == "helper_authorization_unavailable"@ {
        Some("Не удалось открыть системный запрос прав администратора"@)
    } else if code == "helper_installer_timeout"@ {
        Some("Системная настройка подключения не завершилась вовремя"@)
    } else if code == "helper_resources_unavailable"@ {
        Some("В установленном приложении отсутствуют компоненты подключения"@)
    } else if code == "defender_exclusion_missing"@ {
        Some("Microsoft Defender не исключает компонент AmneziaWG из проверки"@)
    } else if code == "amneziawg_component_missing"@ {
        Some("Антивирус мог удалить или заблокировать компонент AmneziaWG"@)
    } else if code == "antivirus_may_block_amneziawg"@ {
        Some("Активный сторонний антивирус может блокировать компонент AmneziaWG"@)
    } else if code == "defender_exclusion_repair_cancelled"@ {
        Some("Исправление настройки Microsoft Defender отменено"@)
    } else if code == "defender_exclusion_repair_failed"@ {
        Some("Не удалось добавить исключение Microsoft Defender"@)
    } else if code == "physical_network_monitor_unavailable"@ {
        Some("Не удалось отслеживать смену сети на устройстве"@)
    } else {
        None
    }
}

/// How an error of the tunnel backend is shown.
pub open spec fn tunnel_error(error: TunnelError) -> CommandErrorView {
    let code = tunnel_code(error);
    if is_outdated_component(code) {
        error_text(
            "tunnel_service_unavailable"@,
            "Компоненты подключения не установлены или устарели. Переустановите приложение"@,
        )
    } else {
        match backend_message(code) {
            Some(message) => error_text(code, message),
            None => match route_error_message(code) {
                Some(message) => error_text(code, message),
                None => error_text(
                    "tunnel_failed"@,
                    "Не удалось запустить подключение на устройстве"@,
                ),
            },
        }
    }
}

pub fn tunnel_service_error(code: &str) -> (result: bool)
    ensures
        result == is_service_error(code@),
{
    same_text(code, "service_unavailable") || same_text(code, "service_timeout") || same_text(
        code,
        "tunnel_service_unavailable",
    ) || same_text(code, "tunnel_service_timeout") || same_text(code, "service_outdated")
        || same_text(code, "service_stopping") || same_text(code, "udp_rebind_failed") || same_text(
        code,
        "udp_rebind_timeout",
    ) || same_text(code, "unsupported_protocol") || same_text(code, "unauthorized_client")
        || same_text(code, "truncated_frame") || same_text(code, "missing_service_version")
}

fn plain_route_error(code: &str) -> (result: bool)
    ensures
        result == is_plain_route_error(code@),
{
    same_text(code, "route_state_invalid") || same_text(code, "route_state_read_failed")
        || same_text(code, "route_state_write_failed") || same_text(
        code,
        "route_state_serialize_failed",
    ) || same_text(code, "route_state_activate_failed") || same_text(
        code,
        "route_state_remove_failed",
    ) || same_text(code, "route_add_failed") || same_text(code, "route_del_failed") || same_text(
        code,
        "route_delete_failed",
    ) || same_text(code, "route_command_failed") || same_text(code, "route_command_unavailable")
        || same_text(code, "route_table_unavailable") || same_text(code, "ip_command_unavailable")
}

fn backend_text(code: &str) -> (message: Option<&'static str>)
    ensures
        message is Some <==> backend_message(code@) is Some,
        message matches Some(message) ==> backend_message(code@) == Some(message@),
{
    if same_text(code, "tunnel_handshake_timeout") {
        Some("Stray-сервер не ответил через текущую сеть")
    } else if same_text(code, "vpn_permission_denied") {
        Some("Без разрешения Android подключение невозможно")
    } else if same_text(code, "tunnel_backend_unavailable") {
        Some("Система подключения недоступна на этом устройстве")
    } else if same_text(code, "helper_install_cancelled") {
        Some("Настройка подключения отменена")
    } else if same_text(code, "helper_authorization_unavailable") {
        Some("Не удалось открыть системный запрос прав администратора")
    } else if same_text(code, "helper_installer_timeout") {
        Some("Системная настройка подключения не завершилась вовремя")
    } else if same_text(code, "helper_resources_unavailable") {
        Some("В установленном приложении отсутствуют компоненты подключения")
    } else if same_text(code, "defender_exclusion_missing") {
        Some("Microsoft Defender не исключает компонент AmneziaWG из проверки")
    } else if same_text(code, "amneziawg_component_missing") {
        Some("Антивирус мог удалить или заблокировать компонент AmneziaWG")
    } else if same_text(code, "antivirus_may_block_amneziawg") {
        Some("Активный сторонний антивирус может блокировать компонент AmneziaWG")
    } else if same_text(code, "defender_exclusion_repair_cancelled") {
        Some("Исправление настройки Microsoft Defender отменено")
    } else if same_text(code, "defender_exclusion_repair_failed") {
        Some("Не удалось добавить исключение Microsoft Defender")
    } else if same_text(code, "physical_network_monitor_unavailable") {
        Some("Не удалось отслеживать смену сети на устройстве")
    } else {
        None
    }
}

impl CommandError {
    pub fn new(code: &str, message: &str) -> (error: Self)
        ensures
            error@ == error_text(code@, message@),
    {
        CommandError { code: code.to_owned(), message: message.to_owned() }
    }

    pub fn code(&self) -> (code: &str)
        ensures
            code@ == self@.code,
    {
        self.code.as_str()
    }

    pub fn from_api(error: CoreApiError) -> (result: Self)
        ensures
            result@ == api_error(error),
    {
        match error {
            CoreApiError::Unauthorized => Self::new(
                "signed_out",
                "Нужно снова войти в приложение",
            ),
            CoreApiError::AccessExpired => Self::new("access_expired", "Срок доступа уже истёк"),
            CoreApiError::Retryable => Self::new(
                "temporarily_unavailable",
                "Не удалось связаться с панелью",
            ),
            CoreApiError::Rejected { code, message, .. } => CommandError { code, message },
        }
    }

    /// The error for a code that tells of a route, if it does.
    pub fn from_route_error(code: &str) -> (error: Option<Self>)
        ensures
            error is Some <==> route_error_message(code@) is Some,
            error matches Some(error) ==> error@ == error_text(
                code@,
                route_error_message(code@)->0,
            ),
    {
        let message = if same_text(code, "route_conflict") {
            "Не удалось применить split-tunnel: на устройстве уже существует такой маршрут"
        } else if same_text(code, "route_plan_too_large") || same_text(
            code,
            "route_state_too_large",
        ) {
            "Список адресов split-tunnel слишком большой"
        } else if same_text(code, "physical_egress_unavailable") {
            "Не удалось определить текущее подключение устройства к сети"
        } else if same_text(code, "local_networks_unavailable") {
            "Не удалось определить локальные сети этого устройства"
        } else if same_text(code, "endpoint_route_unavailable") {
            "Не удалось безопасно проложить маршрут до Stray-сервера. Переподключите устройство к сети и нажмите «Старт» снова"
        } else if same_text(code, "endpoint_route_lost") {
            "Сеть изменилась, поэтому Stray остановлен для защиты. Нажмите «Старт» снова"
        } else if plain_route_error(code) {
            "Не удалось применить маршруты split-tunnel"
        } else {
            return None;
        };
        Some(Self::new(code, message))
    }

    fn from_core_tunnel(code: &str) -> (result: Self)
        ensures
            result@ == core_tunnel_error(code@),
    {
        if same_text(code, "tunnel_handshake_timeout") {
            return Self::new(
                "tunnel_handshake_timeout",
                "Stray-сервер не ответил через текущую сеть",
            );
        }
        if tunnel_service_error(code) {
            return Self::new(
                "tunnel_service_unavailable",
                "Служба подключения недоступна. Повторите действие и разрешите её восстановление",
            );
        }
        if same_text(code, "physical_network_monitor_unavailable") {
            return Self::new(
                "physical_network_monitor_unavailable",
                "Не удалось отслеживать смену сети на устройстве",
            );
        }
        match Self::from_route_error(code) {
            Some(error) => error,
            None => Self::new("tunnel_failed", "Не удалось изменить состояние подключения"),
        }
    }

    fn from_split_tunnel(code: &str) -> (result: Self)
        ensures
            result@ == split_tunnel_error(code@),
    {
        if same_text(code, "split_tunnel_empty_include_selection") {
            Self::new(code, "Выберите хотя бы одно приложение для подключения через VPN")
        } else if same_text(code, "split_tunnel_apply_failed") {
            Self::new(
                code,
                "Не удалось применить новые настройки. Предыдущее подключение восстановлено",
            )
        } else if same_text(code, "split_tunnel_stop_failed") {
            Self::new(
                code,
                "Не удалось остановить подключение для применения новых настроек. Повторите позже",
            )
        } else if same_text(code, "split_tunnel_rollback_failed") {
            Self::new(code, "Не удалось восстановить подключение. Запустите его снова")
        } else if same_text(code, "split_tunnel_address_rule_invalid") {
            Self::new(code, "Укажите корректный IPv4-адрес, домен или HTTP(S)-ссылку")
        } else {
            Self::new(
                "split_tunnel_policy_unavailable",
                "Настройки split-tunnel временно недоступны",
            )
        }
    }

    pub fn from_core(error: CoreError) -> (result: Self)
        ensures
            result@ == core_error(error),
    {
        match error {
            CoreError::AuthenticationOutcomeUnknown => Self::new(
                "authentication_outcome_unknown",
                "Исход входа неизвестен; требуется явный повторный вход",
            ),
            CoreError::AuthRecoveryRequired => Self::new(
                "auth_recovery_required",
                "Требуется восстановление авторизации и безопасное завершение старого подключения",
            ),
            CoreError::SignedOut => Self::new("signed_out", "Нужно снова войти в приложение"),
            CoreError::AccessExpired => Self::new("access_expired", "Срок доступа уже истёк"),
            CoreError::UpdateRequired => Self::new(
                "update_required",
                "Для продолжения необходимо обновить приложение",
            ),
            CoreError::SavedConnectionUnavailable => Self::new(
                "saved_connection_unavailable",
                "Сохранённое подключение сейчас недоступно",
            ),
            CoreError::StartCancelled => Self::new(
                "connection_intent_cancelled",
                "Подключение отменено",
            ),
            CoreError::Storage => Self::new(
                "storage_unavailable",
                "Защищённое хранилище временно недоступно",
            ),
            CoreError::Api(error) => Self::from_api(error),
            CoreError::Tunnel(code) => Self::from_core_tunnel(code.as_str()),
            CoreError::SplitTunnel(code) => Self::from_split_tunnel(code.as_str()),
        }
    }

    pub fn from_application(error: ApplicationError) -> (result: Self)
        ensures
            result@ == application_error(error),
    {
        match error {
            ApplicationError::Storage => Self::new(
                "storage_unavailable",
                "Защищённое хранилище временно недоступно",
            ),
            ApplicationError::Clock => Self::new(
                "clock_unavailable",
                "Не удалось определить текущее время",
            ),
            ApplicationError::RecoveryDeferred => Self::new(
                "recovery_power_deferred",
                "Восстановление продолжится после пробуждения",
            ),
            ApplicationError::Api(error) => Self::from_api(error),
            ApplicationError::Core(error) => Self::from_core(error),
        }
    }

    pub fn from_tunnel(error: TunnelError) -> (result: Self)
        ensures
            result@ == tunnel_error(error),
    {
        let code = match error {
            TunnelError::Backend(code) => code,
            TunnelError::InvalidOptions { code } => code,
        };
        let text = code.as_str();
        if same_text(text, "service_unavailable") || same_text(text, "service_timeout")
            || same_text(text, "service_outdated") || same_text(text, "unauthorized_client")
            || same_text(text, "truncated_frame") {
            return Self::new(
                "tunnel_service_unavailable",
                "Компоненты подключения не установлены или устарели. Переустановите приложение",
            );
        }
        if let Some(message) = backend_text(text) {
            return Self::new(text, message);
        }
        match Self::from_route_error(text) {
            Some(error) => error,
            None => Self::new("tunnel_failed", "Не удалось запустить подключение на устройстве"),
        }
    }
}

/// Whether a failed stop should be tried again after the service was repaired.
pub open spec fn is_repairable_stop(error: ApplicationError) -> bool {
    error matches ApplicationError::Core(CoreError::Tunnel(code)) && is_service_error(code@)
}

pub fn repairable_stop_error(error: &ApplicationError) -> (result: bool)
    ensures
        result == is_repairable_stop(*error),
{
    match error {
        ApplicationError::Core(CoreError::Tunnel(code)) => tunnel_service_error(code.as_str()),
        _ => false,
    }
}

} // verus!
