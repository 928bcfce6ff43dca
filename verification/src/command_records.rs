//! What the commands note of their outcome, and what they answer.
use crate::commands::{CommandError, CommandErrorView};
use crate::defender::{
    DefenderStatus, WindowsDefenderStatusResponse, defender_status_code, defender_status_response,
};
use crate::diagnostics::{AppDiagnostics, EntryView};
use crate::errors::{ApplicationError, TunnelError};
use crate::preferences::{AppPreferences, DnsProvider, PreferencesNotSaved};
use crate::text::decimal_text;
use vstd::prelude::*;

verus! {

/// A plain note: its kind and, mostly, a code.
pub open spec fn note(now_unix: i64, kind: Seq<char>, code: Option<Seq<char>>) -> EntryView {
    crate::diagnostics::event(now_unix, kind, None, None, code, None)
}

/// How the start of the application has ended.
pub enum StartupOutcome {
    Ready { request_id: String },
    Failed(CommandError),
    TimedOut,
}

pub open spec fn startup_timeout() -> CommandErrorView {
    crate::commands::error_text(
        "startup_timeout"@,
        "Не удалось завершить запуск вовремя. Проверьте сеть и повторите попытку"@,
    )
}

pub open spec fn startup_entry(outcome: StartupOutcome, elapsed_ms: u64, now_unix: i64) -> EntryView {
    match outcome {
        StartupOutcome::Ready { request_id } => crate::diagnostics::event(
            now_unix,
            "startup.bootstrap.ready"@,
            None,
            Some(request_id@),
            None,
            Some(elapsed_ms),
        ),
        StartupOutcome::Failed(error) => crate::diagnostics::event(
            now_unix,
            "startup.bootstrap.failed"@,
            None,
            None,
            Some(error@.code),
            Some(elapsed_ms),
        ),
        StartupOutcome::TimedOut => crate::diagnostics::event(
            now_unix,
            "startup.bootstrap.failed"@,
            None,
            None,
            Some("startup_timeout"@),
            Some(elapsed_ms),
        ),
    }
}

/// How the list of the installed applications was read.
pub enum InventoryOutcome {
    Listed { applications: u64, elapsed_ms: u64 },
    Failed { error: CommandError, elapsed_ms: u64 },
    WorkerUnavailable,
}

pub open spec fn inventory_entry(outcome: InventoryOutcome, now_unix: i64) -> EntryView {
    match outcome {
        InventoryOutcome::Listed { applications, elapsed_ms } => crate::diagnostics::event(
            now_unix,
            "startup.application_inventory.completed"@,
            None,
            None,
            Some("applications="@ + crate::text::decimal(applications as nat)),
            Some(elapsed_ms),
        ),
        InventoryOutcome::Failed { error, elapsed_ms } => crate::diagnostics::event(
            now_unix,
            "startup.application_inventory.failed"@,
            None,
            None,
            Some(error@.code),
            Some(elapsed_ms),
        ),
        InventoryOutcome::WorkerUnavailable => note(
            now_unix,
            "startup.application_inventory.failed"@,
            Some("worker_unavailable"@),
        ),
    }
}

impl AppDiagnostics {
    /// The start of the application has ended.
    pub fn startup_finished(&mut self, outcome: StartupOutcome, elapsed_ms: u64, now_unix: i64) -> (result:
        Result<(), CommandError>)
        ensures
            final(self)@ == crate::diagnostics::with_entry(
                old(self)@,
                startup_entry(outcome, elapsed_ms, now_unix),
            ),
            match outcome {
                StartupOutcome::Ready { .. } => result is Ok,
                StartupOutcome::Failed(error) => result == Err::<(), CommandError>(error),
                StartupOutcome::TimedOut => result matches Err(error) && error@
                    == startup_timeout(),
            },
    {
        match outcome {
            StartupOutcome::Ready { request_id } => {
                self.record_with_duration(
                    "startup.bootstrap.ready",
                    None,
                    Some(request_id.as_str()),
                    None,
                    Some(elapsed_ms),
                    now_unix,
                );
                Ok(())
            },
            StartupOutcome::Failed(error) => {
                self.record_with_duration(
                    "startup.bootstrap.failed",
                    None,
                    None,
                    Some(error.code()),
                    Some(elapsed_ms),
                    now_unix,
                );
                Err(error)
            },
            StartupOutcome::TimedOut => {
                self.record_with_duration(
                    "startup.bootstrap.failed",
                    None,
                    None,
                    Some("startup_timeout"),
                    Some(elapsed_ms),
                    now_unix,
                );
                Err(
                    CommandError::new(
                        "startup_timeout",
                        "Не удалось завершить запуск вовремя. Проверьте сеть и повторите попытку",
                    ),
                )
            },
        }
    }

    /// The installed applications were listed, or could not be. Returns
    /// whether the policy is to be synchronized.
    pub fn inventory_finished(&mut self, outcome: InventoryOutcome, now_unix: i64) -> (refreshed: bool)
        ensures
            final(self)@ == crate::diagnostics::with_entry(
                old(self)@,
                inventory_entry(outcome, now_unix),
            ),
            refreshed == outcome is Listed,
    {
        match outcome {
            InventoryOutcome::Listed { applications, elapsed_ms } => {
                let mut code = "applications=".to_owned();
                code.append(decimal_text(applications).as_str());
                self.record_with_duration(
                    "startup.application_inventory.completed",
                    None,
                    None,
                    Some(code.as_str()),
                    Some(elapsed_ms),
                    now_unix,
                );
                true
            },
            InventoryOutcome::Failed { error, elapsed_ms } => {
                self.record_with_duration(
                    "startup.application_inventory.failed",
                    None,
                    None,
                    Some(error.code()),
                    Some(elapsed_ms),
                    now_unix,
                );
                false
            },
            InventoryOutcome::WorkerUnavailable => {
                self.record_named(
                    "startup.application_inventory.failed",
                    None,
                    None,
                    Some("worker_unavailable"),
                    now_unix,
                );
                false
            },
        }
    }

    /// The tunnel was got ready, or that has failed.
    pub fn tunnel_prepared(&mut self, prepared: Result<(), TunnelError>, now_unix: i64) -> (result: Result<
        (),
        CommandError,
    >)
        ensures
            match prepared {
                Ok(_) => {
                    &&& result is Ok
                    &&& final(self)@ == crate::diagnostics::with_entry(
                        old(self)@,
                        note(now_unix, "tunnel.prepare_succeeded"@, None),
                    )
                },
                Err(error) => {
                    &&& result matches Err(shown) && shown@ == crate::commands::tunnel_error(error)
                    &&& final(self)@ == crate::diagnostics::with_entry(
                        old(self)@,
                        note(
                            now_unix,
                            "tunnel.prepare_failed"@,
                            Some(crate::commands::tunnel_error(error).code),
                        ),
                    )
                },
            },
    {
        match prepared {
            Ok(()) => {
                self.record_named("tunnel.prepare_succeeded", None, None, None, now_unix);
                Ok(())
            },
            Err(error) => {
                let shown = CommandError::from_tunnel(error);
                self.record_named(
                    "tunnel.prepare_failed",
                    None,
                    None,
                    Some(shown.code()),
                    now_unix,
                );
                Err(shown)
            },
        }
    }

    /// A report that the user has asked for was sent, or that has failed.
    pub fn report_sent(&mut self, answer: Result<String, ApplicationError>, now_unix: i64) -> (result: Result<
        (),
        CommandError,
    >)
        ensures
            match answer {
                Ok(request_id) => {
                    &&& result is Ok
                    &&& final(self)@ == crate::diagnostics::with_entry(
                        old(self)@,
                        crate::diagnostics::event(
                            now_unix,
                            "diagnostics.uploaded"@,
                            None,
                            Some(request_id@),
                            None,
                            None,
                        ),
                    )
                },
                Err(error) => {
                    &&& result matches Err(shown) && shown@ == crate::commands::application_error(
                        error,
                    )
                    &&& final(self)@ == crate::diagnostics::with_entry(
                        old(self)@,
                        note(now_unix, "diagnostics.upload_failed"@, Some("upload_failed"@)),
                    )
                },
            },
    {
        match answer {
            Ok(request_id) => {
                self.record_named(
                    "diagnostics.uploaded",
                    None,
                    Some(request_id.as_str()),
                    None,
                    now_unix,
                );
                Ok(())
            },
            Err(error) => {
                self.record_named(
                    "diagnostics.upload_failed",
                    None,
                    None,
                    Some("upload_failed"),
                    now_unix,
                );
                Err(CommandError::from_application(error))
            },
        }
    }

    /// A report on a failed start was queued, or that has failed.
    pub fn start_failure_queued(&mut self, queued: bool, now_unix: i64) -> (result: Result<
        (),
        CommandError,
    >)
        ensures
            if queued {
                result is Ok && final(self)@ == old(self)@
            } else {
                &&& result matches Err(error) && error@ == crate::commands::error_text(
                    "diagnostics_storage_unavailable"@,
                    "Не удалось сохранить автоматический отчёт"@,
                )
                &&& final(self)@ == crate::diagnostics::with_entry(
                    old(self)@,
                    note(
                        now_unix,
                        "diagnostics.start_failure_enqueue_failed"@,
                        Some("diagnostics_storage_unavailable"@),
                    ),
                )
            },
    {
        if queued {
            return Ok(());
        }
        self.record_named(
            "diagnostics.start_failure_enqueue_failed",
            None,
            None,
            Some("diagnostics_storage_unavailable"),
            now_unix,
        );
        Err(
            CommandError::new(
                "diagnostics_storage_unavailable",
                "Не удалось сохранить автоматический отчёт",
            ),
        )
    }

    /// The background of Android was provisioned, or that has failed; `retry`
    /// where it was not the first try. Returns whether it is to be tried again.
    pub fn provision_finished(
        &mut self,
        result: Result<(), CommandError>,
        retry: bool,
        now_unix: i64,
    ) -> (again: bool)
        ensures
            again == result is Err,
            match result {
                Ok(_) => final(self)@ == (if retry {
                    crate::diagnostics::with_entry(
                        old(self)@,
                        note(now_unix, "background.provision_recovered"@, None),
                    )
                } else {
                    old(self)@
                }),
                Err(error) => final(self)@ == crate::diagnostics::with_entry(
                    old(self)@,
                    note(
                        now_unix,
                        if retry {
                            "background.provision_retry_failed"@
                        } else {
                            "background.provision_failed"@
                        },
                        Some(error@.code),
                    ),
                ),
            },
    {
        match result {
            Ok(()) => {
                if retry {
                    self.record_named(
                        "background.provision_recovered",
                        None,
                        None,
                        None,
                        now_unix,
                    );
                }
                false
            },
            Err(error) => {
                let kind = if retry {
                    "background.provision_retry_failed"
                } else {
                    "background.provision_failed"
                };
                self.record_named(kind, None, None, Some(error.code()), now_unix);
                true
            },
        }
    }

    /// Notes that an intent has recovered its connection, after what it did
    /// for it, if that is worth a note of its own.
    pub fn record_recovery_success(
        &mut self,
        lease_id: &str,
        specialized_event: Option<&str>,
        now_unix: i64,
    )
        ensures
            final(self)@ == crate::diagnostics::with_entry(
                match specialized_event {
                    Some(kind) => crate::diagnostics::with_entry(
                        old(self)@,
                        crate::diagnostics::event(
                            now_unix,
                            kind@,
                            Some(lease_id@),
                            None,
                            None,
                            None,
                        ),
                    ),
                    None => old(self)@,
                },
                note(now_unix, "connection.intent.recovered"@, None),
            ),
    {
        if let Some(kind) = specialized_event {
            self.record_named(kind, Some(lease_id), None, None, now_unix);
        }
        self.record_named("connection.intent.recovered", None, None, None, now_unix);
    }

    /// The user was told that a recovery takes long, or could not be.
    pub fn slow_recovery_shown(&mut self, shown: bool, now_unix: i64)
        ensures
            final(self)@ == (if shown {
                old(self)@
            } else {
                crate::diagnostics::with_entry(
                    old(self)@,
                    note(
                        now_unix,
                        "diagnostics.connection_intent_notification_failed"@,
                        Some("notification_unavailable"@),
                    ),
                )
            }),
    {
        if !shown {
            self.record_named(
                "diagnostics.connection_intent_notification_failed",
                None,
                None,
                Some("notification_unavailable"),
                now_unix,
            );
        }
    }

    /// Notes what is known of the antivirus products.
    pub fn record_defender_status(&mut self, kind: &str, status: &DefenderStatus, now_unix: i64)
        ensures
            final(self)@ == crate::diagnostics::with_entry(
                old(self)@,
                note(now_unix, kind@, Some(crate::defender::status_code(*status))),
            ),
    {
        let code = defender_status_code(status);
        self.record_named(kind, None, None, Some(code.as_str()), now_unix);
    }

    /// The exclusion from Microsoft Defender was repaired, or that has failed.
    pub fn defender_repaired(
        &mut self,
        repaired: Result<DefenderStatus, TunnelError>,
        dll_path: Option<String>,
        now_unix: i64,
    ) -> (result: Result<WindowsDefenderStatusResponse, CommandError>)
        ensures
            match repaired {
                Ok(status) => {
                    &&& result matches Ok(response) && response.supported && response.state@
                        == crate::defender::defender_state_text(status.state)
                        && response.dll_present == status.dll_present && response.dll_path
                        == dll_path && response.detail_code == status.detail_code
                        && response.antivirus_detail_code == status.antivirus_detail_code
                        && response.antivirus_products@.len() == status.antivirus_products@.len()
                        && forall|i: int|
                        0 <= i < status.antivirus_products@.len() ==> crate::defender::product_shown(
                            #[trigger] response.antivirus_products@[i],
                            status.antivirus_products@[i],
                        )
                    &&& final(self)@ == crate::diagnostics::with_entry(
                        old(self)@,
                        note(
                            now_unix,
                            "windows.defender.repaired"@,
                            Some(crate::defender::status_code(status)),
                        ),
                    )
                },
                Err(error) => {
                    &&& result matches Err(shown) && shown@ == crate::commands::tunnel_error(error)
                    &&& final(self)@ == crate::diagnostics::with_entry(
                        old(self)@,
                        note(
                            now_unix,
                            "windows.defender.repair_failed"@,
                            Some(crate::commands::tunnel_error(error).code),
                        ),
                    )
                },
            },
    {
        match repaired {
            Ok(status) => {
                self.record_defender_status("windows.defender.repaired", &status, now_unix);
                Ok(defender_status_response(status, dll_path))
            },
            Err(error) => {
                let shown = CommandError::from_tunnel(error);
                self.record_named(
                    "windows.defender.repair_failed",
                    None,
                    None,
                    Some(shown.code()),
                    now_unix,
                );
                Err(shown)
            },
        }
    }
}

/// What the user is told where a recovery takes long.
#[derive(Clone, Copy, Debug)]
pub struct SlowRecoveryNotification {
    pub title: &'static str,
    pub body: &'static str,
}

pub fn slow_recovery_notification() -> (notification: SlowRecoveryNotification)
    ensures
        notification.title@ == "Проверяем подключение"@,
        notification.body@
            == "Приложение проверяет стабильность подключения и при необходимости повторит попытку автоматически."@,
{
    SlowRecoveryNotification {
        title: "Проверяем подключение",
        body:
            "Приложение проверяет стабильность подключения и при необходимости повторит попытку автоматически.",
    }
}

/// The preferences as they are shown.
#[derive(Clone, Copy, Debug, PartialEq, Eq, Structural)]
pub struct AppPreferencesResponse {
    pub close_to_tray_supported: bool,
    pub close_to_tray: bool,
    pub dns_provider: DnsProvider,
}

/// What is answered to a change of the preferences, or to a question about
/// them; only a desktop has a tray.
pub fn preferences_response(saved: Result<AppPreferences, PreferencesNotSaved>, desktop: bool) -> (response:
    Result<AppPreferencesResponse, CommandError>)
    ensures
        match saved {
            Ok(preferences) => response == Ok::<AppPreferencesResponse, CommandError>(
                AppPreferencesResponse {
                    close_to_tray_supported: desktop,
                    close_to_tray: preferences.close_to_tray,
                    dns_provider: preferences.dns_provider,
                },
            ),
            Err(_) => response matches Err(error) && error@ == crate::commands::error_text(
                "preferences_unavailable"@,
                "Не удалось сохранить настройки приложения"@,
            ),
        },
{
    match saved {
        Ok(preferences) => Ok(
            AppPreferencesResponse {
                close_to_tray_supported: desktop,
                close_to_tray: preferences.close_to_tray,
                dns_provider: preferences.dns_provider,
            },
        ),
        Err(_) => Err(
            CommandError::new("preferences_unavailable", "Не удалось сохранить настройки приложения"),
        ),
    }
}

/// The answer where there is no Microsoft Defender.
pub fn defender_repair_unsupported() -> (error: CommandError)
    ensures
        error@ == crate::commands::error_text(
            "defender_exclusion_unsupported"@,
            "Microsoft Defender доступен только в Windows"@,
        ),
{
    CommandError::new(
        "defender_exclusion_unsupported",
        "Microsoft Defender доступен только в Windows",
    )
}

/// The answer where a report could not be put together.
pub fn report_unavailable() -> (error: CommandError)
    ensures
        error@ == crate::commands::error_text(
            "diagnostics_unavailable"@,
            "Не удалось подготовить диагностический отчёт"@,
        ),
{
    CommandError::new("diagnostics_unavailable", "Не удалось подготовить диагностический отчёт")
}

/// The answer where the service of Android could not be told to give an intent
/// up.
pub fn cancel_dispatch_unavailable() -> (error: CommandError)
    ensures
        error@ == crate::commands::error_text(
            "android_service_dispatch_unavailable"@,
            "Не удалось передать отмену службе подключения"@,
        ),
{
    CommandError::new(
        "android_service_dispatch_unavailable",
        "Не удалось передать отмену службе подключения",
    )
}

/// The answer where the service of Android could not be told to toggle, or to
/// take an intent.
pub fn service_dispatch_unavailable(toggle: bool) -> (error: CommandError)
    ensures
        error@ == crate::commands::error_text(
            "android_service_dispatch_unavailable"@,
            if toggle {
                "Не удалось передать команду службе подключения"@
            } else {
                "Не удалось передать намерение службе подключения"@
            },
        ),
{
    CommandError::new(
        "android_service_dispatch_unavailable",
        if toggle {
            "Не удалось передать команду службе подключения"
        } else {
            "Не удалось передать намерение службе подключения"
        },
    )
}

} // verus!
