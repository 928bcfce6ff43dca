//! Getting the helper, the tunnel and the updates of a platform ready.
use crate::defender::{
    AntivirusProduct, DefenderExclusionState, DefenderStatus, antivirus_product_state_name,
    defender_state_name,
};
use crate::errors::TunnelError;
use crate::text::{blank, contains_text, same_text};
use crate::versions::{is_version_text, version_is_after};
use vstd::prelude::*;

verus! {

fn backend_error(code: &str) -> (error: TunnelError)
    ensures
        is_backend_error(error, code@),
{
    TunnelError::Backend(code.to_owned())
}

pub open spec fn is_backend_error(error: TunnelError, code: Seq<char>) -> bool {
    error matches TunnelError::Backend(text) && text@ == code
}

/// The outcome of something that fails with one code.
pub open spec fn fails_with(result: Result<(), TunnelError>, code: Seq<char>) -> bool {
    result matches Err(error) && is_backend_error(error, code)
}

/// Whether a helper of one version serves an application of another.
pub open spec fn serves(installed: Seq<char>, current: Seq<char>) -> bool {
    crate::versions::is_version(installed) && !crate::versions::version_after(current, installed)
}

/// Whether the helper that has answered is new enough.
pub fn helper_is_current(answer: &Option<String>, current: &str) -> (is_current: bool)
    requires
        crate::versions::is_version(current@),
    ensures
        is_current == (crate::text::text_of(*answer) matches Some(installed) && serves(
            installed,
            current@,
        )),
{
    match answer {
        Some(installed) => match version_is_after(current, installed.as_str()) {
            Some(newer) => !newer,
            None => false,
        },
        None => false,
    }
}

/// What the version that the service reports comes to.
pub fn verify_service_version(answer: Result<String, TunnelError>, current: &str) -> (result: Result<
    (),
    TunnelError,
>)
    ensures
        match answer {
            Err(error) => result == Err::<(), TunnelError>(error),
            Ok(installed) => if !crate::versions::is_version(installed@) {
                fails_with(result, "service_outdated"@)
            } else if !crate::versions::is_version(current@) {
                fails_with(result, "invalid_app_version"@)
            } else if serves(installed@, current@) {
                result is Ok
            } else {
                fails_with(result, "service_outdated"@)
            },
        },
{
    let installed = match answer {
        Ok(installed) => installed,
        Err(error) => return Err(error),
    };
    if !is_version_text(installed.as_str()) {
        return Err(backend_error("service_outdated"));
    }
    match version_is_after(current, installed.as_str()) {
        None => Err(backend_error("invalid_app_version")),
        Some(newer) => if newer {
            Err(backend_error("service_outdated"))
        } else {
            Ok(())
        },
    }
}

/// How often the helper is asked after it was installed.
pub const UNIX_POLLS: u32 = 30;

pub const UNIX_PAUSE_MILLIS: u64 = 100;

pub const WINDOWS_POLLS: u32 = 20;

pub const WINDOWS_PAUSE_MILLIS: u64 = 250;

/// Where getting the helper ready stands.
#[derive(Clone, Copy, Debug, PartialEq, Eq, Structural)]
pub enum PreparationStage {
    FirstCheck,
    Installation,
    Check { left: u32 },
    Pause { left: u32 },
    Ended,
}

#[derive(Debug)]
pub enum PreparationEvent {
    Checked(bool),
    Installed(Result<(), TunnelError>),
    Paused,
}

#[derive(Debug)]
pub enum PreparationAction {
    Check,
    Install,
    Pause,
    /// With `reinstalled`, what was known of the antivirus products is void.
    Finish { result: Result<(), TunnelError>, reinstalled: bool },
}

pub open spec fn expects(stage: PreparationStage, event: PreparationEvent) -> bool {
    match stage {
        PreparationStage::FirstCheck | PreparationStage::Check { .. } => event is Checked,
        PreparationStage::Installation => event is Installed,
        PreparationStage::Pause { .. } => event is Paused,
        PreparationStage::Ended => false,
    }
}

/// Where it stands after an event; at most `polls` checks follow the
/// installation.
pub open spec fn stage_after(
    stage: PreparationStage,
    event: PreparationEvent,
    polls: u32,
) -> PreparationStage {
    match (stage, event) {
        (PreparationStage::FirstCheck, PreparationEvent::Checked(current)) => if current {
            PreparationStage::Ended
        } else {
            PreparationStage::Installation
        },
        (PreparationStage::Installation, PreparationEvent::Installed(result)) => if result is Ok
            && polls > 0 {
            PreparationStage::Check { left: (polls - 1) as u32 }
        } else {
            PreparationStage::Ended
        },
        (PreparationStage::Check { left }, PreparationEvent::Checked(current)) => if current {
            PreparationStage::Ended
        } else {
            PreparationStage::Pause { left }
        },
        (PreparationStage::Pause { left }, PreparationEvent::Paused) => if left > 0 {
            PreparationStage::Check { left: (left - 1) as u32 }
        } else {
            PreparationStage::Ended
        },
        _ => PreparationStage::Ended,
    }
}

/// Whether an action is the one that a stage asks for.
pub open spec fn asks_for(
    action: PreparationAction,
    before: PreparationStage,
    event: PreparationEvent,
    after: PreparationStage,
) -> bool {
    match after {
        PreparationStage::FirstCheck | PreparationStage::Check { .. } => action is Check,
        PreparationStage::Installation => action is Install,
        PreparationStage::Pause { .. } => action is Pause,
        PreparationStage::Ended => {
            &&& action matches PreparationAction::Finish { result, reinstalled }
            &&& match event {
                PreparationEvent::Checked(_) => result is Ok && reinstalled == (before is Check),
                PreparationEvent::Installed(Err(error)) => result == Err::<(), TunnelError>(error)
                    && !reinstalled,
                _ => fails_with(result, "service_unavailable"@) && !reinstalled,
            }
        },
    }
}

/// Getting the helper ready: it is installed where it is missing or too old,
/// and then asked until it answers.
pub struct HelperPreparation {
    pub stage: PreparationStage,
    pub polls: u32,
}

impl HelperPreparation {
    /// Begins with a first check.
    pub fn new(polls: u32) -> (preparation: Self)
        ensures
            preparation.stage == PreparationStage::FirstCheck,
            preparation.polls == polls,
    {
        HelperPreparation { stage: PreparationStage::FirstCheck, polls }
    }

    pub fn step(&mut self, event: PreparationEvent) -> (action: PreparationAction)
        requires
            expects(old(self).stage, event),
        ensures
            final(self).polls == old(self).polls,
            final(self).stage == stage_after(old(self).stage, event, old(self).polls),
            asks_for(action, old(self).stage, event, final(self).stage),
    {
        match event {
            PreparationEvent::Checked(current) => {
                let first = match self.stage {
                    PreparationStage::FirstCheck => true,
                    _ => false,
                };
                if current {
                    self.stage = PreparationStage::Ended;
                    return PreparationAction::Finish { result: Ok(()), reinstalled: !first };
                }
                if first {
                    self.stage = PreparationStage::Installation;
                    return PreparationAction::Install;
                }
                if let PreparationStage::Check { left } = self.stage {
                    self.stage = PreparationStage::Pause { left };
                }
                PreparationAction::Pause
            },
            PreparationEvent::Installed(result) => match result {
                Err(error) => {
                    self.stage = PreparationStage::Ended;
                    PreparationAction::Finish { result: Err(error), reinstalled: false }
                },
                Ok(()) => {
                    let polls: u32 = self.polls;
                    self.check_again(polls)
                },
            },
            PreparationEvent::Paused => {
                let left: u32 = match self.stage {
                    PreparationStage::Pause { left } => left,
                    _ => 0,
                };
                self.check_again(left)
            },
        }
    }

    fn check_again(&mut self, checks: u32) -> (action: PreparationAction)
        ensures
            final(self).polls == old(self).polls,
            if checks > 0 {
                &&& final(self).stage == (PreparationStage::Check { left: (checks - 1) as u32 })
                &&& action is Check
            } else {
                &&& final(self).stage == PreparationStage::Ended
                &&& action matches PreparationAction::Finish { result, reinstalled } && fails_with(
                    result,
                    "service_unavailable"@,
                ) && !reinstalled
            },
    {
        if checks > 0 {
            self.stage = PreparationStage::Check { left: checks - 1 };
            PreparationAction::Check
        } else {
            self.stage = PreparationStage::Ended;
            PreparationAction::Finish {
                result: Err(backend_error("service_unavailable")),
                reinstalled: false,
            }
        }
    }
}

/// How many more steps there can be.
pub open spec fn steps_left(stage: PreparationStage, polls: u32) -> nat {
    match stage {
        PreparationStage::FirstCheck => (2 * polls + 3) as nat,
        PreparationStage::Installation => (2 * polls + 2) as nat,
        PreparationStage::Check { left } => (2 * left + 2) as nat,
        PreparationStage::Pause { left } => (2 * left + 1) as nat,
        PreparationStage::Ended => 0,
    }
}

/// Whatever happens, getting the helper ready comes to an end, and nothing is
/// installed twice.
pub proof fn law_preparation_ends(stage: PreparationStage, event: PreparationEvent, polls: u32)
    requires
        expects(stage, event),
    ensures
        steps_left(stage_after(stage, event, polls), polls) < steps_left(stage, polls),
        stage_after(stage, event, polls) is Installation ==> stage is FirstCheck,
{
}

/// Whether the version of the application itself is one.
pub fn check_app_version(current: &str) -> (result: Result<(), TunnelError>)
    ensures
        if crate::versions::is_version(current@) {
            result is Ok
        } else {
            fails_with(result, "invalid_app_version"@)
        },
{
    if is_version_text(current) {
        Ok(())
    } else {
        Err(backend_error("invalid_app_version"))
    }
}

/// Whether the helper can be installed: its file has to be there, its owner
/// must not be the superuser, and the other files have to be there too.
pub fn check_helper_installation(helper_present: bool, uid: u32, resources_present: bool) -> (result:
    Result<(), TunnelError>)
    ensures
        if !helper_present {
            fails_with(result, "helper_resources_unavailable"@)
        } else if uid == 0 {
            fails_with(result, "helper_owner_is_root"@)
        } else if !resources_present {
            fails_with(result, "helper_resources_unavailable"@)
        } else {
            result is Ok
        },
{
    if !helper_present {
        return Err(backend_error("helper_resources_unavailable"));
    }
    if uid == 0 {
        return Err(backend_error("helper_owner_is_root"));
    }
    if !resources_present {
        return Err(backend_error("helper_resources_unavailable"));
    }
    Ok(())
}

pub const HELPER_INSTALL_TIMEOUT_SECONDS: u64 = 120;

/// What is known of the installer that runs.
#[derive(Clone, Copy, Debug, PartialEq, Eq, Structural)]
pub enum InstallerPoll {
    Exited { success: bool },
    Running,
    Unknown,
}

#[derive(Debug)]
pub enum InstallerAction {
    Wait,
    Exited { success: bool },
    Terminate(TunnelError),
}

/// What to do about the installer: it is ended where nothing is known of it or
/// where its time is over.
pub fn installer_action(poll: InstallerPoll, now_nanos: u64, deadline_nanos: u64) -> (action:
    InstallerAction)
    ensures
        match poll {
            InstallerPoll::Exited { success } => action == (InstallerAction::Exited { success }),
            InstallerPoll::Unknown => action matches InstallerAction::Terminate(error)
                && is_backend_error(error, "helper_authorization_unavailable"@),
            InstallerPoll::Running => if now_nanos >= deadline_nanos {
                action matches InstallerAction::Terminate(error) && is_backend_error(
                    error,
                    "helper_installer_timeout"@,
                )
            } else {
                action is Wait
            },
        },
{
    match poll {
        InstallerPoll::Exited { success } => InstallerAction::Exited { success },
        InstallerPoll::Unknown => InstallerAction::Terminate(
            backend_error("helper_authorization_unavailable"),
        ),
        InstallerPoll::Running => if now_nanos >= deadline_nanos {
            InstallerAction::Terminate(backend_error("helper_installer_timeout"))
        } else {
            InstallerAction::Wait
        },
    }
}

/// What the end of the installer comes to.
pub fn helper_installed(ended: Result<bool, TunnelError>) -> (result: Result<(), TunnelError>)
    ensures
        match ended {
            Err(error) => result == Err::<(), TunnelError>(error),
            Ok(success) => if success {
                result is Ok
            } else {
                fails_with(result, "helper_install_cancelled"@)
            },
        },
{
    match ended {
        Err(error) => Err(error),
        Ok(success) => if success {
            Ok(())
        } else {
            Err(backend_error("helper_install_cancelled"))
        },
    }
}

/// Why the service of Windows could not be repaired.
#[derive(Clone, Copy, Debug, PartialEq, Eq, Structural)]
pub enum RepairError {
    ResourcesUnavailable,
    Cancelled,
    AuthorizationUnavailable,
    InstallFailed,
}

pub open spec fn repair_code(error: RepairError) -> Seq<char> {
    match error {
        RepairError::ResourcesUnavailable => "helper_resources_unavailable"@,
        RepairError::Cancelled => "helper_install_cancelled"@,
        RepairError::AuthorizationUnavailable => "helper_authorization_unavailable"@,
        RepairError::InstallFailed => "service_unavailable"@,
    }
}

pub fn repair_error(error: RepairError) -> (result: TunnelError)
    ensures
        is_backend_error(result, repair_code(error)),
{
    match error {
        RepairError::ResourcesUnavailable => backend_error("helper_resources_unavailable"),
        RepairError::Cancelled => backend_error("helper_install_cancelled"),
        RepairError::AuthorizationUnavailable => backend_error("helper_authorization_unavailable"),
        RepairError::InstallFailed => backend_error("service_unavailable"),
    }
}

pub open spec fn defender_repair_code(error: RepairError) -> Seq<char> {
    match error {
        RepairError::ResourcesUnavailable => "helper_resources_unavailable"@,
        RepairError::Cancelled => "defender_exclusion_repair_cancelled"@,
        RepairError::AuthorizationUnavailable => "helper_authorization_unavailable"@,
        RepairError::InstallFailed => "defender_exclusion_repair_failed"@,
    }
}

pub fn defender_repair_error(error: RepairError) -> (result: TunnelError)
    ensures
        is_backend_error(result, defender_repair_code(error)),
{
    match error {
        RepairError::ResourcesUnavailable => backend_error("helper_resources_unavailable"),
        RepairError::Cancelled => backend_error("defender_exclusion_repair_cancelled"),
        RepairError::AuthorizationUnavailable => backend_error("helper_authorization_unavailable"),
        RepairError::InstallFailed => backend_error("defender_exclusion_repair_failed"),
    }
}

/// What the tunnel backend of Android says of itself.
#[derive(Debug)]
pub struct AndroidTunnelProbe {
    pub backend_available: bool,
    pub permission_granted: bool,
    pub error: Option<String>,
}

#[derive(Debug)]
pub enum AndroidPreparation {
    Ready,
    AskPermission,
    Failed(TunnelError),
}

/// Whether the tunnel of Android is ready, or what is missing.
pub fn android_preparation(probe: Result<AndroidTunnelProbe, String>) -> (preparation:
    AndroidPreparation)
    ensures
        match probe {
            Err(text) => preparation == AndroidPreparation::Failed(TunnelError::Backend(text)),
            Ok(probe) => if !probe.backend_available {
                preparation matches AndroidPreparation::Failed(error) && is_backend_error(
                    error,
                    match probe.error {
                        Some(text) => text@,
                        None => "tunnel_backend_unavailable"@,
                    },
                )
            } else if probe.permission_granted {
                preparation is Ready
            } else {
                preparation is AskPermission
            },
        },
{
    let probe = match probe {
        Ok(probe) => probe,
        Err(text) => return AndroidPreparation::Failed(TunnelError::Backend(text)),
    };
    if !probe.backend_available {
        return AndroidPreparation::Failed(
            match probe.error {
                Some(text) => TunnelError::Backend(text),
                None => backend_error("tunnel_backend_unavailable"),
            },
        );
    }
    if probe.permission_granted {
        AndroidPreparation::Ready
    } else {
        AndroidPreparation::AskPermission
    }
}

/// What the answer of the user comes to.
pub fn android_permission(answer: Result<bool, String>) -> (result: Result<(), TunnelError>)
    ensures
        match answer {
            Err(text) => result == Err::<(), TunnelError>(TunnelError::Backend(text)),
            Ok(granted) => if granted {
                result is Ok
            } else {
                fails_with(result, "vpn_permission_denied"@)
            },
        },
{
    match answer {
        Err(text) => Err(TunnelError::Backend(text)),
        Ok(granted) => if granted {
            Ok(())
        } else {
            Err(backend_error("vpn_permission_denied"))
        },
    }
}

/// What asking the common process to get the tunnel ready comes to: none where
/// it could not be asked at all.
pub fn common_preparation(prepared: Option<bool>) -> (result: Result<(), TunnelError>)
    ensures
        match prepared {
            None => fails_with(result, "common runtime unavailable"@),
            Some(prepared) => if prepared {
                result is Ok
            } else {
                fails_with(result, "common preparation failed"@)
            },
        },
{
    match prepared {
        None => Err(backend_error("common runtime unavailable")),
        Some(prepared) => if prepared {
            Ok(())
        } else {
            Err(backend_error("common preparation failed"))
        },
    }
}

/// What asking the common process about the antivirus products comes to, with
/// or without a repair.
pub fn common_defender_status(reply: Option<Option<DefenderStatus>>, repair: bool) -> (result: Result<
    DefenderStatus,
    TunnelError,
>)
    ensures
        match reply {
            None => result matches Err(error) && is_backend_error(
                error,
                "common runtime unavailable"@,
            ),
            Some(None) => result matches Err(error) && is_backend_error(
                error,
                if repair {
                    "common defender repair failed"@
                } else {
                    "common defender status unavailable"@
                },
            ),
            Some(Some(status)) => result == Ok::<DefenderStatus, TunnelError>(status),
        },
{
    match reply {
        None => Err(backend_error("common runtime unavailable")),
        Some(None) => if repair {
            Err(backend_error("common defender repair failed"))
        } else {
            Err(backend_error("common defender status unavailable"))
        },
        Some(Some(status)) => Ok(status),
    }
}

/// Whether a status is the one that is assumed where the service does not say.
pub open spec fn is_local_status(status: DefenderStatus, dll_present: bool) -> bool {
    &&& status.state == DefenderExclusionState::Unavailable
    &&& status.dll_present == dll_present
    &&& crate::text::text_of(status.detail_code) == Some("service_status_unavailable"@)
    &&& status.antivirus_products@.len() == 0
    &&& crate::text::text_of(status.antivirus_detail_code) == Some("service_status_unavailable"@)
}

pub fn local_defender_status(dll_present: bool) -> (status: DefenderStatus)
    ensures
        is_local_status(status, dll_present),
{
    DefenderStatus {
        state: DefenderExclusionState::Unavailable,
        dll_present,
        detail_code: Some("service_status_unavailable".to_owned()),
        antivirus_products: Vec::new(),
        antivirus_detail_code: Some("service_status_unavailable".to_owned()),
    }
}

/// What was last learnt of the antivirus products.
pub struct DefenderStatusCache {
    pub status: Option<DefenderStatus>,
}

impl DefenderStatusCache {
    pub fn new() -> (cache: Self)
        ensures
            cache.status is None,
    {
        DefenderStatusCache { status: None }
    }

    /// Whether the service has to be asked.
    pub fn has_to_ask(&self, force: bool) -> (ask: bool)
        ensures
            ask == (force || self.status is None),
    {
        force || self.status.is_none()
    }

    /// The service has answered, or has not; `dll_present` is what the files
    /// show.
    pub fn answered(&mut self, answer: Option<DefenderStatus>, dll_present: bool)
        ensures
            match answer {
                Some(status) => final(self).status == Some(status),
                None => final(self).status matches Some(status) && is_local_status(
                    status,
                    dll_present,
                ),
            },
    {
        self.status =
        match answer {
            Some(status) => Some(status),
            None => Some(local_defender_status(dll_present)),
        };
    }

    /// The helper was installed anew.
    pub fn forget(&mut self)
        ensures
            final(self).status is None,
    {
        self.status = None;
    }
}

pub open spec fn optional_bool_text(value: Option<bool>) -> Seq<char> {
    match value {
        Some(value) => if value {
            "true"@
        } else {
            "false"@
        },
        None => "unknown"@,
    }
}

pub fn optional_bool_name(value: Option<bool>) -> (name: &'static str)
    ensures
        name@ == optional_bool_text(value),
{
    match value {
        Some(value) => if value {
            "true"
        } else {
            "false"
        },
        None => "unknown",
    }
}

/// The line about one antivirus product.
pub open spec fn product_line(product: AntivirusProduct) -> Seq<char> {
    "name="@ + product.name@ + " state="@ + crate::defender::product_state_text(product.state)
        + " signatures="@ + optional_bool_text(product.signatures_up_to_date) + " default="@
        + optional_bool_text(product.is_default) + " defender="@ + optional_bool_text(
        Some(product.is_microsoft_defender),
    )
}

/// The lines about all of them.
pub open spec fn product_lines(products: Seq<AntivirusProduct>) -> Seq<char>
    decreases products.len(),
{
    if products.len() == 0 {
        "none"@
    } else if products.len() == 1 {
        product_line(products[0])
    } else {
        product_lines(products.drop_last()) + "\n"@ + product_line(products.last())
    }
}

pub open spec fn text_or(value: Option<String>, default: Seq<char>) -> Seq<char> {
    match value {
        Some(text) => text@,
        None => default,
    }
}

pub open spec fn defender_section(status: Option<DefenderStatus>) -> Seq<char> {
    match status {
        Some(status) => "state="@ + crate::defender::defender_state_text(status.state)
            + " dll_present="@ + optional_bool_text(Some(status.dll_present)) + " detail="@
            + text_or(status.detail_code, "none"@) + "\n[windows.antivirus]\nstatus="@ + text_or(
            status.antivirus_detail_code,
            "ok"@,
        ) + "\n"@ + product_lines(status.antivirus_products@),
        None =>
            "state=unavailable dll_present=unknown detail=status_request_failed\n[windows.antivirus]\nstatus=status_request_failed"@,
    }
}

fn append_product(line: &mut String, product: &AntivirusProduct)
    ensures
        final(line)@ == old(line)@ + product_line(*product),
{
    let ghost start = line@;
    line.append("name=");
    line.append(product.name.as_str());
    line.append(" state=");
    line.append(antivirus_product_state_name(product.state));
    line.append(" signatures=");
    line.append(optional_bool_name(product.signatures_up_to_date));
    line.append(" default=");
    line.append(optional_bool_name(product.is_default));
    line.append(" defender=");
    line.append(optional_bool_name(Some(product.is_microsoft_defender)));
    assert(line@ =~= start + product_line(*product));
}

fn products_text(products: &Vec<AntivirusProduct>) -> (text: String)
    ensures
        text@ == product_lines(products@),
{
    if products.len() == 0 {
        return "none".to_owned();
    }
    let mut text = "".to_owned();
    proof {
        reveal_strlit("");
    }
    append_product(&mut text, &products[0]);
    let mut index: usize = 1;
    assert(text@ =~= product_line(products@[0]));
    assert(products@.take(1)[0] == products@[0]);
    while index < products.len()
        invariant
            1 <= index <= products@.len(),
            text@ == product_lines(products@.take(index as int)),
        decreases products@.len() - index,
    {
        text.append("\n");
        append_product(&mut text, &products[index]);
        proof {
            let longer = products@.take(index + 1);
            assert(longer.drop_last() =~= products@.take(index as int));
            assert(longer.last() == products@[index as int]);
        }
        index += 1;
    }
    assert(products@.take(index as int) =~= products@);
    text
}

/// What a report says of the service of Windows and of the antivirus products:
/// nothing where neither answered.
pub fn format_diagnostic_helper_log(log: Option<String>, status: Option<DefenderStatus>) -> (text:
    Option<String>)
    ensures
        crate::text::text_of(text) == (if log is None && status is None {
            None
        } else {
            Some(
                "[windows.defender]\n"@ + defender_section(status) + "\n"@ + text_or(
                    log,
                    Seq::empty(),
                ),
            )
        }),
{
    if log.is_none() && status.is_none() {
        return None;
    }
    let mut text = "[windows.defender]\n".to_owned();
    match &status {
        Some(status) => {
            text.append("state=");
            text.append(defender_state_name(status.state));
            text.append(" dll_present=");
            text.append(optional_bool_name(Some(status.dll_present)));
            text.append(" detail=");
            match &status.detail_code {
                Some(code) => text.append(code.as_str()),
                None => text.append("none"),
            }
            text.append("\n[windows.antivirus]\nstatus=");
            match &status.antivirus_detail_code {
                Some(code) => text.append(code.as_str()),
                None => text.append("ok"),
            }
            text.append("\n");
            text.append(products_text(&status.antivirus_products).as_str());
        },
        None => {
            text.append(
                "state=unavailable dll_present=unknown detail=status_request_failed\n[windows.antivirus]\nstatus=status_request_failed",
            );
        },
    }
    assert(text@ =~= "[windows.defender]\n"@ + defender_section(status));
    text.append("\n");
    if let Some(log) = &log {
        text.append(log.as_str());
    }
    assert(text@ =~= "[windows.defender]\n"@ + defender_section(status) + "\n"@ + text_or(
        log,
        Seq::empty(),
    ));
    Some(text)
}

pub open spec fn installer_code(error: Seq<char>) -> Seq<char> {
    if crate::text::occurs_in(error, "install_permission_denied"@) {
        "install_permission_denied"@
    } else if crate::text::occurs_in(error, "update_install_in_progress"@) {
        "update_install_in_progress"@
    } else if crate::text::occurs_in(error, "invalid_apk_path"@) {
        "invalid_apk_path"@
    } else if crate::text::occurs_in(error, "invalid_apk"@) {
        "invalid_apk"@
    } else if crate::text::occurs_in(error, "apk_package_mismatch"@) {
        "apk_package_mismatch"@
    } else if crate::text::occurs_in(error, "apk_version_mismatch"@) {
        "apk_version_mismatch"@
    } else if crate::text::occurs_in(error, "apk_signature_mismatch"@) {
        "apk_signature_mismatch"@
    } else if crate::text::occurs_in(error, "apk_installer_unavailable"@) {
        "apk_installer_unavailable"@
    } else {
        "update_install_failed"@
    }
}

/// The code of a failure of the installer of Android: the first known one that
/// its text holds.
pub fn plugin_error_code(error: &str) -> (code: &'static str)
    ensures
        code@ == installer_code(error@),
{
    if contains_text(error, "install_permission_denied") {
        "install_permission_denied"
    } else if contains_text(error, "update_install_in_progress") {
        "update_install_in_progress"
    } else if contains_text(error, "invalid_apk_path") {
        "invalid_apk_path"
    } else if contains_text(error, "invalid_apk") {
        "invalid_apk"
    } else if contains_text(error, "apk_package_mismatch") {
        "apk_package_mismatch"
    } else if contains_text(error, "apk_version_mismatch") {
        "apk_version_mismatch"
    } else if contains_text(error, "apk_signature_mismatch") {
        "apk_signature_mismatch"
    } else if contains_text(error, "apk_installer_unavailable") {
        "apk_installer_unavailable"
    } else {
        "update_install_failed"
    }
}

/// Whether updates can be checked at all: that takes a key.
pub fn check_updater_key(public_key: Option<&str>) -> (result: Result<(), &'static str>)
    ensures
        result is Ok == (public_key matches Some(key) && !crate::text::is_blank(key@)),
        result matches Err(code) ==> code@ == "updater_public_key_missing"@,
{
    match public_key {
        Some(key) => if blank(key) {
            Err("updater_public_key_missing")
        } else {
            Ok(())
        },
        None => Err("updater_public_key_missing"),
    }
}

/// What has been done, or is being done, of an update of the desktop client.
#[derive(Clone, Copy, Debug, PartialEq, Eq, Structural)]
pub enum UpdateStage {
    Target,
    ManifestUrl,
    Endpoints,
    Authorization,
    Configuration,
    Manifest,
    Version,
    Artifact,
    Download,
    StopProof,
    Installation,
    Confirmation,
}

/// The code with which a stage fails.
pub open spec fn stage_failure(stage: UpdateStage) -> Seq<char> {
    match stage {
        UpdateStage::Target => "unsupported_update_target"@,
        UpdateStage::ManifestUrl => "invalid_update_endpoint"@,
        UpdateStage::Endpoints => "updater_configuration_failed"@,
        UpdateStage::Authorization => "updater_authorization_failed"@,
        UpdateStage::Configuration => "updater_configuration_failed"@,
        UpdateStage::Manifest => "update_check_failed"@,
        UpdateStage::Version => "update_version_changed"@,
        UpdateStage::Artifact => "untrusted_update_artifact"@,
        UpdateStage::Download => "update_install_failed"@,
        UpdateStage::StopProof => "update_stop_proof_unavailable"@,
        UpdateStage::Installation => "update_install_failed"@,
        UpdateStage::Confirmation => "update_stop_proof_changed"@,
    }
}

pub fn stage_failure_code(stage: UpdateStage) -> (code: &'static str)
    ensures
        code@ == stage_failure(stage),
{
    match stage {
        UpdateStage::Target => "unsupported_update_target",
        UpdateStage::ManifestUrl => "invalid_update_endpoint",
        UpdateStage::Endpoints => "updater_configuration_failed",
        UpdateStage::Authorization => "updater_authorization_failed",
        UpdateStage::Configuration => "updater_configuration_failed",
        UpdateStage::Manifest => "update_check_failed",
        UpdateStage::Version => "update_version_changed",
        UpdateStage::Artifact => "untrusted_update_artifact",
        UpdateStage::Download => "update_install_failed",
        UpdateStage::StopProof => "update_stop_proof_unavailable",
        UpdateStage::Installation => "update_install_failed",
        UpdateStage::Confirmation => "update_stop_proof_changed",
    }
}

/// The stage that follows one that succeeded, if any does.
pub open spec fn stage_following(stage: UpdateStage) -> Option<UpdateStage> {
    match stage {
        UpdateStage::Target => Some(UpdateStage::ManifestUrl),
        UpdateStage::ManifestUrl => Some(UpdateStage::Endpoints),
        UpdateStage::Endpoints => Some(UpdateStage::Authorization),
        UpdateStage::Authorization => Some(UpdateStage::Configuration),
        UpdateStage::Configuration => Some(UpdateStage::Manifest),
        UpdateStage::Manifest => Some(UpdateStage::Version),
        UpdateStage::Version => Some(UpdateStage::Artifact),
        UpdateStage::Artifact => Some(UpdateStage::Download),
        UpdateStage::Download => Some(UpdateStage::StopProof),
        UpdateStage::StopProof => Some(UpdateStage::Installation),
        UpdateStage::Installation => Some(UpdateStage::Confirmation),
        UpdateStage::Confirmation => None,
    }
}

#[derive(Clone, Copy, Debug)]
pub enum UpdateStep {
    Continue(UpdateStage),
    Installed,
    NoUpdate,
    Failed(&'static str),
}

pub enum UpdateStepView {
    Continue(UpdateStage),
    Installed,
    NoUpdate,
    Failed(Seq<char>),
}

impl View for UpdateStep {
    type V = UpdateStepView;

    open spec fn view(&self) -> UpdateStepView {
        match self {
            UpdateStep::Continue(stage) => UpdateStepView::Continue(*stage),
            UpdateStep::Installed => UpdateStepView::Installed,
            UpdateStep::NoUpdate => UpdateStepView::NoUpdate,
            UpdateStep::Failed(code) => UpdateStepView::Failed(code@),
        }
    }
}

pub open spec fn step_of(stage: UpdateStage, succeeded: bool) -> UpdateStepView {
    if !succeeded {
        UpdateStepView::Failed(stage_failure(stage))
    } else {
        match stage_following(stage) {
            Some(next) => UpdateStepView::Continue(next),
            None => UpdateStepView::Installed,
        }
    }
}

/// What a manifest leads to that was read: the stage of the version is passed
/// by the announced one alone.
pub open spec fn found_step(version: Option<Seq<char>>, expected_version: Seq<char>) -> UpdateStepView {
    match version {
        None => UpdateStepView::NoUpdate,
        Some(version) => step_of(UpdateStage::Version, version == expected_version),
    }
}

/// What the end of a stage leads to.
pub fn update_step(stage: UpdateStage, succeeded: bool) -> (step: UpdateStep)
    ensures
        step@ == step_of(stage, succeeded),
{
    if !succeeded {
        return UpdateStep::Failed(stage_failure_code(stage));
    }
    match stage {
        UpdateStage::Target => UpdateStep::Continue(UpdateStage::ManifestUrl),
        UpdateStage::ManifestUrl => UpdateStep::Continue(UpdateStage::Endpoints),
        UpdateStage::Endpoints => UpdateStep::Continue(UpdateStage::Authorization),
        UpdateStage::Authorization => UpdateStep::Continue(UpdateStage::Configuration),
        UpdateStage::Configuration => UpdateStep::Continue(UpdateStage::Manifest),
        UpdateStage::Manifest => UpdateStep::Continue(UpdateStage::Version),
        UpdateStage::Version => UpdateStep::Continue(UpdateStage::Artifact),
        UpdateStage::Artifact => UpdateStep::Continue(UpdateStage::Download),
        UpdateStage::Download => UpdateStep::Continue(UpdateStage::StopProof),
        UpdateStage::StopProof => UpdateStep::Continue(UpdateStage::Installation),
        UpdateStage::Installation => UpdateStep::Continue(UpdateStage::Confirmation),
        UpdateStage::Confirmation => UpdateStep::Installed,
    }
}

/// What the manifest leads to: only the version that was announced is taken.
pub fn update_found(version: Option<&str>, expected_version: &str) -> (step: UpdateStep)
    ensures
        step@ == found_step(
            match version {
                Some(version) => Some(version@),
                None => None,
            },
            expected_version@,
        ),
{
    match version {
        None => UpdateStep::NoUpdate,
        Some(version) => update_step(UpdateStage::Version, same_text(version, expected_version)),
    }
}

/// How much of an update has come with one more piece.
pub fn downloaded_with(downloaded: u64, piece: u64) -> (total: u64)
    ensures
        total == crate::resource_usage::capped_sum(downloaded, piece),
{
    downloaded.saturating_add(piece)
}

/// Whether one stage comes before another.
pub open spec fn stage_rank(stage: UpdateStage) -> nat {
    match stage {
        UpdateStage::Target => 0,
        UpdateStage::ManifestUrl => 1,
        UpdateStage::Endpoints => 2,
        UpdateStage::Authorization => 3,
        UpdateStage::Configuration => 4,
        UpdateStage::Manifest => 5,
        UpdateStage::Version => 6,
        UpdateStage::Artifact => 7,
        UpdateStage::Download => 8,
        UpdateStage::StopProof => 9,
        UpdateStage::Installation => 10,
        UpdateStage::Confirmation => 11,
    }
}

/// An update goes through its stages in order and skips none: nothing is
/// trusted or downloaded before its version was compared with the announced
/// one, and nothing is installed before the tunnel was proved to have stopped.
pub proof fn law_update_skips_no_stage(stage: UpdateStage)
    ensures
        stage_following(stage) matches Some(next) ==> stage_rank(next) == stage_rank(stage) + 1,
        stage_following(stage) == Some(UpdateStage::Artifact) ==> stage == UpdateStage::Version,
        stage_following(stage) == Some(UpdateStage::Installation) ==> stage
            == UpdateStage::StopProof,
{
}

/// No other version than the announced one gets past the manifest. Another one
/// is refused as changed, and a manifest without one is no update.
pub proof fn law_only_the_announced_version_is_taken(
    version: Option<Seq<char>>,
    expected_version: Seq<char>,
)
    ensures
        found_step(version, expected_version) == (match version {
            None => UpdateStepView::NoUpdate,
            Some(found) => if found == expected_version {
                UpdateStepView::Continue(UpdateStage::Artifact)
            } else {
                UpdateStepView::Failed("update_version_changed"@)
            },
        }),
{
}

} // verus!
