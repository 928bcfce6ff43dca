//! The installed owner of the desktop client: which installation runs, what is
//! allowed while an update is under way, and how the runtime is served.
use crate::text::same_text;
use crate::versions::version_is_after;
use std::collections::VecDeque;
use vstd::prelude::*;

verus! {

/// How many actions of the tray wait for the runtime at most.
pub const MAX_QUEUED_ACTIONS: usize = 16;

/// How many bytes the traffic line of the tray has at most.
pub const MAX_TRAFFIC_BYTES: usize = 1024;

/// The tag of an answer to a request that failed.
pub const NATIVE_FAILURE_TAG: u8 = 255;

/// What the owner refuses, and why.
#[derive(Clone, Copy, Debug, PartialEq, Eq, Structural)]
pub enum ContainerError {
    InvalidCandidateVersion,
    InvalidInstalledVersion,
    InvalidPreviousVersion,
    ExecutableVersionMismatch,
    RollbackRejected,
    ManifestKeyUnavailable,
    StartFenced,
    PreparationFenced,
    UpdateStateUnavailable,
    StopReceiptUnavailable,
    InstalledReceiptUnavailable,
    InstalledReceiptChanged,
    StopProofUnavailable,
    UpdateOperationChanged,
    UpdateAuthorityUnavailable,
    UpdateAuthorityChanged,
    UpdaterUnavailable,
    UpdateNotReady,
    RuntimeSwitchUnavailable,
    RuntimeSwitchNotReady,
    PresentationTooLarge,
    StorageAlreadyOpened,
    RunsAsRoot,
    InstallationFailed,
    InstallationCancelled,
    BrokerRequired,
    NativeIdentityMismatch,
}

pub open spec fn container_message(error: ContainerError) -> Seq<char> {
    match error {
        ContainerError::InvalidCandidateVersion => "invalid candidate version"@,
        ContainerError::InvalidInstalledVersion => "invalid installed version"@,
        ContainerError::InvalidPreviousVersion => "invalid previous version"@,
        ContainerError::ExecutableVersionMismatch => "container executable version mismatch"@,
        ContainerError::RollbackRejected => "container rollback rejected"@,
        ContainerError::ManifestKeyUnavailable => "pinned runtime manifest key unavailable"@,
        ContainerError::StartFenced => "native start fenced by update"@,
        ContainerError::PreparationFenced => "native preparation fenced by update"@,
        ContainerError::UpdateStateUnavailable => "update state unavailable"@,
        ContainerError::StopReceiptUnavailable => "live helper stop receipt unavailable"@,
        ContainerError::InstalledReceiptUnavailable => "installed update receipt unavailable"@,
        ContainerError::InstalledReceiptChanged => "installed update receipt changed"@,
        ContainerError::StopProofUnavailable => "update stop proof unavailable"@,
        ContainerError::UpdateOperationChanged => "update operation changed"@,
        ContainerError::UpdateAuthorityUnavailable => "pending update authority unavailable"@,
        ContainerError::UpdateAuthorityChanged => "pending update authority changed"@,
        ContainerError::UpdaterUnavailable => "updater unavailable"@,
        ContainerError::UpdateNotReady => "update not ready"@,
        ContainerError::RuntimeSwitchUnavailable => "runtime switch unavailable"@,
        ContainerError::RuntimeSwitchNotReady => "runtime switch not ready"@,
        ContainerError::PresentationTooLarge => "tray presentation too large"@,
        ContainerError::StorageAlreadyOpened => "storage already opened"@,
        ContainerError::RunsAsRoot => "product cannot run as root"@,
        ContainerError::InstallationFailed => "common installation failed"@,
        ContainerError::InstallationCancelled => "common installation cancelled"@,
        ContainerError::BrokerRequired => "installed common broker required"@,
        ContainerError::NativeIdentityMismatch => "common native identity mismatch"@,
    }
}

impl ContainerError {
    pub fn message(&self) -> (message: &'static str)
        ensures
            message@ == container_message(*self),
    {
        match self {
            ContainerError::InvalidCandidateVersion => "invalid candidate version",
            ContainerError::InvalidInstalledVersion => "invalid installed version",
            ContainerError::InvalidPreviousVersion => "invalid previous version",
            ContainerError::ExecutableVersionMismatch => "container executable version mismatch",
            ContainerError::RollbackRejected => "container rollback rejected",
            ContainerError::ManifestKeyUnavailable => "pinned runtime manifest key unavailable",
            ContainerError::StartFenced => "native start fenced by update",
            ContainerError::PreparationFenced => "native preparation fenced by update",
            ContainerError::UpdateStateUnavailable => "update state unavailable",
            ContainerError::StopReceiptUnavailable => "live helper stop receipt unavailable",
            ContainerError::InstalledReceiptUnavailable => "installed update receipt unavailable",
            ContainerError::InstalledReceiptChanged => "installed update receipt changed",
            ContainerError::StopProofUnavailable => "update stop proof unavailable",
            ContainerError::UpdateOperationChanged => "update operation changed",
            ContainerError::UpdateAuthorityUnavailable => "pending update authority unavailable",
            ContainerError::UpdateAuthorityChanged => "pending update authority changed",
            ContainerError::UpdaterUnavailable => "updater unavailable",
            ContainerError::UpdateNotReady => "update not ready",
            ContainerError::RuntimeSwitchUnavailable => "runtime switch unavailable",
            ContainerError::RuntimeSwitchNotReady => "runtime switch not ready",
            ContainerError::PresentationTooLarge => "tray presentation too large",
            ContainerError::StorageAlreadyOpened => "storage already opened",
            ContainerError::RunsAsRoot => "product cannot run as root",
            ContainerError::InstallationFailed => "common installation failed",
            ContainerError::InstallationCancelled => "common installation cancelled",
            ContainerError::BrokerRequired => "installed common broker required",
            ContainerError::NativeIdentityMismatch => "common native identity mismatch",
        }
    }
}

/// What is to be done with the program that was started.
#[derive(Clone, Copy, Debug, PartialEq, Eq, Structural)]
pub enum InstallationAction {
    Continue,
    LaunchInstalled,
    RepairInstalled,
    InstallCandidate,
}

/// What is done once it is known whether the candidate comes after the
/// installed version (none where nothing is installed).
pub open spec fn action_for(
    candidate_after: Option<bool>,
    protected: bool,
    running_installed: bool,
) -> InstallationAction {
    match candidate_after {
        None => InstallationAction::InstallCandidate,
        Some(after) => if after {
            InstallationAction::InstallCandidate
        } else if !protected {
            InstallationAction::RepairInstalled
        } else if running_installed {
            InstallationAction::Continue
        } else {
            InstallationAction::LaunchInstalled
        },
    }
}

pub fn installation_action_for(
    candidate_after: Option<bool>,
    protected: bool,
    running_installed: bool,
) -> (action: InstallationAction)
    ensures
        action == action_for(candidate_after, protected, running_installed),
{
    match candidate_after {
        None => InstallationAction::InstallCandidate,
        Some(after) => if after {
            InstallationAction::InstallCandidate
        } else if !protected {
            InstallationAction::RepairInstalled
        } else if running_installed {
            InstallationAction::Continue
        } else {
            InstallationAction::LaunchInstalled
        },
    }
}

/// An old program must never overwrite a newer protected installation: it is
/// installed only where nothing is, or something older.
pub fn installation_action(
    candidate: &str,
    installed: Option<&str>,
    protected: bool,
    running_installed: bool,
) -> (action: Result<InstallationAction, ContainerError>)
    ensures
        ({
            let candidate_valid = crate::versions::is_version(candidate@);
            match installed {
                None => action == (if candidate_valid {
                    Ok::<InstallationAction, ContainerError>(InstallationAction::InstallCandidate)
                } else {
                    Err(ContainerError::InvalidCandidateVersion)
                }),
                Some(installed) => action == (if !candidate_valid {
                    Err::<InstallationAction, ContainerError>(
                        ContainerError::InvalidCandidateVersion,
                    )
                } else if !crate::versions::is_version(installed@) {
                    Err(ContainerError::InvalidInstalledVersion)
                } else {
                    Ok(
                        action_for(
                            Some(crate::versions::version_after(candidate@, installed@)),
                            protected,
                            running_installed,
                        ),
                    )
                }),
            }
        }),
{
    if !crate::versions::is_version_text(candidate) {
        return Err(ContainerError::InvalidCandidateVersion);
    }
    match installed {
        None => Ok(installation_action_for(None, protected, running_installed)),
        Some(installed) => match version_is_after(candidate, installed) {
            Some(after) => Ok(installation_action_for(Some(after), protected, running_installed)),
            None => Err(ContainerError::InvalidInstalledVersion),
        },
    }
}

/// Whether a runtime layout belongs to this executable and does not bring an
/// older one than it replaces.
pub fn verify_layout_versions(
    container_version: &str,
    package_version: &str,
    previous_version: Option<&str>,
) -> (result: Result<(), ContainerError>)
    ensures
        result == (if container_version@ != package_version@ {
            Err::<(), ContainerError>(ContainerError::ExecutableVersionMismatch)
        } else {
            match previous_version {
                None => Ok(()),
                Some(previous) => if !crate::versions::is_version(previous@) {
                    Err(ContainerError::InvalidPreviousVersion)
                } else if !crate::versions::is_version(container_version@) {
                    Err(ContainerError::InvalidCandidateVersion)
                } else if crate::versions::version_after(previous@, container_version@) {
                    Err(ContainerError::RollbackRejected)
                } else {
                    Ok(())
                },
            }
        }),
{
    if !same_text(container_version, package_version) {
        return Err(ContainerError::ExecutableVersionMismatch);
    }
    match previous_version {
        None => Ok(()),
        Some(previous) => {
            if !crate::versions::is_version_text(previous) {
                return Err(ContainerError::InvalidPreviousVersion);
            }
            match version_is_after(previous, container_version) {
                None => Err(ContainerError::InvalidCandidateVersion),
                Some(after) => if after {
                    Err(ContainerError::RollbackRejected)
                } else {
                    Ok(())
                },
            }
        },
    }
}

/// How the program that was started hands over to the installed one.
#[derive(Clone, Copy, Debug, PartialEq, Eq, Structural)]
pub enum HandoffPlan {
    /// It is the installed one.
    Continue,
    /// The installed one is launched.
    Launch,
    /// The installer runs first, from the installed copy or from the program
    /// that was started.
    Install { from_installed: bool },
}

pub open spec fn plan_for(action: InstallationAction) -> HandoffPlan {
    match action {
        InstallationAction::Continue => HandoffPlan::Continue,
        InstallationAction::LaunchInstalled => HandoffPlan::Launch,
        InstallationAction::RepairInstalled => HandoffPlan::Install { from_installed: true },
        InstallationAction::InstallCandidate => HandoffPlan::Install { from_installed: false },
    }
}

/// What is done before anything protected is opened. The product never runs as
/// root.
pub fn pre_auth_handoff(
    runs_as_root: bool,
    action: Result<InstallationAction, ContainerError>,
) -> (plan: Result<HandoffPlan, ContainerError>)
    ensures
        plan == (if runs_as_root {
            Err::<HandoffPlan, ContainerError>(ContainerError::RunsAsRoot)
        } else {
            match action {
                Ok(action) => Ok(plan_for(action)),
                Err(error) => Err(error),
            }
        }),
{
    if runs_as_root {
        return Err(ContainerError::RunsAsRoot);
    }
    match action {
        Ok(InstallationAction::Continue) => Ok(HandoffPlan::Continue),
        Ok(InstallationAction::LaunchInstalled) => Ok(HandoffPlan::Launch),
        Ok(InstallationAction::RepairInstalled) => Ok(
            HandoffPlan::Install { from_installed: true },
        ),
        Ok(InstallationAction::InstallCandidate) => Ok(
            HandoffPlan::Install { from_installed: false },
        ),
        Err(error) => Err(error),
    }
}

/// Whether the installed program may be launched: after an installer that
/// succeeded, where one ran (`installer`: none where it could not be run), and
/// only where the installed executable is protected.
pub fn launch_after_handoff(
    plan: HandoffPlan,
    installer: Option<bool>,
    executable_protected: bool,
) -> (result: Result<(), ContainerError>)
    ensures
        ({
            let installs = plan is Install;
            result == (if installs && installer is None {
                Err::<(), ContainerError>(ContainerError::InstallationFailed)
            } else if installs && installer == Some(false) {
                Err(ContainerError::InstallationCancelled)
            } else if !executable_protected {
                Err(ContainerError::BrokerRequired)
            } else {
                Ok(())
            })
        }),
{
    match plan {
        HandoffPlan::Install { .. } => match installer {
            None => return Err(ContainerError::InstallationFailed),
            Some(succeeded) => if !succeeded {
                return Err(ContainerError::InstallationCancelled);
            },
        },
        _ => {},
    }
    if !executable_protected {
        return Err(ContainerError::BrokerRequired);
    }
    Ok(())
}

/// What tells the engine of one runtime from that of another.
#[derive(Debug)]
pub struct NativeIdentity {
    pub runtime_version: String,
    pub runtime_contract_version: String,
    pub container_version: String,
}

#[verifier::ext_equal]
pub struct IdentityView {
    pub runtime_version: Seq<char>,
    pub runtime_contract_version: Seq<char>,
    pub container_version: Seq<char>,
}

impl View for NativeIdentity {
    type V = IdentityView;

    open spec fn view(&self) -> IdentityView {
        IdentityView {
            runtime_version: self.runtime_version@,
            runtime_contract_version: self.runtime_contract_version@,
            container_version: self.container_version@,
        }
    }
}

/// The tunnel is bound to an engine only where that is the engine of the
/// runtime to be launched.
pub fn check_native_identity(engine: &NativeIdentity, target: &NativeIdentity) -> (result: Result<
    (),
    ContainerError,
>)
    ensures
        result == (if engine@ == target@ {
            Ok::<(), ContainerError>(())
        } else {
            Err(ContainerError::NativeIdentityMismatch)
        }),
{
    let same = same_text(engine.runtime_version.as_str(), target.runtime_version.as_str())
        && same_text(
        engine.runtime_contract_version.as_str(),
        target.runtime_contract_version.as_str(),
    ) && same_text(engine.container_version.as_str(), target.container_version.as_str());
    assert(same ==> engine@ =~= target@);
    if same {
        Ok(())
    } else {
        Err(ContainerError::NativeIdentityMismatch)
    }
}

/// A character of the standard Base64 alphabet.
pub open spec fn base64_char(value: int) -> char {
    if value < 26 {
        ('A' as int + value) as char
    } else if value < 52 {
        ('a' as int + (value - 26)) as char
    } else if value < 62 {
        ('0' as int + (value - 52)) as char
    } else if value == 62 {
        '+'
    } else {
        '/'
    }
}

/// Bytes in Base64, with padding: four characters for each three bytes.
pub open spec fn base64_text(bytes: Seq<u8>) -> Seq<char>
    decreases bytes.len(),
{
    if bytes.len() == 0 {
        Seq::empty()
    } else if bytes.len() == 1 {
        let (a, b) = (bytes[0] / 4, bytes[0] % 4);
        seq![base64_char(a as int), base64_char(b * 16), '=', '=']
    } else if bytes.len() == 2 {
        let (a, b) = (bytes[0] / 4, bytes[0] % 4);
        let (c, d) = (bytes[1] / 16, bytes[1] % 16);
        seq![base64_char(a as int), base64_char(b * 16 + c), base64_char(d * 4), '=']
    } else {
        let (a, b) = (bytes[0] / 4, bytes[0] % 4);
        let (c, d) = (bytes[1] / 16, bytes[1] % 16);
        let (e, f) = (bytes[2] / 64, bytes[2] % 64);
        seq![
            base64_char(a as int),
            base64_char(b * 16 + c),
            base64_char(d * 4 + e),
            base64_char(f as int),
        ] + base64_text(bytes.subrange(3, bytes.len() as int))
    }
}

/// Calls `decode` of `base64::engine::general_purpose::STANDARD`: it accepts
/// exactly the texts that are the Base64 of some bytes, with canonical padding
/// and no bits left over, and returns those bytes.
#[verifier::external_body]
fn decode_base64(text: &str) -> (decoded: Option<Vec<u8>>)
    ensures
        match decoded {
            Some(bytes) => base64_text(bytes@) == text@,
            None => forall|bytes: Seq<u8>| #[trigger] base64_text(bytes) != text@,
        },
{
    base64::Engine::decode(&base64::engine::general_purpose::STANDARD, text).ok()
}

/// The key that manifests of runtimes are signed with, as it was built in.
pub fn pinned_manifest_key(value: Option<&str>) -> (key: Result<Vec<u8>, ContainerError>)
    ensures
        match key {
            Ok(bytes) => value matches Some(text) && base64_text(bytes@) == text@,
            Err(error) => error == ContainerError::ManifestKeyUnavailable && (value matches Some(
                text,
            ) ==> forall|bytes: Seq<u8>| #[trigger] base64_text(bytes) != text@),
        },
{
    match value {
        Some(text) => match decode_base64(text) {
            Some(bytes) => Ok(bytes),
            None => Err(ContainerError::ManifestKeyUnavailable),
        },
        None => Err(ContainerError::ManifestKeyUnavailable),
    }
}

proof fn lemma_base64_char_is_injective(left: int, right: int)
    requires
        0 <= left < 64,
        0 <= right < 64,
        base64_char(left) == base64_char(right),
    ensures
        left == right,
{
}

proof fn lemma_base64_char_is_no_padding(value: int)
    requires
        0 <= value < 64,
    ensures
        base64_char(value) != '=',
{
}

proof fn lemma_base64_text_is_not_empty(bytes: Seq<u8>)
    requires
        bytes.len() > 0,
    ensures
        base64_text(bytes).len() >= 4,
{
}

/// A text denotes at most one key.
pub proof fn law_base64_denotes_one_key(left: Seq<u8>, right: Seq<u8>)
    requires
        base64_text(left) == base64_text(right),
    ensures
        left == right,
    decreases left.len(),
{
    let text = base64_text(left);
    if left.len() == 0 || right.len() == 0 {
        if left.len() > 0 {
            lemma_base64_text_is_not_empty(left);
        }
        if right.len() > 0 {
            lemma_base64_text_is_not_empty(right);
        }
        assert(left =~= right);
    } else {
        lemma_base64_text_is_not_empty(left);
        let l = |i: int| left[i] as int;
        let r = |i: int| right[i] as int;
        assert(text[0] == base64_char(l(0) / 4));
        assert(text[0] == base64_char(r(0) / 4));
        lemma_base64_char_is_injective(l(0) / 4, r(0) / 4);
        let left_second = (l(0) % 4) * 16 + if left.len() > 1 { l(1) / 16 } else { 0 };
        let right_second = (r(0) % 4) * 16 + if right.len() > 1 { r(1) / 16 } else { 0 };
        assert(text[1] == base64_char(left_second));
        assert(text[1] == base64_char(right_second));
        lemma_base64_char_is_injective(left_second, right_second);
        assert(left[0] == right[0]);
        if left.len() > 1 {
            let value = (l(1) % 16) * 4 + if left.len() > 2 { l(2) / 64 } else { 0 };
            assert(text[2] == base64_char(value));
            lemma_base64_char_is_no_padding(value);
        }
        if right.len() > 1 {
            let value = (r(1) % 16) * 4 + if right.len() > 2 { r(2) / 64 } else { 0 };
            assert(text[2] == base64_char(value));
            lemma_base64_char_is_no_padding(value);
        }
        assert(left.len() > 1 <==> right.len() > 1);
        if left.len() > 1 {
            let left_third = (l(1) % 16) * 4 + if left.len() > 2 { l(2) / 64 } else { 0 };
            let right_third = (r(1) % 16) * 4 + if right.len() > 2 { r(2) / 64 } else { 0 };
            lemma_base64_char_is_injective(left_third, right_third);
            assert(left[1] == right[1]);
            if left.len() > 2 {
                assert(text[3] == base64_char(l(2) % 64));
                lemma_base64_char_is_no_padding(l(2) % 64);
            }
            if right.len() > 2 {
                assert(text[3] == base64_char(r(2) % 64));
                lemma_base64_char_is_no_padding(r(2) % 64);
            }
            assert(left.len() > 2 <==> right.len() > 2);
            if left.len() > 2 {
                lemma_base64_char_is_injective(l(2) % 64, r(2) % 64);
                assert(left[2] == right[2]);
                let left_rest = left.subrange(3, left.len() as int);
                let right_rest = right.subrange(3, right.len() as int);
                assert(text.subrange(4, text.len() as int) =~= base64_text(left_rest));
                assert(text.subrange(4, text.len() as int) =~= base64_text(right_rest));
                law_base64_denotes_one_key(left_rest, right_rest);
                assert(left =~= left.subrange(0, 3) + left_rest);
                assert(right =~= right.subrange(0, 3) + right_rest);
                assert(left.subrange(0, 3) =~= right.subrange(0, 3));
            } else {
                assert(left =~= right);
            }
        } else {
            assert(left =~= right);
        }
    }
}

/// The receipt of the stop that an update needs: for which version, and for
/// which operation.
#[derive(Debug)]
pub struct UpdateStopProof {
    pub target: String,
    pub receipt: String,
}

#[verifier::ext_equal]
pub struct ProofView {
    pub target: Seq<char>,
    pub receipt: Seq<char>,
}

impl View for UpdateStopProof {
    type V = ProofView;

    open spec fn view(&self) -> ProofView {
        ProofView { target: self.target@, receipt: self.receipt@ }
    }
}

pub open spec fn proof_of(value: Option<UpdateStopProof>) -> Option<ProofView> {
    match value {
        Some(stop_proof) => Some(stop_proof@),
        None => None,
    }
}

impl UpdateStopProof {
    pub fn same_as(&self, other: &UpdateStopProof) -> (same: bool)
        ensures
            same == (self@ == other@),
    {
        same_text(self.target.as_str(), other.target.as_str()) && same_text(
            self.receipt.as_str(),
            other.receipt.as_str(),
        )
    }

    pub fn duplicate(&self) -> (copy: Self)
        ensures
            copy@ == self@,
    {
        UpdateStopProof { target: self.target.clone(), receipt: self.receipt.clone() }
    }
}

/// The program that replaces this one, and whether it was installed.
pub struct Replacement {
    pub stop_proof: UpdateStopProof,
    pub installed: bool,
}

/// What is known of the operations on the tunnel while this program runs.
pub struct NativeOperationState {
    pub replacement: Option<Replacement>,
    pub observed_helper_stop: bool,
}

#[verifier::ext_equal]
pub struct OperationView {
    pub replacement: Option<(ProofView, bool)>,
    pub observed_helper_stop: bool,
}

impl View for NativeOperationState {
    type V = OperationView;

    open spec fn view(&self) -> OperationView {
        OperationView {
            replacement: match self.replacement {
                Some(replacement) => Some((replacement.stop_proof@, replacement.installed)),
                None => None,
            },
            observed_helper_stop: self.observed_helper_stop,
        }
    }
}

/// Whether a start is refused: an update is about to replace this program.
pub open spec fn start_fenced(state: OperationView, update_pending: bool) -> bool {
    update_pending || state.replacement is Some
}

/// Whether the program that was installed may be started in place of this one.
pub open spec fn restart_result(state: OperationView, current: Option<ProofView>) -> Result<
    (),
    ContainerError,
> {
    if !state.observed_helper_stop {
        Err(ContainerError::StopReceiptUnavailable)
    } else {
        match state.replacement {
            Some((stop_proof, true)) => if current == Some(stop_proof) {
                Ok(())
            } else {
                Err(ContainerError::InstalledReceiptChanged)
            },
            _ => Err(ContainerError::InstalledReceiptUnavailable),
        }
    }
}

/// Whether an installation may begin, with the proof of the stop it needs.
pub open spec fn installation_result(state: OperationView, current: Option<ProofView>) -> Result<
    (),
    ContainerError,
> {
    if !state.observed_helper_stop {
        Err(ContainerError::StopReceiptUnavailable)
    } else {
        match current {
            None => Err(ContainerError::StopProofUnavailable),
            Some(stop_proof) => if state.replacement matches Some((previous, _)) && previous != stop_proof {
                Err(ContainerError::UpdateOperationChanged)
            } else {
                Ok(())
            },
        }
    }
}

impl NativeOperationState {
    pub fn new() -> (state: Self)
        ensures
            state@ == (OperationView { replacement: None, observed_helper_stop: false }),
    {
        NativeOperationState { replacement: None, observed_helper_stop: false }
    }

    pub fn check_start(&self, update_pending: bool) -> (result: Result<(), ContainerError>)
        ensures
            result == (if start_fenced(self@, update_pending) {
                Err::<(), ContainerError>(ContainerError::StartFenced)
            } else {
                Ok(())
            }),
    {
        if update_pending || self.replacement.is_some() {
            Err(ContainerError::StartFenced)
        } else {
            Ok(())
        }
    }

    /// A tunnel is about to be started. Whatever was known of its being down
    /// is forgotten first.
    pub fn begin_start(&mut self, update_pending: bool) -> (result: Result<(), ContainerError>)
        ensures
            result == (if start_fenced(old(self)@, update_pending) {
                Err::<(), ContainerError>(ContainerError::StartFenced)
            } else {
                Ok(())
            }),
            final(self)@ == (if start_fenced(old(self)@, update_pending) {
                old(self)@
            } else {
                OperationView { observed_helper_stop: false, ..old(self)@ }
            }),
    {
        match self.check_start(update_pending) {
            Err(error) => Err(error),
            Ok(_) => {
                self.observed_helper_stop = false;
                Ok(())
            },
        }
    }

    /// A stop of the tunnel begins: it is not known to be down.
    pub fn begin_stop(&mut self)
        ensures
            final(self)@ == (OperationView { observed_helper_stop: false, ..old(self)@ }),
    {
        self.observed_helper_stop = false;
    }

    /// The stop has succeeded.
    pub fn stop_observed(&mut self)
        ensures
            final(self)@ == (OperationView { observed_helper_stop: true, ..old(self)@ }),
    {
        self.observed_helper_stop = true;
    }

    /// Whether the installed update may be started; `current` is the proof
    /// that the journal holds for it now.
    pub fn restart_proof(&self, current: &Option<UpdateStopProof>) -> (result: Result<
        (),
        ContainerError,
    >)
        ensures
            result == restart_result(self@, proof_of(*current)),
    {
        if !self.observed_helper_stop {
            return Err(ContainerError::StopReceiptUnavailable);
        }
        match &self.replacement {
            Some(replacement) => {
                if !replacement.installed {
                    return Err(ContainerError::InstalledReceiptUnavailable);
                }
                let unchanged = match current {
                    Some(current) => current.same_as(&replacement.stop_proof),
                    None => false,
                };
                if unchanged {
                    Ok(())
                } else {
                    Err(ContainerError::InstalledReceiptChanged)
                }
            },
            None => Err(ContainerError::InstalledReceiptUnavailable),
        }
    }

    /// An installation is to begin; `current` is the proof that the journal
    /// holds for the version to be installed.
    pub fn begin_installation(&mut self, current: Option<UpdateStopProof>) -> (result: Result<
        (),
        ContainerError,
    >)
        ensures
            result == installation_result(old(self)@, proof_of(current)),
            final(self)@ == (match (result, current) {
                (Ok(_), Some(stop_proof)) => OperationView {
                    replacement: Some((stop_proof@, false)),
                    ..old(self)@
                },
                _ => old(self)@,
            }),
    {
        if !self.observed_helper_stop {
            return Err(ContainerError::StopReceiptUnavailable);
        }
        match current {
            None => Err(ContainerError::StopProofUnavailable),
            Some(stop_proof) => {
                let changed = match &self.replacement {
                    Some(previous) => !previous.stop_proof.same_as(&stop_proof),
                    None => false,
                };
                if changed {
                    return Err(ContainerError::UpdateOperationChanged);
                }
                self.replacement = Some(Replacement { stop_proof, installed: false });
                Ok(())
            },
        }
    }

    /// An installation has succeeded that was begun with `stop_proof`.
    pub fn installation_succeeded(
        &mut self,
        stop_proof: UpdateStopProof,
        current: &Option<UpdateStopProof>,
    ) -> (result: Result<(), ContainerError>)
        ensures
            ({
                let begun = old(self)@.replacement matches Some((expected, _)) && expected
                    == stop_proof@;
                let unchanged = proof_of(*current) == Some(stop_proof@);
                if begun && unchanged {
                    &&& result == Ok::<(), ContainerError>(())
                    &&& final(self)@ == (OperationView {
                        replacement: Some((stop_proof@, true)),
                        ..old(self)@
                    })
                } else {
                    &&& result == Err::<(), ContainerError>(ContainerError::UpdateOperationChanged)
                    &&& final(self)@ == old(self)@
                }
            }),
    {
        let unchanged = match current {
            Some(current) => current.same_as(&stop_proof),
            None => false,
        };
        let begun = match &self.replacement {
            Some(expected) => expected.stop_proof.same_as(&stop_proof),
            None => false,
        };
        if !unchanged || !begun {
            return Err(ContainerError::UpdateOperationChanged);
        }
        self.replacement = Some(Replacement { stop_proof, installed: true });
        Ok(())
    }

    /// Whether the installer of Windows may take over: the tunnel is down, and
    /// nothing of the operation has changed.
    pub fn handoff_windows_installer(
        &self,
        stop_proof: &UpdateStopProof,
        current: &Option<UpdateStopProof>,
    ) -> (result: Result<(), ContainerError>)
        ensures
            result == (if !self@.observed_helper_stop || self@.replacement != Some(
                (stop_proof@, false),
            ) {
                Err::<(), ContainerError>(ContainerError::UpdateAuthorityChanged)
            } else {
                match *current {
                    None => Err(ContainerError::UpdateAuthorityUnavailable),
                    Some(current) => if current@ == stop_proof@ {
                        Ok(())
                    } else {
                        Err(ContainerError::UpdateAuthorityChanged)
                    },
                }
            }),
    {
        let begun = match &self.replacement {
            Some(replacement) => !replacement.installed && replacement.stop_proof.same_as(stop_proof),
            None => false,
        };
        if !self.observed_helper_stop || !begun {
            return Err(ContainerError::UpdateAuthorityChanged);
        }
        match current {
            None => Err(ContainerError::UpdateAuthorityUnavailable),
            Some(current) => if current.same_as(stop_proof) {
                Ok(())
            } else {
                Err(ContainerError::UpdateAuthorityChanged)
            },
        }
    }
}

/// What the tray asks of the runtime.
#[derive(Clone, Copy, Debug, PartialEq, Eq, Structural)]
pub enum RuntimeAction {
    Show,
    Toggle,
    Quit,
}

/// What the tray shows of the runtime.
#[derive(Debug)]
pub struct TraySnapshot {
    pub disconnect: bool,
    pub traffic: String,
}

/// What becomes of an action of the tray.
#[derive(Clone, Copy, Debug, PartialEq, Eq, Structural)]
pub enum QueuedAction {
    /// It waits for the runtime, or there were too many.
    Queued,
    /// The program ends.
    Finish,
}

/// What the owner keeps for the tray.
pub struct CommonState {
    pub presentation: TraySnapshot,
    pub actions: VecDeque<RuntimeAction>,
    pub finishing: bool,
}

#[verifier::ext_equal]
pub struct CommonView {
    pub disconnect: bool,
    pub traffic: Seq<char>,
    pub actions: Seq<RuntimeAction>,
    pub finishing: bool,
}

impl View for CommonState {
    type V = CommonView;

    open spec fn view(&self) -> CommonView {
        CommonView {
            disconnect: self.presentation.disconnect,
            traffic: self.presentation.traffic@,
            actions: self.actions@,
            finishing: self.finishing,
        }
    }
}

impl CommonState {
    pub open spec fn wf(self) -> bool {
        self@.actions.len() <= MAX_QUEUED_ACTIONS
    }

    pub fn new() -> (state: Self)
        ensures
            state.wf(),
            state@ == (CommonView {
                disconnect: false,
                traffic: Seq::empty(),
                actions: Seq::empty(),
                finishing: false,
            }),
    {
        CommonState {
            presentation: TraySnapshot { disconnect: false, traffic: String::new() },
            actions: VecDeque::new(),
            finishing: false,
        }
    }

    /// The tray was used. Without a runtime only its end is left to it.
    pub fn queue_action(&mut self, runtime_alive: bool, action: RuntimeAction) -> (outcome:
        QueuedAction)
        requires
            old(self).wf(),
        ensures
            final(self).wf(),
            if !runtime_alive && action == RuntimeAction::Quit {
                outcome == QueuedAction::Finish && final(self)@ == old(self)@
            } else {
                &&& outcome == QueuedAction::Queued
                &&& final(self)@ == (CommonView {
                    actions: if old(self)@.actions.len() < MAX_QUEUED_ACTIONS {
                        old(self)@.actions.push(action)
                    } else {
                        old(self)@.actions
                    },
                    ..old(self)@
                })
            },
    {
        if !runtime_alive && action == RuntimeAction::Quit {
            return QueuedAction::Finish;
        }
        if self.actions.len() < MAX_QUEUED_ACTIONS {
            self.actions.push_back(action);
        }
        QueuedAction::Queued
    }

    /// The runtime has told what to show. It is given the actions that wait,
    /// in their order.
    pub fn poll(&mut self, presentation: TraySnapshot) -> (actions: Result<
        Vec<RuntimeAction>,
        ContainerError,
    >)
        requires
            old(self).wf(),
        ensures
            final(self).wf(),
            if crate::text::byte_len(presentation.traffic@) > MAX_TRAFFIC_BYTES {
                &&& actions == Err::<Vec<RuntimeAction>, ContainerError>(
                    ContainerError::PresentationTooLarge,
                )
                &&& final(self)@ == old(self)@
            } else {
                &&& actions matches Ok(taken)
                &&& taken@ == old(self)@.actions
                &&& final(self)@ == (CommonView {
                    disconnect: presentation.disconnect,
                    traffic: presentation.traffic@,
                    actions: Seq::empty(),
                    ..old(self)@
                })
            },
    {
        if presentation.traffic.as_str().len() > MAX_TRAFFIC_BYTES {
            return Err(ContainerError::PresentationTooLarge);
        }
        self.presentation = presentation;
        let ghost waiting = self.actions@;
        let mut taken: Vec<RuntimeAction> = Vec::new();
        loop
            invariant_except_break
                taken@ + self.actions@ == waiting,
                self.presentation == presentation,
                self.finishing == old(self).finishing,
            ensures
                taken@ == waiting,
                self.actions@ == Seq::<RuntimeAction>::empty(),
                self.presentation == presentation,
                self.finishing == old(self).finishing,
            decreases self.actions@.len(),
        {
            match self.actions.pop_front() {
                Some(action) => {
                    taken.push(action);
                    assert(taken@ + self.actions@ =~= waiting);
                },
                None => {
                    assert(taken@ =~= waiting);
                    assert(self.actions@ =~= Seq::empty());
                    break;
                },
            }
        }
        Ok(taken)
    }

    /// The program is to end. Returns whether it was not about to already.
    pub fn begin_finish(&mut self) -> (begun: bool)
        requires
            old(self).wf(),
        ensures
            final(self).wf(),
            begun == !old(self)@.finishing,
            final(self)@ == (CommonView { finishing: true, ..old(self)@ }),
    {
        let begun = !self.finishing;
        self.finishing = true;
        begun
    }

    /// The tunnel could not be stopped: the program goes on, and says so.
    pub fn finish_failed(&mut self)
        requires
            old(self).wf(),
        ensures
            final(self).wf(),
            final(self)@ == (CommonView {
                disconnect: true,
                traffic: "Остановка VPN требует повторной попытки"@,
                finishing: false,
                ..old(self)@
            }),
    {
        self.finishing = false;
        self.presentation.disconnect = true;
        self.presentation.traffic = "Остановка VPN требует повторной попытки".to_owned();
    }

    /// The program could not be restarted: it goes on.
    pub fn restart_failed(&mut self)
        requires
            old(self).wf(),
        ensures
            final(self).wf(),
            final(self)@ == (CommonView { finishing: false, ..old(self)@ }),
    {
        self.finishing = false;
    }
}

/// What the runtime asks for.
#[derive(Clone, Copy, Debug, PartialEq, Eq, Structural)]
pub enum NativeCommand {
    /// Something of the engine of the tunnel.
    Engine,
    /// Something of the owner.
    Control,
    Rejected,
}

/// What the first byte of a request says.
pub fn native_command(tag: u8) -> (command: NativeCommand)
    ensures
        command == (if tag == 1 {
            NativeCommand::Engine
        } else if tag == 2 {
            NativeCommand::Control
        } else {
            NativeCommand::Rejected
        }),
{
    if tag == 1 {
        NativeCommand::Engine
    } else if tag == 2 {
        NativeCommand::Control
    } else {
        NativeCommand::Rejected
    }
}

pub open spec fn failure_body() -> Seq<u8> {
    vstd::utf8::encode_utf8("common operation failed"@)
}

/// How a request is answered: with its own tag and the answer, or with the tag
/// of a failure and nothing about its reason.
pub fn native_reply(tag: u8, reply: Option<Vec<u8>>) -> (frame: (u8, Vec<u8>))
    ensures
        match reply {
            Some(body) => frame == (tag, body),
            None => frame.0 == NATIVE_FAILURE_TAG && frame.1@ == failure_body(),
        },
{
    match reply {
        Some(body) => (tag, body),
        None => {
            let bytes = "common operation failed".as_bytes();
            let mut body: Vec<u8> = Vec::new();
            let mut index: usize = 0;
            while index < bytes.len()
                invariant
                    index <= bytes@.len(),
                    body@ == bytes@.take(index as int),
                decreases bytes@.len() - index,
            {
                body.push(bytes[index]);
                index += 1;
                assert(body@ =~= bytes@.take(index as int));
            }
            assert(body@ =~= bytes@);
            (NATIVE_FAILURE_TAG, body)
        },
    }
}

/// Whether the tunnel is prepared on request. Once this program was replaced,
/// nothing is installed any more; while an update is under way it is refused.
/// `start_blocked` is what the owner says of that, none where it cannot say.
pub fn native_preparation(replaced: bool, start_blocked: Option<bool>) -> (prepare: Result<
    bool,
    ContainerError,
>)
    ensures
        prepare == (if replaced {
            Ok::<bool, ContainerError>(false)
        } else {
            match start_blocked {
                None => Err(ContainerError::UpdateStateUnavailable),
                Some(true) => Err(ContainerError::PreparationFenced),
                Some(false) => Ok(true),
            }
        }),
{
    if replaced {
        return Ok(false);
    }
    match start_blocked {
        None => Err(ContainerError::UpdateStateUnavailable),
        Some(blocked) => if blocked {
            Err(ContainerError::PreparationFenced)
        } else {
            Ok(true)
        },
    }
}

/// Why the runtime asks to end.
#[derive(Clone, Copy, Debug, PartialEq, Eq, Structural)]
pub enum NativeExitReason {
    Shutdown,
    Update,
    RuntimeSwitch,
}

/// Whether the runtime may end for that reason; if so, whether the program is
/// then started anew. An update has to be ready and proved, a switch ready.
pub fn native_exit(
    reason: NativeExitReason,
    updater_phase: Option<&str>,
    restart_proof: Result<(), ContainerError>,
    switch_ready: Option<bool>,
) -> (restart: Result<bool, ContainerError>)
    ensures
        restart == (match reason {
            NativeExitReason::Shutdown => Ok::<bool, ContainerError>(false),
            NativeExitReason::Update => match updater_phase {
                None => Err(ContainerError::UpdaterUnavailable),
                Some(phase) => if phase@ != "ready_to_restart"@ {
                    Err(ContainerError::UpdateNotReady)
                } else {
                    match restart_proof {
                        Ok(_) => Ok(true),
                        Err(error) => Err(error),
                    }
                },
            },
            NativeExitReason::RuntimeSwitch => match switch_ready {
                None => Err(ContainerError::RuntimeSwitchUnavailable),
                Some(true) => Ok(true),
                Some(false) => Err(ContainerError::RuntimeSwitchNotReady),
            },
        }),
{
    match reason {
        NativeExitReason::Shutdown => Ok(false),
        NativeExitReason::Update => match updater_phase {
            None => Err(ContainerError::UpdaterUnavailable),
            Some(phase) => {
                if !same_text(phase, "ready_to_restart") {
                    return Err(ContainerError::UpdateNotReady);
                }
                match restart_proof {
                    Ok(_) => Ok(true),
                    Err(error) => Err(error),
                }
            },
        },
        NativeExitReason::RuntimeSwitch => match switch_ready {
            None => Err(ContainerError::RuntimeSwitchUnavailable),
            Some(ready) => if ready {
                Ok(true)
            } else {
                Err(ContainerError::RuntimeSwitchNotReady)
            },
        },
    }
}

/// What a request does to the tunnel.
#[derive(Clone, Copy, Debug, PartialEq, Eq, Structural)]
pub enum EngineRequest {
    Start,
    RebindUdp,
    Other,
}

/// Whether a request of the runtime is handed to the tunnel. One that starts
/// anything is refused while an update is under way or after the runtime has
/// ended.
pub fn engine_exchange(
    operation: &mut NativeOperationState,
    request: EngineRequest,
    start_blocked: Option<bool>,
    runtime_alive: bool,
) -> (result: Result<(), ContainerError>)
    ensures
        if request == EngineRequest::Other {
            result == Ok::<(), ContainerError>(()) && final(operation)@ == old(operation)@
        } else {
            match start_blocked {
                None => {
                    &&& result == Err::<(), ContainerError>(ContainerError::UpdateStateUnavailable)
                    &&& final(operation)@ == old(operation)@
                },
                Some(blocked) => if start_fenced(old(operation)@, blocked || !runtime_alive) {
                    &&& result == Err::<(), ContainerError>(ContainerError::StartFenced)
                    &&& final(operation)@ == old(operation)@
                } else {
                    &&& result == Ok::<(), ContainerError>(())
                    &&& final(operation)@ == (OperationView {
                        observed_helper_stop: false,
                        ..old(operation)@
                    })
                },
            }
        },
{
    if request == EngineRequest::Other {
        return Ok(());
    }
    match start_blocked {
        None => Err(ContainerError::UpdateStateUnavailable),
        Some(blocked) => operation.begin_start(blocked || !runtime_alive),
    }
}

/// Claims the storage of the runtime, which is opened once. A claim that came
/// to nothing is taken back by `storage_not_opened`.
pub fn open_storage(opened: &mut bool) -> (result: Result<(), ContainerError>)
    ensures
        *final(opened),
        result == (if *old(opened) {
            Err::<(), ContainerError>(ContainerError::StorageAlreadyOpened)
        } else {
            Ok(())
        }),
{
    if *opened {
        return Err(ContainerError::StorageAlreadyOpened);
    }
    *opened = true;
    Ok(())
}

/// The storage could not be opened: the next request may open it.
pub fn storage_not_opened(opened: &mut bool)
    ensures
        !*final(opened),
{
    *opened = false;
}

/// An older program than the installed one is never installed.
pub proof fn law_older_program_never_overwrites_a_newer_one(
    candidate: Seq<char>,
    installed: Seq<char>,
    protected: bool,
    running_installed: bool,
)
    requires
        !crate::versions::version_after(candidate, installed),
    ensures
        action_for(
            Some(crate::versions::version_after(candidate, installed)),
            protected,
            running_installed,
        ) != InstallationAction::InstallCandidate,
{
}

/// A start that was admitted makes every earlier proof that the tunnel is down
/// worthless: neither a restart nor an installation can rest on it.
pub proof fn law_admitted_start_voids_the_stop_proof(
    state: OperationView,
    current: Option<ProofView>,
)
    ensures
        ({
            let started = OperationView { observed_helper_stop: false, ..state };
            &&& restart_result(started, current) is Err
            &&& installation_result(started, current) is Err
        }),
{
}

/// Once an installation has begun, nothing is started any more.
pub proof fn law_nothing_starts_after_an_installation_began(
    state: OperationView,
    target: ProofView,
    installed: bool,
    update_pending: bool,
)
    ensures
        start_fenced(
            (OperationView { replacement: Some((target, installed)), ..state }),
            update_pending,
        ),
{
}

/// The installed program is started in place of this one only after the very
/// operation that was begun has installed it.
pub proof fn law_restart_needs_the_installed_operation(
    state: OperationView,
    current: Option<ProofView>,
)
    requires
        restart_result(state, current) is Ok,
    ensures
        state.observed_helper_stop,
        state.replacement matches Some((stop_proof, installed)) && installed && current == Some(stop_proof),
{
}

} // verus!
