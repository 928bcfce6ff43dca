//! What is shown of the split tunnel, and what is saved of it.
use crate::commands::CommandError;
use vstd::prelude::*;

verus! {

#[derive(Clone, Copy, Debug, PartialEq, Eq, Structural)]
pub enum SplitTunnelMode {
    ExcludeSelected,
    IncludeSelected,
}

#[derive(Clone, Copy, Debug, PartialEq, Eq, Structural)]
pub enum SplitTunnelAddressRuleScope {
    ThisDevice,
    AllDevices,
}

#[derive(Clone, Copy, Debug, PartialEq, Eq, Structural)]
pub enum SplitTunnelAddressRuleKind {
    Ipv4,
    Domain,
}

#[derive(Clone, Copy, Debug, PartialEq, Eq, Structural)]
pub enum TunnelPlatform {
    Android,
    Windows,
    Linux,
    Macos,
    Unknown,
}

/// What the tunnel of a system can do.
#[derive(Clone, Copy, Debug, PartialEq, Eq, Structural)]
pub struct TunnelCapabilities {
    pub platform: TunnelPlatform,
    pub android_api_level: Option<u32>,
    pub address_split_tunnel: bool,
    pub application_split_tunnel: bool,
}

/// A rule as the panel keeps it.
pub struct SplitTunnelAddressRule {
    pub id: i64,
    pub scope: SplitTunnelAddressRuleScope,
    pub kind: SplitTunnelAddressRuleKind,
    pub value: String,
}

/// The policy that the panel has given the device.
pub struct SplitTunnelPolicy {
    pub enabled: bool,
    pub mode: SplitTunnelMode,
    pub exclude_local_networks: bool,
    pub mandatory_excluded_packages: Vec<String>,
    pub suggested_name_fragments: Vec<String>,
    pub selected_packages: Vec<String>,
    pub address_rules: Vec<SplitTunnelAddressRule>,
}

pub struct SplitTunnelCapabilitiesResponse {
    pub platform: &'static str,
    pub android_api_level: Option<u32>,
    pub address_split_tunnel: bool,
    pub application_split_tunnel: bool,
}

pub struct SplitTunnelAddressRuleResponse {
    pub id: i64,
    pub scope: &'static str,
    pub kind: &'static str,
    pub value: String,
}

pub struct SplitTunnelStateResponse {
    pub available: bool,
    pub enabled: bool,
    pub mode: SplitTunnelMode,
    pub exclude_local_networks: bool,
    pub mandatory_excluded_packages: Vec<String>,
    pub suggested_name_fragments: Vec<String>,
    pub selected_packages: Vec<String>,
    pub address_rules: Vec<SplitTunnelAddressRuleResponse>,
    pub warning: Option<String>,
    pub capabilities: SplitTunnelCapabilitiesResponse,
}

pub struct SplitTunnelAddressRuleRequest {
    pub value: String,
    pub scope: SplitTunnelAddressRuleScope,
}

pub struct InstalledApplicationResponse {
    pub package_id: String,
    pub display_name: String,
    pub system: bool,
}

pub struct SplitTunnelSelectedPackageRequest {
    pub package_id: String,
    pub display_name: String,
}

pub struct SplitTunnelSelectedPackage {
    pub package_id: String,
    pub display_name: String,
}

pub struct SplitTunnelSaveRequest {
    pub mode: SplitTunnelMode,
    pub exclude_local_networks: bool,
    pub selected_packages: Vec<SplitTunnelSelectedPackageRequest>,
}

pub struct SplitTunnelSettingsUpdate {
    pub mode: SplitTunnelMode,
    pub exclude_local_networks: bool,
    pub selected_packages: Vec<SplitTunnelSelectedPackage>,
}

pub struct SplitTunnelSaveResponse {
    pub saved: bool,
    pub requires_reconnect_confirmation: bool,
    pub state: SplitTunnelStateResponse,
}

pub open spec fn platform_text(platform: TunnelPlatform) -> Seq<char> {
    match platform {
        TunnelPlatform::Android => "android"@,
        TunnelPlatform::Windows => "windows"@,
        TunnelPlatform::Linux => "linux"@,
        TunnelPlatform::Macos => "macos"@,
        TunnelPlatform::Unknown => "unknown"@,
    }
}

pub open spec fn capabilities_shown(
    response: SplitTunnelCapabilitiesResponse,
    capabilities: TunnelCapabilities,
) -> bool {
    &&& response.platform@ == platform_text(capabilities.platform)
    &&& response.android_api_level == capabilities.android_api_level
    &&& response.address_split_tunnel == capabilities.address_split_tunnel
    &&& response.application_split_tunnel == capabilities.application_split_tunnel
}

impl SplitTunnelCapabilitiesResponse {
    pub fn from_capabilities(capabilities: TunnelCapabilities) -> (response: Self)
        ensures
            capabilities_shown(response, capabilities),
    {
        SplitTunnelCapabilitiesResponse {
            platform: match capabilities.platform {
                TunnelPlatform::Android => "android",
                TunnelPlatform::Windows => "windows",
                TunnelPlatform::Linux => "linux",
                TunnelPlatform::Macos => "macos",
                TunnelPlatform::Unknown => "unknown",
            },
            android_api_level: capabilities.android_api_level,
            address_split_tunnel: capabilities.address_split_tunnel,
            application_split_tunnel: capabilities.application_split_tunnel,
        }
    }
}

pub open spec fn scope_text(scope: SplitTunnelAddressRuleScope) -> Seq<char> {
    match scope {
        SplitTunnelAddressRuleScope::ThisDevice => "this_device"@,
        SplitTunnelAddressRuleScope::AllDevices => "all_devices"@,
    }
}

pub open spec fn kind_text(kind: SplitTunnelAddressRuleKind) -> Seq<char> {
    match kind {
        SplitTunnelAddressRuleKind::Ipv4 => "ipv4"@,
        SplitTunnelAddressRuleKind::Domain => "domain"@,
    }
}

pub open spec fn rule_shown(
    response: SplitTunnelAddressRuleResponse,
    rule: SplitTunnelAddressRule,
) -> bool {
    &&& response.id == rule.id
    &&& response.scope@ == scope_text(rule.scope)
    &&& response.kind@ == kind_text(rule.kind)
    &&& response.value == rule.value
}

/// Whether the rules of a policy are shown, each in its place.
pub open spec fn rules_shown(
    responses: Seq<SplitTunnelAddressRuleResponse>,
    rules: Seq<SplitTunnelAddressRule>,
) -> bool {
    &&& responses.len() == rules.len()
    &&& forall|i: int| 0 <= i < rules.len() ==> rule_shown(#[trigger] responses[i], rules[i])
}

fn address_rule_responses(rules: Vec<SplitTunnelAddressRule>) -> (responses: Vec<
    SplitTunnelAddressRuleResponse,
>)
    ensures
        rules_shown(responses@, rules@),
{
    let mut responses: Vec<SplitTunnelAddressRuleResponse> = Vec::new();
    for rule in iter: rules
        invariant
            iter.seq() == rules@,
            responses@.len() == iter.index(),
            forall|i: int|
                0 <= i < iter.index() ==> rule_shown(#[trigger] responses@[i], rules@[i]),
    {
        responses.push(
            SplitTunnelAddressRuleResponse {
                id: rule.id,
                scope: match rule.scope {
                    SplitTunnelAddressRuleScope::ThisDevice => "this_device",
                    SplitTunnelAddressRuleScope::AllDevices => "all_devices",
                },
                kind: match rule.kind {
                    SplitTunnelAddressRuleKind::Ipv4 => "ipv4",
                    SplitTunnelAddressRuleKind::Domain => "domain",
                },
                value: rule.value,
            },
        );
    }
    responses
}

/// What is shown of a policy.
pub open spec fn policy_shown(
    response: SplitTunnelStateResponse,
    policy: Option<SplitTunnelPolicy>,
) -> bool {
    match policy {
        Some(policy) => {
            &&& response.available
            &&& response.enabled == policy.enabled
            &&& response.mode == policy.mode
            &&& response.exclude_local_networks == policy.exclude_local_networks
            &&& response.mandatory_excluded_packages == policy.mandatory_excluded_packages
            &&& response.suggested_name_fragments == policy.suggested_name_fragments
            &&& response.selected_packages == policy.selected_packages
            &&& rules_shown(response.address_rules@, policy.address_rules@)
        },
        None => {
            &&& !response.available
            &&& !response.enabled
            &&& response.mode == SplitTunnelMode::ExcludeSelected
            &&& response.exclude_local_networks
            &&& response.mandatory_excluded_packages@.len() == 0
            &&& response.suggested_name_fragments@.len() == 0
            &&& response.selected_packages@.len() == 0
            &&& response.address_rules@.len() == 0
        },
    }
}

/// What is shown of the split tunnel: the policy of the device, or the
/// defaults while there is none.
pub fn split_tunnel_state(
    policy: Option<SplitTunnelPolicy>,
    warning: Option<String>,
    capabilities: TunnelCapabilities,
) -> (response: SplitTunnelStateResponse)
    ensures
        policy_shown(response, policy),
        response.warning == warning,
        capabilities_shown(response.capabilities, capabilities),
{
    let capabilities = SplitTunnelCapabilitiesResponse::from_capabilities(capabilities);
    match policy {
        Some(policy) => SplitTunnelStateResponse {
            available: true,
            enabled: policy.enabled,
            mode: policy.mode,
            exclude_local_networks: policy.exclude_local_networks,
            mandatory_excluded_packages: policy.mandatory_excluded_packages,
            suggested_name_fragments: policy.suggested_name_fragments,
            selected_packages: policy.selected_packages,
            address_rules: address_rule_responses(policy.address_rules),
            warning,
            capabilities,
        },
        None => SplitTunnelStateResponse {
            available: false,
            enabled: false,
            mode: SplitTunnelMode::ExcludeSelected,
            exclude_local_networks: true,
            mandatory_excluded_packages: Vec::new(),
            suggested_name_fragments: Vec::new(),
            selected_packages: Vec::new(),
            address_rules: Vec::new(),
            warning,
            capabilities,
        },
    }
}

impl SplitTunnelSettingsUpdate {
    /// The settings of a request, with its packages in their order.
    pub fn from_request(request: SplitTunnelSaveRequest) -> (update: Self)
        ensures
            update.mode == request.mode,
            update.exclude_local_networks == request.exclude_local_networks,
            update.selected_packages@.len() == request.selected_packages@.len(),
            forall|i: int|
                0 <= i < request.selected_packages@.len() ==> {
                    &&& (#[trigger] update.selected_packages@[i]).package_id
                        == request.selected_packages@[i].package_id
                    &&& update.selected_packages@[i].display_name
                        == request.selected_packages@[i].display_name
                },
    {
        let requested = request.selected_packages;
        let mut selected_packages: Vec<SplitTunnelSelectedPackage> = Vec::new();
        for package in iter: requested
            invariant
                iter.seq() == requested@,
                selected_packages@.len() == iter.index(),
                forall|i: int|
                    0 <= i < iter.index() ==> {
                        &&& (#[trigger] selected_packages@[i]).package_id
                            == requested@[i].package_id
                        &&& selected_packages@[i].display_name == requested@[i].display_name
                    },
        {
            selected_packages.push(
                SplitTunnelSelectedPackage {
                    package_id: package.package_id,
                    display_name: package.display_name,
                },
            );
        }
        SplitTunnelSettingsUpdate {
            mode: request.mode,
            exclude_local_networks: request.exclude_local_networks,
            selected_packages,
        }
    }
}

/// Whether settings are saved: not before the user has agreed to the
/// reconnection that they need.
pub fn save_confirmed(reconnect_required: bool, confirm_reconnect: bool) -> (saved: bool)
    ensures
        saved == (!reconnect_required || confirm_reconnect),
{
    !reconnect_required || confirm_reconnect
}

/// The answer to a request to save.
pub fn split_tunnel_save_response(saved: bool, state: SplitTunnelStateResponse) -> (response:
    SplitTunnelSaveResponse)
    ensures
        response.saved == saved,
        response.requires_reconnect_confirmation == !saved,
        response.state == state,
{
    SplitTunnelSaveResponse { saved, requires_reconnect_confirmation: !saved, state }
}

/// The installed applications as the panel is told of them.
pub fn installed_packages(applications: &Vec<InstalledApplicationResponse>) -> (packages: Vec<
    SplitTunnelSelectedPackage,
>)
    ensures
        packages@.len() == applications@.len(),
        forall|i: int|
            0 <= i < applications@.len() ==> {
                &&& (#[trigger] packages@[i]).package_id == applications@[i].package_id
                &&& packages@[i].display_name == applications@[i].display_name
            },
{
    let mut packages: Vec<SplitTunnelSelectedPackage> = Vec::new();
    let mut index: usize = 0;
    while index < applications.len()
        invariant
            index <= applications@.len(),
            packages@.len() == index,
            forall|i: int|
                0 <= i < index ==> {
                    &&& (#[trigger] packages@[i]).package_id == applications@[i].package_id
                    &&& packages@[i].display_name == applications@[i].display_name
                },
        decreases applications@.len() - index,
    {
        packages.push(
            SplitTunnelSelectedPackage {
                package_id: applications[index].package_id.clone(),
                display_name: applications[index].display_name.clone(),
            },
        );
        index += 1;
    }
    packages
}

/// The error where the installed applications could not be listed.
pub fn installed_applications_error() -> (error: CommandError)
    ensures
        error@ == crate::commands::error_text(
            "installed_applications_unavailable"@,
            "Не удалось получить список приложений"@,
        ),
{
    CommandError::new("installed_applications_unavailable", "Не удалось получить список приложений")
}

} // verus!
