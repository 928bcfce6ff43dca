//! What holds of getting a platform ready: the helper is installed once and
//! asked as often as allowed, an update takes every stage, and what is said of
//! a system can be told apart.
use crate::defender::{
    active_third_party, defender_state_text, product_shown, product_state_text, status_code,
    AntivirusProduct, AntivirusProductState, DefenderExclusionState, DefenderStatus,
    WindowsAntivirusProductResponse,
};
use crate::errors::TunnelError;
use crate::platform::{
    asks_for, defender_repair_code, defender_section, installer_code, is_local_status,
    optional_bool_text, product_line, product_lines, repair_code, serves, stage_after,
    stage_failure, stage_following, step_of, PreparationAction, PreparationEvent, PreparationStage,
    RepairError, UpdateStage, UpdateStepView,
};
use crate::split_tunnel::{
    capabilities_shown, kind_text, platform_text, policy_shown, rule_shown, scope_text,
    SplitTunnelAddressRule, SplitTunnelAddressRuleKind, SplitTunnelAddressRuleResponse,
    SplitTunnelAddressRuleScope, SplitTunnelCapabilitiesResponse, SplitTunnelMode,
    SplitTunnelPolicy, SplitTunnelStateResponse, TunnelCapabilities, TunnelPlatform,
};
use crate::text::occurs_in;
use vstd::prelude::*;

verus! {

/// Where it stands after an installation that succeeded and `rounds` checks
/// that failed, each with the pause that follows it.
pub open spec fn stage_after_failed_checks(polls: u32, rounds: nat) -> PreparationStage
    decreases rounds,
{
    if rounds == 0 {
        stage_after(
            PreparationStage::Installation,
            PreparationEvent::Installed(Ok(())),
            polls,
        )
    } else {
        stage_after(
            stage_after(
                stage_after_failed_checks(polls, (rounds - 1) as nat),
                PreparationEvent::Checked(false),
                polls,
            ),
            PreparationEvent::Paused,
            polls,
        )
    }
}

/// After it was installed the helper is asked exactly as often as allowed: it
/// is asked again after each check that failed while there are checks left, and
/// not once more.
pub proof fn law_helper_is_asked_as_often_as_allowed(polls: u32, rounds: nat)
    ensures
        stage_after_failed_checks(polls, rounds) is Check <==> rounds < polls,
        stage_after_failed_checks(polls, rounds) is Ended <==> rounds >= polls,
        rounds < polls ==> stage_after_failed_checks(polls, rounds) == (PreparationStage::Check {
            left: (polls - rounds - 1) as u32,
        }),
    decreases rounds,
{
    if rounds > 0 {
        law_helper_is_asked_as_often_as_allowed(polls, (rounds - 1) as nat);
    }
}

/// A helper that is new enough is left alone; any other is installed, and the
/// first answer after that ends it well. A failed installation is the outcome,
/// and so is a helper that never answers.
pub proof fn law_preparation_has_the_outcome_of_its_last_event(
    action: PreparationAction,
    before: PreparationStage,
    event: PreparationEvent,
    polls: u32,
)
    requires
        crate::platform::expects(before, event),
        asks_for(action, before, event, stage_after(before, event, polls)),
        polls > 0,
    ensures
        match (before, event) {
            (PreparationStage::FirstCheck, PreparationEvent::Checked(current)) => if current {
                action matches PreparationAction::Finish { result, reinstalled } && result is Ok
                    && !reinstalled
            } else {
                action is Install
            },
            (PreparationStage::Check { .. }, PreparationEvent::Checked(current)) => if current {
                action matches PreparationAction::Finish { result, reinstalled } && result is Ok
                    && reinstalled
            } else {
                action is Pause
            },
            (PreparationStage::Installation, PreparationEvent::Installed(Ok(_))) => action is Check,
            (PreparationStage::Installation, PreparationEvent::Installed(Err(error))) => action
                matches PreparationAction::Finish { result, reinstalled } && result == Err::<
                (),
                TunnelError,
            >(error) && !reinstalled,
            (PreparationStage::Pause { left }, PreparationEvent::Paused) => if left > 0 {
                action is Check
            } else {
                action matches PreparationAction::Finish { result, reinstalled } && (
                result matches Err(TunnelError::Backend(code)) && code@ == "service_unavailable"@)
                    && !reinstalled
            },
            _ => true,
        },
{
}

/// A helper serves an application unless the application is newer, and only if
/// it says a version.
pub proof fn law_helper_serves_what_is_not_newer(installed: Seq<char>, current: Seq<char>)
    ensures
        serves(installed, current) ==> crate::versions::is_version(installed),
        crate::versions::version_after(current, installed) ==> !serves(installed, current),
        crate::versions::is_version(installed) && !crate::versions::version_after(
            current,
            installed,
        ) ==> serves(installed, current),
{
}

/// The stage that an update has come to after so many that succeeded; none
/// where it is done.
pub open spec fn stage_reached(succeeded: nat) -> Option<UpdateStage>
    decreases succeeded,
{
    if succeeded == 0 {
        Some(UpdateStage::Target)
    } else {
        match stage_reached((succeeded - 1) as nat) {
            Some(stage) => match step_of(stage, true) {
                UpdateStepView::Continue(next) => Some(next),
                _ => None,
            },
            None => None,
        }
    }
}

/// An update that succeeds goes through all of its twelve stages, each once:
/// first the manifest and its version, then the artifact and its download, then
/// the proof of the stop, the installation and its confirmation.
pub proof fn law_update_takes_every_stage()
    ensures
        stage_reached(5) == Some(UpdateStage::Manifest),
        stage_reached(6) == Some(UpdateStage::Version),
        stage_reached(7) == Some(UpdateStage::Artifact),
        stage_reached(8) == Some(UpdateStage::Download),
        stage_reached(9) == Some(UpdateStage::StopProof),
        stage_reached(10) == Some(UpdateStage::Installation),
        stage_reached(11) == Some(UpdateStage::Confirmation),
        stage_reached(12) is None,
{
    reveal_with_fuel(stage_reached, 14);
}

/// A stage that fails ends the update with a code that says where; only the
/// last stage that succeeds installs it.
pub proof fn law_failed_stage_ends_the_update(stage: UpdateStage)
    ensures
        step_of(stage, false) is Failed,
        step_of(stage, true) is Installed <==> stage == UpdateStage::Confirmation,
        !(step_of(stage, true) is Failed) && !(step_of(stage, true) is NoUpdate),
        step_of(stage, true) matches UpdateStepView::Continue(next) ==> stage_following(stage)
            == Some(next),
        step_of(stage, false) == UpdateStepView::Failed(
            match stage {
                UpdateStage::Target => "unsupported_update_target"@,
                UpdateStage::ManifestUrl => "invalid_update_endpoint"@,
                UpdateStage::Endpoints | UpdateStage::Configuration =>
                    "updater_configuration_failed"@,
                UpdateStage::Authorization => "updater_authorization_failed"@,
                UpdateStage::Manifest => "update_check_failed"@,
                UpdateStage::Version => "update_version_changed"@,
                UpdateStage::Artifact => "untrusted_update_artifact"@,
                UpdateStage::Download | UpdateStage::Installation => "update_install_failed"@,
                UpdateStage::StopProof => "update_stop_proof_unavailable"@,
                UpdateStage::Confirmation => "update_stop_proof_changed"@,
            },
        ),
        step_of(stage, false) == UpdateStepView::Failed(stage_failure(stage)),
{
}

/// A failure of the installer is known by a code that its text holds, and by
/// the general one only where it holds none that is known.
pub proof fn law_installer_failure_is_known_by_its_text(error: Seq<char>)
    ensures
        ({
            let code = installer_code(error);
            let known = occurs_in(error, "install_permission_denied"@) || occurs_in(
                error,
                "update_install_in_progress"@,
            ) || occurs_in(error, "invalid_apk_path"@) || occurs_in(error, "invalid_apk"@)
                || occurs_in(error, "apk_package_mismatch"@) || occurs_in(
                error,
                "apk_version_mismatch"@,
            ) || occurs_in(error, "apk_signature_mismatch"@) || occurs_in(
                error,
                "apk_installer_unavailable"@,
            );
            &&& known ==> occurs_in(error, code)
            &&& !known ==> code == "update_install_failed"@
            &&& occurs_in(error, "install_permission_denied"@) ==> code
                == "install_permission_denied"@
            &&& occurs_in(error, "invalid_apk_path"@) ==> code != "invalid_apk"@
        }),
{
    reveal_strlit("invalid_apk");
    reveal_strlit("invalid_apk_path");
    reveal_strlit("install_permission_denied");
    reveal_strlit("update_install_in_progress");
    assert("invalid_apk"@.len() == 11 && "invalid_apk_path"@.len() == 16
        && "install_permission_denied"@.len() == 25 && "update_install_in_progress"@.len() == 26);
}

/// A repair that was refused is told as such, whichever was to be repaired;
/// what is missing, or may not be done, is told alike of both.
pub proof fn law_failed_repair_says_what_was_repaired(error: RepairError)
    ensures
        error == RepairError::ResourcesUnavailable || error == RepairError::AuthorizationUnavailable
            <==> repair_code(error) == defender_repair_code(error),
        repair_code(RepairError::Cancelled) == "helper_install_cancelled"@,
        repair_code(RepairError::InstallFailed) == "service_unavailable"@,
        repair_code(RepairError::ResourcesUnavailable) == "helper_resources_unavailable"@,
        repair_code(RepairError::AuthorizationUnavailable) == "helper_authorization_unavailable"@,
        defender_repair_code(RepairError::Cancelled) == "defender_exclusion_repair_cancelled"@,
        defender_repair_code(RepairError::InstallFailed) == "defender_exclusion_repair_failed"@,
{
    reveal_strlit("helper_install_cancelled");
    reveal_strlit("service_unavailable");
    reveal_strlit("defender_exclusion_repair_cancelled");
    reveal_strlit("defender_exclusion_repair_failed");
    assert("helper_install_cancelled"@.len() == 24 && "service_unavailable"@.len() == 19
        && "defender_exclusion_repair_cancelled"@.len() == 35
        && "defender_exclusion_repair_failed"@.len() == 32);
}

/// A product more adds its line behind the others; of no product it is said
/// that there is none.
pub proof fn law_every_product_has_its_line(
    products: Seq<AntivirusProduct>,
    product: AntivirusProduct,
)
    ensures
        product_lines(Seq::empty()) == "none"@,
        product_lines(seq![product]) == product_line(product),
        products.len() > 0 ==> product_lines(products.push(product)) == product_lines(products)
            + "\n"@ + product_line(product),
        occurs_in(product_line(product), product.name@),
{
    assert(products.push(product).drop_last() =~= products);
    assert(seq![product][0] == product);
    reveal_strlit("name=");
    let line = product_line(product);
    assert(line.subrange(5, 5int + product.name@.len()) =~= product.name@);
    assert(crate::text::occurs_at(line, product.name@, 5));
}

/// One product more counts where it is on and is not Microsoft Defender.
pub proof fn law_other_active_products_are_counted(
    products: Seq<AntivirusProduct>,
    product: AntivirusProduct,
)
    ensures
        active_third_party(Seq::empty()) == 0,
        active_third_party(products.push(product)) == active_third_party(products) + (if product.state
            == AntivirusProductState::On && !product.is_microsoft_defender {
            1nat
        } else {
            0nat
        }),
        active_third_party(products) <= products.len(),
{
    reveal(Seq::filter);
    assert(products.push(product).drop_last() =~= products);
    products.lemma_filter_len_push(
        |product: AntivirusProduct| crate::defender::is_active_third_party(product),
        product,
    );
}

/// The states of the exclusion and of a product can be told apart, and so can
/// yes, no and what is not known.
pub proof fn law_states_can_be_told_apart(
    left: DefenderExclusionState,
    right: DefenderExclusionState,
    on: AntivirusProductState,
    off: AntivirusProductState,
    yes: Option<bool>,
    no: Option<bool>,
)
    ensures
        defender_state_text(left) == defender_state_text(right) <==> left == right,
        product_state_text(on) == product_state_text(off) <==> on == off,
        optional_bool_text(yes) == optional_bool_text(no) <==> yes == no,
        defender_state_text(DefenderExclusionState::Excluded) == "excluded"@,
        defender_state_text(DefenderExclusionState::Missing) == "missing"@,
        defender_state_text(DefenderExclusionState::Inactive) == "inactive"@,
        defender_state_text(DefenderExclusionState::Unavailable) == "unavailable"@,
        product_state_text(AntivirusProductState::On) == "on"@,
        product_state_text(AntivirusProductState::Off) == "off"@,
        product_state_text(AntivirusProductState::Snoozed) == "snoozed"@,
        product_state_text(AntivirusProductState::Expired) == "expired"@,
        product_state_text(AntivirusProductState::Unknown) == "unknown"@,
        optional_bool_text(Some(true)) == "true"@,
        optional_bool_text(Some(false)) == "false"@,
        optional_bool_text(None) == "unknown"@,
{
    reveal_strlit("excluded");
    reveal_strlit("missing");
    reveal_strlit("inactive");
    reveal_strlit("unavailable");
    reveal_strlit("on");
    reveal_strlit("off");
    reveal_strlit("snoozed");
    reveal_strlit("expired");
    reveal_strlit("unknown");
    reveal_strlit("true");
    reveal_strlit("false");
    assert(defender_state_text(left) == defender_state_text(right) ==> defender_state_text(left)[0]
        == defender_state_text(right)[0] && defender_state_text(left).len() == defender_state_text(
        right,
    ).len());
    assert(product_state_text(on) == product_state_text(off) ==> product_state_text(on)[0]
        == product_state_text(off)[0] && product_state_text(on).len() == product_state_text(
        off,
    ).len());
    assert(optional_bool_text(yes) == optional_bool_text(no) ==> optional_bool_text(yes).len()
        == optional_bool_text(no).len());
}

/// The code of a status begins with the state of the exclusion and whether the
/// component is there.
pub proof fn law_status_code_begins_with_the_state(status: DefenderStatus)
    ensures
        (defender_state_text(status.state) + "_dll_"@).is_prefix_of(status_code(status)),
        status.dll_present ==> (defender_state_text(status.state) + "_dll_"@
            + "present"@).is_prefix_of(status_code(status)),
        !status.dll_present ==> (defender_state_text(status.state) + "_dll_"@
            + "missing"@).is_prefix_of(status_code(status)),
        (status.antivirus_detail_code matches Some(code) ==> occurs_in(status_code(status), code@)),
        (status.detail_code matches Some(code) ==> occurs_in(status_code(status), code@)),
{
    let present = if status.dll_present {
        "present"@
    } else {
        "missing"@
    };
    let head = defender_state_text(status.state) + "_dll_"@ + present;
    let code = status_code(status);
    let detail = crate::defender::code_or_ok(status.detail_code);
    let last = crate::defender::code_or_ok(status.antivirus_detail_code);
    assert(head =~= code.subrange(0, head.len() as int));
    assert(defender_state_text(status.state) + "_dll_"@ =~= code.subrange(
        0,
        (defender_state_text(status.state) + "_dll_"@).len() as int,
    ));
    reveal_strlit("_");
    let place = head.len() + 1int;
    assert(code.subrange(place, place + detail.len()) =~= detail);
    assert(crate::text::occurs_at(code, detail, place));
    let end = code.len() - last.len();
    assert(code.subrange(end, end + last.len()) =~= last);
    assert(crate::text::occurs_at(code, last, end));
}

/// A report says of Microsoft Defender its state and whether the component is
/// there; where the service was not asked it says that, too.
pub proof fn law_report_says_the_state_of_defender(status: DefenderStatus)
    ensures
        ("state="@ + defender_state_text(status.state) + " dll_present="@ + optional_bool_text(
            Some(status.dll_present),
        )).is_prefix_of(defender_section(Some(status))),
        defender_section(None)
            == "state=unavailable dll_present=unknown detail=status_request_failed\n[windows.antivirus]\nstatus=status_request_failed"@,
{
    let head = "state="@ + defender_state_text(status.state) + " dll_present="@
        + optional_bool_text(Some(status.dll_present));
    assert(head =~= defender_section(Some(status)).subrange(0, head.len() as int));
}

/// Where the service does not say, nothing is claimed but whether the component
/// is there.
pub proof fn law_unknown_status_claims_nothing(status: DefenderStatus, dll_present: bool)
    requires
        is_local_status(status, dll_present),
    ensures
        status.state == DefenderExclusionState::Unavailable,
        status.dll_present == dll_present,
        status.antivirus_products@.len() == 0,
        status.detail_code is Some && status.detail_code->0@ == "service_status_unavailable"@,
        status.antivirus_detail_code is Some && status.antivirus_detail_code->0@
            == "service_status_unavailable"@,
{
}

/// A product is shown as it is.
pub proof fn law_product_is_shown_as_it_is(
    response: WindowsAntivirusProductResponse,
    product: AntivirusProduct,
)
    requires
        product_shown(response, product),
    ensures
        response.name == product.name,
        response.state@ == "on"@ <==> product.state == AntivirusProductState::On,
        response.signatures_up_to_date == product.signatures_up_to_date,
        response.is_default == product.is_default,
        response.is_microsoft_defender == product.is_microsoft_defender,
{
    law_states_can_be_told_apart(
        DefenderExclusionState::Excluded,
        DefenderExclusionState::Excluded,
        product.state,
        AntivirusProductState::On,
        None,
        None,
    );
}

/// What the split tunnel of a system can do is shown as it is, under the name
/// of the system.
pub proof fn law_capabilities_are_shown_as_they_are(
    response: SplitTunnelCapabilitiesResponse,
    capabilities: TunnelCapabilities,
)
    requires
        capabilities_shown(response, capabilities),
    ensures
        response.android_api_level == capabilities.android_api_level,
        response.address_split_tunnel == capabilities.address_split_tunnel,
        response.application_split_tunnel == capabilities.application_split_tunnel,
        response.platform@ == (match capabilities.platform {
            TunnelPlatform::Android => "android"@,
            TunnelPlatform::Windows => "windows"@,
            TunnelPlatform::Linux => "linux"@,
            TunnelPlatform::Macos => "macos"@,
            TunnelPlatform::Unknown => "unknown"@,
        }),
        response.platform@ == platform_text(capabilities.platform),
{
}

/// A rule is shown under its own number and value, with its scope and kind by
/// name.
pub proof fn law_rule_is_shown_as_it_is(
    response: SplitTunnelAddressRuleResponse,
    rule: SplitTunnelAddressRule,
)
    requires
        rule_shown(response, rule),
    ensures
        response.id == rule.id,
        response.value == rule.value,
        response.scope@ == "this_device"@ <==> rule.scope
            == SplitTunnelAddressRuleScope::ThisDevice,
        response.scope@ == "all_devices"@ <==> rule.scope
            == SplitTunnelAddressRuleScope::AllDevices,
        response.kind@ == "ipv4"@ <==> rule.kind == SplitTunnelAddressRuleKind::Ipv4,
        response.kind@ == "domain"@ <==> rule.kind == SplitTunnelAddressRuleKind::Domain,
        response.scope@ == scope_text(rule.scope) && response.kind@ == kind_text(rule.kind),
{
    reveal_strlit("this_device");
    reveal_strlit("all_devices");
    reveal_strlit("ipv4");
    reveal_strlit("domain");
    assert("this_device"@[0] == 't' && "all_devices"@[0] == 'a');
    assert("ipv4"@.len() == 4 && "domain"@.len() == 6);
}

/// A policy is shown as it is, every rule in its place. Without one nothing is
/// enabled or selected, and local networks stay out of the tunnel.
pub proof fn law_policy_is_shown_as_it_is(
    response: SplitTunnelStateResponse,
    policy: Option<SplitTunnelPolicy>,
)
    requires
        policy_shown(response, policy),
    ensures
        response.available <==> policy is Some,
        match policy {
            Some(policy) => {
                &&& response.enabled == policy.enabled
                &&& response.mode == policy.mode
                &&& response.exclude_local_networks == policy.exclude_local_networks
                &&& response.mandatory_excluded_packages == policy.mandatory_excluded_packages
                &&& response.suggested_name_fragments == policy.suggested_name_fragments
                &&& response.selected_packages == policy.selected_packages
                &&& response.address_rules@.len() == policy.address_rules@.len()
                &&& forall|i: int|
                    0 <= i < policy.address_rules@.len() ==> {
                        &&& (#[trigger] response.address_rules@[i]).id
                            == policy.address_rules@[i].id
                        &&& response.address_rules@[i].value == policy.address_rules@[i].value
                    }
            },
            None => {
                &&& !response.enabled
                &&& response.exclude_local_networks
                &&& response.mode == SplitTunnelMode::ExcludeSelected
                &&& response.selected_packages@.len() == 0
                &&& response.mandatory_excluded_packages@.len() == 0
                &&& response.suggested_name_fragments@.len() == 0
                &&& response.address_rules@.len() == 0
            },
        },
{
}

/// The code of a status: the state, whether the component is there, its detail,
/// how many products there are and how many of them are others that are on, and
/// the detail of the products, with `ok` for a detail that is missing.
pub proof fn law_status_code_has_all_parts(status: DefenderStatus)
    ensures
        status_code(status) == defender_state_text(status.state) + "_dll_"@ + (
        if status.dll_present {
            "present"@
        } else {
            "missing"@
        }) + "_"@ + (if status.detail_code is Some {
            status.detail_code->0@
        } else {
            "ok"@
        }) + "_antivirus_"@ + crate::text::decimal(status.antivirus_products@.len())
            + "_active_third_party_"@ + crate::text::decimal(
            active_third_party(status.antivirus_products@),
        ) + "_"@ + (if status.antivirus_detail_code is Some {
            status.antivirus_detail_code->0@
        } else {
            "ok"@
        }),
{
}

/// The line about a product, and the section about Microsoft Defender, name
/// each value that they tell.
pub proof fn law_values_are_named(product: AntivirusProduct, status: DefenderStatus)
    ensures
        product_line(product) == "name="@ + product.name@ + " state="@ + product_state_text(
            product.state,
        ) + " signatures="@ + optional_bool_text(product.signatures_up_to_date) + " default="@
            + optional_bool_text(product.is_default) + " defender="@ + optional_bool_text(
            Some(product.is_microsoft_defender),
        ),
        defender_section(Some(status)) == "state="@ + defender_state_text(status.state)
            + " dll_present="@ + optional_bool_text(Some(status.dll_present)) + " detail="@ + (
        if status.detail_code is Some {
            status.detail_code->0@
        } else {
            "none"@
        }) + "\n[windows.antivirus]\nstatus="@ + (if status.antivirus_detail_code is Some {
            status.antivirus_detail_code->0@
        } else {
            "ok"@
        }) + "\n"@ + product_lines(status.antivirus_products@),
{
}

/// Each stage waits for one kind of event, and after the end none is awaited.
pub proof fn law_preparation_awaits_one_event(event: PreparationEvent, left: u32)
    ensures
        !crate::platform::expects(PreparationStage::Ended, event),
        crate::platform::expects(PreparationStage::FirstCheck, event) <==> event is Checked,
        crate::platform::expects(PreparationStage::Check { left }, event) <==> event is Checked,
        crate::platform::expects(PreparationStage::Installation, event) <==> event is Installed,
        crate::platform::expects(PreparationStage::Pause { left }, event) <==> event is Paused,
{
}

} // verus!
