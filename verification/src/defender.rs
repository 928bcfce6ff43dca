//! What is shown, and noted, of the antivirus products of Windows.
use crate::errors::{ApplicationError, CoreError};
use crate::text::decimal_text;
use vstd::prelude::*;

verus! {

#[derive(Clone, Copy, Debug, PartialEq, Eq, Structural)]
pub enum DefenderExclusionState {
    Excluded,
    Missing,
    Inactive,
    Unavailable,
}

#[derive(Clone, Copy, Debug, PartialEq, Eq, Structural)]
pub enum AntivirusProductState {
    On,
    Off,
    Snoozed,
    Expired,
    Unknown,
}

pub struct AntivirusProduct {
    pub name: String,
    pub state: AntivirusProductState,
    pub signatures_up_to_date: Option<bool>,
    pub is_default: Option<bool>,
    pub is_microsoft_defender: bool,
}

pub struct DefenderStatus {
    pub state: DefenderExclusionState,
    pub dll_present: bool,
    pub detail_code: Option<String>,
    pub antivirus_products: Vec<AntivirusProduct>,
    pub antivirus_detail_code: Option<String>,
}

pub struct WindowsAntivirusProductResponse {
    pub name: String,
    pub state: &'static str,
    pub signatures_up_to_date: Option<bool>,
    pub is_default: Option<bool>,
    pub is_microsoft_defender: bool,
}

pub struct WindowsDefenderStatusResponse {
    pub supported: bool,
    pub state: &'static str,
    pub dll_present: bool,
    pub dll_path: Option<String>,
    pub detail_code: Option<String>,
    pub antivirus_products: Vec<WindowsAntivirusProductResponse>,
    pub antivirus_detail_code: Option<String>,
}

pub open spec fn defender_state_text(state: DefenderExclusionState) -> Seq<char> {
    match state {
        DefenderExclusionState::Excluded => "excluded"@,
        DefenderExclusionState::Missing => "missing"@,
        DefenderExclusionState::Inactive => "inactive"@,
        DefenderExclusionState::Unavailable => "unavailable"@,
    }
}

pub fn defender_state_name(state: DefenderExclusionState) -> (name: &'static str)
    ensures
        name@ == defender_state_text(state),
{
    match state {
        DefenderExclusionState::Excluded => "excluded",
        DefenderExclusionState::Missing => "missing",
        DefenderExclusionState::Inactive => "inactive",
        DefenderExclusionState::Unavailable => "unavailable",
    }
}

pub open spec fn product_state_text(state: AntivirusProductState) -> Seq<char> {
    match state {
        AntivirusProductState::On => "on"@,
        AntivirusProductState::Off => "off"@,
        AntivirusProductState::Snoozed => "snoozed"@,
        AntivirusProductState::Expired => "expired"@,
        AntivirusProductState::Unknown => "unknown"@,
    }
}

pub fn antivirus_product_state_name(state: AntivirusProductState) -> (name: &'static str)
    ensures
        name@ == product_state_text(state),
{
    match state {
        AntivirusProductState::On => "on",
        AntivirusProductState::Off => "off",
        AntivirusProductState::Snoozed => "snoozed",
        AntivirusProductState::Expired => "expired",
        AntivirusProductState::Unknown => "unknown",
    }
}

pub open spec fn product_shown(
    response: WindowsAntivirusProductResponse,
    product: AntivirusProduct,
) -> bool {
    &&& response.name == product.name
    &&& response.state@ == product_state_text(product.state)
    &&& response.signatures_up_to_date == product.signatures_up_to_date
    &&& response.is_default == product.is_default
    &&& response.is_microsoft_defender == product.is_microsoft_defender
}

/// What is shown of a status; `dll_path` is where the component lies.
pub fn defender_status_response(status: DefenderStatus, dll_path: Option<String>) -> (response:
    WindowsDefenderStatusResponse)
    ensures
        response.supported,
        response.state@ == defender_state_text(status.state),
        response.dll_present == status.dll_present,
        response.dll_path == dll_path,
        response.detail_code == status.detail_code,
        response.antivirus_detail_code == status.antivirus_detail_code,
        response.antivirus_products@.len() == status.antivirus_products@.len(),
        forall|i: int|
            0 <= i < status.antivirus_products@.len() ==> product_shown(
                #[trigger] response.antivirus_products@[i],
                status.antivirus_products@[i],
            ),
{
    let products = status.antivirus_products;
    let mut shown: Vec<WindowsAntivirusProductResponse> = Vec::new();
    for product in iter: products
        invariant
            iter.seq() == products@,
            shown@.len() == iter.index(),
            forall|i: int|
                0 <= i < iter.index() ==> product_shown(#[trigger] shown@[i], products@[i]),
    {
        shown.push(
            WindowsAntivirusProductResponse {
                name: product.name,
                state: antivirus_product_state_name(product.state),
                signatures_up_to_date: product.signatures_up_to_date,
                is_default: product.is_default,
                is_microsoft_defender: product.is_microsoft_defender,
            },
        );
    }
    WindowsDefenderStatusResponse {
        supported: true,
        state: defender_state_name(status.state),
        dll_present: status.dll_present,
        dll_path,
        detail_code: status.detail_code,
        antivirus_products: shown,
        antivirus_detail_code: status.antivirus_detail_code,
    }
}

/// What is shown on a system without Microsoft Defender.
pub fn defender_not_applicable() -> (response: WindowsDefenderStatusResponse)
    ensures
        !response.supported,
        response.state@ == "not_applicable"@,
        !response.dll_present,
        response.dll_path is None,
        response.detail_code is None,
        response.antivirus_products@.len() == 0,
        response.antivirus_detail_code is None,
{
    WindowsDefenderStatusResponse {
        supported: false,
        state: "not_applicable",
        dll_present: false,
        dll_path: None,
        detail_code: None,
        antivirus_products: Vec::new(),
        antivirus_detail_code: None,
    }
}

pub open spec fn is_active_third_party(product: AntivirusProduct) -> bool {
    product.state == AntivirusProductState::On && !product.is_microsoft_defender
}

/// The number of products that are on and are not Microsoft Defender.
pub open spec fn active_third_party(products: Seq<AntivirusProduct>) -> nat {
    products.filter(|product: AntivirusProduct| is_active_third_party(product)).len()
}

pub open spec fn code_or_ok(code: Option<String>) -> Seq<char> {
    match code {
        Some(code) => code@,
        None => "ok"@,
    }
}

/// The code under which a status is noted.
pub open spec fn status_code(status: DefenderStatus) -> Seq<char> {
    defender_state_text(status.state) + "_dll_"@ + (if status.dll_present {
        "present"@
    } else {
        "missing"@
    }) + "_"@ + code_or_ok(status.detail_code) + "_antivirus_"@ + crate::text::decimal(
        status.antivirus_products@.len(),
    ) + "_active_third_party_"@ + crate::text::decimal(
        active_third_party(status.antivirus_products@),
    ) + "_"@ + code_or_ok(status.antivirus_detail_code)
}

fn count_active_third_party(products: &Vec<AntivirusProduct>) -> (count: usize)
    ensures
        count == active_third_party(products@),
{
    let ghost keep = |product: AntivirusProduct| is_active_third_party(product);
    let mut count: usize = 0;
    let mut index: usize = 0;
    assert(products@.take(0) =~= Seq::empty());
    proof {
        reveal(Seq::filter);
    }
    while index < products.len()
        invariant
            index <= products@.len(),
            count <= index,
            keep == (|product: AntivirusProduct| is_active_third_party(product)),
            count == products@.take(index as int).filter(keep).len(),
        decreases products@.len() - index,
    {
        proof {
            reveal(Seq::filter);
            let longer = products@.take(index + 1);
            assert(longer.drop_last() =~= products@.take(index as int));
            assert(longer.last() == products@[index as int]);
        }
        let product = &products[index];
        if product.state == AntivirusProductState::On && !product.is_microsoft_defender {
            count += 1;
        }
        index += 1;
    }
    assert(products@.take(index as int) =~= products@);
    count
}

/// The code under which a status is noted in the log.
pub fn defender_status_code(status: &DefenderStatus) -> (code: String)
    ensures
        code@ == status_code(*status),
{
    let mut code = defender_state_name(status.state).to_owned();
    code.append("_dll_");
    code.append(
        if status.dll_present {
            "present"
        } else {
            "missing"
        },
    );
    code.append("_");
    match &status.detail_code {
        Some(detail) => code.append(detail.as_str()),
        None => code.append("ok"),
    }
    code.append("_antivirus_");
    code.append(decimal_text(status.antivirus_products.len() as u64).as_str());
    code.append("_active_third_party_");
    code.append(
        decimal_text(count_active_third_party(&status.antivirus_products) as u64).as_str(),
    );
    code.append("_");
    match &status.antivirus_detail_code {
        Some(detail) => code.append(detail.as_str()),
        None => code.append("ok"),
    }
    code
}

/// Whether an AmneziaWG tunnel may be started: its component has to be there,
/// and Microsoft Defender must not be known to check it.
pub fn ensure_defender_ready_for_awg(status: &DefenderStatus) -> (result: Result<
    (),
    ApplicationError,
>)
    ensures
        result is Ok == (status.dll_present && status.state != DefenderExclusionState::Missing),
        result matches Err(error) ==> (error matches ApplicationError::Core(
            CoreError::Tunnel(code),
        ) && code@ == (if !status.dll_present {
            "amneziawg_component_missing"@
        } else {
            "defender_exclusion_missing"@
        })),
{
    if !status.dll_present {
        return Err(
            ApplicationError::Core(CoreError::Tunnel("amneziawg_component_missing".to_owned())),
        );
    }
    if status.state == DefenderExclusionState::Missing {
        return Err(
            ApplicationError::Core(CoreError::Tunnel("defender_exclusion_missing".to_owned())),
        );
    }
    Ok(())
}

} // verus!
