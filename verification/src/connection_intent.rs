//! The user's wish to be connected: how it is begun, tried, tried again and
//! given up on a desktop. What the panel, the tunnel and the coordinator of
//! generations answer is taken in as plain values.
use crate::core_state::{
    ConnectOptions, Connection, ConnectionIntentCapability, ConnectionIntentStatus, CoreState,
    EgressMode, Layer, Phase, RouteMode, TicConnectionMode, allows_new_connection_intent_operation,
};
use crate::errors::{ApplicationError, CoreError, rejection};
use crate::metrics_scheduler::ClientPlatform;
use crate::text::same_text;
use vstd::prelude::*;

verus! {

#[derive(Clone, Copy, Debug, PartialEq, Eq, Structural)]
pub enum AttemptKind {
    Start,
    StallReplacement,
}

/// Whether the panel allows recovery by intents, or only a single start.
#[derive(Clone, Copy, Debug, PartialEq, Eq, Structural)]
pub enum InitialDesktopStartMode {
    Recovery,
    Legacy,
}

#[derive(Clone, Copy, Debug, PartialEq, Eq, Structural)]
pub enum InitialDesktopPreflightAction {
    ContinueRecovery,
    RetryIntent,
    RunLegacy,
}

#[derive(Clone, Copy, Debug, PartialEq, Eq, Structural)]
pub enum StartRuntimeAction {
    Run(u64),
    Wait(Option<i64>),
}

/// What to do after a failed attempt, or about a late result.
#[derive(Clone, Copy, Debug, PartialEq, Eq, Structural)]
pub enum RecoveryDecision {
    Accept,
    DiscardAndCompensate,
    Terminal,
    RetryAfter(u64),
    RetryOnce,
    RetrySameOperation,
    RetryNewOperation,
    ReconcileOnce,
    ReconcileThenRetry,
    RestartLocalTunnel,
}

/// What the classification of a failure depends on besides its code.
#[derive(Clone, Copy, Debug, PartialEq, Eq, Structural)]
pub struct RecoveryPolicyContext {
    pub retry_after_seconds: Option<u64>,
    pub stalled_reconcile_attempted: bool,
    pub service_recovery_attempted: bool,
    pub profile_reissue_attempted: bool,
}

/// What has to be done once before the first attempt of an intent.
#[derive(Debug)]
pub struct InitialDesktopPreflight {
    pub expected_device_id: Option<String>,
    pub binding_requested: bool,
    pub quick_toggle_skip_probe_refresh: Option<bool>,
}

/// How a stalled connection is to be replaced.
#[derive(Clone, Copy, Debug, PartialEq, Eq, Structural)]
pub enum StallRecoveryPlan {
    ReplaceDynamic,
    PreservePeer,
}

pub open spec fn fresh_policy() -> RecoveryPolicyContext {
    RecoveryPolicyContext {
        retry_after_seconds: None,
        stalled_reconcile_attempted: false,
        service_recovery_attempted: false,
        profile_reissue_attempted: false,
    }
}

impl RecoveryPolicyContext {
    pub fn new() -> (policy: Self)
        ensures
            policy == fresh_policy(),
    {
        RecoveryPolicyContext {
            retry_after_seconds: None,
            stalled_reconcile_attempted: false,
            service_recovery_attempted: false,
            profile_reissue_attempted: false,
        }
    }
}

impl InitialDesktopPreflight {
    pub fn duplicate(&self) -> (preflight: Self)
        ensures
            preflight == *self,
    {
        InitialDesktopPreflight {
            expected_device_id: self.expected_device_id.clone(),
            binding_requested: self.binding_requested,
            quick_toggle_skip_probe_refresh: self.quick_toggle_skip_probe_refresh,
        }
    }
}

/// Whether the core has exactly this connection up.
pub open spec fn matches_core(state: CoreState, connection: Connection) -> bool {
    &&& state.phase == Phase::Connected
    &&& state.connection matches Some(current)
    &&& current.lease_id@ == connection.lease_id@
}

pub fn connection_matches_core_state(state: &CoreState, connection: &Connection) -> (matches: bool)
    ensures
        matches == matches_core(*state, *connection),
{
    state.phase == Phase::Connected && match &state.connection {
        Some(current) => same_text(current.lease_id.as_str(), connection.lease_id.as_str()),
        None => false,
    }
}

pub open spec fn wakeup_time(retry_not_before_unix: Option<i64>, now_unix: i64) -> i64 {
    match retry_not_before_unix {
        Some(not_before) => if not_before > now_unix {
            not_before
        } else {
            now_unix
        },
        None => now_unix,
    }
}

/// When an attempt is made after the network has changed: at once, but not
/// before the time that the panel has asked for.
pub fn retry_at_after_wakeup(retry_not_before_unix: Option<i64>, now_unix: i64) -> (retry_at: i64)
    ensures
        retry_at == wakeup_time(retry_not_before_unix, now_unix),
{
    match retry_not_before_unix {
        Some(not_before) => if not_before > now_unix {
            not_before
        } else {
            now_unix
        },
        None => now_unix,
    }
}

/// A start that finds its intent already under way waits for it.
pub fn recovering_action(
    previous_generation: u64,
    generation: u64,
    next_retry_at_unix: Option<i64>,
) -> (action: StartRuntimeAction)
    ensures
        action == (if generation == previous_generation {
            StartRuntimeAction::Wait(next_retry_at_unix)
        } else {
            StartRuntimeAction::Run(generation)
        }),
{
    if generation == previous_generation {
        StartRuntimeAction::Wait(next_retry_at_unix)
    } else {
        StartRuntimeAction::Run(generation)
    }
}

pub fn can_begin_stall_recovery(status: ConnectionIntentStatus, armed: bool) -> (can: bool)
    ensures
        can == (armed && status == ConnectionIntentStatus::Idle),
{
    armed && status == ConnectionIntentStatus::Idle
}

/// Whether an attempt that has waited for an answer is still wanted. Where it
/// is not, the coordinator is told that nothing has to be undone for it.
pub fn attempt_is_current_after_async_boundary(
    current_generation: u64,
    status: ConnectionIntentStatus,
    generation: u64,
) -> (current: bool)
    ensures
        current == (current_generation == generation && status != ConnectionIntentStatus::Idle),
{
    current_generation == generation && status != ConnectionIntentStatus::Idle
}

pub fn attempt_kind_for_stall_plan(plan: StallRecoveryPlan) -> (kind: AttemptKind)
    ensures
        kind == AttemptKind::StallReplacement,
{
    match plan {
        StallRecoveryPlan::ReplaceDynamic | StallRecoveryPlan::PreservePeer => {
            AttemptKind::StallReplacement
        },
    }
}

pub fn attempt_reports_recovery(attempt_kind: AttemptKind, retry_count: u32) -> (reports: bool)
    ensures
        reports == (retry_count > 0 || attempt_kind != AttemptKind::Start),
{
    retry_count > 0 || attempt_kind != AttemptKind::Start
}

pub fn next_capability_refresh_requirement(current: bool, decision: RecoveryDecision) -> (required:
    bool)
    ensures
        required == (current || decision == RecoveryDecision::RetryNewOperation),
{
    current || decision == RecoveryDecision::RetryNewOperation
}

pub open spec fn reconciles(decision: RecoveryDecision) -> bool {
    decision == RecoveryDecision::ReconcileThenRetry || decision == RecoveryDecision::ReconcileOnce
}

pub fn next_reconcile_requirement(current: bool, decision: RecoveryDecision) -> (required: bool)
    ensures
        required == (current || reconciles(decision)),
{
    current || decision == RecoveryDecision::ReconcileThenRetry || decision
        == RecoveryDecision::ReconcileOnce
}

/// Whether the panel allows a new operation of an intent.
pub fn recovery_capability_result(
    capability: &Option<ConnectionIntentCapability>,
    now_unix: i64,
) -> (result: Result<(), ApplicationError>)
    ensures
        result is Ok == crate::core_state::allows_intent(*capability, now_unix),
        result matches Err(error) ==> crate::errors::is_rejection(
            error,
            "recovery_contract_unavailable"@,
            "Автоматическое восстановление временно недоступно"@,
        ),
{
    if allows_new_connection_intent_operation(capability, now_unix) {
        return Ok(());
    }
    Err(
        rejection(
            "recovery_contract_unavailable",
            "Автоматическое восстановление временно недоступно",
        ),
    )
}

pub open spec fn start_mode(capability: Option<ConnectionIntentCapability>, now_unix: i64) -> InitialDesktopStartMode {
    if crate::core_state::allows_intent(capability, now_unix) {
        InitialDesktopStartMode::Recovery
    } else {
        InitialDesktopStartMode::Legacy
    }
}

pub fn initial_desktop_start_mode(
    capability: &Option<ConnectionIntentCapability>,
    now_unix: i64,
) -> (mode: InitialDesktopStartMode)
    ensures
        mode == start_mode(*capability, now_unix),
{
    if allows_new_connection_intent_operation(capability, now_unix) {
        InitialDesktopStartMode::Recovery
    } else {
        InitialDesktopStartMode::Legacy
    }
}

/// What a quick toggle asks for until the defaults of the device are known.
pub fn quick_toggle_placeholder_options() -> (options: ConnectOptions)
    ensures
        options == (ConnectOptions {
            layer: Layer::Stray,
            tic_connection_mode: TicConnectionMode::Dynamic,
            route_mode: RouteMode::Standalone,
            egress_mode: EgressMode::Ipv4,
            allow_alternate: true,
        }),
{
    ConnectOptions {
        layer: Layer::Stray,
        tic_connection_mode: TicConnectionMode::Dynamic,
        route_mode: RouteMode::Standalone,
        egress_mode: EgressMode::Ipv4,
        allow_alternate: true,
    }
}

pub open spec fn preflight_action(mode: InitialDesktopStartMode, succeeded: bool) -> InitialDesktopPreflightAction {
    if !succeeded {
        InitialDesktopPreflightAction::RetryIntent
    } else if mode == InitialDesktopStartMode::Recovery {
        InitialDesktopPreflightAction::ContinueRecovery
    } else {
        InitialDesktopPreflightAction::RunLegacy
    }
}

pub fn initial_desktop_preflight_action(
    start_mode: InitialDesktopStartMode,
    preflight_succeeded: bool,
) -> (action: InitialDesktopPreflightAction)
    ensures
        action == preflight_action(start_mode, preflight_succeeded),
{
    if !preflight_succeeded {
        return InitialDesktopPreflightAction::RetryIntent;
    }
    match start_mode {
        InitialDesktopStartMode::Recovery => InitialDesktopPreflightAction::ContinueRecovery,
        InitialDesktopStartMode::Legacy => InitialDesktopPreflightAction::RunLegacy,
    }
}

/// Whether a connection that was mended locally may still be taken as the one
/// of the intent.
pub open spec fn locally_recovered(
    core_state: CoreState,
    expected_generation: u64,
    current_generation: u64,
    armed: bool,
    owned_lease_id: Option<Seq<char>>,
    lease_id: Seq<char>,
) -> bool {
    &&& expected_generation == current_generation
    &&& armed
    &&& owned_lease_id == Some(lease_id)
    &&& core_state.phase == Phase::Connected
    &&& core_state.connection matches Some(connection)
    &&& connection.lease_id@ == lease_id
}

pub fn local_recovery_connection(
    core_state: &CoreState,
    expected_generation: u64,
    current_generation: u64,
    armed: bool,
    owned_lease_id: Option<&str>,
    lease_id: &str,
) -> (connection: Option<Connection>)
    ensures
        connection is Some == locally_recovered(
            *core_state,
            expected_generation,
            current_generation,
            armed,
            match owned_lease_id {
                Some(owned) => Some(owned@),
                None => None,
            },
            lease_id@,
        ),
        connection is Some ==> connection == core_state.connection,
{
    let owned = match owned_lease_id {
        Some(owned) => same_text(owned, lease_id),
        None => false,
    };
    if expected_generation != current_generation || !armed || !owned || core_state.phase
        != Phase::Connected {
        return None;
    }
    match &core_state.connection {
        Some(connection) => if same_text(connection.lease_id.as_str(), lease_id) {
            Some(connection.duplicate())
        } else {
            None
        },
        None => None,
    }
}

pub open spec fn is_profile_failure(code: Seq<char>) -> bool {
    ||| code == "amneziawg_profile_mismatch"@
    ||| code == "awg3_profile_apply_failed"@
    ||| code == "awg3_profile_transform_mismatch"@
}

/// What may be done once is remembered, so that it is not done again.
pub open spec fn policy_after(
    context: RecoveryPolicyContext,
    code: Seq<char>,
    decision: RecoveryDecision,
) -> RecoveryPolicyContext {
    if decision == RecoveryDecision::ReconcileOnce {
        RecoveryPolicyContext { stalled_reconcile_attempted: true, ..context }
    } else if decision != RecoveryDecision::RetryOnce {
        context
    } else if code == "service_unavailable"@ {
        RecoveryPolicyContext { service_recovery_attempted: true, ..context }
    } else if is_profile_failure(code) {
        RecoveryPolicyContext { profile_reissue_attempted: true, ..context }
    } else {
        context
    }
}

pub fn update_policy_context(
    context: &mut RecoveryPolicyContext,
    code: &str,
    decision: RecoveryDecision,
)
    ensures
        *final(context) == policy_after(*old(context), code@, decision),
{
    if decision == RecoveryDecision::ReconcileOnce {
        context.stalled_reconcile_attempted = true;
        return;
    }
    if decision != RecoveryDecision::RetryOnce {
        return;
    }
    if same_text(code, "service_unavailable") {
        context.service_recovery_attempted = true;
    } else if same_text(code, "amneziawg_profile_mismatch") || same_text(
        code,
        "awg3_profile_apply_failed",
    ) || same_text(code, "awg3_profile_transform_mismatch") {
        context.profile_reissue_attempted = true;
    }
}

/// What the panel said of the device when a start was prepared.
pub struct StartBootstrap {
    pub device_id: String,
    pub can_connect: bool,
    pub peer_bound: bool,
    pub layer: Layer,
    pub tic_connection_mode: TicConnectionMode,
    pub route_mode: RouteMode,
    pub capability: Option<ConnectionIntentCapability>,
}

#[derive(Clone, Copy, Debug, PartialEq, Eq, Structural)]
pub struct ResolvedStart {
    pub mode: InitialDesktopStartMode,
    pub options: Option<ConnectOptions>,
}

pub open spec fn other_device(preflight: InitialDesktopPreflight, bootstrap: StartBootstrap) -> bool {
    preflight.expected_device_id matches Some(expected) && expected@ != bootstrap.device_id@
}

pub open spec fn start_of(
    preflight: InitialDesktopPreflight,
    bootstrap: StartBootstrap,
    egress_mode: EgressMode,
    now_unix: i64,
) -> ResolvedStart {
    ResolvedStart {
        mode: start_mode(bootstrap.capability, now_unix),
        options: if preflight.quick_toggle_skip_probe_refresh is Some {
            Some(
                ConnectOptions {
                    layer: bootstrap.layer,
                    tic_connection_mode: bootstrap.tic_connection_mode,
                    route_mode: bootstrap.route_mode,
                    egress_mode,
                    allow_alternate: true,
                },
            )
        } else {
            None
        },
    }
}

/// How a start goes on once the panel has answered: a start for another
/// device is refused, and a quick toggle takes the defaults of the device.
/// `egress_mode` is the mode that the preferences give for those defaults.
pub fn resolve_initial_desktop_start(
    preflight: &InitialDesktopPreflight,
    bootstrap: &StartBootstrap,
    egress_mode: EgressMode,
    now_unix: i64,
) -> (resolved: Result<ResolvedStart, ApplicationError>)
    ensures
        match resolved {
            Ok(start) => {
                &&& start == start_of(*preflight, *bootstrap, egress_mode, now_unix)
                &&& !other_device(*preflight, *bootstrap)
                &&& preflight.quick_toggle_skip_probe_refresh is Some ==> bootstrap.can_connect
                    && bootstrap.peer_bound
            },
            Err(error) => if other_device(*preflight, *bootstrap) {
                crate::errors::is_rejection(
                    error,
                    "device_mismatch"@,
                    "Подключение запрошено для другого устройства"@,
                )
            } else if !bootstrap.can_connect {
                &&& preflight.quick_toggle_skip_probe_refresh is Some
                &&& error == ApplicationError::Core(CoreError::AccessExpired)
            } else {
                &&& preflight.quick_toggle_skip_probe_refresh is Some
                &&& !bootstrap.peer_bound
                &&& crate::errors::is_rejection(
                    error,
                    "peer_binding_required"@,
                    "Сначала выберите пир в приложении"@,
                )
            },
        },
{
    if let Some(expected) = &preflight.expected_device_id {
        if !same_text(expected.as_str(), bootstrap.device_id.as_str()) {
            return Err(
                rejection("device_mismatch", "Подключение запрошено для другого устройства"),
            );
        }
    }
    let options = if preflight.quick_toggle_skip_probe_refresh.is_some() {
        if !bootstrap.can_connect {
            return Err(ApplicationError::Core(CoreError::AccessExpired));
        }
        if !bootstrap.peer_bound {
            return Err(rejection("peer_binding_required", "Сначала выберите пир в приложении"));
        }
        Some(
            ConnectOptions {
                layer: bootstrap.layer,
                tic_connection_mode: bootstrap.tic_connection_mode,
                route_mode: bootstrap.route_mode,
                egress_mode,
                allow_alternate: true,
            },
        )
    } else {
        None
    };
    Ok(
        ResolvedStart {
            mode: initial_desktop_start_mode(&bootstrap.capability, now_unix),
            options,
        },
    )
}

/// The steps before the first attempt, in their order.
#[derive(Clone, Copy, Debug, PartialEq, Eq, Structural)]
pub enum PreflightStep {
    BindPeer,
    PrepareTunnel,
    CheckDefender,
    RefreshApplications,
}

pub open spec fn preflight_steps(
    binding_requested: bool,
    platform: ClientPlatform,
    layer: Layer,
) -> Seq<PreflightStep> {
    let bind = if binding_requested {
        seq![PreflightStep::BindPeer]
    } else {
        Seq::empty()
    };
    let check = if platform == ClientPlatform::Windows && layer == Layer::Stray {
        seq![PreflightStep::CheckDefender]
    } else {
        Seq::empty()
    };
    bind + seq![PreflightStep::PrepareTunnel] + check + seq![PreflightStep::RefreshApplications]
}

pub fn run_initial_desktop_preflight(
    binding_requested: bool,
    platform: ClientPlatform,
    layer: Layer,
) -> (steps: Vec<PreflightStep>)
    ensures
        steps@ == preflight_steps(binding_requested, platform, layer),
{
    let mut steps: Vec<PreflightStep> = Vec::new();
    if binding_requested {
        steps.push(PreflightStep::BindPeer);
    }
    steps.push(PreflightStep::PrepareTunnel);
    if platform == ClientPlatform::Windows && layer == Layer::Stray {
        steps.push(PreflightStep::CheckDefender);
    }
    steps.push(PreflightStep::RefreshApplications);
    assert(steps@ =~= preflight_steps(binding_requested, platform, layer));
    steps
}

} // verus!
