//! What the user interface asks for and is answered.
use crate::connection_metrics::ConnectionMetricsResponse;
use crate::core_state::{
    ConnectOptions, Connection, ConnectionIntentStatus, CoreState, EgressMode, Layer, Phase,
    RouteMode, TicConnectionMode,
};
use crate::text::same_text;
use vstd::prelude::*;

verus! {

pub struct LoginCommandRequest {
    pub login: String,
    pub password: String,
    pub device_name: String,
}

pub struct LeaseCommandRequest {
    pub lease_id: String,
}

pub struct StartCommandRequest {
    pub device_id: String,
    pub binding_requested: bool,
    pub layer: Layer,
    pub tic_connection_mode: TicConnectionMode,
    pub route_mode: RouteMode,
    pub egress_mode: EgressMode,
    pub allow_alternate: bool,
}

impl StartCommandRequest {
    /// What to connect to, as the request says.
    pub fn options(&self) -> (options: ConnectOptions)
        ensures
            options == (ConnectOptions {
                layer: self.layer,
                tic_connection_mode: self.tic_connection_mode,
                route_mode: self.route_mode,
                egress_mode: self.egress_mode,
                allow_alternate: self.allow_alternate,
            }),
    {
        ConnectOptions {
            layer: self.layer,
            tic_connection_mode: self.tic_connection_mode,
            route_mode: self.route_mode,
            egress_mode: self.egress_mode,
            allow_alternate: self.allow_alternate,
        }
    }
}

/// How far the start of the user interface has come.
#[derive(Clone, Copy, Debug, PartialEq, Eq, Structural)]
pub enum StartupStage {
    FrontendMounted,
    FrontendFirstFrame,
    BootstrapSlow,
}

impl StartupStage {
    pub open spec fn event(self) -> Seq<char> {
        match self {
            StartupStage::FrontendMounted => "startup.frontend.mounted"@,
            StartupStage::FrontendFirstFrame => "startup.frontend.first_frame"@,
            StartupStage::BootstrapSlow => "startup.bootstrap.slow"@,
        }
    }

    /// The name under which the user interface reports a stage.
    pub open spec fn name(self) -> Seq<char> {
        match self {
            StartupStage::FrontendMounted => "frontend_mounted"@,
            StartupStage::FrontendFirstFrame => "frontend_first_frame"@,
            StartupStage::BootstrapSlow => "bootstrap_slow"@,
        }
    }

    /// The stage of a name: none of any other name.
    pub fn from_name(name: &str) -> (stage: Option<Self>)
        ensures
            stage matches Some(known) ==> name@ == known.name(),
            stage is None ==> forall|known: StartupStage| name@ != #[trigger] known.name(),
    {
        if same_text(name, "frontend_mounted") {
            Some(StartupStage::FrontendMounted)
        } else if same_text(name, "frontend_first_frame") {
            Some(StartupStage::FrontendFirstFrame)
        } else if same_text(name, "bootstrap_slow") {
            Some(StartupStage::BootstrapSlow)
        } else {
            None
        }
    }

    pub fn event_name(&self) -> (name: &'static str)
        ensures
            name@ == self.event(),
    {
        match self {
            StartupStage::FrontendMounted => "startup.frontend.mounted",
            StartupStage::FrontendFirstFrame => "startup.frontend.first_frame",
            StartupStage::BootstrapSlow => "startup.bootstrap.slow",
        }
    }
}

pub open spec fn phase_text(phase: Phase) -> Seq<char> {
    match phase {
        Phase::SignedOut => "signed_out"@,
        Phase::Authenticating => "authenticating"@,
        Phase::NeedsPeerBinding => "needs_peer_binding"@,
        Phase::AccessExpired => "access_expired"@,
        Phase::Ready => "ready"@,
        Phase::Measuring => "measuring"@,
        Phase::Connecting => "connecting"@,
        Phase::Connected => "connected"@,
        Phase::Stopping => "stopping"@,
        Phase::UpdateRequired => "update_required"@,
        Phase::ServerUnavailable => "server_unavailable"@,
        Phase::Error => "error"@,
    }
}

pub fn phase_name(phase: Phase) -> (name: &'static str)
    ensures
        name@ == phase_text(phase),
{
    match phase {
        Phase::SignedOut => "signed_out",
        Phase::Authenticating => "authenticating",
        Phase::NeedsPeerBinding => "needs_peer_binding",
        Phase::AccessExpired => "access_expired",
        Phase::Ready => "ready",
        Phase::Measuring => "measuring",
        Phase::Connecting => "connecting",
        Phase::Connected => "connected",
        Phase::Stopping => "stopping",
        Phase::UpdateRequired => "update_required",
        Phase::ServerUnavailable => "server_unavailable",
        Phase::Error => "error",
    }
}

pub open spec fn intent_text(status: ConnectionIntentStatus) -> Seq<char> {
    match status {
        ConnectionIntentStatus::Idle => "none"@,
        ConnectionIntentStatus::Recovering => "recovering"@,
        ConnectionIntentStatus::BlockedTerminal => "blocked_terminal"@,
    }
}

pub fn connection_intent_status_name(status: ConnectionIntentStatus) -> (name: &'static str)
    ensures
        name@ == intent_text(status),
{
    match status {
        ConnectionIntentStatus::Idle => "none",
        ConnectionIntentStatus::Recovering => "recovering",
        ConnectionIntentStatus::BlockedTerminal => "blocked_terminal",
    }
}

/// Phases that a recovery passes through by itself: they are shown as one.
pub open spec fn shown_as_connecting(phase: Phase, status: ConnectionIntentStatus) -> bool {
    status == ConnectionIntentStatus::Recovering && (phase == Phase::Ready || phase
        == Phase::Connecting || phase == Phase::Stopping || phase == Phase::ServerUnavailable)
}

pub open spec fn shown_phase(phase: Phase, status: ConnectionIntentStatus) -> Seq<char> {
    if shown_as_connecting(phase, status) {
        "connecting"@
    } else {
        phase_text(phase)
    }
}

/// The state of the application as it is shown.
pub struct AppStateResponse {
    pub phase: &'static str,
    pub local_stop_pending_cleanup: bool,
    pub connection: Option<Connection>,
    pub connection_intent_status: &'static str,
    pub next_retry_at_unix: Option<i64>,
    pub warning: Option<String>,
    pub metrics: Option<ConnectionMetricsResponse>,
}

/// Whether a connection that was stopped locally still has to be cleaned up,
/// as far as that is shown.
pub open spec fn cleanup_shown(response: AppStateResponse, confirmed: bool) -> bool {
    confirmed && (response.phase@ == "stopping"@ || response.phase@ == "ready"@ || (
    response.phase@ == "connecting"@ && response.connection_intent_status@ == "recovering"@))
}

impl AppStateResponse {
    pub fn new(
        state: CoreState,
        warning: Option<String>,
        metrics: Option<ConnectionMetricsResponse>,
        connection_intent_status: ConnectionIntentStatus,
        next_retry_at_unix: Option<i64>,
    ) -> (response: Self)
        ensures
            response.phase@ == shown_phase(state.phase, connection_intent_status),
            !response.local_stop_pending_cleanup,
            response.connection == state.connection,
            response.connection_intent_status@ == intent_text(connection_intent_status),
            response.next_retry_at_unix == next_retry_at_unix,
            response.warning == warning,
            response.metrics == metrics,
    {
        let recovering = connection_intent_status == ConnectionIntentStatus::Recovering
            && match state.phase {
            Phase::Ready | Phase::Connecting | Phase::Stopping | Phase::ServerUnavailable => true,
            _ => false,
        };
        let phase = if recovering {
            "connecting"
        } else {
            phase_name(state.phase)
        };
        AppStateResponse {
            phase,
            local_stop_pending_cleanup: false,
            connection: state.connection,
            connection_intent_status: connection_intent_status_name(connection_intent_status),
            next_retry_at_unix,
            warning,
            metrics,
        }
    }

    pub fn with_local_stop_pending_cleanup(self, confirmed: bool) -> (response: Self)
        ensures
            response == (AppStateResponse {
                local_stop_pending_cleanup: cleanup_shown(self, confirmed),
                metrics: if cleanup_shown(self, confirmed) {
                    None
                } else {
                    self.metrics
                },
                ..self
            }),
    {
        let pending = confirmed && (same_text(self.phase, "stopping") || same_text(
            self.phase,
            "ready",
        ) || (same_text(self.phase, "connecting") && same_text(
            self.connection_intent_status,
            "recovering",
        )));
        AppStateResponse {
            phase: self.phase,
            local_stop_pending_cleanup: pending,
            connection: self.connection,
            connection_intent_status: self.connection_intent_status,
            next_retry_at_unix: self.next_retry_at_unix,
            warning: self.warning,
            metrics: if pending {
                None
            } else {
                self.metrics
            },
        }
    }
}

/// The version of the interface of the panel.
#[derive(Clone, Copy, Debug, PartialEq, Eq, Structural)]
pub enum ApiVersion {
    V1,
}

/// What the panel answers to a binding; it holds the configuration of a peer,
/// keys and all.
pub struct PeerBindingResponse<B> {
    pub api_version: ApiVersion,
    pub request_id: String,
    pub binding: Option<B>,
    pub configuration: Option<String>,
}

/// What is shown of it: everything but the configuration.
#[derive(Debug)]
pub struct SafePeerBindingResponse<B> {
    pub api_version: ApiVersion,
    pub request_id: String,
    pub binding: Option<B>,
}

impl<B> SafePeerBindingResponse<B> {
    /// Leaves the configuration out.
    pub fn from_response(response: PeerBindingResponse<B>) -> (safe: Self)
        ensures
            safe.api_version == response.api_version,
            safe.request_id == response.request_id,
            safe.binding == response.binding,
    {
        SafePeerBindingResponse {
            api_version: response.api_version,
            request_id: response.request_id,
            binding: response.binding,
        }
    }
}

/// How a start is answered.
pub struct StartCommandResponse {
    pub status: &'static str,
    pub connection: Option<Connection>,
    pub next_retry_at_unix: Option<i64>,
}

impl StartCommandResponse {
    pub open spec fn is_connected(self, connection: Connection) -> bool {
        &&& self.status@ == "connected"@
        &&& self.connection == Some(connection)
        &&& self.next_retry_at_unix is None
    }

    pub open spec fn is_recovering(self, next_retry_at_unix: Option<i64>) -> bool {
        &&& self.status@ == "recovering"@
        &&& self.connection is None
        &&& self.next_retry_at_unix == next_retry_at_unix
    }

    pub fn connected(connection: Connection) -> (response: Self)
        ensures
            response.is_connected(connection),
    {
        StartCommandResponse {
            status: "connected",
            connection: Some(connection),
            next_retry_at_unix: None,
        }
    }

    pub fn recovering(next_retry_at_unix: Option<i64>) -> (response: Self)
        ensures
            response.is_recovering(next_retry_at_unix),
    {
        StartCommandResponse { status: "recovering", connection: None, next_retry_at_unix }
    }
}

/// The names under which a request is handed to the service of Android.
pub open spec fn layer_text(layer: Layer) -> Seq<char> {
    match layer {
        Layer::Tic => "tic"@,
        Layer::Stray => "stray"@,
    }
}

pub open spec fn tic_mode_text(mode: TicConnectionMode) -> Seq<char> {
    match mode {
        TicConnectionMode::Personal => "personal"@,
        TicConnectionMode::Dynamic => "dynamic"@,
    }
}

pub open spec fn route_text(mode: RouteMode) -> Seq<char> {
    match mode {
        RouteMode::Standalone => "standalone"@,
        RouteMode::ViaTak => "via_tak"@,
    }
}

pub open spec fn egress_text(mode: EgressMode) -> Seq<char> {
    match mode {
        EgressMode::Ipv4 => "ipv4"@,
        EgressMode::PreferIpv6 => "prefer_ipv6"@,
    }
}

/// An intent as the service of Android takes it.
pub struct ConnectionIntentTemplate {
    pub device_id: String,
    pub account_scope: String,
    pub layer: &'static str,
    pub tic_connection_mode: &'static str,
    pub route_mode: &'static str,
    pub egress_mode: &'static str,
    pub allow_alternate: bool,
    pub sync_binding_preferences: bool,
}

impl ConnectionIntentTemplate {
    pub fn new(device_id: &String, options: ConnectOptions, sync_binding_preferences: bool) -> (template:
        Self)
        ensures
            template.device_id == *device_id,
            template.account_scope == *device_id,
            template.layer@ == layer_text(options.layer),
            template.tic_connection_mode@ == tic_mode_text(options.tic_connection_mode),
            template.route_mode@ == route_text(options.route_mode),
            template.egress_mode@ == egress_text(options.egress_mode),
            template.allow_alternate == options.allow_alternate,
            template.sync_binding_preferences == sync_binding_preferences,
    {
        ConnectionIntentTemplate {
            device_id: device_id.clone(),
            account_scope: device_id.clone(),
            layer: match options.layer {
                Layer::Tic => "tic",
                Layer::Stray => "stray",
            },
            tic_connection_mode: match options.tic_connection_mode {
                TicConnectionMode::Personal => "personal",
                TicConnectionMode::Dynamic => "dynamic",
            },
            route_mode: match options.route_mode {
                RouteMode::Standalone => "standalone",
                RouteMode::ViaTak => "via_tak",
            },
            egress_mode: match options.egress_mode {
                EgressMode::Ipv4 => "ipv4",
                EgressMode::PreferIpv6 => "prefer_ipv6",
            },
            allow_alternate: options.allow_alternate,
            sync_binding_preferences,
        }
    }
}

/// The lease that a manual report belongs to: only one that was up before and
/// after the report was gathered.
pub fn stable_diagnostics_connection_lease(before: Option<String>, after: Option<String>) -> (lease:
    Option<String>)
    ensures
        crate::text::text_of(lease) == (if crate::text::text_of(before) == crate::text::text_of(
            after,
        ) {
            crate::text::text_of(before)
        } else {
            None
        }),
{
    match (before, after) {
        (Some(before), Some(after)) => if same_text(before.as_str(), after.as_str()) {
            Some(before)
        } else {
            None
        },
        _ => None,
    }
}

} // verus!
