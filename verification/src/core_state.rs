//! The state of the client core, as plain values.
use vstd::prelude::*;

verus! {

/// What the client core is doing.
#[derive(Clone, Copy, Debug, PartialEq, Eq, Structural)]
pub enum Phase {
    SignedOut,
    Authenticating,
    NeedsPeerBinding,
    AccessExpired,
    Ready,
    Measuring,
    Connecting,
    Connected,
    Stopping,
    UpdateRequired,
    ServerUnavailable,
    Error,
}

/// What has become of the user's wish to be connected.
#[derive(Clone, Copy, Debug, PartialEq, Eq, Structural)]
pub enum ConnectionIntentStatus {
    Idle,
    Recovering,
    BlockedTerminal,
}

#[derive(Clone, Copy, Debug, PartialEq, Eq, Structural)]
pub enum Layer {
    Tic,
    Stray,
}

#[derive(Clone, Copy, Debug, PartialEq, Eq, Structural)]
pub enum TicConnectionMode {
    Personal,
    Dynamic,
}

#[derive(Clone, Copy, Debug, PartialEq, Eq, Structural)]
pub enum RouteMode {
    Standalone,
    ViaTak,
}

#[derive(Clone, Copy, Debug, PartialEq, Eq, Structural)]
pub enum EgressMode {
    Ipv4,
    PreferIpv6,
}

/// What has become of a lease.
#[derive(Clone, Copy, Debug, PartialEq, Eq, Structural)]
pub enum LeaseStatus {
    Issued,
    Connected,
    Released,
    Failed,
}

/// What to connect to, and how.
#[derive(Clone, Copy, Debug, PartialEq, Eq, Structural)]
pub struct ConnectOptions {
    pub layer: Layer,
    pub tic_connection_mode: TicConnectionMode,
    pub route_mode: RouteMode,
    pub egress_mode: EgressMode,
    pub allow_alternate: bool,
}

/// A lease that the panel issued for a connection.
#[derive(Debug)]
pub struct Connection {
    pub lease_id: String,
    pub layer: Layer,
    pub tic_connection_mode: TicConnectionMode,
    pub route_mode: RouteMode,
    pub egress_mode: EgressMode,
    pub status: LeaseStatus,
    pub pinned: bool,
}

/// The phase of the core and the connection it has, if any.
#[derive(Debug)]
pub struct CoreState {
    pub phase: Phase,
    pub connection: Option<Connection>,
}

impl Connection {
    pub fn duplicate(&self) -> (connection: Self)
        ensures
            connection == *self,
    {
        Connection {
            lease_id: self.lease_id.clone(),
            layer: self.layer,
            tic_connection_mode: self.tic_connection_mode,
            route_mode: self.route_mode,
            egress_mode: self.egress_mode,
            status: self.status,
            pinned: self.pinned,
        }
    }
}

/// What the panel allows a device to do by intents, and until when.
/// `expires_at_unix` is the time that `expires_at` names, where it names one.
#[derive(Debug)]
pub struct ConnectionIntentCapability {
    pub revision: i64,
    pub expires_at: String,
    pub expires_at_unix: Option<i64>,
    pub connection_intent_recovery_v1: bool,
}

impl ConnectionIntentCapability {
    pub open spec fn recovery_enabled(self, now_unix: i64) -> bool {
        &&& self.connection_intent_recovery_v1
        &&& self.revision > 0
        &&& self.expires_at_unix matches Some(expires_at)
        &&& expires_at > now_unix
    }

    pub fn is_recovery_enabled_at(&self, now_unix: i64) -> (enabled: bool)
        ensures
            enabled == self.recovery_enabled(now_unix),
    {
        self.connection_intent_recovery_v1 && self.revision > 0 && match self.expires_at_unix {
            Some(expires_at) => expires_at > now_unix,
            None => false,
        }
    }
}

pub open spec fn allows_intent(capability: Option<ConnectionIntentCapability>, now_unix: i64) -> bool {
    capability matches Some(capability) && capability.recovery_enabled(now_unix)
}

/// Whether a new operation of an intent may be begun.
pub fn allows_new_connection_intent_operation(
    capability: &Option<ConnectionIntentCapability>,
    now_unix: i64,
) -> (allowed: bool)
    ensures
        allowed == allows_intent(*capability, now_unix),
{
    match capability {
        Some(capability) => capability.is_recovery_enabled_at(now_unix),
        None => false,
    }
}

} // verus!
