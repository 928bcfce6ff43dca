//! What the tunnel backends report, as plain values.
use vstd::prelude::*;

verus! {

/// Cumulative counters of one tunnel session, as the backend reports them.
#[derive(Debug)]
pub struct TunnelMetrics {
    pub received_bytes: u64,
    pub sent_bytes: u64,
    pub latest_handshake_epoch_millis: Option<u64>,
    pub probe_target: Option<String>,
}

impl TunnelMetrics {
    pub fn duplicate(&self) -> (metrics: Self)
        ensures
            metrics == *self,
    {
        TunnelMetrics {
            received_bytes: self.received_bytes,
            sent_bytes: self.sent_bytes,
            latest_handshake_epoch_millis: self.latest_handshake_epoch_millis,
            probe_target: self.probe_target.clone(),
        }
    }
}

/// What a tunnel backend is doing.
#[derive(Clone, Copy, Debug, PartialEq, Eq, Structural)]
pub enum TunnelStatus {
    Stopped,
    Starting,
    Running,
    Stopping,
    Failed,
}

} // verus!
