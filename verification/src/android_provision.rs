//! How the service of Android is given what it needs to keep a connection up
//! while the application is not running.
use crate::core_state::ConnectionIntentCapability;
use crate::text::same_text;
use vstd::prelude::*;

verus! {

pub const ANDROID_BACKGROUND_REFRESH_WINDOW_SECONDS: i64 = 604_800;

pub const ANDROID_DISABLED_CAPABILITY_EXPIRES_AT: &'static str = "1970-01-01T00:00:01Z";

pub const ANDROID_QUICK_RECONCILE_RETRY_SECONDS: i64 = 15;

#[derive(Clone, Copy, Debug, PartialEq, Eq, Structural)]
pub enum AndroidBackgroundProvisionMode {
    Noop,
    UiAuthenticatedTwoPhase,
    RefreshStoredCapability,
    Legacy,
}

/// The capability as the service stores it.
#[derive(Debug)]
pub struct AndroidBackgroundCapabilitySnapshot {
    pub revision: i64,
    pub enabled: bool,
    pub expires_at: String,
    pub expires_at_unix: i64,
}

/// What the service has stored.
#[derive(Debug)]
pub struct BackgroundCredentialStatus {
    pub configured: bool,
    pub mutation_ready: bool,
    pub mutation_pending: bool,
    pub capability_revision: i64,
    pub capability_enabled: bool,
    pub capability_expires_at_unix: Option<i64>,
    pub device_id: Option<String>,
    pub expires_at_unix: Option<i64>,
}

/// What the service is to store: a capability that is not usable now is
/// stored as one that has long expired.
pub open spec fn snapshot_is(
    snapshot: AndroidBackgroundCapabilitySnapshot,
    capability: Option<ConnectionIntentCapability>,
    now: i64,
) -> bool {
    let enabled = crate::core_state::allows_intent(capability, now);
    &&& snapshot.enabled == enabled
    &&& snapshot.revision == (match capability {
        Some(capability) => if capability.revision > 0 {
            capability.revision
        } else {
            0
        },
        None => 0,
    })
    &&& if enabled {
        &&& snapshot.expires_at@ == capability->0.expires_at@
        &&& Some(snapshot.expires_at_unix) == capability->0.expires_at_unix
    } else {
        &&& snapshot.expires_at@ == ANDROID_DISABLED_CAPABILITY_EXPIRES_AT@
        &&& snapshot.expires_at_unix == 1
    }
}

pub fn android_background_capability_snapshot(
    capability: &Option<ConnectionIntentCapability>,
    now: i64,
) -> (snapshot: AndroidBackgroundCapabilitySnapshot)
    ensures
        snapshot_is(snapshot, *capability, now),
{
    match capability {
        Some(capability) => {
            let enabled = capability.is_recovery_enabled_at(now);
            let revision: i64 = if capability.revision > 0 {
                capability.revision
            } else {
                0
            };
            let expires_at_unix: i64 = match capability.expires_at_unix {
                Some(expires_at) => if enabled {
                    expires_at
                } else {
                    1
                },
                None => 1,
            };
            AndroidBackgroundCapabilitySnapshot {
                revision,
                enabled,
                expires_at: if enabled {
                    capability.expires_at.clone()
                } else {
                    ANDROID_DISABLED_CAPABILITY_EXPIRES_AT.to_owned()
                },
                expires_at_unix,
            }
        },
        None => AndroidBackgroundCapabilitySnapshot {
            revision: 0,
            enabled: false,
            expires_at: ANDROID_DISABLED_CAPABILITY_EXPIRES_AT.to_owned(),
            expires_at_unix: 1,
        },
    }
}

/// Whether the service already has the capability that it is to have.
pub open spec fn capability_stored(
    status: BackgroundCredentialStatus,
    desired: AndroidBackgroundCapabilitySnapshot,
) -> bool {
    &&& status.capability_revision == desired.revision
    &&& status.capability_enabled == desired.enabled
    &&& desired.enabled ==> status.capability_expires_at_unix == Some(desired.expires_at_unix)
}

pub fn android_background_capability_matches(
    status: &BackgroundCredentialStatus,
    desired: &AndroidBackgroundCapabilitySnapshot,
) -> (matches: bool)
    ensures
        matches == capability_stored(*status, *desired),
{
    status.capability_revision == desired.revision && status.capability_enabled == desired.enabled
        && (!desired.enabled || match status.capability_expires_at_unix {
        Some(expires_at) => expires_at == desired.expires_at_unix,
        None => false,
    })
}

pub open spec fn token_fresh(status: BackgroundCredentialStatus, now: i64) -> bool {
    status.expires_at_unix matches Some(expires_at) && expires_at
        > crate::stall_recovery::later_by(now, ANDROID_BACKGROUND_REFRESH_WINDOW_SECONDS)
}

pub open spec fn usable_until_later(expires_at_unix: Option<i64>, now: i64) -> bool {
    expires_at_unix matches Some(expires_at) && expires_at > now
}

/// The credential of this device, ready and fresh for more than a week.
pub open spec fn credential_ready(
    status: BackgroundCredentialStatus,
    device_id: Seq<char>,
    now: i64,
) -> bool {
    &&& status.configured
    &&& status.mutation_ready
    &&& crate::text::text_of(status.device_id) == Some(device_id)
    &&& token_fresh(status, now)
}

pub open spec fn provision_mode(
    status: BackgroundCredentialStatus,
    device_id: Seq<char>,
    desired: AndroidBackgroundCapabilitySnapshot,
    now: i64,
) -> AndroidBackgroundProvisionMode {
    let stored_usable = status.capability_enabled && usable_until_later(
        status.capability_expires_at_unix,
        now,
    );
    if status.mutation_pending {
        AndroidBackgroundProvisionMode::UiAuthenticatedTwoPhase
    } else if credential_ready(status, device_id, now) {
        if capability_stored(status, desired) && (!status.capability_enabled || stored_usable) {
            AndroidBackgroundProvisionMode::Noop
        } else {
            AndroidBackgroundProvisionMode::RefreshStoredCapability
        }
    } else if desired.enabled || stored_usable {
        AndroidBackgroundProvisionMode::UiAuthenticatedTwoPhase
    } else {
        AndroidBackgroundProvisionMode::Legacy
    }
}

/// What has to be done so that the service has a credential of this device
/// and the capability that it is to have.
pub fn android_background_provision_mode(
    status: &BackgroundCredentialStatus,
    device_id: &str,
    desired_capability: &AndroidBackgroundCapabilitySnapshot,
    now: i64,
) -> (mode: AndroidBackgroundProvisionMode)
    ensures
        mode == provision_mode(*status, device_id@, *desired_capability, now),
{
    let same_device = match &status.device_id {
        Some(stored) => same_text(stored.as_str(), device_id),
        None => false,
    };
    let token_is_fresh = match status.expires_at_unix {
        Some(expires_at) => expires_at > crate::stall_recovery::saturating_later(
            now,
            ANDROID_BACKGROUND_REFRESH_WINDOW_SECONDS,
        ),
        None => false,
    };
    let stored_capability_available = status.capability_enabled
        && match status.capability_expires_at_unix {
        Some(expires_at) => expires_at > now,
        None => false,
    };
    let ready = status.configured && status.mutation_ready && same_device && token_is_fresh;
    if status.mutation_pending {
        AndroidBackgroundProvisionMode::UiAuthenticatedTwoPhase
    } else if ready && android_background_capability_matches(status, desired_capability) && (
    !status.capability_enabled || stored_capability_available) {
        AndroidBackgroundProvisionMode::Noop
    } else if ready {
        AndroidBackgroundProvisionMode::RefreshStoredCapability
    } else if desired_capability.enabled || stored_capability_available {
        AndroidBackgroundProvisionMode::UiAuthenticatedTwoPhase
    } else {
        AndroidBackgroundProvisionMode::Legacy
    }
}

/// How long to wait before each new try to give the service its credential.
pub const PROVISION_RETRY_DELAYS_SECONDS: [u64; 3] = [5, 30, 120];

/// The wait before the next try, after so many failed ones beside the first;
/// none where it is given up.
pub fn provision_retry_delay(failed_retries: usize) -> (delay: Option<u64>)
    ensures
        delay == (if failed_retries == 0 {
            Some(5u64)
        } else if failed_retries == 1 {
            Some(30u64)
        } else if failed_retries == 2 {
            Some(120u64)
        } else {
            None
        }),
{
    if failed_retries < 3 {
        Some(PROVISION_RETRY_DELAYS_SECONDS[failed_retries])
    } else {
        None
    }
}

/// When the panel may be asked again about a change that was made from the
/// quick settings of Android.
#[derive(Clone, Copy, Debug, PartialEq, Eq, Structural)]
pub struct QuickReconcile {
    pub retry_after_unix: i64,
}

impl QuickReconcile {
    pub fn new() -> (reconcile: Self)
        ensures
            reconcile.retry_after_unix == 0,
    {
        QuickReconcile { retry_after_unix: 0 }
    }

    pub fn is_due(&self, now_unix: i64) -> (due: bool)
        ensures
            due == (now_unix >= self.retry_after_unix),
    {
        now_unix >= self.retry_after_unix
    }

    pub fn defer(&mut self, now_unix: i64)
        ensures
            final(self).retry_after_unix == crate::stall_recovery::later_by(
                now_unix,
                ANDROID_QUICK_RECONCILE_RETRY_SECONDS,
            ),
    {
        self.retry_after_unix =
        crate::stall_recovery::saturating_later(now_unix, ANDROID_QUICK_RECONCILE_RETRY_SECONDS);
    }

    pub fn clear(&mut self)
        ensures
            final(self).retry_after_unix == 0,
    {
        self.retry_after_unix = 0;
    }
}

/// A device that was provisioned is left alone until something has changed:
/// storing what is to be stored makes further provisioning unnecessary, for as
/// long as the capability and the credential last.
pub proof fn law_stored_capability_needs_no_provision(
    status: BackgroundCredentialStatus,
    device_id: Seq<char>,
    desired: AndroidBackgroundCapabilitySnapshot,
    capability: Option<ConnectionIntentCapability>,
    now: i64,
)
    requires
        snapshot_is(desired, capability, now),
        credential_ready(status, device_id, now),
        !status.mutation_pending,
    ensures
        ({
            let stored = BackgroundCredentialStatus {
                capability_revision: desired.revision,
                capability_enabled: desired.enabled,
                capability_expires_at_unix: Some(desired.expires_at_unix),
                ..status
            };
            provision_mode(stored, device_id, desired, now) == AndroidBackgroundProvisionMode::Noop
        }),
{
}

/// A device with a usable capability, stored or offered, is never provisioned
/// in the old way.
pub proof fn law_capability_excludes_legacy_provision(
    status: BackgroundCredentialStatus,
    device_id: Seq<char>,
    desired: AndroidBackgroundCapabilitySnapshot,
    now: i64,
)
    requires
        desired.enabled || (status.capability_enabled && usable_until_later(
            status.capability_expires_at_unix,
            now,
        )),
    ensures
        provision_mode(status, device_id, desired, now) != AndroidBackgroundProvisionMode::Legacy,
{
}

/// A credential change that was begun is finished before anything else.
pub proof fn law_pending_change_comes_first(
    status: BackgroundCredentialStatus,
    device_id: Seq<char>,
    desired: AndroidBackgroundCapabilitySnapshot,
    now: i64,
)
    requires
        status.mutation_pending,
    ensures
        provision_mode(status, device_id, desired, now)
            == AndroidBackgroundProvisionMode::UiAuthenticatedTwoPhase,
{
}

} // verus!
