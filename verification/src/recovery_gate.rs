//! Holds automatic recovery back while a Mac sleeps or has just woken up.
use vstd::prelude::*;

verus! {

/// How long after waking up recovery is held back, in nanoseconds.
pub const WAKE_GRACE_NANOS: u64 = 15_000_000_000;

/// What a system that is fully awake can do: its processor, graphics and
/// network.
pub const FULL_WAKE: u64 = 11;

#[derive(Clone, Copy, Debug, PartialEq, Eq, Structural)]
pub struct RecoveryGate {
    pub was_dark: bool,
    pub wake_stamp: Option<i64>,
    pub resume_after_nanos: Option<u64>,
}

/// Whether everything is there that a full wake needs.
pub open spec fn fully_awake(capabilities: u64) -> bool {
    capabilities & FULL_WAKE == FULL_WAKE
}

/// Whether a wake is one that was not seen before: another than the last one,
/// or, as the first one, one of the last fifteen seconds.
pub open spec fn is_new_wake(gate: RecoveryGate, wake: Option<i64>, now_unix: i64) -> bool {
    wake matches Some(stamp) && match gate.wake_stamp {
        Some(previous) => previous != stamp,
        None => 0 <= now_unix - stamp < 15,
    }
}

/// Why recovery is held back, and the state after that.
pub open spec fn gate_step(
    gate: RecoveryGate,
    capabilities: Option<u64>,
    wake: Option<i64>,
    now_nanos: u64,
    now_unix: i64,
) -> (RecoveryGate, Option<Seq<char>>) {
    match capabilities {
        None => (gate, None),
        Some(capabilities) => if !fully_awake(capabilities) {
            (
                RecoveryGate { was_dark: true, wake_stamp: wake, ..gate },
                Some("sleep_or_dark_wake"@),
            )
        } else {
            let resume_after_nanos = if gate.was_dark || is_new_wake(gate, wake, now_unix) {
                Some((now_nanos + WAKE_GRACE_NANOS) as u64)
            } else {
                gate.resume_after_nanos
            };
            let waiting = resume_after_nanos matches Some(deadline) && now_nanos < deadline;
            (
                RecoveryGate {
                    was_dark: false,
                    wake_stamp: if wake is Some {
                        wake
                    } else {
                        gate.wake_stamp
                    },
                    resume_after_nanos: if waiting {
                        resume_after_nanos
                    } else {
                        None
                    },
                },
                if waiting {
                    Some("wake_grace"@)
                } else {
                    None
                },
            )
        },
    }
}

pub open spec fn reason_text(reason: Option<&'static str>) -> Option<Seq<char>> {
    match reason {
        Some(reason) => Some(reason@),
        None => None,
    }
}

impl RecoveryGate {
    pub fn new() -> (gate: Self)
        ensures
            gate == (RecoveryGate { was_dark: false, wake_stamp: None, resume_after_nanos: None }),
    {
        RecoveryGate { was_dark: false, wake_stamp: None, resume_after_nanos: None }
    }

    /// Takes in what the system can do now (none where that could not be read)
    /// and when it last woke up. Returns why recovery is held back.
    pub fn observe(
        &mut self,
        capabilities: Option<u64>,
        wake: Option<i64>,
        now_nanos: u64,
        now_unix: i64,
    ) -> (reason: Option<&'static str>)
        requires
            now_nanos <= u64::MAX - WAKE_GRACE_NANOS,
        ensures
            (*final(self), reason_text(reason)) == gate_step(
                *old(self),
                capabilities,
                wake,
                now_nanos,
                now_unix,
            ),
    {
        let capabilities = match capabilities {
            Some(capabilities) => capabilities,
            None => return None,
        };
        if capabilities & FULL_WAKE != FULL_WAKE {
            self.was_dark = true;
            self.wake_stamp = wake;
            return Some("sleep_or_dark_wake");
        }
        let new_wake = match wake {
            Some(stamp) => match self.wake_stamp {
                Some(previous) => previous != stamp,
                None => match now_unix.checked_sub(stamp) {
                    Some(age) => 0 <= age && age < 15,
                    None => false,
                },
            },
            None => false,
        };
        if self.was_dark || new_wake {
            self.resume_after_nanos = Some(now_nanos + WAKE_GRACE_NANOS);
        }
        self.was_dark = false;
        if wake.is_some() {
            self.wake_stamp = wake;
        }
        let waiting = match self.resume_after_nanos {
            Some(deadline) => now_nanos < deadline,
            None => false,
        };
        if waiting {
            return Some("wake_grace");
        }
        self.resume_after_nanos = None;
        None
    }
}

/// A sensor that cannot be read never holds recovery back.
pub proof fn law_missing_sensor_does_not_hold_back(
    gate: RecoveryGate,
    wake: Option<i64>,
    now_nanos: u64,
    now_unix: i64,
)
    ensures
        gate_step(gate, None, wake, now_nanos, now_unix) == (gate, None::<Seq<char>>),
{
}

/// Whether recovery is held back until `deadline_nanos` of full wake.
pub open spec fn in_grace(gate: RecoveryGate, deadline_nanos: u64) -> bool {
    !gate.was_dark && gate.resume_after_nanos == Some(deadline_nanos)
}

/// The first full wake after a dark one is held back, and so is a later reading
/// of a full wake until fifteen seconds have passed since, or where it tells of
/// another wake.
pub proof fn law_dark_wake_is_followed_by_a_grace(
    gate: RecoveryGate,
    capabilities: u64,
    wake: Option<i64>,
    now_nanos: u64,
    now_unix: i64,
    later_capabilities: u64,
    later_wake: Option<i64>,
    later_nanos: u64,
    later_unix: i64,
)
    requires
        gate.was_dark,
        fully_awake(capabilities),
        fully_awake(later_capabilities),
        now_nanos <= later_nanos <= u64::MAX - WAKE_GRACE_NANOS,
    ensures
        ({
            let (first, reason) = gate_step(
                gate,
                Some(capabilities),
                wake,
                now_nanos,
                now_unix,
            );
            let (second, later) = gate_step(
                first,
                Some(later_capabilities),
                later_wake,
                later_nanos,
                later_unix,
            );
            &&& reason == Some("wake_grace"@)
            &&& in_grace(first, (now_nanos + WAKE_GRACE_NANOS) as u64)
            &&& later is Some <==> later_nanos < now_nanos + WAKE_GRACE_NANOS || is_new_wake(
                first,
                later_wake,
                later_unix,
            )
        }),
{
}

/// A reading in between neither shortens nor lengthens a grace, where it tells
/// of a full wake that is no new one, or could not be made.
pub proof fn law_grace_keeps_its_end(
    gate: RecoveryGate,
    deadline_nanos: u64,
    capabilities: Option<u64>,
    wake: Option<i64>,
    now_nanos: u64,
    now_unix: i64,
)
    requires
        in_grace(gate, deadline_nanos),
        now_nanos < deadline_nanos,
        capabilities matches Some(value) ==> fully_awake(value) && !is_new_wake(
            gate,
            wake,
            now_unix,
        ),
    ensures
        in_grace(gate_step(gate, capabilities, wake, now_nanos, now_unix).0, deadline_nanos),
{
}

} // verus!
