//! Decisions of the loops that run beside the connection: what the automatic
//! diagnostics take a tunnel to be, what becomes of a report that was sent,
//! and when a device is registered for notifications.
use crate::errors::{ApplicationError, automatic_upload_error_code};
use crate::text::{blank, same_text};
use crate::tunnel::TunnelStatus;
use vstd::prelude::*;

verus! {

/// The session that is running, as far as the backend does not deny it, and
/// whether a tunnel may be up. A status that could not be read denies nothing.
pub fn automatic_tunnel_state<'a>(session_id: Option<&'a str>, status: Option<TunnelStatus>) -> (state:
    (Option<&'a str>, bool))
    ensures
        state == (if status == Some(TunnelStatus::Stopped) || status == Some(
            TunnelStatus::Failed,
        ) {
            (None, false)
        } else {
            (session_id, true)
        }),
{
    match status {
        Some(TunnelStatus::Stopped) | Some(TunnelStatus::Failed) => (None, false),
        Some(TunnelStatus::Starting)
        | Some(TunnelStatus::Running)
        | Some(TunnelStatus::Stopping) => (session_id, true),
        None => (session_id, true),
    }
}

/// What becomes of a report that was sent.
#[derive(Debug)]
pub enum UploadVerdict {
    /// The panel has it: it can be put away.
    Delivered,
    /// It is to be sent again later; the code is noted.
    Failed { code: String },
}

pub open spec fn verdict_is(
    verdict: UploadVerdict,
    expected: Option<Seq<char>>,
    answer: Result<String, ApplicationError>,
) -> bool {
    match answer {
        Ok(report_id) => if expected == Some(report_id@) {
            verdict is Delivered
        } else {
            verdict matches UploadVerdict::Failed { code } && code@
                == "invalid_diagnostics_response"@
        },
        Err(error) => verdict matches UploadVerdict::Failed { code } && code@
            == crate::errors::application_code(error, "temporary_network_error"@),
    }
}

/// A report counts as delivered only where the panel has named that very
/// report in its answer.
pub fn upload_verdict(expected_report_id: &Option<String>, answer: &Result<String, ApplicationError>) -> (verdict:
    UploadVerdict)
    ensures
        verdict_is(verdict, crate::text::text_of(*expected_report_id), *answer),
{
    match answer {
        Ok(report_id) => {
            let delivered = match expected_report_id {
                Some(expected) => same_text(expected.as_str(), report_id.as_str()),
                None => false,
            };
            if delivered {
                UploadVerdict::Delivered
            } else {
                UploadVerdict::Failed { code: "invalid_diagnostics_response".to_owned() }
            }
        },
        Err(error) => UploadVerdict::Failed { code: automatic_upload_error_code(error) },
    }
}

/// How often the newest report is tried to be sent at a sign-out.
pub const LOGOUT_UPLOAD_TRIES: u32 = 50;

/// Whether the newest report is tried to be sent at a sign-out, after `tried`
/// tries, the last of which has sent one or not.
pub fn logout_upload_again(tried: u32, sent: bool) -> (again: bool)
    ensures
        again == (!sent && tried < LOGOUT_UPLOAD_TRIES),
{
    !sent && tried < LOGOUT_UPLOAD_TRIES
}

/// What is done about the notification token of a device.
#[derive(Clone, Copy, Debug, PartialEq, Eq, Structural)]
pub enum PushRegistration {
    Nothing,
    Unregister,
    Register,
}

/// A token is registered only while someone is signed in and has allowed
/// notifications, and only if there is one. `permission_granted` is none where
/// the system could not be asked.
pub fn push_registration(signed_in: bool, permission_granted: Option<bool>, token: &str) -> (action:
    PushRegistration)
    ensures
        action == (if !signed_in {
            PushRegistration::Nothing
        } else {
            match permission_granted {
                None => PushRegistration::Nothing,
                Some(false) => PushRegistration::Unregister,
                Some(true) => if crate::text::is_blank(token@) {
                    PushRegistration::Nothing
                } else {
                    PushRegistration::Register
                },
            }
        }),
{
    if !signed_in {
        return PushRegistration::Nothing;
    }
    match permission_granted {
        None => PushRegistration::Nothing,
        Some(granted) => if !granted {
            PushRegistration::Unregister
        } else if blank(token) {
            PushRegistration::Nothing
        } else {
            PushRegistration::Register
        },
    }
}

} // verus!
