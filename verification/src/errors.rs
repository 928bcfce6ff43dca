//! The ways in which the client core, the panel and the tunnel fail.
use vstd::prelude::*;

verus! {

/// How the panel answered a request that failed.
#[derive(Debug)]
pub enum CoreApiError {
    Unauthorized,
    AccessExpired,
    Retryable,
    Rejected { code: String, message: String, retry_after_seconds: Option<u64> },
}

/// Why the client core could not do what was asked.
#[derive(Debug)]
pub enum CoreError {
    AuthenticationOutcomeUnknown,
    AuthRecoveryRequired,
    SignedOut,
    AccessExpired,
    UpdateRequired,
    SavedConnectionUnavailable,
    StartCancelled,
    Storage,
    Api(CoreApiError),
    Tunnel(String),
    SplitTunnel(String),
}

/// Why the application could not do what was asked.
#[derive(Debug)]
pub enum ApplicationError {
    Storage,
    Clock,
    RecoveryDeferred,
    Api(CoreApiError),
    Core(CoreError),
}

/// Why a tunnel backend failed.
#[derive(Debug)]
pub enum TunnelError {
    Backend(String),
    InvalidOptions { code: String },
}

/// The code of an answer of the panel; `unreachable` stands for one that did
/// not come.
pub open spec fn api_code(error: CoreApiError, unreachable: Seq<char>) -> Seq<char> {
    match error {
        CoreApiError::Unauthorized => "signed_out"@,
        CoreApiError::AccessExpired => "access_expired"@,
        CoreApiError::Retryable => unreachable,
        CoreApiError::Rejected { code, .. } => code@,
    }
}

pub open spec fn core_code(error: CoreError, unreachable: Seq<char>) -> Seq<char> {
    match error {
        CoreError::AuthenticationOutcomeUnknown => "authentication_outcome_unknown"@,
        CoreError::AuthRecoveryRequired => "auth_recovery_required"@,
        CoreError::SignedOut => "signed_out"@,
        CoreError::AccessExpired => "access_expired"@,
        CoreError::UpdateRequired => "update_required"@,
        CoreError::SavedConnectionUnavailable => "saved_connection_unavailable"@,
        CoreError::StartCancelled => "connection_intent_cancelled"@,
        CoreError::Storage => "storage_unavailable"@,
        CoreError::Api(error) => api_code(error, unreachable),
        CoreError::Tunnel(code) => code@,
        CoreError::SplitTunnel(code) => code@,
    }
}

/// The code by which an error is known outside the program.
pub open spec fn application_code(error: ApplicationError, unreachable: Seq<char>) -> Seq<char> {
    match error {
        ApplicationError::Storage => "storage_unavailable"@,
        ApplicationError::Clock => "clock_unavailable"@,
        ApplicationError::RecoveryDeferred => "recovery_power_deferred"@,
        ApplicationError::Api(error) => api_code(error, unreachable),
        ApplicationError::Core(error) => core_code(error, unreachable),
    }
}

fn api_error_code(error: &CoreApiError, unreachable: &str) -> (code: String)
    ensures
        code@ == api_code(*error, unreachable@),
{
    match error {
        CoreApiError::Unauthorized => "signed_out".to_owned(),
        CoreApiError::AccessExpired => "access_expired".to_owned(),
        CoreApiError::Retryable => unreachable.to_owned(),
        CoreApiError::Rejected { code, .. } => code.clone(),
    }
}

fn application_error_code(error: &ApplicationError, unreachable: &str) -> (code: String)
    ensures
        code@ == application_code(*error, unreachable@),
{
    match error {
        ApplicationError::Storage => "storage_unavailable".to_owned(),
        ApplicationError::Clock => "clock_unavailable".to_owned(),
        ApplicationError::RecoveryDeferred => "recovery_power_deferred".to_owned(),
        ApplicationError::Api(error) => api_error_code(error, unreachable),
        ApplicationError::Core(error) => match error {
            CoreError::AuthenticationOutcomeUnknown => "authentication_outcome_unknown".to_owned(),
            CoreError::AuthRecoveryRequired => "auth_recovery_required".to_owned(),
            CoreError::SignedOut => "signed_out".to_owned(),
            CoreError::AccessExpired => "access_expired".to_owned(),
            CoreError::UpdateRequired => "update_required".to_owned(),
            CoreError::SavedConnectionUnavailable => "saved_connection_unavailable".to_owned(),
            CoreError::StartCancelled => "connection_intent_cancelled".to_owned(),
            CoreError::Storage => "storage_unavailable".to_owned(),
            CoreError::Api(error) => api_error_code(error, unreachable),
            CoreError::Tunnel(code) => code.clone(),
            CoreError::SplitTunnel(code) => code.clone(),
        },
    }
}

/// The code that decides whether a connection attempt is repeated.
pub fn stable_error_code(error: &ApplicationError) -> (code: String)
    ensures
        code@ == application_code(*error, "transport_error"@),
{
    application_error_code(error, "transport_error")
}

/// The code that is noted where a diagnostic report could not be sent.
pub fn automatic_upload_error_code(error: &ApplicationError) -> (code: String)
    ensures
        code@ == application_code(*error, "temporary_network_error"@),
{
    application_error_code(error, "temporary_network_error")
}

/// How long the panel asks to wait, where it does.
pub open spec fn retry_after(error: ApplicationError) -> Option<u64> {
    match error {
        ApplicationError::Api(CoreApiError::Rejected { retry_after_seconds, .. }) => {
            retry_after_seconds
        },
        ApplicationError::Core(
            CoreError::Api(CoreApiError::Rejected { retry_after_seconds, .. }),
        ) => retry_after_seconds,
        _ => None,
    }
}

pub fn error_retry_after_seconds(error: &ApplicationError) -> (seconds: Option<u64>)
    ensures
        seconds == retry_after(*error),
{
    match error {
        ApplicationError::Api(CoreApiError::Rejected { retry_after_seconds, .. }) => {
            *retry_after_seconds
        },
        ApplicationError::Core(
            CoreError::Api(CoreApiError::Rejected { retry_after_seconds, .. }),
        ) => *retry_after_seconds,
        _ => None,
    }
}

/// Whether an error is a refusal by the panel with a code and a message.
pub open spec fn is_rejection(
    error: ApplicationError,
    code: Seq<char>,
    message: Seq<char>,
) -> bool {
    error matches ApplicationError::Core(
        CoreError::Api(
            CoreApiError::Rejected { code: its_code, message: its_message, retry_after_seconds },
        ),
    ) && its_code@ == code && its_message@ == message && retry_after_seconds is None
}

pub fn rejection(code: &str, message: &str) -> (error: ApplicationError)
    ensures
        is_rejection(error, code@, message@),
{
    ApplicationError::Core(
        CoreError::Api(
            CoreApiError::Rejected {
                code: code.to_owned(),
                message: message.to_owned(),
                retry_after_seconds: None,
            },
        ),
    )
}

} // verus!
