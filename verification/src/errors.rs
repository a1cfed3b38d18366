//! The failure taxonomy shared by the supervisor and the gateway, the text
//! each failure carries, and the classifier that turns a failure message
//! into an HTTP status and a diagnostic stage tag.

use vstd::prelude::*;
use crate::text::{contains_seq, contains_str, dec_digits, lower, starts_with, starts_with_str, to_ascii_lower, u64_to_string};

verus! {

/// Everything that can go wrong between the gateway and the backend.
#[derive(Debug, Clone)]
pub enum IpcError {
    /// No backend connection exists.
    NotInitialized,
    /// The data directory was missing at initialization.
    DataNotFound { path: String },
    /// The backend executable was missing at initialization.
    ExecutableNotFound { path: String },
    /// The process could not be started; the detail is the launcher's report.
    SpawnFailure { detail: String },
    /// The process exited immediately after the spawn.
    StartupFailure { status: String },
    /// A response line was not a well-formed envelope; `raw` is the
    /// offending text.
    ProtocolCorruption { detail: String, raw: String },
    /// A well-formed envelope carried an error status with this message.
    BackendReported { message: String },
    /// Every send attempt failed; `detail` is the last underlying failure.
    CommandFailed { attempts: u64, detail: String },
    /// A send failed and no launch config was on record to recover with.
    NotRecoverable { detail: String },
    /// An `ok` envelope carried a payload without the expected fields.
    InvalidPayload { what: String },
    /// The gateway rejected a request before any command was issued.
    ParameterValidation { message: String },
    /// The request path classifies to no route.
    UnknownEndpoint { path: String },
}

/// The diagnostic text of a protocol-corruption failure, over the parse
/// detail and the raw offending line.
pub open spec fn corruption_text(detail: Seq<char>, raw: Seq<char>) -> Seq<char> {
    "Invalid IPC JSON response: "@ + detail + " (raw: "@ + raw + ")"@
}

/// The diagnostic text of each failure.
pub open spec fn error_text(e: IpcError) -> Seq<char> {
    match e {
        IpcError::NotInitialized => "IPC not initialized"@,
        IpcError::DataNotFound { path } => "Data directory not found: "@ + path@,
        IpcError::ExecutableNotFound { path } => "Executable not found: "@ + path@,
        IpcError::SpawnFailure { detail } => "Failed to spawn motis-ipc: "@ + detail@,
        IpcError::StartupFailure { status } => "motis-ipc exited immediately (status: "@
            + status@ + "). Check executable compatibility and startup logs."@,
        IpcError::ProtocolCorruption { detail, raw } => corruption_text(detail@, raw@),
        IpcError::BackendReported { message } => message@,
        IpcError::CommandFailed { attempts, detail } => "IPC command failed after "@
            + dec_digits(attempts as nat) + " attempts: "@ + detail@,
        IpcError::NotRecoverable { detail } => "IPC recovery failed after command error: "@
            + detail@,
        IpcError::InvalidPayload { what } => what@,
        IpcError::ParameterValidation { message } => message@,
        IpcError::UnknownEndpoint { path } => "Unknown endpoint: "@ + path@,
    }
}

impl IpcError {
    /// Render the failure as the diagnostic string the gateway reports.
    pub fn message(&self) -> (r: String)
        ensures
            r@ == error_text(*self),
    {
        match self {
            IpcError::NotInitialized => {
                let mut s = String::new();
                s.append("IPC not initialized");
                s
            },
            IpcError::DataNotFound { path } => {
                let mut s = String::new();
                s.append("Data directory not found: ");
                s.append(path.as_str());
                s
            },
            IpcError::ExecutableNotFound { path } => {
                let mut s = String::new();
                s.append("Executable not found: ");
                s.append(path.as_str());
                s
            },
            IpcError::SpawnFailure { detail } => {
                let mut s = String::new();
                s.append("Failed to spawn motis-ipc: ");
                s.append(detail.as_str());
                s
            },
            IpcError::StartupFailure { status } => {
                let mut s = String::new();
                s.append("motis-ipc exited immediately (status: ");
                s.append(status.as_str());
                s.append("). Check executable compatibility and startup logs.");
                s
            },
            IpcError::ProtocolCorruption { detail, raw } => {
                let mut s = String::new();
                s.append("Invalid IPC JSON response: ");
                s.append(detail.as_str());
                s.append(" (raw: ");
                s.append(raw.as_str());
                s.append(")");
                s
            },
            IpcError::BackendReported { message } => message.clone(),
            IpcError::CommandFailed { attempts, detail } => {
                let mut s = String::new();
                s.append("IPC command failed after ");
                let n = u64_to_string(*attempts);
                s.append(n.as_str());
                s.append(" attempts: ");
                s.append(detail.as_str());
                s
            },
            IpcError::NotRecoverable { detail } => {
                let mut s = String::new();
                s.append("IPC recovery failed after command error: ");
                s.append(detail.as_str());
                s
            },
            IpcError::InvalidPayload { what } => what.clone(),
            IpcError::ParameterValidation { message } => message.clone(),
            IpcError::UnknownEndpoint { path } => {
                let mut s = String::new();
                s.append("Unknown endpoint: ");
                s.append(path.as_str());
                s
            },
        }
    }
}

/// The status/stage pair assigned to a failure message: an
/// "unknown endpoint:" prefix means the route does not exist;
/// initialization vocabulary means the backend is unavailable; transport
/// vocabulary means the channel to the backend broke; anything else is an
/// unexpected endpoint failure.  Matching is case-insensitive.
pub open spec fn error_class_of(msg: Seq<char>) -> (u16, Seq<char>) {
    let low = lower(msg);
    if starts_with(low, "unknown endpoint:"@) {
        (404, "endpoint"@)
    } else if contains_seq(low, "initialization"@) || contains_seq(low, "not initialized"@)
        || contains_seq(low, "data directory"@) || contains_seq(low, "motis_data_path"@)
        || contains_seq(low, "config.yml"@) {
        (503, "initialization"@)
    } else if contains_seq(low, "ipc"@) || contains_seq(low, "motis-ipc"@)
        || contains_seq(low, "broken pipe"@) || contains_seq(low, "unexpected eof"@) {
        (502, "ipc"@)
    } else {
        (500, "endpoint"@)
    }
}

/// Assign an HTTP status code and a stage tag to a failure message.
pub fn classify_error(error: &str) -> (r: (u16, &'static str))
    ensures
        r.0 == error_class_of(error@).0,
        r.1@ == error_class_of(error@).1,
{
    let low = to_ascii_lower(error);
    let l = low.as_str();
    if starts_with_str(l, "unknown endpoint:") {
        (404, "endpoint")
    } else if contains_str(l, "initialization") || contains_str(l, "not initialized")
        || contains_str(l, "data directory") || contains_str(l, "motis_data_path")
        || contains_str(l, "config.yml") {
        (503, "initialization")
    } else if contains_str(l, "ipc") || contains_str(l, "motis-ipc")
        || contains_str(l, "broken pipe") || contains_str(l, "unexpected eof") {
        (502, "ipc")
    } else {
        (500, "endpoint")
    }
}

} // verus!
