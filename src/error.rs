use vstd::prelude::*;
use vstd::string::StringExecFns;
use crate::resolver::DeploymentMode;
use crate::waiter::{timeout_text, WaitTimeout};

verus! {

/// Why a supervision run failed. Every one of them ends the run.
pub enum SupervisionError {
    /// The interpreter's version check did not succeed.
    InterpreterMissing,
    /// The entry point that was computed does not exist.
    PathNotFound { path: String, mode: DeploymentMode },
    /// The application data directory could not be resolved.
    AppDirUnavailable,
    /// The worker could not be spawned; `reason` is the system's text.
    SpawnFailed { reason: String },
    /// The worker's port did not open before the deadline.
    ReadinessTimeout(WaitTimeout),
}

/// The failure text for an entry point `path` that does not exist.
pub open spec fn not_found_text(mode: DeploymentMode, path: Seq<char>) -> Seq<char> {
    match mode {
        DeploymentMode::Development => "Python script not found at development path: "@ + path,
        DeploymentMode::Packaged => "Python script not found at: "@ + path,
    }
}

/// The failure text for a worker whose port on `host` did not open in time.
pub open spec fn startup_timeout_text(host: Seq<char>, port: u16) -> Seq<char> {
    "Python server didn't start properly: "@ + timeout_text(host, port)
}

impl SupervisionError {
    /// The text written into the status record for this failure.
    pub open spec fn message_spec(&self) -> Seq<char> {
        match self {
            SupervisionError::InterpreterMissing =>
                "Python is not installed or not in PATH. Please install Python and try again."@,
            SupervisionError::PathNotFound { path, mode } => not_found_text(*mode, path@),
            SupervisionError::AppDirUnavailable => "Could not resolve app directory"@,
            SupervisionError::SpawnFailed { reason } => reason@,
            SupervisionError::ReadinessTimeout(t) => startup_timeout_text(t.host@, t.port),
        }
    }

    pub fn message(&self) -> (r: String)
        ensures
            r@ == self.message_spec(),
    {
        match self {
            SupervisionError::InterpreterMissing => String::from_str(
                "Python is not installed or not in PATH. Please install Python and try again.",
            ),
            SupervisionError::PathNotFound { path, mode } => {
                let mut s = match mode {
                    DeploymentMode::Development => String::from_str(
                        "Python script not found at development path: ",
                    ),
                    DeploymentMode::Packaged => String::from_str("Python script not found at: "),
                };
                s.append(path.as_str());
                s
            },
            SupervisionError::AppDirUnavailable => String::from_str("Could not resolve app directory"),
            SupervisionError::SpawnFailed { reason } => reason.clone(),
            SupervisionError::ReadinessTimeout(t) => {
                let mut s = String::from_str("Python server didn't start properly: ");
                let text = t.message();
                s.append(text.as_str());
                s
            },
        }
    }
}

} // verus!
