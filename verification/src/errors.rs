//! The failure taxonomy of the provisioning layer, with a rendered
//! human-readable message for each variant. Every operation surfaces its
//! failure to the shell as that message string.

use vstd::prelude::*;

verus! {

/// Why a provisioning or supervision operation failed. Each variant is
/// terminal for the operation that raised it; none is retried.
#[derive(Debug, PartialEq, Eq)]
pub enum BackendError {
    /// The per-user data directory could not be resolved at all.
    EnvironmentUnavailable,
    /// No installer artifact exists in either candidate location.
    InstallerNotFound,
    /// An installer or package-manager step ran and reported failure.
    InstallationFailed { diagnostics: String },
    /// The system-level interpreter needed by the fallback install is not
    /// invocable; carries remediation text for the user.
    InterpreterUnavailable { remediation: String },
    /// The startup marker script is absent, so the worker cannot be started.
    NotInstalled,
    /// The private interpreter runtime is absent at the named path.
    RuntimeMissing { path: String },
    /// The worker's entry script is absent at the named path.
    EntryMissing { path: String },
    /// The child process could not be spawned; carries the spawn error text.
    ProcessSpawnFailed { cause: String },
}

/// The message shown to the shell for each failure.
pub open spec fn error_message(e: BackendError) -> Seq<char> {
    match e {
        BackendError::EnvironmentUnavailable => "Could not find local app data directory"@,
        BackendError::InstallerNotFound => "setup_installer.exe not found in bundled resources or exe directory"@,
        BackendError::InstallationFailed { diagnostics } => "Installation failed:\n"@ + diagnostics@,
        BackendError::InterpreterUnavailable { remediation } => remediation@,
        BackendError::NotInstalled => "Backend not installed or startup script not found"@,
        BackendError::RuntimeMissing { path } => "Python runtime not found at: "@ + path@,
        BackendError::EntryMissing { path } => "Backend not installed or app.py not found at: "@ + path@,
        BackendError::ProcessSpawnFailed { cause } => "Failed to start backend: "@ + cause@,
    }
}

impl BackendError {
    /// Renders the failure as the message the shell displays.
    pub fn message(&self) -> (r: String)
        ensures
            r@ == error_message(*self),
    {
        match self {
            BackendError::EnvironmentUnavailable => {
                String::from_str("Could not find local app data directory")
            },
            BackendError::InstallerNotFound => {
                String::from_str("setup_installer.exe not found in bundled resources or exe directory")
            },
            BackendError::InstallationFailed { diagnostics } => {
                String::from_str("Installation failed:\n").concat(diagnostics.as_str())
            },
            BackendError::InterpreterUnavailable { remediation } => remediation.clone(),
            BackendError::NotInstalled => {
                String::from_str("Backend not installed or startup script not found")
            },
            BackendError::RuntimeMissing { path } => {
                String::from_str("Python runtime not found at: ").concat(path.as_str())
            },
            BackendError::EntryMissing { path } => {
                String::from_str("Backend not installed or app.py not found at: ").concat(
                    path.as_str(),
                )
            },
            BackendError::ProcessSpawnFailed { cause } => {
                String::from_str("Failed to start backend: ").concat(cause.as_str())
            },
        }
    }
}

} // verus!
