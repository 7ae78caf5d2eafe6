//! Install-vs-skip decisions and installer-outcome interpretation. The
//! caller probes the filesystem and runs child processes; the functions here
//! take those observations and return the exact decision or result the
//! operation must produce.
//!
//! Install is idempotent: when the startup marker already exists the plan is
//! to do nothing and report the existing installation. Otherwise the two
//! installer-artifact locations are considered in a fixed order, bundled
//! resources first, co-located second; the first existing one wins.

use vstd::prelude::*;
use crate::errors::BackendError;

verus! {

/// Where a located installer artifact came from.
#[derive(Debug, Clone, Copy, PartialEq, Eq, Structural)]
pub enum Provenance {
    /// Found in the bundled-resources subdirectory beside the binary.
    Bundled,
    /// Found directly beside the binary.
    CoLocated,
}

/// What the install operation must do next.
#[derive(Debug, PartialEq, Eq)]
pub enum InstallStep {
    /// The marker already exists: report success, touch nothing.
    AlreadyInstalled { summary: String },
    /// Execute the located installer artifact.
    RunInstaller { provenance: Provenance },
}

/// The summary returned when an existing installation is found.
pub open spec fn existing_install_text() -> Seq<char> {
    "Backend installation found. If you're having issues, please run the setup_installer.exe manually."@
}

/// The success banner prepended to the installer's captured output.
pub open spec fn install_success_banner() -> Seq<char> {
    "Installation completed successfully!\n"@
}

/// Decides the install step from the three filesystem observations: whether
/// the startup marker exists, and whether each installer candidate exists.
/// An existing marker short-circuits to success with no action; otherwise
/// the bundled artifact is preferred over the co-located one; with neither,
/// the operation fails.
pub fn plan_install(marker_exists: bool, bundled_exists: bool, colocated_exists: bool) -> (r:
    Result<InstallStep, BackendError>)
    ensures
        marker_exists ==> (r matches Ok(step) && step matches InstallStep::AlreadyInstalled {
            summary,
        } && summary@ == existing_install_text()),
        !marker_exists && bundled_exists ==> (r matches Ok(step) && step
            matches InstallStep::RunInstaller { provenance } && provenance is Bundled),
        !marker_exists && !bundled_exists && colocated_exists ==> (r matches Ok(step) && step
            matches InstallStep::RunInstaller { provenance } && provenance is CoLocated),
        !marker_exists && !bundled_exists && !colocated_exists ==> (r matches Err(e) && e
            is InstallerNotFound),
{
    if marker_exists {
        Ok(
            InstallStep::AlreadyInstalled {
                summary: String::from_str(
                    "Backend installation found. If you're having issues, please run the setup_installer.exe manually.",
                ),
            },
        )
    } else if bundled_exists {
        Ok(InstallStep::RunInstaller { provenance: Provenance::Bundled })
    } else if colocated_exists {
        Ok(InstallStep::RunInstaller { provenance: Provenance::CoLocated })
    } else {
        Err(BackendError::InstallerNotFound)
    }
}

/// Interprets the installer artifact's exit: success yields a summary that
/// carries the captured standard output under a fixed banner; failure yields
/// `InstallationFailed` carrying the captured standard error.
pub fn interpret_installer_outcome(success: bool, stdout: String, stderr: String) -> (r: Result<
    String,
    BackendError,
>)
    ensures
        success ==> (r matches Ok(summary) && summary@ == install_success_banner() + stdout@),
        !success ==> (r matches Err(e) && e matches BackendError::InstallationFailed {
            diagnostics,
        } && diagnostics@ == stderr@),
{
    if success {
        Ok(String::from_str("Installation completed successfully!\n").concat(stdout.as_str()))
    } else {
        Err(BackendError::InstallationFailed { diagnostics: stderr })
    }
}

/// The remediation shown when the system interpreter is not invocable.
pub open spec fn interpreter_remediation_text() -> Seq<char> {
    "Python not found on system. Please either:\n1. Install Python from python.org, or\n2. Place setup_installer.exe in the same directory as this application\n3. Restart this application after installation"@
}

/// Gatekeeps the fallback direct install: it may proceed only when the
/// system interpreter answered a version probe.
pub fn plan_direct_install(interpreter_available: bool) -> (r: Result<(), BackendError>)
    ensures
        interpreter_available <==> r is Ok,
        !interpreter_available ==> (r matches Err(e) && e
            matches BackendError::InterpreterUnavailable { remediation } && remediation@
            == interpreter_remediation_text()),
{
    if interpreter_available {
        Ok(())
    } else {
        Err(
            BackendError::InterpreterUnavailable {
                remediation: String::from_str(
                    "Python not found on system. Please either:\n1. Install Python from python.org, or\n2. Place setup_installer.exe in the same directory as this application\n3. Restart this application after installation",
                ),
            },
        )
    }
}

/// The fixed dependency manifest the fallback install materialises.
pub open spec fn requirements_text() -> Seq<char> {
    "flask==2.3.3\nflask-cors==4.0.0\npaddlepaddle==2.5.2\npaddleocr==2.7.0.3\nopencv-python==4.8.1.78\nPillow==10.0.1\nnumpy==1.24.4\ntransformers==4.35.2\ntorch==2.1.1\ninsightface==0.7.3\nonnxruntime==1.16.3\n"@
}

/// Produces the dependency manifest written to
/// `<root>\backend\requirements.txt` by the fallback install.
pub fn requirements_manifest() -> (r: String)
    ensures
        r@ == requirements_text(),
{
    String::from_str(
        "flask==2.3.3\nflask-cors==4.0.0\npaddlepaddle==2.5.2\npaddleocr==2.7.0.3\nopencv-python==4.8.1.78\nPillow==10.0.1\nnumpy==1.24.4\ntransformers==4.35.2\ntorch==2.1.1\ninsightface==0.7.3\nonnxruntime==1.16.3\n",
    )
}

/// The summary returned when the fallback package install succeeds.
pub open spec fn direct_install_success_text() -> Seq<char> {
    "Basic backend installation completed using system Python. Some features may require manual setup."@
}

/// Interprets the package-installer's exit for the fallback install:
/// success yields the fixed summary; failure yields `InstallationFailed`
/// carrying the captured standard error.
pub fn interpret_package_install_outcome(success: bool, stderr: String) -> (r: Result<
    String,
    BackendError,
>)
    ensures
        success ==> (r matches Ok(summary) && summary@ == direct_install_success_text()),
        !success ==> (r matches Err(e) && e matches BackendError::InstallationFailed {
            diagnostics,
        } && diagnostics@ == stderr@),
{
    if success {
        Ok(
            String::from_str(
                "Basic backend installation completed using system Python. Some features may require manual setup.",
            ),
        )
    } else {
        Err(BackendError::InstallationFailed { diagnostics: stderr })
    }
}

} // verus!
