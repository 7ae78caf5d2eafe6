//! The fixed on-disk layout of the installation, relative to the per-user
//! data directory. Presence of the startup marker script is the sole signal
//! for "installed"; every other path is derived from the install root. The
//! worker targets Windows hosts, so components join with a backslash.

use vstd::prelude::*;
use crate::errors::BackendError;

verus! {

/// The path separator used by the worker's host platform.
pub open spec fn path_sep() -> Seq<char> {
    "\\"@
}

/// The application's directory name under the per-user data root.
pub open spec fn app_dir_name() -> Seq<char> {
    "VisualPIIStripper"@
}

/// `base` extended by one path component.
pub open spec fn joined(base: Seq<char>, component: Seq<char>) -> Seq<char> {
    base + path_sep() + component
}

/// The install root: `<data-dir>\VisualPIIStripper`.
pub open spec fn spec_install_root(data_dir: Seq<char>) -> Seq<char> {
    joined(data_dir, app_dir_name())
}

/// The marker script whose existence means "installed":
/// `<root>\start_backend.bat`.
pub open spec fn spec_startup_script(root: Seq<char>) -> Seq<char> {
    joined(root, "start_backend.bat"@)
}

/// The worker's code directory: `<root>\backend`.
pub open spec fn spec_backend_dir(root: Seq<char>) -> Seq<char> {
    joined(root, "backend"@)
}

/// The private interpreter runtime directory: `<root>\python-runtime`.
pub open spec fn spec_runtime_dir(root: Seq<char>) -> Seq<char> {
    joined(root, "python-runtime"@)
}

/// The private interpreter executable: `<root>\python-runtime\python.exe`.
pub open spec fn spec_interpreter_path(root: Seq<char>) -> Seq<char> {
    joined(spec_runtime_dir(root), "python.exe"@)
}

/// The worker's entry script: `<root>\backend\app.py`.
pub open spec fn spec_entry_script(root: Seq<char>) -> Seq<char> {
    joined(spec_backend_dir(root), "app.py"@)
}

/// The fallback dependency manifest: `<root>\backend\requirements.txt`.
pub open spec fn spec_requirements_path(root: Seq<char>) -> Seq<char> {
    joined(spec_backend_dir(root), "requirements.txt"@)
}

/// The fallback virtual environment's package directory:
/// `<root>\venv\Lib\site-packages`.
pub open spec fn spec_venv_site_packages(root: Seq<char>) -> Seq<char> {
    joined(joined(joined(root, "venv"@), "Lib"@), "site-packages"@)
}

/// The bundled-resources directory beside the application binary:
/// `<exe-dir>\resources`.
pub open spec fn spec_resources_dir(exe_dir: Seq<char>) -> Seq<char> {
    joined(exe_dir, "resources"@)
}

/// The installer artifact's file name.
pub open spec fn installer_name() -> Seq<char> {
    "setup_installer.exe"@
}

/// The bundled installer candidate: `<exe-dir>\resources\setup_installer.exe`.
pub open spec fn spec_bundled_installer(exe_dir: Seq<char>) -> Seq<char> {
    joined(spec_resources_dir(exe_dir), installer_name())
}

/// The co-located installer candidate: `<exe-dir>\setup_installer.exe`.
pub open spec fn spec_colocated_installer(exe_dir: Seq<char>) -> Seq<char> {
    joined(exe_dir, installer_name())
}

/// Appends one path component to `base` with the platform separator.
pub fn join_path(base: &str, component: &str) -> (r: String)
    ensures
        r@ == joined(base@, component@),
{
    let mut s = String::from_str(base);
    s.append("\\");
    s.append(component);
    s
}

/// Resolves the install root under the per-user data directory.
pub fn install_root(data_dir: &str) -> (r: String)
    ensures
        r@ == spec_install_root(data_dir@),
{
    join_path(data_dir, "VisualPIIStripper")
}

/// The first step of every operation: the install root from the per-user
/// data directory, or `EnvironmentUnavailable` when the host could not
/// resolve that directory at all.
pub fn resolve_install_root(data_dir: Option<String>) -> (r: Result<String, BackendError>)
    ensures
        data_dir matches Some(d) ==> (r matches Ok(root) && root@ == spec_install_root(d@)),
        data_dir is None ==> (r matches Err(e) && e is EnvironmentUnavailable),
{
    match data_dir {
        Some(d) => Ok(install_root(d.as_str())),
        None => Err(BackendError::EnvironmentUnavailable),
    }
}

/// The marker script path under the install root.
pub fn startup_script_path(root: &str) -> (r: String)
    ensures
        r@ == spec_startup_script(root@),
{
    join_path(root, "start_backend.bat")
}

/// The worker code directory under the install root.
pub fn backend_dir_path(root: &str) -> (r: String)
    ensures
        r@ == spec_backend_dir(root@),
{
    join_path(root, "backend")
}

/// The private interpreter executable under the install root.
pub fn interpreter_path(root: &str) -> (r: String)
    ensures
        r@ == spec_interpreter_path(root@),
{
    let runtime_dir = join_path(root, "python-runtime");
    join_path(runtime_dir.as_str(), "python.exe")
}

/// The worker entry script under the install root.
pub fn entry_script_path(root: &str) -> (r: String)
    ensures
        r@ == spec_entry_script(root@),
{
    let backend = join_path(root, "backend");
    join_path(backend.as_str(), "app.py")
}

/// The fallback dependency manifest path under the install root.
pub fn requirements_path(root: &str) -> (r: String)
    ensures
        r@ == spec_requirements_path(root@),
{
    let backend = join_path(root, "backend");
    join_path(backend.as_str(), "requirements.txt")
}

/// The fallback virtual environment's package directory under the root.
pub fn venv_site_packages_path(root: &str) -> (r: String)
    ensures
        r@ == spec_venv_site_packages(root@),
{
    let venv = join_path(root, "venv");
    let lib = join_path(venv.as_str(), "Lib");
    join_path(lib.as_str(), "site-packages")
}

/// The bundled-resources directory beside the application binary.
pub fn resources_dir_path(exe_dir: &str) -> (r: String)
    ensures
        r@ == spec_resources_dir(exe_dir@),
{
    join_path(exe_dir, "resources")
}

/// The bundled installer candidate path.
pub fn bundled_installer_path(exe_dir: &str) -> (r: String)
    ensures
        r@ == spec_bundled_installer(exe_dir@),
{
    let resources = join_path(exe_dir, "resources");
    join_path(resources.as_str(), "setup_installer.exe")
}

/// The co-located installer candidate path.
pub fn colocated_installer_path(exe_dir: &str) -> (r: String)
    ensures
        r@ == spec_colocated_installer(exe_dir@),
{
    join_path(exe_dir, "setup_installer.exe")
}

} // verus!
