//! Launch planning for the worker process. Three start variants share this
//! logic: a script-delegated start that only needs the startup marker, and
//! two direct starts (with and without log streaming) that need the private
//! interpreter runtime and the entry script. The preconditions are checked
//! in a fixed order — runtime before entry script — and each failure names
//! the exact path that was expected.

use vstd::prelude::*;
use crate::errors::BackendError;
use crate::numbers::{decimal_digits, format_u32};
use crate::paths::{
    backend_dir_path,
    entry_script_path,
    interpreter_path,
    spec_backend_dir,
    spec_entry_script,
    spec_interpreter_path,
};

verus! {

/// The resolved configuration for a direct worker start. Constructed only
/// when both the interpreter and the entry script were observed on disk.
#[derive(Debug, PartialEq, Eq)]
pub struct LaunchSpec {
    /// The private interpreter executable to invoke.
    pub interpreter: String,
    /// The entry script handed to the interpreter as its argument.
    pub entry_script: String,
    /// The worker's working directory (the backend code directory).
    pub working_dir: String,
    /// The value of the install-directory environment variable.
    pub install_dir_value: String,
    /// The composed module-search-path environment value.
    pub module_search_path: String,
}

/// The environment variable naming the install root for the worker.
pub fn install_dir_var() -> (r: &'static str)
    ensures
        r@ == "VISUAL_PII_INSTALL_DIR"@,
{
    "VISUAL_PII_INSTALL_DIR"
}

/// The module-search-path environment variable of the worker's interpreter.
pub fn module_search_path_var() -> (r: &'static str)
    ensures
        r@ == "PYTHONPATH"@,
{
    "PYTHONPATH"
}

/// The composed module-search-path value: the backend directory, the list
/// separator, then the inherited value.
pub open spec fn spec_module_search_path(backend_dir: Seq<char>, inherited: Option<Seq<char>>)
    -> Seq<char> {
    match inherited {
        Some(x) => backend_dir + ";"@ + x,
        None => backend_dir + ";"@,
    }
}

/// Composes the worker's module-search-path value. The backend directory is
/// prepended to the inherited value; an existing value is preserved in full,
/// never overwritten.
pub fn compose_module_search_path(backend_dir: &str, inherited: Option<String>) -> (r: String)
    ensures
        inherited matches Some(x) ==> r@ == backend_dir@ + ";"@ + x@,
        inherited is None ==> r@ == backend_dir@ + ";"@,
{
    let mut s = String::from_str(backend_dir);
    s.append(";");
    match inherited {
        Some(x) => {
            s.append(x.as_str());
        },
        None => {},
    }
    s
}

/// Gatekeeps the script-delegated start: the startup marker script must
/// exist, else the worker is not installed.
pub fn plan_script_start(marker_exists: bool) -> (r: Result<(), BackendError>)
    ensures
        marker_exists <==> r is Ok,
        !marker_exists ==> (r matches Err(e) && e is NotInstalled),
{
    if marker_exists {
        Ok(())
    } else {
        Err(BackendError::NotInstalled)
    }
}

/// Plans a direct start from the install root and the two existence
/// observations. The runtime is checked before the entry script; each
/// failure names the path that was expected. On success the returned
/// `LaunchSpec` fixes the command, working directory and environment
/// overlay exactly.
pub fn plan_direct_launch(
    install_root: &str,
    runtime_exists: bool,
    entry_exists: bool,
    inherited_module_path: Option<String>,
) -> (r: Result<LaunchSpec, BackendError>)
    ensures
        !runtime_exists ==> (r matches Err(e) && e matches BackendError::RuntimeMissing { path }
            && path@ == spec_interpreter_path(install_root@)),
        runtime_exists && !entry_exists ==> (r matches Err(e) && e
            matches BackendError::EntryMissing { path } && path@ == spec_entry_script(
            install_root@,
        )),
        runtime_exists && entry_exists ==> (r matches Ok(spec) && spec.interpreter@
            == spec_interpreter_path(install_root@) && spec.entry_script@ == spec_entry_script(
            install_root@,
        ) && spec.working_dir@ == spec_backend_dir(install_root@) && spec.install_dir_value@
            == install_root@ && spec.module_search_path@ == spec_module_search_path(
            spec_backend_dir(install_root@),
            match inherited_module_path {
                Some(x) => Some(x@),
                None => None,
            },
        )),
{
    let interpreter = interpreter_path(install_root);
    let entry = entry_script_path(install_root);
    if !runtime_exists {
        return Err(BackendError::RuntimeMissing { path: interpreter });
    }
    if !entry_exists {
        return Err(BackendError::EntryMissing { path: entry });
    }
    let backend = backend_dir_path(install_root);
    let module_search_path = compose_module_search_path(backend.as_str(), inherited_module_path);
    Ok(
        LaunchSpec {
            interpreter,
            entry_script: entry,
            working_dir: backend,
            install_dir_value: String::from_str(install_root),
            module_search_path,
        },
    )
}

/// The status text returned by the script-delegated start.
pub fn script_start_message() -> (r: String)
    ensures
        r@ == "Backend started successfully using start_backend.bat"@,
{
    String::from_str("Backend started successfully using start_backend.bat")
}

/// The status text returned by the streaming direct start, naming the PID.
pub fn streaming_start_message(pid: u32) -> (r: String)
    ensures
        r@ == "Backend started with log streaming (PID: "@ + decimal_digits(pid as nat) + ")"@,
{
    let mut s = String::from_str("Backend started with log streaming (PID: ");
    let digits = format_u32(pid);
    s.append(digits.as_str());
    s.append(")");
    s
}

/// The status text returned by the non-streaming direct start, naming the
/// PID.
pub fn direct_start_message(pid: u32) -> (r: String)
    ensures
        r@ == "Backend started using installed Python runtime (PID: "@ + decimal_digits(
            pid as nat,
        ) + ")"@,
{
    let mut s = String::from_str("Backend started using installed Python runtime (PID: ");
    let digits = format_u32(pid);
    s.append(digits.as_str());
    s.append(")");
    s
}

} // verus!
