use backend_provision::errors::BackendError;
use backend_provision::launch::{
    compose_module_search_path, direct_start_message, install_dir_var, module_search_path_var,
    plan_direct_launch, plan_script_start, script_start_message, streaming_start_message,
};
use backend_provision::numbers::format_u32;

const ROOT: &str = "C:\\Users\\u\\AppData\\Local\\VisualPIIStripper";

#[test]
fn runtime_checked_before_entry_script() {
    // The runtime precondition is checked first, even with the entry present.
    let err = plan_direct_launch(ROOT, false, true, None).unwrap_err();
    assert_eq!(
        err,
        BackendError::RuntimeMissing {
            path: format!("{}\\python-runtime\\python.exe", ROOT)
        }
    );
    assert_eq!(
        err.message(),
        format!(
            "Python runtime not found at: {}\\python-runtime\\python.exe",
            ROOT
        )
    );
}

#[test]
fn entry_checked_after_runtime() {
    let err = plan_direct_launch(ROOT, true, false, None).unwrap_err();
    assert_eq!(
        err,
        BackendError::EntryMissing {
            path: format!("{}\\backend\\app.py", ROOT)
        }
    );
    assert_eq!(
        err.message(),
        format!("Backend not installed or app.py not found at: {}\\backend\\app.py", ROOT)
    );
}

#[test]
fn launch_spec_is_fully_determined() {
    let spec = plan_direct_launch(ROOT, true, true, Some("C:\\extra".to_string())).unwrap();
    assert_eq!(spec.interpreter, format!("{}\\python-runtime\\python.exe", ROOT));
    assert_eq!(spec.entry_script, format!("{}\\backend\\app.py", ROOT));
    assert_eq!(spec.working_dir, format!("{}\\backend", ROOT));
    assert_eq!(spec.install_dir_value, ROOT);
    assert_eq!(
        spec.module_search_path,
        format!("{}\\backend;C:\\extra", ROOT)
    );
}

#[test]
fn module_search_path_preserves_inherited_value() {
    // An inherited value X becomes `<backend-dir>;X`, nothing dropped.
    let composed = compose_module_search_path("D:\\app\\backend", Some("X".to_string()));
    assert_eq!(composed, "D:\\app\\backend;X");
    let long = compose_module_search_path(
        "D:\\app\\backend",
        Some("C:\\one;C:\\two".to_string()),
    );
    assert_eq!(long, "D:\\app\\backend;C:\\one;C:\\two");
}

#[test]
fn module_search_path_without_inherited_value() {
    let composed = compose_module_search_path("D:\\app\\backend", None);
    assert_eq!(composed, "D:\\app\\backend;");
}

#[test]
fn script_start_needs_marker() {
    assert_eq!(
        plan_script_start(false).unwrap_err(),
        BackendError::NotInstalled
    );
    assert!(plan_script_start(true).is_ok());
}

#[test]
fn start_status_messages() {
    assert_eq!(
        script_start_message(),
        "Backend started successfully using start_backend.bat"
    );
    assert_eq!(
        streaming_start_message(4242),
        "Backend started with log streaming (PID: 4242)"
    );
    assert_eq!(
        direct_start_message(7),
        "Backend started using installed Python runtime (PID: 7)"
    );
}

#[test]
fn environment_variable_names() {
    assert_eq!(install_dir_var(), "VISUAL_PII_INSTALL_DIR");
    assert_eq!(module_search_path_var(), "PYTHONPATH");
}

#[test]
fn decimal_rendering() {
    assert_eq!(format_u32(0), "0");
    assert_eq!(format_u32(9), "9");
    assert_eq!(format_u32(10), "10");
    assert_eq!(format_u32(12345), "12345");
    assert_eq!(format_u32(4294967295), "4294967295");
}
