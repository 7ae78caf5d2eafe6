use backend_provision::errors::BackendError;
use backend_provision::greet;
use backend_provision::paths::{
    backend_dir_path, bundled_installer_path, colocated_installer_path, entry_script_path,
    install_root, interpreter_path, join_path, requirements_path, resolve_install_root,
    resources_dir_path, startup_script_path, venv_site_packages_path,
};

const DATA: &str = "C:\\Users\\u\\AppData\\Local";

#[test]
fn install_root_under_data_dir() {
    assert_eq!(install_root(DATA), format!("{}\\VisualPIIStripper", DATA));
}

#[test]
fn fixed_relative_layout() {
    let root = install_root(DATA);
    assert_eq!(
        startup_script_path(&root),
        format!("{}\\start_backend.bat", root)
    );
    assert_eq!(backend_dir_path(&root), format!("{}\\backend", root));
    assert_eq!(
        interpreter_path(&root),
        format!("{}\\python-runtime\\python.exe", root)
    );
    assert_eq!(
        entry_script_path(&root),
        format!("{}\\backend\\app.py", root)
    );
    assert_eq!(
        requirements_path(&root),
        format!("{}\\backend\\requirements.txt", root)
    );
    assert_eq!(
        venv_site_packages_path(&root),
        format!("{}\\venv\\Lib\\site-packages", root)
    );
}

#[test]
fn installer_candidate_locations() {
    let exe_dir = "C:\\Program Files\\App";
    assert_eq!(
        resources_dir_path(exe_dir),
        "C:\\Program Files\\App\\resources"
    );
    assert_eq!(
        bundled_installer_path(exe_dir),
        "C:\\Program Files\\App\\resources\\setup_installer.exe"
    );
    assert_eq!(
        colocated_installer_path(exe_dir),
        "C:\\Program Files\\App\\setup_installer.exe"
    );
}

#[test]
fn join_appends_one_component() {
    assert_eq!(join_path("a", "b"), "a\\b");
    assert_eq!(join_path("", "b"), "\\b");
}

#[test]
fn resolving_the_root_needs_a_data_dir() {
    let ok = resolve_install_root(Some(DATA.to_string())).unwrap();
    assert_eq!(ok, format!("{}\\VisualPIIStripper", DATA));
    let err = resolve_install_root(None).unwrap_err();
    assert_eq!(err, BackendError::EnvironmentUnavailable);
    assert_eq!(err.message(), "Could not find local app data directory");
}

#[test]
fn greeting_text() {
    assert_eq!(
        greet("Ada"),
        "Hello, Ada! You've been greeted from Rust!"
    );
}
