use backend_provision::errors::BackendError;
use backend_provision::install::{interpret_installer_outcome, plan_install, InstallStep, Provenance};
use backend_provision::setup::{
    initial_setup_state, next_action, setup_result, setup_step, SetupAction, SetupEvent,
    SetupState,
};

#[test]
fn fresh_environment_installs_and_starts() {
    // Fresh environment: no marker, bundled installer present, installer
    // exits 0. Install succeeds with the captured stdout in the summary,
    // and the marker the installer wrote makes the next probe report
    // installed.
    let plan = plan_install(false, true, false).unwrap();
    assert_eq!(
        plan,
        InstallStep::RunInstaller {
            provenance: Provenance::Bundled
        }
    );
    let summary = interpret_installer_outcome(true, "unpacked 42 files".to_string(), String::new())
        .unwrap();
    assert!(summary.contains("unpacked 42 files"));
    let after = plan_install(true, true, false).unwrap();
    assert!(matches!(after, InstallStep::AlreadyInstalled { .. }));

    // The auto-setup run drives the same sequence through the machine.
    let s0 = initial_setup_state();
    assert_eq!(next_action(&s0), Some(SetupAction::ProbeInstallation));
    let s1 = setup_step(s0, SetupEvent::Probed { result: Ok(false) });
    assert_eq!(s1, SetupState::Installing);
    assert_eq!(next_action(&s1), Some(SetupAction::RunInstaller));
    let s2 = setup_step(s1, SetupEvent::InstallCompleted { result: Ok(summary) });
    assert_eq!(s2, SetupState::Starting);
    assert_eq!(next_action(&s2), Some(SetupAction::StartWorker));
    let s3 = setup_step(
        s2,
        SetupEvent::StartCompleted {
            result: Ok("started".to_string()),
        },
    );
    assert_eq!(s3, SetupState::Started);
    assert_eq!(next_action(&s3), None);
    assert_eq!(
        setup_result(&s3),
        Some(Ok("Installation completed! Backend is now running.".to_string()))
    );
}

#[test]
fn missing_artifact_surfaces_and_never_starts() {
    // Marker absent, no installer artifact anywhere: install fails with
    // InstallerNotFound, and the auto-setup run surfaces that failure
    // without ever prescribing the start action.
    let install_err = plan_install(false, false, false).unwrap_err();
    assert_eq!(install_err, BackendError::InstallerNotFound);

    let s0 = initial_setup_state();
    let s1 = setup_step(s0, SetupEvent::Probed { result: Ok(false) });
    let s2 = setup_step(
        s1,
        SetupEvent::InstallCompleted {
            result: Err(install_err),
        },
    );
    assert_eq!(
        s2,
        SetupState::Failed {
            message: "Auto-installation failed: setup_installer.exe not found in bundled resources or exe directory"
                .to_string()
        }
    );
    assert_eq!(next_action(&s2), None);
    assert_eq!(
        setup_result(&s2),
        Some(Err(
            "Auto-installation failed: setup_installer.exe not found in bundled resources or exe directory"
                .to_string()
        ))
    );
}

#[test]
fn existing_installation_is_not_restarted() {
    let s0 = initial_setup_state();
    let s1 = setup_step(s0, SetupEvent::Probed { result: Ok(true) });
    assert_eq!(s1, SetupState::Installed);
    assert_eq!(next_action(&s1), None);
    assert_eq!(
        setup_result(&s1),
        Some(Ok(
            "Backend is installed and ready. Frontend will start the server.".to_string()
        ))
    );
}

#[test]
fn probe_failure_is_terminal() {
    let s0 = initial_setup_state();
    let s1 = setup_step(
        s0,
        SetupEvent::Probed {
            result: Err(BackendError::EnvironmentUnavailable),
        },
    );
    assert_eq!(
        s1,
        SetupState::Failed {
            message: "Failed to check backend status: Could not find local app data directory"
                .to_string()
        }
    );
    assert_eq!(next_action(&s1), None);
}

#[test]
fn start_failure_after_install_is_reported_with_context() {
    let s = setup_step(
        SetupState::Starting,
        SetupEvent::StartCompleted {
            result: Err(BackendError::NotInstalled),
        },
    );
    assert_eq!(
        s,
        SetupState::Failed {
            message: "Installation completed but failed to start backend: Backend not installed or startup script not found"
                .to_string()
        }
    );
}

#[test]
fn unexpected_event_leaves_state_unchanged() {
    let s = setup_step(
        SetupState::Checking,
        SetupEvent::InstallCompleted {
            result: Ok("noise".to_string()),
        },
    );
    assert_eq!(s, SetupState::Checking);
    let t = setup_step(
        SetupState::Started,
        SetupEvent::Probed { result: Ok(false) },
    );
    assert_eq!(t, SetupState::Started);
}
