//! The first-run auto-setup state machine: probe the installation, install
//! when absent, then start the worker by the script-delegated variant. The
//! machine is driven one observed event at a time; the caller performs the
//! action each non-terminal state prescribes and feeds the outcome back.
//! A failure at any step is terminal and surfaces the step's message.

use vstd::prelude::*;
use crate::errors::{error_message, BackendError};

verus! {

/// The auto-setup run's state. `Installed`, `Started` and `Failed` are
/// terminal; the other states prescribe the next action.
#[derive(Debug, PartialEq, Eq)]
pub enum SetupState {
    /// Probing whether the worker is installed.
    Checking,
    /// The probe found no installation; the installer is to be run.
    Installing,
    /// Installation succeeded; the worker is to be started.
    Starting,
    /// The worker was already installed; starting it is left to the caller.
    Installed,
    /// Installation and start both succeeded.
    Started,
    /// A step failed; carries the message surfaced to the shell.
    Failed { message: String },
}

/// The outcome of the action a non-terminal state prescribed.
#[derive(Debug, PartialEq, Eq)]
pub enum SetupEvent {
    /// The installation probe finished.
    Probed { result: Result<bool, BackendError> },
    /// The install operation finished.
    InstallCompleted { result: Result<String, BackendError> },
    /// The script-delegated start finished.
    StartCompleted { result: Result<String, BackendError> },
}

/// The action a state prescribes.
#[derive(Debug, Clone, Copy, PartialEq, Eq, Structural)]
pub enum SetupAction {
    /// Probe for the startup marker.
    ProbeInstallation,
    /// Run the install operation.
    RunInstaller,
    /// Start the worker via the startup script.
    StartWorker,
}

/// The context wrapped around a failed probe's message.
pub open spec fn probe_failure_prefix() -> Seq<char> {
    "Failed to check backend status: "@
}

/// The context wrapped around a failed install's message.
pub open spec fn install_failure_prefix() -> Seq<char> {
    "Auto-installation failed: "@
}

/// The context wrapped around a start failure after a successful install.
pub open spec fn start_failure_prefix() -> Seq<char> {
    "Installation completed but failed to start backend: "@
}

/// The status text when the probe found an existing installation.
pub open spec fn already_installed_text() -> Seq<char> {
    "Backend is installed and ready. Frontend will start the server."@
}

/// The status text when install and start both succeeded.
pub open spec fn setup_complete_text() -> Seq<char> {
    "Installation completed! Backend is now running."@
}

/// The exact transition relation of the machine. An event that does not
/// answer the pending state's action leaves the state unchanged.
pub open spec fn setup_transition(pre: SetupState, event: SetupEvent, post: SetupState) -> bool {
    match (pre, event) {
        (SetupState::Checking, SetupEvent::Probed { result }) => match result {
            Ok(true) => post is Installed,
            Ok(false) => post is Installing,
            Err(e) => post matches SetupState::Failed { message } && message@
                == probe_failure_prefix() + error_message(e),
        },
        (SetupState::Installing, SetupEvent::InstallCompleted { result }) => match result {
            Ok(_) => post is Starting,
            Err(e) => post matches SetupState::Failed { message } && message@
                == install_failure_prefix() + error_message(e),
        },
        (SetupState::Starting, SetupEvent::StartCompleted { result }) => match result {
            Ok(_) => post is Started,
            Err(e) => post matches SetupState::Failed { message } && message@
                == start_failure_prefix() + error_message(e),
        },
        (pre, _) => post == pre,
    }
}

/// The action each state prescribes; terminal states prescribe none.
pub open spec fn spec_next_action(state: SetupState) -> Option<SetupAction> {
    match state {
        SetupState::Checking => Some(SetupAction::ProbeInstallation),
        SetupState::Installing => Some(SetupAction::RunInstaller),
        SetupState::Starting => Some(SetupAction::StartWorker),
        _ => None,
    }
}

/// The state every auto-setup run begins in.
pub fn initial_setup_state() -> (r: SetupState)
    ensures
        r is Checking,
{
    SetupState::Checking
}

/// The action the caller must perform next, or `None` once the run is over.
pub fn next_action(state: &SetupState) -> (r: Option<SetupAction>)
    ensures
        r == spec_next_action(*state),
{
    match state {
        SetupState::Checking => Some(SetupAction::ProbeInstallation),
        SetupState::Installing => Some(SetupAction::RunInstaller),
        SetupState::Starting => Some(SetupAction::StartWorker),
        SetupState::Installed => None,
        SetupState::Started => None,
        SetupState::Failed { .. } => None,
    }
}

/// Advances the machine by one observed event.
pub fn setup_step(state: SetupState, event: SetupEvent) -> (next: SetupState)
    ensures
        setup_transition(state, event, next),
{
    match (state, event) {
        (SetupState::Checking, SetupEvent::Probed { result }) => match result {
            Ok(true) => SetupState::Installed,
            Ok(false) => SetupState::Installing,
            Err(e) => {
                let mut message = String::from_str("Failed to check backend status: ");
                let detail = e.message();
                message.append(detail.as_str());
                SetupState::Failed { message }
            },
        },
        (SetupState::Installing, SetupEvent::InstallCompleted { result }) => match result {
            Ok(_) => SetupState::Starting,
            Err(e) => {
                let mut message = String::from_str("Auto-installation failed: ");
                let detail = e.message();
                message.append(detail.as_str());
                SetupState::Failed { message }
            },
        },
        (SetupState::Starting, SetupEvent::StartCompleted { result }) => match result {
            Ok(_) => SetupState::Started,
            Err(e) => {
                let mut message = String::from_str(
                    "Installation completed but failed to start backend: ",
                );
                let detail = e.message();
                message.append(detail.as_str());
                SetupState::Failed { message }
            },
        },
        (other, _) => other,
    }
}

/// The run's result once a terminal state is reached: the ready message when
/// the worker was already installed, the completion message after a
/// successful install-and-start, the failure message otherwise.
pub fn setup_result(state: &SetupState) -> (r: Option<Result<String, String>>)
    ensures
        state is Installed ==> (r matches Some(out) && out matches Ok(text) && text@
            == already_installed_text()),
        state is Started ==> (r matches Some(out) && out matches Ok(text) && text@
            == setup_complete_text()),
        state matches SetupState::Failed { message } ==> (r matches Some(out) && out
            matches Err(text) && text@ == message@),
        spec_next_action(*state) is Some ==> r is None,
{
    match state {
        SetupState::Installed => Some(
            Ok(String::from_str("Backend is installed and ready. Frontend will start the server.")),
        ),
        SetupState::Started => Some(
            Ok(String::from_str("Installation completed! Backend is now running.")),
        ),
        SetupState::Failed { message } => Some(Err(message.clone())),
        SetupState::Checking => None,
        SetupState::Installing => None,
        SetupState::Starting => None,
    }
}

/// Law: a run whose probe finds no installation and whose install step fails
/// because no installer artifact exists ends in `Failed` carrying the
/// wrapped installer-not-found message, and prescribes no further action —
/// in particular, the start step is never reached.
pub proof fn lemma_missing_artifact_halts_setup(s1: SetupState, s2: SetupState, e: BackendError)
    requires
        e is InstallerNotFound,
        setup_transition(
            SetupState::Checking,
            SetupEvent::Probed { result: Ok(false) },
            s1,
        ),
        setup_transition(s1, SetupEvent::InstallCompleted { result: Err(e) }, s2),
    ensures
        s1 is Installing,
        s2 matches SetupState::Failed { message } && message@ == install_failure_prefix()
            + error_message(e),
        spec_next_action(s2) is None,
{
}

/// Law: once any step has failed, the machine stays in `Failed` whatever
/// event arrives, with the message unchanged.
pub proof fn lemma_failure_is_terminal(pre: SetupState, event: SetupEvent, post: SetupState)
    requires
        pre is Failed,
        setup_transition(pre, event, post),
    ensures
        post == pre,
        spec_next_action(post) is None,
{
}

} // verus!
