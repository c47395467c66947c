use sidecar_supervisor::error::{LaunchError, QueryError};
use sidecar_supervisor::supervisor::{timeout_verdict, ExitPoll};

#[test]
fn message_of_port_exhaustion() {
    assert_eq!(LaunchError::NoFreePort.message(), "Failed to find available port");
}

#[test]
fn messages_of_directory_errors_are_the_systems_words() {
    let resolution =
        LaunchError::DirectoryResolution { reason: "unknown path".to_string() };
    assert_eq!(resolution.message(), "unknown path");
    let creation =
        LaunchError::DirectoryCreation { reason: "Permission denied (os error 13)".to_string() };
    assert_eq!(creation.message(), "Permission denied (os error 13)");
}

#[test]
fn message_of_a_sidecar_that_did_not_start() {
    let error = LaunchError::SpawnSidecar {
        path: "/opt/app/c3i-backup-one-server-x86_64-unknown-linux-gnu".to_string(),
        reason: "Permission denied (os error 13)".to_string(),
    };
    assert_eq!(
        error.message(),
        "Failed to spawn sidecar at \"/opt/app/c3i-backup-one-server-x86_64-unknown-linux-gnu\": Permission denied (os error 13)"
    );
}

#[test]
fn message_of_a_runtime_that_did_not_start() {
    let error =
        LaunchError::SpawnRuntime { reason: "No such file or directory (os error 2)".to_string() };
    assert_eq!(
        error.message(),
        "Failed to spawn bun server: No such file or directory (os error 2)"
    );
}

#[test]
fn message_of_an_exited_process_carries_the_status() {
    let error = LaunchError::ProcessExited { status: "exit status: 1".to_string() };
    assert_eq!(error.message(), "Backend process exited with status: exit status: 1");
}

#[test]
fn exit_code_137_shows_in_the_failure_message() {
    let error = timeout_verdict(ExitPoll::Exited { status: "exit status: 137".to_string() });
    assert_eq!(error, LaunchError::ProcessExited { status: "exit status: 137".to_string() });
    assert!(error.message().contains("137"));
    assert_eq!(error.message(), "Backend process exited with status: exit status: 137");
}

#[test]
fn a_living_process_is_reported_unresponsive() {
    let error = timeout_verdict(ExitPoll::Running);
    assert_eq!(error, LaunchError::Unresponsive);
    let message = error.message();
    assert_eq!(
        message,
        "Backend unresponsive within timeout - check logs directory for details"
    );
    assert!(message.contains("unresponsive"));
    assert!(message.contains("within timeout"));
    assert!(!message.contains("exited with status"));
}

#[test]
fn an_unknown_process_state_is_reported_unresponsive() {
    assert_eq!(timeout_verdict(ExitPoll::Unknown), LaunchError::Unresponsive);
}

#[test]
fn message_of_the_not_started_query_error() {
    assert_eq!(QueryError::NotStarted.message(), "Backend not started yet");
}
