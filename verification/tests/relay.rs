use sidecar_supervisor::lifecycle::{on_window_event, WindowAction, WindowEvent};
use sidecar_supervisor::relay::{
    relay_severity, relay_step, OutputStream, RelayAction, RelayEvent, Severity,
};

#[test]
fn stdout_lines_are_information() {
    assert_eq!(relay_severity(OutputStream::Stdout), Severity::Info);
    assert_eq!(
        relay_step(OutputStream::Stdout, RelayEvent::Line("listening on 18080".to_string())),
        RelayAction::Forward {
            severity: Severity::Info,
            message: "[SIDECAR] listening on 18080".to_string(),
        }
    );
}

#[test]
fn stderr_lines_are_errors() {
    assert_eq!(relay_severity(OutputStream::Stderr), Severity::Error);
    assert_eq!(
        relay_step(OutputStream::Stderr, RelayEvent::Line("migration failed".to_string())),
        RelayAction::Forward {
            severity: Severity::Error,
            message: "[SIDECAR] migration failed".to_string(),
        }
    );
}

#[test]
fn an_empty_line_is_still_forwarded() {
    assert_eq!(
        relay_step(OutputStream::Stdout, RelayEvent::Line(String::new())),
        RelayAction::Forward { severity: Severity::Info, message: "[SIDECAR] ".to_string() }
    );
}

#[test]
fn a_read_error_ends_the_relay() {
    assert_eq!(relay_step(OutputStream::Stdout, RelayEvent::ReadError), RelayAction::Stop);
    assert_eq!(relay_step(OutputStream::Stderr, RelayEvent::ReadError), RelayAction::Stop);
}

#[test]
fn a_closed_stream_ends_the_relay() {
    assert_eq!(relay_step(OutputStream::Stdout, RelayEvent::Closed), RelayAction::Stop);
    assert_eq!(relay_step(OutputStream::Stderr, RelayEvent::Closed), RelayAction::Stop);
}

#[test]
fn closing_the_window_keeps_the_backend() {
    assert_eq!(on_window_event(WindowEvent::CloseRequested), WindowAction::HideToBackground);
    assert_eq!(on_window_event(WindowEvent::Other), WindowAction::Ignore);
}

#[test]
fn destroying_the_window_stops_the_backend() {
    assert_eq!(on_window_event(WindowEvent::Destroyed), WindowAction::StopSidecar);
}
