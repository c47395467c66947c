//! What the application's window events mean for the backend.

use vstd::prelude::*;

verus! {

/// The window events that matter to the supervisor.
#[derive(Clone, Copy, Debug, PartialEq, Eq, Structural)]
pub enum WindowEvent {
    /// The user asked to close the window.
    CloseRequested,
    /// The window is gone.
    Destroyed,
    /// Anything else.
    Other,
}

/// What the shell does about a window event.
#[derive(Clone, Copy, Debug, PartialEq, Eq, Structural)]
pub enum WindowAction {
    /// Keep the application running in the background: hide the window and
    /// refuse the close.
    HideToBackground,
    /// Shut the backend down.
    StopSidecar,
    /// Nothing.
    Ignore,
}

/// A request to close only sends the application to the background. The
/// backend is shut down when the window is destroyed, and at no other
/// event.
pub open spec fn window_action_of(event: WindowEvent) -> WindowAction {
    match event {
        WindowEvent::CloseRequested => WindowAction::HideToBackground,
        WindowEvent::Destroyed => WindowAction::StopSidecar,
        WindowEvent::Other => WindowAction::Ignore,
    }
}

/// Decides what the shell does about a window event.
pub fn on_window_event(event: WindowEvent) -> (r: WindowAction)
    ensures
        r == window_action_of(event),
        r == WindowAction::StopSidecar <==> event == WindowEvent::Destroyed,
{
    match event {
        WindowEvent::CloseRequested => WindowAction::HideToBackground,
        WindowEvent::Destroyed => WindowAction::StopSidecar,
        WindowEvent::Other => WindowAction::Ignore,
    }
}

} // verus!
