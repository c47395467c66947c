//! The output relay: what becomes of each line that the child process
//! writes, and when a relay ends.

use crate::text::followed_by;
use vstd::prelude::*;
use vstd::string::*;

verus! {

/// The output stream of the child process that a relay drains.
#[derive(Clone, Copy, Debug, PartialEq, Eq, Structural)]
pub enum OutputStream {
    Stdout,
    Stderr,
}

/// The severity under which a line enters the application's log.
#[derive(Clone, Copy, Debug, PartialEq, Eq, Structural)]
pub enum Severity {
    Info,
    Error,
}

/// What a relay's reader came up with.
#[derive(Clone, Debug, PartialEq, Eq)]
pub enum RelayEvent {
    /// One line of text, without its line ending.
    Line(String),
    /// Reading failed.
    ReadError,
    /// The stream is closed.
    Closed,
}

/// What a relay does next.
#[derive(Clone, Debug, PartialEq, Eq)]
pub enum RelayAction {
    /// Write `message` to the log under `severity` and read on.
    Forward { severity: Severity, message: String },
    /// End the relay without a word.
    Stop,
}

/// A relay's event as plain values.
pub enum RelayEventView {
    Line(Seq<char>),
    ReadError,
    Closed,
}

/// A relay's action as plain values.
pub enum RelayActionView {
    Forward { severity: Severity, message: Seq<char> },
    Stop,
}

impl View for RelayEvent {
    type V = RelayEventView;

    open spec fn view(&self) -> RelayEventView {
        match self {
            RelayEvent::Line(line) => RelayEventView::Line(line@),
            RelayEvent::ReadError => RelayEventView::ReadError,
            RelayEvent::Closed => RelayEventView::Closed,
        }
    }
}

impl View for RelayAction {
    type V = RelayActionView;

    open spec fn view(&self) -> RelayActionView {
        match self {
            RelayAction::Forward { severity, message } => RelayActionView::Forward {
                severity: *severity,
                message: message@,
            },
            RelayAction::Stop => RelayActionView::Stop,
        }
    }
}

/// Standard output is relayed as information, standard error as errors.
pub open spec fn severity_of(stream: OutputStream) -> Severity {
    match stream {
        OutputStream::Stdout => Severity::Info,
        OutputStream::Stderr => Severity::Error,
    }
}

/// The mark that tells the sidecar's lines from the shell's own in the log.
pub open spec fn relay_tag() -> Seq<char> {
    "[SIDECAR] "@
}

/// The action that follows an event: a line is forwarded under the
/// stream's severity with the sidecar's mark in front; a read error or the
/// end of the stream ends the relay.
pub open spec fn relay_action_of(stream: OutputStream, event: RelayEventView) -> RelayActionView {
    match event {
        RelayEventView::Line(line) => RelayActionView::Forward {
            severity: severity_of(stream),
            message: relay_tag() + line,
        },
        RelayEventView::ReadError => RelayActionView::Stop,
        RelayEventView::Closed => RelayActionView::Stop,
    }
}

/// The severity under which a stream's lines are logged.
pub fn relay_severity(stream: OutputStream) -> (r: Severity)
    ensures
        r == severity_of(stream),
{
    match stream {
        OutputStream::Stdout => Severity::Info,
        OutputStream::Stderr => Severity::Error,
    }
}

/// Decides what a relay does with what its reader came up with. The relay
/// of one stream never depends on the other stream's, nor on the
/// supervisor's state.
pub fn relay_step(stream: OutputStream, event: RelayEvent) -> (r: RelayAction)
    ensures
        r@ == relay_action_of(stream, event@),
{
    match event {
        RelayEvent::Line(line) => RelayAction::Forward {
            severity: relay_severity(stream),
            message: followed_by("[SIDECAR] ", line.as_str()),
        },
        RelayEvent::ReadError => RelayAction::Stop,
        RelayEvent::Closed => RelayAction::Stop,
    }
}

} // verus!
