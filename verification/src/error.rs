//! Why a launch failed, and why a query could not be answered.

use crate::text::{followed_by, lemma_occurs_in_framed, lemma_occurs_in_transitive, occurs_in};
use vstd::prelude::*;
use vstd::string::*;

verus! {

/// A fatal condition of one launch attempt. None of them is retried.
#[derive(Clone, Debug, PartialEq, Eq)]
pub enum LaunchError {
    /// No unused port could be allocated.
    NoFreePort,
    /// The system could not name the application's directories.
    DirectoryResolution { reason: String },
    /// A directory of the data layout could not be created.
    DirectoryCreation { reason: String },
    /// The bundled sidecar at `path` could not be started.
    SpawnSidecar { path: String, reason: String },
    /// The development runtime could not be started.
    SpawnRuntime { reason: String },
    /// The backend never answered and its process has already exited.
    ProcessExited { status: String },
    /// The backend never answered although its process is still there.
    Unresponsive,
}

/// A launch error as plain texts.
pub enum LaunchErrorView {
    NoFreePort,
    DirectoryResolution { reason: Seq<char> },
    DirectoryCreation { reason: Seq<char> },
    SpawnSidecar { path: Seq<char>, reason: Seq<char> },
    SpawnRuntime { reason: Seq<char> },
    ProcessExited { status: Seq<char> },
    Unresponsive,
}

impl View for LaunchError {
    type V = LaunchErrorView;

    open spec fn view(&self) -> LaunchErrorView {
        match self {
            LaunchError::NoFreePort => LaunchErrorView::NoFreePort,
            LaunchError::DirectoryResolution { reason } => LaunchErrorView::DirectoryResolution {
                reason: reason@,
            },
            LaunchError::DirectoryCreation { reason } => LaunchErrorView::DirectoryCreation {
                reason: reason@,
            },
            LaunchError::SpawnSidecar { path, reason } => LaunchErrorView::SpawnSidecar {
                path: path@,
                reason: reason@,
            },
            LaunchError::SpawnRuntime { reason } => LaunchErrorView::SpawnRuntime {
                reason: reason@,
            },
            LaunchError::ProcessExited { status } => LaunchErrorView::ProcessExited {
                status: status@,
            },
            LaunchError::Unresponsive => LaunchErrorView::Unresponsive,
        }
    }
}

/// The text that introduces an exit status in a failure message.
pub open spec fn exit_prefix() -> Seq<char> {
    "Backend process exited with status: "@
}

/// The message of a backend that stayed silent while its process lived on.
pub open spec fn unresponsive_message() -> Seq<char> {
    "Backend unresponsive within timeout - check logs directory for details"@
}

/// The message shown for a launch error. Errors of the system are passed on
/// in the system's own words; spawn errors name what was started.
pub open spec fn message_of(error: LaunchErrorView) -> Seq<char> {
    match error {
        LaunchErrorView::NoFreePort => "Failed to find available port"@,
        LaunchErrorView::DirectoryResolution { reason } => reason,
        LaunchErrorView::DirectoryCreation { reason } => reason,
        LaunchErrorView::SpawnSidecar { path, reason } => "Failed to spawn sidecar at \""@ + path
            + "\": "@ + reason,
        LaunchErrorView::SpawnRuntime { reason } => "Failed to spawn bun server: "@ + reason,
        LaunchErrorView::ProcessExited { status } => exit_prefix() + status,
        LaunchErrorView::Unresponsive => unresponsive_message(),
    }
}

impl LaunchError {
    /// Renders the error for the log and for the user.
    pub fn message(&self) -> (r: String)
        ensures
            r@ == message_of(self@),
    {
        match self {
            LaunchError::NoFreePort => String::from_str("Failed to find available port"),
            LaunchError::DirectoryResolution { reason } => reason.clone(),
            LaunchError::DirectoryCreation { reason } => reason.clone(),
            LaunchError::SpawnSidecar { path, reason } => {
                let mut text = String::from_str("Failed to spawn sidecar at \"");
                text.append(path.as_str());
                text.append("\": ");
                text.append(reason.as_str());
                text
            },
            LaunchError::SpawnRuntime { reason } => followed_by(
                "Failed to spawn bun server: ",
                reason.as_str(),
            ),
            LaunchError::ProcessExited { status } => followed_by(
                "Backend process exited with status: ",
                status.as_str(),
            ),
            LaunchError::Unresponsive => String::from_str(
                "Backend unresponsive within timeout - check logs directory for details",
            ),
        }
    }
}

/// Why a query of the shell could not be answered.
#[derive(Clone, Copy, Debug, PartialEq, Eq, Structural)]
pub enum QueryError {
    /// No port has been allocated yet, so the backend has no address.
    NotStarted,
}

/// The message of [`QueryError::NotStarted`].
pub open spec fn not_started_message() -> Seq<char> {
    "Backend not started yet"@
}

impl QueryError {
    /// Renders the error for the shell.
    pub fn message(&self) -> (r: String)
        ensures
            r@ == not_started_message(),
    {
        String::from_str("Backend not started yet")
    }
}

/// The message of a backend whose process has exited carries the exit status
/// word for word, and with it everything the status text contains.
pub proof fn lemma_exit_message_contains_status(status: Seq<char>, detail: Seq<char>)
    ensures
        occurs_in(status, message_of(LaunchErrorView::ProcessExited { status })),
        occurs_in(detail, status) ==> occurs_in(
            detail,
            message_of(LaunchErrorView::ProcessExited { status }),
        ),
{
    let message = message_of(LaunchErrorView::ProcessExited { status });
    lemma_occurs_in_framed(exit_prefix(), status, Seq::<char>::empty());
    assert(exit_prefix() + status + Seq::<char>::empty() =~= message);
    if occurs_in(detail, status) {
        lemma_occurs_in_transitive(detail, status, message);
    }
}

/// The message of an unresponsive backend is not an exit report: it does
/// not begin the way exit reports do.
pub proof fn lemma_unresponsive_is_no_exit_report()
    ensures
        !exit_prefix().is_prefix_of(message_of(LaunchErrorView::Unresponsive)),
        forall|status: Seq<char>|
            exit_prefix().is_prefix_of(
                #[trigger] message_of(LaunchErrorView::ProcessExited { status }),
            ),
{
    reveal_strlit("Backend process exited with status: ");
    reveal_strlit("Backend unresponsive within timeout - check logs directory for details");
    let prefix = exit_prefix();
    let message = unresponsive_message();
    assert(prefix[8] == 'p');
    assert(message[8] == 'u');
    if prefix.is_prefix_of(message) {
        assert(message.subrange(0, prefix.len() as int)[8] == message[8]);
    }
    assert forall|status: Seq<char>|
        prefix.is_prefix_of(
            #[trigger] message_of(LaunchErrorView::ProcessExited { status }),
        ) by {
        assert((prefix + status).subrange(0, prefix.len() as int) =~= prefix);
    }
}

} // verus!
