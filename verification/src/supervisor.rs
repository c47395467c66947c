//! The supervisor's shared record. One instance exists per application run;
//! the launcher, the poller and the shutdown path change it, each in one
//! short step, and the shell's queries read it. Callers that share it
//! between tasks guard it with one lock and hold that lock for one call at a
//! time, never across a probe or a wait.

use crate::error::{LaunchError, LaunchErrorView, QueryError};
use crate::model::{initial, Phase, PollAction, SupervisorModel};
use crate::probe::{base_url, should_log_failure, ProbeOutcome, MAX_ATTEMPTS, POLL_INTERVAL_MS};
use vstd::prelude::*;

verus! {

/// What one non-blocking look at the child process showed.
#[derive(Clone, Debug, PartialEq, Eq)]
pub enum ExitPoll {
    /// The process has exited; `status` is the system's wording of how.
    Exited { status: String },
    /// The process is still running.
    Running,
    /// The system could not tell.
    Unknown,
}

/// The look at the child process as plain values.
pub enum ExitPollView {
    Exited { status: Seq<char> },
    Running,
    Unknown,
}

impl View for ExitPoll {
    type V = ExitPollView;

    open spec fn view(&self) -> ExitPollView {
        match self {
            ExitPoll::Exited { status } => ExitPollView::Exited { status: status@ },
            ExitPoll::Running => ExitPollView::Running,
            ExitPoll::Unknown => ExitPollView::Unknown,
        }
    }
}

/// The error of a launch whose budget ran out. An exited process is
/// reported with its status; a process that lives, or of which nothing is
/// known, is reported as unresponsive.
pub open spec fn timeout_verdict_of(poll: ExitPollView) -> LaunchErrorView {
    match poll {
        ExitPollView::Exited { status } => LaunchErrorView::ProcessExited { status },
        ExitPollView::Running => LaunchErrorView::Unresponsive,
        ExitPollView::Unknown => LaunchErrorView::Unresponsive,
    }
}

/// Names the error of a launch whose budget ran out.
pub fn timeout_verdict(poll: ExitPoll) -> (r: LaunchError)
    ensures
        r@ == timeout_verdict_of(poll@),
{
    match poll {
        ExitPoll::Exited { status } => LaunchError::ProcessExited { status },
        ExitPoll::Running => LaunchError::Unresponsive,
        ExitPoll::Unknown => LaunchError::Unresponsive,
    }
}

/// The plain-value reading of an answer to the address query.
pub open spec fn url_view(r: Result<String, QueryError>) -> Result<Seq<char>, QueryError> {
    match r {
        Ok(url) => Ok(url@),
        Err(error) => Err(error),
    }
}

/// The supervisor's record: phase, port, and the exclusively owned handle
/// of the child process. `H` is whatever the caller uses to reach the
/// process; the record only keeps it and gives it up once.
#[derive(Debug)]
pub struct SupervisorState<H> {
    phase: Phase,
    allocated_port: Option<u16>,
    child_handle: Option<H>,
    external: bool,
    failed_probes: u32,
}

impl<H> View for SupervisorState<H> {
    type V = SupervisorModel;

    closed spec fn view(&self) -> SupervisorModel {
        SupervisorModel {
            phase: self.phase,
            allocated_port: self.allocated_port,
            child_held: self.child_handle is Some,
            external: self.external,
            failed_probes: self.failed_probes as nat,
        }
    }
}

impl<H> SupervisorState<H> {
    #[verifier::type_invariant]
    spec fn consistent(self) -> bool {
        self@.well_formed()
    }

    /// The handle that the record owns.
    pub closed spec fn handle(&self) -> Option<H> {
        self.child_handle
    }

    /// A handle is owned exactly when the record says that a child is held.
    pub proof fn lemma_handle_is_held(&self)
        ensures
            self.handle() is Some <==> self@.child_held,
    {
    }

    /// The record at application start.
    pub fn new() -> (r: Self)
        ensures
            r@ == initial(),
            r@.well_formed(),
            r.handle() is None,
    {
        SupervisorState {
            phase: Phase::Unstarted,
            allocated_port: None,
            child_handle: None,
            external: false,
            failed_probes: 0,
        }
    }

    /// Where the supervisor stands.
    pub fn phase(&self) -> (r: Phase)
        ensures
            r == self@.phase,
            self@.well_formed(),
    {
        proof {
            use_type_invariant(self);
        }
        self.phase
    }

    /// The backend's port, once allocated.
    pub fn allocated_port(&self) -> (r: Option<u16>)
        ensures
            r == self@.allocated_port,
            self@.well_formed(),
    {
        proof {
            use_type_invariant(self);
        }
        self.allocated_port
    }

    /// How many probes of this launch have failed.
    pub fn failed_probes(&self) -> (r: u32)
        ensures
            r == self@.failed_probes,
            r <= MAX_ATTEMPTS,
    {
        proof {
            use_type_invariant(self);
        }
        self.failed_probes
    }

    /// The child's handle, for a look at the process. The record stays its
    /// owner.
    pub fn child(&self) -> (r: Option<&H>)
        ensures
            r is Some == self@.child_held,
            r matches Some(h) ==> self.handle() == Some(*h),
    {
        self.child_handle.as_ref()
    }

    /// Whether the backend is ready. Not being ready is no error. A ready
    /// backend always has its port and is believed alive.
    pub fn is_backend_ready(&self) -> (r: bool)
        ensures
            r == self@.ready(),
            r ==> self@.allocated_port is Some && self@.backend_alive(),
    {
        proof {
            use_type_invariant(self);
        }
        self.phase == Phase::Ready
    }

    /// The backend's base address. It is given out while the backend is
    /// ready; at any other time the query fails with
    /// [`QueryError::NotStarted`], so a caller asks for readiness first or
    /// handles the error.
    pub fn get_backend_url(&self) -> (r: Result<String, QueryError>)
        ensures
            url_view(r) == self@.backend_url(),
            r is Ok == self@.ready(),
    {
        proof {
            use_type_invariant(self);
        }
        match self.allocated_port {
            Some(port) => {
                if self.phase == Phase::Ready {
                    Ok(base_url(port))
                } else {
                    Err(QueryError::NotStarted)
                }
            },
            None => Err(QueryError::NotStarted),
        }
    }

    /// Marks the start of the launch task. Returns whether this call
    /// started the one launch of this run.
    pub fn begin_launch(&mut self) -> (started: bool)
        ensures
            final(self)@ == old(self)@.begin_launch(),
            final(self)@.well_formed(),
            final(self).handle() == old(self).handle(),
            started == (old(self)@.phase == Phase::Unstarted),
    {
        proof {
            use_type_invariant(&*self);
        }
        if self.phase == Phase::Unstarted {
            self.phase = Phase::Launching;
            true
        } else {
            false
        }
    }

    /// Takes a server that already runs on `port` as the backend: the port
    /// is recorded and the backend counts as ready at once. Returns whether
    /// the supervisor was unstarted and took it.
    pub fn adopt_external(&mut self, port: u16) -> (adopted: bool)
        ensures
            final(self)@ == old(self)@.adopt_external(port),
            final(self)@.well_formed(),
            final(self).handle() == old(self).handle(),
            adopted == (old(self)@.phase == Phase::Unstarted),
    {
        proof {
            use_type_invariant(&*self);
        }
        if self.phase == Phase::Unstarted {
            *self = SupervisorState {
                phase: Phase::Ready,
                allocated_port: Some(port),
                child_handle: None,
                external: true,
                failed_probes: 0,
            };
            true
        } else {
            false
        }
    }

    /// Hands the spawned child over, together with the port it was given.
    /// The record takes both only while a launch is being prepared;
    /// otherwise it is left as it was and the handle comes back to the
    /// caller, who still owns the process.
    pub fn install_child(&mut self, port: u16, child: H) -> (r: Result<(), H>)
        ensures
            final(self)@ == old(self)@.install_child(port),
            final(self)@.well_formed(),
            old(self)@.preparing() ==> r is Ok && final(self).handle() == Some(child),
            !old(self)@.preparing() ==> r == Err::<(), H>(child) && final(self).handle() == old(
                self,
            ).handle(),
    {
        proof {
            use_type_invariant(&*self);
        }
        if self.phase == Phase::Launching && self.child_handle.is_none() {
            *self = SupervisorState {
                phase: Phase::Launching,
                allocated_port: Some(port),
                child_handle: Some(child),
                external: false,
                failed_probes: 0,
            };
            Ok(())
        } else {
            Err(child)
        }
    }

    /// Takes in the outcome of one probe and says what the poller does
    /// next. A success while the launch is polling makes the backend ready.
    /// A failure is counted; the poller waits one interval and then probes
    /// again or, when the budget is used up, looks at the child process.
    pub fn on_probe(&mut self, outcome: ProbeOutcome) -> (action: PollAction)
        ensures
            final(self)@ == old(self)@.probe(outcome),
            final(self)@.well_formed(),
            final(self).handle() == old(self).handle(),
            action == old(self)@.poll_action(outcome),
    {
        proof {
            use_type_invariant(&*self);
        }
        let polling = self.phase == Phase::Launching && self.child_handle.is_some()
            && self.failed_probes < MAX_ATTEMPTS;
        if !polling {
            PollAction::Abandon
        } else if outcome.is_ready() {
            self.phase = Phase::Ready;
            PollAction::Ready
        } else {
            let log = should_log_failure(self.failed_probes);
            let attempt = self.failed_probes + 1;
            self.failed_probes = attempt;
            if attempt < MAX_ATTEMPTS {
                PollAction::RetryAfter { delay_ms: POLL_INTERVAL_MS, attempt, log }
            } else {
                PollAction::CheckChildAfter { delay_ms: POLL_INTERVAL_MS, attempt, log }
            }
        }
    }

    /// Concludes a launch whose budget ran out, given one look at the child
    /// process: the launch has failed, with the error that
    /// [`timeout_verdict`] names. Before the budget has run out there is
    /// nothing to conclude, and `None` is returned.
    pub fn conclude_timeout(&mut self, poll: ExitPoll) -> (r: Option<LaunchError>)
        ensures
            final(self)@ == old(self)@.conclude_timeout(),
            final(self)@.well_formed(),
            final(self).handle() == old(self).handle(),
            match r {
                Some(error) => old(self)@.exhausted() && error@ == timeout_verdict_of(poll@),
                None => !old(self)@.exhausted(),
            },
    {
        proof {
            use_type_invariant(&*self);
        }
        if self.phase == Phase::Launching && self.child_handle.is_some() && self.failed_probes
            >= MAX_ATTEMPTS {
            self.phase = Phase::Failed;
            Some(timeout_verdict(poll))
        } else {
            None
        }
    }

    /// Records that the launch failed before a child process existed: no
    /// port, no directory, or no start. Returns whether a launch was being
    /// prepared.
    pub fn fail_launch(&mut self) -> (failed: bool)
        ensures
            final(self)@ == old(self)@.fail_launch(),
            final(self)@.well_formed(),
            final(self).handle() == old(self).handle(),
            failed == old(self)@.preparing(),
    {
        proof {
            use_type_invariant(&*self);
        }
        if self.phase == Phase::Launching && self.child_handle.is_none() {
            self.phase = Phase::Failed;
            true
        } else {
            false
        }
    }

    /// Shuts the backend down: gives up the child's handle, which the
    /// caller terminates without waiting. Without a child, because none was
    /// ever spawned or because shutdown already ran, nothing happens and
    /// `None` is returned.
    pub fn stop_sidecar(&mut self) -> (released: Option<H>)
        ensures
            final(self)@ == old(self)@.shutdown(),
            final(self)@.well_formed(),
            released == old(self).handle(),
            released is Some == old(self)@.child_held,
            final(self).handle() is None,
    {
        proof {
            use_type_invariant(&*self);
        }
        if self.child_handle.is_none() {
            return None;
        }
        let mut prior = SupervisorState::new();
        core::mem::swap(self, &mut prior);
        let SupervisorState { phase, allocated_port, child_handle, external, failed_probes } =
            prior;
        let phase = if phase == Phase::Failed {
            Phase::Failed
        } else {
            Phase::Stopped
        };
        *self = SupervisorState {
            phase,
            allocated_port,
            child_handle: None,
            external,
            failed_probes,
        };
        child_handle
    }
}

} // verus!
