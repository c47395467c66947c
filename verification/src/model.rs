//! The supervisor as a state machine over plain values: its states, the
//! events that move it, and the action it asks for after each probe.

use crate::error::QueryError;
use crate::probe::{base_url_of, logs_failure, ProbeOutcome, MAX_ATTEMPTS, POLL_INTERVAL_MS};
use vstd::prelude::*;

verus! {

/// Where the supervisor stands in its lifetime.
#[derive(Clone, Copy, Debug, PartialEq, Eq, Structural)]
pub enum Phase {
    /// Nothing has been started.
    Unstarted,
    /// The single launch attempt of this run is under way.
    Launching,
    /// The backend answered its health check.
    Ready,
    /// The launch attempt failed. It is not retried.
    Failed,
    /// The backend was shut down.
    Stopped,
}

/// The supervisor's record, with the process handle reduced to whether one
/// is held.
pub struct SupervisorModel {
    pub phase: Phase,
    /// The backend's port, once one was allocated.
    pub allocated_port: Option<u16>,
    /// Whether the supervisor owns the handle of a spawned child process.
    pub child_held: bool,
    /// Whether the backend is a server that somebody else started.
    pub external: bool,
    /// How many probes of this launch have failed.
    pub failed_probes: nat,
}

/// What can happen to a supervisor.
pub enum Event {
    /// The launch task starts.
    BeginLaunch,
    /// A server that already runs on `port` is taken as the backend.
    AdoptExternal { port: u16 },
    /// The child process was spawned for `port` and its handle handed over.
    InstallChild { port: u16 },
    /// One probe of the health endpoint came back.
    Probe { outcome: ProbeOutcome },
    /// The launcher looked at the child process after the budget ran out.
    ConcludeTimeout,
    /// The launch failed before a child process existed.
    FailLaunch,
    /// The application goes down.
    Shutdown,
}

/// What the poller does after a probe.
#[derive(Clone, Copy, Debug, PartialEq, Eq, Structural)]
pub enum PollAction {
    /// The backend is ready: stop polling.
    Ready,
    /// Attempt number `attempt` failed: wait `delay_ms`, then probe again.
    RetryAfter { delay_ms: u64, attempt: u32, log: bool },
    /// Attempt number `attempt` failed and was the last of the budget: wait
    /// `delay_ms`, then look at the child process and conclude.
    CheckChildAfter { delay_ms: u64, attempt: u32, log: bool },
    /// No launch is waiting for this probe: drop it.
    Abandon,
}

impl SupervisorModel {
    /// The health flag: the backend has answered and was not stopped since.
    pub open spec fn ready(self) -> bool {
        self.phase == Phase::Ready
    }

    /// The backend is believed alive: its process is held, or it is a server
    /// of its own.
    pub open spec fn backend_alive(self) -> bool {
        self.child_held || self.external
    }

    /// The answer to the shell's question for the backend's address: the
    /// local address on the allocated port while the backend is ready, the
    /// "not started" error at any other time.
    pub open spec fn backend_url(self) -> Result<Seq<char>, QueryError> {
        match self.allocated_port {
            Some(port) if self.ready() => Ok(base_url_of(port)),
            _ => Err(QueryError::NotStarted),
        }
    }

    /// The launch waits for probes: a child runs and the budget is not used
    /// up.
    pub open spec fn polling(self) -> bool {
        self.phase == Phase::Launching && self.child_held && self.failed_probes < MAX_ATTEMPTS
    }

    /// The budget is used up and the launch waits for its conclusion.
    pub open spec fn exhausted(self) -> bool {
        self.phase == Phase::Launching && self.child_held && self.failed_probes >= MAX_ATTEMPTS
    }

    /// The launch has begun and no child process exists yet.
    pub open spec fn preparing(self) -> bool {
        self.phase == Phase::Launching && !self.child_held
    }

    /// The state after the launch task started. Only an unstarted
    /// supervisor launches; there is one attempt per run.
    pub open spec fn begin_launch(self) -> SupervisorModel {
        if self.phase == Phase::Unstarted {
            SupervisorModel { phase: Phase::Launching, ..self }
        } else {
            self
        }
    }

    /// The state after a running server was adopted. Port and health flag
    /// are set in one step.
    pub open spec fn adopt_external(self, port: u16) -> SupervisorModel {
        if self.phase == Phase::Unstarted {
            SupervisorModel {
                phase: Phase::Ready,
                allocated_port: Some(port),
                external: true,
                ..self
            }
        } else {
            self
        }
    }

    /// The state after the spawned child was handed over.
    pub open spec fn install_child(self, port: u16) -> SupervisorModel {
        if self.preparing() {
            SupervisorModel {
                allocated_port: Some(port),
                child_held: true,
                failed_probes: 0,
                ..self
            }
        } else {
            self
        }
    }

    /// The state after a probe came back. A success makes the supervisor
    /// ready; a failure is counted. A probe that no launch waits for changes
    /// nothing.
    pub open spec fn probe(self, outcome: ProbeOutcome) -> SupervisorModel {
        if !self.polling() {
            self
        } else if outcome.succeeded() {
            SupervisorModel { phase: Phase::Ready, ..self }
        } else {
            SupervisorModel { failed_probes: self.failed_probes + 1, ..self }
        }
    }

    /// The action after a probe came back.
    pub open spec fn poll_action(self, outcome: ProbeOutcome) -> PollAction {
        if !self.polling() {
            PollAction::Abandon
        } else if outcome.succeeded() {
            PollAction::Ready
        } else if self.failed_probes + 1 < MAX_ATTEMPTS {
            PollAction::RetryAfter {
                delay_ms: POLL_INTERVAL_MS,
                attempt: (self.failed_probes + 1) as u32,
                log: logs_failure(self.failed_probes),
            }
        } else {
            PollAction::CheckChildAfter {
                delay_ms: POLL_INTERVAL_MS,
                attempt: (self.failed_probes + 1) as u32,
                log: logs_failure(self.failed_probes),
            }
        }
    }

    /// The state after a series of probes came back, first to last.
    pub open spec fn probes(self, outcomes: Seq<ProbeOutcome>) -> SupervisorModel
        decreases outcomes.len(),
    {
        if outcomes.len() == 0 {
            self
        } else {
            self.probe(outcomes.first()).probes(outcomes.drop_first())
        }
    }

    /// The time the poller was told to wait over a series of probes, in
    /// milliseconds.
    pub open spec fn waited(self, outcomes: Seq<ProbeOutcome>) -> nat
        decreases outcomes.len(),
    {
        if outcomes.len() == 0 {
            0
        } else {
            self.poll_action(outcomes.first()).delay() + self.probe(outcomes.first()).waited(
                outcomes.drop_first(),
            )
        }
    }

    /// The state after the exhausted launch was concluded: it has failed.
    pub open spec fn conclude_timeout(self) -> SupervisorModel {
        if self.exhausted() {
            SupervisorModel { phase: Phase::Failed, ..self }
        } else {
            self
        }
    }

    /// The state after the launch failed before a child existed.
    pub open spec fn fail_launch(self) -> SupervisorModel {
        if self.preparing() {
            SupervisorModel { phase: Phase::Failed, ..self }
        } else {
            self
        }
    }

    /// The state after a shutdown. The child's handle is given up, and a
    /// launch that had not failed is stopped. Without a child nothing
    /// changes.
    pub open spec fn shutdown(self) -> SupervisorModel {
        if self.child_held {
            SupervisorModel {
                phase: if self.phase == Phase::Failed {
                    Phase::Failed
                } else {
                    Phase::Stopped
                },
                child_held: false,
                ..self
            }
        } else {
            self
        }
    }

    /// The state after one event.
    pub open spec fn step(self, event: Event) -> SupervisorModel {
        match event {
            Event::BeginLaunch => self.begin_launch(),
            Event::AdoptExternal { port } => self.adopt_external(port),
            Event::InstallChild { port } => self.install_child(port),
            Event::Probe { outcome } => self.probe(outcome),
            Event::ConcludeTimeout => self.conclude_timeout(),
            Event::FailLaunch => self.fail_launch(),
            Event::Shutdown => self.shutdown(),
        }
    }

    /// The state after a sequence of events, first to last.
    pub open spec fn run(self, events: Seq<Event>) -> SupervisorModel
        decreases events.len(),
    {
        if events.len() == 0 {
            self
        } else {
            self.run(events.drop_last()).step(events.last())
        }
    }

    /// What holds of every state a supervisor can be in.
    pub open spec fn well_formed(self) -> bool {
        &&& self.failed_probes <= MAX_ATTEMPTS
        &&& self.child_held ==> self.allocated_port is Some && !self.external
        &&& self.external ==> self.phase == Phase::Ready
        &&& match self.phase {
            Phase::Unstarted => self.allocated_port is None && !self.child_held
                && self.failed_probes == 0,
            Phase::Launching => (self.allocated_port is Some ==> self.child_held) && (
            !self.child_held ==> self.failed_probes == 0),
            Phase::Ready => self.allocated_port is Some && self.backend_alive(),
            Phase::Failed => true,
            Phase::Stopped => self.allocated_port is Some && !self.child_held,
        }
    }
}

/// The supervisor at application start: nothing allocated, nothing held.
pub open spec fn initial() -> SupervisorModel {
    SupervisorModel {
        phase: Phase::Unstarted,
        allocated_port: None,
        child_held: false,
        external: false,
        failed_probes: 0,
    }
}

impl PollAction {
    /// The time the poller waits before it acts again, in milliseconds.
    pub open spec fn delay(self) -> nat {
        match self {
            PollAction::RetryAfter { delay_ms, .. } => delay_ms as nat,
            PollAction::CheckChildAfter { delay_ms, .. } => delay_ms as nat,
            _ => 0,
        }
    }
}

} // verus!
