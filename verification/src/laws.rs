//! What holds of every supervisor, whatever happens to it and in whichever
//! order: the laws of the state machine in `model`, proved once and for all.

use crate::error::{
    exit_prefix, lemma_exit_message_contains_status, lemma_unresponsive_is_no_exit_report,
    message_of, unresponsive_message, QueryError,
};
use crate::model::{initial, Event, Phase, SupervisorModel};
use crate::probe::{base_url_of, ProbeOutcome, MAX_ATTEMPTS, POLL_INTERVAL_MS, STARTUP_TIMEOUT_MS};
use crate::supervisor::{timeout_verdict_of, ExitPollView};
use crate::text::occurs_in;
use vstd::prelude::*;

verus! {

/// No event leads out of the well-formed states.
pub proof fn lemma_step_keeps_well_formed(state: SupervisorModel, event: Event)
    requires
        state.well_formed(),
    ensures
        state.step(event).well_formed(),
{
}

/// Every state that a supervisor reaches from its start is well formed.
pub proof fn lemma_reachable_well_formed(events: Seq<Event>)
    ensures
        initial().run(events).well_formed(),
    decreases events.len(),
{
    if events.len() > 0 {
        lemma_reachable_well_formed(events.drop_last());
        lemma_step_keeps_well_formed(initial().run(events.drop_last()), events.last());
    }
}

/// The port comes first: at no point of any run is the backend ready
/// without a port, and a ready backend is believed alive.
pub proof fn lemma_ready_has_port(events: Seq<Event>, upto: int)
    requires
        0 <= upto <= events.len(),
    ensures
        initial().run(events.take(upto)).ready() ==> initial().run(
            events.take(upto),
        ).allocated_port is Some && initial().run(events.take(upto)).backend_alive(),
{
    lemma_reachable_well_formed(events.take(upto));
}

/// The port is allocated at most once: no event changes a port that is set.
pub proof fn lemma_port_set_once(state: SupervisorModel, event: Event)
    requires
        state.well_formed(),
        state.allocated_port is Some,
    ensures
        state.step(event).allocated_port == state.allocated_port,
{
}

/// Over any continuation of a run, a port that is set stays what it is.
pub proof fn lemma_port_stable(state: SupervisorModel, events: Seq<Event>)
    requires
        state.well_formed(),
        state.allocated_port is Some,
    ensures
        state.run(events).allocated_port == state.allocated_port,
        state.run(events).well_formed(),
    decreases events.len(),
{
    if events.len() > 0 {
        lemma_port_stable(state, events.drop_last());
        lemma_step_keeps_well_formed(state.run(events.drop_last()), events.last());
        lemma_port_set_once(state.run(events.drop_last()), events.last());
    }
}

/// A backend becomes ready in two ways only: a successful probe while the
/// launch is polling, or the adoption of a running server.
pub proof fn lemma_ready_only_by_probe_or_adoption(state: SupervisorModel, event: Event)
    requires
        !state.ready(),
        state.step(event).ready(),
    ensures
        match event {
            Event::Probe { outcome } => state.polling() && outcome.succeeded(),
            Event::AdoptExternal { .. } => state.phase == Phase::Unstarted,
            _ => false,
        },
{
}

/// The port is there before the backend is ready: a probe that makes the
/// backend ready finds the port set by an earlier event and leaves it as it
/// is. Only an adoption sets both in one step.
pub proof fn lemma_port_before_ready(state: SupervisorModel, event: Event)
    requires
        state.well_formed(),
        !state.ready(),
        state.step(event).ready(),
    ensures
        state.step(event).allocated_port is Some,
        event is Probe ==> state.allocated_port is Some && state.step(event).allocated_port
            == state.allocated_port,
        event is AdoptExternal ==> state.allocated_port is None,
{
}

/// The moves between phases that a supervisor can make: from the start
/// into a launch or, by adoption, straight to ready; from a launch to
/// ready, failed or stopped; from ready to stopped.
pub open spec fn may_follow(before: Phase, after: Phase) -> bool {
    before == after || match before {
        Phase::Unstarted => after == Phase::Launching || after == Phase::Ready,
        Phase::Launching => after == Phase::Ready || after == Phase::Failed || after
            == Phase::Stopped,
        Phase::Ready => after == Phase::Stopped,
        Phase::Failed => false,
        Phase::Stopped => false,
    }
}

/// No event moves a supervisor against the order of the phases.
pub proof fn lemma_phase_order(state: SupervisorModel, event: Event)
    requires
        state.well_formed(),
    ensures
        may_follow(state.phase, state.step(event).phase),
{
}

/// A failed launch stays failed and a stopped backend stays stopped:
/// nothing restarts either within the run.
pub proof fn lemma_terminal_phases(state: SupervisorModel, events: Seq<Event>)
    requires
        state.phase == Phase::Failed || state.phase == Phase::Stopped,
    ensures
        state.run(events).phase == state.phase,
    decreases events.len(),
{
    if events.len() > 0 {
        lemma_terminal_phases(state, events.drop_last());
    }
}

/// There is one launch per run: once the supervisor has left its start,
/// the start of a launch task changes nothing.
pub proof fn lemma_single_launch(state: SupervisorModel)
    requires
        state.phase != Phase::Unstarted,
    ensures
        state.begin_launch() == state,
        forall|port: u16| state.adopt_external(port) == state,
{
}

/// At every point of every run: until the backend is ready the address
/// query fails with "not started", and while it is ready the query answers
/// with the local address on the allocated port.
pub proof fn lemma_backend_url(events: Seq<Event>)
    ensures
        !initial().run(events).ready() ==> initial().run(events).backend_url() == Err::<
            Seq<char>,
            QueryError,
        >(QueryError::NotStarted),
        initial().run(events).ready() ==> initial().run(events).allocated_port is Some
            && initial().run(events).backend_url() == Ok::<Seq<char>, QueryError>(
            base_url_of(initial().run(events).allocated_port->0),
        ),
{
    lemma_reachable_well_formed(events);
}

/// Before the first successful probe of a launch the address query fails:
/// a launch that has seen only failed probes is not ready.
pub proof fn lemma_no_url_before_success(state: SupervisorModel, outcomes: Seq<ProbeOutcome>)
    requires
        state.phase == Phase::Launching,
        forall|i: int| 0 <= i < outcomes.len() ==> !(#[trigger] outcomes[i]).succeeded(),
    ensures
        state.probes(outcomes).phase == Phase::Launching,
        state.probes(outcomes).backend_url() == Err::<Seq<char>, QueryError>(
            QueryError::NotStarted,
        ),
    decreases outcomes.len(),
{
    if outcomes.len() > 0 {
        let rest = outcomes.drop_first();
        assert(!outcomes[0].succeeded());
        assert forall|i: int| 0 <= i < rest.len() implies !(#[trigger] rest[i]).succeeded() by {
            assert(rest[i] == outcomes[i + 1]);
        }
        lemma_no_url_before_success(state.probe(outcomes.first()), rest);
    }
}

/// Shutdown is idempotent: a second shutdown changes nothing, and neither
/// does a shutdown without a child. After a shutdown no child is held, and
/// a backend whose child was given up is no longer ready.
pub proof fn lemma_shutdown_idempotent(state: SupervisorModel)
    ensures
        !state.child_held ==> state.shutdown() == state,
        !state.shutdown().child_held,
        state.shutdown().shutdown() == state.shutdown(),
        state.child_held ==> !state.shutdown().ready(),
{
}

/// How many shutdowns of a run found a child process to give up.
pub open spec fn releases(state: SupervisorModel, events: Seq<Event>) -> nat
    decreases events.len(),
{
    if events.len() == 0 {
        0
    } else {
        let before = state.run(events.drop_last());
        let now: nat = if events.last() is Shutdown && before.child_held {
            1
        } else {
            0
        };
        releases(state, events.drop_last()) + now
    }
}

/// A supervisor that will never hold a child again.
pub open spec fn spent(state: SupervisorModel) -> bool {
    !state.child_held && state.phase != Phase::Unstarted && state.phase != Phase::Launching
}

/// The child's handle is given up at most once in a run, and after that
/// the supervisor never holds a child again.
pub proof fn lemma_released_at_most_once(events: Seq<Event>)
    ensures
        releases(initial(), events) <= 1,
        releases(initial(), events) == 1 ==> spent(initial().run(events)),
        initial().run(events).child_held ==> releases(initial(), events) == 0,
    decreases events.len(),
{
    if events.len() > 0 {
        lemma_released_at_most_once(events.drop_last());
        lemma_reachable_well_formed(events.drop_last());
    }
}

/// The message of a launch whose budget ran out. If the child process has
/// exited, the message is an exit report that carries the exit status, and
/// whatever text the status contains occurs in the message. If the process
/// is still there, or nothing is known of it, the message is the one for an
/// unresponsive backend, which is no exit report.
pub proof fn lemma_timeout_message(poll: ExitPollView, detail: Seq<char>)
    ensures
        match poll {
            ExitPollView::Exited { status } => {
                &&& exit_prefix().is_prefix_of(message_of(timeout_verdict_of(poll)))
                &&& occurs_in(status, message_of(timeout_verdict_of(poll)))
                &&& occurs_in(detail, status) ==> occurs_in(
                    detail,
                    message_of(timeout_verdict_of(poll)),
                )
            },
            _ => {
                &&& message_of(timeout_verdict_of(poll)) == unresponsive_message()
                &&& !exit_prefix().is_prefix_of(message_of(timeout_verdict_of(poll)))
            },
        },
{
    lemma_unresponsive_is_no_exit_report();
    match poll {
        ExitPollView::Exited { status } => {
            lemma_exit_message_contains_status(status, detail);
        },
        _ => {},
    }
}

/// A series of failed probes within the budget leaves the launch polling
/// or exhausted, counts every failure, and makes the poller wait one
/// interval per failure.
pub proof fn lemma_failed_probes(state: SupervisorModel, outcomes: Seq<ProbeOutcome>)
    requires
        state.phase == Phase::Launching,
        state.child_held,
        state.failed_probes + outcomes.len() <= MAX_ATTEMPTS,
        forall|i: int| 0 <= i < outcomes.len() ==> !(#[trigger] outcomes[i]).succeeded(),
    ensures
        state.probes(outcomes) == (SupervisorModel {
            failed_probes: state.failed_probes + outcomes.len(),
            ..state
        }),
        state.waited(outcomes) == outcomes.len() * POLL_INTERVAL_MS,
    decreases outcomes.len(),
{
    if outcomes.len() > 0 {
        let next = state.probe(outcomes.first());
        let rest = outcomes.drop_first();
        assert(!outcomes[0].succeeded());
        assert forall|i: int| 0 <= i < rest.len() implies !(#[trigger] rest[i]).succeeded() by {
            assert(rest[i] == outcomes[i + 1]);
        }
        lemma_failed_probes(next, rest);
        assert(outcomes.len() * POLL_INTERVAL_MS == POLL_INTERVAL_MS + rest.len()
            * POLL_INTERVAL_MS) by (nonlinear_arith)
            requires
                outcomes.len() == rest.len() + 1,
        ;
    }
}

/// If the health endpoint answers with success on the `n`-th probe of a
/// fresh launch, and `n` is within the budget, the supervisor is ready
/// right after that probe. Until then the poller was told to wait one
/// interval after each of the `n - 1` failures, which is less than `n + 1`
/// intervals.
pub proof fn lemma_ready_on_nth_probe(state: SupervisorModel, outcomes: Seq<ProbeOutcome>, n: nat)
    requires
        state.polling(),
        state.failed_probes == 0,
        1 <= n <= MAX_ATTEMPTS,
        outcomes.len() == n,
        forall|i: int| 0 <= i < n - 1 ==> !(#[trigger] outcomes[i]).succeeded(),
        outcomes[n - 1].succeeded(),
    ensures
        state.probes(outcomes).ready(),
        !state.probes(outcomes.drop_last()).ready(),
        state.waited(outcomes) == (n - 1) * POLL_INTERVAL_MS,
        state.waited(outcomes) < (n + 1) * POLL_INTERVAL_MS,
        state.waited(outcomes) < STARTUP_TIMEOUT_MS,
{
    let failures = outcomes.drop_last();
    let last = seq![outcomes.last()];
    assert(outcomes =~= failures + last);
    lemma_failed_probes(state, failures);
    lemma_probes_concat(state, failures, last);
    let before = state.probes(failures);
    assert(before.polling());
    assert(last.drop_first() =~= Seq::<ProbeOutcome>::empty());
    assert(before.probes(last) == before.probe(outcomes.last()).probes(last.drop_first()));
    assert(before.waited(last) == before.poll_action(outcomes.last()).delay() + before.probe(
        outcomes.last(),
    ).waited(last.drop_first()));
    assert((n - 1) * POLL_INTERVAL_MS < (n + 1) * POLL_INTERVAL_MS) by (nonlinear_arith);
    assert((n - 1) * POLL_INTERVAL_MS < STARTUP_TIMEOUT_MS) by (nonlinear_arith)
        requires
            n <= MAX_ATTEMPTS,
            STARTUP_TIMEOUT_MS == MAX_ATTEMPTS * POLL_INTERVAL_MS,
    ;
}

/// Probing through two series in a row is probing through their
/// concatenation, and the waits add up.
pub proof fn lemma_probes_concat(
    state: SupervisorModel,
    first: Seq<ProbeOutcome>,
    second: Seq<ProbeOutcome>,
)
    ensures
        state.probes(first + second) == state.probes(first).probes(second),
        state.waited(first + second) == state.waited(first) + state.probes(first).waited(second),
    decreases first.len(),
{
    if first.len() == 0 {
        assert(first + second =~= second);
    } else {
        assert((first + second).drop_first() =~= first.drop_first() + second);
        assert((first + second).first() == first.first());
        lemma_probes_concat(state.probe(first.first()), first.drop_first(), second);
    }
}

/// If no probe of a fresh launch succeeds, the budget runs out after
/// exactly the startup timeout of waiting: the last action asks for a look
/// at the child process, and the conclusion is failure.
pub proof fn lemma_budget_runs_out(state: SupervisorModel, outcomes: Seq<ProbeOutcome>)
    requires
        state.polling(),
        state.failed_probes == 0,
        outcomes.len() == MAX_ATTEMPTS,
        forall|i: int| 0 <= i < outcomes.len() ==> !(#[trigger] outcomes[i]).succeeded(),
    ensures
        state.probes(outcomes).exhausted(),
        state.waited(outcomes) == STARTUP_TIMEOUT_MS,
        state.probes(outcomes.drop_last()).poll_action(outcomes.last())
            is CheckChildAfter,
        state.probes(outcomes).conclude_timeout().phase == Phase::Failed,
        forall|late: ProbeOutcome| #[trigger]
            state.probes(outcomes).probe(late) == state.probes(outcomes),
{
    lemma_failed_probes(state, outcomes);
    let earlier = outcomes.drop_last();
    assert forall|i: int| 0 <= i < earlier.len() implies !(#[trigger] earlier[i]).succeeded() by {
        assert(earlier[i] == outcomes[i]);
    }
    lemma_failed_probes(state, earlier);
    assert(!outcomes[outcomes.len() - 1].succeeded());
}

/// A supervisor whose launch has begun and whose child was spawned for
/// `port`.
pub open spec fn launched(port: u16) -> SupervisorModel {
    initial().begin_launch().install_child(port)
}

/// The whole of a launch that succeeds: after the launch began and the
/// child was handed over, `n - 1` failed probes and one success leave the
/// backend ready on the port the child was spawned for, its process held,
/// and its address known; the poller waited one interval per failure.
pub proof fn lemma_successful_launch(port: u16, outcomes: Seq<ProbeOutcome>, n: nat)
    requires
        1 <= n <= MAX_ATTEMPTS,
        outcomes.len() == n,
        forall|i: int| 0 <= i < n - 1 ==> !(#[trigger] outcomes[i]).succeeded(),
        outcomes[n - 1].succeeded(),
    ensures
        launched(port).probes(outcomes).ready(),
        launched(port).probes(outcomes).allocated_port == Some(port),
        launched(port).probes(outcomes).child_held,
        launched(port).probes(outcomes).backend_url() == Ok::<Seq<char>, QueryError>(
            base_url_of(port),
        ),
        launched(port).waited(outcomes) == (n - 1) * POLL_INTERVAL_MS,
{
    let failures = outcomes.drop_last();
    let last = seq![outcomes.last()];
    assert(outcomes =~= failures + last);
    lemma_failed_probes(launched(port), failures);
    lemma_probes_concat(launched(port), failures, last);
    lemma_ready_on_nth_probe(launched(port), outcomes, n);
    let before = launched(port).probes(failures);
    assert(last.drop_first() =~= Seq::<ProbeOutcome>::empty());
    assert(before.probes(last) == before.probe(outcomes.last()).probes(last.drop_first()));
}

/// The whole of a launch that times out: after the launch began and the
/// child was handed over, a full budget of failed probes and the
/// conclusion leave the launch failed and the backend without an address,
/// after exactly the startup timeout of waiting. The child is still held,
/// and a shutdown gives it up without undoing the failure.
pub proof fn lemma_timed_out_launch(port: u16, outcomes: Seq<ProbeOutcome>)
    requires
        outcomes.len() == MAX_ATTEMPTS,
        forall|i: int| 0 <= i < outcomes.len() ==> !(#[trigger] outcomes[i]).succeeded(),
    ensures
        launched(port).waited(outcomes) == STARTUP_TIMEOUT_MS,
        ({
            let failed = launched(port).probes(outcomes).conclude_timeout();
            &&& failed.phase == Phase::Failed
            &&& failed.child_held
            &&& failed.allocated_port == Some(port)
            &&& failed.backend_url() == Err::<Seq<char>, QueryError>(QueryError::NotStarted)
            &&& failed.shutdown().phase == Phase::Failed
            &&& !failed.shutdown().child_held
        }),
{
    lemma_failed_probes(launched(port), outcomes);
    lemma_budget_runs_out(launched(port), outcomes);
}

} // verus!
