use sidecar_supervisor::error::{LaunchError, QueryError};
use sidecar_supervisor::model::{Phase, PollAction};
use sidecar_supervisor::probe::{ProbeOutcome, MAX_ATTEMPTS, POLL_INTERVAL_MS, STARTUP_TIMEOUT_MS};
use sidecar_supervisor::supervisor::{ExitPoll, SupervisorState};

#[derive(Debug, PartialEq, Eq)]
struct Child(u32);

fn polling(port: u16) -> SupervisorState<Child> {
    let mut state = SupervisorState::new();
    assert!(state.begin_launch());
    assert_eq!(state.install_child(port, Child(1)), Ok(()));
    state
}

fn ready_implies_port(state: &SupervisorState<Child>) {
    if state.is_backend_ready() {
        assert!(state.allocated_port().is_some());
    }
    assert_eq!(state.get_backend_url().is_ok(), state.is_backend_ready());
}

#[test]
fn a_new_supervisor_is_empty() {
    let state: SupervisorState<Child> = SupervisorState::new();
    assert_eq!(state.phase(), Phase::Unstarted);
    assert_eq!(state.allocated_port(), None);
    assert_eq!(state.child(), None);
    assert_eq!(state.failed_probes(), 0);
    assert!(!state.is_backend_ready());
}

#[test]
fn url_query_before_start_is_not_started() {
    let mut state: SupervisorState<Child> = SupervisorState::new();
    assert_eq!(state.get_backend_url(), Err(QueryError::NotStarted));
    state.begin_launch();
    assert_eq!(state.get_backend_url(), Err(QueryError::NotStarted));
    assert_eq!(state.get_backend_url().unwrap_err().message(), "Backend not started yet");
}

#[test]
fn url_query_after_a_successful_probe() {
    let mut state = polling(18080);
    assert_eq!(state.on_probe(ProbeOutcome::Status(200)), PollAction::Ready);
    assert!(state.is_backend_ready());
    assert_eq!(state.get_backend_url(), Ok("http://localhost:18080".to_string()));
}

#[test]
fn url_query_before_the_first_successful_probe_is_not_started() {
    let mut state = polling(18080);
    assert!(!state.is_backend_ready());
    assert_eq!(state.allocated_port(), Some(18080));
    assert_eq!(state.get_backend_url(), Err(QueryError::NotStarted));
    state.on_probe(ProbeOutcome::Unreachable);
    state.on_probe(ProbeOutcome::Status(500));
    assert_eq!(state.get_backend_url(), Err(QueryError::NotStarted));
}

#[test]
fn url_query_after_shutdown_or_failure_is_not_started() {
    let mut state = polling(18080);
    state.on_probe(ProbeOutcome::Status(200));
    assert!(state.get_backend_url().is_ok());
    state.stop_sidecar();
    assert_eq!(state.get_backend_url(), Err(QueryError::NotStarted));
    let mut state = polling(18080);
    exhaust(&mut state);
    state.conclude_timeout(ExitPoll::Running);
    assert_eq!(state.get_backend_url(), Err(QueryError::NotStarted));
}

#[test]
fn port_is_set_before_ready_is_seen() {
    let mut state: SupervisorState<Child> = SupervisorState::new();
    ready_implies_port(&state);
    state.begin_launch();
    ready_implies_port(&state);
    assert_eq!(state.on_probe(ProbeOutcome::Status(200)), PollAction::Abandon);
    assert!(!state.is_backend_ready());
    assert_eq!(state.install_child(18080, Child(1)), Ok(()));
    assert_eq!(state.allocated_port(), Some(18080));
    assert!(!state.is_backend_ready());
    ready_implies_port(&state);
    state.on_probe(ProbeOutcome::Unreachable);
    ready_implies_port(&state);
    state.on_probe(ProbeOutcome::Status(204));
    assert!(state.is_backend_ready());
    ready_implies_port(&state);
    state.stop_sidecar();
    ready_implies_port(&state);
}

#[test]
fn a_launch_begins_once() {
    let mut state: SupervisorState<Child> = SupervisorState::new();
    assert!(state.begin_launch());
    assert_eq!(state.phase(), Phase::Launching);
    assert!(!state.begin_launch());
    assert_eq!(state.phase(), Phase::Launching);
}

#[test]
fn install_before_the_launch_began_hands_the_child_back() {
    let mut state: SupervisorState<Child> = SupervisorState::new();
    assert_eq!(state.install_child(18080, Child(7)), Err(Child(7)));
    assert_eq!(state.phase(), Phase::Unstarted);
    assert_eq!(state.allocated_port(), None);
    assert_eq!(state.child(), None);
}

#[test]
fn a_second_child_is_handed_back() {
    let mut state = polling(18080);
    assert_eq!(state.install_child(19090, Child(2)), Err(Child(2)));
    assert_eq!(state.allocated_port(), Some(18080));
    assert_eq!(state.child(), Some(&Child(1)));
}

#[test]
fn install_after_shutdown_hands_the_child_back() {
    let mut state = polling(18080);
    assert_eq!(state.stop_sidecar(), Some(Child(1)));
    assert_eq!(state.install_child(19090, Child(2)), Err(Child(2)));
    assert_eq!(state.phase(), Phase::Stopped);
    assert_eq!(state.allocated_port(), Some(18080));
}

#[test]
fn first_probe_success_needs_no_wait() {
    let mut state = polling(18080);
    assert_eq!(state.on_probe(ProbeOutcome::Status(200)), PollAction::Ready);
    assert_eq!(state.phase(), Phase::Ready);
    assert_eq!(state.failed_probes(), 0);
}

#[test]
fn success_on_the_third_probe() {
    let mut state = polling(18080);
    let mut waited = 0;
    let outcomes =
        [ProbeOutcome::Unreachable, ProbeOutcome::Status(503), ProbeOutcome::Status(200)];
    let mut probes = 0;
    for outcome in outcomes {
        probes += 1;
        match state.on_probe(outcome) {
            PollAction::Ready => break,
            PollAction::RetryAfter { delay_ms, attempt, .. } => {
                assert_eq!(attempt, probes);
                assert_eq!(delay_ms, 500);
                assert!(!state.is_backend_ready());
                waited += delay_ms;
            }
            other => panic!("unexpected action {:?}", other),
        }
    }
    assert_eq!(probes, 3);
    assert!(state.is_backend_ready());
    assert_eq!(waited, 2 * POLL_INTERVAL_MS);
    assert!(waited < 4 * POLL_INTERVAL_MS);
}

#[test]
fn success_on_the_nth_probe_for_every_n_in_budget() {
    for n in 1..=MAX_ATTEMPTS {
        let mut state = polling(18080);
        let mut waited = 0;
        for _ in 1..n {
            match state.on_probe(ProbeOutcome::Unreachable) {
                PollAction::RetryAfter { delay_ms, .. } => waited += delay_ms,
                other => panic!("unexpected action {:?}", other),
            }
            assert!(!state.is_backend_ready());
        }
        assert_eq!(state.on_probe(ProbeOutcome::Status(200)), PollAction::Ready);
        assert!(state.is_backend_ready());
        assert_eq!(waited, (n as u64 - 1) * POLL_INTERVAL_MS);
        assert!(waited < (n as u64 + 1) * POLL_INTERVAL_MS);
    }
}

#[test]
fn failed_probes_are_counted_and_logged_sparsely() {
    let mut state = polling(18080);
    assert_eq!(
        state.on_probe(ProbeOutcome::Unreachable),
        PollAction::RetryAfter { delay_ms: 500, attempt: 1, log: true }
    );
    for attempt in 2..=10 {
        assert_eq!(
            state.on_probe(ProbeOutcome::Status(500)),
            PollAction::RetryAfter { delay_ms: 500, attempt, log: false }
        );
    }
    assert_eq!(
        state.on_probe(ProbeOutcome::Unreachable),
        PollAction::RetryAfter { delay_ms: 500, attempt: 11, log: true }
    );
    assert_eq!(state.failed_probes(), 11);
    assert_eq!(state.phase(), Phase::Launching);
}

#[test]
fn non_success_status_is_a_failed_attempt() {
    let mut state = polling(18080);
    assert_eq!(
        state.on_probe(ProbeOutcome::Status(404)),
        PollAction::RetryAfter { delay_ms: 500, attempt: 1, log: true }
    );
    assert_eq!(
        state.on_probe(ProbeOutcome::Status(302)),
        PollAction::RetryAfter { delay_ms: 500, attempt: 2, log: false }
    );
    assert!(!state.is_backend_ready());
}

fn exhaust(state: &mut SupervisorState<Child>) -> u64 {
    let mut waited = 0;
    for attempt in 1..=MAX_ATTEMPTS {
        match state.on_probe(ProbeOutcome::Unreachable) {
            PollAction::RetryAfter { delay_ms, attempt: told, .. } => {
                assert!(attempt < MAX_ATTEMPTS);
                assert_eq!(told, attempt);
                waited += delay_ms;
            }
            PollAction::CheckChildAfter { delay_ms, attempt: told, log } => {
                assert_eq!(attempt, MAX_ATTEMPTS);
                assert_eq!(told, MAX_ATTEMPTS);
                assert!(!log);
                waited += delay_ms;
            }
            other => panic!("unexpected action {:?}", other),
        }
    }
    waited
}

#[test]
fn the_budget_runs_out_after_the_startup_timeout() {
    let mut state = polling(18080);
    let waited = exhaust(&mut state);
    assert_eq!(waited, STARTUP_TIMEOUT_MS);
    assert_eq!(state.failed_probes(), MAX_ATTEMPTS);
    assert_eq!(state.phase(), Phase::Launching);
    assert!(!state.is_backend_ready());
}

#[test]
fn a_probe_after_the_budget_is_dropped() {
    let mut state = polling(18080);
    exhaust(&mut state);
    assert_eq!(state.on_probe(ProbeOutcome::Status(200)), PollAction::Abandon);
    assert!(!state.is_backend_ready());
    assert_eq!(state.failed_probes(), MAX_ATTEMPTS);
}

#[test]
fn timeout_with_an_exited_process_reports_code_137() {
    let mut state = polling(18080);
    exhaust(&mut state);
    let error = state
        .conclude_timeout(ExitPoll::Exited { status: "exit status: 137".to_string() })
        .unwrap();
    assert_eq!(error, LaunchError::ProcessExited { status: "exit status: 137".to_string() });
    assert!(error.message().contains("137"));
    assert_eq!(state.phase(), Phase::Failed);
    assert!(!state.is_backend_ready());
}

#[test]
fn timeout_with_a_living_process_reports_unresponsive() {
    let mut state = polling(18080);
    exhaust(&mut state);
    let error = state.conclude_timeout(ExitPoll::Running).unwrap();
    assert_eq!(error, LaunchError::Unresponsive);
    assert!(error.message().contains("unresponsive"));
    assert!(!error.message().contains("status"));
    assert_eq!(state.phase(), Phase::Failed);
    assert_eq!(state.child(), Some(&Child(1)));
}

#[test]
fn timeout_with_an_unknown_process_reports_unresponsive() {
    let mut state = polling(18080);
    exhaust(&mut state);
    assert_eq!(state.conclude_timeout(ExitPoll::Unknown), Some(LaunchError::Unresponsive));
    assert_eq!(state.phase(), Phase::Failed);
}

#[test]
fn nothing_to_conclude_before_the_budget_ran_out() {
    let mut state: SupervisorState<Child> = SupervisorState::new();
    assert_eq!(state.conclude_timeout(ExitPoll::Running), None);
    assert_eq!(state.phase(), Phase::Unstarted);
    let mut state = polling(18080);
    state.on_probe(ProbeOutcome::Unreachable);
    assert_eq!(state.conclude_timeout(ExitPoll::Running), None);
    assert_eq!(state.phase(), Phase::Launching);
    state.on_probe(ProbeOutcome::Status(200));
    assert_eq!(state.conclude_timeout(ExitPoll::Running), None);
    assert_eq!(state.phase(), Phase::Ready);
}

#[test]
fn a_failed_launch_is_final() {
    let mut state = polling(18080);
    exhaust(&mut state);
    state.conclude_timeout(ExitPoll::Running);
    assert!(!state.begin_launch());
    assert_eq!(state.on_probe(ProbeOutcome::Status(200)), PollAction::Abandon);
    assert!(!state.adopt_external(4096));
    assert_eq!(state.conclude_timeout(ExitPoll::Running), None);
    assert!(!state.fail_launch());
    assert_eq!(state.phase(), Phase::Failed);
    assert_eq!(state.stop_sidecar(), Some(Child(1)));
    assert_eq!(state.phase(), Phase::Failed);
    assert_eq!(state.stop_sidecar(), None);
    assert_eq!(state.phase(), Phase::Failed);
}

#[test]
fn a_launch_can_fail_before_any_child_exists() {
    let mut state: SupervisorState<Child> = SupervisorState::new();
    assert!(!state.fail_launch());
    assert_eq!(state.phase(), Phase::Unstarted);
    state.begin_launch();
    assert!(state.fail_launch());
    assert_eq!(state.phase(), Phase::Failed);
    assert_eq!(state.allocated_port(), None);
    assert_eq!(state.get_backend_url(), Err(QueryError::NotStarted));
    assert_eq!(state.install_child(18080, Child(3)), Err(Child(3)));
}

#[test]
fn a_launch_with_a_child_fails_only_by_timeout() {
    let mut state = polling(18080);
    assert!(!state.fail_launch());
    assert_eq!(state.phase(), Phase::Launching);
}

#[test]
fn shutdown_gives_up_the_child_once() {
    let mut state = polling(18080);
    state.on_probe(ProbeOutcome::Status(200));
    assert_eq!(state.stop_sidecar(), Some(Child(1)));
    assert_eq!(state.phase(), Phase::Stopped);
    assert!(!state.is_backend_ready());
    assert_eq!(state.child(), None);
    assert_eq!(state.allocated_port(), Some(18080));
}

#[test]
fn shutdown_twice_changes_nothing_the_second_time() {
    let mut state = polling(18080);
    state.on_probe(ProbeOutcome::Status(200));
    assert_eq!(state.stop_sidecar(), Some(Child(1)));
    let phase = state.phase();
    let port = state.allocated_port();
    let failed = state.failed_probes();
    assert_eq!(state.stop_sidecar(), None);
    assert_eq!(state.phase(), phase);
    assert_eq!(state.allocated_port(), port);
    assert_eq!(state.failed_probes(), failed);
    assert_eq!(state.child(), None);
    assert!(!state.is_backend_ready());
}

#[test]
fn shutdown_without_a_spawn_is_a_no_op() {
    let mut state: SupervisorState<Child> = SupervisorState::new();
    assert_eq!(state.stop_sidecar(), None);
    assert_eq!(state.phase(), Phase::Unstarted);
    assert_eq!(state.allocated_port(), None);
    state.begin_launch();
    assert_eq!(state.stop_sidecar(), None);
    assert_eq!(state.phase(), Phase::Launching);
    assert_eq!(state.install_child(18080, Child(1)), Ok(()));
}

#[test]
fn shutdown_during_polling_stops_the_launch() {
    let mut state = polling(18080);
    state.on_probe(ProbeOutcome::Unreachable);
    assert_eq!(state.stop_sidecar(), Some(Child(1)));
    assert_eq!(state.phase(), Phase::Stopped);
    assert_eq!(state.on_probe(ProbeOutcome::Status(200)), PollAction::Abandon);
    assert!(!state.is_backend_ready());
    assert_eq!(state.phase(), Phase::Stopped);
}

#[test]
fn an_adopted_server_is_ready_at_once() {
    let mut state: SupervisorState<Child> = SupervisorState::new();
    assert!(state.adopt_external(4096));
    assert_eq!(state.phase(), Phase::Ready);
    assert!(state.is_backend_ready());
    assert_eq!(state.allocated_port(), Some(4096));
    assert_eq!(state.get_backend_url(), Ok("http://localhost:4096".to_string()));
    assert_eq!(state.child(), None);
}

#[test]
fn an_adopted_server_is_not_shut_down() {
    let mut state: SupervisorState<Child> = SupervisorState::new();
    state.adopt_external(4096);
    assert_eq!(state.stop_sidecar(), None);
    assert!(state.is_backend_ready());
    assert!(!state.begin_launch());
    assert_eq!(state.install_child(18080, Child(1)), Err(Child(1)));
    assert_eq!(state.allocated_port(), Some(4096));
}

#[test]
fn adoption_needs_an_unstarted_supervisor() {
    let mut state = polling(18080);
    assert!(!state.adopt_external(4096));
    assert_eq!(state.allocated_port(), Some(18080));
    assert!(!state.is_backend_ready());
}

#[test]
fn the_port_never_changes_once_set() {
    let mut state = polling(18080);
    state.on_probe(ProbeOutcome::Unreachable);
    assert_eq!(state.allocated_port(), Some(18080));
    state.adopt_external(1);
    state.install_child(2, Child(2)).unwrap_err();
    state.begin_launch();
    state.on_probe(ProbeOutcome::Status(200));
    assert_eq!(state.allocated_port(), Some(18080));
    state.stop_sidecar();
    state.fail_launch();
    assert_eq!(state.allocated_port(), Some(18080));
}

#[test]
fn the_child_can_be_looked_at_while_it_is_held() {
    let mut state = polling(18080);
    assert_eq!(state.child(), Some(&Child(1)));
    state.on_probe(ProbeOutcome::Status(200));
    assert_eq!(state.child(), Some(&Child(1)));
    state.stop_sidecar();
    assert_eq!(state.child(), None);
}

#[test]
fn a_stopped_backend_stays_stopped() {
    let mut state = polling(18080);
    state.on_probe(ProbeOutcome::Status(200));
    state.stop_sidecar();
    assert!(!state.begin_launch());
    assert!(!state.adopt_external(4096));
    assert_eq!(state.install_child(19090, Child(2)), Err(Child(2)));
    assert_eq!(state.on_probe(ProbeOutcome::Status(200)), PollAction::Abandon);
    assert_eq!(state.conclude_timeout(ExitPoll::Running), None);
    assert!(!state.fail_launch());
    assert_eq!(state.stop_sidecar(), None);
    assert_eq!(state.phase(), Phase::Stopped);
    assert!(!state.is_backend_ready());
}

fn may_follow(before: Phase, after: Phase) -> bool {
    before == after
        || matches!(
            (before, after),
            (Phase::Unstarted, Phase::Launching)
                | (Phase::Unstarted, Phase::Ready)
                | (Phase::Launching, Phase::Ready)
                | (Phase::Launching, Phase::Failed)
                | (Phase::Launching, Phase::Stopped)
                | (Phase::Ready, Phase::Stopped)
        )
}

fn apply(state: &mut SupervisorState<Child>, event: usize, released: &mut u32) {
    match event {
        0 => {
            state.begin_launch();
        }
        1 => {
            state.adopt_external(4096);
        }
        2 => {
            let _ = state.install_child(18080, Child(1));
        }
        3 => {
            state.on_probe(ProbeOutcome::Status(200));
        }
        4 => {
            state.on_probe(ProbeOutcome::Unreachable);
        }
        5 => {
            state.conclude_timeout(ExitPoll::Running);
        }
        6 => {
            state.fail_launch();
        }
        _ => {
            if state.stop_sidecar().is_some() {
                *released += 1;
            }
        }
    }
}

#[test]
fn every_short_run_keeps_the_order() {
    let events = 8usize;
    let length = 5u32;
    for code in 0..events.pow(length) {
        let mut state: SupervisorState<Child> = SupervisorState::new();
        let mut released = 0;
        let mut port = None;
        let mut rest = code;
        for _ in 0..length {
            let before = state.phase();
            apply(&mut state, rest % events, &mut released);
            rest /= events;
            assert!(may_follow(before, state.phase()));
            if state.is_backend_ready() {
                assert!(state.allocated_port().is_some());
            }
            assert_eq!(state.get_backend_url().is_ok(), state.is_backend_ready());
            if port.is_some() {
                assert_eq!(state.allocated_port(), port);
            }
            port = state.allocated_port();
            assert!(released <= 1);
            if released == 1 {
                assert_eq!(state.child(), None);
            }
        }
    }
}
