use sidecar_supervisor::error::{FatalError, Warning};
use sidecar_supervisor::launch::{ExecutionMode, LaunchOutcome};
use sidecar_supervisor::machine::{Action, Event, Phase, Stage, SupervisorConfig};
use sidecar_supervisor::port::PortPolicy;
use sidecar_supervisor::probe::PollResult;
use sidecar_supervisor::supervisor::Supervisor;

/// A stand-in for the host's reference to a process.
type FakeChild = u32;

fn packaged(policy: PortPolicy, timeout_secs: u64, poll_interval_ms: u64) -> SupervisorConfig {
    SupervisorConfig { mode: ExecutionMode::Packaged, policy, timeout_secs, poll_interval_ms }
}

/// Drives a packaged startup up to the first health request.
fn start_probing(config: SupervisorConfig, port: u16, child: FakeChild) -> Supervisor<FakeChild> {
    let mut supervisor = Supervisor::new(config);
    let mut action = supervisor.on_event(Event::Startup { now: 1_000 });
    if action == Action::ProbePort {
        action = supervisor.on_event(Event::PortProbed(Some(port)));
    }
    assert_eq!(action, Action::Launch { port });
    let action = supervisor.on_event(Event::Launched(LaunchOutcome::Spawned(child)));
    assert_eq!(action, Action::Poll { port });
    supervisor
}

#[test]
fn default_configurations() {
    assert_eq!(
        SupervisorConfig::development(),
        SupervisorConfig {
            mode: ExecutionMode::Development,
            policy: PortPolicy::Fixed(8765),
            timeout_secs: 60,
            poll_interval_ms: 200,
        }
    );
    assert_eq!(
        SupervisorConfig::packaged(),
        SupervisorConfig {
            mode: ExecutionMode::Packaged,
            policy: PortPolicy::Ephemeral,
            timeout_secs: 60,
            poll_interval_ms: 200,
        }
    );
}

#[test]
fn new_supervisor_is_uninitialized() {
    let supervisor: Supervisor<FakeChild> = Supervisor::new(SupervisorConfig::packaged());
    assert_eq!(supervisor.phase(), Phase::Uninitialized);
    assert_eq!(supervisor.stage(), Stage::Uninitialized);
    assert_eq!(supervisor.port(), None);
    assert_eq!(supervisor.started_at(), None);
    assert!(!supervisor.has_process());
}

#[test]
fn development_startup_launches_nothing_and_reports_the_development_port() {
    let mut supervisor: Supervisor<FakeChild> = Supervisor::new(SupervisorConfig::development());
    let action = supervisor.on_event(Event::Startup { now: 42 });
    assert_eq!(action, Action::Finish { warning: None });
    assert_eq!(supervisor.phase(), Phase::Ready);
    assert_eq!(supervisor.get_backend_port(), 8765);
    assert_eq!(supervisor.started_at(), Some(42));
    assert!(!supervisor.has_process());
}

#[test]
fn packaged_startup_on_an_ephemeral_port() {
    let mut supervisor: Supervisor<FakeChild> = Supervisor::new(SupervisorConfig::packaged());
    assert_eq!(supervisor.on_event(Event::Startup { now: 7 }), Action::ProbePort);
    assert_eq!(supervisor.phase(), Phase::Starting);
    assert_eq!(supervisor.stage(), Stage::ResolvingPort);
    assert_eq!(supervisor.port(), None);

    assert_eq!(
        supervisor.on_event(Event::PortProbed(Some(53_111))),
        Action::Launch { port: 53_111 }
    );
    assert_eq!(supervisor.stage(), Stage::Launching);

    assert_eq!(
        supervisor.on_event(Event::Launched(LaunchOutcome::Spawned(900))),
        Action::Poll { port: 53_111 }
    );
    assert_eq!(supervisor.stage(), Stage::Polling);
    assert_eq!(supervisor.phase(), Phase::Starting);
    assert!(supervisor.has_process());

    assert_eq!(
        supervisor.on_event(Event::Polled(PollResult::Unreachable)),
        Action::Sleep { millis: 200 }
    );
    assert_eq!(supervisor.stage(), Stage::Sleeping);
    assert_eq!(
        supervisor.on_event(Event::Slept { elapsed_ms: 203 }),
        Action::Poll { port: 53_111 }
    );
    assert_eq!(
        supervisor.on_event(Event::Polled(PollResult::Status(200))),
        Action::Finish { warning: None }
    );
    assert_eq!(supervisor.phase(), Phase::Ready);
    assert_eq!(supervisor.get_backend_port(), 53_111);
    assert_eq!(supervisor.started_at(), Some(7));
    assert!(supervisor.has_process());
}

#[test]
fn fixed_port_is_reported_after_startup() {
    for port in [1u16, 80, 8765, 49_152, 65_535] {
        let config = packaged(PortPolicy::Fixed(port), 60, 200);

        let mut with_child = start_probing(config, port, 5);
        assert_eq!(
            with_child.on_event(Event::Polled(PollResult::Status(204))),
            Action::Finish { warning: None }
        );
        assert_eq!(with_child.get_backend_port(), port);

        let mut without: Supervisor<FakeChild> = Supervisor::new(config);
        assert_eq!(without.on_event(Event::Startup { now: 0 }), Action::Launch { port });
        without.on_event(Event::Launched(LaunchOutcome::BinaryMissing));
        assert_eq!(without.get_backend_port(), port);

        let development = SupervisorConfig {
            mode: ExecutionMode::Development,
            policy: PortPolicy::Fixed(port),
            timeout_secs: 60,
            poll_interval_ms: 200,
        };
        let mut dev: Supervisor<FakeChild> = Supervisor::new(development);
        assert_eq!(dev.on_event(Event::Startup { now: 0 }), Action::Finish { warning: None });
        assert_eq!(dev.get_backend_port(), port);
    }
}

#[test]
fn refused_bind_aborts_startup() {
    let mut supervisor: Supervisor<FakeChild> = Supervisor::new(SupervisorConfig::packaged());
    supervisor.on_event(Event::Startup { now: 0 });
    assert_eq!(
        supervisor.on_event(Event::PortProbed(None)),
        Action::Abort { error: FatalError::PortAllocation }
    );
    assert_eq!(supervisor.stage(), Stage::Failed);
    assert_eq!(supervisor.phase(), Phase::Starting);
    assert_eq!(supervisor.port(), None);
    assert!(!supervisor.has_process());
}

#[test]
fn refused_spawn_aborts_startup() {
    let mut supervisor: Supervisor<FakeChild> =
        Supervisor::new(packaged(PortPolicy::Fixed(8765), 60, 200));
    assert_eq!(supervisor.on_event(Event::Startup { now: 0 }), Action::Launch { port: 8765 });
    assert_eq!(
        supervisor.on_event(Event::Launched(LaunchOutcome::SpawnFailed)),
        Action::Abort { error: FatalError::Spawn }
    );
    assert_eq!(supervisor.stage(), Stage::Failed);
    assert_eq!(supervisor.port(), None);
    assert!(!supervisor.has_process());
}

#[test]
fn missing_binary_is_recovered_and_the_port_still_reported() {
    let mut supervisor: Supervisor<FakeChild> = Supervisor::new(SupervisorConfig::packaged());
    supervisor.on_event(Event::Startup { now: 0 });
    assert_eq!(
        supervisor.on_event(Event::PortProbed(Some(50_500))),
        Action::Launch { port: 50_500 }
    );
    assert_eq!(
        supervisor.on_event(Event::Launched(LaunchOutcome::BinaryMissing)),
        Action::Finish { warning: Some(Warning::MissingBinary) }
    );
    assert_eq!(supervisor.phase(), Phase::Ready);
    assert_eq!(supervisor.get_backend_port(), 50_500);
    assert!(!supervisor.has_process());

    // Nothing that comes later puts a process into the handle.
    assert_eq!(
        supervisor.on_event(Event::Launched(LaunchOutcome::Spawned(77))),
        Action::Kill { process: 77 }
    );
    assert_eq!(supervisor.on_event(Event::Polled(PollResult::Status(200))), Action::Idle);
    assert_eq!(supervisor.on_event(Event::Startup { now: 9 }), Action::Idle);
    assert!(!supervisor.has_process());
    assert_eq!(supervisor.get_backend_port(), 50_500);
    assert_eq!(supervisor.terminate(), None);
    assert_eq!(supervisor.get_backend_port(), 50_500);
}

#[test]
fn timeout_comes_at_the_deadline_and_not_before() {
    let config = packaged(PortPolicy::Fixed(8765), 60, 200);
    let mut supervisor = start_probing(config, 8765, 1);
    let mut elapsed_ms: u64 = 0;
    let mut polls: u64 = 1;
    let error = loop {
        let action = supervisor.on_event(Event::Polled(PollResult::Unreachable));
        assert_eq!(action, Action::Sleep { millis: 200 });
        elapsed_ms += 200;
        match supervisor.on_event(Event::Slept { elapsed_ms }) {
            Action::Poll { port } => {
                assert_eq!(port, 8765);
                assert!(elapsed_ms < 60_000);
                polls += 1;
            }
            Action::Abort { error } => break error,
            other => panic!("unexpected action {:?}", other),
        }
    };
    assert_eq!(error, FatalError::ReadinessTimeout { timeout_secs: 60 });
    assert_eq!(elapsed_ms, 60_000);
    assert_eq!(polls, 300);
    assert_eq!(supervisor.stage(), Stage::Failed);
    assert_eq!(supervisor.phase(), Phase::Starting);
}

#[test]
fn timeout_is_overshot_by_less_than_one_interval() {
    let config = packaged(PortPolicy::Fixed(8765), 1, 300);
    let mut supervisor = start_probing(config, 8765, 1);
    let mut elapsed_ms: u64 = 0;
    loop {
        supervisor.on_event(Event::Polled(PollResult::Status(500)));
        elapsed_ms += 300;
        match supervisor.on_event(Event::Slept { elapsed_ms }) {
            Action::Poll { .. } => assert!(elapsed_ms < 1_000),
            Action::Abort { error } => {
                assert_eq!(error, FatalError::ReadinessTimeout { timeout_secs: 1 });
                break;
            }
            other => panic!("unexpected action {:?}", other),
        }
    }
    assert_eq!(elapsed_ms, 1_200);
}

#[test]
fn zero_timeout_fails_before_the_first_request() {
    let mut supervisor: Supervisor<FakeChild> =
        Supervisor::new(packaged(PortPolicy::Fixed(8765), 0, 200));
    supervisor.on_event(Event::Startup { now: 0 });
    assert_eq!(
        supervisor.on_event(Event::Launched(LaunchOutcome::Spawned(4))),
        Action::Abort { error: FatalError::ReadinessTimeout { timeout_secs: 0 } }
    );
    assert_eq!(supervisor.stage(), Stage::Failed);
    // The child is still held, so that a shutdown trigger can signal it.
    assert!(supervisor.has_process());
    assert_eq!(supervisor.terminate(), Some(4));
}

#[test]
fn success_on_the_fourth_request_takes_three_pauses() {
    let config = packaged(PortPolicy::Fixed(8765), 60, 200);
    let mut supervisor = start_probing(config, 8765, 1);
    let mut paused_ms: u64 = 0;
    let results = [
        PollResult::Unreachable,
        PollResult::Status(503),
        PollResult::Unreachable,
        PollResult::Status(200),
    ];
    let mut finished = false;
    for result in results {
        match supervisor.on_event(Event::Polled(result)) {
            Action::Sleep { millis } => {
                paused_ms += millis;
                assert_eq!(
                    supervisor.on_event(Event::Slept { elapsed_ms: paused_ms }),
                    Action::Poll { port: 8765 }
                );
            }
            Action::Finish { warning } => {
                assert_eq!(warning, None);
                finished = true;
            }
            other => panic!("unexpected action {:?}", other),
        }
    }
    assert!(finished);
    assert_eq!(paused_ms, 600);
    assert_eq!(supervisor.phase(), Phase::Ready);
}

#[test]
fn success_on_the_first_request_takes_no_pause() {
    let mut supervisor = start_probing(SupervisorConfig::packaged(), 50_001, 1);
    assert_eq!(
        supervisor.on_event(Event::Polled(PollResult::Status(200))),
        Action::Finish { warning: None }
    );
    assert_eq!(supervisor.phase(), Phase::Ready);
}

#[test]
fn error_statuses_count_as_not_ready_yet() {
    let mut supervisor = start_probing(SupervisorConfig::packaged(), 50_001, 1);
    for code in [199u16, 300, 404, 500] {
        assert_eq!(
            supervisor.on_event(Event::Polled(PollResult::Status(code))),
            Action::Sleep { millis: 200 }
        );
        assert_eq!(
            supervisor.on_event(Event::Slept { elapsed_ms: 10 }),
            Action::Poll { port: 50_001 }
        );
    }
    assert_eq!(supervisor.phase(), Phase::Starting);
}

#[test]
fn terminate_signals_the_child_exactly_once() {
    let mut supervisor = start_probing(SupervisorConfig::packaged(), 50_001, 321);
    supervisor.on_event(Event::Polled(PollResult::Status(200)));
    assert!(supervisor.has_process());

    let mut signals = Vec::new();
    for _ in 0..5 {
        if let Some(child) = supervisor.terminate() {
            signals.push(child);
        }
        assert_eq!(supervisor.phase(), Phase::Terminated);
        assert!(!supervisor.has_process());
        assert_eq!(supervisor.get_backend_port(), 50_001);
    }
    assert_eq!(signals, vec![321]);
}

#[test]
fn terminate_without_a_process_signals_nothing() {
    let mut supervisor: Supervisor<FakeChild> = Supervisor::new(SupervisorConfig::development());
    supervisor.on_event(Event::Startup { now: 0 });
    assert_eq!(supervisor.terminate(), None);
    assert_eq!(supervisor.terminate(), None);
    assert_eq!(supervisor.phase(), Phase::Terminated);
    assert_eq!(supervisor.get_backend_port(), 8765);
}

#[test]
fn shutdown_event_and_terminate_agree() {
    let mut by_event = start_probing(SupervisorConfig::packaged(), 50_001, 8);
    assert_eq!(by_event.on_event(Event::Shutdown), Action::Kill { process: 8 });
    assert_eq!(by_event.on_event(Event::Shutdown), Action::Idle);
    assert_eq!(by_event.terminate(), None);

    let mut by_call = start_probing(SupervisorConfig::packaged(), 50_001, 8);
    assert_eq!(by_call.terminate(), Some(8));
    assert_eq!(by_call.on_event(Event::Shutdown), Action::Idle);
    assert_eq!(by_event.stage(), by_call.stage());
}

#[test]
fn shutdown_during_the_probe_ends_it() {
    let mut supervisor = start_probing(SupervisorConfig::packaged(), 50_001, 8);
    assert_eq!(supervisor.terminate(), Some(8));
    assert_eq!(supervisor.on_event(Event::Polled(PollResult::Status(200))), Action::Idle);
    assert_eq!(supervisor.on_event(Event::Slept { elapsed_ms: 200 }), Action::Idle);
    assert_eq!(supervisor.phase(), Phase::Terminated);
    assert!(!supervisor.has_process());
}

#[test]
fn terminated_is_absorbing() {
    let mut supervisor: Supervisor<FakeChild> = Supervisor::new(SupervisorConfig::packaged());
    assert_eq!(supervisor.terminate(), None);
    assert_eq!(supervisor.phase(), Phase::Terminated);
    assert_eq!(supervisor.on_event(Event::Startup { now: 1 }), Action::Idle);
    assert_eq!(supervisor.on_event(Event::PortProbed(Some(50_000))), Action::Idle);
    assert_eq!(supervisor.on_event(Event::Launched(LaunchOutcome::BinaryMissing)), Action::Idle);
    assert_eq!(supervisor.on_event(Event::Launched(LaunchOutcome::SpawnFailed)), Action::Idle);
    assert_eq!(supervisor.on_event(Event::Polled(PollResult::Status(200))), Action::Idle);
    assert_eq!(supervisor.on_event(Event::Slept { elapsed_ms: 0 }), Action::Idle);
    assert_eq!(supervisor.phase(), Phase::Terminated);
    assert_eq!(supervisor.port(), None);
    assert!(!supervisor.has_process());
}

#[test]
fn child_that_arrives_after_termination_is_signalled_at_once() {
    let mut supervisor: Supervisor<FakeChild> =
        Supervisor::new(packaged(PortPolicy::Fixed(8765), 60, 200));
    assert_eq!(supervisor.on_event(Event::Startup { now: 0 }), Action::Launch { port: 8765 });
    assert_eq!(supervisor.terminate(), None);
    assert_eq!(
        supervisor.on_event(Event::Launched(LaunchOutcome::Spawned(55))),
        Action::Kill { process: 55 }
    );
    assert!(!supervisor.has_process());
    assert_eq!(supervisor.phase(), Phase::Terminated);
}

#[test]
fn second_child_never_replaces_the_first() {
    let mut supervisor = start_probing(SupervisorConfig::packaged(), 50_001, 1);
    assert_eq!(
        supervisor.on_event(Event::Launched(LaunchOutcome::Spawned(2))),
        Action::Kill { process: 2 }
    );
    assert_eq!(supervisor.stage(), Stage::Polling);
    assert_eq!(supervisor.terminate(), Some(1));
}

#[test]
fn events_out_of_turn_change_nothing() {
    let mut supervisor: Supervisor<FakeChild> = Supervisor::new(SupervisorConfig::packaged());
    assert_eq!(supervisor.on_event(Event::PortProbed(Some(50_000))), Action::Idle);
    assert_eq!(supervisor.on_event(Event::Polled(PollResult::Status(200))), Action::Idle);
    assert_eq!(supervisor.on_event(Event::Slept { elapsed_ms: 5 }), Action::Idle);
    assert_eq!(supervisor.phase(), Phase::Uninitialized);

    assert_eq!(supervisor.on_event(Event::Startup { now: 3 }), Action::ProbePort);
    assert_eq!(supervisor.on_event(Event::Startup { now: 4 }), Action::Idle);
    assert_eq!(supervisor.on_event(Event::Polled(PollResult::Status(200))), Action::Idle);
    assert_eq!(supervisor.stage(), Stage::ResolvingPort);
}

#[test]
fn startup_runs_once() {
    let mut supervisor: Supervisor<FakeChild> = Supervisor::new(SupervisorConfig::development());
    assert_eq!(supervisor.on_event(Event::Startup { now: 10 }), Action::Finish { warning: None });
    assert_eq!(supervisor.on_event(Event::Startup { now: 20 }), Action::Idle);
    assert_eq!(supervisor.started_at(), Some(10));
    assert_eq!(supervisor.phase(), Phase::Ready);
}

#[test]
fn development_with_an_ephemeral_policy_probes_but_launches_nothing() {
    let config = SupervisorConfig {
        mode: ExecutionMode::Development,
        policy: PortPolicy::Ephemeral,
        timeout_secs: 60,
        poll_interval_ms: 200,
    };
    let mut supervisor: Supervisor<FakeChild> = Supervisor::new(config);
    assert_eq!(supervisor.on_event(Event::Startup { now: 0 }), Action::ProbePort);
    assert_eq!(
        supervisor.on_event(Event::PortProbed(Some(61_000))),
        Action::Finish { warning: None }
    );
    assert_eq!(supervisor.get_backend_port(), 61_000);
    assert!(!supervisor.has_process());
}

#[test]
fn fatal_error_messages() {
    assert_eq!(FatalError::PortAllocation.message(), "Failed to bind to ephemeral port");
    assert_eq!(FatalError::Spawn.message(), "Failed to spawn backend sidecar");
    assert_eq!(
        FatalError::ReadinessTimeout { timeout_secs: 60 }.message(),
        "Backend server failed to start within 60 seconds"
    );
    assert_eq!(
        FatalError::ReadinessTimeout { timeout_secs: 0 }.message(),
        "Backend server failed to start within 0 seconds"
    );
}

#[test]
fn warning_message() {
    assert_eq!(
        Warning::MissingBinary.message(),
        "Backend sidecar binary not found, continuing without a backend"
    );
}
