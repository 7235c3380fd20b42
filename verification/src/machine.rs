//! The supervisor as a state machine: from a state and an event that the
//! host reports to the next state and the action that the host carries out.

use vstd::prelude::*;
use crate::error::{FatalError, Warning};
use crate::launch::{
    launch_plan, plan_launch, settle_launch, settled, Attachment, ExecutionMode, LaunchOutcome,
    LaunchPlan,
};
use crate::port::{find_free_port, probed_assignment, PortAssignment, PortPolicy, DEV_PORT};
use crate::probe::{
    probe_after, probe_at, step_after, step_at, PollResult, ProbeStep, POLL_INTERVAL_MS,
    READINESS_TIMEOUT_SECS,
};

verus! {

/// What is known of the backend for the rest of the application's run.
/// `P` is the host's reference to the running process.
#[derive(Debug, PartialEq, Eq)]
pub struct BackendHandle<P> {
    /// The resolved port; written once.
    pub port: u16,
    /// The running child; `None` when nothing was launched and, for good,
    /// once termination has taken it.
    pub process_handle: Option<P>,
    /// When startup began, in milliseconds of the host's clock.
    pub started_at: u64,
}

/// The choices made once, before the application starts.
#[derive(Clone, Copy, Debug, PartialEq, Eq, Structural)]
pub struct SupervisorConfig {
    pub mode: ExecutionMode,
    pub policy: PortPolicy,
    /// Time that the backend is given to become reachable, in seconds.
    pub timeout_secs: u64,
    /// Pause between two health requests, in milliseconds.
    pub poll_interval_ms: u64,
}

/// The four phases of the backend's life.
#[derive(Clone, Copy, Debug, PartialEq, Eq, Structural)]
pub enum Phase {
    Uninitialized,
    Starting,
    Ready,
    Terminated,
}

/// Where the supervisor stands; the stages from `ResolvingPort` to `Failed`
/// make up the phase `Starting`.
#[derive(Clone, Copy, Debug, PartialEq, Eq, Structural)]
pub enum Stage {
    /// Startup has not been asked for.
    Uninitialized,
    /// Waiting for the host's probe of an ephemeral port.
    ResolvingPort,
    /// Waiting for the outcome of the launch.
    Launching,
    /// A health request is under way.
    Polling,
    /// Pausing between two health requests.
    Sleeping,
    /// Startup ended with a fatal error; the application is never ready.
    Failed,
    /// Startup is complete, with or without a process.
    Ready,
    /// Termination has run. Nothing leaves this stage.
    Terminated,
}

impl Stage {
    pub open spec fn phase(self) -> Phase {
        match self {
            Stage::Uninitialized => Phase::Uninitialized,
            Stage::Ready => Phase::Ready,
            Stage::Terminated => Phase::Terminated,
            _ => Phase::Starting,
        }
    }

    pub fn to_phase(&self) -> (phase: Phase)
        ensures
            phase == self.phase(),
    {
        match self {
            Stage::Uninitialized => Phase::Uninitialized,
            Stage::Ready => Phase::Ready,
            Stage::Terminated => Phase::Terminated,
            _ => Phase::Starting,
        }
    }
}

/// What the host reports to the supervisor.
#[derive(Debug, PartialEq, Eq)]
pub enum Event<P> {
    /// The host asks for startup; `now` is its clock, in milliseconds.
    Startup { now: u64 },
    /// The probe for an ephemeral port is done: the port that the operating
    /// system assigned, or `None` when the bind was refused.
    PortProbed(Option<u16>),
    /// The launch that was asked for is done.
    Launched(LaunchOutcome<P>),
    /// The health request that was asked for is done.
    Polled(PollResult),
    /// The pause that was asked for is over; `elapsed_ms` is the time since
    /// the first health request was asked for.
    Slept { elapsed_ms: u64 },
    /// A shutdown trigger fired.
    Shutdown,
}

/// What the supervisor asks of the host. After `ProbePort`, `Launch`, `Poll`
/// and `Sleep` the host reports the matching event; the others end the
/// exchange.
#[derive(Debug, PartialEq, Eq)]
pub enum Action<P> {
    /// Nothing to do: the event had no bearing on the current stage.
    Idle,
    /// Bind a listener to the loopback address with port 0, read the port
    /// that was assigned, release the listener.
    ProbePort,
    /// Locate the bundled executable and start it on this port.
    Launch { port: u16 },
    /// Send a GET request to the health endpoint on this port.
    Poll { port: u16 },
    /// Pause for this many milliseconds.
    Sleep { millis: u64 },
    /// Startup succeeded; log the warning, if there is one.
    Finish { warning: Option<Warning> },
    /// Startup failed: abort the launch of the application.
    Abort { error: FatalError },
    /// Send the termination signal to this process.
    Kill { process: P },
}

/// The whole state of the supervisor.
#[derive(Debug, PartialEq, Eq)]
pub struct SupervisorState<P> {
    pub config: SupervisorConfig,
    pub stage: Stage,
    /// The resolved port, from the moment it is known.
    pub assignment: Option<PortAssignment>,
    /// The one backend handle, from the moment the launch is settled.
    pub handle: Option<BackendHandle<P>>,
    /// The host's clock at startup.
    pub started_at: u64,
}

impl SupervisorConfig {
    /// A developer's run: nothing is launched, the backend is expected on
    /// the development port.
    pub fn development() -> (config: SupervisorConfig)
        ensures
            config == (SupervisorConfig {
                mode: ExecutionMode::Development,
                policy: PortPolicy::Fixed(DEV_PORT),
                timeout_secs: READINESS_TIMEOUT_SECS,
                poll_interval_ms: POLL_INTERVAL_MS,
            }),
    {
        SupervisorConfig {
            mode: ExecutionMode::Development,
            policy: PortPolicy::Fixed(DEV_PORT),
            timeout_secs: READINESS_TIMEOUT_SECS,
            poll_interval_ms: POLL_INTERVAL_MS,
        }
    }

    /// A packaged run: the bundled backend is started on an ephemeral port
    /// and given a minute to answer.
    pub fn packaged() -> (config: SupervisorConfig)
        ensures
            config == (SupervisorConfig {
                mode: ExecutionMode::Packaged,
                policy: PortPolicy::Ephemeral,
                timeout_secs: READINESS_TIMEOUT_SECS,
                poll_interval_ms: POLL_INTERVAL_MS,
            }),
    {
        SupervisorConfig {
            mode: ExecutionMode::Packaged,
            policy: PortPolicy::Ephemeral,
            timeout_secs: READINESS_TIMEOUT_SECS,
            poll_interval_ms: POLL_INTERVAL_MS,
        }
    }
}

impl<P> SupervisorState<P> {
    /// The state before startup.
    pub open spec fn initial(config: SupervisorConfig) -> SupervisorState<P> {
        SupervisorState {
            config,
            stage: Stage::Uninitialized,
            assignment: None,
            handle: None,
            started_at: 0,
        }
    }

    pub fn new(config: SupervisorConfig) -> (state: SupervisorState<P>)
        ensures
            state == Self::initial(config),
    {
        SupervisorState {
            config,
            stage: Stage::Uninitialized,
            assignment: None,
            handle: None,
            started_at: 0,
        }
    }

    /// The process that the handle holds, if any.
    pub open spec fn process(self) -> Option<P> {
        match self.handle {
            Some(handle) => handle.process_handle,
            None => None,
        }
    }

    /// The port that `get_backend_port` reports: that of the handle, once
    /// the handle is published.
    pub open spec fn port(self) -> Option<u16> {
        match self.handle {
            Some(handle) => Some(handle.port),
            None => None,
        }
    }

    /// What holds of every state that the supervisor reaches.
    pub open spec fn well_formed(self) -> bool {
        &&& self.stage is Uninitialized ==> self.assignment is None && self.handle is None
        &&& self.stage is ResolvingPort ==> self.assignment is None && self.handle is None
                && self.config.policy is Ephemeral
        &&& self.stage is Launching ==> self.assignment is Some && self.handle is None
                && self.config.mode is Packaged
        &&& self.stage is Polling || self.stage is Sleeping ==> self.process() is Some
        &&& self.stage is Ready ==> self.handle is Some
        &&& self.stage is Terminated ==> self.process() is None
        &&& self.process() is Some ==> self.config.mode is Packaged
        &&& self.handle matches Some(handle) ==> {
            &&& self.assignment matches Some(assignment)
            &&& handle.port == assignment.number()
            &&& handle.started_at == self.started_at
        }
        &&& self.assignment matches Some(assignment) ==> match self.config.policy {
            PortPolicy::Fixed(port) => assignment == PortAssignment::Fixed(port),
            PortPolicy::Ephemeral => assignment is Ephemeral,
        }
    }

    /// The state with the stage replaced.
    pub open spec fn at(self, stage: Stage) -> SupervisorState<P> {
        SupervisorState { stage, ..self }
    }

    /// The port is resolved: the launcher decides. In development nothing is
    /// launched, the handle is published with no process and startup is
    /// complete. When packaged the host is asked to start the executable.
    pub open spec fn with_port(self, assignment: PortAssignment) -> (SupervisorState<P>, Action<P>) {
        match launch_plan(self.config.mode, assignment.number()) {
            LaunchPlan::Skip => (
                SupervisorState {
                    stage: Stage::Ready,
                    assignment: Some(assignment),
                    handle: Some(
                        BackendHandle {
                            port: assignment.number(),
                            process_handle: None,
                            started_at: self.started_at,
                        },
                    ),
                    ..self
                },
                Action::Finish { warning: None },
            ),
            LaunchPlan::Spawn { port } => (
                SupervisorState { stage: Stage::Launching, assignment: Some(assignment), ..self },
                Action::Launch { port },
            ),
        }
    }

    /// The decision at the top of a round of the readiness probe.
    pub open spec fn probing_at(self, elapsed_ms: u64, port: u16) -> (SupervisorState<P>, Action<P>) {
        match step_at(elapsed_ms, self.config.timeout_secs) {
            ProbeStep::Poll => (self.at(Stage::Polling), Action::Poll { port }),
            _ => (
                self.at(Stage::Failed),
                Action::Abort {
                    error: FatalError::ReadinessTimeout { timeout_secs: self.config.timeout_secs },
                },
            ),
        }
    }

    /// The launch is settled. A refused spawn is fatal. Otherwise the handle
    /// is published: with no process startup is complete, with a warning to
    /// log; with a process the readiness probe begins.
    pub open spec fn with_outcome(self, outcome: LaunchOutcome<P>, port: u16) -> (
        SupervisorState<P>,
        Action<P>,
    ) {
        match settled(outcome) {
            Err(error) => (self.at(Stage::Failed), Action::Abort { error }),
            Ok(attachment) => {
                let published = SupervisorState {
                    handle: Some(
                        BackendHandle {
                            port,
                            process_handle: attachment.process,
                            started_at: self.started_at,
                        },
                    ),
                    ..self
                };
                if attachment.process is Some {
                    published.probing_at(0, port)
                } else {
                    (published.at(Stage::Ready), Action::Finish { warning: attachment.warning })
                }
            },
        }
    }

    /// Termination: the process, if one is held, leaves the handle to be
    /// signalled, and the supervisor is terminated for good.
    pub open spec fn shut_down(self) -> (SupervisorState<P>, Action<P>) {
        let action = match self.process() {
            Some(process) => Action::Kill { process },
            None => Action::Idle,
        };
        let handle = match self.handle {
            Some(handle) => Some(BackendHandle { process_handle: None, ..handle }),
            None => None,
        };
        (SupervisorState { stage: Stage::Terminated, handle, ..self }, action)
    }

    /// An event that the current stage does not wait for changes nothing. A
    /// process that arrives with it is signalled at once, so that none
    /// outlives the supervisor's knowledge of it.
    pub open spec fn unexpected(self, event: Event<P>) -> (SupervisorState<P>, Action<P>) {
        match event {
            Event::Launched(LaunchOutcome::Spawned(process)) => (self, Action::Kill { process }),
            _ => (self, Action::Idle),
        }
    }

    /// The next state and the action, for every state and every event.
    pub open spec fn transition(self, event: Event<P>) -> (SupervisorState<P>, Action<P>) {
        match (self.stage, event) {
            (_, Event::Shutdown) => self.shut_down(),
            (Stage::Uninitialized, Event::Startup { now }) => {
                let started = SupervisorState { started_at: now, ..self };
                match self.config.policy.immediate() {
                    Some(assignment) => started.with_port(assignment),
                    None => (started.at(Stage::ResolvingPort), Action::ProbePort),
                }
            },
            (Stage::ResolvingPort, Event::PortProbed(probed)) => match probed_assignment(probed) {
                Ok(assignment) => self.with_port(assignment),
                Err(error) => (self.at(Stage::Failed), Action::Abort { error }),
            },
            (Stage::Launching, Event::Launched(outcome)) => match self.assignment {
                Some(assignment) => self.with_outcome(outcome, assignment.number()),
                None => self.unexpected(event),
            },
            (Stage::Polling, Event::Polled(result)) => match step_after(
                result,
                self.config.poll_interval_ms,
            ) {
                ProbeStep::Ready => (self.at(Stage::Ready), Action::Finish { warning: None }),
                _ => (
                    self.at(Stage::Sleeping),
                    Action::Sleep { millis: self.config.poll_interval_ms },
                ),
            },
            (Stage::Sleeping, Event::Slept { elapsed_ms }) => match self.handle {
                Some(handle) => self.probing_at(elapsed_ms, handle.port),
                None => self.unexpected(event),
            },
            _ => self.unexpected(event),
        }
    }
}

impl<P> SupervisorState<P> {
    fn resolved(self, assignment: PortAssignment) -> (next: (SupervisorState<P>, Action<P>))
        ensures
            next == self.with_port(assignment),
    {
        match plan_launch(self.config.mode, assignment.port()) {
            LaunchPlan::Skip => {
                let handle = BackendHandle {
                    port: assignment.port(),
                    process_handle: None,
                    started_at: self.started_at,
                };
                (
                    SupervisorState {
                        stage: Stage::Ready,
                        assignment: Some(assignment),
                        handle: Some(handle),
                        ..self
                    },
                    Action::Finish { warning: None },
                )
            },
            LaunchPlan::Spawn { port } => (
                SupervisorState { stage: Stage::Launching, assignment: Some(assignment), ..self },
                Action::Launch { port },
            ),
        }
    }

    fn probe_round(self, elapsed_ms: u64, port: u16) -> (next: (SupervisorState<P>, Action<P>))
        ensures
            next == self.probing_at(elapsed_ms, port),
    {
        let timeout_secs = self.config.timeout_secs;
        match probe_at(elapsed_ms, timeout_secs) {
            ProbeStep::Poll => (SupervisorState { stage: Stage::Polling, ..self }, Action::Poll { port }),
            _ => (
                SupervisorState { stage: Stage::Failed, ..self },
                Action::Abort { error: FatalError::ReadinessTimeout { timeout_secs } },
            ),
        }
    }

    fn launched(self, outcome: LaunchOutcome<P>, port: u16) -> (next: (
        SupervisorState<P>,
        Action<P>,
    ))
        ensures
            next == self.with_outcome(outcome, port),
    {
        match settle_launch(outcome) {
            Err(error) => (SupervisorState { stage: Stage::Failed, ..self }, Action::Abort { error }),
            Ok(attachment) => {
                let Attachment { process, warning } = attachment;
                let probing = process.is_some();
                let handle = BackendHandle {
                    port,
                    process_handle: process,
                    started_at: self.started_at,
                };
                let published = SupervisorState { handle: Some(handle), ..self };
                if probing {
                    published.probe_round(0, port)
                } else {
                    (SupervisorState { stage: Stage::Ready, ..published }, Action::Finish { warning })
                }
            },
        }
    }

    fn terminated(self) -> (next: (SupervisorState<P>, Action<P>))
        ensures
            next == self.shut_down(),
    {
        let SupervisorState { config, stage: _, assignment, handle, started_at } = self;
        match handle {
            Some(BackendHandle { port, process_handle, started_at: since }) => {
                let action = match process_handle {
                    Some(process) => Action::Kill { process },
                    None => Action::Idle,
                };
                let cleared = BackendHandle { port, process_handle: None, started_at: since };
                (
                    SupervisorState {
                        config,
                        stage: Stage::Terminated,
                        assignment,
                        handle: Some(cleared),
                        started_at,
                    },
                    action,
                )
            },
            None => (
                SupervisorState {
                    config,
                    stage: Stage::Terminated,
                    assignment,
                    handle: None,
                    started_at,
                },
                Action::Idle,
            ),
        }
    }

    fn ignored(self, event: Event<P>) -> (next: (SupervisorState<P>, Action<P>))
        ensures
            next == self.unexpected(event),
    {
        match event {
            Event::Launched(LaunchOutcome::Spawned(process)) => (self, Action::Kill { process }),
            _ => (self, Action::Idle),
        }
    }

    /// Takes one event and gives the next state and the action to carry out.
    pub fn step(self, event: Event<P>) -> (next: (SupervisorState<P>, Action<P>))
        ensures
            next == self.transition(event),
    {
        match event {
            Event::Shutdown => self.terminated(),
            Event::Startup { now } => match self.stage {
                Stage::Uninitialized => {
                    let started = SupervisorState { started_at: now, ..self };
                    match started.config.policy.resolve_fixed() {
                        Some(assignment) => started.resolved(assignment),
                        None => (
                            SupervisorState { stage: Stage::ResolvingPort, ..started },
                            Action::ProbePort,
                        ),
                    }
                },
                _ => self.ignored(Event::Startup { now }),
            },
            Event::PortProbed(probed) => match self.stage {
                Stage::ResolvingPort => match find_free_port(probed) {
                    Ok(assignment) => self.resolved(assignment),
                    Err(error) => (
                        SupervisorState { stage: Stage::Failed, ..self },
                        Action::Abort { error },
                    ),
                },
                _ => self.ignored(Event::PortProbed(probed)),
            },
            Event::Launched(outcome) => match (self.stage, self.assignment) {
                (Stage::Launching, Some(assignment)) => self.launched(outcome, assignment.port()),
                _ => self.ignored(Event::Launched(outcome)),
            },
            Event::Polled(result) => match self.stage {
                Stage::Polling => {
                    let interval = self.config.poll_interval_ms;
                    match probe_after(result, interval) {
                        ProbeStep::Ready => (
                            SupervisorState { stage: Stage::Ready, ..self },
                            Action::Finish { warning: None },
                        ),
                        _ => (
                            SupervisorState { stage: Stage::Sleeping, ..self },
                            Action::Sleep { millis: interval },
                        ),
                    }
                },
                _ => self.ignored(Event::Polled(result)),
            },
            Event::Slept { elapsed_ms } => {
                let port = match (&self.stage, &self.handle) {
                    (Stage::Sleeping, Some(handle)) => Some(handle.port),
                    _ => None,
                };
                match port {
                    Some(port) => self.probe_round(elapsed_ms, port),
                    None => self.ignored(Event::Slept { elapsed_ms }),
                }
            },
        }
    }
}

/// The state before startup is well formed, and every step keeps a
/// well-formed state well formed.
pub proof fn lemma_step_keeps_well_formed<P>(state: SupervisorState<P>, event: Event<P>)
    requires
        state.well_formed(),
    ensures
        SupervisorState::<P>::initial(state.config).well_formed(),
        state.transition(event).0.well_formed(),
{
}

} // verus!
