//! The supervisor that the host holds behind its lock: the one backend
//! handle, the startup that fills it, the port query and the termination
//! that empties it once.

use vstd::prelude::*;
use crate::machine::{
    lemma_step_keeps_well_formed, Action, Event, Phase, Stage, SupervisorConfig, SupervisorState,
};

verus! {

/// The supervisor of one backend process. `P` is the host's reference to
/// the running process; the supervisor never looks inside it.
#[derive(Debug)]
pub struct Supervisor<P> {
    state: SupervisorState<P>,
}

impl<P> View for Supervisor<P> {
    type V = SupervisorState<P>;

    closed spec fn view(&self) -> SupervisorState<P> {
        self.state
    }
}

impl<P> Supervisor<P> {
    #[verifier::type_invariant]
    spec fn inv(self) -> bool {
        self.state.well_formed()
    }

    /// A supervisor before startup.
    pub fn new(config: SupervisorConfig) -> (supervisor: Supervisor<P>)
        ensures
            supervisor@ == SupervisorState::<P>::initial(config),
            supervisor@.well_formed(),
    {
        Supervisor { state: SupervisorState::new(config) }
    }

    /// Takes one event from the host and says what the host does next.
    /// Startup is the exchange that begins with `Event::Startup` and goes on
    /// for as long as the action asks for a report.
    pub fn on_event(&mut self, event: Event<P>) -> (action: Action<P>)
        ensures
            (final(self)@, action) == old(self)@.transition(event),
            final(self)@.well_formed(),
    {
        proof {
            use_type_invariant(&*self);
            lemma_step_keeps_well_formed(self.state, event);
        }
        let mut state = SupervisorState::new(self.state.config);
        core::mem::swap(&mut self.state, &mut state);
        let (next, action) = state.step(event);
        self.state = next;
        action
    }

    /// Idempotent termination, for every shutdown trigger. The first call
    /// hands out the process, if one is held, for the host to signal, and
    /// leaves the handle empty; every later call finds it empty, hands out
    /// nothing and changes nothing.
    pub fn terminate(&mut self) -> (signalled: Option<P>)
        ensures
            final(self)@ == old(self)@.shut_down().0,
            signalled == old(self)@.process(),
            final(self)@.process() is None,
            final(self)@.stage is Terminated,
            final(self)@.port() == old(self)@.port(),
            old(self)@.stage is Terminated ==> final(self)@ == old(self)@ && signalled is None,
            final(self)@.well_formed(),
    {
        proof {
            use_type_invariant(&*self);
        }
        match self.on_event(Event::Shutdown) {
            Action::Kill { process } => Some(process),
            _ => None,
        }
    }

    /// The port of the backend. Available from the moment the handle is
    /// published, whether or not a process runs, and after termination too.
    pub fn get_backend_port(&self) -> (port: u16)
        requires
            self@.port() is Some,
        ensures
            Some(port) == self@.port(),
            self@.assignment matches Some(assignment) && port == assignment.number(),
    {
        proof {
            use_type_invariant(self);
        }
        match &self.state.handle {
            Some(handle) => handle.port,
            None => unreached(),
        }
    }

    /// The port of the backend, or `None` before the handle is published.
    pub fn port(&self) -> (port: Option<u16>)
        ensures
            port == self@.port(),
    {
        match &self.state.handle {
            Some(handle) => Some(handle.port),
            None => None,
        }
    }

    /// When startup began, on the host's clock, once the handle is published.
    pub fn started_at(&self) -> (since: Option<u64>)
        ensures
            since == match self@.handle {
                Some(handle) => Some(handle.started_at),
                None => None,
            },
    {
        match &self.state.handle {
            Some(handle) => Some(handle.started_at),
            None => None,
        }
    }

    /// The phase of the backend's life.
    pub fn phase(&self) -> (phase: Phase)
        ensures
            phase == self@.stage.phase(),
    {
        self.state.stage.to_phase()
    }

    /// The stage within the phase.
    pub fn stage(&self) -> (stage: Stage)
        ensures
            stage == self@.stage,
    {
        self.state.stage
    }

    /// Whether a process is held, that is whether termination would signal one.
    pub fn has_process(&self) -> (held: bool)
        ensures
            held == self@.process() is Some,
    {
        match &self.state.handle {
            Some(handle) => handle.process_handle.is_some(),
            None => false,
        }
    }
}

} // verus!
