//! Port resolution: which port the backend's HTTP listener binds to.

use vstd::prelude::*;
use crate::error::FatalError;

verus! {

/// The port on which a developer runs the backend by hand.
pub const DEV_PORT: u16 = 8765;

/// How the port is chosen; fixed once in the configuration.
#[derive(Clone, Copy, Debug, PartialEq, Eq, Structural)]
pub enum PortPolicy {
    /// A configured constant, so that clients can reconnect across restarts.
    Fixed(u16),
    /// Whatever port the operating system hands out to a bind on port 0.
    Ephemeral,
}

/// A resolved port, with the policy that produced it.
#[derive(Clone, Copy, Debug, PartialEq, Eq, Structural)]
pub enum PortAssignment {
    Fixed(u16),
    Ephemeral(u16),
}

impl PortAssignment {
    /// The port number, whichever policy chose it.
    pub open spec fn number(self) -> u16 {
        match self {
            PortAssignment::Fixed(port) => port,
            PortAssignment::Ephemeral(port) => port,
        }
    }

    pub fn port(&self) -> (port: u16)
        ensures
            port == self.number(),
    {
        match self {
            PortAssignment::Fixed(port) => *port,
            PortAssignment::Ephemeral(port) => *port,
        }
    }
}

impl PortPolicy {
    /// The assignment that the policy yields with no I/O at all: the constant
    /// of a fixed policy, nothing for an ephemeral one.
    pub open spec fn immediate(self) -> Option<PortAssignment> {
        match self {
            PortPolicy::Fixed(port) => Some(PortAssignment::Fixed(port)),
            PortPolicy::Ephemeral => None,
        }
    }

    /// Resolves a fixed policy on the spot; `None` says that the host has to
    /// probe the operating system and hand the answer to [`find_free_port`].
    pub fn resolve_fixed(&self) -> (assignment: Option<PortAssignment>)
        ensures
            assignment == self.immediate(),
    {
        match self {
            PortPolicy::Fixed(port) => Some(PortAssignment::Fixed(*port)),
            PortPolicy::Ephemeral => None,
        }
    }
}

/// What an ephemeral probe resolves to: the port that the operating system
/// reported, or the fatal error when the bind was refused.
pub open spec fn probed_assignment(probed: Option<u16>) -> Result<PortAssignment, FatalError> {
    match probed {
        Some(port) => Ok(PortAssignment::Ephemeral(port)),
        None => Err(FatalError::PortAllocation),
    }
}

/// Settles an ephemeral policy from the outcome of the host's probe, which
/// binds a listener to the loopback address with port 0, reads the address
/// that was assigned and releases the listener. `probed` is the port read,
/// or `None` when the bind failed.
pub fn find_free_port(probed: Option<u16>) -> (resolved: Result<PortAssignment, FatalError>)
    ensures
        resolved == probed_assignment(probed),
{
    match probed {
        Some(port) => Ok(PortAssignment::Ephemeral(port)),
        None => Err(FatalError::PortAllocation),
    }
}

} // verus!
