//! The conditions that end or degrade a startup.

use vstd::prelude::*;
use crate::text::{decimal, push_decimal};

verus! {

/// A condition that aborts the launch of the application.
#[derive(Clone, Copy, Debug, PartialEq, Eq, Structural)]
pub enum FatalError {
    /// The operating system refused the bind that asks for an ephemeral port.
    PortAllocation,
    /// The packaged executable is present but the operating system refused
    /// to create the process.
    Spawn,
    /// The backend did not answer its health check before the deadline.
    ReadinessTimeout { timeout_secs: u64 },
}

/// A condition that is logged and recovered from.
#[derive(Clone, Copy, Debug, PartialEq, Eq, Structural)]
pub enum Warning {
    /// The packaged executable is absent: the application runs with no
    /// backend attached.
    MissingBinary,
}

impl FatalError {
    /// The text shown to the user when the launch is aborted.
    pub open spec fn message_text(self) -> Seq<char> {
        match self {
            FatalError::PortAllocation => "Failed to bind to ephemeral port"@,
            FatalError::Spawn => "Failed to spawn backend sidecar"@,
            FatalError::ReadinessTimeout { timeout_secs } => {
                "Backend server failed to start within "@ + decimal(timeout_secs as nat)
                    + " seconds"@
            },
        }
    }

    pub fn message(&self) -> (text: String)
        ensures
            text@ == self.message_text(),
    {
        match self {
            FatalError::PortAllocation => String::from_str("Failed to bind to ephemeral port"),
            FatalError::Spawn => String::from_str("Failed to spawn backend sidecar"),
            FatalError::ReadinessTimeout { timeout_secs } => {
                let mut text = String::from_str("Backend server failed to start within ");
                push_decimal(&mut text, *timeout_secs);
                text.append(" seconds");
                text
            },
        }
    }
}

impl Warning {
    /// The text written to the log when the condition is met.
    pub open spec fn message_text(self) -> Seq<char> {
        match self {
            Warning::MissingBinary => "Backend sidecar binary not found, continuing without a backend"@,
        }
    }

    pub fn message(&self) -> (text: String)
        ensures
            text@ == self.message_text(),
    {
        match self {
            Warning::MissingBinary => String::from_str(
                "Backend sidecar binary not found, continuing without a backend",
            ),
        }
    }
}

} // verus!
