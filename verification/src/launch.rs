//! Launching: whether a child is started, with which arguments, and what the
//! outcome of the attempt means for startup.

use vstd::prelude::*;
use crate::error::{FatalError, Warning};
use crate::text::{decimal, to_decimal};

verus! {

/// Whether the application runs from a developer's tree or as a package.
#[derive(Clone, Copy, Debug, PartialEq, Eq, Structural)]
pub enum ExecutionMode {
    /// A developer has started the backend by hand: nothing is launched.
    Development,
    /// The backend ships as an executable beside the application.
    Packaged,
}

/// What the launcher asks of the host.
#[derive(Clone, Copy, Debug, PartialEq, Eq, Structural)]
pub enum LaunchPlan {
    /// Launch nothing.
    Skip,
    /// Locate the bundled executable and start it on this port, with its
    /// standard output and standard error captured in pipes.
    Spawn { port: u16 },
}

/// What became of an attempt to start the bundled executable. `P` is the
/// host's reference to the running process.
#[derive(Debug, PartialEq, Eq)]
pub enum LaunchOutcome<P> {
    /// The process runs.
    Spawned(P),
    /// No executable at the bundled path.
    BinaryMissing,
    /// The executable is there, but the operating system refused to start it.
    SpawnFailed,
}

/// The process that startup goes on with, and the warning to log, if any.
#[derive(Debug, PartialEq, Eq)]
pub struct Attachment<P> {
    pub process: Option<P>,
    pub warning: Option<Warning>,
}

/// The name under which the backend executable is bundled.
pub open spec fn sidecar_program_text() -> Seq<char> {
    "brainshape-server"@
}

pub fn sidecar_program() -> (name: &'static str)
    ensures
        name@ == sidecar_program_text(),
{
    "brainshape-server"
}

/// The command line of the child: the flag `--port`, then the port in decimal.
pub open spec fn sidecar_arguments(port: u16) -> Seq<Seq<char>> {
    seq!["--port"@, decimal(port as nat)]
}

pub fn sidecar_args(port: u16) -> (args: Vec<String>)
    ensures
        args.deep_view() == sidecar_arguments(port),
{
    let mut args: Vec<String> = Vec::new();
    args.push(String::from_str("--port"));
    args.push(to_decimal(port as u64));
    assert(args.deep_view() =~= sidecar_arguments(port));
    args
}

/// The launcher's plan: nothing in development, a spawn on the resolved port
/// when packaged.
pub open spec fn launch_plan(mode: ExecutionMode, port: u16) -> LaunchPlan {
    match mode {
        ExecutionMode::Development => LaunchPlan::Skip,
        ExecutionMode::Packaged => LaunchPlan::Spawn { port },
    }
}

pub fn plan_launch(mode: ExecutionMode, port: u16) -> (plan: LaunchPlan)
    ensures
        plan == launch_plan(mode, port),
{
    match mode {
        ExecutionMode::Development => LaunchPlan::Skip,
        ExecutionMode::Packaged => LaunchPlan::Spawn { port },
    }
}

/// What an outcome means: a running process is attached; a missing
/// executable is recovered from, with a warning and no process; a refused
/// spawn is fatal.
pub open spec fn settled<P>(outcome: LaunchOutcome<P>) -> Result<Attachment<P>, FatalError> {
    match outcome {
        LaunchOutcome::Spawned(process) => Ok(Attachment { process: Some(process), warning: None }),
        LaunchOutcome::BinaryMissing => Ok(
            Attachment { process: None, warning: Some(Warning::MissingBinary) },
        ),
        LaunchOutcome::SpawnFailed => Err(FatalError::Spawn),
    }
}

pub fn settle_launch<P>(outcome: LaunchOutcome<P>) -> (result: Result<Attachment<P>, FatalError>)
    ensures
        result == settled(outcome),
{
    match outcome {
        LaunchOutcome::Spawned(process) => Ok(Attachment { process: Some(process), warning: None }),
        LaunchOutcome::BinaryMissing => Ok(
            Attachment { process: None, warning: Some(Warning::MissingBinary) },
        ),
        LaunchOutcome::SpawnFailed => Err(FatalError::Spawn),
    }
}

} // verus!
