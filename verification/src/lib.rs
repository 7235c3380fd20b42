//! Supervisor of a single local backend process: port assignment, launch,
//! readiness probing, output forwarding and one-shot termination, written as
//! decision functions that the host drives with the results of its I/O.

pub mod text;

pub mod error;
pub mod port;
pub mod launch;
pub mod probe;
pub mod pump;
pub mod machine;
pub mod supervisor;
pub mod laws;
