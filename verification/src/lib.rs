//! Ephemeral infrastructure deployments driven by an external declarative
//! configuration tool.
//!
//! The crate verifies the logic of the tool: the deterministic workspace
//! cache key, the decoding of the tool's JSON output report, the argument
//! lists handed to the tool's subcommands, and the deployment lifecycle
//! controller with its single-fire teardown gate. The surrounding process
//! (filesystem copies, subprocesses, signals) drives these functions and
//! performs the actions they decide.

pub mod cli;
pub mod control;
pub mod invoke;
pub mod outputs;
pub mod workspace;
