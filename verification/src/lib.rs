//! Self-updating notification CLI, verified core.
//!
//! The library holds the logic of the tool: semantic version parsing and
//! ordering, release-feed interpretation, artifact location, the update
//! orchestrator's state machine, command-result modelling and log-line
//! rendering. All I/O (HTTP, filesystem, subprocesses, terminals) lives in
//! the surrounding application, which drives the state machine and hands it
//! plain values.

pub mod command;
pub mod feed;
pub mod locate;
pub mod logger;
pub mod update;
pub mod version;

pub use version::Version;
pub use version::current_version;
