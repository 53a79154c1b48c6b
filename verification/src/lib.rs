//! Core of a single-workload supervisor.
//!
//! The crate holds the decision logic of an engine that keeps one child
//! process alive: it filters and counts filesystem change events, decides
//! when to rebuild and respawn the workload, merges captured output without
//! duplication, maintains a bounded error log, and settles the exit path on
//! reload and shutdown requests.  Everything that touches the operating
//! system — spawning, killing, watching directories, signals, persistence —
//! is performed by a thin unverified shell around this library, which hands
//! plain values in and carries the decisions out.

pub mod buffers;
pub mod command;
pub mod config;
pub mod engine;
pub mod errors;
pub mod filter;
pub mod protocol;
pub mod secrets;
pub mod state;
