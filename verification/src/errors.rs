//! Error taxonomy of the supervisor.
//!
//! Every failure the engine records is an [`ErrorEntry`]: a category plus a
//! human-readable message.  Entries accumulate in the engine state's bounded
//! error log, oldest evicted first.

use vstd::prelude::*;

verus! {

/// Category of a recorded failure.
#[derive(Clone, Copy, Debug, PartialEq, Eq, Structural)]
pub enum ErrorKind {
    /// A build, install or other operational step failed.
    GeneralError,
    /// Reading or writing something at the system boundary failed.
    InputOutput,
    /// The workload's sampled memory use met or exceeded the configured ceiling.
    OverRamLimit,
    /// Terminating the workload did not complete within the allowed time.
    TimedOut,
    /// A remote service could not be reached.
    ConnectionError,
}

/// One entry of the engine's bounded error log.
#[derive(Debug)]
pub struct ErrorEntry {
    /// The category of the failure.
    pub kind: ErrorKind,
    /// A human-readable description.
    pub message: String,
}

impl Clone for ErrorEntry {
    fn clone(&self) -> (r: Self)
        ensures
            r == *self,
    {
        ErrorEntry { kind: self.kind, message: self.message.clone() }
    }
}

impl ErrorEntry {
    /// Builds an entry from its category and message.
    pub fn new(kind: ErrorKind, message: String) -> (e: ErrorEntry)
        ensures
            e.kind == kind,
            e.message == message,
    {
        ErrorEntry { kind, message }
    }

    /// Whether two entries have the same category and the same message text.
    pub fn same_as(&self, other: &ErrorEntry) -> (r: bool)
        ensures
            r == (self.kind == other.kind && self.message@ == other.message@),
    {
        self.kind == other.kind && self.message == other.message
    }
}

} // verus!
