//! The engine's durable status snapshot.
//!
//! [`EngineState`] is the record the supervisor rewrites after every
//! observable transition: lifecycle phase, event counter, bounded error log,
//! merged output buffers and timestamps.  The functions here are the pure
//! projection of each transition onto that record; writing the record to disk
//! is left to the shell around the library.

use vstd::prelude::*;

use crate::errors::{ErrorEntry, ErrorKind};

verus! {

/// Lifecycle phase of the supervised workload.
#[derive(Clone, Copy, Debug, PartialEq, Eq, Structural)]
pub enum Status {
    /// The engine is initializing and has not begun the first build.
    Starting,
    /// An install/build/spawn sequence is in flight.
    Building,
    /// The workload is live and healthy.
    Running,
    /// The last health check failed to retrieve metrics or found a breach.
    Warning,
    /// A graceful exit is under way; process exit follows.
    Stopping,
}

/// One captured line of workload output, stamped with the time it was read.
#[derive(Debug)]
pub struct LogLine {
    /// Seconds-since-epoch stamp given to the line when it was drained.
    pub at: u64,
    /// The text of the line.
    pub text: String,
}

impl Clone for LogLine {
    fn clone(&self) -> (r: Self)
        ensures
            r == *self,
    {
        LogLine { at: self.at, text: self.text.clone() }
    }
}

impl PartialEq for LogLine {
    fn eq(&self, other: &LogLine) -> (r: bool) {
        self.at == other.at && self.text == other.text
    }
}

impl vstd::std_specs::cmp::PartialEqSpecImpl for LogLine {
    open spec fn obeys_eq_spec() -> bool {
        true
    }

    open spec fn eq_spec(&self, other: &LogLine) -> bool {
        self.at == other.at && self.text@ == other.text@
    }
}

/// The identity under which output lines are deduplicated: stamp plus text.
pub open spec fn line_key(l: LogLine) -> (u64, Seq<char>) {
    (l.at, l.text@)
}

/// Whether `buf` already holds a line with the same stamp and text as `l`.
pub open spec fn buf_has(buf: Seq<LogLine>, l: LogLine) -> bool {
    exists|i: int| 0 <= i < buf.len() && line_key(buf[i]) == line_key(l)
}

/// Well-formed output buffer: ordered by stamp, no two lines share a key.
pub open spec fn lines_wf(buf: Seq<LogLine>) -> bool {
    &&& forall|i: int, j: int| 0 <= i < j < buf.len() ==> buf[i].at <= buf[j].at
    &&& forall|i: int, j: int| 0 <= i < j < buf.len() ==> line_key(buf[i]) != line_key(buf[j])
}

/// Most entries the error log may hold; the oldest is evicted past this.
pub const ERROR_LOG_CAP: usize = 5;

/// The bounded error log after appending `e`: the oldest entry is evicted
/// when the log is at its cap.
pub open spec fn ring_push(log: Seq<ErrorEntry>, e: ErrorEntry) -> Seq<ErrorEntry> {
    if log.len() < ERROR_LOG_CAP {
        log.push(e)
    } else {
        log.drop_first().push(e)
    }
}

/// The process-wide status snapshot that is persisted on every transition.
#[derive(Debug, Clone)]
pub struct EngineState {
    /// Free-form description of what the engine is doing.
    pub data: String,
    /// When this run of the engine began.
    pub started_at: u64,
    /// When the record was last rewritten.
    pub last_updated: u64,
    /// How many times the record has been rewritten.
    pub event_counter: u64,
    /// Bounded ring of recorded failures, oldest first.
    pub error_log: Vec<ErrorEntry>,
    /// Name of the supervised application.
    pub name: String,
    /// Process id of the engine itself.
    pub pid: u32,
    /// Current lifecycle phase.
    pub status: Status,
    /// Merged, deduplicated standard output of the workload.
    pub stdout: Vec<LogLine>,
    /// Merged, deduplicated standard error of the workload.
    pub stderr: Vec<LogLine>,
}

impl EngineState {
    /// Internal consistency of a snapshot: buffers ordered and deduplicated,
    /// error log within its cap.
    pub open spec fn wf(self) -> bool {
        &&& lines_wf(self.stdout@)
        &&& lines_wf(self.stderr@)
        &&& self.error_log@.len() <= ERROR_LOG_CAP
    }

    /// A fresh snapshot for an engine that has no previous record: counters
    /// at zero, empty buffers, phase `Starting`.
    pub fn fresh(name: String, pid: u32, now: u64) -> (s: EngineState)
        ensures
            s.wf(),
            s.data@ =~= "Initializing"@,
            s.started_at == now,
            s.last_updated == now,
            s.event_counter == 0,
            s.error_log@.len() == 0,
            s.name == name,
            s.pid == pid,
            s.status == Status::Starting,
            s.stdout@.len() == 0,
            s.stderr@.len() == 0,
    {
        EngineState {
            data: String::from_str("Initializing"),
            started_at: now,
            last_updated: now,
            event_counter: 0,
            error_log: Vec::new(),
            name,
            pid,
            status: Status::Starting,
            stdout: Vec::new(),
            stderr: Vec::new(),
        }
    }

    /// Re-initializes a snapshot loaded from a previous run: volatile parts
    /// (buffers, error log) are cleared, the phase returns to `Starting`, and
    /// the identity of the new engine process is written in.
    pub fn reinitialized(self, pid: u32, now: u64) -> (s: EngineState)
        ensures
            s.wf(),
            s.data@ =~= "Initializing"@,
            s.started_at == now,
            s.last_updated == now,
            s.event_counter == self.event_counter,
            s.error_log@.len() == 0,
            s.name == self.name,
            s.pid == pid,
            s.status == Status::Starting,
            s.stdout@.len() == 0,
            s.stderr@.len() == 0,
    {
        EngineState {
            data: String::from_str("Initializing"),
            started_at: now,
            last_updated: now,
            event_counter: self.event_counter,
            error_log: Vec::new(),
            name: self.name,
            pid,
            status: Status::Starting,
            stdout: Vec::new(),
            stderr: Vec::new(),
        }
    }

    /// Marks the record as rewritten: bumps the rewrite counter (saturating at
    /// its ceiling) and stamps the time.  The shell persists the snapshot
    /// right after each call.
    pub fn touch(&mut self, now: u64)
        ensures
            final(self).event_counter == if old(self).event_counter < u64::MAX {
                (old(self).event_counter + 1) as u64
            } else {
                u64::MAX
            },
            final(self).last_updated == now,
            *final(self) == (EngineState {
                event_counter: final(self).event_counter,
                last_updated: now,
                ..*old(self)
            }),
    {
        if self.event_counter < u64::MAX {
            self.event_counter = self.event_counter + 1;
        }
        self.last_updated = now;
    }

    /// Appends a failure to the bounded error log, evicting the oldest entry
    /// if the log is at its cap.
    pub fn push_error(&mut self, entry: ErrorEntry)
        requires
            old(self).error_log@.len() <= ERROR_LOG_CAP,
        ensures
            final(self).error_log@ == ring_push(old(self).error_log@, entry),
            final(self).error_log@.len() <= ERROR_LOG_CAP,
            *final(self) == (EngineState { error_log: final(self).error_log, ..*old(self) }),
    {
        if self.error_log.len() >= ERROR_LOG_CAP {
            self.error_log.remove(0);
            assert(self.error_log@ == old(self).error_log@.drop_first());
        }
        self.error_log.push(entry);
    }

    /// Enters the `Building` phase: called right before an
    /// install/build/spawn sequence starts.
    pub fn begin_rebuild(&mut self, now: u64)
        ensures
            final(self).status == Status::Building,
            final(self).last_updated == now,
            final(self).event_counter == if old(self).event_counter < u64::MAX {
                (old(self).event_counter + 1) as u64
            } else {
                u64::MAX
            },
            *final(self) == (EngineState {
                status: Status::Building,
                event_counter: final(self).event_counter,
                last_updated: now,
                ..*old(self)
            }),
    {
        self.status = Status::Building;
        self.touch(now);
    }

    /// Records that a fresh workload is live: the phase returns to `Running`
    /// and the record notes the spawn.
    pub fn record_spawned(&mut self, now: u64)
        ensures
            final(self).status == Status::Running,
            final(self).data@ =~= "New child process spawned"@,
            final(self).last_updated == now,
            final(self).event_counter == if old(self).event_counter < u64::MAX {
                (old(self).event_counter + 1) as u64
            } else {
                u64::MAX
            },
            *final(self) == (EngineState {
                status: Status::Running,
                data: final(self).data,
                event_counter: final(self).event_counter,
                last_updated: now,
                ..*old(self)
            }),
    {
        self.status = Status::Running;
        self.data = String::from_str("New child process spawned");
        self.touch(now);
    }

    /// Enters the terminal `Stopping` phase; the record is persisted one last
    /// time by the shell and process exit follows.
    pub fn wind_down(&mut self, now: u64)
        ensures
            final(self).status == Status::Stopping,
            final(self).last_updated == now,
            final(self).event_counter == if old(self).event_counter < u64::MAX {
                (old(self).event_counter + 1) as u64
            } else {
                u64::MAX
            },
            *final(self) == (EngineState {
                status: Status::Stopping,
                event_counter: final(self).event_counter,
                last_updated: now,
                ..*old(self)
            }),
    {
        self.status = Status::Stopping;
        self.touch(now);
    }

    /// Records the breach of the memory ceiling as a non-fatal log entry.
    pub fn note_over_ram(&mut self)
        requires
            old(self).error_log@.len() <= ERROR_LOG_CAP,
        ensures
            final(self).error_log@ == ring_push(
                old(self).error_log@,
                final(self).error_log@.last(),
            ),
            final(self).error_log@.len() <= ERROR_LOG_CAP,
            final(self).error_log@.last().kind == ErrorKind::OverRamLimit,
            final(self).error_log@.last().message@ == "Application has exceeded ram limit"@,
            *final(self) == (EngineState { error_log: final(self).error_log, ..*old(self) }),
    {
        self.push_error(ErrorEntry::new(
            ErrorKind::OverRamLimit,
            String::from_str("Application has exceeded ram limit"),
        ));
    }
}

} // verus!
