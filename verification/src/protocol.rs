//! The rebuild protocol and the graceful reload/shutdown protocol.
//!
//! A rebuild is the install → build → spawn sequence.  The shell runs each
//! subprocess and reports how it went; the functions here decide what each
//! report means for the run — install failures are tolerated, build and
//! spawn failures are fatal — and project it onto the engine state.
//! Shutdown is a bounded-timeout termination attempt whose three outcomes
//! (clean, failed, timed out) settle the process exit code.

use vstd::prelude::*;

use crate::errors::{ErrorEntry, ErrorKind};
use crate::state::{ring_push, EngineState, Status};

verus! {

/// Exit code of a clean shutdown.
pub const EXIT_OK: i32 = 0;

/// Distinct non-zero exit code: the engine is in an indeterminate state and
/// an outer process manager may need to kill leftovers before a restart.
pub const EXIT_FORCED: i32 = 100;

/// Which configured one-shot step of the rebuild sequence ran.
#[derive(Clone, Copy, Debug, PartialEq, Eq, Structural)]
pub enum StepKind {
    /// The optional dependency-install step.
    Install,
    /// The optional build step.
    Build,
}

/// How a configured one-shot step went.
#[derive(Debug)]
pub enum StepResult {
    /// No command is configured for the step.
    Skipped,
    /// The command ran and exited successfully.
    Completed,
    /// The command could not be run, or exited with a failure; the message
    /// describes it.
    Failed(String),
}

/// How spawning the workload went.
#[derive(Debug)]
pub enum SpawnResult {
    /// The workload is live under the given process id.
    Spawned(u32),
    /// The workload could not be spawned or identified.
    Failed(ErrorEntry),
}

/// How the bounded-timeout termination of the workload went.
#[derive(Debug)]
pub enum KillOutcome {
    /// The workload terminated within the allowed time.
    Exited,
    /// Termination itself failed; the entry describes it.
    KillFailed(ErrorEntry),
    /// Termination did not complete within the allowed time.
    TimedOut(String),
}

/// Projects a one-shot step report onto the state and says whether it ends
/// the run: an install failure is tolerated — the build may still succeed
/// against stale dependencies — while a build failure is fatal, since a
/// workload must never be run from a failed build.
pub fn absorb_step_result(
    state: &mut EngineState,
    kind: StepKind,
    result: &StepResult,
    now: u64,
) -> (fatal: bool)
    requires
        old(state).error_log@.len() <= crate::state::ERROR_LOG_CAP,
    ensures
        fatal == (kind == StepKind::Build && result is Failed),
        fatal ==> final(state).error_log@ == ring_push(
            old(state).error_log@,
            final(state).error_log@.last(),
        ) && final(state).error_log@.last().kind == ErrorKind::GeneralError && final(state).last_updated == now,
        result matches StepResult::Failed(m) ==> (fatal ==> final(state).error_log@.last().message@ == m@),
        !fatal ==> *final(state) == *old(state),
        fatal ==> *final(state) == (EngineState {
            error_log: final(state).error_log,
            event_counter: final(state).event_counter,
            last_updated: now,
            ..*old(state)
        }),
        final(state).status == old(state).status,
        final(state).error_log@.len() <= crate::state::ERROR_LOG_CAP,
{
    match (kind, result) {
        (StepKind::Build, StepResult::Failed(message)) => {
            state.push_error(ErrorEntry::new(ErrorKind::GeneralError, message.clone()));
            state.touch(now);
            true
        },
        _ => false,
    }
}

/// Projects the spawn report onto the state: a live workload puts the phase
/// back to `Running`; a spawn failure is fatal — the engine cannot supervise
/// what it cannot identify — and winds the state down for exit.
pub fn absorb_spawn_result(state: &mut EngineState, result: &SpawnResult, now: u64) -> (fatal:
    bool)
    requires
        old(state).error_log@.len() <= crate::state::ERROR_LOG_CAP,
    ensures
        fatal == (result is Failed),
        !fatal ==> final(state).status == Status::Running && final(state).data@
            == "New child process spawned"@ && final(state).error_log@ == old(state).error_log@,
        fatal ==> final(state).status == Status::Stopping,
        *result matches SpawnResult::Failed(e) ==> final(state).error_log@ == ring_push(
            old(state).error_log@,
            e,
        ),
        final(state).last_updated == now,
        final(state).error_log@.len() <= crate::state::ERROR_LOG_CAP,
        fatal ==> final(state).data == old(state).data,
        *final(state) == (EngineState {
            status: final(state).status,
            data: final(state).data,
            error_log: final(state).error_log,
            event_counter: final(state).event_counter,
            last_updated: now,
            ..*old(state)
        }),
{
    match result {
        SpawnResult::Spawned(_) => {
            state.record_spawned(now);
            false
        },
        SpawnResult::Failed(entry) => {
            state.push_error(entry.clone());
            state.wind_down(now);
            true
        },
    }
}

/// Settles a shutdown: the phase becomes `Stopping` whatever happened, and
/// the exit code is zero exactly when the workload terminated in time.  A
/// failed termination records its error; a timeout records a distinct
/// timed-out entry so the next startup can observe the cause.
pub fn shutdown_decision(state: &mut EngineState, outcome: &KillOutcome, now: u64) -> (code:
    i32)
    requires
        old(state).error_log@.len() <= crate::state::ERROR_LOG_CAP,
    ensures
        final(state).status == Status::Stopping,
        final(state).last_updated == now,
        final(state).error_log@.len() <= crate::state::ERROR_LOG_CAP,
        code == if outcome is Exited {
            EXIT_OK
        } else {
            EXIT_FORCED
        },
        outcome is Exited ==> final(state).error_log@ == old(state).error_log@,
        *outcome matches KillOutcome::KillFailed(e) ==> final(state).error_log@ == ring_push(
            old(state).error_log@,
            e,
        ),
        outcome matches KillOutcome::TimedOut(m) ==> final(state).error_log@ == ring_push(
            old(state).error_log@,
            final(state).error_log@.last(),
        ) && final(state).error_log@.last().kind == ErrorKind::TimedOut && final(state).error_log@.last().message@ == m@,
        *final(state) == (EngineState {
            status: Status::Stopping,
            error_log: final(state).error_log,
            event_counter: final(state).event_counter,
            last_updated: now,
            ..*old(state)
        }),
{
    let code: i32 = match outcome {
        KillOutcome::Exited => EXIT_OK,
        KillOutcome::KillFailed(entry) => {
            state.push_error(entry.clone());
            EXIT_FORCED
        },
        KillOutcome::TimedOut(message) => {
            state.push_error(ErrorEntry::new(ErrorKind::TimedOut, message.clone()));
            EXIT_FORCED
        },
    };
    state.wind_down(now);
    code
}

/// The well-known file that holds the current workload's process id for
/// outside inspection, named after the application and overwritten on every
/// respawn.
pub fn pid_file_path(app_name: &str) -> (r: String)
    ensures
        r@ == "/tmp/."@ + app_name@ + "_pg.pid"@,
{
    let mut r = String::from_str("/tmp/.");
    r.append(app_name);
    r.append("_pg.pid");
    r
}

/// The two asynchronous request flags the signal listeners raise.
///
/// Raising a flag is idempotent; the main loop observes a raised flag once
/// per iteration and clears the reload flag only after the new workload is
/// installed.
#[derive(Clone, Copy, Debug, PartialEq, Eq, Structural)]
pub struct ControlFlags {
    /// A reload of configuration and workload was requested.
    pub reload: bool,
    /// A graceful exit was requested.
    pub exit_graceful: bool,
}

impl ControlFlags {
    /// Both flags lowered.
    pub fn new() -> (f: ControlFlags)
        ensures
            !f.reload,
            !f.exit_graceful,
    {
        ControlFlags { reload: false, exit_graceful: false }
    }

    /// Raises the reload flag; raising it again changes nothing.
    pub fn request_reload(&mut self)
        ensures
            final(self).reload,
            final(self).exit_graceful == old(self).exit_graceful,
    {
        self.reload = true;
    }

    /// Raises the graceful-exit flag; raising it again changes nothing.
    pub fn request_exit(&mut self)
        ensures
            final(self).exit_graceful,
            final(self).reload == old(self).reload,
    {
        self.exit_graceful = true;
    }

    /// Lowers the reload flag, once the request has been fully processed.
    pub fn clear_reload(&mut self)
        ensures
            !final(self).reload,
            final(self).exit_graceful == old(self).exit_graceful,
    {
        self.reload = false;
    }
}

} // verus!
