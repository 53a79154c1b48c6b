//! Change aggregation and the periodic health check.
//!
//! The [`Engine`] holds the volatile knobs of the supervisor: the number of
//! filtered change events that triggers a rebuild, the running count since
//! the last trip, and the workload's memory ceiling.  Its methods are the
//! decisions of the main loop: what a change event does to the counter, and
//! what one health tick does to the engine state.

use vstd::arithmetic::div_mod::{
    lemma_fundamental_div_mod, lemma_fundamental_div_mod_converse_div,
    lemma_fundamental_div_mod_converse_mod, lemma_mod_division_less_than_divisor,
};
use vstd::prelude::*;

use crate::buffers::{merge_lines, merged};
use crate::errors::{ErrorEntry, ErrorKind};
use crate::filter::{event_ignored, paths_view, IgnoreSet};
use crate::state::{ring_push, EngineState, LogLine, Status};

verus! {

/// The rebuild threshold that a configured change count yields: a count
/// below one would trigger on every event, so it is raised to one.
pub open spec fn spec_effective_threshold(changes_needed: i32) -> u32 {
    if changes_needed >= 1 {
        changes_needed as u32
    } else {
        1u32
    }
}

/// The aggregation count after a run of `n` counted change events from a
/// fresh engine: it climbs by one per event and falls to zero each time the
/// next event would reach the threshold.
pub open spec fn count_after(threshold: nat, n: nat) -> nat
    decreases n,
{
    if n == 0 {
        0
    } else if count_after(threshold, (n - 1) as nat) + 1 >= threshold {
        0
    } else {
        count_after(threshold, (n - 1) as nat) + 1
    }
}

/// How many rebuilds a run of `n` counted change events has triggered.
pub open spec fn rebuilds_after(threshold: nat, n: nat) -> nat
    decreases n,
{
    if n == 0 {
        0
    } else if count_after(threshold, (n - 1) as nat) + 1 >= threshold {
        rebuilds_after(threshold, (n - 1) as nat) + 1
    } else {
        rebuilds_after(threshold, (n - 1) as nat)
    }
}

/// Below the threshold nothing rebuilds: after any run of `n` counted change
/// events with `n` less than the threshold, no rebuild has been triggered
/// and the aggregation count equals `n`.
pub proof fn lemma_changes_below_threshold(threshold: nat, n: nat)
    requires
        1 <= threshold,
        n < threshold,
    ensures
        count_after(threshold, n) == n,
        rebuilds_after(threshold, n) == 0,
    decreases n,
{
    if n > 0 {
        lemma_changes_below_threshold(threshold, (n - 1) as nat);
    }
}

/// Reaching the threshold rebuilds exactly once: after any run of `n`
/// counted change events with `threshold <= n < 2 * threshold`, exactly one
/// rebuild has been triggered — even if the whole run arrives in one burst —
/// and the count restarts from zero at the trip, standing at `n - threshold`.
pub proof fn lemma_changes_reach_threshold(threshold: nat, n: nat)
    requires
        1 <= threshold <= n < 2 * threshold,
    ensures
        count_after(threshold, n) == n - threshold,
        rebuilds_after(threshold, n) == 1,
    decreases n,
{
    if n == threshold {
        lemma_changes_below_threshold(threshold, (n - 1) as nat);
    } else {
        lemma_changes_reach_threshold(threshold, (n - 1) as nat);
    }
}

/// In full generality, a run of `n` counted change events leaves the count
/// at `n % threshold` and has triggered `n / threshold` rebuilds; the two
/// threshold laws above are its first two strides.
pub proof fn lemma_change_run_totals(threshold: nat, n: nat)
    requires
        1 <= threshold,
    ensures
        count_after(threshold, n) == n % threshold,
        rebuilds_after(threshold, n) == n / threshold,
    decreases n,
{
    let t = threshold as int;
    if n == 0 {
        lemma_fundamental_div_mod_converse_mod(0, t, 0, 0);
        lemma_fundamental_div_mod_converse_div(0, t, 0, 0);
    } else {
        lemma_change_run_totals(threshold, (n - 1) as nat);
        let prev = (n - 1) as int;
        lemma_fundamental_div_mod(prev, t);
        lemma_mod_division_less_than_divisor(prev, t);
        let q = prev / t;
        let r = prev % t;
        assert(t * q == q * t) by (nonlinear_arith);
        if r + 1 == t {
            assert((q + 1) * t == q * t + t) by (nonlinear_arith);
            assert(n as int == (q + 1) * t + 0);
            lemma_fundamental_div_mod_converse_mod(n as int, t, q + 1, 0);
            lemma_fundamental_div_mod_converse_div(n as int, t, q + 1, 0);
        } else {
            assert(n as int == q * t + (r + 1));
            lemma_fundamental_div_mod_converse_mod(n as int, t, q, r + 1);
            lemma_fundamental_div_mod_converse_div(n as int, t, q, r + 1);
        }
    }
}

/// What the engine decided about one raw change event.
#[derive(Clone, Copy, Debug, PartialEq, Eq, Structural)]
pub enum ChangeDecision {
    /// A path of the event lies under an ignored subtree; nothing counted.
    Dropped,
    /// The event was counted; the threshold is not yet reached.
    Counted,
    /// The event was counted and reached the threshold: tear the workload
    /// down, rebuild, respawn, and resume with a zeroed count.
    Rebuild,
}

/// Sampled resource use of the workload.
#[derive(Clone, Copy, Debug, PartialEq, Eq, Structural)]
pub struct Metrics {
    /// Resident memory, in bytes.
    pub memory: u64,
    /// Processor use, in hundredths of a percent.
    pub cpu: u64,
}

/// What the shell observed about the workload for one health tick.
pub struct TickReport {
    /// Whether the workload process is still alive.
    pub running: bool,
    /// The sampled metrics, if sampling succeeded.
    pub metrics: Option<Metrics>,
    /// Stdout lines drained since the last tick.
    pub stdout: Vec<LogLine>,
    /// Stderr lines drained since the last tick.
    pub stderr: Vec<LogLine>,
}

/// What one health tick asks the shell to do.
#[derive(Clone, Copy, Debug, PartialEq, Eq, Structural)]
pub struct TickOutcome {
    /// The workload died on its own: run the respawn sequence once.
    pub respawn: bool,
    /// The memory ceiling was met or passed (logged, never fatal).
    pub over_limit: bool,
}

/// The volatile decision state of the supervisor.
pub struct Engine {
    /// Counted change events that trigger one rebuild.
    pub threshold: u32,
    /// Filtered change events counted since the last trip.
    pub change_count: u32,
    /// Memory ceiling for the workload, in bytes.
    pub memory_ceiling: u64,
}

impl Engine {
    /// The count always stays strictly below the threshold.
    pub open spec fn wf(self) -> bool {
        1 <= self.threshold && self.change_count < self.threshold
    }

    /// An engine with a zeroed count.  A configured change count below one
    /// is raised to one, so that every counted event triggers.
    pub fn new(changes_needed: i32, memory_ceiling: u64) -> (e: Engine)
        ensures
            e.wf(),
            e.threshold == spec_effective_threshold(changes_needed),
            e.change_count == 0,
            e.memory_ceiling == memory_ceiling,
    {
        let threshold: u32 = if changes_needed >= 1 {
            changes_needed as u32
        } else {
            1
        };
        Engine { threshold, change_count: 0, memory_ceiling }
    }

    /// Counts one filtered change event: the count climbs by one, and when
    /// it reaches the threshold the event triggers a rebuild and the count
    /// falls back to zero.
    pub fn note_change(&mut self) -> (trig: bool)
        requires
            old(self).wf(),
        ensures
            final(self).wf(),
            final(self).threshold == old(self).threshold,
            final(self).memory_ceiling == old(self).memory_ceiling,
            trig == (old(self).change_count + 1 >= old(self).threshold),
            final(self).change_count == if old(self).change_count + 1 >= old(self).threshold {
                0u32
            } else {
                (old(self).change_count + 1) as u32
            },
    {
        if self.change_count + 1 >= self.threshold {
            self.change_count = 0;
            true
        } else {
            self.change_count = self.change_count + 1;
            false
        }
    }

    /// Decides one raw change event: an event touching an ignored subtree is
    /// dropped and leaves the count exactly as it was; any other event is
    /// counted as in [`Engine::note_change`].
    pub fn process_change(&mut self, ignore: &IgnoreSet, paths: &Vec<Vec<u8>>) -> (d:
        ChangeDecision)
        requires
            old(self).wf(),
        ensures
            final(self).wf(),
            final(self).threshold == old(self).threshold,
            final(self).memory_ceiling == old(self).memory_ceiling,
            event_ignored(ignore@, paths_view(*paths)) ==> d == ChangeDecision::Dropped
                && final(self).change_count == old(self).change_count,
            !event_ignored(ignore@, paths_view(*paths)) ==> {
                &&& d == if old(self).change_count + 1 >= old(self).threshold {
                    ChangeDecision::Rebuild
                } else {
                    ChangeDecision::Counted
                }
                &&& final(self).change_count == if old(self).change_count + 1 >= old(
                    self,
                ).threshold {
                    0u32
                } else {
                    (old(self).change_count + 1) as u32
                }
            },
    {
        if ignore.event_is_ignored(paths) {
            ChangeDecision::Dropped
        } else if self.note_change() {
            ChangeDecision::Rebuild
        } else {
            ChangeDecision::Counted
        }
    }

    /// One fixed-interval health tick: folds the drained output into the
    /// snapshot's buffers, reports whether the workload died (a respawn runs
    /// once, leaving the aggregation count untouched), checks the memory
    /// ceiling, records a metrics failure as a `Warning` phase, and stamps
    /// the snapshot for persistence.
    pub fn health_tick(&self, state: &mut EngineState, report: &TickReport, now: u64) -> (o:
        TickOutcome)
        requires
            old(state).wf(),
        ensures
            final(state).wf(),
            o.respawn == !report.running,
            o.over_limit == (report.metrics is Some && report.metrics->0.memory
                >= self.memory_ceiling),
            final(state).stdout@ == merged(old(state).stdout@, report.stdout@),
            final(state).stderr@ == merged(old(state).stderr@, report.stderr@),
            final(state).status == if report.metrics is Some {
                Status::Running
            } else {
                Status::Warning
            },
            final(state).data@ == if report.metrics is Some {
                "Nominal"@
            } else {
                "Failed to get metric data"@
            },
            o.over_limit ==> final(state).error_log@ == ring_push(
                old(state).error_log@,
                final(state).error_log@.last(),
            ) && final(state).error_log@.last().kind == ErrorKind::OverRamLimit,
            report.metrics is None ==> final(state).error_log@ == ring_push(
                old(state).error_log@,
                final(state).error_log@.last(),
            ) && final(state).error_log@.last().kind == ErrorKind::GeneralError,
            report.metrics is Some && !o.over_limit ==> final(state).error_log@ == old(
                state,
            ).error_log@,
            final(state).last_updated == now,
            final(state).event_counter == if old(state).event_counter < u64::MAX {
                (old(state).event_counter + 1) as u64
            } else {
                u64::MAX
            },
            final(state).started_at == old(state).started_at,
            final(state).name == old(state).name,
            final(state).pid == old(state).pid,
    {
        merge_lines(&mut state.stdout, &report.stdout);
        merge_lines(&mut state.stderr, &report.stderr);
        let respawn = !report.running;
        let mut over_limit = false;
        match &report.metrics {
            Some(m) => {
                state.data = String::from_str("Nominal");
                if m.memory >= self.memory_ceiling {
                    over_limit = true;
                    state.note_over_ram();
                }
                state.status = Status::Running;
            },
            None => {
                state.data = String::from_str("Failed to get metric data");
                state.push_error(
                    ErrorEntry::new(
                        ErrorKind::GeneralError,
                        String::from_str("Failed to get metric data from the child"),
                    ),
                );
                state.status = Status::Warning;
            },
        }
        state.touch(now);
        TickOutcome { respawn, over_limit }
    }
}

} // verus!

