//! The change-aggregation and health-tick behaviour of the engine.

use ais_runner::engine::{ChangeDecision, Engine, Metrics, TickReport};
use ais_runner::filter::IgnoreSet;
use ais_runner::state::{EngineState, Status};

fn fresh_state() -> EngineState {
    EngineState::fresh(String::from("ais_runner"), 4242, 1000)
}

fn empty_report(running: bool, metrics: Option<Metrics>) -> TickReport {
    TickReport {
        running,
        metrics,
        stdout: Vec::new(),
        stderr: Vec::new(),
    }
}

fn path(p: &str) -> Vec<u8> {
    p.as_bytes().to_vec()
}

#[test]
fn below_threshold_counts_without_rebuild() {
    let ignore = IgnoreSet::new(vec![]);
    let mut engine = Engine::new(3, u64::MAX);
    for expected in 1..=2u32 {
        let d = engine.process_change(&ignore, &vec![path("/srv/app/src/main.c")]);
        assert_eq!(d, ChangeDecision::Counted);
        assert_eq!(engine.change_count, expected);
    }
}

#[test]
fn threshold_triggers_exactly_once_and_resets() {
    let ignore = IgnoreSet::new(vec![]);
    let mut engine = Engine::new(3, u64::MAX);
    let mut rebuilds = 0;
    for _ in 0..3 {
        if engine.process_change(&ignore, &vec![path("/srv/app/a")]) == ChangeDecision::Rebuild {
            rebuilds += 1;
        }
    }
    assert_eq!(rebuilds, 1);
    assert_eq!(engine.change_count, 0);
}

#[test]
fn long_run_totals_follow_division() {
    // With threshold 3, a run of 7 counted events triggers 7 / 3 = 2
    // rebuilds and leaves the count at 7 % 3 = 1.
    let ignore = IgnoreSet::new(vec![]);
    let mut engine = Engine::new(3, u64::MAX);
    let mut rebuilds = 0;
    for _ in 0..7 {
        if engine.process_change(&ignore, &vec![path("/srv/app/a")]) == ChangeDecision::Rebuild {
            rebuilds += 1;
        }
    }
    assert_eq!(rebuilds, 2);
    assert_eq!(engine.change_count, 1);
}

#[test]
fn non_positive_threshold_triggers_on_first_event() {
    let ignore = IgnoreSet::new(vec![]);
    let mut engine = Engine::new(0, u64::MAX);
    let d = engine.process_change(&ignore, &vec![path("/srv/app/a")]);
    assert_eq!(d, ChangeDecision::Rebuild);
    assert_eq!(engine.change_count, 0);
}

#[test]
fn ignored_event_never_increments_counter() {
    let ignore = IgnoreSet::new(vec![path("/srv/app/node_modules")]);
    let mut engine = Engine::new(3, u64::MAX);
    let d = engine.process_change(&ignore, &vec![path("/srv/app/node_modules/pkg/index.js")]);
    assert_eq!(d, ChangeDecision::Dropped);
    assert_eq!(engine.change_count, 0);
    // Several paths, only one of them ignored: still dropped, still zero.
    let d = engine.process_change(
        &ignore,
        &vec![path("/srv/app/src/a.c"), path("/srv/app/node_modules/x")],
    );
    assert_eq!(d, ChangeDecision::Dropped);
    assert_eq!(engine.change_count, 0);
}

#[test]
fn sibling_prefix_is_not_ignored() {
    // "/srv/app/node_modules" must not swallow "/srv/app/node_modules_backup".
    let ignore = IgnoreSet::new(vec![path("/srv/app/node_modules")]);
    let mut engine = Engine::new(3, u64::MAX);
    let d = engine.process_change(&ignore, &vec![path("/srv/app/node_modules_backup/a")]);
    assert_eq!(d, ChangeDecision::Counted);
    assert_eq!(engine.change_count, 1);
}

#[test]
fn burst_scenario_rebuilds_once_then_ignored_event_does_nothing() {
    // Threshold 3; three events for unrelated paths arrive, the third trips
    // the rebuild; a fourth event for an ignored path right after must not
    // start a second climb.
    let ignore = IgnoreSet::new(vec![path("/srv/app/logs")]);
    let mut engine = Engine::new(3, u64::MAX);
    assert_eq!(
        engine.process_change(&ignore, &vec![path("/srv/app/a.rs")]),
        ChangeDecision::Counted
    );
    assert_eq!(
        engine.process_change(&ignore, &vec![path("/srv/app/b.rs")]),
        ChangeDecision::Counted
    );
    assert_eq!(
        engine.process_change(&ignore, &vec![path("/srv/app/c.rs")]),
        ChangeDecision::Rebuild
    );
    assert_eq!(
        engine.process_change(&ignore, &vec![path("/srv/app/logs/out.log")]),
        ChangeDecision::Dropped
    );
    assert_eq!(engine.change_count, 0);
}

#[test]
fn crash_between_ticks_respawns_exactly_once() {
    let engine = Engine::new(3, u64::MAX);
    let mut state = fresh_state();
    // Healthy tick: nothing to respawn.
    let o = engine.health_tick(
        &mut state,
        &empty_report(true, Some(Metrics { memory: 10, cpu: 5 })),
        1010,
    );
    assert!(!o.respawn);
    // The workload died in between: the next tick detects it, once.
    let o = engine.health_tick(
        &mut state,
        &empty_report(false, Some(Metrics { memory: 0, cpu: 0 })),
        1015,
    );
    assert!(o.respawn);
    // The shell respawned; the following tick is quiet again.
    let mut fatal_count = 0;
    if o.respawn {
        fatal_count += 1;
        state.record_spawned(1016);
    }
    assert_eq!(fatal_count, 1);
    let o = engine.health_tick(
        &mut state,
        &empty_report(true, Some(Metrics { memory: 10, cpu: 5 })),
        1020,
    );
    assert!(!o.respawn);
    assert_eq!(state.status, Status::Running);
}

#[test]
fn respawn_check_leaves_aggregation_counter_alone() {
    let ignore = IgnoreSet::new(vec![]);
    let mut engine = Engine::new(3, u64::MAX);
    let mut state = fresh_state();
    engine.process_change(&ignore, &vec![path("/srv/app/a.rs")]);
    engine.process_change(&ignore, &vec![path("/srv/app/b.rs")]);
    assert_eq!(engine.change_count, 2);
    let o = engine.health_tick(&mut state, &empty_report(false, None), 1010);
    assert!(o.respawn);
    assert_eq!(engine.change_count, 2);
}

#[test]
fn memory_ceiling_breach_is_logged_not_fatal() {
    let engine = Engine::new(3, 1024);
    let mut state = fresh_state();
    let o = engine.health_tick(
        &mut state,
        &empty_report(true, Some(Metrics { memory: 1024, cpu: 1 })),
        1010,
    );
    assert!(o.over_limit);
    assert!(!o.respawn);
    assert_eq!(state.status, Status::Running);
    let last = state.error_log.last().unwrap();
    assert_eq!(last.kind, ais_runner::errors::ErrorKind::OverRamLimit);
}

#[test]
fn metrics_failure_degrades_to_warning() {
    let engine = Engine::new(3, 1024);
    let mut state = fresh_state();
    let o = engine.health_tick(&mut state, &empty_report(true, None), 1010);
    assert!(!o.over_limit);
    assert_eq!(state.status, Status::Warning);
    assert_eq!(state.data, String::from("Failed to get metric data"));
    let last = state.error_log.last().unwrap();
    assert_eq!(last.kind, ais_runner::errors::ErrorKind::GeneralError);
    // The next healthy tick returns to Running.
    let o = engine.health_tick(
        &mut state,
        &empty_report(true, Some(Metrics { memory: 1, cpu: 1 })),
        1015,
    );
    assert!(!o.over_limit);
    assert_eq!(state.status, Status::Running);
}
