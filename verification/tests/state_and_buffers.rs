//! The persisted snapshot, its bounded error log, and output merging.

use ais_runner::buffers::merge_lines;
use ais_runner::engine::{Engine, Metrics, TickReport};
use ais_runner::errors::{ErrorEntry, ErrorKind};
use ais_runner::state::{EngineState, LogLine, Status, ERROR_LOG_CAP};

fn fresh_state() -> EngineState {
    EngineState::fresh(String::from("ais_runner"), 4242, 1000)
}

fn line(at: u64, text: &str) -> LogLine {
    LogLine {
        at,
        text: String::from(text),
    }
}

#[test]
fn fresh_state_starts_clean() {
    let s = fresh_state();
    assert_eq!(s.status, Status::Starting);
    assert_eq!(s.event_counter, 0);
    assert_eq!(s.pid, 4242);
    assert!(s.error_log.is_empty());
    assert!(s.stdout.is_empty());
    assert_eq!(s.data, String::from("Initializing"));
}

#[test]
fn reinitialized_state_keeps_counter_and_clears_buffers() {
    let mut s = fresh_state();
    s.touch(1001);
    s.touch(1002);
    s.stdout.push(line(100, "old output"));
    s.push_error(ErrorEntry::new(ErrorKind::GeneralError, String::from("old")));
    let counter = s.event_counter;
    let s = s.reinitialized(4243, 2000);
    assert_eq!(s.event_counter, counter);
    assert_eq!(s.pid, 4243);
    assert_eq!(s.status, Status::Starting);
    assert!(s.stdout.is_empty());
    assert!(s.error_log.is_empty());
    assert_eq!(s.started_at, 2000);
}

#[test]
fn update_state_increments_counter() {
    let mut state = fresh_state();

    let prev_counter = state.event_counter;
    let prev_timestamp = state.last_updated;

    state.touch(1001);

    assert_eq!(state.event_counter, prev_counter + 1);
    assert!(state.last_updated >= prev_timestamp);
}

#[test]
fn error_ring_evicts_oldest_past_cap() {
    let mut state = fresh_state();
    for i in 0..(ERROR_LOG_CAP + 2) {
        state.push_error(ErrorEntry::new(
            ErrorKind::GeneralError,
            format!("failure {}", i),
        ));
    }
    assert_eq!(state.error_log.len(), ERROR_LOG_CAP);
    // The two oldest entries were evicted.
    assert_eq!(state.error_log[0].message, String::from("failure 2"));
    assert_eq!(
        state.error_log.last().unwrap().message,
        format!("failure {}", ERROR_LOG_CAP + 1)
    );
}

#[test]
fn dedup_stdout_entries() {
    let mut state = fresh_state();
    let drained = vec![line(200, "hello"), line(200, "world")];

    // First retrieval.
    merge_lines(&mut state.stdout, &drained);
    let len_after_first = state.stdout.len();

    // Second retrieval with no new output must not duplicate lines.
    merge_lines(&mut state.stdout, &drained);

    assert_eq!(state.stdout.len(), len_after_first);
    assert_eq!(state.stdout, drained);
}

#[test]
fn merge_keeps_lines_ordered_by_stamp() {
    let mut buf = vec![line(10, "a"), line(30, "c")];
    merge_lines(&mut buf, &vec![line(20, "b"), line(5, "z"), line(30, "d")]);
    let stamps: Vec<u64> = buf.iter().map(|l| l.at).collect();
    assert_eq!(stamps, vec![5, 10, 20, 30, 30]);
    assert_eq!(buf[0].text, String::from("z"));
    // Same stamp, different text: both stay, first-come first within stamp.
    assert_eq!(buf[3].text, String::from("c"));
    assert_eq!(buf[4].text, String::from("d"));
}

#[test]
fn merge_distinguishes_same_text_at_different_stamps() {
    let mut buf = Vec::new();
    merge_lines(&mut buf, &vec![line(1, "tick"), line(2, "tick")]);
    assert_eq!(buf.len(), 2);
    merge_lines(&mut buf, &vec![line(2, "tick")]);
    assert_eq!(buf.len(), 2);
}

#[test]
fn tick_merges_drained_output_idempotently() {
    let engine = Engine::new(3, u64::MAX);
    let mut state = fresh_state();
    let report = TickReport {
        running: true,
        metrics: Some(Metrics { memory: 1, cpu: 1 }),
        stdout: vec![line(200, "hello")],
        stderr: vec![line(201, "oops")],
    };
    engine.health_tick(&mut state, &report, 1010);
    engine.health_tick(&mut state, &report, 1015);
    assert_eq!(state.stdout.len(), 1);
    assert_eq!(state.stderr.len(), 1);
    assert_eq!(state.stdout[0].text, String::from("hello"));
}

#[test]
fn absorb_output_folds_step_output_in() {
    let mut state = fresh_state();
    state.absorb_output(&vec![line(50, "compiling")], &Vec::new());
    state.absorb_output(&vec![line(50, "compiling"), line(60, "done")], &Vec::new());
    assert_eq!(state.stdout.len(), 2);
    assert!(state.stderr.is_empty());
}
