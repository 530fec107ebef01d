use std::sync::Arc;

use tauri_core::coordinator::Coordinator;
use tauri_core::setup::{parse_phase, Outcome, Phase, SetupError, SetupState};

fn state(frontend_task: bool, backend_task: bool) -> SetupState {
    SetupState { frontend_task, backend_task }
}

#[test]
fn new_state_has_no_phase_done() {
    assert_eq!(SetupState::new(), state(false, false));
    assert_eq!(SetupState::default(), state(false, false));
}

#[test]
fn frontend_then_backend_fires_once() {
    let mut s = SetupState::new();
    assert_eq!(s.report_phase_complete("frontend"), Ok(Outcome::Recorded));
    assert_eq!(s, state(true, false));
    assert_eq!(s.report_phase_complete("backend"), Ok(Outcome::Ready));
    assert_eq!(s, state(true, true));
}

#[test]
fn backend_then_frontend_fires_once() {
    let mut s = SetupState::new();
    assert_eq!(s.report_phase_complete("backend"), Ok(Outcome::Recorded));
    assert_eq!(s, state(false, true));
    assert_eq!(s.report_phase_complete("frontend"), Ok(Outcome::Ready));
    assert_eq!(s, state(true, true));
}

#[test]
fn bogus_phase_is_refused_and_changes_nothing() {
    let mut s = SetupState::new();
    assert_eq!(s.report_phase_complete("bogus"), Err(SetupError::InvalidPhase));
    assert_eq!(s, state(false, false));
    assert_eq!(SetupError::InvalidPhase.message(), "Invalid task");
}

#[test]
fn unknown_names_leave_any_state_alone() {
    for name in ["", "Frontend", "backend ", "front", "backends", "quit"] {
        for (f, b) in [(false, false), (true, false), (false, true), (true, true)] {
            let mut s = state(f, b);
            assert_eq!(s.report_phase_complete(name), Err(SetupError::InvalidPhase));
            assert_eq!(s, state(f, b));
        }
    }
}

#[test]
fn repeated_report_is_idempotent() {
    let mut s = SetupState::new();
    assert_eq!(s.report_phase_complete("frontend"), Ok(Outcome::Recorded));
    let after_first = s;
    assert_eq!(s.report_phase_complete("frontend"), Ok(Outcome::Recorded));
    assert_eq!(s, after_first);

    assert_eq!(s.report_phase_complete("backend"), Ok(Outcome::Ready));
    assert_eq!(s.report_phase_complete("backend"), Ok(Outcome::Recorded));
    assert_eq!(s.report_phase_complete("frontend"), Ok(Outcome::Recorded));
    assert_eq!(s, state(true, true));
}

#[test]
fn one_phase_alone_never_fires() {
    let mut s = SetupState::new();
    for _ in 0..1000 {
        assert_eq!(s.report_phase_complete("backend"), Ok(Outcome::Recorded));
    }
    assert_eq!(s, state(false, true));
}

#[test]
fn record_by_phase() {
    let mut s = SetupState::new();
    assert_eq!(s.record(Phase::Backend), Outcome::Recorded);
    assert_eq!(s.record(Phase::Frontend), Outcome::Ready);
    assert_eq!(s.record(Phase::Frontend), Outcome::Recorded);
}

#[test]
fn phase_names() {
    assert_eq!(parse_phase("frontend"), Some(Phase::Frontend));
    assert_eq!(parse_phase("backend"), Some(Phase::Backend));
    assert_eq!(parse_phase("Backend"), None);
    assert_eq!(parse_phase("backen"), None);
    assert_eq!(parse_phase("frontends"), None);
    assert_eq!(parse_phase(""), None);
    assert_eq!(parse_phase("frontänd"), None);
}

#[test]
fn coordinator_reports_in_sequence() {
    let c = Coordinator::new();
    assert_eq!(c.snapshot(), state(false, false));
    assert_eq!(c.set_complete("frontend"), Ok(Outcome::Recorded));
    assert_eq!(c.snapshot(), state(true, false));
    assert_eq!(c.set_complete("bogus"), Err("Invalid task".to_string()));
    assert_eq!(c.snapshot(), state(true, false));
    assert_eq!(c.report_phase_complete("backend"), Ok(Outcome::Ready));
    assert_eq!(c.snapshot(), state(true, true));
    assert_eq!(c.set_complete("backend"), Ok(Outcome::Recorded));
    assert_eq!(c.snapshot(), state(true, true));
}

#[test]
fn concurrent_reports_fire_exactly_once() {
    let runtime = tokio::runtime::Builder::new_multi_thread()
        .worker_threads(8)
        .build()
        .unwrap();
    let c = Arc::new(Coordinator::new());
    let handles: Vec<_> = (0..100)
        .map(|i| {
            let c = Arc::clone(&c);
            runtime.spawn_blocking(move || {
                let task = if i % 2 == 0 { "frontend" } else { "backend" };
                c.report_phase_complete(task).unwrap()
            })
        })
        .collect();
    let outcomes: Vec<Outcome> = handles
        .into_iter()
        .map(|h| runtime.block_on(h).unwrap())
        .collect();
    let ready = outcomes.iter().filter(|o| **o == Outcome::Ready).count();
    assert_eq!(ready, 1);
    assert_eq!(c.snapshot(), state(true, true));
}
