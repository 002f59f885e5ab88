//! Tests of the backend supervisor: locating the entry point, interpreter
//! selection, the spawn/fallback/shutdown lifecycle, and the diagnostic
//! log it records.

use lutum_supervisor::diag::LogEntry;
use lutum_supervisor::interpreter::resolve_interpreter;
use lutum_supervisor::locate::locate_backend;
use lutum_supervisor::locate::LaunchCandidate;
use lutum_supervisor::supervisor::Phase;
use lutum_supervisor::supervisor::Supervisor;
use lutum_supervisor::BACKEND_PORT;
use lutum_supervisor::SPLASH_DELAY_MS;

fn candidate(entry: &str, dir: &str) -> LaunchCandidate {
    LaunchCandidate { entry_point: entry.to_string(), working_dir: dir.to_string() }
}

fn three_candidates() -> Vec<LaunchCandidate> {
    vec![
        candidate("resources/backend/backend.exe", "resources/backend"),
        candidate("resources/backend/main.py", "resources/backend"),
        candidate("resources/lutum_backend/main.py", "resources/lutum_backend"),
    ]
}

#[test]
fn locate_returns_none_when_no_candidate_exists() {
    let cands = three_candidates();
    let present = vec![false, false, false];
    assert_eq!(locate_backend(&cands, &present), None);
}

#[test]
fn locate_returns_the_single_existing_candidate_first_position() {
    let cands = three_candidates();
    let present = vec![true, false, false];
    assert_eq!(locate_backend(&cands, &present), Some(0));
}

#[test]
fn locate_returns_the_single_existing_candidate_last_position() {
    let cands = three_candidates();
    let present = vec![false, false, true];
    assert_eq!(locate_backend(&cands, &present), Some(2));
}

#[test]
fn locate_prefers_the_earlier_of_two_existing_candidates() {
    let cands = three_candidates();
    let present = vec![false, true, true];
    assert_eq!(locate_backend(&cands, &present), Some(1));
}

#[test]
fn locate_on_empty_candidate_list_returns_none() {
    let cands: Vec<LaunchCandidate> = Vec::new();
    let present: Vec<bool> = Vec::new();
    assert_eq!(locate_backend(&cands, &present), None);
}

#[test]
fn resolve_interpreter_picks_the_first_responding_probe() {
    let names = vec!["python".to_string(), "python3".to_string()];
    let responds = vec![false, true];
    assert_eq!(resolve_interpreter(&names, &responds), Some("python3".to_string()));
}

#[test]
fn resolve_interpreter_prefers_the_earlier_responder() {
    let names = vec!["python".to_string(), "python3".to_string()];
    let responds = vec![true, true];
    assert_eq!(resolve_interpreter(&names, &responds), Some("python".to_string()));
}

#[test]
fn resolve_interpreter_returns_none_when_no_probe_responds() {
    let names = vec!["python".to_string(), "python3".to_string()];
    let responds = vec![false, false];
    assert_eq!(resolve_interpreter(&names, &responds), None);
}

#[test]
fn spawn_success_tracks_the_process_and_shutdown_clears_it() {
    let mut sup = Supervisor::new(false);
    let cands = three_candidates();
    let found = sup.locate(&cands, &vec![true, false, false]);
    assert_eq!(found, Some(0));
    assert_eq!(sup.phase, Phase::Located);
    sup.record_spawn_success(4711);
    assert_eq!(sup.phase, Phase::Running);
    assert_eq!(sup.process, Some(4711));
    assert_eq!(sup.shutdown(), Some(4711));
    assert_eq!(sup.process, None);
    assert_eq!(sup.phase, Phase::Terminated);
    // shutdown is idempotent: further calls hand back nothing and change
    // nothing
    assert_eq!(sup.shutdown(), None);
    assert_eq!(sup.shutdown(), None);
    assert_eq!(sup.process, None);
    assert_eq!(sup.phase, Phase::Terminated);
}

#[test]
fn shutdown_before_any_spawn_attempt_is_a_noop() {
    let mut sup = Supervisor::new(true);
    assert_eq!(sup.shutdown(), None);
    assert_eq!(sup.process, None);
    assert_eq!(sup.phase, Phase::Terminated);
    assert!(sup.log.is_empty());
}

#[test]
fn failed_spawn_authorizes_exactly_one_fallback_attempt() {
    let mut sup = Supervisor::new(true);
    let cands = three_candidates();
    sup.locate(&cands, &vec![true, false, false]);
    let try_fallback = sup.record_spawn_failure();
    assert!(try_fallback);
    assert_eq!(sup.phase, Phase::FallbackPending);
    assert_eq!(sup.fallback_attempts, 1);
    sup.record_fallback_failure();
    assert_eq!(sup.phase, Phase::NeverStarted);
    assert_eq!(sup.fallback_attempts, 1);
    assert_eq!(sup.process, None);
}

#[test]
fn failed_spawn_without_fallback_abandons_the_launch() {
    let mut sup = Supervisor::new(false);
    let cands = three_candidates();
    sup.locate(&cands, &vec![true, false, false]);
    let try_fallback = sup.record_spawn_failure();
    assert!(!try_fallback);
    assert_eq!(sup.phase, Phase::NeverStarted);
    assert_eq!(sup.fallback_attempts, 0);
}

#[test]
fn fallback_success_tracks_the_process() {
    let mut sup = Supervisor::new(true);
    let cands = three_candidates();
    sup.locate(&cands, &vec![true, false, false]);
    assert!(sup.record_spawn_failure());
    sup.record_fallback_success(99);
    assert_eq!(sup.phase, Phase::Running);
    assert_eq!(sup.process, Some(99));
    assert_eq!(sup.shutdown(), Some(99));
    assert_eq!(sup.process, None);
}

#[test]
fn interpreter_choice_is_logged_and_failure_abandons_the_launch() {
    let mut sup = Supervisor::new(false);
    let cands = three_candidates();
    sup.locate(&cands, &vec![false, true, false]);
    let names = vec!["python".to_string(), "python3".to_string()];
    let chosen = sup.choose_interpreter(&names, &vec![false, true]);
    assert_eq!(chosen, Some("python3".to_string()));
    assert_eq!(sup.phase, Phase::Located);
    assert_eq!(
        sup.log.last(),
        Some(&LogEntry::InterpreterChosen { name: "python3".to_string() })
    );

    let mut sup2 = Supervisor::new(false);
    sup2.locate(&cands, &vec![false, true, false]);
    let chosen2 = sup2.choose_interpreter(&names, &vec![false, false]);
    assert_eq!(chosen2, None);
    assert_eq!(sup2.phase, Phase::NeverStarted);
    assert_eq!(sup2.log.last(), Some(&LogEntry::InterpreterNotFound));
}

#[test]
fn scenario_bundled_executable_found_and_started() {
    // The candidate entry point exists at the bundled-executable path; the
    // spawn succeeds; the diagnostic log confirms the resolved path and the
    // success; shutdown kills the tracked process and clears the reference.
    let cands = three_candidates();
    let mut sup = Supervisor::new(false);
    let found = sup.locate(&cands, &vec![true, false, false]);
    assert_eq!(found, Some(0));
    sup.record_spawn_success(1234);
    assert_eq!(
        sup.log,
        vec![
            LogEntry::Checked {
                path: "resources/backend/backend.exe".to_string(),
                found: true,
            },
            LogEntry::Starting { path: "resources/backend/backend.exe".to_string() },
            LogEntry::Started,
        ]
    );
    assert_eq!(sup.process, Some(1234));
    assert_eq!(sup.shutdown(), Some(1234));
    assert_eq!(sup.process, None);
    assert_eq!(sup.log.last(), Some(&LogEntry::Killed));
}

#[test]
fn scenario_no_candidate_anywhere() {
    // No candidate entry point exists: the log records a not-found entry
    // for every checked path, no process reference is ever set, and
    // shutdown is a no-op.
    let cands = three_candidates();
    let mut sup = Supervisor::new(false);
    let found = sup.locate(&cands, &vec![false, false, false]);
    assert_eq!(found, None);
    assert_eq!(sup.phase, Phase::NeverStarted);
    assert_eq!(
        sup.log,
        vec![
            LogEntry::Checked {
                path: "resources/backend/backend.exe".to_string(),
                found: false,
            },
            LogEntry::Checked {
                path: "resources/backend/main.py".to_string(),
                found: false,
            },
            LogEntry::Checked {
                path: "resources/lutum_backend/main.py".to_string(),
                found: false,
            },
        ]
    );
    assert_eq!(sup.process, None);
    assert_eq!(sup.shutdown(), None);
    assert_eq!(sup.process, None);
    assert_eq!(sup.log.len(), 3);
}

#[test]
fn locate_logs_checks_only_up_to_the_first_existing_candidate() {
    let cands = three_candidates();
    let mut sup = Supervisor::new(false);
    let found = sup.locate(&cands, &vec![false, true, false]);
    assert_eq!(found, Some(1));
    assert_eq!(
        sup.log,
        vec![
            LogEntry::Checked {
                path: "resources/backend/backend.exe".to_string(),
                found: false,
            },
            LogEntry::Checked {
                path: "resources/backend/main.py".to_string(),
                found: true,
            },
            LogEntry::Starting { path: "resources/backend/main.py".to_string() },
        ]
    );
}

#[test]
fn spawn_failures_are_logged() {
    let mut sup = Supervisor::new(true);
    let cands = three_candidates();
    sup.locate(&cands, &vec![true, false, false]);
    sup.record_spawn_failure();
    assert_eq!(sup.log.last(), Some(&LogEntry::SpawnFailed));
    sup.record_fallback_failure();
    assert_eq!(sup.log.last(), Some(&LogEntry::FallbackFailed));
}

#[test]
fn fixed_configuration_values() {
    assert_eq!(BACKEND_PORT, 8420);
    assert_eq!(SPLASH_DELAY_MS, 1500);
}
