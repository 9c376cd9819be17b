use xcode_test_runner::commands::execution::{
    plan_units, scratch_dir, PackageTarget, RunAction, RunCoordinator, RunTestsParams, SchemeTarget,
    TestPlanRun,
};
use xcode_test_runner::execution::runner::{on_read, on_wait, ReadOutcome, StreamKind, WaitOutcome};
use xcode_test_runner::models::run::{RunStatus, TestRunEvent, TestStatus};
use xcode_test_runner::models::settings::AppSettings;
use xcode_test_runner::state::AppState;

fn params(schemes: Vec<SchemeTarget>, plans: Vec<TestPlanRun>, packages: Vec<PackageTarget>) -> RunTestsParams {
    RunTestsParams {
        project_path: "/p".to_string(),
        scheme_targets: schemes,
        packages,
        stop_on_first_failure: false,
        test_plan_runs: plans,
        destination: None,
    }
}

fn scheme(s: &str, t: Option<&str>) -> SchemeTarget {
    SchemeTarget { scheme: s.to_string(), only_testing_target: t.map(|x| x.to_string()) }
}

/// Drives a coordinator: `outcome(i)` is the success of unit `i`, and
/// cancellation is seen before unit `cancel_before` starts.
fn drive(units: usize, outcome: impl Fn(usize) -> bool, cancel_before: Option<usize>) -> (Vec<TestRunEvent>, Vec<usize>) {
    let p = params(
        (0..units).map(|i| scheme(&format!("S{}", i + 1), None)).collect(),
        vec![],
        vec![],
    );
    let mut coord = RunCoordinator::new("run-1".to_string(), plan_units(&p, "/tmp/r", &None));
    let mut events = vec![coord.started_event()];
    let mut launched = Vec::new();
    loop {
        let cancelled = cancel_before.map_or(false, |c| launched.len() >= c);
        match coord.next_action(cancelled) {
            RunAction::Launch(i) => {
                launched.push(i);
                events.push(coord.complete_unit(outcome(i)));
            }
            RunAction::Finish(e) => {
                events.push(e);
                break;
            }
        }
    }
    (events, launched)
}

fn target(key: &str, success: bool) -> TestRunEvent {
    TestRunEvent::TargetCompleted { key: key.to_string(), success }
}

#[test]
fn failing_second_unit_fails_the_run() {
    let (events, launched) = drive(3, |i| i != 1, None);
    assert_eq!(launched, vec![0, 1, 2]);
    assert_eq!(
        events,
        vec![
            TestRunEvent::RunStarted { run_id: "run-1".to_string() },
            target("S1", true),
            target("S2", false),
            target("S3", true),
            TestRunEvent::RunFinished { run_id: "run-1".to_string(), success: false },
        ]
    );
}

#[test]
fn all_units_passing_pass_the_run() {
    let (events, _) = drive(2, |_| true, None);
    assert_eq!(events.last(), Some(&TestRunEvent::RunFinished { run_id: "run-1".to_string(), success: true }));
}

#[test]
fn cancellation_before_second_unit_stops_the_run() {
    let (events, launched) = drive(3, |_| true, Some(1));
    assert_eq!(launched, vec![0]);
    let completed: Vec<_> = events.iter().filter(|e| matches!(e, TestRunEvent::TargetCompleted { .. })).collect();
    assert_eq!(completed, vec![&target("S1", true)]);
    let finished: Vec<_> = events.iter().filter(|e| matches!(e, TestRunEvent::RunFinished { .. })).collect();
    assert_eq!(finished.len(), 1);
}

#[test]
fn empty_request_finishes_successfully() {
    let (events, launched) = drive(0, |_| false, None);
    assert!(launched.is_empty());
    assert_eq!(events.len(), 2);
    assert_eq!(events[1], TestRunEvent::RunFinished { run_id: "run-1".to_string(), success: true });
}

#[test]
fn units_are_planned_in_order_with_their_keys() {
    let mut p = params(
        vec![scheme("App", None), scheme("App", Some("AppTests/LoginTests"))],
        vec![TestPlanRun { scheme: "App".to_string(), test_plan_name: "Smoke".to_string() }],
        vec![
            PackageTarget { path: "/p/Core".to_string(), filter: None },
            PackageTarget { path: "/p/Net".to_string(), filter: Some("NetTests".to_string()) },
        ],
    );
    p.destination = Some("platform=macOS".to_string());
    let units = plan_units(&p, "/tmp/r", &None);
    let keys: Vec<&str> = units.iter().map(|u| u.key.as_str()).collect();
    assert_eq!(keys, vec!["App", "App|AppTests/LoginTests", "plan:App:Smoke", "/p/Core", "/p/Net|NetTests"]);
    assert_eq!(units[0].program, "xcodebuild");
    assert_eq!(units[0].working_dir, "/p");
    assert_eq!(units[1].args[5], "-only-testing:AppTests/LoginTests");
    assert_eq!(units[2].args[5], "-testPlan");
    assert_eq!(units[2].args[6], "Smoke");
    assert_eq!(units[2].args[8], "platform=macOS");
    assert_eq!(units[4].program, "swift");
    assert_eq!(units[4].working_dir, "/p/Net");
    assert_eq!(units[4].args, vec!["test", "--package-path", "/p/Net", "--filter", "NetTests"]);
}

#[test]
fn scratch_directory_per_run() {
    assert_eq!(scratch_dir("/tmp", "abc"), "/tmp/xcode-test-runner/abc");
    assert_eq!(scratch_dir("/tmp/", "abc"), "/tmp/xcode-test-runner/abc");
}

#[test]
fn cancel_without_active_run_fails_and_changes_nothing() {
    let state = AppState::new();
    assert_eq!(state.cancel_run(), Err("No active run to cancel".to_string()));
    assert!(state.active_run_id.is_none());
    assert!(state.cancellation_token.is_none());
}

#[test]
fn cancel_signals_the_active_run() {
    let mut state = AppState::new();
    let (run_id, token) = state.begin_run();
    assert_eq!(run_id.len(), 36);
    assert_eq!(state.active_run_id.as_deref(), Some(run_id.as_str()));
    assert!(!token.is_cancelled());
    assert_eq!(state.cancel_run(), Ok(()));
    assert!(token.is_cancelled());
    assert_eq!(state.cancel_run(), Ok(()));
    state.end_run();
    assert!(state.active_run_id.is_none());
    assert!(state.cancel_run().is_err());
}

#[test]
fn run_ids_differ() {
    let mut state = AppState::new();
    let (a, _) = state.begin_run();
    let (b, _) = state.begin_run();
    assert_ne!(a, b);
}

#[test]
fn stream_reads() {
    assert_eq!(
        on_read(StreamKind::Stdout, ReadOutcome::Line("a".to_string())),
        Some(TestRunEvent::Stdout { line: "a".to_string() })
    );
    assert_eq!(
        on_read(StreamKind::Stderr, ReadOutcome::Line("b".to_string())),
        Some(TestRunEvent::Stderr { line: "b".to_string() })
    );
    assert_eq!(on_read(StreamKind::Stdout, ReadOutcome::EndOfStream), None);
    assert_eq!(on_read(StreamKind::Stdout, ReadOutcome::ReadFailed), None);
    assert_eq!(on_read(StreamKind::Stderr, ReadOutcome::Cancelled), None);
}

#[test]
fn wait_outcomes() {
    assert_eq!(on_wait(WaitOutcome::Exited { success: true }), (true, None));
    assert_eq!(on_wait(WaitOutcome::Exited { success: false }), (false, None));
    assert_eq!(on_wait(WaitOutcome::Cancelled), (false, None));
    assert_eq!(
        on_wait(WaitOutcome::WaitFailed { message: "boom".to_string() }),
        (false, Some(TestRunEvent::Error { message: "Process error: boom".to_string() }))
    );
}

#[test]
fn status_names() {
    assert_eq!(RunStatus::from_str("passed"), RunStatus::Passed);
    assert_eq!(RunStatus::from_str("failed"), RunStatus::Failed);
    assert_eq!(RunStatus::from_str("cancelled"), RunStatus::Cancelled);
    assert_eq!(RunStatus::from_str("weird"), RunStatus::Running);
    assert_eq!(RunStatus::Cancelled.as_str(), "cancelled");
    assert_eq!(RunStatus::Running.as_str(), "running");
    assert_eq!(TestStatus::from_str("passed"), TestStatus::Passed);
    assert_eq!(TestStatus::from_str("failed"), TestStatus::Failed);
    assert_eq!(TestStatus::from_str("other"), TestStatus::Skipped);
    assert_eq!(TestStatus::Skipped.as_str(), "skipped");
}

#[test]
fn default_settings() {
    let s = AppSettings::default();
    assert_eq!(s.project_path, "");
    assert_eq!(s.default_scope, "all");
    assert!(!s.stop_on_first_failure);
    assert!(s.notify_on_completion);
    assert!(!s.notify_only_on_failure);
    assert_eq!(s.retain_last_runs, 50);
}
