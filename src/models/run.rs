//! Run records, test-case records and the events streamed during a run.
use crate::parsing::text::same_text;
use vstd::prelude::*;

verus! {

pub open spec fn opt_text(o: Option<String>) -> Option<Seq<char>> {
    match o {
        Some(s) => Some(s@),
        None => None,
    }
}

/// A stored summary of one run.
#[derive(Debug, Clone)]
pub struct TestRun {
    pub id: String,
    pub status: RunStatus,
    pub project_path: String,
    pub scope: String,
    pub started_at: String,
    pub finished_at: Option<String>,
    pub duration_ms: Option<i64>,
    pub total_tests: i32,
    pub passed_tests: i32,
    pub failed_tests: i32,
    pub skipped_tests: i32,
}

#[derive(Debug, Clone, Copy, PartialEq, Eq, Structural)]
pub enum RunStatus {
    Running,
    Passed,
    Failed,
    Cancelled,
}

pub open spec fn run_status_text(s: RunStatus) -> Seq<char> {
    match s {
        RunStatus::Running => "running"@,
        RunStatus::Passed => "passed"@,
        RunStatus::Failed => "failed"@,
        RunStatus::Cancelled => "cancelled"@,
    }
}

pub open spec fn run_status_of(s: Seq<char>) -> RunStatus {
    if s == "passed"@ {
        RunStatus::Passed
    } else if s == "failed"@ {
        RunStatus::Failed
    } else if s == "cancelled"@ {
        RunStatus::Cancelled
    } else {
        RunStatus::Running
    }
}

impl RunStatus {
    /// The lowercase name of the status.
    pub fn as_str(&self) -> (r: &'static str)
        ensures
            r@ == run_status_text(*self),
    {
        match self {
            RunStatus::Running => "running",
            RunStatus::Passed => "passed",
            RunStatus::Failed => "failed",
            RunStatus::Cancelled => "cancelled",
        }
    }

    /// Reads a status name; any unknown name reads as `Running`.
    pub fn from_str(s: &str) -> (r: RunStatus)
        ensures
            r == run_status_of(s@),
    {
        if same_text(s, "passed") {
            RunStatus::Passed
        } else if same_text(s, "failed") {
            RunStatus::Failed
        } else if same_text(s, "cancelled") {
            RunStatus::Cancelled
        } else {
            RunStatus::Running
        }
    }
}

/// One test case as recorded from a result bundle.
#[derive(Debug, Clone, PartialEq)]
pub struct TestCase {
    pub id: Option<i64>,
    pub run_id: String,
    pub suite_name: String,
    pub test_name: String,
    pub status: TestStatus,
    pub duration_ms: Option<i64>,
    pub failure_message: Option<String>,
    pub file_path: Option<String>,
    pub line_number: Option<i32>,
}

/// The value of a `TestCase`, with its texts as character sequences.
pub struct TestCaseView {
    pub id: Option<i64>,
    pub run_id: Seq<char>,
    pub suite_name: Seq<char>,
    pub test_name: Seq<char>,
    pub status: TestStatus,
    pub duration_ms: Option<i64>,
    pub failure_message: Option<Seq<char>>,
    pub file_path: Option<Seq<char>>,
    pub line_number: Option<i32>,
}

impl View for TestCase {
    type V = TestCaseView;

    open spec fn view(&self) -> TestCaseView {
        TestCaseView {
            id: self.id,
            run_id: self.run_id@,
            suite_name: self.suite_name@,
            test_name: self.test_name@,
            status: self.status,
            duration_ms: self.duration_ms,
            failure_message: opt_text(self.failure_message),
            file_path: opt_text(self.file_path),
            line_number: self.line_number,
        }
    }
}

#[derive(Debug, Clone, Copy, PartialEq, Eq, Structural)]
pub enum TestStatus {
    Passed,
    Failed,
    Skipped,
}

pub open spec fn test_status_text(s: TestStatus) -> Seq<char> {
    match s {
        TestStatus::Passed => "passed"@,
        TestStatus::Failed => "failed"@,
        TestStatus::Skipped => "skipped"@,
    }
}

pub open spec fn test_status_of(s: Seq<char>) -> TestStatus {
    if s == "passed"@ {
        TestStatus::Passed
    } else if s == "failed"@ {
        TestStatus::Failed
    } else {
        TestStatus::Skipped
    }
}

impl TestStatus {
    /// The lowercase name of the status.
    pub fn as_str(&self) -> (r: &'static str)
        ensures
            r@ == test_status_text(*self),
    {
        match self {
            TestStatus::Passed => "passed",
            TestStatus::Failed => "failed",
            TestStatus::Skipped => "skipped",
        }
    }

    /// Reads a status name; any unknown name reads as `Skipped`.
    pub fn from_str(s: &str) -> (r: TestStatus)
        ensures
            r == test_status_of(s@),
    {
        if same_text(s, "passed") {
            TestStatus::Passed
        } else if same_text(s, "failed") {
            TestStatus::Failed
        } else {
            TestStatus::Skipped
        }
    }
}

/// Events streamed to the consumer while a run is in progress.
#[derive(Debug, Clone, PartialEq)]
pub enum TestRunEvent {
    RunStarted { run_id: String },
    Stdout { line: String },
    Stderr { line: String },
    TestCompleted { name: String, suite: String, status: String, duration_ms: i64 },
    Progress { tests_run: i32, tests_total: i32 },
    RunFinished { run_id: String, success: bool },
    TargetCompleted { key: String, success: bool },
    Error { message: String },
}

/// The value of a `TestRunEvent`, with its texts as character sequences.
pub enum EventView {
    RunStarted { run_id: Seq<char> },
    Stdout { line: Seq<char> },
    Stderr { line: Seq<char> },
    TestCompleted { name: Seq<char>, suite: Seq<char>, status: Seq<char>, duration_ms: i64 },
    Progress { tests_run: i32, tests_total: i32 },
    RunFinished { run_id: Seq<char>, success: bool },
    TargetCompleted { key: Seq<char>, success: bool },
    Error { message: Seq<char> },
}

impl View for TestRunEvent {
    type V = EventView;

    open spec fn view(&self) -> EventView {
        match self {
            TestRunEvent::RunStarted { run_id } => EventView::RunStarted { run_id: run_id@ },
            TestRunEvent::Stdout { line } => EventView::Stdout { line: line@ },
            TestRunEvent::Stderr { line } => EventView::Stderr { line: line@ },
            TestRunEvent::TestCompleted { name, suite, status, duration_ms } => {
                EventView::TestCompleted {
                    name: name@,
                    suite: suite@,
                    status: status@,
                    duration_ms: *duration_ms,
                }
            },
            TestRunEvent::Progress { tests_run, tests_total } => EventView::Progress {
                tests_run: *tests_run,
                tests_total: *tests_total,
            },
            TestRunEvent::RunFinished { run_id, success } => EventView::RunFinished {
                run_id: run_id@,
                success: *success,
            },
            TestRunEvent::TargetCompleted { key, success } => EventView::TargetCompleted {
                key: key@,
                success: *success,
            },
            TestRunEvent::Error { message } => EventView::Error { message: message@ },
        }
    }
}

} // verus!
