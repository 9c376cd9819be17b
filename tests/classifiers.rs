use xcode_test_runner::models::run::TestRunEvent;
use xcode_test_runner::parsing::{stdout_parser, swift_test_parser};

fn completed(name: &str, suite: &str, status: &str, duration_ms: i64) -> TestRunEvent {
    TestRunEvent::TestCompleted {
        name: name.to_string(),
        suite: suite.to_string(),
        status: status.to_string(),
        duration_ms,
    }
}

#[test]
fn build_line_passed_is_classified() {
    let r = stdout_parser::parse_line("Test Case '-[S M]' passed (0.001 seconds).");
    assert_eq!(r, Some(completed("M", "S", "passed", 1)));
}

#[test]
fn build_line_failed_with_leading_text() {
    let r = stdout_parser::parse_line(
        "  [12:00] Test Case '-[MyAppTests.LoginTests testLogin]' failed (2.500 seconds).",
    );
    assert_eq!(r, Some(completed("testLogin", "MyAppTests.LoginTests", "failed", 2500)));
}

#[test]
fn build_line_duration_rounds_to_nearest_ms() {
    let r = stdout_parser::parse_line("Test Case '-[S m]' passed (0.0015 seconds).");
    assert_eq!(r, Some(completed("m", "S", "passed", 2)));
    let r = stdout_parser::parse_line("Test Case '-[S m]' passed (0.0014 seconds).");
    assert_eq!(r, Some(completed("m", "S", "passed", 1)));
}

#[test]
fn build_line_huge_duration_saturates() {
    let r = stdout_parser::parse_line(
        "Test Case '-[S m]' passed (99999999999999999999999.5 seconds).",
    );
    assert_eq!(r, Some(completed("m", "S", "passed", i64::MAX)));
}

#[test]
fn build_line_needs_trailing_period() {
    assert_eq!(stdout_parser::parse_line("Test Case '-[S M]' passed (0.001 seconds)"), None);
}

#[test]
fn build_suite_line_gives_no_event() {
    assert_eq!(
        stdout_parser::parse_line("Test Suite 'All tests' passed at 2024-01-01 10:00:00.000."),
        None
    );
}

#[test]
fn build_line_without_fraction_gives_no_event() {
    assert_eq!(stdout_parser::parse_line("Test Case '-[S M]' passed (1 seconds)."), None);
}

#[test]
fn package_line_failed_is_classified() {
    let r = swift_test_parser::parse_line("Test Case 'S.M' failed (1.250 seconds)");
    assert_eq!(r, Some(completed("M", "S", "failed", 1250)));
}

#[test]
fn package_line_passed_is_classified() {
    let r = swift_test_parser::parse_line(
        "Test Case 'CoreTests.testParsing' passed (0.003 seconds).",
    );
    assert_eq!(r, Some(completed("testParsing", "CoreTests", "passed", 3)));
}

#[test]
fn empty_line_gives_no_event() {
    assert_eq!(stdout_parser::parse_line(""), None);
    assert_eq!(swift_test_parser::parse_line(""), None);
}

#[test]
fn unrelated_lines_give_no_event() {
    for line in [
        "Compiling Swift Module 'App'",
        "Test Case 'S.M' started.",
        "Test Case '-[S M]' started.",
        "Test Case 'S.M' skipped (0.001 seconds)",
        "** TEST SUCCEEDED **",
    ] {
        assert_eq!(stdout_parser::parse_line(line), None, "{}", line);
        assert_eq!(swift_test_parser::parse_line(line), None, "{}", line);
    }
}

#[test]
fn build_line_is_not_a_package_line() {
    assert_eq!(swift_test_parser::parse_line("Test Case '-[S M]' passed (0.001 seconds)."), None);
}
