use xcode_test_runner::json::Json;
use xcode_test_runner::models::run::{TestCase, TestStatus};
use xcode_test_runner::parsing::xcresult::{extract_test_cases, parse_duration, parse_xcresult_json};

fn obj(members: Vec<(&str, Json)>) -> Json {
    Json::Object(members.into_iter().map(|(k, v)| (k.to_string(), v)).collect())
}

fn val(s: &str) -> Json {
    obj(vec![("_value", Json::Str(s.to_string()))])
}

fn vals(items: Vec<Json>) -> Json {
    obj(vec![("_values", Json::Array(items))])
}

fn leaf(name: &str, status: &str, duration: &str, failure: Option<&str>) -> Json {
    let mut m = vec![("name", val(name)), ("testStatus", val(status)), ("duration", val(duration))];
    if let Some(f) = failure {
        m.push(("failureSummaries", vals(vec![obj(vec![("message", val(f))])])));
    }
    obj(m)
}

fn group(name: &str, subtests: Vec<Json>) -> Json {
    obj(vec![("name", val(name)), ("subtests", vals(subtests))])
}

fn document(testables: Vec<Json>) -> Json {
    obj(vec![(
        "testPlanRunSummaries",
        vals(vec![obj(vec![("testableSummaries", vals(testables))])]),
    )])
}

fn testable(target: &str, tests: Vec<Json>) -> Json {
    obj(vec![("targetName", val(target)), ("tests", vals(tests))])
}

#[test]
fn two_nested_suites_give_two_cases_in_order() {
    let doc = document(vec![
        testable("AppTests", vec![group("All", vec![group("LoginTests", vec![leaf("testOk()", "Success", "0.25", None)])])]),
        testable(
            "CoreTests",
            vec![group("ParserTests", vec![leaf("testBad()", "Failure", "1.5", Some("XCTAssertEqual failed"))])],
        ),
    ]);
    let cases = parse_xcresult_json(&doc);
    assert_eq!(cases.len(), 2);
    assert_eq!(cases[0].suite_name, "AppTests");
    assert_eq!(cases[0].test_name, "testOk()");
    assert_eq!(cases[0].status, TestStatus::Passed);
    assert_eq!(cases[0].duration_ms, Some(250));
    assert_eq!(cases[0].failure_message, None);
    assert_eq!(cases[1].suite_name, "CoreTests");
    assert_eq!(cases[1].test_name, "testBad()");
    assert_eq!(cases[1].status, TestStatus::Failed);
    assert_eq!(cases[1].duration_ms, Some(1500));
    assert_eq!(cases[1].failure_message.as_deref(), Some("XCTAssertEqual failed"));
    assert_eq!(cases[1].run_id, "");
}

#[test]
fn unknown_status_is_skipped_and_missing_target_is_unknown() {
    let doc = document(vec![obj(vec![("tests", vals(vec![leaf("t", "Expected Failure", "x", None)]))])]);
    let cases = parse_xcresult_json(&doc);
    assert_eq!(cases.len(), 1);
    assert_eq!(cases[0].suite_name, "Unknown");
    assert_eq!(cases[0].status, TestStatus::Skipped);
    assert_eq!(cases[0].duration_ms, None);
}

#[test]
fn passed_case_keeps_no_failure_message() {
    let doc = document(vec![testable("T", vec![leaf("t", "Success", "0", Some("stale"))])]);
    let cases = parse_xcresult_json(&doc);
    assert_eq!(cases[0].failure_message, None);
}

#[test]
fn malformed_branches_are_skipped() {
    let doc = obj(vec![(
        "testPlanRunSummaries",
        vals(vec![
            Json::Null,
            obj(vec![("testableSummaries", Json::Array(vec![]))]),
            obj(vec![(
                "testableSummaries",
                vals(vec![testable(
                    "T",
                    vec![
                        obj(vec![("name", Json::Number("3".to_string()))]),
                        obj(vec![("name", val("g")), ("subtests", Json::Bool(true))]),
                        leaf("kept", "Success", "0.001", None),
                    ],
                )]),
            )]),
        ]),
    )]);
    let cases = parse_xcresult_json(&doc);
    assert_eq!(cases.len(), 1);
    assert_eq!(cases[0].test_name, "kept");
    assert_eq!(cases[0].duration_ms, Some(1));
}

#[test]
fn document_without_summaries_gives_nothing() {
    assert!(parse_xcresult_json(&Json::Null).is_empty());
    assert!(parse_xcresult_json(&obj(vec![])).is_empty());
}

#[test]
fn extraction_appends_with_run_id() {
    let mut cases: Vec<TestCase> = Vec::new();
    let doc = document(vec![testable("T", vec![leaf("a", "Success", "1", None), leaf("b", "Failure", "2", None)])]);
    extract_test_cases(&doc, &mut cases, "run-1");
    extract_test_cases(&doc, &mut cases, "run-2");
    assert_eq!(cases.len(), 4);
    assert_eq!(cases[0].run_id, "run-1");
    assert_eq!(cases[3].run_id, "run-2");
    assert_eq!(cases[3].test_name, "b");
    assert_eq!(cases[3].failure_message, None);
}

#[test]
fn durations() {
    assert_eq!(parse_duration("0.001"), Some(1));
    assert_eq!(parse_duration("12"), Some(12000));
    assert_eq!(parse_duration(".5"), Some(500));
    assert_eq!(parse_duration("2."), Some(2000));
    assert_eq!(parse_duration("0.0004"), Some(0));
    assert_eq!(parse_duration(""), None);
    assert_eq!(parse_duration("."), None);
    assert_eq!(parse_duration("1e3"), None);
    assert_eq!(parse_duration("-1"), None);
}
