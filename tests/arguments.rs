use xcode_test_runner::commands::simulators::runtime_label;
use xcode_test_runner::execution::runner::resolve_command;
use xcode_test_runner::execution::xcodebuild::{self, find_container, looks_like_udid, ProjectContainer};
use xcode_test_runner::execution::swift_test;

fn strings(v: &[&str]) -> Vec<String> {
    v.iter().map(|s| s.to_string()).collect()
}

#[test]
fn device_identifier_destination_is_wrapped() {
    let r = xcodebuild::build_args(
        &None,
        "App",
        "/tmp/run",
        false,
        None,
        None,
        Some("E3F1C2A4-1234-4567-89AB-CDEF01234567"),
    );
    assert_eq!(
        r.args,
        strings(&[
            "test",
            "-scheme",
            "App",
            "-resultBundlePath",
            "/tmp/run/App.xcresult",
            "-destination",
            "id=E3F1C2A4-1234-4567-89AB-CDEF01234567",
        ])
    );
    assert_eq!(r.result_bundle_path, "/tmp/run/App.xcresult");
}

#[test]
fn free_form_destination_is_passed_through() {
    let r = xcodebuild::build_args(
        &None,
        "App",
        "/tmp/run/",
        false,
        None,
        None,
        Some("platform=iOS Simulator,name=iPhone 15"),
    );
    assert_eq!(r.args[5], "-destination");
    assert_eq!(r.args[6], "platform=iOS Simulator,name=iPhone 15");
    assert_eq!(r.result_bundle_path, "/tmp/run/App.xcresult");
}

#[test]
fn empty_destination_is_omitted() {
    let r = xcodebuild::build_args(&None, "App", "/tmp/run", true, None, None, Some(""));
    assert_eq!(
        r.args,
        strings(&["test", "-scheme", "App", "-resultBundlePath", "/tmp/run/App.xcresult"])
    );
}

#[test]
fn udid_detection() {
    assert!(looks_like_udid("E3F1C2A4-1234-4567-89AB-CDEF01234567"));
    assert!(looks_like_udid("e3f1c2a4-1234-4567-89ab-cdef01234567"));
    assert!(!looks_like_udid("E3F1C2A4-1234-4567-89AB-CDEF0123456"));
    assert!(!looks_like_udid("E3F1C2A4-1234-4567-89AB-CDEF0123456G"));
    assert!(!looks_like_udid("E3F1C2A4-1234-4567-89AB-CDEF-1234567"));
    assert!(!looks_like_udid("E3F1C2A41234456789ABCDEF0123456789AB"));
}

#[test]
fn all_selectors_in_order() {
    let container = Some(ProjectContainer::Workspace("/p/App.xcworkspace".to_string()));
    let r = xcodebuild::build_args(
        &container,
        "App",
        "/tmp/r",
        false,
        Some("AppTests/LoginTests"),
        Some("Smoke"),
        Some("platform=macOS"),
    );
    assert_eq!(
        r.args,
        strings(&[
            "test",
            "-scheme",
            "App",
            "-resultBundlePath",
            "/tmp/r/App.xcresult",
            "-workspace",
            "/p/App.xcworkspace",
            "-testPlan",
            "Smoke",
            "-only-testing:AppTests/LoginTests",
            "-destination",
            "platform=macOS",
        ])
    );
}

#[test]
fn workspace_takes_precedence_over_project() {
    let entries = strings(&["/p/README.md", "/p/App.xcodeproj", "/p/App.xcworkspace", "/p/B.xcworkspace"]);
    match find_container(&entries) {
        Some(ProjectContainer::Workspace(p)) => assert_eq!(p, "/p/App.xcworkspace"),
        other => panic!("unexpected {:?}", other),
    }
    let entries = strings(&["/p/.xcodeproj", "/p/App.xcodeproj"]);
    match find_container(&entries) {
        Some(ProjectContainer::Project(p)) => assert_eq!(p, "/p/App.xcodeproj"),
        other => panic!("unexpected {:?}", other),
    }
    assert!(find_container(&strings(&["/p/Package.swift"])).is_none());
}

#[test]
fn package_args_with_and_without_filter() {
    assert_eq!(swift_test::build_args("/p/Core", None), strings(&["test", "--package-path", "/p/Core"]));
    assert_eq!(
        swift_test::build_args("/p/Core", Some("CoreTests")),
        strings(&["test", "--package-path", "/p/Core", "--filter", "CoreTests"])
    );
}

#[test]
fn build_tools_run_under_a_terminal() {
    let (p, a) = resolve_command("xcodebuild", &strings(&["test", "-scheme", "App"]));
    assert_eq!(p, "script");
    assert_eq!(a, strings(&["-q", "/dev/null", "--", "xcodebuild", "test", "-scheme", "App"]));
    let (p, a) = resolve_command("swift", &strings(&["test"]));
    assert_eq!(p, "script");
    assert_eq!(a, strings(&["-q", "/dev/null", "--", "swift", "test"]));
    let (p, a) = resolve_command("xcrun", &strings(&["simctl"]));
    assert_eq!(p, "xcrun");
    assert_eq!(a, strings(&["simctl"]));
}

#[test]
fn runtime_labels() {
    assert_eq!(runtime_label("com.apple.CoreSimulator.SimRuntime.iOS-17-0"), "iOS.17.0");
    assert_eq!(runtime_label("watchOS-10"), "watchOS-10");
    assert_eq!(runtime_label("com.apple.CoreSimulator.SimRuntime."), "");
}
