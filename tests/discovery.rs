use xcode_test_runner::commands::simulators::collect_simulators;
use xcode_test_runner::discovery::swift_package::parse_package_description;
use xcode_test_runner::discovery::test_plan::test_plan_at;
use xcode_test_runner::json::Json;

fn obj(members: Vec<(&str, Json)>) -> Json {
    Json::Object(members.into_iter().map(|(k, v)| (k.to_string(), v)).collect())
}

fn s(v: &str) -> Json {
    Json::Str(v.to_string())
}

fn device(udid: &str, name: &str, available: bool) -> Json {
    obj(vec![("udid", s(udid)), ("name", s(name)), ("isAvailable", Json::Bool(available))])
}

#[test]
fn simulators_are_filtered_and_sorted() {
    let root = obj(vec![(
        "devices",
        obj(vec![
            (
                "com.apple.CoreSimulator.SimRuntime.iOS-17-0",
                Json::Array(vec![
                    device("U1", "iPhone 15", true),
                    device("U2", "iPad Air", true),
                    device("U3", "iPhone 14", false),
                    device("", "Nameless", true),
                    s("not a device"),
                ]),
            ),
            ("com.apple.CoreSimulator.SimRuntime.iOS-16-4", Json::Array(vec![device("U4", "iPhone 14", true)])),
            ("com.apple.CoreSimulator.SimRuntime.watchOS-10-0", Json::Null),
        ]),
    )]);
    let devices = collect_simulators(&root).unwrap();
    let summary: Vec<(&str, &str, &str)> =
        devices.iter().map(|d| (d.runtime.as_str(), d.name.as_str(), d.udid.as_str())).collect();
    assert_eq!(
        summary,
        vec![("iOS.16.4", "iPhone 14", "U4"), ("iOS.17.0", "iPad Air", "U2"), ("iOS.17.0", "iPhone 15", "U1")]
    );
}

#[test]
fn equal_devices_keep_listing_order() {
    let root = obj(vec![(
        "devices",
        obj(vec![("r", Json::Array(vec![device("B", "Same", true), device("A", "Same", true)]))]),
    )]);
    let devices = collect_simulators(&root).unwrap();
    assert_eq!(devices[0].udid, "B");
    assert_eq!(devices[1].udid, "A");
}

#[test]
fn listing_without_devices_is_an_error() {
    assert_eq!(
        collect_simulators(&obj(vec![])).unwrap_err(),
        "Missing 'devices' in simctl output"
    );
    assert!(collect_simulators(&obj(vec![("devices", Json::Array(vec![]))])).is_err());
}

#[test]
fn package_description_lists_test_targets() {
    let doc = obj(vec![
        ("name", s("Core")),
        (
            "targets",
            Json::Array(vec![
                obj(vec![("name", s("Core")), ("type", s("library"))]),
                obj(vec![("name", s("CoreTests")), ("type", s("test"))]),
                obj(vec![("type", s("test"))]),
                obj(vec![("name", s("MoreTests")), ("type", s("test"))]),
            ]),
        ),
    ]);
    let p = parse_package_description(&doc, "/p/Core");
    assert_eq!(p.name, "Core");
    assert_eq!(p.path, "/p/Core");
    assert_eq!(p.test_targets, vec!["CoreTests".to_string(), "MoreTests".to_string()]);
}

#[test]
fn package_description_without_name() {
    let p = parse_package_description(&obj(vec![("targets", s("x"))]), "/p");
    assert_eq!(p.name, "Unknown");
    assert!(p.test_targets.is_empty());
}

#[test]
fn test_plan_files() {
    let t = test_plan_at("/p/Plans/Smoke.xctestplan").unwrap();
    assert_eq!(t.name, "Smoke");
    assert_eq!(t.path, "/p/Plans/Smoke.xctestplan");
    assert_eq!(test_plan_at("Full.Suite.xctestplan").unwrap().name, "Full.Suite");
    assert!(test_plan_at("/p/.xctestplan").is_none());
    assert!(test_plan_at("/p/Smoke.xctestplan.bak").is_none());
    assert!(test_plan_at("/p/Package.swift").is_none());
}
