//! What discovery reports about a project.
use vstd::prelude::*;

verus! {

#[derive(Debug, Clone)]
pub struct ProjectInfo {
    pub path: String,
    pub schemes: Vec<Scheme>,
    pub swift_packages: Vec<SwiftPackage>,
    pub test_plans: Vec<TestPlan>,
}

/// A build scheme and the names of the test targets its testables list.
#[derive(Debug, Clone)]
pub struct Scheme {
    pub name: String,
    pub test_targets: Vec<String>,
}

#[derive(Debug, Clone)]
pub struct TestPlan {
    pub name: String,
    pub path: String,
}

#[derive(Debug, Clone)]
pub struct SwiftPackage {
    pub name: String,
    pub path: String,
    pub test_targets: Vec<String>,
}

/// Progress reported during project discovery.
#[derive(Debug, Clone)]
pub struct ScanProgressEvent {
    pub phase: String,
    pub message: String,
}

} // verus!
