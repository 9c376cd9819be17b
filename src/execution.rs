pub mod runner;
pub mod swift_test;
pub mod xcodebuild;
