pub mod swift_package;
pub mod test_plan;
