pub mod stdout_parser;
pub mod swift_test_parser;
pub mod text;
pub mod xcresult;
