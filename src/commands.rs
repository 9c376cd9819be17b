pub mod execution;
pub mod simulators;
