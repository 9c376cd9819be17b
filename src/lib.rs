pub mod commands;
pub mod discovery;
pub mod execution;
pub mod json;
pub mod models;
pub mod parsing;
pub mod state;
