pub mod project;
pub mod run;
pub mod settings;
