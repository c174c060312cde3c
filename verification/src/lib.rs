//! Decisions of a tool that builds, flashes and attaches to an embedded target.
pub mod arguments;
pub mod artifact;
pub mod config;
pub mod families;
pub mod log_name;
pub mod probe;
pub mod progress;
pub mod report;
pub mod run;
pub mod run_laws;
pub mod step;
pub mod text;
