//! A counter-driven loop runner for agent sessions: the logic, without the I/O.

pub mod cli;
pub mod clock;
pub mod config;
pub mod config_laws;
pub mod control;
pub mod error;
pub mod exchange;
pub mod exchange_laws;
pub mod file_laws;
pub mod files;
pub mod flow;
pub mod flow_laws;
pub mod json;
pub mod laws;
pub mod loop_spec;
pub mod notify;
pub mod partial_laws;
pub mod partials;
pub mod plan_laws;
pub mod record_laws;
pub mod records;
pub mod render_laws;
pub mod rpc;
pub mod rpc_laws;
pub mod run_laws;
pub mod runner;
pub mod session;
pub mod smoke;
pub mod state;
pub mod status_laws;
pub mod step_laws;
pub mod template;
pub mod text;
pub mod text_laws;
pub mod view_laws;
