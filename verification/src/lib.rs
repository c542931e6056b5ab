//! The logic of a command-line client for a local task daemon.

use vstd::prelude::*;

pub mod accept;
pub mod agent;
pub mod calendar;
pub mod client;
pub mod codex;
pub mod command;
pub mod config;
pub mod daemon;
pub mod decompose;
pub mod decompose_flow;
pub mod decompose_laws;
pub mod dispatch;
pub mod doctor;
pub mod doctor_checks;
pub mod doctor_report;
pub mod doctor_laws;
pub mod doctor_local;
pub mod doctor_data;
pub mod doctor_run;
pub mod doctor_tiers;
pub mod doctor_hooks;
pub mod doctor_plugin;
pub mod doctor_locale;
pub mod drift_warning;
pub mod error;
pub mod export;
pub mod export_laws;
pub mod flow_laws;
pub mod init;
pub mod json;
pub mod json_text;
pub mod masking;
pub mod mcp;
pub mod mcp_context;
pub mod mcp_laws;
pub mod migrate;
pub mod output;
pub mod paths;
pub mod print_laws;
pub mod query;
pub mod reply;
pub mod request;
pub mod request_laws;
pub mod runtime;
pub mod scan;
pub mod task_request;
pub mod text;
pub mod tree;
pub mod tree_laws;
pub mod verify;
pub mod yaml_laws;

verus! {

} // verus!
