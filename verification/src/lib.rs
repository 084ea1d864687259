//! The logic of gitsitter, a daemon that keeps git branches in sync with their
//! upstreams.

pub mod cli;
pub mod cli_config;
pub mod cli_status;
pub mod cli_ui;
pub mod clock;
pub mod config;
pub mod cycle;
pub mod daemon;
pub mod executor;
pub mod forge;
pub mod git_ops;
pub mod hosts;
pub mod json;
pub mod lifecycle;
pub mod paths;
pub mod prompt;
pub mod queries;
pub mod requests;
pub mod resolve;
pub mod self_update;
pub mod service;
pub mod shell;
pub mod state;
pub mod sync;
pub mod table;
pub mod text;
pub mod timestamp;
pub mod transport;
pub mod watcher;
