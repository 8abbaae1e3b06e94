//! Layered configuration for a command-line client of a cloud control plane,
//! and the decisions of its commands.

pub mod cmd;
pub mod cmd_instance;
pub mod cmd_route;
pub mod config;
pub mod config_alias;
pub mod config_from_env;
pub mod config_from_file;
pub mod config_map;
pub mod error;
pub mod laws;
pub mod model;
pub mod text;
pub mod toml;
