//! Hosts of an SSH client configuration.

pub mod config;
pub mod types;
pub mod validate;
