//! Health tracking for the backend nodes of a reverse proxy.

pub mod config;
pub mod target;
pub mod probe;
pub mod sweep;
pub mod checker;
pub mod history;
