//! Single-instance control plane: the decisions behind the lock file, the
//! shutdown command channel and the project lock.

pub mod appmode;
pub mod args;
pub mod bootstrap;
pub mod client;
pub mod command;
pub mod config;
pub mod filelock;
pub mod json;
pub mod monitor;
pub mod project;
pub mod publisher;
pub mod service;
pub mod signal;
pub mod text;
pub mod trace;
