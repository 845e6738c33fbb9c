//! Verified core of the Flamingo metrics agent: command-line parsing,
//! configuration layout, the child launcher's retry and reaping state
//! machine, metrics formatting and the service control decisions.

pub mod text;
pub mod paths;
pub mod error;
pub mod config;
pub mod cli;
pub mod metrics;
pub mod launcher;
pub mod service;
pub mod agent;
