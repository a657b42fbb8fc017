//! Revisions: the log that keeps them and the service that writes them.

pub mod log;
pub mod service;
pub mod structs;
pub mod tasks;
