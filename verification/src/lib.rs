//! Verified core of a terminal dashboard that polls a job-processing
//! server: the status data model and its JSON extraction, the connection
//! profiles, the fetch engine's state machine, and the input handling.

pub mod app;
pub mod config;
pub mod duration;
pub mod fetch;
pub mod json;
pub mod models;
pub mod update;
