//! The orchestrator side: models, the retry policy, the subnet scanner,
//! the pairing handshake and the telemetry scheduler.

pub mod features;
pub mod db;
pub mod scanner;
pub mod retry;
pub mod schedule;
pub mod pairing;
pub mod models;
pub mod website;
pub mod json;
pub mod auth;
pub mod queries;
