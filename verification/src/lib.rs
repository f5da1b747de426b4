//! Discovery, pairing and telemetry scheduling for home sensor devices.
//!
//! `common` holds the constants and wire models shared by both sides,
//! `sensor` the device side (request parsing, the pairing window, the route
//! dispatcher and the flash record) and `api` the orchestrator side (the
//! retry policy, the subnet scanner, the pairing handshake and the telemetry
//! scheduler).

pub mod text;
pub mod common;
pub mod sensor;
pub mod api;
