//! Tamper-evident event envelopes for a host telemetry agent.
//!
//! The crate builds one canonical envelope per run, seals it with a SHA-256
//! digest of its own canonical JSON text, and decides how a delivery attempt
//! ended. Reading the process environment and talking to the network are left
//! to the caller.

pub mod builder;
pub mod canonical;
pub mod config;
pub mod envelope;
pub mod error;
pub mod identity;
pub mod integrity;
pub mod json;
pub mod text;
pub mod timestamp;
pub mod transmit;
