//! Fleet telemetry core for managed mining devices.
//!
//! - `telemetry`: payloads resolved by shape into mode changes and status reports, and
//!   device identifiers taken from topics.
//! - `coin`: the legacy coin-label table and coin-field normalization.
//! - `cache`: the device status cache (live records, provisioning-key index, account
//!   directories) over an explicit clock, with its model and laws.
//! - `drain`: the drain gate that shutdown waits on.
//! - `provision`, `error`, `service` and the data types around them.

use vstd::prelude::*;

pub mod auth;
pub mod cache;
pub mod coin;
pub mod config;
pub mod drain;
pub mod error;
pub mod keyed;
pub mod provision;
pub mod request;
pub mod schema;
pub mod service;
pub mod telemetry;
pub mod text;
pub mod types;

verus! {

} // verus!
