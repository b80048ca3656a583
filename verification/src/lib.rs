//! Healthcheck monitor synchronization and uptime streaming.
//!
//! The library mirrors internal healthcheck configurations into an external
//! uptime-monitoring service and maintains a bounded, time-windowed
//! in-memory history of heartbeat telemetry, republished to live
//! subscribers.  The decision logic is verified; transport and I/O live
//! outside the crate.

pub mod application;
pub mod client;
pub mod domain;
pub mod gateway;
pub mod heartbeat;
pub mod host;
pub mod infra;
pub mod json;
pub mod monitor;
pub mod network_share;
pub mod note;
pub mod pagination;
pub mod person;
pub mod policy;
pub mod protocol;
pub mod service;
pub mod stack;
pub mod store;
pub mod text;
pub mod timestamp;
