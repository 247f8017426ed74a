//! Telemetry: severity levels, metadata, identifiers, the kernel ring buffer and metrics.

pub mod level;
pub mod meta;
pub mod clock;
pub mod trace;
pub mod wire;
pub mod ring_buffer;
pub mod metrics;
pub mod config;
pub mod batch;
pub mod serial;
pub mod logger;
pub mod span;
pub mod store;
pub mod query;
pub mod drain;
