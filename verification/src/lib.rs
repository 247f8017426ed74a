//! Tardis: verified telemetry primitives and LLM inference support logic.

pub mod assoc;
pub mod telemetry;
pub mod text;
pub mod vortex;
