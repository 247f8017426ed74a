//! Model loading support: configuration arithmetic, device selection, weight
//! formats, quantization names and model presets.

pub mod config;
pub mod device;
pub mod files;
pub mod hub;

pub mod types;
