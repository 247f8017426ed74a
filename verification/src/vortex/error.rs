//! Errors of the inference engine.

use vstd::prelude::*;

verus! {

/// Vortex-specific errors.
#[derive(Debug)]
pub enum VortexError {
    /// Model file not found.
    ModelNotFound {
        /// Path to the model.
        path: String,
    },
    /// Failed to load model.
    LoadFailed(String),
    /// Invalid model architecture.
    UnsupportedArchitecture(String),
    /// Invalid model handle.
    InvalidHandle(u64),
    /// Model not loaded.
    ModelNotLoaded(u64),
    /// Inference failed.
    InferenceFailed(String),
    /// Tokenization error.
    TokenizationError(String),
    /// Device error.
    DeviceError(String),
    /// Configuration error.
    ConfigError(String),
    /// Lock poisoning error.
    LockPoisoned {
        /// What operation was being performed.
        context: &'static str,
    },
}

} // verus!
