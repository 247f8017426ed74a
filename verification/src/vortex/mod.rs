//! Vortex: model registry, model metadata, tokenization and chat formatting for
//! LLM inference.

pub mod error;
pub mod inference;
pub mod loader;
pub mod model;
pub mod tokenizer;
