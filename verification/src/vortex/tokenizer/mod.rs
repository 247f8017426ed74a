//! Tokenization support: special tokens, chat messages, chat templates and the
//! per-model tokenizer service.

pub mod service;
pub mod template;
pub mod types;

pub use service::{LoadedTokenizer, TokenizerConfig, TokenizerService};
pub use types::{ChatMessage, ChatRole, SpecialTokens};
