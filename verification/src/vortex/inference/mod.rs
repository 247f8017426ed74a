//! Inference: token accounting, completion reasons and the engine's bookkeeping.

pub mod runtime;

pub use runtime::Vortex;

use vstd::prelude::*;

verus! {

/// Token usage statistics.
#[derive(Debug, Clone, Copy)]
pub struct TokenUsage {
    /// Number of prompt tokens.
    pub prompt_tokens: usize,
    /// Number of generated tokens.
    pub completion_tokens: usize,
}

impl TokenUsage {
    /// Total tokens used: prompt plus completion.
    pub fn total(&self) -> (n: usize)
        requires
            self.prompt_tokens + self.completion_tokens <= usize::MAX,
        ensures
            n == self.prompt_tokens + self.completion_tokens,
    {
        self.prompt_tokens + self.completion_tokens
    }
}

impl Default for TokenUsage {
    /// No tokens used.
    fn default() -> (u: TokenUsage)
        ensures
            u.prompt_tokens == 0,
            u.completion_tokens == 0,
    {
        TokenUsage { prompt_tokens: 0, completion_tokens: 0 }
    }
}

/// Reason for generation completion.
#[derive(Debug, Clone, Copy, PartialEq, Eq, Structural)]
pub enum FinishReason {
    /// Hit max tokens limit.
    Length,
    /// Hit a stop sequence.
    Stop,
    /// End of sequence token.
    EndOfSequence,
}

} // verus!
