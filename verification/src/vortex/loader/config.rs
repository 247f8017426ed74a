//! Model configuration (the integer part of a `config.json`) and parameter estimates.

use vstd::prelude::*;
use crate::vortex::model::Architecture;

verus! {

/// Parsed model configuration.
///
/// Holds the fields the library computes with; the floating-point normalisation
/// and rotary-embedding parameters stay with the caller.
#[derive(Debug)]
pub struct ModelConfig {
    /// Model architecture type.
    pub architecture: Architecture,
    /// Number of hidden layers.
    pub num_layers: usize,
    /// Hidden size (embedding dimension).
    pub hidden_size: usize,
    /// Intermediate size (FFN dimension).
    pub intermediate_size: Option<usize>,
    /// Number of attention heads.
    pub num_heads: usize,
    /// Number of key-value heads (for GQA).
    pub num_kv_heads: Option<usize>,
    /// Vocabulary size.
    pub vocab_size: usize,
    /// Maximum sequence length.
    pub max_seq_len: usize,
    /// Beginning of sequence token ID.
    pub bos_token_id: Option<u32>,
    /// End of sequence token ID.
    pub eos_token_id: Option<u32>,
    /// Model type string from config.
    pub model_type: Option<String>,
    /// Architectures list from config.
    pub architectures: Vec<String>,
}

/// The parameter estimate of a decoder-only transformer: embedding `vocab * hidden`,
/// per layer `4 * hidden^2` (attention) `+ 3 * hidden * intermediate` (FFN)
/// `+ 2 * hidden` (norms), and an output projection `hidden * vocab`.
pub open spec fn param_formula(hidden: int, layers: int, vocab: int, intermediate: int) -> int {
    vocab * hidden + layers * (4 * hidden * hidden + 3 * hidden * intermediate + 2 * hidden) + hidden * vocab
}

/// How the parameter estimate is built: with no layers it counts the input and the
/// output embeddings, `vocab * hidden` each; every further layer adds the same
/// count, four `hidden * hidden` attention matrices, three `hidden * intermediate`
/// feed-forward matrices and two `hidden`-sized norms.
pub proof fn law_param_count_per_layer(hidden: int, layers: int, vocab: int, intermediate: int)
    ensures
        param_formula(hidden, 0, vocab, intermediate) == 2 * (vocab * hidden),
        param_formula(hidden, layers + 1, vocab, intermediate) == param_formula(hidden, layers, vocab, intermediate)
            + 4 * (hidden * hidden) + 3 * (hidden * intermediate) + 2 * hidden,
{
    let per = 4 * hidden * hidden + 3 * hidden * intermediate + 2 * hidden;
    assert((layers + 1) * per == layers * per + per) by (nonlinear_arith);
    assert(0 * per == 0) by (nonlinear_arith);
    assert(hidden * vocab == vocab * hidden) by (nonlinear_arith);
    assert(4 * hidden * hidden == 4 * (hidden * hidden)) by (nonlinear_arith);
    assert(3 * hidden * intermediate == 3 * (hidden * intermediate)) by (nonlinear_arith);
}

/// Every intermediate value of the estimate, computed step by step as the checked
/// computation does, fits in `u64`.
pub open spec fn param_steps_fit(hidden: int, layers: int, vocab: int, intermediate: int) -> bool {
    let max = u64::MAX as int;
    let per_layer = 4 * hidden * hidden + 3 * hidden * intermediate + 2 * hidden;
    &&& vocab * hidden <= max
    &&& 4 * hidden <= max
    &&& 4 * hidden * hidden <= max
    &&& 3 * hidden <= max
    &&& 3 * hidden * intermediate <= max
    &&& 2 * hidden <= max
    &&& 4 * hidden * hidden + 3 * hidden * intermediate <= max
    &&& per_layer <= max
    &&& layers * per_layer <= max
    &&& hidden * vocab <= max
    &&& vocab * hidden + layers * per_layer <= max
    &&& param_formula(hidden, layers, vocab, intermediate) <= max
}

/// The checked parameter estimate: the formula's value, or `u64::MAX` if any step
/// of it overflows.
pub open spec fn checked_param_estimate(hidden: int, layers: int, vocab: int, intermediate: int) -> u64 {
    if param_steps_fit(hidden, layers, vocab, intermediate) {
        param_formula(hidden, layers, vocab, intermediate) as u64
    } else {
        u64::MAX
    }
}

/// The intermediate size a config implies: the given one, or four times the hidden
/// size (saturating).
pub open spec fn effective_intermediate(c: ModelConfig) -> int {
    match c.intermediate_size {
        Some(i) => i as int,
        None => if 4 * c.hidden_size <= u64::MAX { 4 * c.hidden_size } else { u64::MAX as int },
    }
}

/// The parameter estimate of the given dimensions, or `None` if a step overflows `u64`.
pub fn checked_estimate(hidden: u64, layers: u64, vocab: u64, intermediate: u64) -> (r: Option<u64>)
    ensures
        match r {
            Some(v) => param_steps_fit(hidden as int, layers as int, vocab as int, intermediate as int)
                && v == param_formula(hidden as int, layers as int, vocab as int, intermediate as int),
            None => !param_steps_fit(hidden as int, layers as int, vocab as int, intermediate as int),
        },
{
    let embedding = vocab.checked_mul(hidden)?;
    let attention = 4u64.checked_mul(hidden)?.checked_mul(hidden)?;
    let ffn = 3u64.checked_mul(hidden)?.checked_mul(intermediate)?;
    let norms = 2u64.checked_mul(hidden)?;
    let per_layer = attention.checked_add(ffn)?.checked_add(norms)?;
    let output = hidden.checked_mul(vocab)?;
    let total = embedding.checked_add(layers.checked_mul(per_layer)?)?.checked_add(output)?;
    proof {
        assert(4 * hidden * hidden == (4 * hidden) * hidden) by (nonlinear_arith);
        assert(3 * hidden * intermediate == (3 * hidden) * intermediate) by (nonlinear_arith);
    }
    Some(total)
}

impl ModelConfig {
    /// Estimate the number of parameters, with checked arithmetic: `u64::MAX` if
    /// any step of the computation would overflow.
    pub fn estimate_parameters(&self) -> (r: u64)
        ensures
            r == checked_param_estimate(
                self.hidden_size as int,
                self.num_layers as int,
                self.vocab_size as int,
                effective_intermediate(*self),
            ),
    {
        let hidden = self.hidden_size as u64;
        let layers = self.num_layers as u64;
        let vocab = self.vocab_size as u64;
        let intermediate = match self.intermediate_size {
            Some(i) => i as u64,
            None => match hidden.checked_mul(4) {
                Some(v) => v,
                None => u64::MAX,
            },
        };
        match checked_estimate(hidden, layers, vocab, intermediate) {
            Some(v) => v,
            None => u64::MAX,
        }
    }

    /// Effective number of KV heads: the given number, or the number of attention heads.
    pub fn effective_kv_heads(&self) -> (r: usize)
        ensures
            r == match self.num_kv_heads { Some(k) => k, None => self.num_heads },
    {
        match self.num_kv_heads {
            Some(k) => k,
            None => self.num_heads,
        }
    }
}

/// The dimensions of a Llama runtime configuration that the parameter estimate reads.
#[derive(Debug, Clone, Copy)]
pub struct LlamaDimensions {
    /// Hidden size.
    pub hidden_size: usize,
    /// FFN intermediate size.
    pub intermediate_size: usize,
    /// Vocabulary size.
    pub vocab_size: usize,
    /// Number of hidden layers.
    pub num_hidden_layers: usize,
}

/// Estimate the parameter count from a Llama runtime configuration (same formula
/// as [`ModelConfig::estimate_parameters`], for a configuration whose estimate fits).
pub fn estimate_params_from_runtime_config(config: &LlamaDimensions) -> (r: u64)
    requires
        param_steps_fit(
            config.hidden_size as int,
            config.num_hidden_layers as int,
            config.vocab_size as int,
            config.intermediate_size as int,
        ),
    ensures
        r == param_formula(
            config.hidden_size as int,
            config.num_hidden_layers as int,
            config.vocab_size as int,
            config.intermediate_size as int,
        ),
{
    let hidden = config.hidden_size as u64;
    let layers = config.num_hidden_layers as u64;
    let vocab = config.vocab_size as u64;
    let intermediate = config.intermediate_size as u64;
    match checked_estimate(hidden, layers, vocab, intermediate) {
        Some(v) => v,
        None => 0,
    }
}

} // verus!
