//! Known model presets of the HuggingFace Hub, and the rules of a model download.

use vstd::prelude::*;
use crate::text::{concat_str, str_eq};
use crate::vortex::error::VortexError;

verus! {

/// Known model presets for easy loading.
#[derive(Debug, Clone, Copy, PartialEq, Eq, Structural)]
pub enum ModelPreset {
    /// TinyLlama 1.1B - small, fast, good for testing.
    TinyLlama,
    /// SmolLM 135M - very small, fastest, minimal quality.
    SmolLm135M,
    /// SmolLM 360M - small, fast, decent quality.
    SmolLm360M,
    /// Phi-2 2.7B - good quality, moderate size.
    Phi2,
    /// Llama 3.2 1B - good quality, small size.
    Llama3_2_1B,
}

/// The HuggingFace repository of a preset.
pub open spec fn preset_repo(p: ModelPreset) -> Seq<char> {
    match p {
        ModelPreset::TinyLlama => "TinyLlama/TinyLlama-1.1B-Chat-v1.0"@,
        ModelPreset::SmolLm135M => "HuggingFaceTB/SmolLM-135M"@,
        ModelPreset::SmolLm360M => "HuggingFaceTB/SmolLM-360M"@,
        ModelPreset::Phi2 => "microsoft/phi-2"@,
        ModelPreset::Llama3_2_1B => "meta-llama/Llama-3.2-1B"@,
    }
}

/// The human-readable name of a preset.
pub open spec fn preset_display_name(p: ModelPreset) -> Seq<char> {
    match p {
        ModelPreset::TinyLlama => "TinyLlama 1.1B Chat"@,
        ModelPreset::SmolLm135M => "SmolLM 135M"@,
        ModelPreset::SmolLm360M => "SmolLM 360M"@,
        ModelPreset::Phi2 => "Phi-2 2.7B"@,
        ModelPreset::Llama3_2_1B => "Llama 3.2 1B"@,
    }
}

/// The estimated download size of a preset, in bytes.
pub open spec fn preset_size(p: ModelPreset) -> u64 {
    match p {
        ModelPreset::TinyLlama => 2_200_000_000,
        ModelPreset::SmolLm135M => 270_000_000,
        ModelPreset::SmolLm360M => 720_000_000,
        ModelPreset::Phi2 => 5_600_000_000,
        ModelPreset::Llama3_2_1B => 2_500_000_000,
    }
}

impl ModelPreset {
    /// Get the HuggingFace model ID for this preset.
    pub fn repo_id(&self) -> (s: &'static str)
        ensures
            s@ == preset_repo(*self),
    {
        match self {
            ModelPreset::TinyLlama => "TinyLlama/TinyLlama-1.1B-Chat-v1.0",
            ModelPreset::SmolLm135M => "HuggingFaceTB/SmolLM-135M",
            ModelPreset::SmolLm360M => "HuggingFaceTB/SmolLM-360M",
            ModelPreset::Phi2 => "microsoft/phi-2",
            ModelPreset::Llama3_2_1B => "meta-llama/Llama-3.2-1B",
        }
    }

    /// Get the default model preset for testing.
    pub fn default_test_model() -> (p: ModelPreset)
        ensures
            p == ModelPreset::TinyLlama,
    {
        ModelPreset::TinyLlama
    }

    /// Estimate model size in bytes.
    pub fn estimated_size_bytes(&self) -> (n: u64)
        ensures
            n == preset_size(*self),
    {
        match self {
            ModelPreset::TinyLlama => 2_200_000_000,
            ModelPreset::SmolLm135M => 270_000_000,
            ModelPreset::SmolLm360M => 720_000_000,
            ModelPreset::Phi2 => 5_600_000_000,
            ModelPreset::Llama3_2_1B => 2_500_000_000,
        }
    }

    /// Get the human-readable name.
    pub fn display_name(&self) -> (s: &'static str)
        ensures
            s@ == preset_display_name(*self),
    {
        match self {
            ModelPreset::TinyLlama => "TinyLlama 1.1B Chat",
            ModelPreset::SmolLm135M => "SmolLM 135M",
            ModelPreset::SmolLm360M => "SmolLM 360M",
            ModelPreset::Phi2 => "Phi-2 2.7B",
            ModelPreset::Llama3_2_1B => "Llama 3.2 1B",
        }
    }
}


/// The files a model download fetches before its weights, in order.
pub open spec fn model_files() -> Seq<Seq<char>> {
    seq!["config.json"@, "tokenizer.json"@, "tokenizer_config.json"@]
}

/// The files a model download fetches before its weights, in order.
pub fn model_file_names() -> (names: Vec<&'static str>)
    ensures
        names@.len() == model_files().len(),
        forall|i: int| 0 <= i < names@.len() ==> (#[trigger] names@[i])@ == model_files()[i],
{
    let mut names: Vec<&'static str> = Vec::new();
    names.push("config.json");
    names.push("tokenizer.json");
    names.push("tokenizer_config.json");
    names
}

/// What a failed download of one of the model files means: nothing for the
/// optional `tokenizer_config.json`, else a load error naming the file and the
/// failure.
pub fn model_file_failure(file: &str, failure: &str) -> (r: Option<VortexError>)
    ensures
        file@ == "tokenizer_config.json"@ ==> r is None,
        file@ != "tokenizer_config.json"@ ==> (r matches Some(VortexError::LoadFailed(m))
            && m@ == "Failed to download "@ + file@ + ": "@ + failure@),
{
    if str_eq(file, "tokenizer_config.json") {
        None
    } else {
        let head = concat_str("Failed to download ", file);
        let with_sep = concat_str(head.as_str(), ": ");
        Some(VortexError::LoadFailed(concat_str(with_sep.as_str(), failure)))
    }
}

/// The error of a repository without SafeTensors weights: a repository that has
/// PyTorch weights is told apart.
pub fn missing_weights_error(has_pytorch_weights: bool) -> (e: VortexError)
    ensures
        e matches VortexError::LoadFailed(m) && m@ == (if has_pytorch_weights {
            "Model only has PyTorch format (pytorch_model.bin), SafeTensors required"@
        } else {
            "No SafeTensors weights found in repository"@
        }),
{
    if has_pytorch_weights {
        VortexError::LoadFailed(crate::text::to_owned_string(
            "Model only has PyTorch format (pytorch_model.bin), SafeTensors required",
        ))
    } else {
        VortexError::LoadFailed(crate::text::to_owned_string("No SafeTensors weights found in repository"))
    }
}

} // verus!
