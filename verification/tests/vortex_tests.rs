use tardis::vortex::error::VortexError;
use tardis::vortex::inference::{FinishReason, TokenUsage, Vortex};
use tardis::vortex::loader::config::{estimate_params_from_runtime_config, LlamaDimensions, ModelConfig};
use tardis::vortex::loader::device::DeviceSpec;
use tardis::vortex::loader::files::{find_gguf_file, find_safetensors_files, unique_shards, PathKind};
use tardis::vortex::loader::hub::ModelPreset;
use tardis::vortex::loader::types::{
    estimate_bits_from_quantization, extract_dynamic_quant_pattern, estimate_params_from_gguf, estimate_quantized_memory_bytes,
    extract_quantization_from_filename, full_precision_memory_bytes, ModelFormat,
};
use tardis::vortex::model::{registry_key, Architecture, ModelHandle, ModelInfo, ModelRegistry, Quantization};
use tardis::vortex::tokenizer::template::{
    apply_chatml_template, apply_jinja_template, apply_llama2_template, apply_llama3_template,
    apply_simple_template,
};
use tardis::vortex::tokenizer::service::{decoding_outcome, encoding_outcome};
use tardis::vortex::tokenizer::{ChatMessage, ChatRole, SpecialTokens, TokenizerConfig, TokenizerService};

fn llama_7b_config() -> ModelConfig {
    ModelConfig {
        architecture: Architecture::Llama,
        num_layers: 32,
        hidden_size: 4096,
        intermediate_size: Some(11008),
        num_heads: 32,
        num_kv_heads: Some(32),
        vocab_size: 32000,
        max_seq_len: 4096,
        bos_token_id: Some(1),
        eos_token_id: Some(2),
        model_type: Some("llama".to_string()),
        architectures: vec!["LlamaForCausalLM".to_string()],
    }
}

#[test]
fn test_estimate_parameters() {
    let config = llama_7b_config();
    let params = config.estimate_parameters();
    assert!(params > 6_000_000_000);
    assert!(params < 8_000_000_000);
}

#[test]
fn test_estimate_parameters_overflow_protection() {
    let config = ModelConfig {
        architecture: Architecture::Llama,
        num_layers: usize::MAX,
        hidden_size: usize::MAX,
        intermediate_size: Some(usize::MAX),
        num_heads: 32,
        num_kv_heads: Some(32),
        vocab_size: usize::MAX,
        max_seq_len: 4096,
        bos_token_id: Some(1),
        eos_token_id: Some(2),
        model_type: Some("llama".to_string()),
        architectures: vec![],
    };
    let params = config.estimate_parameters();
    assert_eq!(params, u64::MAX);
}

#[test]
fn estimate_parameters_exact_value() {
    let mut config = llama_7b_config();
    // 32000*4096 + 32*(4*4096^2 + 3*4096*11008 + 2*4096) + 4096*32000
    assert_eq!(config.estimate_parameters(), 6_738_411_520);
    config.intermediate_size = None;
    config.num_layers = 1;
    config.hidden_size = 2;
    config.vocab_size = 10;
    // intermediate 8: 20 + (16 + 48 + 4) + 20
    assert_eq!(config.estimate_parameters(), 108);
    assert_eq!(config.effective_kv_heads(), 32);
    config.num_kv_heads = None;
    assert_eq!(config.effective_kv_heads(), 32);
}

#[test]
fn test_estimate_params_from_runtime_config() {
    let config = LlamaDimensions {
        hidden_size: 4096,
        intermediate_size: 11008,
        vocab_size: 32000,
        num_hidden_layers: 32,
    };
    let params = estimate_params_from_runtime_config(&config);
    assert!(params > 6_000_000_000);
    assert!(params < 8_000_000_000);
}

#[test]
fn architecture_detection() {
    let archs = vec!["LlamaForCausalLM".to_string()];
    assert_eq!(Architecture::detect(&archs, Some("llama")), Architecture::Llama);
    assert_eq!(Architecture::detect(&vec![], Some("mistral")), Architecture::Mistral);
    assert_eq!(Architecture::detect(&vec![], None), Architecture::Unknown);
    assert_eq!(Architecture::Phi.to_string(), "phi");
}

#[test]
fn test_parse_cpu() {
    assert_eq!(DeviceSpec::parse("cpu"), DeviceSpec::Cpu);
    assert_eq!(DeviceSpec::parse("CPU"), DeviceSpec::Cpu);
}

#[test]
fn test_parse_cuda() {
    assert_eq!(DeviceSpec::parse("cuda"), DeviceSpec::Cuda(0));
    assert_eq!(DeviceSpec::parse("cuda:0"), DeviceSpec::Cuda(0));
    assert_eq!(DeviceSpec::parse("cuda:1"), DeviceSpec::Cuda(1));
    assert_eq!(DeviceSpec::parse("gpu"), DeviceSpec::Cuda(0));
}

#[test]
fn test_parse_metal() {
    assert_eq!(DeviceSpec::parse("metal"), DeviceSpec::Metal);
    assert_eq!(DeviceSpec::parse("Metal"), DeviceSpec::Metal);
}

#[test]
fn test_parse_unknown() {
    assert_eq!(DeviceSpec::parse("unknown"), DeviceSpec::Cpu);
    assert_eq!(DeviceSpec::parse("cuda:x"), DeviceSpec::Cpu);
}

#[test]
fn test_extract_quantization_from_filename_q4_0() {
    assert_eq!(extract_quantization_from_filename("llama-7b-q4_0"), "Q4_0");
}

#[test]
fn test_extract_quantization_from_filename_q8_0() {
    assert_eq!(extract_quantization_from_filename("model-Q8_0-GGUF"), "Q8_0");
}

#[test]
fn test_extract_quantization_from_filename_q4_k_m() {
    assert_eq!(extract_quantization_from_filename("tinyllama-q4_k_m"), "Q4_K_M");
}

#[test]
fn test_extract_quantization_from_filename_q4_k() {
    assert_eq!(extract_quantization_from_filename("model-q4_k"), "Q4_K");
}

#[test]
fn test_extract_quantization_from_filename_unknown() {
    assert_eq!(extract_quantization_from_filename("model"), "unknown");
}

#[test]
fn quantization_tag_from_a_word() {
    assert_eq!(extract_quantization_from_filename("llama-q7.gguf"), "Q7");
    assert_eq!(extract_quantization_from_filename("model.f8e4"), "F8E4");
    assert_eq!(extract_quantization_from_filename("model-Q3_K_S-final"), "Q3_K_S");
    assert_eq!(extract_quantization_from_filename("fancy-model"), "unknown");
    assert_eq!(extract_dynamic_quant_pattern("a-q5x-b"), Some("Q5X".to_string()));
    assert_eq!(extract_dynamic_quant_pattern("a-iq9x-b"), None);
    assert_eq!(extract_dynamic_quant_pattern("plain name"), None);
}

#[test]
fn test_find_gguf_file_not_found() {
    let result = find_gguf_file("/nonexistent/path", PathKind::Missing, &vec![]);
    assert!(result.is_err());
}

#[test]
fn test_find_safetensors_files_not_found() {
    let result = find_safetensors_files("/nonexistent/path", PathKind::Missing, None, &vec![]);
    assert!(result.is_err());
    assert!(matches!(result, Err(VortexError::ModelNotFound { .. })));
}

#[test]
fn gguf_file_selection() {
    let entries = vec![
        "/m/zeta.gguf".to_string(),
        "/m/readme.md".to_string(),
        "/m/alpha.gguf".to_string(),
        "/m/beta.GGUF".to_string(),
    ];
    assert_eq!(find_gguf_file("/m", PathKind::Directory, &entries).unwrap(), "/m/alpha.gguf");
    assert_eq!(find_gguf_file("/m/x.gguf", PathKind::File, &vec![]).unwrap(), "/m/x.gguf");
    match find_gguf_file("/m/x.bin", PathKind::File, &vec![]) {
        Err(VortexError::LoadFailed(m)) => assert_eq!(m, "Expected GGUF file, got: /m/x.bin"),
        _ => panic!("expected a load error"),
    }
    match find_gguf_file("/m", PathKind::Directory, &vec!["/m/a.bin".to_string()]) {
        Err(VortexError::LoadFailed(m)) => assert_eq!(m, "No GGUF file found in /m"),
        _ => panic!("expected a load error"),
    }
}

#[test]
fn safetensors_file_selection() {
    let entries = vec![
        "/m/model-00002-of-00002.safetensors".to_string(),
        "/m/config.json".to_string(),
        "/m/model-00001-of-00002.safetensors".to_string(),
    ];
    assert_eq!(
        find_safetensors_files("/m", PathKind::Directory, None, &entries).unwrap(),
        vec!["/m/model-00001-of-00002.safetensors".to_string(), "/m/model-00002-of-00002.safetensors".to_string()]
    );
    assert_eq!(
        find_safetensors_files("/m", PathKind::Directory, Some("/m/model.safetensors".to_string()), &entries).unwrap(),
        vec!["/m/model.safetensors".to_string()]
    );
    match find_safetensors_files("/m/w.bin", PathKind::File, None, &vec![]) {
        Err(VortexError::LoadFailed(m)) => assert_eq!(m, "Unsupported file format: /m/w.bin"),
        _ => panic!("expected a load error"),
    }
    match find_safetensors_files("/m", PathKind::Directory, None, &vec![]) {
        Err(VortexError::LoadFailed(m)) => assert_eq!(m, "No SafeTensors files found in /m"),
        _ => panic!("expected a load error"),
    }
}

#[test]
fn shard_names_sorted_once() {
    let shards = vec![
        "b.safetensors".to_string(),
        "a.safetensors".to_string(),
        "b.safetensors".to_string(),
        "a.safetensors".to_string(),
    ];
    assert_eq!(unique_shards(shards), vec!["a.safetensors".to_string(), "b.safetensors".to_string()]);
}

#[test]
fn format_detection_from_directory() {
    let both = vec!["/m/a.safetensors".to_string(), "/m/b.GGUF".to_string()];
    assert_eq!(ModelFormat::detect_from_directory("/m", Some(&both)), Some(ModelFormat::Gguf));
    let st = vec!["/m/a.SafeTensors".to_string()];
    assert_eq!(ModelFormat::detect_from_directory("/m", Some(&st)), Some(ModelFormat::SafeTensors));
    assert_eq!(ModelFormat::detect_from_directory("/m", Some(&vec![])), None);
    assert_eq!(ModelFormat::detect_from_directory("/m/x.gguf", None), Some(ModelFormat::Gguf));
}

#[test]
fn test_preset_repo_ids() {
    assert_eq!(ModelPreset::TinyLlama.repo_id(), "TinyLlama/TinyLlama-1.1B-Chat-v1.0");
    assert_eq!(ModelPreset::SmolLm135M.repo_id(), "HuggingFaceTB/SmolLM-135M");
}

#[test]
fn test_default_test_model() {
    assert_eq!(ModelPreset::default_test_model(), ModelPreset::TinyLlama);
}

#[test]
fn test_model_format_from_extension_safetensors() {
    assert_eq!(ModelFormat::from_extension("model.safetensors"), Some(ModelFormat::SafeTensors));
}

#[test]
fn test_model_format_from_extension_gguf() {
    assert_eq!(ModelFormat::from_extension("model.gguf"), Some(ModelFormat::Gguf));
}

#[test]
fn test_model_format_from_extension_case_insensitive() {
    assert_eq!(ModelFormat::from_extension("model.GGUF"), Some(ModelFormat::Gguf));
    assert_eq!(ModelFormat::from_extension("model.SafeTensors"), Some(ModelFormat::SafeTensors));
}

#[test]
fn test_model_format_from_extension_unknown() {
    assert_eq!(ModelFormat::from_extension("model.bin"), None);
    assert_eq!(ModelFormat::from_extension("model"), None);
}

#[test]
fn test_estimate_bits_from_quantization() {
    assert_eq!(estimate_bits_from_quantization("Q4_0"), 4);
    assert_eq!(estimate_bits_from_quantization("Q4_K_M"), 4);
    assert_eq!(estimate_bits_from_quantization("Q8_0"), 8);
    assert_eq!(estimate_bits_from_quantization("Q2_K"), 2);
    assert_eq!(estimate_bits_from_quantization("F16"), 16);
    assert_eq!(estimate_bits_from_quantization("unknown"), 4);
}

#[test]
fn memory_estimates() {
    // 1000 parameters at 4 bits: 500 bytes, plus 10%.
    assert_eq!(estimate_quantized_memory_bytes("q4_0", 1000), 550);
    assert_eq!(estimate_quantized_memory_bytes("Q8_0", 1000), 1100);
    assert_eq!(full_precision_memory_bytes(1000, true), 4000);
    assert_eq!(full_precision_memory_bytes(1000, false), 2000);
}

#[test]
fn gguf_parameter_estimate() {
    assert_eq!(estimate_params_from_gguf(Some(2), Some(1), Some(10), Some(8)).unwrap(), 108);
    assert_eq!(estimate_params_from_gguf(Some(2), Some(1), Some(10), None).unwrap(), 108);
    assert!(matches!(
        estimate_params_from_gguf(None, Some(1), Some(10), Some(8)),
        Err(VortexError::LoadFailed(_))
    ));
}

fn test_info(path: &str) -> ModelInfo {
    ModelInfo {
        name: "test".to_string(),
        path: path.to_string(),
        architecture: Architecture::Llama,
        parameters: 7_000_000_000,
        context_length: 4096,
        quantization: Quantization::F16,
        loaded: false,
        memory_bytes: None,
        num_layers: 32,
        hidden_size: 4096,
        num_heads: 32,
        vocab_size: 32000,
    }
}

#[test]
fn test_registry_lifecycle() {
    let mut registry = ModelRegistry::new();
    let path = "/models/test.safetensors";

    registry.register(path.to_string(), test_info(path)).unwrap();

    let retrieved = registry.get_info(path).unwrap();
    assert_eq!(retrieved.name, "test");
    assert!(!retrieved.loaded);

    let handle = registry.mark_loaded(path, 14_000_000_000).unwrap();
    assert!(registry.is_valid(handle));

    let retrieved = registry.get_info(path).unwrap();
    assert!(retrieved.loaded);
    assert_eq!(retrieved.memory_bytes, Some(14_000_000_000));

    registry.mark_unloaded(handle).unwrap();
    assert!(!registry.is_valid(handle));
}

#[test]
fn registry_handles_and_listing() {
    let mut registry = ModelRegistry::new();
    registry.register("/a".to_string(), test_info("/a")).unwrap();
    registry.register("/b".to_string(), test_info("/b")).unwrap();
    let h1 = registry.mark_loaded("/a", 1).unwrap();
    let h2 = registry.mark_loaded("/b", 2).unwrap();
    assert_eq!(h1.raw(), 1);
    assert_eq!(h2.raw(), 2);
    assert_eq!(registry.get_path(h2), Some("/b".to_string()));
    assert_eq!(registry.list().len(), 2);
    assert_eq!(registry.list_loaded().len(), 2);
    registry.mark_unloaded(h1).unwrap();
    assert_eq!(registry.list_loaded().len(), 1);
    assert!(registry.get_path(h1).is_none());
    assert!(!registry.get_info("/a").unwrap().loaded);
}

#[test]
fn test_vortex_creation() {
    let vortex = Vortex::new();
    assert!(vortex.is_ok());
}

#[test]
fn test_unload_invalid_handle() {
    let mut vortex = Vortex::new().unwrap();
    let invalid_handle = ModelHandle::new(999);
    let result = vortex.unload_model(invalid_handle);
    assert!(result.is_err());
    assert!(matches!(result.unwrap_err(), VortexError::InvalidHandle(_)));
}

#[test]
fn test_infer_invalid_handle() {
    let vortex = Vortex::new().unwrap();
    let invalid_handle = ModelHandle::new(999);
    let result = vortex.infer(invalid_handle, "test");
    assert!(result.is_err());
    assert!(matches!(result.unwrap_err(), VortexError::InvalidHandle(_)));
}

#[test]
fn test_embed_invalid_handle() {
    let vortex = Vortex::new().unwrap();
    let invalid_handle = ModelHandle::new(999);
    let result = vortex.embed_tokens(invalid_handle, "test");
    assert!(result.is_err());
    assert!(matches!(result.unwrap_err(), VortexError::InvalidHandle(_)));
}

#[test]
fn test_is_model_loaded_false_for_invalid() {
    let vortex = Vortex::new().unwrap();
    let invalid_handle = ModelHandle::new(999);
    assert!(!vortex.is_model_loaded(invalid_handle));
}

#[test]
fn test_model_info_none_for_invalid() {
    let vortex = Vortex::new().unwrap();
    let invalid_handle = ModelHandle::new(999);
    assert!(vortex.model_info(invalid_handle).is_none());
}

#[test]
fn vortex_invalid_handles_are_refused() {
    let mut vortex = Vortex::new().unwrap();
    let invalid = ModelHandle::new(999);
    assert!(matches!(vortex.unload_model(invalid), Err(VortexError::InvalidHandle(999))));
    assert!(matches!(vortex.infer(invalid, "test"), Err(VortexError::InvalidHandle(999))));
    assert!(matches!(vortex.embed_tokens(invalid, "test"), Err(VortexError::InvalidHandle(999))));
}

#[test]
fn vortex_model_lifecycle() {
    let mut vortex = Vortex::new().unwrap();
    let handle = vortex.register_model("/models/llama-7b", llama_7b_config(), 123).unwrap();
    assert_eq!(handle.raw(), 1);
    assert!(vortex.is_model_loaded(handle));
    let info = vortex.model_info(handle).unwrap();
    assert_eq!(info.name, "llama-7b");
    assert_eq!(info.parameters, 6_738_411_520);
    assert_eq!(info.memory_bytes, Some(123));
    assert!(info.loaded);
    assert_eq!(vortex.list_models().len(), 1);
    let loaded = vortex.list_loaded_models();
    assert_eq!(loaded.len(), 1);
    assert_eq!(loaded[0].0.raw(), 1);
    assert_eq!(loaded[0].1.name, "llama-7b");

    let answer = vortex.infer(handle, "Tell me a story").unwrap();
    assert_eq!(answer, "[Vortex] Inference placeholder for prompt: Tell me a story...");
    let long = "x".repeat(80);
    let answer = vortex.infer(handle, &long).unwrap();
    assert_eq!(answer, format!("[Vortex] Inference placeholder for prompt: {}...", "x".repeat(50)));
    assert!(matches!(vortex.embed_tokens(handle, "hi"), Err(VortexError::TokenizationError(_))));

    vortex.unload_model(handle).unwrap();
    assert!(!vortex.is_model_loaded(handle));
    assert!(vortex.model_info(handle).is_none());
    assert!(vortex.list_loaded_models().is_empty());
    assert!(matches!(vortex.unload_model(handle), Err(VortexError::InvalidHandle(1))));
}

#[test]
fn create_model_info_uses_file_stem() {
    let info = Vortex::create_model_info("/models/tiny.safetensors", &llama_7b_config());
    assert_eq!(info.name, "tiny");
    assert_eq!(info.path, "/models/tiny.safetensors");
    assert_eq!(info.quantization, Quantization::F16);
    assert!(!info.loaded);
    assert_eq!(info.context_length, 4096);
}

#[test]
fn token_usage_and_finish_reason() {
    let usage = TokenUsage { prompt_tokens: 12, completion_tokens: 30 };
    assert_eq!(usage.total(), 42);
    assert_eq!(TokenUsage::default().total(), 0);
    assert_ne!(FinishReason::Stop, FinishReason::Length);
}

#[test]
fn test_tokenizer_service_new() {
    let service = TokenizerService::new();
    assert!(!service.is_loaded(ModelHandle::new(1)));
}

#[test]
fn test_encode_without_tokenizer() {
    let service = TokenizerService::new();
    let result = service.encode(ModelHandle::new(999), "hello");
    assert!(result.is_err());
}

#[test]
fn test_decode_without_tokenizer() {
    let service = TokenizerService::new();
    let result = service.decode(ModelHandle::new(999), &[1, 2, 3]);
    assert!(result.is_err());
}

#[test]
fn test_vocab_size_without_tokenizer() {
    let service = TokenizerService::new();
    assert!(service.vocab_size(ModelHandle::new(999)).is_none());
}

#[test]
fn test_get_special_tokens_without_tokenizer() {
    let service = TokenizerService::new();
    assert!(service.get_special_tokens(ModelHandle::new(999)).is_none());
}

#[test]
fn test_has_chat_template_without_tokenizer() {
    let service = TokenizerService::new();
    assert!(!service.has_chat_template(ModelHandle::new(999)));
}

#[test]
fn test_apply_chat_template_without_tokenizer() {
    let service = TokenizerService::new();
    let messages = vec![ChatMessage::user("Hello")];
    let result = service.apply_chat_template(ModelHandle::new(999), &messages, true);
    assert!(result.is_err());
}

#[test]
fn test_unload_nonexistent_tokenizer() {
    let mut service = TokenizerService::new();
    let result = service.unload(ModelHandle::new(999));
    assert!(result.is_ok());
}

#[test]
fn test_decode_with_special_tokens_without_tokenizer() {
    let service = TokenizerService::new();
    let result = service.decode_with_special_tokens(ModelHandle::new(999), &[1, 2, 3]);
    assert!(result.is_err());
}

const WORD_LEVEL_TOKENIZER: &str = r#"{
  "version": "1.0",
  "truncation": null,
  "padding": null,
  "added_tokens": [],
  "normalizer": null,
  "pre_tokenizer": {"type": "WhitespaceSplit"},
  "post_processor": null,
  "decoder": null,
  "model": {
    "type": "WordLevel",
    "vocab": {"<unk>": 0, "<s>": 1, "hello": 2, "world": 3},
    "unk_token": "<unk>"
  }
}"#;

#[test]
fn tokenizer_service_with_a_real_tokenizer() {
    let mut service = TokenizerService::new();
    let handle = ModelHandle::new(5);
    service.load(handle, WORD_LEVEL_TOKENIZER.as_bytes(), None).unwrap();
    assert!(service.is_loaded(handle));
    assert!(!service.has_chat_template(handle));
    assert_eq!(service.vocab_size(handle), Some(4));
    let special = service.get_special_tokens(handle).unwrap();
    assert_eq!(special.bos_token_id, Some(1));
    assert_eq!(special.unk_token_id, Some(0));
    assert_eq!(special.eos_token_id, None);
    assert_eq!(service.encode(handle, "hello world").unwrap(), vec![2, 3]);
    assert_eq!(service.encode_with_bos(handle, "hello world").unwrap(), vec![1, 2, 3]);
    assert_eq!(service.decode(handle, &[2, 3]).unwrap(), "hello world");
    let simple = service.apply_chat_template(handle, &[ChatMessage::user("Hi")], true).unwrap();
    assert_eq!(simple, "user: Hi\nassistant: ");
    service.unload(handle).unwrap();
    assert!(!service.is_loaded(handle));
}

#[test]
fn tokenizer_service_with_a_config() {
    let mut service = TokenizerService::new();
    let handle = ModelHandle::new(6);
    let config = TokenizerConfig {
        bos_token_id: Some(1),
        eos_token_id: Some(u64::MAX),
        pad_token_id: None,
        unk_token_id: Some(0),
        chat_template: Some("{% for m in messages %}<|im_start|>{% endfor %}".to_string()),
    };
    service.load(handle, WORD_LEVEL_TOKENIZER.as_bytes(), Some(config)).unwrap();
    let special = service.get_special_tokens(handle).unwrap();
    assert_eq!(special.bos_token_id, Some(1));
    assert_eq!(special.eos_token_id, None);
    assert!(service.has_chat_template(handle));
    let text = service.apply_chat_template(handle, &[ChatMessage::user("Hi")], true).unwrap();
    assert_eq!(text, "<|im_start|>user\nHi<|im_end|>\n<|im_start|>assistant\n");
    // BOS already present: no duplicate.
    assert_eq!(service.encode_with_bos(handle, "<s> hello").unwrap(), vec![1, 2]);
}

#[test]
fn tokenizer_service_rejects_a_bad_definition() {
    let mut service = TokenizerService::new();
    let result = service.load(ModelHandle::new(1), b"not json", None);
    match result {
        Err(VortexError::TokenizationError(m)) => assert!(m.starts_with("failed to load tokenizer: ")),
        _ => panic!("expected a tokenization error"),
    }
    assert!(!service.is_loaded(ModelHandle::new(1)));
}

#[test]
fn test_apply_chatml_template() {
    let messages = vec![ChatMessage::system("You are helpful"), ChatMessage::user("Hello")];

    let result = apply_chatml_template(&messages, true);
    assert!(result.contains("<|im_start|>system"));
    assert!(result.contains("You are helpful"));
    assert!(result.contains("<|im_start|>user"));
    assert!(result.contains("Hello"));
    assert!(result.ends_with("<|im_start|>assistant\n"));
}

#[test]
fn test_apply_llama3_template() {
    let messages = vec![ChatMessage::user("What is 2+2?")];

    let result = apply_llama3_template(&messages, true);
    assert!(result.starts_with("<|begin_of_text|>"));
    assert!(result.contains("<|start_header_id|>user<|end_header_id|>"));
    assert!(result.contains("What is 2+2?"));
    assert!(result.ends_with("<|start_header_id|>assistant<|end_header_id|>\n\n"));
}

#[test]
fn test_apply_simple_template() {
    let messages = vec![ChatMessage::user("Hello"), ChatMessage::assistant("Hi!")];

    let result = apply_simple_template(&messages, true);
    assert!(result.contains("user: Hello"));
    assert!(result.contains("assistant: Hi!"));
    assert!(result.ends_with("assistant: "));
}

#[test]
fn test_apply_simple_template_no_generation_prompt() {
    let messages = vec![ChatMessage::user("Hello")];

    let result = apply_simple_template(&messages, false);
    assert!(!result.ends_with("assistant: "));
    assert!(result.ends_with("Hello\n"));
}

#[test]
fn test_apply_llama2_template_with_generation_prompt() {
    let messages = vec![ChatMessage::system("You are helpful"), ChatMessage::user("Hello")];

    let result = apply_llama2_template(&messages, true);
    assert!(result.contains("[INST]"));
    assert!(result.contains("<<SYS>>"));
    assert!(result.contains("You are helpful"));
    assert!(result.contains("Hello"));
    assert!(result.ends_with(" [/INST] "));
}

#[test]
fn test_apply_llama2_template_multi_turn() {
    let messages = vec![
        ChatMessage::user("Hi"),
        ChatMessage::assistant("Hello!"),
        ChatMessage::user("How are you?"),
    ];

    let result = apply_llama2_template(&messages, true);
    assert!(result.contains("[INST] Hi [/INST]"));
    assert!(result.contains(" Hello! </s><s>"));
    assert!(result.contains("[INST] How are you? [/INST]"));
    assert!(result.ends_with(" [/INST] "));
}

#[test]
fn test_apply_llama2_template_system_only() {
    let messages = vec![ChatMessage::system("You are a poet")];

    let result = apply_llama2_template(&messages, true);
    assert!(result.contains("You are a poet"), "Should contain system message");
    assert!(result.starts_with("[INST]"), "Should start with [INST]");
    assert!(result.ends_with(" [/INST] "), "Should end with space for generation");
}

#[test]
fn test_apply_llama2_template_system_assistant() {
    let messages = vec![ChatMessage::system("Sys"), ChatMessage::assistant("Hi")];

    let result = apply_llama2_template(&messages, true);
    assert!(result.contains("Sys"), "Should contain system message");
    assert!(result.contains("Hi"), "Should contain assistant message");
    assert!(result.contains("[INST]"), "Should contain INST block");
    assert!(result.contains(" [/INST]"), "Should contain closing INST");
    assert!(result.ends_with(" Hi </s><s>"), "Should end with assistant response");
}

#[test]
fn test_apply_llama2_template_multiple_system_messages() {
    let messages = vec![
        ChatMessage::system("Sys1"),
        ChatMessage::user("Hi"),
        ChatMessage::system("Sys2"),
        ChatMessage::user("Bye"),
    ];

    let result = apply_llama2_template(&messages, true);
    assert!(result.contains("Sys1"), "First system message should be included");
    assert!(!result.contains("Sys2"), "Second system message should be ignored");
}

#[test]
fn test_apply_llama2_template_system_after_user() {
    let messages = vec![ChatMessage::user("Hi"), ChatMessage::system("Sys1")];

    let result = apply_llama2_template(&messages, true);
    assert!(result.contains("Sys1"));
    assert!(result.contains("Hi"));

    let sys_pos = result.find("Sys1").unwrap();
    let hi_pos = result.find("Hi").unwrap();
    assert!(sys_pos < hi_pos, "System message should be hoisted before user message");
}

#[test]
fn jinja_template_dispatch() {
    let messages = vec![ChatMessage::user("Hi")];
    assert_eq!(
        apply_jinja_template("... [INST] ...", &messages, true),
        apply_llama2_template(&messages, true)
    );
    assert_eq!(
        apply_jinja_template("<|start_header_id|>", &messages, false),
        apply_llama3_template(&messages, false)
    );
    assert_eq!(apply_jinja_template("plain", &messages, false), "user: Hi\n");
}

#[test]
fn test_chat_role_as_str() {
    assert_eq!(ChatRole::System.as_str(), "system");
    assert_eq!(ChatRole::User.as_str(), "user");
    assert_eq!(ChatRole::Assistant.as_str(), "assistant");
}

#[test]
fn test_chat_message_constructors() {
    let system = ChatMessage::system("You are helpful");
    assert_eq!(system.role, ChatRole::System);
    assert_eq!(system.content, "You are helpful");

    let user = ChatMessage::user("Hello");
    assert_eq!(user.role, ChatRole::User);
    assert_eq!(user.content, "Hello");

    let assistant = ChatMessage::assistant("Hi there!");
    assert_eq!(assistant.role, ChatRole::Assistant);
    assert_eq!(assistant.content, "Hi there!");
}

#[test]
fn test_special_tokens_default() {
    let tokens = SpecialTokens::default();
    assert!(tokens.bos_token_id.is_none());
    assert!(tokens.eos_token_id.is_none());
    assert!(tokens.pad_token_id.is_none());
    assert!(tokens.unk_token_id.is_none());
}

#[test]
fn tokenizer_outcomes() {
    assert_eq!(encoding_outcome(Ok(vec![4, 5])).unwrap(), vec![4, 5]);
    match encoding_outcome(Err("bad input".to_string())) {
        Err(VortexError::TokenizationError(m)) => assert_eq!(m, "encoding failed: bad input"),
        _ => panic!("expected a tokenization error"),
    }
    assert_eq!(decoding_outcome(Ok("text".to_string())).unwrap(), "text");
    match decoding_outcome(Err("unknown id".to_string())) {
        Err(VortexError::TokenizationError(m)) => assert_eq!(m, "decoding failed: unknown id"),
        _ => panic!("expected a tokenization error"),
    }
    let service = TokenizerService::new();
    match service.encode(ModelHandle::new(42), "x") {
        Err(VortexError::TokenizationError(m)) => assert_eq!(m, "no tokenizer for handle 42"),
        _ => panic!("expected a tokenization error"),
    }
}

const PRIORITY_TOKENIZER: &str = r#"{
  "version": "1.0",
  "truncation": null,
  "padding": null,
  "added_tokens": [],
  "normalizer": null,
  "pre_tokenizer": {"type": "WhitespaceSplit"},
  "post_processor": null,
  "decoder": null,
  "model": {
    "type": "WordLevel",
    "vocab": {"<unk>": 0, "<|begin_of_text|>": 1, "<s>": 2, "<|end_of_text|>": 3, "<|padding|>": 4},
    "unk_token": "<unk>"
  }
}"#;

#[test]
fn extract_special_tokens_prefers_the_short_names() {
    let tokenizer = tokenizers::Tokenizer::from_bytes(PRIORITY_TOKENIZER.as_bytes()).unwrap();
    let special = TokenizerService::extract_special_tokens(&tokenizer);
    assert_eq!(special.bos_token_id, Some(2));
    assert_eq!(special.eos_token_id, Some(3));
    assert_eq!(special.pad_token_id, Some(4));
    assert_eq!(special.unk_token_id, Some(0));
}

#[test]
fn registry_keys_follow_path_components() {
    assert_eq!(registry_key("/models/x"), "/models/x/");
    assert_eq!(registry_key("/models//x/"), "/models/x/");
    assert_eq!(registry_key("/models/./x"), "/models/x/");
    assert_eq!(registry_key("./a"), "./a/");
    assert_eq!(registry_key("a"), "a/");
    assert_eq!(registry_key("."), "./");
    assert_eq!(registry_key("/"), "/");
    assert_eq!(registry_key("a/../b"), "a/../b/");
    assert_eq!(registry_key(""), "");
}

#[test]
fn registry_finds_a_model_under_an_equivalent_path() {
    let mut registry = ModelRegistry::new();
    registry.register("/models/x".to_string(), test_info("/models/x")).unwrap();
    assert!(registry.get_info("/models//x/").is_some());
    assert!(registry.get_info("/models/./x").is_some());
    assert!(registry.get_info("/models/y").is_none());
    let handle = registry.mark_loaded("/models/x/", 7).unwrap();
    assert_eq!(registry.get_info("/models/x").unwrap().memory_bytes, Some(7));
    registry.mark_unloaded(handle).unwrap();
    assert!(!registry.get_info("/models/x").unwrap().loaded);
    registry.register("/models/x/".to_string(), test_info("/models/x/")).unwrap();
    assert_eq!(registry.list().len(), 1);
}

const BPE_DROPOUT_TOKENIZER: &str = r#"{
  "version": "1.0",
  "truncation": null,
  "padding": null,
  "added_tokens": [],
  "normalizer": null,
  "pre_tokenizer": {"type": "WhitespaceSplit"},
  "post_processor": null,
  "decoder": null,
  "model": {
    "type": "BPE",
    "dropout": 0.5,
    "unk_token": null,
    "continuing_subword_prefix": null,
    "end_of_word_suffix": null,
    "fuse_unk": false,
    "byte_fallback": false,
    "vocab": {"a": 0, "b": 1, "ab": 2},
    "merges": ["a b"]
  }
}"#;

#[test]
fn sampling_is_reported_per_tokenizer() {
    let mut service = TokenizerService::new();
    let plain = ModelHandle::new(1);
    let sampling = ModelHandle::new(2);
    assert_eq!(service.is_sampling(plain), None);
    service.load(plain, WORD_LEVEL_TOKENIZER.as_bytes(), None).unwrap();
    service.load(sampling, BPE_DROPOUT_TOKENIZER.as_bytes(), None).unwrap();
    assert_eq!(service.is_sampling(plain), Some(false));
    assert_eq!(service.is_sampling(sampling), Some(true));
}

#[test]
fn simple_template_puts_parts_together() {
    let a = vec![ChatMessage::system("Be brief."), ChatMessage::user("Hi")];
    let b = vec![ChatMessage::assistant("Hello"), ChatMessage::user("Bye")];
    let mut ab = a.clone();
    ab.extend(b.iter().cloned());
    let joined = apply_simple_template(&ab, true);
    let parts = format!("{}{}", apply_simple_template(&a, false), apply_simple_template(&b, true));
    assert_eq!(joined, parts);
}
