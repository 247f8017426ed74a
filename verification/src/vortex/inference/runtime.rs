//! The inference engine's bookkeeping: which models are loaded, under which
//! handles, with which configuration and tokenizer.
//!
//! The weights themselves, the file system and the download of presets are
//! driven by the engine's glue, which hands this type the plain results.

use vstd::prelude::*;
use vstd::string::StringSliceAdditionalSpecFns;
use crate::assoc::{assoc_map, keys_unique, lemma_assoc_dom, lemma_assoc_lookup, lemma_assoc_push_unique,
    lemma_assoc_remove, lemma_assoc_update};
use crate::text::{concat_str, to_owned_string};
use crate::vortex::error::VortexError;
use crate::vortex::loader::config::{checked_param_estimate, effective_intermediate, ModelConfig};
use crate::vortex::model::{as_loaded, as_unloaded, loaded_infos, path_key, ModelHandle, ModelInfo, ModelRegistry, Quantization};
use crate::vortex::tokenizer::service::{failed_with, narrow_id, no_tokenizer_message, tokenizer_encoding, tokenizer_json_parses,
    tokenizer_samples, tokenizer_vocab, vocab_special_tokens, LoadedTokenizer, TokenizerConfig, TokenizerService};

verus! {

/// The file stem of the last component of a path (`Path::file_stem`), if any.
pub uninterp spec fn spec_path_file_stem(path: Seq<char>) -> Option<Seq<char>>;

/// The file name of a path without its extension.
///
/// Calls `Path::file_stem`; the result depends on the path alone and is named
/// `spec_path_file_stem`. A stem taken from a `&str` is always valid UTF-8.
#[verifier::external_body]
fn path_file_stem(path: &str) -> (r: Option<String>)
    ensures
        match r {
            Some(s) => spec_path_file_stem(path@) == Some(s@),
            None => spec_path_file_stem(path@) is None,
        },
{
    std::path::Path::new(path).file_stem().and_then(|s| s.to_str()).map(|s| s.to_string())
}

/// The registry name of the model at `path`: its file stem, or `unknown`.
pub open spec fn model_name(path: Seq<char>) -> Seq<char> {
    match spec_path_file_stem(path) {
        Some(s) => s,
        None => "unknown"@,
    }
}

/// The info registered for a model at `path` with configuration `config`: not
/// loaded yet, F16, with the configuration's dimensions and parameter estimate.
pub open spec fn is_info_for(info: ModelInfo, path: Seq<char>, config: ModelConfig) -> bool {
    &&& info.name@ == model_name(path)
    &&& info.path@ == path
    &&& info.architecture == config.architecture
    &&& info.parameters == checked_param_estimate(
        config.hidden_size as int,
        config.num_layers as int,
        config.vocab_size as int,
        effective_intermediate(config),
    )
    &&& info.context_length == config.max_seq_len
    &&& info.quantization == Quantization::F16
    &&& !info.loaded
    &&& info.memory_bytes is None
    &&& info.num_layers == config.num_layers
    &&& info.hidden_size == config.hidden_size
    &&& info.num_heads == config.num_heads
    &&& info.vocab_size == config.vocab_size
}

/// The text the placeholder inference answers for a prompt: its first bytes, at
/// most 50, between a fixed prefix and `...`.
pub open spec fn placeholder_answer(prompt: Seq<u8>) -> Seq<char> {
    let k = if prompt.len() < 50 { prompt.len() as int } else { 50 };
    "[Vortex] Inference placeholder for prompt: "@ + vstd::utf8::decode_utf8(prompt.subrange(0, k)) + "..."@
}

/// For an ASCII prompt the placeholder answer is the fixed prefix, the prompt's
/// first 50 characters (all of it when it is shorter) and `...`.
pub proof fn law_placeholder_quotes_prompt_start(prompt: Seq<char>)
    requires
        vstd::utf8::is_ascii_chars(prompt),
    ensures
        placeholder_answer(vstd::utf8::encode_utf8(prompt)) == "[Vortex] Inference placeholder for prompt: "@
            + prompt.take(if prompt.len() < 50 { prompt.len() as int } else { 50 }) + "..."@,
{
    let k = if prompt.len() < 50 { prompt.len() as int } else { 50 };
    let bytes = vstd::utf8::encode_utf8(prompt);
    vstd::utf8::is_ascii_chars_encode_utf8(prompt);
    let head = prompt.take(k);
    assert(vstd::utf8::is_ascii_chars(head)) by {
        assert forall|i: int| 0 <= i < head.len() implies '\0' <= #[trigger] head[i] <= '\u{7f}' by {
            assert(head[i] == prompt[i]);
        }
    }
    vstd::utf8::is_ascii_chars_encode_utf8(head);
    assert(bytes.subrange(0, k) =~= vstd::utf8::encode_utf8(head)) by {
        assert forall|i: int| 0 <= i < k implies #[trigger] bytes.subrange(0, k)[i] == vstd::utf8::encode_utf8(head)[i] by {
            assert(head[i] == prompt[i]);
            assert(bytes[i] == prompt[i] as u8);
            assert(vstd::utf8::encode_utf8(head)[i] == head[i] as u8);
        }
    }
    vstd::utf8::encode_utf8_decode_utf8(head);
}

/// The main Vortex inference engine's state.
#[derive(Debug)]
pub struct Vortex {
    registry: ModelRegistry,
    tokenizers: TokenizerService,
    model_configs: Vec<(u64, ModelConfig)>,
}

impl Vortex {
    /// The model registry.
    pub closed spec fn registry(&self) -> ModelRegistry {
        self.registry
    }

    /// The tokenizer service.
    pub closed spec fn tokenizer_service(&self) -> TokenizerService {
        self.tokenizers
    }

    /// The configuration of each loaded model, by handle number.
    pub closed spec fn configs(&self) -> Map<u64, ModelConfig> {
        assoc_map(self.model_configs@)
    }

    /// The registry is well formed, no handle has two configurations, and the
    /// handles with a configuration are exactly the valid ones.
    pub closed spec fn wf(&self) -> bool {
        &&& self.registry.wf()
        &&& keys_unique(self.model_configs@)
        &&& self.configs().dom() == self.registry.loaded_paths().dom()
    }

    /// Create a new engine: no model registered or loaded.
    pub fn new() -> (r: Result<Vortex, VortexError>)
        ensures
            r is Ok,
            r->Ok_0.wf(),
            r->Ok_0.registry().registered() == Map::<Seq<char>, ModelInfo>::empty(),
            r->Ok_0.registry().loaded_paths() == Map::<u64, Seq<char>>::empty(),
            r->Ok_0.registry().next() == 1,
            r->Ok_0.configs() == Map::<u64, ModelConfig>::empty(),
            r->Ok_0.tokenizer_service().loaded() == Map::<u64, LoadedTokenizer>::empty(),
    {
        let v = Vortex { registry: ModelRegistry::new(), tokenizers: TokenizerService::new(), model_configs: Vec::new() };
        proof {
            assert(v.model_configs@ =~= Seq::empty());
            assert(v.configs().dom() =~= v.registry.loaded_paths().dom());
        }
        Ok(v)
    }

    /// Create the registry info for a model at `path` with configuration `config`.
    pub fn create_model_info(path: &str, config: &ModelConfig) -> (info: ModelInfo)
        ensures
            is_info_for(info, path@, *config),
    {
        let name = match path_file_stem(path) {
            Some(s) => s,
            None => to_owned_string("unknown"),
        };
        ModelInfo {
            name,
            path: to_owned_string(path),
            architecture: config.architecture,
            parameters: config.estimate_parameters(),
            context_length: config.max_seq_len,
            quantization: Quantization::F16,
            loaded: false,
            memory_bytes: None,
            num_layers: config.num_layers,
            hidden_size: config.hidden_size,
            num_heads: config.num_heads,
            vocab_size: config.vocab_size,
        }
    }

    fn find_config(&self, handle: u64) -> (r: Option<usize>)
        ensures
            match r {
                Some(i) => i < self.model_configs@.len() && self.model_configs@[i as int].0 == handle,
                None => forall|i: int| 0 <= i < self.model_configs@.len() ==> (#[trigger] self.model_configs@[i]).0 != handle,
            },
    {
        let n = self.model_configs.len();
        let mut i: usize = 0;
        while i < n
            invariant
                n == self.model_configs@.len(),
                i <= n,
                forall|k: int| 0 <= k < i ==> (#[trigger] self.model_configs@[k]).0 != handle,
            decreases n - i,
        {
            if self.model_configs[i].0 == handle {
                return Some(i);
            }
            i = i + 1;
        }
        None
    }

    /// Records a model whose weights were loaded from `path` (using
    /// `memory_bytes` of memory): registers its info, marks it loaded under the
    /// next handle and keeps its configuration. Returns the handle.
    pub fn register_model(&mut self, path: &str, config: ModelConfig, memory_bytes: u64) -> (r: Result<ModelHandle, VortexError>)
        requires
            old(self).wf(),
        ensures
            final(self).wf(),
            r is Ok,
            r->Ok_0.id() == old(self).registry().next(),
            final(self).registry().next() == old(self).registry().next().wrapping_add(1),
            final(self).registry().loaded_paths() == old(self).registry().loaded_paths().insert(old(self).registry().next(), path@),
            exists|info: ModelInfo| #[trigger] is_info_for(info, path@, config)
                && final(self).registry().registered() == old(self).registry().registered().insert(path_key(path@), as_loaded(info, memory_bytes)),
            final(self).configs() == old(self).configs().insert(old(self).registry().next(), config),
            final(self).tokenizer_service() == old(self).tokenizer_service(),
    {
        let info = Self::create_model_info(path, &config);
        let ghost reg0 = self.registry.registered();
        let _ = self.registry.register(to_owned_string(path), info);
        let handle = match self.registry.mark_loaded(path, memory_bytes) {
            Ok(h) => h,
            Err(e) => {
                return Err(e);
            },
        };
        proof {
            assert(self.registry.registered() =~= reg0.insert(path_key(path@), as_loaded(info, memory_bytes)));
        }
        let h = handle.raw();
        let ghost c = self.model_configs@;
        match self.find_config(h) {
            Some(i) => {
                proof {
                    lemma_assoc_update(c, i as int, config);
                }
                self.model_configs.set(i, (h, config));
                proof {
                    assert(self.model_configs@ =~= c.update(i as int, (c[i as int].0, config)));
                }
            },
            None => {
                proof {
                    lemma_assoc_dom(c, h);
                    lemma_assoc_push_unique(c, h, config);
                }
                self.model_configs.push((h, config));
            },
        }
        proof {
            assert(self.configs().dom() =~= self.registry.loaded_paths().dom());
        }
        Ok(handle)
    }

    /// Loads the tokenizer of a loaded model from the contents of its
    /// `tokenizer.json` and, when it has one, its `tokenizer_config.json`.
    pub fn load_tokenizer(&mut self, handle: ModelHandle, tokenizer_json: &[u8], config: Option<TokenizerConfig>) -> (r: Result<(), VortexError>)
        requires
            old(self).wf(),
        ensures
            final(self).wf(),
            final(self).registry() == old(self).registry(),
            final(self).configs() == old(self).configs(),
            r is Ok ==> {
                &&& final(self).tokenizer_service().loaded().dom() == old(self).tokenizer_service().loaded().dom().insert(handle.id())
                &&& forall|h: u64| h != handle.id() && #[trigger] old(self).tokenizer_service().loaded().contains_key(h)
                    ==> final(self).tokenizer_service().loaded()[h] == old(self).tokenizer_service().loaded()[h]
                &&& match config {
                    Some(c) => {
                        &&& final(self).tokenizer_service().loaded()[handle.id()].special_tokens.bos_token_id == narrow_id(c.bos_token_id)
                        &&& final(self).tokenizer_service().loaded()[handle.id()].special_tokens.eos_token_id == narrow_id(c.eos_token_id)
                        &&& final(self).tokenizer_service().loaded()[handle.id()].special_tokens.pad_token_id == narrow_id(c.pad_token_id)
                        &&& final(self).tokenizer_service().loaded()[handle.id()].special_tokens.unk_token_id == narrow_id(c.unk_token_id)
                        &&& final(self).tokenizer_service().loaded()[handle.id()].chat_template == c.chat_template
                    },
                    None => {
                        &&& final(self).tokenizer_service().loaded()[handle.id()].special_tokens == vocab_special_tokens(
                            tokenizer_vocab(final(self).tokenizer_service().loaded()[handle.id()].tokenizer),
                        )
                        &&& final(self).tokenizer_service().loaded()[handle.id()].chat_template is None
                    },
                }
            },
            r is Err ==> final(self).tokenizer_service().loaded() == old(self).tokenizer_service().loaded()
                && failed_with(r->Err_0, "failed to load tokenizer: "@),
            r is Ok <==> tokenizer_json_parses(tokenizer_json@),
    {
        self.tokenizers.load(handle, tokenizer_json, config)
    }

    /// Unload a model: forget its configuration and tokenizer and mark it
    /// unloaded in the registry. Fails with `InvalidHandle`, changing nothing,
    /// when the handle names no loaded model.
    pub fn unload_model(&mut self, handle: ModelHandle) -> (r: Result<(), VortexError>)
        requires
            old(self).wf(),
        ensures
            final(self).wf(),
            match r {
                Ok(()) => {
                    &&& old(self).registry().loaded_paths().contains_key(handle.id())
                    &&& final(self).registry().loaded_paths() == old(self).registry().loaded_paths().remove(handle.id())
                    &&& final(self).configs() == old(self).configs().remove(handle.id())
                    &&& final(self).tokenizer_service().loaded() == old(self).tokenizer_service().loaded().remove(handle.id())
                    &&& final(self).registry().next() == old(self).registry().next()
                    &&& final(self).registry().registered() == (
                        if old(self).registry().registered().contains_key(path_key(old(self).registry().loaded_paths()[handle.id()])) {
                            old(self).registry().registered().insert(
                                path_key(old(self).registry().loaded_paths()[handle.id()]),
                                as_unloaded(old(self).registry().registered()[path_key(old(self).registry().loaded_paths()[handle.id()])]),
                            )
                        } else {
                            old(self).registry().registered()
                        })
                },
                Err(e) => {
                    &&& !old(self).registry().loaded_paths().contains_key(handle.id())
                    &&& e == VortexError::InvalidHandle(handle.id())
                    &&& *final(self) == *old(self)
                },
            },
    {
        if !self.registry.is_valid(handle) {
            return Err(VortexError::InvalidHandle(handle.raw()));
        }
        let h = handle.raw();
        let ghost c = self.model_configs@;
        match self.find_config(h) {
            Some(i) => {
                proof {
                    lemma_assoc_lookup(c, i as int);
                    lemma_assoc_remove(c, i as int);
                }
                let _removed = self.model_configs.remove(i);
                proof {
                    assert(self.model_configs@ =~= c.remove(i as int));
                }
            },
            None => {
                proof {
                    lemma_assoc_dom(c, h);
                    assert(assoc_map(c).remove(h) =~= assoc_map(c));
                }
            },
        }
        let _ = self.tokenizers.unload(handle);
        let _ = self.registry.mark_unloaded(handle);
        proof {
            assert(self.configs().dom() =~= self.registry.loaded_paths().dom());
        }
        Ok(())
    }

    /// Run inference on a model (a placeholder: it answers with the start of the
    /// prompt). Fails with `InvalidHandle` when the handle names no loaded model.
    pub fn infer(&self, handle: ModelHandle, prompt: &str) -> (r: Result<String, VortexError>)
        requires
            self.wf(),
            prompt.spec_bytes().len() <= usize::MAX,
            prompt.spec_bytes().len() <= 50 || vstd::utf8::is_char_boundary(prompt.spec_bytes(), 50),
        ensures
            match r {
                Ok(s) => self.registry().loaded_paths().contains_key(handle.id()) && s@ == placeholder_answer(prompt.spec_bytes()),
                Err(e) => !self.registry().loaded_paths().contains_key(handle.id()) && e == VortexError::InvalidHandle(handle.id()),
            },
    {
        broadcast use vstd::utf8::group_utf8_lib;

        if !self.registry.is_valid(handle) {
            return Err(VortexError::InvalidHandle(handle.raw()));
        }
        let n = prompt.len();
        let k = if n < 50 { n } else { 50 };
        proof {
            vstd::utf8::encode_utf8_valid_utf8(prompt@);
            vstd::utf8::is_char_boundary_start_end_of_seq(prompt.spec_bytes());
            assert(n as int == prompt.spec_bytes().len());
            assert(vstd::utf8::is_char_boundary(prompt.spec_bytes(), k as int));
        }
        let (head, _rest) = prompt.split_at(k);
        let with_head = concat_str("[Vortex] Inference placeholder for prompt: ", head);
        let s = concat_str(with_head.as_str(), "...");
        proof {
            vstd::utf8::encode_utf8_decode_utf8(head@);
            assert(head@ == vstd::utf8::decode_utf8(prompt.spec_bytes().subrange(0, k as int)));
        }
        Ok(s)
    }

    /// The tokens an embedding is computed from: the text encoded by the model's
    /// tokenizer. Fails with `InvalidHandle` when the handle names no loaded
    /// model, and as [`TokenizerService::encode`] does otherwise.
    pub fn embed_tokens(&self, handle: ModelHandle, text: &str) -> (r: Result<Vec<u32>, VortexError>)
        requires
            self.wf(),
        ensures
            !self.registry().loaded_paths().contains_key(handle.id()) ==> r == Err::<Vec<u32>, VortexError>(VortexError::InvalidHandle(handle.id())),
            self.registry().loaded_paths().contains_key(handle.id()) && !self.tokenizer_service().loaded().contains_key(handle.id())
                ==> (r matches Err(VortexError::TokenizationError(m)) && m@ == no_tokenizer_message(handle.id())),
            self.registry().loaded_paths().contains_key(handle.id()) && self.tokenizer_service().loaded().contains_key(handle.id())
                && r is Err ==> failed_with(r->Err_0, "encoding failed: "@),
            self.registry().loaded_paths().contains_key(handle.id()) && self.tokenizer_service().loaded().contains_key(handle.id())
                && !tokenizer_samples(self.tokenizer_service().loaded()[handle.id()].tokenizer) ==> {
                &&& (r is Ok <==> tokenizer_encoding(self.tokenizer_service().loaded()[handle.id()].tokenizer, text@, true) is Some)
                &&& (r is Ok ==> r->Ok_0@ == tokenizer_encoding(self.tokenizer_service().loaded()[handle.id()].tokenizer, text@, true)->Some_0)
            },
    {
        if !self.registry.is_valid(handle) {
            return Err(VortexError::InvalidHandle(handle.raw()));
        }
        self.tokenizers.encode(handle, text)
    }

    /// The infos of all registered models, in registration order.
    pub fn list_models(&self) -> (r: Vec<ModelInfo>)
        ensures
            r@ == self.registry().entries().map_values(|e: (Seq<char>, ModelInfo)| e.1),
    {
        self.registry.list()
    }

    /// The loaded models, with their handles and infos, in loading order.
    pub fn list_loaded_models(&self) -> (r: Vec<(ModelHandle, ModelInfo)>)
        requires
            self.wf(),
        ensures
            r@.map_values(|e: (ModelHandle, ModelInfo)| (e.0.id(), e.1))
                == loaded_infos(self.registry().loaded_entries(), self.registry().registered()),
    {
        self.registry.list_loaded()
    }

    /// Information about a loaded model.
    pub fn model_info(&self, handle: ModelHandle) -> (r: Option<ModelInfo>)
        requires
            self.wf(),
        ensures
            r == (if self.registry().loaded_paths().contains_key(handle.id())
                && self.registry().registered().contains_key(path_key(self.registry().loaded_paths()[handle.id()])) {
                Some(self.registry().registered()[path_key(self.registry().loaded_paths()[handle.id()])])
            } else {
                None
            }),
    {
        match self.registry.get_path(handle) {
            Some(path) => self.registry.get_info(path.as_str()),
            None => None,
        }
    }

    /// Check if a model is loaded.
    pub fn is_model_loaded(&self, handle: ModelHandle) -> (r: bool)
        requires
            self.wf(),
        ensures
            r == self.configs().contains_key(handle.id()),
    {
        proof {
            lemma_assoc_dom(self.model_configs@, handle.id());
        }
        self.find_config(handle.raw()).is_some()
    }

    /// The tokenizer service.
    pub fn tokenizers(&self) -> (t: &TokenizerService)
        ensures
            *t == self.tokenizer_service(),
    {
        &self.tokenizers
    }

    /// A model is loaded exactly when its handle is valid in the registry.
    pub proof fn law_loaded_iff_valid(&self, handle: ModelHandle)
        requires
            self.wf(),
        ensures
            self.configs().contains_key(handle.id()) == self.registry().loaded_paths().contains_key(handle.id()),
    {
    }
}

} // verus!
