//! The per-model tokenizer service.
//!
//! Tokenizers come from the `tokenizers` crate; the service keeps one per model
//! handle together with its special tokens and chat template, and answers
//! encode, decode and chat-formatting requests for a handle.

use vstd::prelude::*;
use tokenizers::Tokenizer;
use crate::assoc::{assoc_map, keys_unique, lemma_assoc_dom, lemma_assoc_lookup, lemma_assoc_push_unique,
    lemma_assoc_remove, lemma_assoc_update};
use crate::text::{concat_str, decimal_chars, lemma_starts_with_concat, seq_starts_with, with_decimal};
use crate::vortex::error::VortexError;
use crate::vortex::model::ModelHandle;
use crate::vortex::tokenizer::template::{apply_jinja_template, apply_simple_template, jinja_text, simple_text};
use crate::vortex::tokenizer::types::{ChatMessage, SpecialTokens};

verus! {

#[verifier::external_type_specification]
#[verifier::external_body]
pub struct ExTokenizer(tokenizers::Tokenizer);

/// Whether a tokenizer definition parses: `Tokenizer::from_bytes` deserialises
/// it with `serde_json` and succeeds exactly then.
pub uninterp spec fn tokenizer_json_parses(json: Seq<u8>) -> bool;

/// Whether a tokenizer's model may draw random numbers while it encodes: a BPE
/// model with a merge dropout set (to any value). Such a tokenizer may encode one
/// text differently from one call to the next; any other encodes deterministically.
pub uninterp spec fn tokenizer_samples(tokenizer: Tokenizer) -> bool;

/// Whether a tokenizer's model is a BPE model with merge dropout set.
///
/// Reads `get_model()` and, for a BPE model, whether its `dropout` field is set.
/// Claimed: the answer is [`tokenizer_samples`] of the tokenizer.
#[verifier::external_body]
fn tokenizer_model_samples(tokenizer: &Tokenizer) -> (r: bool)
    ensures
        r == tokenizer_samples(*tokenizer),
{
    match tokenizer.get_model() {
        tokenizers::models::ModelWrapper::BPE(bpe) => bpe.dropout.is_some(),
        _ => false,
    }
}

/// What `Tokenizer::encode` gives a text with a tokenizer that does not sample: the
/// encoding's ids, or `None` when encoding fails.
pub uninterp spec fn tokenizer_encoding(tokenizer: Tokenizer, text: Seq<char>, add_special_tokens: bool) -> Option<Seq<u32>>;

/// What `Tokenizer::decode` gives a sequence of ids: the text, or `None` when
/// decoding fails.
pub uninterp spec fn tokenizer_decoding(tokenizer: Tokenizer, ids: Seq<u32>, skip_special_tokens: bool) -> Option<Seq<char>>;

/// Parses a tokenizer definition, the contents of a `tokenizer.json` file.
///
/// Calls `Tokenizer::from_bytes`, which deserialises the JSON; a failure is
/// returned as the error's text. Claimed: it succeeds exactly when the bytes
/// parse. Nothing is claimed of the tokenizer beyond what the other names say.
#[verifier::external_body]
fn tokenizer_from_bytes(bytes: &[u8]) -> (r: Result<Tokenizer, String>)
    ensures
        r is Ok <==> tokenizer_json_parses(bytes@),
{
    match Tokenizer::from_bytes(bytes) {
        Ok(t) => Ok(t),
        Err(e) => Err(e.to_string()),
    }
}

/// Encodes text into token ids.
///
/// Calls `Tokenizer::encode` on the text and hands out the encoding's ids; a
/// failure is returned as the error's text. Claimed, for a tokenizer that does not
/// sample: it succeeds exactly when the named encoding exists, with those ids. Of a
/// sampling tokenizer nothing is claimed: its result rests on chance.
#[verifier::external_body]
fn tokenizer_encode(tokenizer: &Tokenizer, text: &str, add_special_tokens: bool) -> (r: Result<Vec<u32>, String>)
    ensures
        !tokenizer_samples(*tokenizer) ==> (r is Ok <==> tokenizer_encoding(*tokenizer, text@, add_special_tokens) is Some),
        !tokenizer_samples(*tokenizer) && r is Ok ==> r->Ok_0@ == tokenizer_encoding(*tokenizer, text@, add_special_tokens)->Some_0,
{
    match tokenizer.encode(text, add_special_tokens) {
        Ok(encoding) => Ok(encoding.get_ids().to_vec()),
        Err(e) => Err(e.to_string()),
    }
}

/// Decodes token ids into text.
///
/// Calls `Tokenizer::decode`; a failure is returned as the error's text. Claimed:
/// it succeeds exactly when the named decoding exists, with that text.
#[verifier::external_body]
fn tokenizer_decode(tokenizer: &Tokenizer, ids: &[u32], skip_special_tokens: bool) -> (r: Result<String, String>)
    ensures
        r is Ok <==> tokenizer_decoding(*tokenizer, ids@, skip_special_tokens) is Some,
        r is Ok ==> r->Ok_0@ == tokenizer_decoding(*tokenizer, ids@, skip_special_tokens)->Some_0,
{
    match tokenizer.decode(ids, skip_special_tokens) {
        Ok(s) => Ok(s),
        Err(e) => Err(e.to_string()),
    }
}

/// The vocabulary size, added tokens included.
///
/// Calls `Tokenizer::get_vocab_size(true)`, which is the number of entries of
/// `get_vocab(true)`: claimed, the size of the tokenizer's vocabulary.
#[verifier::external_body]
fn tokenizer_vocab_size(tokenizer: &Tokenizer) -> (n: usize)
    ensures
        n == tokenizer_vocab(*tokenizer).dom().len(),
{
    tokenizer.get_vocab_size(true)
}

/// The vocabulary a tokenizer holds, added tokens included: each token's text
/// mapped to its id (what `Tokenizer::get_vocab(true)` returns).
pub uninterp spec fn tokenizer_vocab(tokenizer: Tokenizer) -> Map<Seq<char>, u32>;

/// The id of a token in a vocabulary, if the vocabulary has it.
pub open spec fn vocab_lookup(vocab: Map<Seq<char>, u32>, token: Seq<char>) -> Option<u32> {
    if vocab.contains_key(token) {
        Some(vocab[token])
    } else {
        None
    }
}

/// The id of a token in the vocabulary (added tokens included), if present.
///
/// Calls `Tokenizer::get_vocab(true)` and looks the token up in the returned
/// map. Claimed: the answer is the lookup of the token in the tokenizer's
/// vocabulary, the same map for every call on the same tokenizer.
#[verifier::external_body]
fn tokenizer_vocab_id(tokenizer: &Tokenizer, token: &str) -> (id: Option<u32>)
    ensures
        id == vocab_lookup(tokenizer_vocab(*tokenizer), token@),
{
    tokenizer.get_vocab(true).get(token).copied()
}

/// What a `tokenizer_config.json` file says, as far as the service reads it.
#[derive(Debug)]
pub struct TokenizerConfig {
    /// The `bos_token_id` field, if it is an unsigned integer.
    pub bos_token_id: Option<u64>,
    /// The `eos_token_id` field, if it is an unsigned integer.
    pub eos_token_id: Option<u64>,
    /// The `pad_token_id` field, if it is an unsigned integer.
    pub pad_token_id: Option<u64>,
    /// The `unk_token_id` field, if it is an unsigned integer.
    pub unk_token_id: Option<u64>,
    /// The `chat_template` field, if it is a string.
    pub chat_template: Option<String>,
}

/// A token id as a `u32`, if it fits.
pub open spec fn narrow_id(v: Option<u64>) -> Option<u32> {
    match v {
        Some(x) => if x <= u32::MAX { Some(x as u32) } else { None },
        None => None,
    }
}

/// Narrows a token id to `u32`; an id that does not fit counts as absent.
pub fn token_id_from_config(v: Option<u64>) -> (r: Option<u32>)
    ensures
        r == narrow_id(v),
{
    match v {
        Some(x) => if x <= 0xffff_ffff {
            Some(x as u32)
        } else {
            None
        },
        None => None,
    }
}

/// The special tokens a tokenizer configuration names (ids that do not fit a
/// `u32` count as absent).
pub fn special_tokens_from_config(config: &TokenizerConfig) -> (t: SpecialTokens)
    ensures
        t.bos_token_id == narrow_id(config.bos_token_id),
        t.eos_token_id == narrow_id(config.eos_token_id),
        t.pad_token_id == narrow_id(config.pad_token_id),
        t.unk_token_id == narrow_id(config.unk_token_id),
{
    SpecialTokens {
        bos_token_id: token_id_from_config(config.bos_token_id),
        eos_token_id: token_id_from_config(config.eos_token_id),
        pad_token_id: token_id_from_config(config.pad_token_id),
        unk_token_id: token_id_from_config(config.unk_token_id),
    }
}

/// The special tokens found in a vocabulary, given the ids of the tokens that
/// name them: `<s>` before `<|begin_of_text|>` for BOS, `</s>` before
/// `<|end_of_text|>` for EOS, `<pad>` before `<|padding|>` for padding, and
/// `<unk>` for unknown.
pub fn special_tokens_from_vocab(
    s: Option<u32>,
    begin_of_text: Option<u32>,
    end_s: Option<u32>,
    end_of_text: Option<u32>,
    pad: Option<u32>,
    padding: Option<u32>,
    unk: Option<u32>,
) -> (t: SpecialTokens)
    ensures
        t.bos_token_id == (if s is Some { s } else { begin_of_text }),
        t.eos_token_id == (if end_s is Some { end_s } else { end_of_text }),
        t.pad_token_id == (if pad is Some { pad } else { padding }),
        t.unk_token_id == unk,
{
    SpecialTokens {
        bos_token_id: if s.is_some() { s } else { begin_of_text },
        eos_token_id: if end_s.is_some() { end_s } else { end_of_text },
        pad_token_id: if pad.is_some() { pad } else { padding },
        unk_token_id: unk,
    }
}

/// The special tokens a vocabulary names: `<s>` before `<|begin_of_text|>` for
/// BOS, `</s>` before `<|end_of_text|>` for EOS, `<pad>` before `<|padding|>` for
/// padding, and `<unk>` for unknown.
pub open spec fn vocab_special_tokens(vocab: Map<Seq<char>, u32>) -> SpecialTokens {
    let s = vocab_lookup(vocab, "<s>"@);
    let end_s = vocab_lookup(vocab, "</s>"@);
    let pad = vocab_lookup(vocab, "<pad>"@);
    SpecialTokens {
        bos_token_id: if s is Some { s } else { vocab_lookup(vocab, "<|begin_of_text|>"@) },
        eos_token_id: if end_s is Some { end_s } else { vocab_lookup(vocab, "<|end_of_text|>"@) },
        pad_token_id: if pad is Some { pad } else { vocab_lookup(vocab, "<|padding|>"@) },
        unk_token_id: vocab_lookup(vocab, "<unk>"@),
    }
}

/// A token sequence that starts with `bos`: unchanged if it already does,
/// otherwise with `bos` put in front.
pub open spec fn with_bos(tokens: Seq<u32>, bos: Option<u32>) -> Seq<u32> {
    match bos {
        Some(b) => if tokens.len() > 0 && tokens[0] == b { tokens } else { seq![b] + tokens },
        None => tokens,
    }
}

/// Puts the BOS token in front of `tokens` unless they already start with it;
/// without a BOS token the tokens stay as they are.
pub fn prepend_bos(tokens: Vec<u32>, bos: Option<u32>) -> (r: Vec<u32>)
    ensures
        r@ == with_bos(tokens@, bos),
{
    let ghost given = tokens@;
    let mut tokens = tokens;
    match bos {
        Some(b) => {
            if tokens.len() == 0 || tokens[0] != b {
                tokens.insert(0, b);
                proof {
                    assert(tokens@ =~= with_bos(given, bos));
                }
            }
        },
        None => {},
    }
    tokens
}

/// Putting the BOS token in front is done once: the result starts with it, and
/// doing it again changes nothing.
pub proof fn law_bos_added_once(tokens: Seq<u32>, bos: u32)
    ensures
        with_bos(tokens, Some(bos)).len() > 0,
        with_bos(tokens, Some(bos))[0] == bos,
        with_bos(with_bos(tokens, Some(bos)), Some(bos)) == with_bos(tokens, Some(bos)),
        tokens.len() > 0 && tokens[0] == bos ==> with_bos(tokens, Some(bos)) == tokens,
{
}

/// What an encoding outcome gives the caller: the ids as they are, or a
/// tokenization error `encoding failed: ` followed by the failure.
pub fn encoding_outcome(r: Result<Vec<u32>, String>) -> (o: Result<Vec<u32>, VortexError>)
    ensures
        match r {
            Ok(ids) => o matches Ok(v) && v@ == ids@,
            Err(e) => o matches Err(VortexError::TokenizationError(m)) && m@ == "encoding failed: "@ + e@,
        },
{
    match r {
        Ok(ids) => Ok(ids),
        Err(e) => Err(VortexError::TokenizationError(concat_str("encoding failed: ", e.as_str()))),
    }
}

/// What a decoding outcome gives the caller: the text as it is, or a
/// tokenization error `decoding failed: ` followed by the failure.
pub fn decoding_outcome(r: Result<String, String>) -> (o: Result<String, VortexError>)
    ensures
        match r {
            Ok(t) => o matches Ok(s) && s@ == t@,
            Err(e) => o matches Err(VortexError::TokenizationError(m)) && m@ == "decoding failed: "@ + e@,
        },
{
    match r {
        Ok(t) => Ok(t),
        Err(e) => Err(VortexError::TokenizationError(concat_str("decoding failed: ", e.as_str()))),
    }
}

/// A tokenization error whose message is `prefix` followed by some failure text.
pub open spec fn failed_with(e: VortexError, prefix: Seq<char>) -> bool {
    e matches VortexError::TokenizationError(m) && seq_starts_with(m@, prefix)
}

/// A loaded tokenizer with its metadata.
#[derive(Debug)]
pub struct LoadedTokenizer {
    /// The tokenizer itself.
    pub tokenizer: Tokenizer,
    /// Special token IDs.
    pub special_tokens: SpecialTokens,
    /// Chat template (if available).
    pub chat_template: Option<String>,
}

/// The message of the error for a handle without a tokenizer.
pub open spec fn no_tokenizer_message(handle: u64) -> Seq<char> {
    "no tokenizer for handle "@ + decimal_chars(handle as nat)
}

/// Service for managing tokenizers: one per model handle.
#[derive(Debug)]
pub struct TokenizerService {
    tokenizers: Vec<(u64, LoadedTokenizer)>,
}

impl TokenizerService {
    /// The loaded tokenizers as (handle number, tokenizer) pairs.
    pub closed spec fn entries(&self) -> Seq<(u64, LoadedTokenizer)> {
        self.tokenizers@
    }

    /// The loaded tokenizers by handle number.
    pub open spec fn loaded(&self) -> Map<u64, LoadedTokenizer> {
        assoc_map(self.entries())
    }

    /// No handle has two tokenizers.
    #[verifier::type_invariant]
    closed spec fn unique_handles(&self) -> bool {
        keys_unique(self.tokenizers@)
    }

    /// Create a new tokenizer service with no tokenizer loaded.
    pub fn new() -> (s: TokenizerService)
        ensures
            s.loaded() == Map::<u64, LoadedTokenizer>::empty(),
    {
        let s = TokenizerService { tokenizers: Vec::new() };
        proof {
            assert(s.entries() =~= Seq::empty());
        }
        s
    }

    fn find(&self, handle: u64) -> (r: Option<usize>)
        ensures
            match r {
                Some(i) => i < self.entries().len() && self.entries()[i as int].0 == handle,
                None => forall|i: int| 0 <= i < self.entries().len() ==> (#[trigger] self.entries()[i]).0 != handle,
            },
    {
        let n = self.tokenizers.len();
        let mut i: usize = 0;
        while i < n
            invariant
                n == self.tokenizers@.len(),
                i <= n,
                forall|k: int| 0 <= k < i ==> (#[trigger] self.entries()[k]).0 != handle,
            decreases n - i,
        {
            if self.tokenizers[i].0 == handle {
                return Some(i);
            }
            i = i + 1;
        }
        None
    }

    /// The tokenizer loaded for a handle.
    fn get(&self, handle: u64) -> (r: Option<&LoadedTokenizer>)
        ensures
            match r {
                Some(t) => self.loaded().contains_key(handle) && *t == self.loaded()[handle],
                None => !self.loaded().contains_key(handle),
            },
    {
        proof {
            use_type_invariant(self);
        }
        match self.find(handle) {
            Some(i) => {
                proof {
                    lemma_assoc_lookup(self.entries(), i as int);
                }
                Some(&self.tokenizers[i].1)
            },
            None => {
                proof {
                    lemma_assoc_dom(self.entries(), handle);
                }
                None
            },
        }
    }

    /// Stores a tokenizer for a handle, replacing the one it had.
    pub fn insert(&mut self, handle: ModelHandle, loaded: LoadedTokenizer)
        ensures
            final(self).loaded() == old(self).loaded().insert(handle.id(), loaded),
    {
        proof {
            use_type_invariant(&*self);
        }
        let h = handle.raw();
        let ghost e = self.entries();
        match self.find(h) {
            Some(i) => {
                proof {
                    lemma_assoc_update(e, i as int, loaded);
                }
                let mut tokenizers = Vec::new();
                std::mem::swap(&mut tokenizers, &mut self.tokenizers);
                tokenizers.set(i, (h, loaded));
                proof {
                    assert(tokenizers@ =~= e.update(i as int, (e[i as int].0, loaded)));
                }
                self.tokenizers = tokenizers;
            },
            None => {
                proof {
                    lemma_assoc_dom(e, h);
                    lemma_assoc_push_unique(e, h, loaded);
                }
                let mut tokenizers = Vec::new();
                std::mem::swap(&mut tokenizers, &mut self.tokenizers);
                tokenizers.push((h, loaded));
                self.tokenizers = tokenizers;
            },
        }
    }

    /// Load a tokenizer for a model from the contents of its `tokenizer.json`.
    ///
    /// The special tokens and chat template come from the model's
    /// `tokenizer_config.json` when it has one; otherwise the special tokens are
    /// looked up in the tokenizer's vocabulary and there is no chat template.
    /// Fails with a tokenization error, and changes nothing, when the definition
    /// does not parse.
    pub fn load(&mut self, handle: ModelHandle, tokenizer_json: &[u8], config: Option<TokenizerConfig>) -> (r: Result<(), VortexError>)
        ensures
            match r {
                Ok(()) => {
                    &&& final(self).loaded().dom() == old(self).loaded().dom().insert(handle.id())
                    &&& forall|h: u64| h != handle.id() && #[trigger] old(self).loaded().contains_key(h)
                        ==> final(self).loaded()[h] == old(self).loaded()[h]
                    &&& match config {
                        Some(c) => {
                            &&& final(self).loaded()[handle.id()].special_tokens.bos_token_id == narrow_id(c.bos_token_id)
                            &&& final(self).loaded()[handle.id()].special_tokens.eos_token_id == narrow_id(c.eos_token_id)
                            &&& final(self).loaded()[handle.id()].special_tokens.pad_token_id == narrow_id(c.pad_token_id)
                            &&& final(self).loaded()[handle.id()].special_tokens.unk_token_id == narrow_id(c.unk_token_id)
                            &&& final(self).loaded()[handle.id()].chat_template == c.chat_template
                        },
                        None => {
                            &&& final(self).loaded()[handle.id()].special_tokens == vocab_special_tokens(
                                tokenizer_vocab(final(self).loaded()[handle.id()].tokenizer),
                            )
                            &&& final(self).loaded()[handle.id()].chat_template is None
                        },
                    }
                },
                Err(e) => final(self).loaded() == old(self).loaded() && failed_with(e, "failed to load tokenizer: "@),
            },
            r is Ok <==> tokenizer_json_parses(tokenizer_json@),
    {
        let tokenizer = match tokenizer_from_bytes(tokenizer_json) {
            Ok(t) => t,
            Err(e) => {
                proof {
                    lemma_starts_with_concat("failed to load tokenizer: "@, e@);
                }
                return Err(VortexError::TokenizationError(concat_str("failed to load tokenizer: ", e.as_str())));
            },
        };
        let (special_tokens, chat_template) = match config {
            Some(c) => (special_tokens_from_config(&c), c.chat_template),
            None => (Self::extract_special_tokens(&tokenizer), None),
        };
        let loaded = LoadedTokenizer { tokenizer, special_tokens, chat_template };
        let ghost before = self.loaded();
        self.insert(handle, loaded);
        proof {
            assert(self.loaded().dom() =~= before.dom().insert(handle.id()));
        }
        Ok(())
    }

    /// Extract special tokens from the tokenizer's own vocabulary.
    pub fn extract_special_tokens(tokenizer: &Tokenizer) -> (t: SpecialTokens)
        ensures
            t == vocab_special_tokens(tokenizer_vocab(*tokenizer)),
    {
        special_tokens_from_vocab(
            tokenizer_vocab_id(tokenizer, "<s>"),
            tokenizer_vocab_id(tokenizer, "<|begin_of_text|>"),
            tokenizer_vocab_id(tokenizer, "</s>"),
            tokenizer_vocab_id(tokenizer, "<|end_of_text|>"),
            tokenizer_vocab_id(tokenizer, "<pad>"),
            tokenizer_vocab_id(tokenizer, "<|padding|>"),
            tokenizer_vocab_id(tokenizer, "<unk>"),
        )
    }

    /// Unload a tokenizer; unloading a handle without one is not an error.
    pub fn unload(&mut self, handle: ModelHandle) -> (r: Result<(), VortexError>)
        ensures
            r is Ok,
            final(self).loaded() == old(self).loaded().remove(handle.id()),
    {
        proof {
            use_type_invariant(&*self);
        }
        let h = handle.raw();
        let ghost e = self.entries();
        match self.find(h) {
            Some(i) => {
                proof {
                    lemma_assoc_lookup(e, i as int);
                    lemma_assoc_remove(e, i as int);
                }
                let mut tokenizers = Vec::new();
                std::mem::swap(&mut tokenizers, &mut self.tokenizers);
                let _removed = tokenizers.remove(i);
                proof {
                    assert(tokenizers@ =~= e.remove(i as int));
                }
                self.tokenizers = tokenizers;
            },
            None => {
                proof {
                    lemma_assoc_dom(e, h);
                    assert(assoc_map(e).remove(h) =~= assoc_map(e));
                }
            },
        }
        Ok(())
    }

    /// The error for a handle without a tokenizer.
    fn no_tokenizer(handle: ModelHandle) -> (e: VortexError)
        ensures
            e matches VortexError::TokenizationError(m) && m@ == no_tokenizer_message(handle.id()),
    {
        VortexError::TokenizationError(with_decimal("no tokenizer for handle ", handle.raw()))
    }

    /// Encode text to tokens (special tokens added as the tokenizer is set up to).
    ///
    /// Fails with a tokenization error when the handle has no tokenizer, or when
    /// the tokenizer fails to encode the text.
    pub fn encode(&self, handle: ModelHandle, text: &str) -> (r: Result<Vec<u32>, VortexError>)
        ensures
            !self.loaded().contains_key(handle.id()) ==> (r matches Err(VortexError::TokenizationError(m))
                && m@ == no_tokenizer_message(handle.id())),
            self.loaded().contains_key(handle.id()) && r is Err ==> failed_with(r->Err_0, "encoding failed: "@),
            r is Err ==> r->Err_0 is TokenizationError,
            self.loaded().contains_key(handle.id()) && !tokenizer_samples(self.loaded()[handle.id()].tokenizer) ==> {
                &&& (r is Ok <==> tokenizer_encoding(self.loaded()[handle.id()].tokenizer, text@, true) is Some)
                &&& (r is Ok ==> r->Ok_0@ == tokenizer_encoding(self.loaded()[handle.id()].tokenizer, text@, true)->Some_0)
            },
    {
        match self.get(handle.raw()) {
            None => Err(Self::no_tokenizer(handle)),
            Some(loaded) => {
                let out = tokenizer_encode(&loaded.tokenizer, text, true);
                proof {
                    if out is Err {
                        lemma_starts_with_concat("encoding failed: "@, out->Err_0@);
                    }
                }
                encoding_outcome(out)
            },
        }
    }

    /// Encode text, ensuring a BOS token is present at the start.
    ///
    /// The tokens are those of [`Self::encode`]; when the model has a BOS token
    /// and they do not already start with it, it is put in front. Fails exactly
    /// when `encode` fails.
    pub fn encode_with_bos(&self, handle: ModelHandle, text: &str) -> (r: Result<Vec<u32>, VortexError>)
        ensures
            !self.loaded().contains_key(handle.id()) ==> (r matches Err(VortexError::TokenizationError(m))
                && m@ == no_tokenizer_message(handle.id())),
            self.loaded().contains_key(handle.id()) && r is Err ==> failed_with(r->Err_0, "encoding failed: "@),
            r is Err ==> r->Err_0 is TokenizationError,
            r is Ok ==> exists|tokens: Seq<u32>| r->Ok_0@ == #[trigger] with_bos(
                tokens,
                self.loaded()[handle.id()].special_tokens.bos_token_id,
            ),
            self.loaded().contains_key(handle.id()) && !tokenizer_samples(self.loaded()[handle.id()].tokenizer) ==> {
                &&& (r is Ok <==> tokenizer_encoding(self.loaded()[handle.id()].tokenizer, text@, true) is Some)
                &&& (r is Ok ==> r->Ok_0@ == with_bos(
                    tokenizer_encoding(self.loaded()[handle.id()].tokenizer, text@, true)->Some_0,
                    self.loaded()[handle.id()].special_tokens.bos_token_id,
                ))
            },
    {
        let tokens = self.encode(handle, text)?;
        let bos = match self.get_special_tokens(handle) {
            Some(s) => s.bos_token_id,
            None => None,
        };
        let r = prepend_bos(tokens, bos);
        assert(with_bos(tokens@, self.loaded()[handle.id()].special_tokens.bos_token_id) == r@);
        Ok(r)
    }

    /// Decode tokens to text, leaving special tokens out.
    ///
    /// Fails with a tokenization error when the handle has no tokenizer, or when
    /// the tokenizer fails to decode.
    pub fn decode(&self, handle: ModelHandle, tokens: &[u32]) -> (r: Result<String, VortexError>)
        ensures
            !self.loaded().contains_key(handle.id()) ==> (r matches Err(VortexError::TokenizationError(m))
                && m@ == no_tokenizer_message(handle.id())),
            self.loaded().contains_key(handle.id()) && r is Err ==> failed_with(r->Err_0, "decoding failed: "@),
            r is Err ==> r->Err_0 is TokenizationError,
            self.loaded().contains_key(handle.id()) ==> {
                &&& (r is Ok <==> tokenizer_decoding(self.loaded()[handle.id()].tokenizer, tokens@, true) is Some)
                &&& (r is Ok ==> r->Ok_0@ == tokenizer_decoding(self.loaded()[handle.id()].tokenizer, tokens@, true)->Some_0)
            },
    {
        self.decode_tokens(handle, tokens, true)
    }

    /// Decode tokens, including special tokens in the output.
    ///
    /// Fails as [`Self::decode`] does.
    pub fn decode_with_special_tokens(&self, handle: ModelHandle, tokens: &[u32]) -> (r: Result<String, VortexError>)
        ensures
            !self.loaded().contains_key(handle.id()) ==> (r matches Err(VortexError::TokenizationError(m))
                && m@ == no_tokenizer_message(handle.id())),
            self.loaded().contains_key(handle.id()) && r is Err ==> failed_with(r->Err_0, "decoding failed: "@),
            r is Err ==> r->Err_0 is TokenizationError,
            self.loaded().contains_key(handle.id()) ==> {
                &&& (r is Ok <==> tokenizer_decoding(self.loaded()[handle.id()].tokenizer, tokens@, false) is Some)
                &&& (r is Ok ==> r->Ok_0@ == tokenizer_decoding(self.loaded()[handle.id()].tokenizer, tokens@, false)->Some_0)
            },
    {
        self.decode_tokens(handle, tokens, false)
    }

    fn decode_tokens(&self, handle: ModelHandle, tokens: &[u32], skip_special_tokens: bool) -> (r: Result<String, VortexError>)
        ensures
            !self.loaded().contains_key(handle.id()) ==> (r matches Err(VortexError::TokenizationError(m))
                && m@ == no_tokenizer_message(handle.id())),
            self.loaded().contains_key(handle.id()) && r is Err ==> failed_with(r->Err_0, "decoding failed: "@),
            r is Err ==> r->Err_0 is TokenizationError,
            self.loaded().contains_key(handle.id()) ==> {
                &&& (r is Ok <==> tokenizer_decoding(self.loaded()[handle.id()].tokenizer, tokens@, skip_special_tokens) is Some)
                &&& (r is Ok ==> r->Ok_0@ == tokenizer_decoding(self.loaded()[handle.id()].tokenizer, tokens@, skip_special_tokens)->Some_0)
            },
    {
        match self.get(handle.raw()) {
            None => Err(Self::no_tokenizer(handle)),
            Some(loaded) => {
                let out = tokenizer_decode(&loaded.tokenizer, tokens, skip_special_tokens);
                proof {
                    if out is Err {
                        lemma_starts_with_concat("decoding failed: "@, out->Err_0@);
                    }
                }
                decoding_outcome(out)
            },
        }
    }

    /// Whether the tokenizer of a handle may encode at random (see
    /// [`tokenizer_samples`]), if the handle has a tokenizer.
    pub fn is_sampling(&self, handle: ModelHandle) -> (r: Option<bool>)
        ensures
            r == (if self.loaded().contains_key(handle.id()) {
                Some(tokenizer_samples(self.loaded()[handle.id()].tokenizer))
            } else {
                None
            }),
    {
        match self.get(handle.raw()) {
            None => None,
            Some(loaded) => Some(tokenizer_model_samples(&loaded.tokenizer)),
        }
    }

    /// Vocabulary size (added tokens included), if the handle has a tokenizer.
    pub fn vocab_size(&self, handle: ModelHandle) -> (r: Option<usize>)
        ensures
            r == (if self.loaded().contains_key(handle.id()) {
                Some(tokenizer_vocab(self.loaded()[handle.id()].tokenizer).dom().len() as usize)
            } else {
                None
            }),
    {
        match self.get(handle.raw()) {
            None => None,
            Some(loaded) => Some(tokenizer_vocab_size(&loaded.tokenizer)),
        }
    }

    /// Get special tokens for a model.
    pub fn get_special_tokens(&self, handle: ModelHandle) -> (r: Option<SpecialTokens>)
        ensures
            r == (if self.loaded().contains_key(handle.id()) {
                Some(self.loaded()[handle.id()].special_tokens)
            } else {
                None
            }),
    {
        match self.get(handle.raw()) {
            None => None,
            Some(loaded) => Some(loaded.special_tokens),
        }
    }

    /// Check if a model has a chat template.
    pub fn has_chat_template(&self, handle: ModelHandle) -> (r: bool)
        ensures
            r == (self.loaded().contains_key(handle.id()) && self.loaded()[handle.id()].chat_template is Some),
    {
        match self.get(handle.raw()) {
            None => false,
            Some(loaded) => loaded.chat_template.is_some(),
        }
    }

    /// Apply the model's chat template to messages: its own template when it has
    /// one, else the plain `role: content` layout.
    ///
    /// Fails with a tokenization error when the handle has no tokenizer.
    pub fn apply_chat_template(
        &self,
        handle: ModelHandle,
        messages: &[ChatMessage],
        add_generation_prompt: bool,
    ) -> (r: Result<String, VortexError>)
        ensures
            match r {
                Ok(s) => self.loaded().contains_key(handle.id()) && s@ == match self.loaded()[handle.id()].chat_template {
                    Some(t) => jinja_text(t@, messages@, add_generation_prompt),
                    None => simple_text(messages@, add_generation_prompt),
                },
                Err(e) => !self.loaded().contains_key(handle.id())
                    && (e matches VortexError::TokenizationError(m) && m@ == no_tokenizer_message(handle.id())),
            },
    {
        match self.get(handle.raw()) {
            None => Err(Self::no_tokenizer(handle)),
            Some(loaded) => match &loaded.chat_template {
                Some(template) => Ok(apply_jinja_template(template.as_str(), messages, add_generation_prompt)),
                None => Ok(apply_simple_template(messages, add_generation_prompt)),
            },
        }
    }

    /// Check if a tokenizer is loaded for a handle.
    pub fn is_loaded(&self, handle: ModelHandle) -> (r: bool)
        ensures
            r == self.loaded().contains_key(handle.id()),
    {
        self.get(handle.raw()).is_some()
    }
}

impl Default for TokenizerService {
    /// A service with no tokenizer loaded.
    fn default() -> (s: TokenizerService)
        ensures
            s.loaded() == Map::<u64, LoadedTokenizer>::empty(),
    {
        TokenizerService::new()
    }
}

} // verus!
