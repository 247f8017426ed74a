//! Model management: architectures, quantization types, model metadata and the
//! registry of available and loaded models.

use vstd::prelude::*;
use crate::assoc::{assoc_map, keys_unique, lemma_assoc_dom, lemma_assoc_lookup, lemma_assoc_push_unique, lemma_assoc_remove, lemma_assoc_update};
use crate::text::{push_char, seq_contains, text_lowercase, str_contains, str_eq, to_lowercase, to_owned_string};
use crate::vortex::error::VortexError;

verus! {

/// Supported model architectures.
#[derive(Debug, Clone, Copy, PartialEq, Eq, Structural)]
pub enum Architecture {
    /// Meta's LLaMA family (1, 2, 3).
    Llama,
    /// Mistral AI's Mistral.
    Mistral,
    /// Mistral AI's Mixtral (MoE).
    Mixtral,
    /// Microsoft's Phi family.
    Phi,
    /// Google's Gemma.
    Gemma,
    /// RWKV (linear attention).
    Rwkv,
    /// Alibaba's Qwen.
    Qwen,
    /// Unknown/unsupported.
    Unknown,
}

impl Default for Architecture {
    fn default() -> (a: Architecture)
        ensures
            a == Architecture::Unknown,
    {
        Architecture::Unknown
    }
}

/// The lowercase name of an architecture.
pub open spec fn architecture_name(a: Architecture) -> Seq<char> {
    match a {
        Architecture::Llama => "llama"@,
        Architecture::Mistral => "mistral"@,
        Architecture::Mixtral => "mixtral"@,
        Architecture::Phi => "phi"@,
        Architecture::Gemma => "gemma"@,
        Architecture::Rwkv => "rwkv"@,
        Architecture::Qwen => "qwen"@,
        Architecture::Unknown => "unknown"@,
    }
}

/// The architecture a lowercased entry of a config's `architectures` list names.
pub open spec fn arch_from_class_name(lower: Seq<char>) -> Option<Architecture> {
    if seq_contains(lower, "llama"@) {
        Some(Architecture::Llama)
    } else if seq_contains(lower, "mistral"@) && !seq_contains(lower, "mixtral"@) {
        Some(Architecture::Mistral)
    } else if seq_contains(lower, "mixtral"@) {
        Some(Architecture::Mixtral)
    } else if seq_contains(lower, "phi"@) {
        Some(Architecture::Phi)
    } else if seq_contains(lower, "gemma"@) {
        Some(Architecture::Gemma)
    } else if seq_contains(lower, "rwkv"@) {
        Some(Architecture::Rwkv)
    } else if seq_contains(lower, "qwen"@) {
        Some(Architecture::Qwen)
    } else {
        None
    }
}

/// Every named architecture is reached from a class name that names it and no
/// other: a first `architectures` entry whose lowercase contains the
/// architecture's name (`llama`, `mistral`, `mixtral`, `phi`, `gemma`, `rwkv`,
/// `qwen`) and no other of these names is detected as that architecture, whatever
/// follows it and whatever the model type says.
pub proof fn law_class_name_names_architecture(
    entry: Seq<char>,
    rest: Seq<Seq<char>>,
    model_type: Option<Seq<char>>,
    a: Architecture,
)
    requires
        a != Architecture::Unknown,
        seq_contains(text_lowercase(entry), architecture_name(a)),
        forall|b: Architecture| b != a && b != Architecture::Unknown
            ==> !seq_contains(text_lowercase(entry), #[trigger] architecture_name(b)),
    ensures
        detect_architecture(seq![entry] + rest, model_type) == a,
{
    let lower = text_lowercase(entry);
    let names = seq![entry] + rest;
    assert(names[0] == entry);
    assert(architecture_name(Architecture::Llama) == "llama"@);
    assert(architecture_name(Architecture::Mistral) == "mistral"@);
    assert(architecture_name(Architecture::Mixtral) == "mixtral"@);
    assert(architecture_name(Architecture::Phi) == "phi"@);
    assert(architecture_name(Architecture::Gemma) == "gemma"@);
    assert(architecture_name(Architecture::Rwkv) == "rwkv"@);
    assert(architecture_name(Architecture::Qwen) == "qwen"@);
    assert(arch_from_class_name(lower) == Some(a));
}

/// The architecture a lowercased `model_type` names.
pub open spec fn arch_from_model_type(lower: Seq<char>) -> Option<Architecture> {
    if seq_contains(lower, "llama"@) {
        Some(Architecture::Llama)
    } else if lower == "mistral"@ {
        Some(Architecture::Mistral)
    } else if lower == "mixtral"@ {
        Some(Architecture::Mixtral)
    } else if seq_contains(lower, "phi"@) {
        Some(Architecture::Phi)
    } else {
        None
    }
}

proof fn lemma_contains_itself(s: Seq<char>)
    ensures
        seq_contains(s, s),
{
    assert(s.subrange(0, s.len() as int) =~= s);
    assert(crate::text::occurs_at(s, s, 0));
}

proof fn lemma_first_char_absent(s: Seq<char>, needle: Seq<char>)
    requires
        needle.len() > 0,
        forall|i: int| 0 <= i && i + needle.len() <= s.len() ==> #[trigger] s[i] != needle[0],
    ensures
        !seq_contains(s, needle),
{
    if seq_contains(s, needle) {
        let i = choose|i: int| crate::text::occurs_at(s, needle, i);
        assert(s.subrange(i, i + needle.len())[0] == needle[0]);
        assert(s[i] == needle[0]);
    }
}

/// When no `architectures` entry names an architecture, the model type decides:
/// a model type that is, in lowercase, `llama`, `mistral`, `mixtral` or `phi` is
/// detected as that architecture.
pub proof fn law_model_type_names_architecture(names: Seq<Seq<char>>, model_type: Seq<char>, a: Architecture)
    requires
        first_class_arch(names) is None,
        a == Architecture::Llama || a == Architecture::Mistral || a == Architecture::Mixtral || a == Architecture::Phi,
        text_lowercase(model_type) == architecture_name(a),
    ensures
        detect_architecture(names, Some(model_type)) == a,
{
    let lower = text_lowercase(model_type);
    lemma_contains_itself(lower);
    reveal_strlit("llama");
    reveal_strlit("mistral");
    reveal_strlit("mixtral");
    reveal_strlit("phi");
    if a == Architecture::Mistral {
        assert(lower =~= seq!['m', 'i', 's', 't', 'r', 'a', 'l']);
        lemma_first_char_absent(lower, "llama"@);
    } else if a == Architecture::Mixtral {
        assert(lower =~= seq!['m', 'i', 'x', 't', 'r', 'a', 'l']);
        lemma_first_char_absent(lower, "llama"@);
        assert(lower != "mistral"@) by {
            assert(lower[2] != "mistral"@[2]);
        }
    } else if a == Architecture::Phi {
        assert(lower =~= seq!['p', 'h', 'i']);
        lemma_first_char_absent(lower, "llama"@);
        assert(lower != "mistral"@);
        assert(lower != "mixtral"@);
    }
}

/// The architecture named by the first entry of `names` that names one.
pub open spec fn first_class_arch(names: Seq<Seq<char>>) -> Option<Architecture>
    decreases names.len(),
{
    if names.len() == 0 {
        None
    } else {
        match arch_from_class_name(text_lowercase(names[0])) {
            Some(a) => Some(a),
            None => first_class_arch(names.drop_first()),
        }
    }
}

/// Architecture detection from a model config: the `architectures` entries decide
/// first, then `model_type`; otherwise the architecture is unknown.
pub open spec fn detect_architecture(names: Seq<Seq<char>>, model_type: Option<Seq<char>>) -> Architecture {
    match first_class_arch(names) {
        Some(a) => a,
        None => match model_type {
            Some(t) => match arch_from_model_type(text_lowercase(t)) {
                Some(a) => a,
                None => Architecture::Unknown,
            },
            None => Architecture::Unknown,
        },
    }
}

fn class_name_arch(name: &str) -> (r: Option<Architecture>)
    ensures
        r == arch_from_class_name(text_lowercase(name@)),
{
    let lower_s = to_lowercase(name);
    let lower = lower_s.as_str();
    if str_contains(lower, "llama") {
        return Some(Architecture::Llama);
    }
    if str_contains(lower, "mistral") && !str_contains(lower, "mixtral") {
        return Some(Architecture::Mistral);
    }
    if str_contains(lower, "mixtral") {
        return Some(Architecture::Mixtral);
    }
    if str_contains(lower, "phi") {
        return Some(Architecture::Phi);
    }
    if str_contains(lower, "gemma") {
        return Some(Architecture::Gemma);
    }
    if str_contains(lower, "rwkv") {
        return Some(Architecture::Rwkv);
    }
    if str_contains(lower, "qwen") {
        return Some(Architecture::Qwen);
    }
    None
}

impl Architecture {
    /// Detect the architecture from a model config's `architectures` entries (the
    /// string ones, in order) and its `model_type`.
    pub fn detect(architectures: &Vec<String>, model_type: Option<&str>) -> (a: Architecture)
        ensures
            a == detect_architecture(
                architectures@.map_values(|s: String| s@),
                match model_type { Some(t) => Some(t@), None => None },
            ),
    {
        let ghost names = architectures@.map_values(|s: String| s@);
        let n = architectures.len();
        let mut i: usize = 0;
        proof {
            assert(names.skip(0) =~= names);
        }
        while i < n
            invariant
                n == architectures@.len(),
                names == architectures@.map_values(|s: String| s@),
                i <= n,
                first_class_arch(names) == first_class_arch(names.skip(i as int)),
            decreases n - i,
        {
            let found = class_name_arch(architectures[i].as_str());
            proof {
                assert(names.skip(i as int)[0] == architectures@[i as int]@);
                assert(names.skip(i as int).drop_first() =~= names.skip(i + 1));
            }
            if let Some(a) = found {
                return a;
            }
            i = i + 1;
        }
        proof {
            assert(names.skip(n as int).len() == 0);
        }
        match model_type {
            Some(t) => {
                let lower_s = to_lowercase(t);
                let lower = lower_s.as_str();
                if str_contains(lower, "llama") {
                    return Architecture::Llama;
                }
                if str_eq(lower, "mistral") {
                    return Architecture::Mistral;
                }
                if str_eq(lower, "mixtral") {
                    return Architecture::Mixtral;
                }
                if str_contains(lower, "phi") {
                    return Architecture::Phi;
                }
                Architecture::Unknown
            },
            None => Architecture::Unknown,
        }
    }

    /// The lowercase name of the architecture.
    pub fn to_string(&self) -> (s: String)
        ensures
            s@ == architecture_name(*self),
    {
        let name = match self {
            Architecture::Llama => "llama",
            Architecture::Mistral => "mistral",
            Architecture::Mixtral => "mixtral",
            Architecture::Phi => "phi",
            Architecture::Gemma => "gemma",
            Architecture::Rwkv => "rwkv",
            Architecture::Qwen => "qwen",
            Architecture::Unknown => "unknown",
        };
        to_owned_string(name)
    }
}

/// Quantization types.
#[allow(non_camel_case_types)]
#[derive(Debug, Clone, Copy, PartialEq, Eq, Structural)]
pub enum Quantization {
    /// Full 32-bit precision.
    F32,
    /// Half precision (16-bit float).
    F16,
    /// Brain float 16.
    BF16,
    /// 8-bit quantization.
    Q8_0,
    /// 4-bit quantization.
    Q4_0,
    /// 4-bit K-quant (medium).
    Q4_K_M,
    /// 4-bit K-quant (small).
    Q4_K_S,
    /// 5-bit K-quant (medium).
    Q5_K_M,
    /// 5-bit K-quant (small).
    Q5_K_S,
}

impl Default for Quantization {
    fn default() -> (q: Quantization)
        ensures
            q == Quantization::F16,
    {
        Quantization::F16
    }
}

/// Opaque handle of a loaded model.
#[derive(Debug, Clone, Copy, PartialEq, Eq, Hash, Structural)]
pub struct ModelHandle(u64);

impl ModelHandle {
    /// The number this handle carries.
    pub closed spec fn id(&self) -> u64 {
        self.0
    }

    /// Creates a handle from its number.
    pub fn new(id: u64) -> (h: ModelHandle)
        ensures
            h.id() == id,
    {
        ModelHandle(id)
    }

    /// The number this handle carries.
    pub fn raw(&self) -> (id: u64)
        ensures
            id == self.id(),
    {
        self.0
    }
}

/// Information about a model.
#[derive(Debug)]
pub struct ModelInfo {
    /// Model name.
    pub name: String,
    /// Path to model files.
    pub path: String,
    /// Model architecture.
    pub architecture: Architecture,
    /// Number of parameters.
    pub parameters: u64,
    /// Maximum context length.
    pub context_length: usize,
    /// Quantization type.
    pub quantization: Quantization,
    /// Whether the model is currently loaded.
    pub loaded: bool,
    /// Memory usage in bytes (if loaded).
    pub memory_bytes: Option<u64>,
    /// Number of layers.
    pub num_layers: usize,
    /// Hidden size.
    pub hidden_size: usize,
    /// Number of attention heads.
    pub num_heads: usize,
    /// Vocabulary size.
    pub vocab_size: usize,
}

impl Clone for ModelInfo {
    fn clone(&self) -> (r: ModelInfo)
        ensures
            r == *self,
    {
        ModelInfo {
            name: self.name.clone(),
            path: self.path.clone(),
            architecture: self.architecture,
            parameters: self.parameters,
            context_length: self.context_length,
            quantization: self.quantization,
            loaded: self.loaded,
            memory_bytes: self.memory_bytes,
            num_layers: self.num_layers,
            hidden_size: self.hidden_size,
            num_heads: self.num_heads,
            vocab_size: self.vocab_size,
        }
    }
}


/// What one path component adds to a path's key: nothing for an empty component
/// (repeated or trailing `/`) or `.`, otherwise the component followed by `/`.
pub open spec fn component_key(part: Seq<char>) -> Seq<char> {
    if part.len() == 0 || part == seq!['.'] {
        Seq::empty()
    } else {
        part.push('/')
    }
}

/// The keys of the components of `p` from position `i` on, where `part` holds the
/// characters of the component read so far.
pub open spec fn components_key(p: Seq<char>, i: int, part: Seq<char>) -> Seq<char>
    decreases p.len() - i,
{
    if i >= p.len() {
        component_key(part)
    } else if p[i] == '/' {
        component_key(part) + components_key(p, i + 1, Seq::empty())
    } else {
        components_key(p, i + 1, part.push(p[i]))
    }
}

/// How a path starts: `/` for an absolute path, `./` for a relative path whose
/// first component is `.`, nothing otherwise.
pub open spec fn path_prefix(p: Seq<char>) -> Seq<char> {
    if p.len() > 0 && p[0] == '/' {
        seq!['/']
    } else if p.len() > 0 && p[0] == '.' && (p.len() == 1 || p[1] == '/') {
        seq!['.', '/']
    } else {
        Seq::empty()
    }
}

/// The key under which a path is registered: its components as a path compares
/// them. Repeated separators, a trailing separator and `.` components (but a
/// leading one) make no difference, so `/models//x/` and `/models/./x` have the
/// key of `/models/x`.
pub open spec fn path_key(p: Seq<char>) -> Seq<char> {
    path_prefix(p) + components_key(p, 0, Seq::empty())
}

/// Appends the key of the component `path[start..end]` to `out`.
fn push_component_key(out: &mut String, path: &str, start: usize, end: usize)
    requires
        start <= end <= path@.len(),
    ensures
        final(out)@ == old(out)@ + component_key(path@.subrange(start as int, end as int)),
{
    let ghost part = path@.subrange(start as int, end as int);
    if end == start {
        assert(out@ =~= old(out)@ + component_key(part));
        return;
    }
    if end == start + 1 && path.get_char(start) == '.' {
        assert(part =~= seq!['.']);
        assert(out@ =~= old(out)@ + component_key(part));
        return;
    }
    assert(part != seq!['.']) by {
        if end == start + 1 {
            assert(part[0] != '.');
        } else {
            assert(part.len() != 1);
        }
    }
    let mut k: usize = start;
    while k < end
        invariant
            start <= k <= end <= path@.len(),
            part == path@.subrange(start as int, end as int),
            out@ =~= old(out)@ + path@.subrange(start as int, k as int),
        decreases end - k,
    {
        push_char(out, path.get_char(k));
        proof {
            assert(path@.subrange(start as int, k + 1) =~= path@.subrange(start as int, k as int).push(path@[k as int]));
        }
        k = k + 1;
    }
    push_char(out, '/');
    assert(out@ =~= old(out)@ + component_key(part));
}

/// The key under which a path is registered (see [`path_key`]).
pub fn registry_key(path: &str) -> (k: String)
    ensures
        k@ == path_key(path@),
{
    let n = path.unicode_len();
    let ghost p = path@;
    let mut out = String::new();
    if n > 0 && path.get_char(0) == '/' {
        push_char(&mut out, '/');
    } else if n > 0 && path.get_char(0) == '.' && (n == 1 || path.get_char(1) == '/') {
        push_char(&mut out, '.');
        push_char(&mut out, '/');
    }
    assert(out@ =~= path_prefix(p));
    assert(p.subrange(0, 0) =~= Seq::<char>::empty());
    let mut start: usize = 0;
    let mut i: usize = 0;
    while i < n
        invariant
            n == p.len(),
            p == path@,
            start <= i <= n,
            out@ + components_key(p, i as int, p.subrange(start as int, i as int)) == path_key(p),
        decreases n - i,
    {
        let c = path.get_char(i);
        if c == '/' {
            let ghost before = out@;
            push_component_key(&mut out, path, start, i);
            proof {
                assert(p.subrange(i + 1, i + 1) =~= Seq::<char>::empty());
                assert(before + components_key(p, i as int, p.subrange(start as int, i as int))
                    == before + (component_key(p.subrange(start as int, i as int)) + components_key(p, i + 1, Seq::empty())));
                assert(out@ + components_key(p, i + 1, p.subrange(i + 1, i + 1)) =~= path_key(p));
            }
            start = i + 1;
        } else {
            proof {
                assert(p.subrange(start as int, i + 1) =~= p.subrange(start as int, i as int).push(p[i as int]));
            }
        }
        i = i + 1;
    }
    let ghost before = out@;
    push_component_key(&mut out, path, start, n);
    proof {
        assert(out@ =~= path_key(p));
    }
    out
}

/// The registry entries as (path, info) pairs.
pub open spec fn entries_view(s: Seq<(String, ModelInfo)>) -> Seq<(Seq<char>, ModelInfo)> {
    s.map_values(|e: (String, ModelInfo)| (e.0@, e.1))
}

/// The loaded models as (handle number, path) pairs.
pub open spec fn loaded_view(s: Seq<(ModelHandle, String)>) -> Seq<(u64, Seq<char>)> {
    s.map_values(|e: (ModelHandle, String)| (e.0.id(), e.1@))
}

/// The (handle, info) pairs of the loaded models whose path (by its key) is
/// registered, in the order the loaded models were recorded.
pub open spec fn loaded_infos(loaded: Seq<(u64, Seq<char>)>, registered: Map<Seq<char>, ModelInfo>) -> Seq<(u64, ModelInfo)>
    decreases loaded.len(),
{
    if loaded.len() == 0 {
        Seq::empty()
    } else {
        let rest = loaded_infos(loaded.drop_last(), registered);
        let (h, p) = loaded.last();
        if registered.contains_key(path_key(p)) {
            rest.push((h, registered[path_key(p)]))
        } else {
            rest
        }
    }
}

/// A registered model's info once it is loaded with the given memory use.
pub open spec fn as_loaded(info: ModelInfo, memory_bytes: u64) -> ModelInfo {
    ModelInfo { loaded: true, memory_bytes: Some(memory_bytes), ..info }
}

/// A registered model's info once it is unloaded.
pub open spec fn as_unloaded(info: ModelInfo) -> ModelInfo {
    ModelInfo { loaded: false, memory_bytes: None, ..info }
}

/// Registry for managing available and loaded models.
#[derive(Debug)]
pub struct ModelRegistry {
    /// Next handle to assign.
    next_handle: u64,
    /// Registered models by path key.
    models: Vec<(String, ModelInfo)>,
    /// Loaded models by handle.
    loaded: Vec<(ModelHandle, String)>,
}

impl ModelRegistry {
    /// The registered models, in registration order, as (path key, info) pairs.
    pub closed spec fn entries(&self) -> Seq<(Seq<char>, ModelInfo)> {
        entries_view(self.models@)
    }

    /// The registered models by path key (see [`path_key`]).
    pub open spec fn registered(&self) -> Map<Seq<char>, ModelInfo> {
        assoc_map(self.entries())
    }

    /// The loaded models, in loading order, as (handle number, path) pairs.
    pub closed spec fn loaded_entries(&self) -> Seq<(u64, Seq<char>)> {
        loaded_view(self.loaded@)
    }

    /// The loaded models: handle number to path.
    pub open spec fn loaded_paths(&self) -> Map<u64, Seq<char>> {
        assoc_map(self.loaded_entries())
    }

    /// The number the next handle will carry.
    pub closed spec fn next(&self) -> u64 {
        self.next_handle
    }

    /// No path key is registered twice and no handle is recorded twice.
    pub open spec fn wf(&self) -> bool {
        keys_unique(self.entries()) && keys_unique(self.loaded_entries())
    }

    /// Every recorded handle is below the next handle number.
    pub open spec fn handles_below_next(&self) -> bool {
        forall|h: u64| self.loaded_paths().contains_key(h) ==> h < self.next()
    }

    /// Create a new model registry: nothing registered or loaded, handles start at 1.
    pub fn new() -> (r: ModelRegistry)
        ensures
            r.wf(),
            r.registered() == Map::<Seq<char>, ModelInfo>::empty(),
            r.loaded_paths() == Map::<u64, Seq<char>>::empty(),
            r.next() == 1,
            r.handles_below_next(),
    {
        let r = ModelRegistry { next_handle: 1, models: Vec::new(), loaded: Vec::new() };
        proof {
            assert(r.entries() =~= Seq::empty());
            assert(r.loaded_entries() =~= Seq::empty());
        }
        r
    }

    fn find_key(&self, key: &str) -> (r: Option<usize>)
        ensures
            match r {
                Some(i) => i < self.entries().len() && self.entries()[i as int].0 == key@,
                None => forall|i: int| 0 <= i < self.entries().len() ==> (#[trigger] self.entries()[i]).0 != key@,
            },
    {
        let n = self.models.len();
        let mut i: usize = 0;
        while i < n
            invariant
                n == self.models@.len(),
                i <= n,
                forall|k: int| 0 <= k < i ==> (#[trigger] self.entries()[k]).0 != key@,
            decreases n - i,
        {
            if str_eq(self.models[i].0.as_str(), key) {
                return Some(i);
            }
            i = i + 1;
        }
        None
    }

    fn find_loaded(&self, handle: ModelHandle) -> (r: Option<usize>)
        ensures
            match r {
                Some(i) => i < self.loaded_entries().len() && self.loaded_entries()[i as int].0 == handle.id(),
                None => forall|i: int| 0 <= i < self.loaded_entries().len() ==> (#[trigger] self.loaded_entries()[i]).0 != handle.id(),
            },
    {
        let n = self.loaded.len();
        let mut i: usize = 0;
        while i < n
            invariant
                n == self.loaded@.len(),
                i <= n,
                forall|k: int| 0 <= k < i ==> (#[trigger] self.loaded_entries()[k]).0 != handle.id(),
            decreases n - i,
        {
            if self.loaded[i].0.0 == handle.0 {
                return Some(i);
            }
            i = i + 1;
        }
        None
    }

    /// Register a model under a path, replacing what was registered under a path
    /// with the same components.
    pub fn register(&mut self, path: String, info: ModelInfo) -> (r: Result<(), VortexError>)
        requires
            old(self).wf(),
        ensures
            final(self).wf(),
            r is Ok,
            final(self).registered() == old(self).registered().insert(path_key(path@), info),
            final(self).loaded_paths() == old(self).loaded_paths(),
            final(self).next() == old(self).next(),
    {
        let ghost e = self.entries();
        let key = registry_key(path.as_str());
        match self.find_key(key.as_str()) {
            Some(i) => {
                proof {
                    lemma_assoc_update(e, i as int, info);
                }
                self.models.set(i, (key, info));
                proof {
                    assert(self.entries() =~= e.update(i as int, (e[i as int].0, info)));
                }
            },
            None => {
                proof {
                    lemma_assoc_dom(e, key@);
                    lemma_assoc_push_unique(e, key@, info);
                }
                self.models.push((key, info));
                proof {
                    assert(self.entries() =~= e.push((path_key(path@), info)));
                }
            },
        }
        Ok(())
    }

    /// Get information about a registered model (under any path with the same
    /// components).
    pub fn get_info(&self, path: &str) -> (r: Option<ModelInfo>)
        requires
            self.wf(),
        ensures
            r == (if self.registered().contains_key(path_key(path@)) {
                Some(self.registered()[path_key(path@)])
            } else {
                None
            }),
    {
        let key = registry_key(path);
        match self.find_key(key.as_str()) {
            Some(i) => {
                proof {
                    lemma_assoc_lookup(self.entries(), i as int);
                }
                Some(self.models[i].1.clone())
            },
            None => {
                proof {
                    lemma_assoc_dom(self.entries(), key@);
                }
                None
            },
        }
    }

    /// Record the model at `path` as loaded under a fresh handle.
    ///
    /// The handle is the next handle number (numbers advance by one, wrapping); if the
    /// path is registered, its info is marked loaded with the given memory use.
    pub fn mark_loaded(&mut self, path: &str, memory_bytes: u64) -> (r: Result<ModelHandle, VortexError>)
        requires
            old(self).wf(),
        ensures
            final(self).wf(),
            r is Ok,
            r->Ok_0.id() == old(self).next(),
            final(self).next() == old(self).next().wrapping_add(1),
            final(self).loaded_paths() == old(self).loaded_paths().insert(old(self).next(), path@),
            final(self).registered() == (if old(self).registered().contains_key(path_key(path@)) {
                old(self).registered().insert(
                    path_key(path@),
                    as_loaded(old(self).registered()[path_key(path@)], memory_bytes),
                )
            } else {
                old(self).registered()
            }),
    {
        let handle = ModelHandle(self.next_handle);
        self.next_handle = self.next_handle.wrapping_add(1);
        let ghost e = self.entries();
        let key = registry_key(path);
        match self.find_key(key.as_str()) {
            Some(i) => {
                let (p, info) = self.models.remove(i);
                proof {
                    lemma_assoc_lookup(e, i as int);
                }
                let updated = ModelInfo { loaded: true, memory_bytes: Some(memory_bytes), ..info };
                self.models.insert(i, (p, updated));
                proof {
                    lemma_assoc_update(e, i as int, updated);
                    assert(self.entries() =~= e.update(i as int, (e[i as int].0, updated)));
                }
            },
            None => {
                proof {
                    lemma_assoc_dom(e, key@);
                }
            },
        }
        let ghost l = self.loaded_entries();
        let owned = to_owned_string(path);
        match self.find_loaded(handle) {
            Some(j) => {
                proof {
                    lemma_assoc_update(l, j as int, path@);
                }
                self.loaded.set(j, (handle, owned));
                proof {
                    assert(self.loaded_entries() =~= l.update(j as int, (l[j as int].0, path@)));
                }
            },
            None => {
                proof {
                    lemma_assoc_dom(l, handle.id());
                    lemma_assoc_push_unique(l, handle.id(), path@);
                }
                self.loaded.push((handle, owned));
                proof {
                    assert(self.loaded_entries() =~= l.push((handle.id(), path@)));
                }
            },
        }
        Ok(handle)
    }

    /// Record a model as unloaded: its handle becomes invalid and, if its path is
    /// registered, its info is marked unloaded with no memory use.
    pub fn mark_unloaded(&mut self, handle: ModelHandle) -> (r: Result<(), VortexError>)
        requires
            old(self).wf(),
        ensures
            final(self).wf(),
            r is Ok,
            final(self).next() == old(self).next(),
            final(self).loaded_paths() == old(self).loaded_paths().remove(handle.id()),
            final(self).registered() == (if old(self).loaded_paths().contains_key(handle.id())
                && old(self).registered().contains_key(path_key(old(self).loaded_paths()[handle.id()])) {
                old(self).registered().insert(
                    path_key(old(self).loaded_paths()[handle.id()]),
                    as_unloaded(old(self).registered()[path_key(old(self).loaded_paths()[handle.id()])]),
                )
            } else {
                old(self).registered()
            }),
    {
        let ghost l = self.loaded_entries();
        let ghost e = self.entries();
        match self.find_loaded(handle) {
            Some(j) => {
                proof {
                    lemma_assoc_lookup(l, j as int);
                    lemma_assoc_remove(l, j as int);
                }
                let (_h, path) = self.loaded.remove(j);
                proof {
                    assert(self.loaded_entries() =~= l.remove(j as int));
                }
                let key = registry_key(path.as_str());
                match self.find_key(key.as_str()) {
                    Some(i) => {
                        let (p, info) = self.models.remove(i);
                        proof {
                            lemma_assoc_lookup(e, i as int);
                        }
                        let updated = ModelInfo { loaded: false, memory_bytes: None, ..info };
                        self.models.insert(i, (p, updated));
                        proof {
                            lemma_assoc_update(e, i as int, updated);
                            assert(self.entries() =~= e.update(i as int, (e[i as int].0, updated)));
                        }
                    },
                    None => {
                        proof {
                            lemma_assoc_dom(e, key@);
                        }
                    },
                }
            },
            None => {
                proof {
                    lemma_assoc_dom(l, handle.id());
                    assert(l == self.loaded_entries());
                    assert(assoc_map(l).remove(handle.id()) =~= assoc_map(l));
                }
            },
        }
        Ok(())
    }

    /// The path of a loaded model.
    pub fn get_path(&self, handle: ModelHandle) -> (r: Option<String>)
        requires
            self.wf(),
        ensures
            match r {
                Some(p) => self.loaded_paths().contains_key(handle.id()) && p@ == self.loaded_paths()[handle.id()],
                None => !self.loaded_paths().contains_key(handle.id()),
            },
    {
        match self.find_loaded(handle) {
            Some(j) => {
                proof {
                    lemma_assoc_lookup(self.loaded_entries(), j as int);
                }
                Some(self.loaded[j].1.clone())
            },
            None => {
                proof {
                    lemma_assoc_dom(self.loaded_entries(), handle.id());
                }
                None
            },
        }
    }

    /// Whether a handle names a loaded model.
    pub fn is_valid(&self, handle: ModelHandle) -> (r: bool)
        requires
            self.wf(),
        ensures
            r == self.loaded_paths().contains_key(handle.id()),
    {
        proof {
            lemma_assoc_dom(self.loaded_entries(), handle.id());
        }
        self.find_loaded(handle).is_some()
    }

    /// The infos of all registered models, in registration order.
    pub fn list(&self) -> (r: Vec<ModelInfo>)
        ensures
            r@ == self.entries().map_values(|e: (Seq<char>, ModelInfo)| e.1),
    {
        let mut out: Vec<ModelInfo> = Vec::new();
        let n = self.models.len();
        let mut i: usize = 0;
        while i < n
            invariant
                n == self.models@.len(),
                i <= n,
                out@ =~= self.entries().take(i as int).map_values(|e: (Seq<char>, ModelInfo)| e.1),
            decreases n - i,
        {
            out.push(self.models[i].1.clone());
            proof {
                assert(self.entries().take(i + 1) =~= self.entries().take(i as int).push(self.entries()[i as int]));
            }
            i = i + 1;
        }
        proof {
            assert(self.entries().take(n as int) =~= self.entries());
        }
        out
    }

    /// The loaded models whose path is registered, with their infos, in loading order.
    pub fn list_loaded(&self) -> (r: Vec<(ModelHandle, ModelInfo)>)
        requires
            self.wf(),
        ensures
            r@.map_values(|e: (ModelHandle, ModelInfo)| (e.0.id(), e.1))
                == loaded_infos(self.loaded_entries(), self.registered()),
    {
        let mut out: Vec<(ModelHandle, ModelInfo)> = Vec::new();
        let n = self.loaded.len();
        let mut i: usize = 0;
        while i < n
            invariant
                self.wf(),
                n == self.loaded@.len(),
                i <= n,
                out@.map_values(|e: (ModelHandle, ModelInfo)| (e.0.id(), e.1))
                    =~= loaded_infos(self.loaded_entries().take(i as int), self.registered()),
            decreases n - i,
        {
            let h = self.loaded[i].0;
            let ghost before = out@;
            match self.get_info(self.loaded[i].1.as_str()) {
                Some(info) => {
                    out.push((h, info));
                },
                None => {},
            }
            proof {
                assert(self.loaded_entries().take(i + 1).drop_last() =~= self.loaded_entries().take(i as int));
                assert(self.loaded_entries().take(i + 1).last() == self.loaded_entries()[i as int]);
                assert(out@.map_values(|e: (ModelHandle, ModelInfo)| (e.0.id(), e.1))
                    =~= loaded_infos(self.loaded_entries().take(i + 1), self.registered()));
            }
            i = i + 1;
        }
        proof {
            assert(self.loaded_entries().take(n as int) =~= self.loaded_entries());
        }
        out
    }
}

/// After registering a model, its info is what a lookup of its path returns, and
/// of any path with the same components.
pub proof fn law_register_then_get(r: ModelRegistry, path: Seq<char>, other: Seq<char>, info: ModelInfo)
    requires
        path_key(other) == path_key(path),
    ensures
        r.registered().insert(path_key(path), info).contains_key(path_key(other)),
        r.registered().insert(path_key(path), info)[path_key(other)] == info,
{
}

/// A handle handed out by `mark_loaded` was not valid before (as long as handle
/// numbers have not wrapped around), and is valid after.
pub proof fn law_mark_loaded_gives_fresh_handle(r: ModelRegistry, path: Seq<char>)
    requires
        r.handles_below_next(),
        r.next() < u64::MAX,
    ensures
        !r.loaded_paths().contains_key(r.next()),
        r.loaded_paths().insert(r.next(), path).contains_key(r.next()),
        forall|h: u64| #[trigger] r.loaded_paths().insert(r.next(), path).contains_key(h)
            ==> h < r.next().wrapping_add(1),
{
}

/// Unloading a handle makes it invalid; loading then unloading a fresh handle
/// leaves the set of loaded models as it was.
pub proof fn law_load_then_unload(r: ModelRegistry, path: Seq<char>)
    requires
        r.handles_below_next(),
    ensures
        !r.loaded_paths().insert(r.next(), path).remove(r.next()).contains_key(r.next()),
        r.loaded_paths().insert(r.next(), path).remove(r.next()) == r.loaded_paths(),
{
    assert(r.loaded_paths().insert(r.next(), path).remove(r.next()) =~= r.loaded_paths());
}

} // verus!
