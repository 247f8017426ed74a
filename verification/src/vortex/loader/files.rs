//! Choosing the weight files of a model from what the file system shows.
//!
//! The glue looks at the model path (is it a file, a directory, or missing?) and
//! lists a directory's entries as paths; these functions decide from that which
//! files to load, and which format a directory holds.

use vstd::prelude::*;
use vstd::string::StringSliceAdditionalSpecFns;
use vstd::utf8::encode_utf8;
use crate::text::{concat_str, seq_contains, seq_starts_with, str_contains, str_eq, str_starts_with, to_owned_string};
use crate::vortex::error::VortexError;
use crate::vortex::loader::types::{format_for_path, path_extension, spec_path_extension, ModelFormat};

verus! {

/// What a model path names on the file system.
#[derive(Debug, Clone, Copy, PartialEq, Eq, Structural)]
pub enum PathKind {
    /// A regular file.
    File,
    /// A directory.
    Directory,
    /// Nothing (or something that is neither).
    Missing,
}

/// The file name of the last component of a path (`Path::file_name`), if any.
pub uninterp spec fn spec_path_file_name(path: Seq<char>) -> Option<Seq<char>>;

/// The file name a path ends with.
///
/// Calls `Path::file_name`; the result depends on the path alone and is named
/// `spec_path_file_name`. A name taken from a `&str` is always valid UTF-8.
#[verifier::external_body]
fn path_file_name(path: &str) -> (r: Option<String>)
    ensures
        match r {
            Some(n) => spec_path_file_name(path@) == Some(n@),
            None => spec_path_file_name(path@) is None,
        },
{
    std::path::Path::new(path).file_name().and_then(|n| n.to_str()).map(|n| n.to_string())
}

/// Byte-wise lexicographic order (a prefix comes first).
pub open spec fn bytes_le(a: Seq<u8>, b: Seq<u8>) -> bool
    decreases a.len(),
{
    if a.len() == 0 {
        true
    } else if b.len() == 0 {
        false
    } else if a[0] != b[0] {
        a[0] < b[0]
    } else {
        bytes_le(a.drop_first(), b.drop_first())
    }
}

/// The order of paths: byte-wise on their UTF-8 encoding, as paths in one
/// directory sort.
pub open spec fn path_le(a: Seq<char>, b: Seq<char>) -> bool {
    bytes_le(encode_utf8(a), encode_utf8(b))
}

proof fn lemma_bytes_le_total(a: Seq<u8>, b: Seq<u8>)
    ensures
        bytes_le(a, b) || bytes_le(b, a),
    decreases a.len(),
{
    if a.len() > 0 && b.len() > 0 && a[0] == b[0] {
        lemma_bytes_le_total(a.drop_first(), b.drop_first());
    }
}

proof fn lemma_bytes_le_trans(a: Seq<u8>, b: Seq<u8>, c: Seq<u8>)
    requires
        bytes_le(a, b),
        bytes_le(b, c),
    ensures
        bytes_le(a, c),
    decreases a.len(),
{
    if a.len() > 0 && b.len() > 0 && c.len() > 0 && a[0] == b[0] && b[0] == c[0] {
        lemma_bytes_le_trans(a.drop_first(), b.drop_first(), c.drop_first());
    }
}

fn bytes_le_exec(a: &[u8], b: &[u8]) -> (r: bool)
    ensures
        r == bytes_le(a@, b@),
{
    let n = a.len();
    let m = b.len();
    let mut i: usize = 0;
    proof {
        assert(a@.skip(0) =~= a@);
        assert(b@.skip(0) =~= b@);
    }
    while i < n && i < m && a[i] == b[i]
        invariant
            n == a@.len(),
            m == b@.len(),
            i <= n,
            i <= m,
            bytes_le(a@, b@) == bytes_le(a@.skip(i as int), b@.skip(i as int)),
        decreases n - i,
    {
        proof {
            assert(a@.skip(i as int).drop_first() =~= a@.skip(i + 1));
            assert(b@.skip(i as int).drop_first() =~= b@.skip(i + 1));
        }
        i = i + 1;
    }
    if i == n {
        true
    } else if i == m {
        false
    } else {
        a[i] < b[i]
    }
}

/// Whether `a` sorts at or before `b` as paths.
pub fn path_le_exec(a: &str, b: &str) -> (r: bool)
    ensures
        r == path_le(a@, b@),
{
    bytes_le_exec(a.as_bytes(), b.as_bytes())
}

/// Whether a sequence of paths is in ascending order.
pub open spec fn paths_sorted(s: Seq<String>) -> bool {
    forall|i: int, j: int| 0 <= i < j < s.len() ==> path_le((#[trigger] s[i])@, (#[trigger] s[j])@)
}

/// Sorts paths in ascending order.
pub fn sort_paths(paths: Vec<String>) -> (r: Vec<String>)
    ensures
        paths_sorted(r@),
        r@.to_multiset() == paths@.to_multiset(),
{
    broadcast use vstd::seq_lib::group_to_multiset_ensures;

    let mut out: Vec<String> = Vec::new();
    let mut rest = paths;
    let ghost all = rest@;
    proof {
        assert(rest@.to_multiset() =~= all.to_multiset());
        assert(out@.to_multiset() =~= vstd::multiset::Multiset::<String>::empty());
    }
    while rest.len() > 0
        invariant
            paths_sorted(out@),
            out@.to_multiset().add(rest@.to_multiset()) == all.to_multiset(),
        decreases rest@.len(),
    {
        let ghost before_rest = rest@;
        let x = rest.pop().unwrap();
        proof {
            assert(before_rest =~= rest@.push(x));
        }
        let n = out.len();
        let mut i: usize = 0;
        while i < n && path_le_exec(out[i].as_str(), x.as_str())
            invariant
                n == out@.len(),
                i <= n,
                forall|k: int| 0 <= k < i ==> path_le((#[trigger] out@[k])@, x@),
            decreases n - i,
        {
            i = i + 1;
        }
        let ghost before = out@;
        proof {
            if i < n {
                lemma_bytes_le_total(encode_utf8(x@), encode_utf8(before[i as int]@));
            }
        }
        out.insert(i, x);
        proof {
            assert(out@ == before.insert(i as int, x));
            assert forall|a: int, b: int| 0 <= a < b < out@.len() implies path_le((#[trigger] out@[a])@, (#[trigger] out@[b])@) by {
                if b < i {
                    assert(out@[a] == before[a] && out@[b] == before[b]);
                } else if b == i {
                    assert(out@[a] == before[a]);
                } else if a < i {
                    assert(out@[a] == before[a] && out@[b] == before[b - 1]);
                    assert(path_le(before[a]@, before[b - 1]@));
                } else if a == i {
                    assert(out@[b] == before[b - 1]);
                    lemma_bytes_le_total(encode_utf8(x@), encode_utf8(before[i as int]@));
                    if (b - 1) as int > i as int {
                        assert(path_le(before[i as int]@, before[b - 1]@));
                        lemma_bytes_le_trans(encode_utf8(x@), encode_utf8(before[i as int]@), encode_utf8(before[b - 1]@));
                    }
                } else {
                    assert(out@[a] == before[a - 1] && out@[b] == before[b - 1]);
                }
            }
            vstd::seq_lib::to_multiset_insert(before, i as int, x);
            vstd::seq_lib::to_multiset_build(rest@, x);
            assert(out@.to_multiset() == before.to_multiset().insert(x));
            assert(before_rest.to_multiset() == rest@.to_multiset().insert(x));
            assert(out@.to_multiset().add(rest@.to_multiset()) =~= before.to_multiset().add(before_rest.to_multiset()));
        }
    }
    proof {
        assert(rest@.to_multiset() =~= vstd::multiset::Multiset::<String>::empty());
        assert(out@.to_multiset().add(rest@.to_multiset()) =~= out@.to_multiset());
    }
    out
}

/// Whether a sequence of paths is in strictly ascending order (so without
/// repetitions).
pub open spec fn paths_strictly_sorted(s: Seq<String>) -> bool {
    forall|i: int, j: int| 0 <= i < j < s.len() ==> path_le((#[trigger] s[i])@, (#[trigger] s[j])@) && s[i]@ != s[j]@
}

/// Whether some path of `s` is `p`.
pub open spec fn has_path(s: Seq<String>, p: Seq<char>) -> bool {
    exists|k: int| 0 <= k < s.len() && (#[trigger] s[k])@ == p
}

proof fn lemma_bytes_le_antisym(a: Seq<u8>, b: Seq<u8>)
    requires
        bytes_le(a, b),
        bytes_le(b, a),
    ensures
        a == b,
    decreases a.len(),
{
    if a.len() > 0 && b.len() > 0 {
        lemma_bytes_le_antisym(a.drop_first(), b.drop_first());
        assert(a =~= seq![a[0]] + a.drop_first());
        assert(b =~= seq![b[0]] + b.drop_first());
    } else {
        assert(a =~= b);
    }
}

proof fn lemma_path_le_antisym(a: Seq<char>, b: Seq<char>)
    requires
        path_le(a, b),
        path_le(b, a),
    ensures
        a == b,
{
    lemma_bytes_le_antisym(encode_utf8(a), encode_utf8(b));
    vstd::utf8::encode_utf8_decode_utf8(a);
    vstd::utf8::encode_utf8_decode_utf8(b);
}

/// The shard files a sharded model's index names: sorted, each once.
pub fn unique_shards(shards: Vec<String>) -> (r: Vec<String>)
    ensures
        paths_strictly_sorted(r@),
        forall|p: Seq<char>| has_path(r@, p) <==> has_path(shards@, p),
{
    broadcast use vstd::seq_lib::group_to_multiset_ensures;

    let ghost all = shards@;
    let sorted = sort_paths(shards);
    proof {
        assert forall|p: Seq<char>| has_path(sorted@, p) <==> has_path(all, p) by {
            if has_path(sorted@, p) {
                let k = choose|k: int| 0 <= k < sorted@.len() && (#[trigger] sorted@[k])@ == p;
                assert(sorted@.contains(sorted@[k]));
                assert(all.to_multiset().count(sorted@[k]) > 0);
                assert(all.contains(sorted@[k]));
            }
            if has_path(all, p) {
                let k = choose|k: int| 0 <= k < all.len() && (#[trigger] all[k])@ == p;
                assert(all.contains(all[k]));
                assert(sorted@.to_multiset().count(all[k]) > 0);
                assert(sorted@.contains(all[k]));
            }
        }
    }
    let mut out: Vec<String> = Vec::new();
    let n = sorted.len();
    let mut i: usize = 0;
    while i < n
        invariant
            n == sorted@.len(),
            paths_sorted(sorted@),
            i <= n,
            paths_strictly_sorted(out@),
            forall|p: Seq<char>| has_path(out@, p) <==> has_path(sorted@.take(i as int), p),
            out@.len() > 0 <==> i > 0,
            i > 0 ==> out@.last()@ == sorted@[i - 1]@,
        decreases n - i,
    {
        let ghost before = out@;
        let fresh = out.len() == 0 || !str_eq(out[out.len() - 1].as_str(), sorted[i].as_str());
        if fresh {
            out.push(sorted[i].clone());
            proof {
                assert forall|a: int, b: int| 0 <= a < b < out@.len() implies path_le((#[trigger] out@[a])@, (#[trigger] out@[b])@) && out@[a]@ != out@[b]@ by {
                    if b == out@.len() - 1 {
                        let last = before.last();
                        assert(out@[b] == sorted@[i as int]);
                        assert(out@[a] == before[a]);
                        assert(path_le(sorted@[i - 1]@, sorted@[i as int]@));
                        if a < before.len() - 1 {
                            assert(path_le(before[a]@, last@));
                        } else {
                            lemma_bytes_le_total(encode_utf8(last@), encode_utf8(last@));
                        }
                        lemma_bytes_le_trans(encode_utf8(before[a]@), encode_utf8(last@), encode_utf8(sorted@[i as int]@));
                        if before[a]@ == sorted@[i as int]@ {
                            lemma_path_le_antisym(last@, sorted@[i as int]@);
                        }
                    } else {
                        assert(out@[a] == before[a] && out@[b] == before[b]);
                    }
                }
            }
        }
        proof {
            let t = sorted@.take(i as int);
            assert(sorted@.take(i + 1) =~= t.push(sorted@[i as int]));
            assert forall|p: Seq<char>| has_path(out@, p) <==> has_path(sorted@.take(i + 1), p) by {
                let t1 = sorted@.take(i + 1);
                if has_path(out@, p) {
                    let k = choose|k: int| 0 <= k < out@.len() && (#[trigger] out@[k])@ == p;
                    if k < before.len() {
                        assert(before[k]@ == p);
                        assert(has_path(before, p));
                        let j = choose|j: int| 0 <= j < t.len() && (#[trigger] t[j])@ == p;
                        assert(t1[j] == t[j]);
                    } else {
                        assert(t1[i as int] == sorted@[i as int]);
                    }
                }
                if has_path(t1, p) {
                    let j = choose|j: int| 0 <= j < t1.len() && (#[trigger] t1[j])@ == p;
                    if j < i {
                        assert(t[j] == t1[j]);
                        assert(has_path(t, p));
                        assert(has_path(before, p));
                        let k = choose|k: int| 0 <= k < before.len() && (#[trigger] before[k])@ == p;
                        assert(out@[k] == before[k]);
                    } else if fresh {
                        assert(out@[out@.len() - 1] == sorted@[i as int]);
                    } else {
                        assert(out@[out@.len() - 1]@ == sorted@[i as int]@);
                    }
                }
            }
        }
        i = i + 1;
    }
    proof {
        assert(sorted@.take(n as int) =~= sorted@);
    }
    out
}

/// Whether a path's extension is exactly `ext` (compared as is, not ignoring case).
pub open spec fn has_extension(path: Seq<char>, ext: Seq<char>) -> bool {
    spec_path_extension(path) == Some(ext)
}

fn extension_is(path: &str, ext: &str) -> (r: bool)
    ensures
        r == has_extension(path@, ext@),
{
    match path_extension(path) {
        Some(e) => str_eq(e.as_str(), ext),
        None => false,
    }
}

/// Whether a directory entry is taken as a SafeTensors weight file: its extension
/// is `safetensors` and its name starts with `model` or contains `safetensors`.
pub open spec fn is_safetensors_weight(path: Seq<char>) -> bool {
    &&& has_extension(path, "safetensors"@)
    &&& {
        let name = match spec_path_file_name(path) {
            Some(n) => n,
            None => Seq::<char>::empty(),
        };
        seq_starts_with(name, "model"@) || seq_contains(name, "safetensors"@)
    }
}

fn safetensors_weight(path: &str) -> (r: bool)
    ensures
        r == is_safetensors_weight(path@),
{
    if !extension_is(path, "safetensors") {
        return false;
    }
    let name = match path_file_name(path) {
        Some(n) => n,
        None => String::new(),
    };
    str_starts_with(name.as_str(), "model") || str_contains(name.as_str(), "safetensors")
}

/// The listed entries taken as SafeTensors weight files, in listing order.
pub open spec fn safetensors_entries(entries: Seq<String>) -> Seq<String> {
    entries.filter(|e: String| is_safetensors_weight(e@))
}

/// The listed entries with the `gguf` extension, in listing order.
pub open spec fn gguf_entries(entries: Seq<String>) -> Seq<String> {
    entries.filter(|e: String| has_extension(e@, "gguf"@))
}

/// The SafeTensors weight files of a model.
///
/// For a file, the file itself if its extension is `safetensors`, else a load
/// error. For a directory, `model.safetensors` when it exists (`single_file`, the
/// joined path, given only then), else the listed entries taken as weight files;
/// a load error when there is none. A missing path gives `ModelNotFound`. The
/// files come sorted.
pub fn find_safetensors_files(
    model_path: &str,
    kind: PathKind,
    single_file: Option<String>,
    entries: &Vec<String>,
) -> (r: Result<Vec<String>, VortexError>)
    ensures
        match kind {
            PathKind::File => if has_extension(model_path@, "safetensors"@) {
                r is Ok && r->Ok_0@.len() == 1 && r->Ok_0@[0]@ == model_path@
            } else {
                r matches Err(VortexError::LoadFailed(m)) && m@ == "Unsupported file format: "@ + model_path@
            },
            PathKind::Missing => r matches Err(VortexError::ModelNotFound { path }) && path@ == model_path@,
            PathKind::Directory => {
                let files = match single_file {
                    Some(f) => seq![f],
                    None => safetensors_entries(entries@),
                };
                if files.len() == 0 {
                    r matches Err(VortexError::LoadFailed(m)) && m@ == "No SafeTensors files found in "@ + model_path@
                } else {
                    r is Ok && paths_sorted(r->Ok_0@) && r->Ok_0@.to_multiset() == files.to_multiset()
                }
            },
        },
{
    match kind {
        PathKind::File => {
            if extension_is(model_path, "safetensors") {
                let mut files: Vec<String> = Vec::new();
                files.push(to_owned_string(model_path));
                Ok(files)
            } else {
                Err(VortexError::LoadFailed(concat_str("Unsupported file format: ", model_path)))
            }
        },
        PathKind::Missing => Err(VortexError::ModelNotFound { path: to_owned_string(model_path) }),
        PathKind::Directory => {
            let mut files: Vec<String> = Vec::new();
            match single_file {
                Some(f) => {
                    files.push(f);
                    proof {
                        assert(files@ =~= seq![f]);
                    }
                },
                None => {
                    let n = entries.len();
                    let mut i: usize = 0;
                    while i < n
                        invariant
                            n == entries@.len(),
                            i <= n,
                            files@ == safetensors_entries(entries@.take(i as int)),
                        decreases n - i,
                    {
                        proof {
                            reveal(Seq::filter);
                            assert(entries@.take(i + 1).drop_last() =~= entries@.take(i as int));
                            assert(entries@.take(i + 1).last() == entries@[i as int]);
                        }
                        if safetensors_weight(entries[i].as_str()) {
                            files.push(entries[i].clone());
                        }
                        i = i + 1;
                    }
                    proof {
                        assert(entries@.take(n as int) =~= entries@);
                    }
                },
            }
            if files.len() == 0 {
                return Err(VortexError::LoadFailed(concat_str("No SafeTensors files found in ", model_path)));
            }
            Ok(sort_paths(files))
        },
    }
}

/// Whether a path is the first of a set of paths in path order.
pub open spec fn first_in_order(p: String, among: Seq<String>) -> bool {
    among.contains(p) && forall|i: int| 0 <= i < among.len() ==> path_le(p@, (#[trigger] among[i])@)
}

/// The GGUF file of a model.
///
/// For a file, the file itself if its extension is `gguf`, else a load error.
/// For a directory, the first (in path order) of the listed entries with the
/// `gguf` extension. A load error when there is none, or the path is missing.
pub fn find_gguf_file(model_path: &str, kind: PathKind, entries: &Vec<String>) -> (r: Result<String, VortexError>)
    ensures
        match kind {
            PathKind::File => if has_extension(model_path@, "gguf"@) {
                r is Ok && r->Ok_0@ == model_path@
            } else {
                r matches Err(VortexError::LoadFailed(m)) && m@ == "Expected GGUF file, got: "@ + model_path@
            },
            PathKind::Missing => r matches Err(VortexError::LoadFailed(m)) && m@ == "No GGUF file found in "@ + model_path@,
            PathKind::Directory => {
                let ggufs = gguf_entries(entries@);
                if ggufs.len() == 0 {
                    r matches Err(VortexError::LoadFailed(m)) && m@ == "No GGUF file found in "@ + model_path@
                } else {
                    r is Ok && first_in_order(r->Ok_0, ggufs)
                }
            },
        },
{
    broadcast use vstd::seq_lib::group_to_multiset_ensures;

    match kind {
        PathKind::File => {
            if extension_is(model_path, "gguf") {
                Ok(to_owned_string(model_path))
            } else {
                Err(VortexError::LoadFailed(concat_str("Expected GGUF file, got: ", model_path)))
            }
        },
        PathKind::Missing => Err(VortexError::LoadFailed(concat_str("No GGUF file found in ", model_path))),
        PathKind::Directory => {
            let mut ggufs: Vec<String> = Vec::new();
            let n = entries.len();
            let mut i: usize = 0;
            while i < n
                invariant
                    n == entries@.len(),
                    i <= n,
                    ggufs@ == gguf_entries(entries@.take(i as int)),
                decreases n - i,
            {
                proof {
                    reveal(Seq::filter);
                    assert(entries@.take(i + 1).drop_last() =~= entries@.take(i as int));
                    assert(entries@.take(i + 1).last() == entries@[i as int]);
                }
                if extension_is(entries[i].as_str(), "gguf") {
                    ggufs.push(entries[i].clone());
                }
                i = i + 1;
            }
            proof {
                assert(entries@.take(n as int) =~= entries@);
            }
            if ggufs.len() == 0 {
                return Err(VortexError::LoadFailed(concat_str("No GGUF file found in ", model_path)));
            }
            let ghost listed = ggufs@;
            let sorted = sort_paths(ggufs);
            proof {
                vstd::seq_lib::to_multiset_len(sorted@);
                vstd::seq_lib::to_multiset_len(listed);
                assert(sorted@.len() == listed.len());
                assert(sorted@.contains(sorted@[0]));
                assert(sorted@.to_multiset().count(sorted@[0]) > 0);
                assert(listed.to_multiset().count(sorted@[0]) > 0);
                assert(listed.contains(sorted@[0]));
                assert forall|k: int| 0 <= k < listed.len() implies path_le(sorted@[0]@, (#[trigger] listed[k])@) by {
                    assert(listed.to_multiset().count(listed[k]) > 0);
                    assert(sorted@.to_multiset().count(listed[k]) > 0);
                    assert(sorted@.contains(listed[k]));
                    let j = choose|j: int| 0 <= j < sorted@.len() && sorted@[j] == listed[k];
                    if j > 0 {
                        assert(path_le(sorted@[0]@, sorted@[j]@));
                    } else {
                        lemma_bytes_le_total(encode_utf8(sorted@[0]@), encode_utf8(sorted@[0]@));
                    }
                }
            }
            let first = sorted[0].clone();
            Ok(first)
        },
    }
}

/// The format a directory listing holds: GGUF if any entry has the `gguf`
/// extension (ignoring case), else SafeTensors if any has `safetensors`, else none.
pub open spec fn listing_format(entries: Seq<String>) -> Option<ModelFormat> {
    if exists|i: int| 0 <= i < entries.len() && format_for_path((#[trigger] entries[i])@) == Some(ModelFormat::Gguf) {
        Some(ModelFormat::Gguf)
    } else if exists|i: int| 0 <= i < entries.len() && format_for_path((#[trigger] entries[i])@) == Some(ModelFormat::SafeTensors) {
        Some(ModelFormat::SafeTensors)
    } else {
        None
    }
}

impl ModelFormat {
    /// Detect the model format of a path: for a directory (`entries` is its
    /// listing), GGUF if it holds a GGUF file, else SafeTensors if it holds one;
    /// for anything else (`entries` is `None`), the path's own extension.
    pub fn detect_from_directory(path: &str, entries: Option<&Vec<String>>) -> (r: Option<ModelFormat>)
        ensures
            r == match entries {
                Some(es) => listing_format(es@),
                None => format_for_path(path@),
            },
    {
        match entries {
            None => ModelFormat::from_extension(path),
            Some(es) => {
                let mut has_safetensors = false;
                let mut has_gguf = false;
                let n = es.len();
                let mut i: usize = 0;
                while i < n
                    invariant
                        n == es@.len(),
                        i <= n,
                        has_gguf == exists|k: int| 0 <= k < i && format_for_path((#[trigger] es@[k])@) == Some(ModelFormat::Gguf),
                        has_safetensors == exists|k: int| 0 <= k < i && format_for_path((#[trigger] es@[k])@) == Some(ModelFormat::SafeTensors),
                    decreases n - i,
                {
                    match ModelFormat::from_extension(es[i].as_str()) {
                        Some(ModelFormat::SafeTensors) => {
                            has_safetensors = true;
                        },
                        Some(ModelFormat::Gguf) => {
                            has_gguf = true;
                        },
                        None => {},
                    }
                    i = i + 1;
                }
                if has_gguf {
                    Some(ModelFormat::Gguf)
                } else if has_safetensors {
                    Some(ModelFormat::SafeTensors)
                } else {
                    None
                }
            },
        }
    }
}

} // verus!
