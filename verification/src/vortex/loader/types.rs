//! Weight formats and quantization names.

use vstd::prelude::*;
use vstd::string::StringSliceAdditionalSpecFns;
use crate::text::{
    is_ascii_digit, push_char, seq_contains, seq_starts_with, text_lowercase, text_uppercase,
    str_contains, str_eq, to_lowercase, to_owned_string, to_uppercase,
};
use crate::vortex::error::VortexError;
use crate::vortex::loader::config::{param_formula, param_steps_fit};

verus! {

/// Model weight file format.
#[derive(Debug, Clone, Copy, PartialEq, Eq, Structural)]
pub enum ModelFormat {
    /// SafeTensors format (full precision F16/F32).
    SafeTensors,
    /// GGUF format (quantized models: Q4, Q8, etc.).
    Gguf,
}

/// The extension of the last component of a path (`Path::extension`), if any.
pub uninterp spec fn spec_path_extension(path: Seq<char>) -> Option<Seq<char>>;

/// The extension of the file a path names.
///
/// Calls `Path::extension`; the result depends on the path alone and is named
/// `spec_path_extension`. An extension taken from a `&str` is always valid UTF-8.
#[verifier::external_body]
pub(crate) fn path_extension(path: &str) -> (r: Option<String>)
    ensures
        match r {
            Some(e) => spec_path_extension(path@) == Some(e@),
            None => spec_path_extension(path@) is None,
        },
{
    std::path::Path::new(path).extension().and_then(|e| e.to_str()).map(|e| e.to_string())
}

/// The format a path's extension names, ignoring case.
pub open spec fn format_for_path(path: Seq<char>) -> Option<ModelFormat> {
    match spec_path_extension(path) {
        Some(ext) => if text_lowercase(ext) == "safetensors"@ {
            Some(ModelFormat::SafeTensors)
        } else if text_lowercase(ext) == "gguf"@ {
            Some(ModelFormat::Gguf)
        } else {
            None
        },
        None => None,
    }
}

impl ModelFormat {
    /// Detect the model format from a path's extension (`safetensors` or `gguf`,
    /// ignoring case); `None` if the extension is missing or not recognised.
    pub fn from_extension(path: &str) -> (r: Option<ModelFormat>)
        ensures
            r == format_for_path(path@),
    {
        match path_extension(path) {
            Some(ext) => {
                let lower_s = to_lowercase(ext.as_str());
                let lower = lower_s.as_str();
                if str_eq(lower, "safetensors") {
                    Some(ModelFormat::SafeTensors)
                } else if str_eq(lower, "gguf") {
                    Some(ModelFormat::Gguf)
                } else {
                    None
                }
            },
            None => None,
        }
    }
}

/// Bits per weight that an uppercased quantization name implies: the first of
/// Q2, Q3, Q4, Q5, Q6, Q8, F16 that it contains, else 4.
pub open spec fn bits_for_upper(u: Seq<char>) -> u8 {
    if seq_contains(u, "Q2"@) { 2 }
    else if seq_contains(u, "Q3"@) { 3 }
    else if seq_contains(u, "Q4"@) { 4 }
    else if seq_contains(u, "Q5"@) { 5 }
    else if seq_contains(u, "Q6"@) { 6 }
    else if seq_contains(u, "Q8"@) { 8 }
    else if seq_contains(u, "F16"@) { 16 }
    else { 4 }
}

/// `Q` followed by the decimal digit of `n` (for `n` below ten).
pub open spec fn q_marker(n: int) -> Seq<char> {
    seq!['Q', (48 + n) as char]
}

/// The sizes a quantization name can carry, in the order they are looked for.
pub open spec fn is_named_size(n: int) -> bool {
    n == 2 || n == 3 || n == 4 || n == 5 || n == 6 || n == 8
}

proof fn lemma_size_markers()
    ensures
        "Q2"@ == q_marker(2),
        "Q3"@ == q_marker(3),
        "Q4"@ == q_marker(4),
        "Q5"@ == q_marker(5),
        "Q6"@ == q_marker(6),
        "Q8"@ == q_marker(8),
{
    reveal_strlit("Q2");
    reveal_strlit("Q3");
    reveal_strlit("Q4");
    reveal_strlit("Q5");
    reveal_strlit("Q6");
    reveal_strlit("Q8");
    assert("Q2"@ =~= q_marker(2));
    assert("Q3"@ =~= q_marker(3));
    assert("Q4"@ =~= q_marker(4));
    assert("Q5"@ =~= q_marker(5));
    assert("Q6"@ =~= q_marker(6));
    assert("Q8"@ =~= q_marker(8));
}

/// The bits per weight are the number an uppercased quantization name carries:
/// when it contains `Qn` for a size n (2, 3, 4, 5, 6 or 8) and no `Qk` for a size k
/// below n, the weights take n bits. Without any `Qn`, `F16` means 16 bits and
/// anything else 4.
pub proof fn law_bits_are_the_named_number(u: Seq<char>, n: int)
    ensures
        is_named_size(n) && seq_contains(u, q_marker(n))
            && (forall|k: int| is_named_size(k) && k < n ==> !seq_contains(u, #[trigger] q_marker(k)))
            ==> bits_for_upper(u) == n,
        (forall|k: int| is_named_size(k) ==> !seq_contains(u, #[trigger] q_marker(k)))
            ==> bits_for_upper(u) == (if seq_contains(u, "F16"@) { 16u8 } else { 4u8 }),
{
    lemma_size_markers();
    if forall|k: int| is_named_size(k) ==> !seq_contains(u, #[trigger] q_marker(k)) {
        assert(!seq_contains(u, q_marker(2)));
        assert(!seq_contains(u, q_marker(3)));
        assert(!seq_contains(u, q_marker(4)));
        assert(!seq_contains(u, q_marker(5)));
        assert(!seq_contains(u, q_marker(6)));
        assert(!seq_contains(u, q_marker(8)));
    }
    if is_named_size(n) && seq_contains(u, q_marker(n))
        && (forall|k: int| is_named_size(k) && k < n ==> !seq_contains(u, #[trigger] q_marker(k))) {
        if n > 2 { assert(!seq_contains(u, q_marker(2))); }
        if n > 3 { assert(!seq_contains(u, q_marker(3))); }
        if n > 4 { assert(!seq_contains(u, q_marker(4))); }
        if n > 5 { assert(!seq_contains(u, q_marker(5))); }
        if n > 6 { assert(!seq_contains(u, q_marker(6))); }
    }
}

/// Estimate bits per weight from a quantization type string (case-insensitive);
/// unknown types count as 4 bits.
pub fn estimate_bits_from_quantization(quant_type: &str) -> (b: u8)
    ensures
        b == bits_for_upper(text_uppercase(quant_type@)),
{
    let upper_s = to_uppercase(quant_type);
    let upper = upper_s.as_str();
    if str_contains(upper, "Q2") {
        2
    } else if str_contains(upper, "Q3") {
        3
    } else if str_contains(upper, "Q4") {
        4
    } else if str_contains(upper, "Q5") {
        5
    } else if str_contains(upper, "Q6") {
        6
    } else if str_contains(upper, "Q8") {
        8
    } else if str_contains(upper, "F16") {
        16
    } else {
        4
    }
}

/// Estimated memory of a quantized model: `parameters * bits / 8` bytes plus a
/// tenth (saturating) for block metadata and padding.
pub open spec fn quantized_memory(bits: int, parameters: int) -> int {
    let base = parameters * bits / 8;
    if base + base / 10 <= u64::MAX { base + base / 10 } else { u64::MAX as int }
}

/// Estimate the memory use of a quantized model from its quantization name and
/// parameter count (for counts whose bit total, `parameters` times the bits per
/// weight, fits in `u64`).
pub fn estimate_quantized_memory_bytes(quantization: &str, parameters: u64) -> (r: u64)
    requires
        parameters * bits_for_upper(text_uppercase(quantization@)) <= u64::MAX,
    ensures
        r == quantized_memory(bits_for_upper(text_uppercase(quantization@)) as int, parameters as int),
{
    let bits = estimate_bits_from_quantization(quantization);
    let base = parameters * (bits as u64) / 8;
    let extra = base / 10;
    match base.checked_add(extra) {
        Some(v) => v,
        None => u64::MAX,
    }
}

/// The bytes per parameter of a full-precision model: four in F32, two otherwise.
pub open spec fn bytes_per_param(is_f32: bool) -> int {
    if is_f32 { 4 } else { 2 }
}

/// Estimate the memory use of a full-precision model from its parameter count and
/// whether it computes in F32.
pub fn full_precision_memory_bytes(parameters: u64, is_f32: bool) -> (r: u64)
    requires
        parameters * bytes_per_param(is_f32) <= u64::MAX,
    ensures
        r == parameters * bytes_per_param(is_f32),
{
    let per: u64 = if is_f32 { 4 } else { 2 };
    parameters * per
}

/// The quantization tags recognised in file names, most specific first.
pub open spec fn quant_patterns() -> Seq<Seq<char>> {
    seq![
        "q2_k_s"@, "q2_k_m"@, "q2_k_l"@, "q2_k"@, "q3_k_s"@, "q3_k_m"@, "q3_k_l"@, "q3_k"@,
        "q4_k_s"@, "q4_k_m"@, "q4_k_l"@, "q4_k"@, "q5_k_s"@, "q5_k_m"@, "q5_k_l"@, "q5_k"@,
        "q6_k_s"@, "q6_k_m"@, "q6_k_l"@, "q6_k"@,
        "q4_0"@, "q4_1"@, "q5_0"@, "q5_1"@, "q8_0"@, "q8_1"@,
        "f16"@, "f32"@, "bf16"@,
        "iq1_s"@, "iq1_m"@, "iq2_xxs"@, "iq2_xs"@, "iq2_s"@, "iq2_m"@, "iq3_xxs"@, "iq3_xs"@, "iq3_s"@,
        "iq3_m"@, "iq4_xs"@, "iq4_nl"@,
    ]
}

fn quant_pattern_list() -> (v: Vec<&'static str>)
    ensures
        v@.map_values(|s: &str| s@) == quant_patterns(),
{
    let v: Vec<&'static str> = vec![
        "q2_k_s", "q2_k_m", "q2_k_l", "q2_k", "q3_k_s", "q3_k_m", "q3_k_l", "q3_k",
        "q4_k_s", "q4_k_m", "q4_k_l", "q4_k", "q5_k_s", "q5_k_m", "q5_k_l", "q5_k",
        "q6_k_s", "q6_k_m", "q6_k_l", "q6_k",
        "q4_0", "q4_1", "q5_0", "q5_1", "q8_0", "q8_1",
        "f16", "f32", "bf16",
        "iq1_s", "iq1_m", "iq2_xxs", "iq2_xs", "iq2_s", "iq2_m", "iq3_xxs", "iq3_xs", "iq3_s",
        "iq3_m", "iq4_xs", "iq4_nl",
    ];
    assert(v@.map_values(|s: &str| s@) =~= quant_patterns());
    v
}

/// `longer` properly extends `shorter`: it is longer and starts with it.
pub open spec fn extends_tag(longer: Seq<char>, shorter: Seq<char>) -> bool {
    &&& shorter.len() < longer.len()
    &&& forall|k: int| 0 <= k < shorter.len() ==> #[trigger] longer[k] == shorter[k]
}

/// The recognised tags as character sequences.
spec fn pattern_chars() -> Seq<Seq<char>> {
    seq![
        seq!['q', '2', '_', 'k', '_', 's'],
        seq!['q', '2', '_', 'k', '_', 'm'],
        seq!['q', '2', '_', 'k', '_', 'l'],
        seq!['q', '2', '_', 'k'],
        seq!['q', '3', '_', 'k', '_', 's'],
        seq!['q', '3', '_', 'k', '_', 'm'],
        seq!['q', '3', '_', 'k', '_', 'l'],
        seq!['q', '3', '_', 'k'],
        seq!['q', '4', '_', 'k', '_', 's'],
        seq!['q', '4', '_', 'k', '_', 'm'],
        seq!['q', '4', '_', 'k', '_', 'l'],
        seq!['q', '4', '_', 'k'],
        seq!['q', '5', '_', 'k', '_', 's'],
        seq!['q', '5', '_', 'k', '_', 'm'],
        seq!['q', '5', '_', 'k', '_', 'l'],
        seq!['q', '5', '_', 'k'],
        seq!['q', '6', '_', 'k', '_', 's'],
        seq!['q', '6', '_', 'k', '_', 'm'],
        seq!['q', '6', '_', 'k', '_', 'l'],
        seq!['q', '6', '_', 'k'],
        seq!['q', '4', '_', '0'],
        seq!['q', '4', '_', '1'],
        seq!['q', '5', '_', '0'],
        seq!['q', '5', '_', '1'],
        seq!['q', '8', '_', '0'],
        seq!['q', '8', '_', '1'],
        seq!['f', '1', '6'],
        seq!['f', '3', '2'],
        seq!['b', 'f', '1', '6'],
        seq!['i', 'q', '1', '_', 's'],
        seq!['i', 'q', '1', '_', 'm'],
        seq!['i', 'q', '2', '_', 'x', 'x', 's'],
        seq!['i', 'q', '2', '_', 'x', 's'],
        seq!['i', 'q', '2', '_', 's'],
        seq!['i', 'q', '2', '_', 'm'],
        seq!['i', 'q', '3', '_', 'x', 'x', 's'],
        seq!['i', 'q', '3', '_', 'x', 's'],
        seq!['i', 'q', '3', '_', 's'],
        seq!['i', 'q', '3', '_', 'm'],
        seq!['i', 'q', '4', '_', 'x', 's'],
        seq!['i', 'q', '4', '_', 'n', 'l']
    ]
}

proof fn lemma_pattern_chars()
    ensures
        quant_patterns() == pattern_chars(),
        pattern_chars().len() == 41,
{
    reveal_strlit("q2_k_s");
    assert("q2_k_s"@ =~= seq!['q', '2', '_', 'k', '_', 's']);
    reveal_strlit("q2_k_m");
    assert("q2_k_m"@ =~= seq!['q', '2', '_', 'k', '_', 'm']);
    reveal_strlit("q2_k_l");
    assert("q2_k_l"@ =~= seq!['q', '2', '_', 'k', '_', 'l']);
    reveal_strlit("q2_k");
    assert("q2_k"@ =~= seq!['q', '2', '_', 'k']);
    reveal_strlit("q3_k_s");
    assert("q3_k_s"@ =~= seq!['q', '3', '_', 'k', '_', 's']);
    reveal_strlit("q3_k_m");
    assert("q3_k_m"@ =~= seq!['q', '3', '_', 'k', '_', 'm']);
    reveal_strlit("q3_k_l");
    assert("q3_k_l"@ =~= seq!['q', '3', '_', 'k', '_', 'l']);
    reveal_strlit("q3_k");
    assert("q3_k"@ =~= seq!['q', '3', '_', 'k']);
    reveal_strlit("q4_k_s");
    assert("q4_k_s"@ =~= seq!['q', '4', '_', 'k', '_', 's']);
    reveal_strlit("q4_k_m");
    assert("q4_k_m"@ =~= seq!['q', '4', '_', 'k', '_', 'm']);
    reveal_strlit("q4_k_l");
    assert("q4_k_l"@ =~= seq!['q', '4', '_', 'k', '_', 'l']);
    reveal_strlit("q4_k");
    assert("q4_k"@ =~= seq!['q', '4', '_', 'k']);
    reveal_strlit("q5_k_s");
    assert("q5_k_s"@ =~= seq!['q', '5', '_', 'k', '_', 's']);
    reveal_strlit("q5_k_m");
    assert("q5_k_m"@ =~= seq!['q', '5', '_', 'k', '_', 'm']);
    reveal_strlit("q5_k_l");
    assert("q5_k_l"@ =~= seq!['q', '5', '_', 'k', '_', 'l']);
    reveal_strlit("q5_k");
    assert("q5_k"@ =~= seq!['q', '5', '_', 'k']);
    reveal_strlit("q6_k_s");
    assert("q6_k_s"@ =~= seq!['q', '6', '_', 'k', '_', 's']);
    reveal_strlit("q6_k_m");
    assert("q6_k_m"@ =~= seq!['q', '6', '_', 'k', '_', 'm']);
    reveal_strlit("q6_k_l");
    assert("q6_k_l"@ =~= seq!['q', '6', '_', 'k', '_', 'l']);
    reveal_strlit("q6_k");
    assert("q6_k"@ =~= seq!['q', '6', '_', 'k']);
    reveal_strlit("q4_0");
    assert("q4_0"@ =~= seq!['q', '4', '_', '0']);
    reveal_strlit("q4_1");
    assert("q4_1"@ =~= seq!['q', '4', '_', '1']);
    reveal_strlit("q5_0");
    assert("q5_0"@ =~= seq!['q', '5', '_', '0']);
    reveal_strlit("q5_1");
    assert("q5_1"@ =~= seq!['q', '5', '_', '1']);
    reveal_strlit("q8_0");
    assert("q8_0"@ =~= seq!['q', '8', '_', '0']);
    reveal_strlit("q8_1");
    assert("q8_1"@ =~= seq!['q', '8', '_', '1']);
    reveal_strlit("f16");
    assert("f16"@ =~= seq!['f', '1', '6']);
    reveal_strlit("f32");
    assert("f32"@ =~= seq!['f', '3', '2']);
    reveal_strlit("bf16");
    assert("bf16"@ =~= seq!['b', 'f', '1', '6']);
    reveal_strlit("iq1_s");
    assert("iq1_s"@ =~= seq!['i', 'q', '1', '_', 's']);
    reveal_strlit("iq1_m");
    assert("iq1_m"@ =~= seq!['i', 'q', '1', '_', 'm']);
    reveal_strlit("iq2_xxs");
    assert("iq2_xxs"@ =~= seq!['i', 'q', '2', '_', 'x', 'x', 's']);
    reveal_strlit("iq2_xs");
    assert("iq2_xs"@ =~= seq!['i', 'q', '2', '_', 'x', 's']);
    reveal_strlit("iq2_s");
    assert("iq2_s"@ =~= seq!['i', 'q', '2', '_', 's']);
    reveal_strlit("iq2_m");
    assert("iq2_m"@ =~= seq!['i', 'q', '2', '_', 'm']);
    reveal_strlit("iq3_xxs");
    assert("iq3_xxs"@ =~= seq!['i', 'q', '3', '_', 'x', 'x', 's']);
    reveal_strlit("iq3_xs");
    assert("iq3_xs"@ =~= seq!['i', 'q', '3', '_', 'x', 's']);
    reveal_strlit("iq3_s");
    assert("iq3_s"@ =~= seq!['i', 'q', '3', '_', 's']);
    reveal_strlit("iq3_m");
    assert("iq3_m"@ =~= seq!['i', 'q', '3', '_', 'm']);
    reveal_strlit("iq4_xs");
    assert("iq4_xs"@ =~= seq!['i', 'q', '4', '_', 'x', 's']);
    reveal_strlit("iq4_nl");
    assert("iq4_nl"@ =~= seq!['i', 'q', '4', '_', 'n', 'l']);
    assert(quant_patterns() =~= pattern_chars());
}

proof fn lemma_no_later_extension_0()
    ensures
        forall|j: int| 0 < j < 41 ==> !extends_tag(#[trigger] pattern_chars()[j], pattern_chars()[0]),
{
    let pc = pattern_chars();
    assert forall|j: int| 0 < j < 41 implies !extends_tag(#[trigger] pc[j], pc[0]) by {
        if j == 1 {
            assert(pc[1].len() <= pc[0].len());
        } else if j == 2 {
            assert(pc[2].len() <= pc[0].len());
        } else if j == 3 {
            assert(pc[3].len() <= pc[0].len());
        } else if j == 4 {
            assert(pc[4].len() <= pc[0].len());
        } else if j == 5 {
            assert(pc[5].len() <= pc[0].len());
        } else if j == 6 {
            assert(pc[6].len() <= pc[0].len());
        } else if j == 7 {
            assert(pc[7].len() <= pc[0].len());
        } else if j == 8 {
            assert(pc[8].len() <= pc[0].len());
        } else if j == 9 {
            assert(pc[9].len() <= pc[0].len());
        } else if j == 10 {
            assert(pc[10].len() <= pc[0].len());
        } else if j == 11 {
            assert(pc[11].len() <= pc[0].len());
        } else if j == 12 {
            assert(pc[12].len() <= pc[0].len());
        } else if j == 13 {
            assert(pc[13].len() <= pc[0].len());
        } else if j == 14 {
            assert(pc[14].len() <= pc[0].len());
        } else if j == 15 {
            assert(pc[15].len() <= pc[0].len());
        } else if j == 16 {
            assert(pc[16].len() <= pc[0].len());
        } else if j == 17 {
            assert(pc[17].len() <= pc[0].len());
        } else if j == 18 {
            assert(pc[18].len() <= pc[0].len());
        } else if j == 19 {
            assert(pc[19].len() <= pc[0].len());
        } else if j == 20 {
            assert(pc[20].len() <= pc[0].len());
        } else if j == 21 {
            assert(pc[21].len() <= pc[0].len());
        } else if j == 22 {
            assert(pc[22].len() <= pc[0].len());
        } else if j == 23 {
            assert(pc[23].len() <= pc[0].len());
        } else if j == 24 {
            assert(pc[24].len() <= pc[0].len());
        } else if j == 25 {
            assert(pc[25].len() <= pc[0].len());
        } else if j == 26 {
            assert(pc[26].len() <= pc[0].len());
        } else if j == 27 {
            assert(pc[27].len() <= pc[0].len());
        } else if j == 28 {
            assert(pc[28].len() <= pc[0].len());
        } else if j == 29 {
            assert(pc[29].len() <= pc[0].len());
        } else if j == 30 {
            assert(pc[30].len() <= pc[0].len());
        } else if j == 31 {
            assert(pc[31][0] != pc[0][0]);
        } else if j == 32 {
            assert(pc[32].len() <= pc[0].len());
        } else if j == 33 {
            assert(pc[33].len() <= pc[0].len());
        } else if j == 34 {
            assert(pc[34].len() <= pc[0].len());
        } else if j == 35 {
            assert(pc[35][0] != pc[0][0]);
        } else if j == 36 {
            assert(pc[36].len() <= pc[0].len());
        } else if j == 37 {
            assert(pc[37].len() <= pc[0].len());
        } else if j == 38 {
            assert(pc[38].len() <= pc[0].len());
        } else if j == 39 {
            assert(pc[39].len() <= pc[0].len());
        } else if j == 40 {
            assert(pc[40].len() <= pc[0].len());
        }
    }
}

proof fn lemma_no_later_extension_1()
    ensures
        forall|j: int| 1 < j < 41 ==> !extends_tag(#[trigger] pattern_chars()[j], pattern_chars()[1]),
{
    let pc = pattern_chars();
    assert forall|j: int| 1 < j < 41 implies !extends_tag(#[trigger] pc[j], pc[1]) by {
        if j == 2 {
            assert(pc[2].len() <= pc[1].len());
        } else if j == 3 {
            assert(pc[3].len() <= pc[1].len());
        } else if j == 4 {
            assert(pc[4].len() <= pc[1].len());
        } else if j == 5 {
            assert(pc[5].len() <= pc[1].len());
        } else if j == 6 {
            assert(pc[6].len() <= pc[1].len());
        } else if j == 7 {
            assert(pc[7].len() <= pc[1].len());
        } else if j == 8 {
            assert(pc[8].len() <= pc[1].len());
        } else if j == 9 {
            assert(pc[9].len() <= pc[1].len());
        } else if j == 10 {
            assert(pc[10].len() <= pc[1].len());
        } else if j == 11 {
            assert(pc[11].len() <= pc[1].len());
        } else if j == 12 {
            assert(pc[12].len() <= pc[1].len());
        } else if j == 13 {
            assert(pc[13].len() <= pc[1].len());
        } else if j == 14 {
            assert(pc[14].len() <= pc[1].len());
        } else if j == 15 {
            assert(pc[15].len() <= pc[1].len());
        } else if j == 16 {
            assert(pc[16].len() <= pc[1].len());
        } else if j == 17 {
            assert(pc[17].len() <= pc[1].len());
        } else if j == 18 {
            assert(pc[18].len() <= pc[1].len());
        } else if j == 19 {
            assert(pc[19].len() <= pc[1].len());
        } else if j == 20 {
            assert(pc[20].len() <= pc[1].len());
        } else if j == 21 {
            assert(pc[21].len() <= pc[1].len());
        } else if j == 22 {
            assert(pc[22].len() <= pc[1].len());
        } else if j == 23 {
            assert(pc[23].len() <= pc[1].len());
        } else if j == 24 {
            assert(pc[24].len() <= pc[1].len());
        } else if j == 25 {
            assert(pc[25].len() <= pc[1].len());
        } else if j == 26 {
            assert(pc[26].len() <= pc[1].len());
        } else if j == 27 {
            assert(pc[27].len() <= pc[1].len());
        } else if j == 28 {
            assert(pc[28].len() <= pc[1].len());
        } else if j == 29 {
            assert(pc[29].len() <= pc[1].len());
        } else if j == 30 {
            assert(pc[30].len() <= pc[1].len());
        } else if j == 31 {
            assert(pc[31][0] != pc[1][0]);
        } else if j == 32 {
            assert(pc[32].len() <= pc[1].len());
        } else if j == 33 {
            assert(pc[33].len() <= pc[1].len());
        } else if j == 34 {
            assert(pc[34].len() <= pc[1].len());
        } else if j == 35 {
            assert(pc[35][0] != pc[1][0]);
        } else if j == 36 {
            assert(pc[36].len() <= pc[1].len());
        } else if j == 37 {
            assert(pc[37].len() <= pc[1].len());
        } else if j == 38 {
            assert(pc[38].len() <= pc[1].len());
        } else if j == 39 {
            assert(pc[39].len() <= pc[1].len());
        } else if j == 40 {
            assert(pc[40].len() <= pc[1].len());
        }
    }
}

proof fn lemma_no_later_extension_2()
    ensures
        forall|j: int| 2 < j < 41 ==> !extends_tag(#[trigger] pattern_chars()[j], pattern_chars()[2]),
{
    let pc = pattern_chars();
    assert forall|j: int| 2 < j < 41 implies !extends_tag(#[trigger] pc[j], pc[2]) by {
        if j == 3 {
            assert(pc[3].len() <= pc[2].len());
        } else if j == 4 {
            assert(pc[4].len() <= pc[2].len());
        } else if j == 5 {
            assert(pc[5].len() <= pc[2].len());
        } else if j == 6 {
            assert(pc[6].len() <= pc[2].len());
        } else if j == 7 {
            assert(pc[7].len() <= pc[2].len());
        } else if j == 8 {
            assert(pc[8].len() <= pc[2].len());
        } else if j == 9 {
            assert(pc[9].len() <= pc[2].len());
        } else if j == 10 {
            assert(pc[10].len() <= pc[2].len());
        } else if j == 11 {
            assert(pc[11].len() <= pc[2].len());
        } else if j == 12 {
            assert(pc[12].len() <= pc[2].len());
        } else if j == 13 {
            assert(pc[13].len() <= pc[2].len());
        } else if j == 14 {
            assert(pc[14].len() <= pc[2].len());
        } else if j == 15 {
            assert(pc[15].len() <= pc[2].len());
        } else if j == 16 {
            assert(pc[16].len() <= pc[2].len());
        } else if j == 17 {
            assert(pc[17].len() <= pc[2].len());
        } else if j == 18 {
            assert(pc[18].len() <= pc[2].len());
        } else if j == 19 {
            assert(pc[19].len() <= pc[2].len());
        } else if j == 20 {
            assert(pc[20].len() <= pc[2].len());
        } else if j == 21 {
            assert(pc[21].len() <= pc[2].len());
        } else if j == 22 {
            assert(pc[22].len() <= pc[2].len());
        } else if j == 23 {
            assert(pc[23].len() <= pc[2].len());
        } else if j == 24 {
            assert(pc[24].len() <= pc[2].len());
        } else if j == 25 {
            assert(pc[25].len() <= pc[2].len());
        } else if j == 26 {
            assert(pc[26].len() <= pc[2].len());
        } else if j == 27 {
            assert(pc[27].len() <= pc[2].len());
        } else if j == 28 {
            assert(pc[28].len() <= pc[2].len());
        } else if j == 29 {
            assert(pc[29].len() <= pc[2].len());
        } else if j == 30 {
            assert(pc[30].len() <= pc[2].len());
        } else if j == 31 {
            assert(pc[31][0] != pc[2][0]);
        } else if j == 32 {
            assert(pc[32].len() <= pc[2].len());
        } else if j == 33 {
            assert(pc[33].len() <= pc[2].len());
        } else if j == 34 {
            assert(pc[34].len() <= pc[2].len());
        } else if j == 35 {
            assert(pc[35][0] != pc[2][0]);
        } else if j == 36 {
            assert(pc[36].len() <= pc[2].len());
        } else if j == 37 {
            assert(pc[37].len() <= pc[2].len());
        } else if j == 38 {
            assert(pc[38].len() <= pc[2].len());
        } else if j == 39 {
            assert(pc[39].len() <= pc[2].len());
        } else if j == 40 {
            assert(pc[40].len() <= pc[2].len());
        }
    }
}

proof fn lemma_no_later_extension_3()
    ensures
        forall|j: int| 3 < j < 41 ==> !extends_tag(#[trigger] pattern_chars()[j], pattern_chars()[3]),
{
    let pc = pattern_chars();
    assert forall|j: int| 3 < j < 41 implies !extends_tag(#[trigger] pc[j], pc[3]) by {
        if j == 4 {
            assert(pc[4][1] != pc[3][1]);
        } else if j == 5 {
            assert(pc[5][1] != pc[3][1]);
        } else if j == 6 {
            assert(pc[6][1] != pc[3][1]);
        } else if j == 7 {
            assert(pc[7].len() <= pc[3].len());
        } else if j == 8 {
            assert(pc[8][1] != pc[3][1]);
        } else if j == 9 {
            assert(pc[9][1] != pc[3][1]);
        } else if j == 10 {
            assert(pc[10][1] != pc[3][1]);
        } else if j == 11 {
            assert(pc[11].len() <= pc[3].len());
        } else if j == 12 {
            assert(pc[12][1] != pc[3][1]);
        } else if j == 13 {
            assert(pc[13][1] != pc[3][1]);
        } else if j == 14 {
            assert(pc[14][1] != pc[3][1]);
        } else if j == 15 {
            assert(pc[15].len() <= pc[3].len());
        } else if j == 16 {
            assert(pc[16][1] != pc[3][1]);
        } else if j == 17 {
            assert(pc[17][1] != pc[3][1]);
        } else if j == 18 {
            assert(pc[18][1] != pc[3][1]);
        } else if j == 19 {
            assert(pc[19].len() <= pc[3].len());
        } else if j == 20 {
            assert(pc[20].len() <= pc[3].len());
        } else if j == 21 {
            assert(pc[21].len() <= pc[3].len());
        } else if j == 22 {
            assert(pc[22].len() <= pc[3].len());
        } else if j == 23 {
            assert(pc[23].len() <= pc[3].len());
        } else if j == 24 {
            assert(pc[24].len() <= pc[3].len());
        } else if j == 25 {
            assert(pc[25].len() <= pc[3].len());
        } else if j == 26 {
            assert(pc[26].len() <= pc[3].len());
        } else if j == 27 {
            assert(pc[27].len() <= pc[3].len());
        } else if j == 28 {
            assert(pc[28].len() <= pc[3].len());
        } else if j == 29 {
            assert(pc[29][0] != pc[3][0]);
        } else if j == 30 {
            assert(pc[30][0] != pc[3][0]);
        } else if j == 31 {
            assert(pc[31][0] != pc[3][0]);
        } else if j == 32 {
            assert(pc[32][0] != pc[3][0]);
        } else if j == 33 {
            assert(pc[33][0] != pc[3][0]);
        } else if j == 34 {
            assert(pc[34][0] != pc[3][0]);
        } else if j == 35 {
            assert(pc[35][0] != pc[3][0]);
        } else if j == 36 {
            assert(pc[36][0] != pc[3][0]);
        } else if j == 37 {
            assert(pc[37][0] != pc[3][0]);
        } else if j == 38 {
            assert(pc[38][0] != pc[3][0]);
        } else if j == 39 {
            assert(pc[39][0] != pc[3][0]);
        } else if j == 40 {
            assert(pc[40][0] != pc[3][0]);
        }
    }
}

proof fn lemma_no_later_extension_4()
    ensures
        forall|j: int| 4 < j < 41 ==> !extends_tag(#[trigger] pattern_chars()[j], pattern_chars()[4]),
{
    let pc = pattern_chars();
    assert forall|j: int| 4 < j < 41 implies !extends_tag(#[trigger] pc[j], pc[4]) by {
        if j == 5 {
            assert(pc[5].len() <= pc[4].len());
        } else if j == 6 {
            assert(pc[6].len() <= pc[4].len());
        } else if j == 7 {
            assert(pc[7].len() <= pc[4].len());
        } else if j == 8 {
            assert(pc[8].len() <= pc[4].len());
        } else if j == 9 {
            assert(pc[9].len() <= pc[4].len());
        } else if j == 10 {
            assert(pc[10].len() <= pc[4].len());
        } else if j == 11 {
            assert(pc[11].len() <= pc[4].len());
        } else if j == 12 {
            assert(pc[12].len() <= pc[4].len());
        } else if j == 13 {
            assert(pc[13].len() <= pc[4].len());
        } else if j == 14 {
            assert(pc[14].len() <= pc[4].len());
        } else if j == 15 {
            assert(pc[15].len() <= pc[4].len());
        } else if j == 16 {
            assert(pc[16].len() <= pc[4].len());
        } else if j == 17 {
            assert(pc[17].len() <= pc[4].len());
        } else if j == 18 {
            assert(pc[18].len() <= pc[4].len());
        } else if j == 19 {
            assert(pc[19].len() <= pc[4].len());
        } else if j == 20 {
            assert(pc[20].len() <= pc[4].len());
        } else if j == 21 {
            assert(pc[21].len() <= pc[4].len());
        } else if j == 22 {
            assert(pc[22].len() <= pc[4].len());
        } else if j == 23 {
            assert(pc[23].len() <= pc[4].len());
        } else if j == 24 {
            assert(pc[24].len() <= pc[4].len());
        } else if j == 25 {
            assert(pc[25].len() <= pc[4].len());
        } else if j == 26 {
            assert(pc[26].len() <= pc[4].len());
        } else if j == 27 {
            assert(pc[27].len() <= pc[4].len());
        } else if j == 28 {
            assert(pc[28].len() <= pc[4].len());
        } else if j == 29 {
            assert(pc[29].len() <= pc[4].len());
        } else if j == 30 {
            assert(pc[30].len() <= pc[4].len());
        } else if j == 31 {
            assert(pc[31][0] != pc[4][0]);
        } else if j == 32 {
            assert(pc[32].len() <= pc[4].len());
        } else if j == 33 {
            assert(pc[33].len() <= pc[4].len());
        } else if j == 34 {
            assert(pc[34].len() <= pc[4].len());
        } else if j == 35 {
            assert(pc[35][0] != pc[4][0]);
        } else if j == 36 {
            assert(pc[36].len() <= pc[4].len());
        } else if j == 37 {
            assert(pc[37].len() <= pc[4].len());
        } else if j == 38 {
            assert(pc[38].len() <= pc[4].len());
        } else if j == 39 {
            assert(pc[39].len() <= pc[4].len());
        } else if j == 40 {
            assert(pc[40].len() <= pc[4].len());
        }
    }
}

proof fn lemma_no_later_extension_5()
    ensures
        forall|j: int| 5 < j < 41 ==> !extends_tag(#[trigger] pattern_chars()[j], pattern_chars()[5]),
{
    let pc = pattern_chars();
    assert forall|j: int| 5 < j < 41 implies !extends_tag(#[trigger] pc[j], pc[5]) by {
        if j == 6 {
            assert(pc[6].len() <= pc[5].len());
        } else if j == 7 {
            assert(pc[7].len() <= pc[5].len());
        } else if j == 8 {
            assert(pc[8].len() <= pc[5].len());
        } else if j == 9 {
            assert(pc[9].len() <= pc[5].len());
        } else if j == 10 {
            assert(pc[10].len() <= pc[5].len());
        } else if j == 11 {
            assert(pc[11].len() <= pc[5].len());
        } else if j == 12 {
            assert(pc[12].len() <= pc[5].len());
        } else if j == 13 {
            assert(pc[13].len() <= pc[5].len());
        } else if j == 14 {
            assert(pc[14].len() <= pc[5].len());
        } else if j == 15 {
            assert(pc[15].len() <= pc[5].len());
        } else if j == 16 {
            assert(pc[16].len() <= pc[5].len());
        } else if j == 17 {
            assert(pc[17].len() <= pc[5].len());
        } else if j == 18 {
            assert(pc[18].len() <= pc[5].len());
        } else if j == 19 {
            assert(pc[19].len() <= pc[5].len());
        } else if j == 20 {
            assert(pc[20].len() <= pc[5].len());
        } else if j == 21 {
            assert(pc[21].len() <= pc[5].len());
        } else if j == 22 {
            assert(pc[22].len() <= pc[5].len());
        } else if j == 23 {
            assert(pc[23].len() <= pc[5].len());
        } else if j == 24 {
            assert(pc[24].len() <= pc[5].len());
        } else if j == 25 {
            assert(pc[25].len() <= pc[5].len());
        } else if j == 26 {
            assert(pc[26].len() <= pc[5].len());
        } else if j == 27 {
            assert(pc[27].len() <= pc[5].len());
        } else if j == 28 {
            assert(pc[28].len() <= pc[5].len());
        } else if j == 29 {
            assert(pc[29].len() <= pc[5].len());
        } else if j == 30 {
            assert(pc[30].len() <= pc[5].len());
        } else if j == 31 {
            assert(pc[31][0] != pc[5][0]);
        } else if j == 32 {
            assert(pc[32].len() <= pc[5].len());
        } else if j == 33 {
            assert(pc[33].len() <= pc[5].len());
        } else if j == 34 {
            assert(pc[34].len() <= pc[5].len());
        } else if j == 35 {
            assert(pc[35][0] != pc[5][0]);
        } else if j == 36 {
            assert(pc[36].len() <= pc[5].len());
        } else if j == 37 {
            assert(pc[37].len() <= pc[5].len());
        } else if j == 38 {
            assert(pc[38].len() <= pc[5].len());
        } else if j == 39 {
            assert(pc[39].len() <= pc[5].len());
        } else if j == 40 {
            assert(pc[40].len() <= pc[5].len());
        }
    }
}

proof fn lemma_no_later_extension_6()
    ensures
        forall|j: int| 6 < j < 41 ==> !extends_tag(#[trigger] pattern_chars()[j], pattern_chars()[6]),
{
    let pc = pattern_chars();
    assert forall|j: int| 6 < j < 41 implies !extends_tag(#[trigger] pc[j], pc[6]) by {
        if j == 7 {
            assert(pc[7].len() <= pc[6].len());
        } else if j == 8 {
            assert(pc[8].len() <= pc[6].len());
        } else if j == 9 {
            assert(pc[9].len() <= pc[6].len());
        } else if j == 10 {
            assert(pc[10].len() <= pc[6].len());
        } else if j == 11 {
            assert(pc[11].len() <= pc[6].len());
        } else if j == 12 {
            assert(pc[12].len() <= pc[6].len());
        } else if j == 13 {
            assert(pc[13].len() <= pc[6].len());
        } else if j == 14 {
            assert(pc[14].len() <= pc[6].len());
        } else if j == 15 {
            assert(pc[15].len() <= pc[6].len());
        } else if j == 16 {
            assert(pc[16].len() <= pc[6].len());
        } else if j == 17 {
            assert(pc[17].len() <= pc[6].len());
        } else if j == 18 {
            assert(pc[18].len() <= pc[6].len());
        } else if j == 19 {
            assert(pc[19].len() <= pc[6].len());
        } else if j == 20 {
            assert(pc[20].len() <= pc[6].len());
        } else if j == 21 {
            assert(pc[21].len() <= pc[6].len());
        } else if j == 22 {
            assert(pc[22].len() <= pc[6].len());
        } else if j == 23 {
            assert(pc[23].len() <= pc[6].len());
        } else if j == 24 {
            assert(pc[24].len() <= pc[6].len());
        } else if j == 25 {
            assert(pc[25].len() <= pc[6].len());
        } else if j == 26 {
            assert(pc[26].len() <= pc[6].len());
        } else if j == 27 {
            assert(pc[27].len() <= pc[6].len());
        } else if j == 28 {
            assert(pc[28].len() <= pc[6].len());
        } else if j == 29 {
            assert(pc[29].len() <= pc[6].len());
        } else if j == 30 {
            assert(pc[30].len() <= pc[6].len());
        } else if j == 31 {
            assert(pc[31][0] != pc[6][0]);
        } else if j == 32 {
            assert(pc[32].len() <= pc[6].len());
        } else if j == 33 {
            assert(pc[33].len() <= pc[6].len());
        } else if j == 34 {
            assert(pc[34].len() <= pc[6].len());
        } else if j == 35 {
            assert(pc[35][0] != pc[6][0]);
        } else if j == 36 {
            assert(pc[36].len() <= pc[6].len());
        } else if j == 37 {
            assert(pc[37].len() <= pc[6].len());
        } else if j == 38 {
            assert(pc[38].len() <= pc[6].len());
        } else if j == 39 {
            assert(pc[39].len() <= pc[6].len());
        } else if j == 40 {
            assert(pc[40].len() <= pc[6].len());
        }
    }
}

proof fn lemma_no_later_extension_7()
    ensures
        forall|j: int| 7 < j < 41 ==> !extends_tag(#[trigger] pattern_chars()[j], pattern_chars()[7]),
{
    let pc = pattern_chars();
    assert forall|j: int| 7 < j < 41 implies !extends_tag(#[trigger] pc[j], pc[7]) by {
        if j == 8 {
            assert(pc[8][1] != pc[7][1]);
        } else if j == 9 {
            assert(pc[9][1] != pc[7][1]);
        } else if j == 10 {
            assert(pc[10][1] != pc[7][1]);
        } else if j == 11 {
            assert(pc[11].len() <= pc[7].len());
        } else if j == 12 {
            assert(pc[12][1] != pc[7][1]);
        } else if j == 13 {
            assert(pc[13][1] != pc[7][1]);
        } else if j == 14 {
            assert(pc[14][1] != pc[7][1]);
        } else if j == 15 {
            assert(pc[15].len() <= pc[7].len());
        } else if j == 16 {
            assert(pc[16][1] != pc[7][1]);
        } else if j == 17 {
            assert(pc[17][1] != pc[7][1]);
        } else if j == 18 {
            assert(pc[18][1] != pc[7][1]);
        } else if j == 19 {
            assert(pc[19].len() <= pc[7].len());
        } else if j == 20 {
            assert(pc[20].len() <= pc[7].len());
        } else if j == 21 {
            assert(pc[21].len() <= pc[7].len());
        } else if j == 22 {
            assert(pc[22].len() <= pc[7].len());
        } else if j == 23 {
            assert(pc[23].len() <= pc[7].len());
        } else if j == 24 {
            assert(pc[24].len() <= pc[7].len());
        } else if j == 25 {
            assert(pc[25].len() <= pc[7].len());
        } else if j == 26 {
            assert(pc[26].len() <= pc[7].len());
        } else if j == 27 {
            assert(pc[27].len() <= pc[7].len());
        } else if j == 28 {
            assert(pc[28].len() <= pc[7].len());
        } else if j == 29 {
            assert(pc[29][0] != pc[7][0]);
        } else if j == 30 {
            assert(pc[30][0] != pc[7][0]);
        } else if j == 31 {
            assert(pc[31][0] != pc[7][0]);
        } else if j == 32 {
            assert(pc[32][0] != pc[7][0]);
        } else if j == 33 {
            assert(pc[33][0] != pc[7][0]);
        } else if j == 34 {
            assert(pc[34][0] != pc[7][0]);
        } else if j == 35 {
            assert(pc[35][0] != pc[7][0]);
        } else if j == 36 {
            assert(pc[36][0] != pc[7][0]);
        } else if j == 37 {
            assert(pc[37][0] != pc[7][0]);
        } else if j == 38 {
            assert(pc[38][0] != pc[7][0]);
        } else if j == 39 {
            assert(pc[39][0] != pc[7][0]);
        } else if j == 40 {
            assert(pc[40][0] != pc[7][0]);
        }
    }
}

proof fn lemma_no_later_extension_8()
    ensures
        forall|j: int| 8 < j < 41 ==> !extends_tag(#[trigger] pattern_chars()[j], pattern_chars()[8]),
{
    let pc = pattern_chars();
    assert forall|j: int| 8 < j < 41 implies !extends_tag(#[trigger] pc[j], pc[8]) by {
        if j == 9 {
            assert(pc[9].len() <= pc[8].len());
        } else if j == 10 {
            assert(pc[10].len() <= pc[8].len());
        } else if j == 11 {
            assert(pc[11].len() <= pc[8].len());
        } else if j == 12 {
            assert(pc[12].len() <= pc[8].len());
        } else if j == 13 {
            assert(pc[13].len() <= pc[8].len());
        } else if j == 14 {
            assert(pc[14].len() <= pc[8].len());
        } else if j == 15 {
            assert(pc[15].len() <= pc[8].len());
        } else if j == 16 {
            assert(pc[16].len() <= pc[8].len());
        } else if j == 17 {
            assert(pc[17].len() <= pc[8].len());
        } else if j == 18 {
            assert(pc[18].len() <= pc[8].len());
        } else if j == 19 {
            assert(pc[19].len() <= pc[8].len());
        } else if j == 20 {
            assert(pc[20].len() <= pc[8].len());
        } else if j == 21 {
            assert(pc[21].len() <= pc[8].len());
        } else if j == 22 {
            assert(pc[22].len() <= pc[8].len());
        } else if j == 23 {
            assert(pc[23].len() <= pc[8].len());
        } else if j == 24 {
            assert(pc[24].len() <= pc[8].len());
        } else if j == 25 {
            assert(pc[25].len() <= pc[8].len());
        } else if j == 26 {
            assert(pc[26].len() <= pc[8].len());
        } else if j == 27 {
            assert(pc[27].len() <= pc[8].len());
        } else if j == 28 {
            assert(pc[28].len() <= pc[8].len());
        } else if j == 29 {
            assert(pc[29].len() <= pc[8].len());
        } else if j == 30 {
            assert(pc[30].len() <= pc[8].len());
        } else if j == 31 {
            assert(pc[31][0] != pc[8][0]);
        } else if j == 32 {
            assert(pc[32].len() <= pc[8].len());
        } else if j == 33 {
            assert(pc[33].len() <= pc[8].len());
        } else if j == 34 {
            assert(pc[34].len() <= pc[8].len());
        } else if j == 35 {
            assert(pc[35][0] != pc[8][0]);
        } else if j == 36 {
            assert(pc[36].len() <= pc[8].len());
        } else if j == 37 {
            assert(pc[37].len() <= pc[8].len());
        } else if j == 38 {
            assert(pc[38].len() <= pc[8].len());
        } else if j == 39 {
            assert(pc[39].len() <= pc[8].len());
        } else if j == 40 {
            assert(pc[40].len() <= pc[8].len());
        }
    }
}

proof fn lemma_no_later_extension_9()
    ensures
        forall|j: int| 9 < j < 41 ==> !extends_tag(#[trigger] pattern_chars()[j], pattern_chars()[9]),
{
    let pc = pattern_chars();
    assert forall|j: int| 9 < j < 41 implies !extends_tag(#[trigger] pc[j], pc[9]) by {
        if j == 10 {
            assert(pc[10].len() <= pc[9].len());
        } else if j == 11 {
            assert(pc[11].len() <= pc[9].len());
        } else if j == 12 {
            assert(pc[12].len() <= pc[9].len());
        } else if j == 13 {
            assert(pc[13].len() <= pc[9].len());
        } else if j == 14 {
            assert(pc[14].len() <= pc[9].len());
        } else if j == 15 {
            assert(pc[15].len() <= pc[9].len());
        } else if j == 16 {
            assert(pc[16].len() <= pc[9].len());
        } else if j == 17 {
            assert(pc[17].len() <= pc[9].len());
        } else if j == 18 {
            assert(pc[18].len() <= pc[9].len());
        } else if j == 19 {
            assert(pc[19].len() <= pc[9].len());
        } else if j == 20 {
            assert(pc[20].len() <= pc[9].len());
        } else if j == 21 {
            assert(pc[21].len() <= pc[9].len());
        } else if j == 22 {
            assert(pc[22].len() <= pc[9].len());
        } else if j == 23 {
            assert(pc[23].len() <= pc[9].len());
        } else if j == 24 {
            assert(pc[24].len() <= pc[9].len());
        } else if j == 25 {
            assert(pc[25].len() <= pc[9].len());
        } else if j == 26 {
            assert(pc[26].len() <= pc[9].len());
        } else if j == 27 {
            assert(pc[27].len() <= pc[9].len());
        } else if j == 28 {
            assert(pc[28].len() <= pc[9].len());
        } else if j == 29 {
            assert(pc[29].len() <= pc[9].len());
        } else if j == 30 {
            assert(pc[30].len() <= pc[9].len());
        } else if j == 31 {
            assert(pc[31][0] != pc[9][0]);
        } else if j == 32 {
            assert(pc[32].len() <= pc[9].len());
        } else if j == 33 {
            assert(pc[33].len() <= pc[9].len());
        } else if j == 34 {
            assert(pc[34].len() <= pc[9].len());
        } else if j == 35 {
            assert(pc[35][0] != pc[9][0]);
        } else if j == 36 {
            assert(pc[36].len() <= pc[9].len());
        } else if j == 37 {
            assert(pc[37].len() <= pc[9].len());
        } else if j == 38 {
            assert(pc[38].len() <= pc[9].len());
        } else if j == 39 {
            assert(pc[39].len() <= pc[9].len());
        } else if j == 40 {
            assert(pc[40].len() <= pc[9].len());
        }
    }
}

proof fn lemma_no_later_extension_10()
    ensures
        forall|j: int| 10 < j < 41 ==> !extends_tag(#[trigger] pattern_chars()[j], pattern_chars()[10]),
{
    let pc = pattern_chars();
    assert forall|j: int| 10 < j < 41 implies !extends_tag(#[trigger] pc[j], pc[10]) by {
        if j == 11 {
            assert(pc[11].len() <= pc[10].len());
        } else if j == 12 {
            assert(pc[12].len() <= pc[10].len());
        } else if j == 13 {
            assert(pc[13].len() <= pc[10].len());
        } else if j == 14 {
            assert(pc[14].len() <= pc[10].len());
        } else if j == 15 {
            assert(pc[15].len() <= pc[10].len());
        } else if j == 16 {
            assert(pc[16].len() <= pc[10].len());
        } else if j == 17 {
            assert(pc[17].len() <= pc[10].len());
        } else if j == 18 {
            assert(pc[18].len() <= pc[10].len());
        } else if j == 19 {
            assert(pc[19].len() <= pc[10].len());
        } else if j == 20 {
            assert(pc[20].len() <= pc[10].len());
        } else if j == 21 {
            assert(pc[21].len() <= pc[10].len());
        } else if j == 22 {
            assert(pc[22].len() <= pc[10].len());
        } else if j == 23 {
            assert(pc[23].len() <= pc[10].len());
        } else if j == 24 {
            assert(pc[24].len() <= pc[10].len());
        } else if j == 25 {
            assert(pc[25].len() <= pc[10].len());
        } else if j == 26 {
            assert(pc[26].len() <= pc[10].len());
        } else if j == 27 {
            assert(pc[27].len() <= pc[10].len());
        } else if j == 28 {
            assert(pc[28].len() <= pc[10].len());
        } else if j == 29 {
            assert(pc[29].len() <= pc[10].len());
        } else if j == 30 {
            assert(pc[30].len() <= pc[10].len());
        } else if j == 31 {
            assert(pc[31][0] != pc[10][0]);
        } else if j == 32 {
            assert(pc[32].len() <= pc[10].len());
        } else if j == 33 {
            assert(pc[33].len() <= pc[10].len());
        } else if j == 34 {
            assert(pc[34].len() <= pc[10].len());
        } else if j == 35 {
            assert(pc[35][0] != pc[10][0]);
        } else if j == 36 {
            assert(pc[36].len() <= pc[10].len());
        } else if j == 37 {
            assert(pc[37].len() <= pc[10].len());
        } else if j == 38 {
            assert(pc[38].len() <= pc[10].len());
        } else if j == 39 {
            assert(pc[39].len() <= pc[10].len());
        } else if j == 40 {
            assert(pc[40].len() <= pc[10].len());
        }
    }
}

proof fn lemma_no_later_extension_11()
    ensures
        forall|j: int| 11 < j < 41 ==> !extends_tag(#[trigger] pattern_chars()[j], pattern_chars()[11]),
{
    let pc = pattern_chars();
    assert forall|j: int| 11 < j < 41 implies !extends_tag(#[trigger] pc[j], pc[11]) by {
        if j == 12 {
            assert(pc[12][1] != pc[11][1]);
        } else if j == 13 {
            assert(pc[13][1] != pc[11][1]);
        } else if j == 14 {
            assert(pc[14][1] != pc[11][1]);
        } else if j == 15 {
            assert(pc[15].len() <= pc[11].len());
        } else if j == 16 {
            assert(pc[16][1] != pc[11][1]);
        } else if j == 17 {
            assert(pc[17][1] != pc[11][1]);
        } else if j == 18 {
            assert(pc[18][1] != pc[11][1]);
        } else if j == 19 {
            assert(pc[19].len() <= pc[11].len());
        } else if j == 20 {
            assert(pc[20].len() <= pc[11].len());
        } else if j == 21 {
            assert(pc[21].len() <= pc[11].len());
        } else if j == 22 {
            assert(pc[22].len() <= pc[11].len());
        } else if j == 23 {
            assert(pc[23].len() <= pc[11].len());
        } else if j == 24 {
            assert(pc[24].len() <= pc[11].len());
        } else if j == 25 {
            assert(pc[25].len() <= pc[11].len());
        } else if j == 26 {
            assert(pc[26].len() <= pc[11].len());
        } else if j == 27 {
            assert(pc[27].len() <= pc[11].len());
        } else if j == 28 {
            assert(pc[28].len() <= pc[11].len());
        } else if j == 29 {
            assert(pc[29][0] != pc[11][0]);
        } else if j == 30 {
            assert(pc[30][0] != pc[11][0]);
        } else if j == 31 {
            assert(pc[31][0] != pc[11][0]);
        } else if j == 32 {
            assert(pc[32][0] != pc[11][0]);
        } else if j == 33 {
            assert(pc[33][0] != pc[11][0]);
        } else if j == 34 {
            assert(pc[34][0] != pc[11][0]);
        } else if j == 35 {
            assert(pc[35][0] != pc[11][0]);
        } else if j == 36 {
            assert(pc[36][0] != pc[11][0]);
        } else if j == 37 {
            assert(pc[37][0] != pc[11][0]);
        } else if j == 38 {
            assert(pc[38][0] != pc[11][0]);
        } else if j == 39 {
            assert(pc[39][0] != pc[11][0]);
        } else if j == 40 {
            assert(pc[40][0] != pc[11][0]);
        }
    }
}

proof fn lemma_no_later_extension_12()
    ensures
        forall|j: int| 12 < j < 41 ==> !extends_tag(#[trigger] pattern_chars()[j], pattern_chars()[12]),
{
    let pc = pattern_chars();
    assert forall|j: int| 12 < j < 41 implies !extends_tag(#[trigger] pc[j], pc[12]) by {
        if j == 13 {
            assert(pc[13].len() <= pc[12].len());
        } else if j == 14 {
            assert(pc[14].len() <= pc[12].len());
        } else if j == 15 {
            assert(pc[15].len() <= pc[12].len());
        } else if j == 16 {
            assert(pc[16].len() <= pc[12].len());
        } else if j == 17 {
            assert(pc[17].len() <= pc[12].len());
        } else if j == 18 {
            assert(pc[18].len() <= pc[12].len());
        } else if j == 19 {
            assert(pc[19].len() <= pc[12].len());
        } else if j == 20 {
            assert(pc[20].len() <= pc[12].len());
        } else if j == 21 {
            assert(pc[21].len() <= pc[12].len());
        } else if j == 22 {
            assert(pc[22].len() <= pc[12].len());
        } else if j == 23 {
            assert(pc[23].len() <= pc[12].len());
        } else if j == 24 {
            assert(pc[24].len() <= pc[12].len());
        } else if j == 25 {
            assert(pc[25].len() <= pc[12].len());
        } else if j == 26 {
            assert(pc[26].len() <= pc[12].len());
        } else if j == 27 {
            assert(pc[27].len() <= pc[12].len());
        } else if j == 28 {
            assert(pc[28].len() <= pc[12].len());
        } else if j == 29 {
            assert(pc[29].len() <= pc[12].len());
        } else if j == 30 {
            assert(pc[30].len() <= pc[12].len());
        } else if j == 31 {
            assert(pc[31][0] != pc[12][0]);
        } else if j == 32 {
            assert(pc[32].len() <= pc[12].len());
        } else if j == 33 {
            assert(pc[33].len() <= pc[12].len());
        } else if j == 34 {
            assert(pc[34].len() <= pc[12].len());
        } else if j == 35 {
            assert(pc[35][0] != pc[12][0]);
        } else if j == 36 {
            assert(pc[36].len() <= pc[12].len());
        } else if j == 37 {
            assert(pc[37].len() <= pc[12].len());
        } else if j == 38 {
            assert(pc[38].len() <= pc[12].len());
        } else if j == 39 {
            assert(pc[39].len() <= pc[12].len());
        } else if j == 40 {
            assert(pc[40].len() <= pc[12].len());
        }
    }
}

proof fn lemma_no_later_extension_13()
    ensures
        forall|j: int| 13 < j < 41 ==> !extends_tag(#[trigger] pattern_chars()[j], pattern_chars()[13]),
{
    let pc = pattern_chars();
    assert forall|j: int| 13 < j < 41 implies !extends_tag(#[trigger] pc[j], pc[13]) by {
        if j == 14 {
            assert(pc[14].len() <= pc[13].len());
        } else if j == 15 {
            assert(pc[15].len() <= pc[13].len());
        } else if j == 16 {
            assert(pc[16].len() <= pc[13].len());
        } else if j == 17 {
            assert(pc[17].len() <= pc[13].len());
        } else if j == 18 {
            assert(pc[18].len() <= pc[13].len());
        } else if j == 19 {
            assert(pc[19].len() <= pc[13].len());
        } else if j == 20 {
            assert(pc[20].len() <= pc[13].len());
        } else if j == 21 {
            assert(pc[21].len() <= pc[13].len());
        } else if j == 22 {
            assert(pc[22].len() <= pc[13].len());
        } else if j == 23 {
            assert(pc[23].len() <= pc[13].len());
        } else if j == 24 {
            assert(pc[24].len() <= pc[13].len());
        } else if j == 25 {
            assert(pc[25].len() <= pc[13].len());
        } else if j == 26 {
            assert(pc[26].len() <= pc[13].len());
        } else if j == 27 {
            assert(pc[27].len() <= pc[13].len());
        } else if j == 28 {
            assert(pc[28].len() <= pc[13].len());
        } else if j == 29 {
            assert(pc[29].len() <= pc[13].len());
        } else if j == 30 {
            assert(pc[30].len() <= pc[13].len());
        } else if j == 31 {
            assert(pc[31][0] != pc[13][0]);
        } else if j == 32 {
            assert(pc[32].len() <= pc[13].len());
        } else if j == 33 {
            assert(pc[33].len() <= pc[13].len());
        } else if j == 34 {
            assert(pc[34].len() <= pc[13].len());
        } else if j == 35 {
            assert(pc[35][0] != pc[13][0]);
        } else if j == 36 {
            assert(pc[36].len() <= pc[13].len());
        } else if j == 37 {
            assert(pc[37].len() <= pc[13].len());
        } else if j == 38 {
            assert(pc[38].len() <= pc[13].len());
        } else if j == 39 {
            assert(pc[39].len() <= pc[13].len());
        } else if j == 40 {
            assert(pc[40].len() <= pc[13].len());
        }
    }
}

proof fn lemma_no_later_extension_14()
    ensures
        forall|j: int| 14 < j < 41 ==> !extends_tag(#[trigger] pattern_chars()[j], pattern_chars()[14]),
{
    let pc = pattern_chars();
    assert forall|j: int| 14 < j < 41 implies !extends_tag(#[trigger] pc[j], pc[14]) by {
        if j == 15 {
            assert(pc[15].len() <= pc[14].len());
        } else if j == 16 {
            assert(pc[16].len() <= pc[14].len());
        } else if j == 17 {
            assert(pc[17].len() <= pc[14].len());
        } else if j == 18 {
            assert(pc[18].len() <= pc[14].len());
        } else if j == 19 {
            assert(pc[19].len() <= pc[14].len());
        } else if j == 20 {
            assert(pc[20].len() <= pc[14].len());
        } else if j == 21 {
            assert(pc[21].len() <= pc[14].len());
        } else if j == 22 {
            assert(pc[22].len() <= pc[14].len());
        } else if j == 23 {
            assert(pc[23].len() <= pc[14].len());
        } else if j == 24 {
            assert(pc[24].len() <= pc[14].len());
        } else if j == 25 {
            assert(pc[25].len() <= pc[14].len());
        } else if j == 26 {
            assert(pc[26].len() <= pc[14].len());
        } else if j == 27 {
            assert(pc[27].len() <= pc[14].len());
        } else if j == 28 {
            assert(pc[28].len() <= pc[14].len());
        } else if j == 29 {
            assert(pc[29].len() <= pc[14].len());
        } else if j == 30 {
            assert(pc[30].len() <= pc[14].len());
        } else if j == 31 {
            assert(pc[31][0] != pc[14][0]);
        } else if j == 32 {
            assert(pc[32].len() <= pc[14].len());
        } else if j == 33 {
            assert(pc[33].len() <= pc[14].len());
        } else if j == 34 {
            assert(pc[34].len() <= pc[14].len());
        } else if j == 35 {
            assert(pc[35][0] != pc[14][0]);
        } else if j == 36 {
            assert(pc[36].len() <= pc[14].len());
        } else if j == 37 {
            assert(pc[37].len() <= pc[14].len());
        } else if j == 38 {
            assert(pc[38].len() <= pc[14].len());
        } else if j == 39 {
            assert(pc[39].len() <= pc[14].len());
        } else if j == 40 {
            assert(pc[40].len() <= pc[14].len());
        }
    }
}

proof fn lemma_no_later_extension_15()
    ensures
        forall|j: int| 15 < j < 41 ==> !extends_tag(#[trigger] pattern_chars()[j], pattern_chars()[15]),
{
    let pc = pattern_chars();
    assert forall|j: int| 15 < j < 41 implies !extends_tag(#[trigger] pc[j], pc[15]) by {
        if j == 16 {
            assert(pc[16][1] != pc[15][1]);
        } else if j == 17 {
            assert(pc[17][1] != pc[15][1]);
        } else if j == 18 {
            assert(pc[18][1] != pc[15][1]);
        } else if j == 19 {
            assert(pc[19].len() <= pc[15].len());
        } else if j == 20 {
            assert(pc[20].len() <= pc[15].len());
        } else if j == 21 {
            assert(pc[21].len() <= pc[15].len());
        } else if j == 22 {
            assert(pc[22].len() <= pc[15].len());
        } else if j == 23 {
            assert(pc[23].len() <= pc[15].len());
        } else if j == 24 {
            assert(pc[24].len() <= pc[15].len());
        } else if j == 25 {
            assert(pc[25].len() <= pc[15].len());
        } else if j == 26 {
            assert(pc[26].len() <= pc[15].len());
        } else if j == 27 {
            assert(pc[27].len() <= pc[15].len());
        } else if j == 28 {
            assert(pc[28].len() <= pc[15].len());
        } else if j == 29 {
            assert(pc[29][0] != pc[15][0]);
        } else if j == 30 {
            assert(pc[30][0] != pc[15][0]);
        } else if j == 31 {
            assert(pc[31][0] != pc[15][0]);
        } else if j == 32 {
            assert(pc[32][0] != pc[15][0]);
        } else if j == 33 {
            assert(pc[33][0] != pc[15][0]);
        } else if j == 34 {
            assert(pc[34][0] != pc[15][0]);
        } else if j == 35 {
            assert(pc[35][0] != pc[15][0]);
        } else if j == 36 {
            assert(pc[36][0] != pc[15][0]);
        } else if j == 37 {
            assert(pc[37][0] != pc[15][0]);
        } else if j == 38 {
            assert(pc[38][0] != pc[15][0]);
        } else if j == 39 {
            assert(pc[39][0] != pc[15][0]);
        } else if j == 40 {
            assert(pc[40][0] != pc[15][0]);
        }
    }
}

proof fn lemma_no_later_extension_16()
    ensures
        forall|j: int| 16 < j < 41 ==> !extends_tag(#[trigger] pattern_chars()[j], pattern_chars()[16]),
{
    let pc = pattern_chars();
    assert forall|j: int| 16 < j < 41 implies !extends_tag(#[trigger] pc[j], pc[16]) by {
        if j == 17 {
            assert(pc[17].len() <= pc[16].len());
        } else if j == 18 {
            assert(pc[18].len() <= pc[16].len());
        } else if j == 19 {
            assert(pc[19].len() <= pc[16].len());
        } else if j == 20 {
            assert(pc[20].len() <= pc[16].len());
        } else if j == 21 {
            assert(pc[21].len() <= pc[16].len());
        } else if j == 22 {
            assert(pc[22].len() <= pc[16].len());
        } else if j == 23 {
            assert(pc[23].len() <= pc[16].len());
        } else if j == 24 {
            assert(pc[24].len() <= pc[16].len());
        } else if j == 25 {
            assert(pc[25].len() <= pc[16].len());
        } else if j == 26 {
            assert(pc[26].len() <= pc[16].len());
        } else if j == 27 {
            assert(pc[27].len() <= pc[16].len());
        } else if j == 28 {
            assert(pc[28].len() <= pc[16].len());
        } else if j == 29 {
            assert(pc[29].len() <= pc[16].len());
        } else if j == 30 {
            assert(pc[30].len() <= pc[16].len());
        } else if j == 31 {
            assert(pc[31][0] != pc[16][0]);
        } else if j == 32 {
            assert(pc[32].len() <= pc[16].len());
        } else if j == 33 {
            assert(pc[33].len() <= pc[16].len());
        } else if j == 34 {
            assert(pc[34].len() <= pc[16].len());
        } else if j == 35 {
            assert(pc[35][0] != pc[16][0]);
        } else if j == 36 {
            assert(pc[36].len() <= pc[16].len());
        } else if j == 37 {
            assert(pc[37].len() <= pc[16].len());
        } else if j == 38 {
            assert(pc[38].len() <= pc[16].len());
        } else if j == 39 {
            assert(pc[39].len() <= pc[16].len());
        } else if j == 40 {
            assert(pc[40].len() <= pc[16].len());
        }
    }
}

proof fn lemma_no_later_extension_17()
    ensures
        forall|j: int| 17 < j < 41 ==> !extends_tag(#[trigger] pattern_chars()[j], pattern_chars()[17]),
{
    let pc = pattern_chars();
    assert forall|j: int| 17 < j < 41 implies !extends_tag(#[trigger] pc[j], pc[17]) by {
        if j == 18 {
            assert(pc[18].len() <= pc[17].len());
        } else if j == 19 {
            assert(pc[19].len() <= pc[17].len());
        } else if j == 20 {
            assert(pc[20].len() <= pc[17].len());
        } else if j == 21 {
            assert(pc[21].len() <= pc[17].len());
        } else if j == 22 {
            assert(pc[22].len() <= pc[17].len());
        } else if j == 23 {
            assert(pc[23].len() <= pc[17].len());
        } else if j == 24 {
            assert(pc[24].len() <= pc[17].len());
        } else if j == 25 {
            assert(pc[25].len() <= pc[17].len());
        } else if j == 26 {
            assert(pc[26].len() <= pc[17].len());
        } else if j == 27 {
            assert(pc[27].len() <= pc[17].len());
        } else if j == 28 {
            assert(pc[28].len() <= pc[17].len());
        } else if j == 29 {
            assert(pc[29].len() <= pc[17].len());
        } else if j == 30 {
            assert(pc[30].len() <= pc[17].len());
        } else if j == 31 {
            assert(pc[31][0] != pc[17][0]);
        } else if j == 32 {
            assert(pc[32].len() <= pc[17].len());
        } else if j == 33 {
            assert(pc[33].len() <= pc[17].len());
        } else if j == 34 {
            assert(pc[34].len() <= pc[17].len());
        } else if j == 35 {
            assert(pc[35][0] != pc[17][0]);
        } else if j == 36 {
            assert(pc[36].len() <= pc[17].len());
        } else if j == 37 {
            assert(pc[37].len() <= pc[17].len());
        } else if j == 38 {
            assert(pc[38].len() <= pc[17].len());
        } else if j == 39 {
            assert(pc[39].len() <= pc[17].len());
        } else if j == 40 {
            assert(pc[40].len() <= pc[17].len());
        }
    }
}

proof fn lemma_no_later_extension_18()
    ensures
        forall|j: int| 18 < j < 41 ==> !extends_tag(#[trigger] pattern_chars()[j], pattern_chars()[18]),
{
    let pc = pattern_chars();
    assert forall|j: int| 18 < j < 41 implies !extends_tag(#[trigger] pc[j], pc[18]) by {
        if j == 19 {
            assert(pc[19].len() <= pc[18].len());
        } else if j == 20 {
            assert(pc[20].len() <= pc[18].len());
        } else if j == 21 {
            assert(pc[21].len() <= pc[18].len());
        } else if j == 22 {
            assert(pc[22].len() <= pc[18].len());
        } else if j == 23 {
            assert(pc[23].len() <= pc[18].len());
        } else if j == 24 {
            assert(pc[24].len() <= pc[18].len());
        } else if j == 25 {
            assert(pc[25].len() <= pc[18].len());
        } else if j == 26 {
            assert(pc[26].len() <= pc[18].len());
        } else if j == 27 {
            assert(pc[27].len() <= pc[18].len());
        } else if j == 28 {
            assert(pc[28].len() <= pc[18].len());
        } else if j == 29 {
            assert(pc[29].len() <= pc[18].len());
        } else if j == 30 {
            assert(pc[30].len() <= pc[18].len());
        } else if j == 31 {
            assert(pc[31][0] != pc[18][0]);
        } else if j == 32 {
            assert(pc[32].len() <= pc[18].len());
        } else if j == 33 {
            assert(pc[33].len() <= pc[18].len());
        } else if j == 34 {
            assert(pc[34].len() <= pc[18].len());
        } else if j == 35 {
            assert(pc[35][0] != pc[18][0]);
        } else if j == 36 {
            assert(pc[36].len() <= pc[18].len());
        } else if j == 37 {
            assert(pc[37].len() <= pc[18].len());
        } else if j == 38 {
            assert(pc[38].len() <= pc[18].len());
        } else if j == 39 {
            assert(pc[39].len() <= pc[18].len());
        } else if j == 40 {
            assert(pc[40].len() <= pc[18].len());
        }
    }
}

proof fn lemma_no_later_extension_19()
    ensures
        forall|j: int| 19 < j < 41 ==> !extends_tag(#[trigger] pattern_chars()[j], pattern_chars()[19]),
{
    let pc = pattern_chars();
    assert forall|j: int| 19 < j < 41 implies !extends_tag(#[trigger] pc[j], pc[19]) by {
        if j == 20 {
            assert(pc[20].len() <= pc[19].len());
        } else if j == 21 {
            assert(pc[21].len() <= pc[19].len());
        } else if j == 22 {
            assert(pc[22].len() <= pc[19].len());
        } else if j == 23 {
            assert(pc[23].len() <= pc[19].len());
        } else if j == 24 {
            assert(pc[24].len() <= pc[19].len());
        } else if j == 25 {
            assert(pc[25].len() <= pc[19].len());
        } else if j == 26 {
            assert(pc[26].len() <= pc[19].len());
        } else if j == 27 {
            assert(pc[27].len() <= pc[19].len());
        } else if j == 28 {
            assert(pc[28].len() <= pc[19].len());
        } else if j == 29 {
            assert(pc[29][0] != pc[19][0]);
        } else if j == 30 {
            assert(pc[30][0] != pc[19][0]);
        } else if j == 31 {
            assert(pc[31][0] != pc[19][0]);
        } else if j == 32 {
            assert(pc[32][0] != pc[19][0]);
        } else if j == 33 {
            assert(pc[33][0] != pc[19][0]);
        } else if j == 34 {
            assert(pc[34][0] != pc[19][0]);
        } else if j == 35 {
            assert(pc[35][0] != pc[19][0]);
        } else if j == 36 {
            assert(pc[36][0] != pc[19][0]);
        } else if j == 37 {
            assert(pc[37][0] != pc[19][0]);
        } else if j == 38 {
            assert(pc[38][0] != pc[19][0]);
        } else if j == 39 {
            assert(pc[39][0] != pc[19][0]);
        } else if j == 40 {
            assert(pc[40][0] != pc[19][0]);
        }
    }
}

proof fn lemma_no_later_extension_20()
    ensures
        forall|j: int| 20 < j < 41 ==> !extends_tag(#[trigger] pattern_chars()[j], pattern_chars()[20]),
{
    let pc = pattern_chars();
    assert forall|j: int| 20 < j < 41 implies !extends_tag(#[trigger] pc[j], pc[20]) by {
        if j == 21 {
            assert(pc[21].len() <= pc[20].len());
        } else if j == 22 {
            assert(pc[22].len() <= pc[20].len());
        } else if j == 23 {
            assert(pc[23].len() <= pc[20].len());
        } else if j == 24 {
            assert(pc[24].len() <= pc[20].len());
        } else if j == 25 {
            assert(pc[25].len() <= pc[20].len());
        } else if j == 26 {
            assert(pc[26].len() <= pc[20].len());
        } else if j == 27 {
            assert(pc[27].len() <= pc[20].len());
        } else if j == 28 {
            assert(pc[28].len() <= pc[20].len());
        } else if j == 29 {
            assert(pc[29][0] != pc[20][0]);
        } else if j == 30 {
            assert(pc[30][0] != pc[20][0]);
        } else if j == 31 {
            assert(pc[31][0] != pc[20][0]);
        } else if j == 32 {
            assert(pc[32][0] != pc[20][0]);
        } else if j == 33 {
            assert(pc[33][0] != pc[20][0]);
        } else if j == 34 {
            assert(pc[34][0] != pc[20][0]);
        } else if j == 35 {
            assert(pc[35][0] != pc[20][0]);
        } else if j == 36 {
            assert(pc[36][0] != pc[20][0]);
        } else if j == 37 {
            assert(pc[37][0] != pc[20][0]);
        } else if j == 38 {
            assert(pc[38][0] != pc[20][0]);
        } else if j == 39 {
            assert(pc[39][0] != pc[20][0]);
        } else if j == 40 {
            assert(pc[40][0] != pc[20][0]);
        }
    }
}

proof fn lemma_no_later_extension_21()
    ensures
        forall|j: int| 21 < j < 41 ==> !extends_tag(#[trigger] pattern_chars()[j], pattern_chars()[21]),
{
    let pc = pattern_chars();
    assert forall|j: int| 21 < j < 41 implies !extends_tag(#[trigger] pc[j], pc[21]) by {
        if j == 22 {
            assert(pc[22].len() <= pc[21].len());
        } else if j == 23 {
            assert(pc[23].len() <= pc[21].len());
        } else if j == 24 {
            assert(pc[24].len() <= pc[21].len());
        } else if j == 25 {
            assert(pc[25].len() <= pc[21].len());
        } else if j == 26 {
            assert(pc[26].len() <= pc[21].len());
        } else if j == 27 {
            assert(pc[27].len() <= pc[21].len());
        } else if j == 28 {
            assert(pc[28].len() <= pc[21].len());
        } else if j == 29 {
            assert(pc[29][0] != pc[21][0]);
        } else if j == 30 {
            assert(pc[30][0] != pc[21][0]);
        } else if j == 31 {
            assert(pc[31][0] != pc[21][0]);
        } else if j == 32 {
            assert(pc[32][0] != pc[21][0]);
        } else if j == 33 {
            assert(pc[33][0] != pc[21][0]);
        } else if j == 34 {
            assert(pc[34][0] != pc[21][0]);
        } else if j == 35 {
            assert(pc[35][0] != pc[21][0]);
        } else if j == 36 {
            assert(pc[36][0] != pc[21][0]);
        } else if j == 37 {
            assert(pc[37][0] != pc[21][0]);
        } else if j == 38 {
            assert(pc[38][0] != pc[21][0]);
        } else if j == 39 {
            assert(pc[39][0] != pc[21][0]);
        } else if j == 40 {
            assert(pc[40][0] != pc[21][0]);
        }
    }
}

proof fn lemma_no_later_extension_22()
    ensures
        forall|j: int| 22 < j < 41 ==> !extends_tag(#[trigger] pattern_chars()[j], pattern_chars()[22]),
{
    let pc = pattern_chars();
    assert forall|j: int| 22 < j < 41 implies !extends_tag(#[trigger] pc[j], pc[22]) by {
        if j == 23 {
            assert(pc[23].len() <= pc[22].len());
        } else if j == 24 {
            assert(pc[24].len() <= pc[22].len());
        } else if j == 25 {
            assert(pc[25].len() <= pc[22].len());
        } else if j == 26 {
            assert(pc[26].len() <= pc[22].len());
        } else if j == 27 {
            assert(pc[27].len() <= pc[22].len());
        } else if j == 28 {
            assert(pc[28].len() <= pc[22].len());
        } else if j == 29 {
            assert(pc[29][0] != pc[22][0]);
        } else if j == 30 {
            assert(pc[30][0] != pc[22][0]);
        } else if j == 31 {
            assert(pc[31][0] != pc[22][0]);
        } else if j == 32 {
            assert(pc[32][0] != pc[22][0]);
        } else if j == 33 {
            assert(pc[33][0] != pc[22][0]);
        } else if j == 34 {
            assert(pc[34][0] != pc[22][0]);
        } else if j == 35 {
            assert(pc[35][0] != pc[22][0]);
        } else if j == 36 {
            assert(pc[36][0] != pc[22][0]);
        } else if j == 37 {
            assert(pc[37][0] != pc[22][0]);
        } else if j == 38 {
            assert(pc[38][0] != pc[22][0]);
        } else if j == 39 {
            assert(pc[39][0] != pc[22][0]);
        } else if j == 40 {
            assert(pc[40][0] != pc[22][0]);
        }
    }
}

proof fn lemma_no_later_extension_23()
    ensures
        forall|j: int| 23 < j < 41 ==> !extends_tag(#[trigger] pattern_chars()[j], pattern_chars()[23]),
{
    let pc = pattern_chars();
    assert forall|j: int| 23 < j < 41 implies !extends_tag(#[trigger] pc[j], pc[23]) by {
        if j == 24 {
            assert(pc[24].len() <= pc[23].len());
        } else if j == 25 {
            assert(pc[25].len() <= pc[23].len());
        } else if j == 26 {
            assert(pc[26].len() <= pc[23].len());
        } else if j == 27 {
            assert(pc[27].len() <= pc[23].len());
        } else if j == 28 {
            assert(pc[28].len() <= pc[23].len());
        } else if j == 29 {
            assert(pc[29][0] != pc[23][0]);
        } else if j == 30 {
            assert(pc[30][0] != pc[23][0]);
        } else if j == 31 {
            assert(pc[31][0] != pc[23][0]);
        } else if j == 32 {
            assert(pc[32][0] != pc[23][0]);
        } else if j == 33 {
            assert(pc[33][0] != pc[23][0]);
        } else if j == 34 {
            assert(pc[34][0] != pc[23][0]);
        } else if j == 35 {
            assert(pc[35][0] != pc[23][0]);
        } else if j == 36 {
            assert(pc[36][0] != pc[23][0]);
        } else if j == 37 {
            assert(pc[37][0] != pc[23][0]);
        } else if j == 38 {
            assert(pc[38][0] != pc[23][0]);
        } else if j == 39 {
            assert(pc[39][0] != pc[23][0]);
        } else if j == 40 {
            assert(pc[40][0] != pc[23][0]);
        }
    }
}

proof fn lemma_no_later_extension_24()
    ensures
        forall|j: int| 24 < j < 41 ==> !extends_tag(#[trigger] pattern_chars()[j], pattern_chars()[24]),
{
    let pc = pattern_chars();
    assert forall|j: int| 24 < j < 41 implies !extends_tag(#[trigger] pc[j], pc[24]) by {
        if j == 25 {
            assert(pc[25].len() <= pc[24].len());
        } else if j == 26 {
            assert(pc[26].len() <= pc[24].len());
        } else if j == 27 {
            assert(pc[27].len() <= pc[24].len());
        } else if j == 28 {
            assert(pc[28].len() <= pc[24].len());
        } else if j == 29 {
            assert(pc[29][0] != pc[24][0]);
        } else if j == 30 {
            assert(pc[30][0] != pc[24][0]);
        } else if j == 31 {
            assert(pc[31][0] != pc[24][0]);
        } else if j == 32 {
            assert(pc[32][0] != pc[24][0]);
        } else if j == 33 {
            assert(pc[33][0] != pc[24][0]);
        } else if j == 34 {
            assert(pc[34][0] != pc[24][0]);
        } else if j == 35 {
            assert(pc[35][0] != pc[24][0]);
        } else if j == 36 {
            assert(pc[36][0] != pc[24][0]);
        } else if j == 37 {
            assert(pc[37][0] != pc[24][0]);
        } else if j == 38 {
            assert(pc[38][0] != pc[24][0]);
        } else if j == 39 {
            assert(pc[39][0] != pc[24][0]);
        } else if j == 40 {
            assert(pc[40][0] != pc[24][0]);
        }
    }
}

proof fn lemma_no_later_extension_25()
    ensures
        forall|j: int| 25 < j < 41 ==> !extends_tag(#[trigger] pattern_chars()[j], pattern_chars()[25]),
{
    let pc = pattern_chars();
    assert forall|j: int| 25 < j < 41 implies !extends_tag(#[trigger] pc[j], pc[25]) by {
        if j == 26 {
            assert(pc[26].len() <= pc[25].len());
        } else if j == 27 {
            assert(pc[27].len() <= pc[25].len());
        } else if j == 28 {
            assert(pc[28].len() <= pc[25].len());
        } else if j == 29 {
            assert(pc[29][0] != pc[25][0]);
        } else if j == 30 {
            assert(pc[30][0] != pc[25][0]);
        } else if j == 31 {
            assert(pc[31][0] != pc[25][0]);
        } else if j == 32 {
            assert(pc[32][0] != pc[25][0]);
        } else if j == 33 {
            assert(pc[33][0] != pc[25][0]);
        } else if j == 34 {
            assert(pc[34][0] != pc[25][0]);
        } else if j == 35 {
            assert(pc[35][0] != pc[25][0]);
        } else if j == 36 {
            assert(pc[36][0] != pc[25][0]);
        } else if j == 37 {
            assert(pc[37][0] != pc[25][0]);
        } else if j == 38 {
            assert(pc[38][0] != pc[25][0]);
        } else if j == 39 {
            assert(pc[39][0] != pc[25][0]);
        } else if j == 40 {
            assert(pc[40][0] != pc[25][0]);
        }
    }
}

proof fn lemma_no_later_extension_26()
    ensures
        forall|j: int| 26 < j < 41 ==> !extends_tag(#[trigger] pattern_chars()[j], pattern_chars()[26]),
{
    let pc = pattern_chars();
    assert forall|j: int| 26 < j < 41 implies !extends_tag(#[trigger] pc[j], pc[26]) by {
        if j == 27 {
            assert(pc[27].len() <= pc[26].len());
        } else if j == 28 {
            assert(pc[28][0] != pc[26][0]);
        } else if j == 29 {
            assert(pc[29][0] != pc[26][0]);
        } else if j == 30 {
            assert(pc[30][0] != pc[26][0]);
        } else if j == 31 {
            assert(pc[31][0] != pc[26][0]);
        } else if j == 32 {
            assert(pc[32][0] != pc[26][0]);
        } else if j == 33 {
            assert(pc[33][0] != pc[26][0]);
        } else if j == 34 {
            assert(pc[34][0] != pc[26][0]);
        } else if j == 35 {
            assert(pc[35][0] != pc[26][0]);
        } else if j == 36 {
            assert(pc[36][0] != pc[26][0]);
        } else if j == 37 {
            assert(pc[37][0] != pc[26][0]);
        } else if j == 38 {
            assert(pc[38][0] != pc[26][0]);
        } else if j == 39 {
            assert(pc[39][0] != pc[26][0]);
        } else if j == 40 {
            assert(pc[40][0] != pc[26][0]);
        }
    }
}

proof fn lemma_no_later_extension_27()
    ensures
        forall|j: int| 27 < j < 41 ==> !extends_tag(#[trigger] pattern_chars()[j], pattern_chars()[27]),
{
    let pc = pattern_chars();
    assert forall|j: int| 27 < j < 41 implies !extends_tag(#[trigger] pc[j], pc[27]) by {
        if j == 28 {
            assert(pc[28][0] != pc[27][0]);
        } else if j == 29 {
            assert(pc[29][0] != pc[27][0]);
        } else if j == 30 {
            assert(pc[30][0] != pc[27][0]);
        } else if j == 31 {
            assert(pc[31][0] != pc[27][0]);
        } else if j == 32 {
            assert(pc[32][0] != pc[27][0]);
        } else if j == 33 {
            assert(pc[33][0] != pc[27][0]);
        } else if j == 34 {
            assert(pc[34][0] != pc[27][0]);
        } else if j == 35 {
            assert(pc[35][0] != pc[27][0]);
        } else if j == 36 {
            assert(pc[36][0] != pc[27][0]);
        } else if j == 37 {
            assert(pc[37][0] != pc[27][0]);
        } else if j == 38 {
            assert(pc[38][0] != pc[27][0]);
        } else if j == 39 {
            assert(pc[39][0] != pc[27][0]);
        } else if j == 40 {
            assert(pc[40][0] != pc[27][0]);
        }
    }
}

proof fn lemma_no_later_extension_28()
    ensures
        forall|j: int| 28 < j < 41 ==> !extends_tag(#[trigger] pattern_chars()[j], pattern_chars()[28]),
{
    let pc = pattern_chars();
    assert forall|j: int| 28 < j < 41 implies !extends_tag(#[trigger] pc[j], pc[28]) by {
        if j == 29 {
            assert(pc[29][0] != pc[28][0]);
        } else if j == 30 {
            assert(pc[30][0] != pc[28][0]);
        } else if j == 31 {
            assert(pc[31][0] != pc[28][0]);
        } else if j == 32 {
            assert(pc[32][0] != pc[28][0]);
        } else if j == 33 {
            assert(pc[33][0] != pc[28][0]);
        } else if j == 34 {
            assert(pc[34][0] != pc[28][0]);
        } else if j == 35 {
            assert(pc[35][0] != pc[28][0]);
        } else if j == 36 {
            assert(pc[36][0] != pc[28][0]);
        } else if j == 37 {
            assert(pc[37][0] != pc[28][0]);
        } else if j == 38 {
            assert(pc[38][0] != pc[28][0]);
        } else if j == 39 {
            assert(pc[39][0] != pc[28][0]);
        } else if j == 40 {
            assert(pc[40][0] != pc[28][0]);
        }
    }
}

proof fn lemma_no_later_extension_29()
    ensures
        forall|j: int| 29 < j < 41 ==> !extends_tag(#[trigger] pattern_chars()[j], pattern_chars()[29]),
{
    let pc = pattern_chars();
    assert forall|j: int| 29 < j < 41 implies !extends_tag(#[trigger] pc[j], pc[29]) by {
        if j == 30 {
            assert(pc[30].len() <= pc[29].len());
        } else if j == 31 {
            assert(pc[31][2] != pc[29][2]);
        } else if j == 32 {
            assert(pc[32][2] != pc[29][2]);
        } else if j == 33 {
            assert(pc[33].len() <= pc[29].len());
        } else if j == 34 {
            assert(pc[34].len() <= pc[29].len());
        } else if j == 35 {
            assert(pc[35][2] != pc[29][2]);
        } else if j == 36 {
            assert(pc[36][2] != pc[29][2]);
        } else if j == 37 {
            assert(pc[37].len() <= pc[29].len());
        } else if j == 38 {
            assert(pc[38].len() <= pc[29].len());
        } else if j == 39 {
            assert(pc[39][2] != pc[29][2]);
        } else if j == 40 {
            assert(pc[40][2] != pc[29][2]);
        }
    }
}

proof fn lemma_no_later_extension_30()
    ensures
        forall|j: int| 30 < j < 41 ==> !extends_tag(#[trigger] pattern_chars()[j], pattern_chars()[30]),
{
    let pc = pattern_chars();
    assert forall|j: int| 30 < j < 41 implies !extends_tag(#[trigger] pc[j], pc[30]) by {
        if j == 31 {
            assert(pc[31][2] != pc[30][2]);
        } else if j == 32 {
            assert(pc[32][2] != pc[30][2]);
        } else if j == 33 {
            assert(pc[33].len() <= pc[30].len());
        } else if j == 34 {
            assert(pc[34].len() <= pc[30].len());
        } else if j == 35 {
            assert(pc[35][2] != pc[30][2]);
        } else if j == 36 {
            assert(pc[36][2] != pc[30][2]);
        } else if j == 37 {
            assert(pc[37].len() <= pc[30].len());
        } else if j == 38 {
            assert(pc[38].len() <= pc[30].len());
        } else if j == 39 {
            assert(pc[39][2] != pc[30][2]);
        } else if j == 40 {
            assert(pc[40][2] != pc[30][2]);
        }
    }
}

proof fn lemma_no_later_extension_31()
    ensures
        forall|j: int| 31 < j < 41 ==> !extends_tag(#[trigger] pattern_chars()[j], pattern_chars()[31]),
{
    let pc = pattern_chars();
    assert forall|j: int| 31 < j < 41 implies !extends_tag(#[trigger] pc[j], pc[31]) by {
        if j == 32 {
            assert(pc[32].len() <= pc[31].len());
        } else if j == 33 {
            assert(pc[33].len() <= pc[31].len());
        } else if j == 34 {
            assert(pc[34].len() <= pc[31].len());
        } else if j == 35 {
            assert(pc[35].len() <= pc[31].len());
        } else if j == 36 {
            assert(pc[36].len() <= pc[31].len());
        } else if j == 37 {
            assert(pc[37].len() <= pc[31].len());
        } else if j == 38 {
            assert(pc[38].len() <= pc[31].len());
        } else if j == 39 {
            assert(pc[39].len() <= pc[31].len());
        } else if j == 40 {
            assert(pc[40].len() <= pc[31].len());
        }
    }
}

proof fn lemma_no_later_extension_32()
    ensures
        forall|j: int| 32 < j < 41 ==> !extends_tag(#[trigger] pattern_chars()[j], pattern_chars()[32]),
{
    let pc = pattern_chars();
    assert forall|j: int| 32 < j < 41 implies !extends_tag(#[trigger] pc[j], pc[32]) by {
        if j == 33 {
            assert(pc[33].len() <= pc[32].len());
        } else if j == 34 {
            assert(pc[34].len() <= pc[32].len());
        } else if j == 35 {
            assert(pc[35][2] != pc[32][2]);
        } else if j == 36 {
            assert(pc[36].len() <= pc[32].len());
        } else if j == 37 {
            assert(pc[37].len() <= pc[32].len());
        } else if j == 38 {
            assert(pc[38].len() <= pc[32].len());
        } else if j == 39 {
            assert(pc[39].len() <= pc[32].len());
        } else if j == 40 {
            assert(pc[40].len() <= pc[32].len());
        }
    }
}

proof fn lemma_no_later_extension_33()
    ensures
        forall|j: int| 33 < j < 41 ==> !extends_tag(#[trigger] pattern_chars()[j], pattern_chars()[33]),
{
    let pc = pattern_chars();
    assert forall|j: int| 33 < j < 41 implies !extends_tag(#[trigger] pc[j], pc[33]) by {
        if j == 34 {
            assert(pc[34].len() <= pc[33].len());
        } else if j == 35 {
            assert(pc[35][2] != pc[33][2]);
        } else if j == 36 {
            assert(pc[36][2] != pc[33][2]);
        } else if j == 37 {
            assert(pc[37].len() <= pc[33].len());
        } else if j == 38 {
            assert(pc[38].len() <= pc[33].len());
        } else if j == 39 {
            assert(pc[39][2] != pc[33][2]);
        } else if j == 40 {
            assert(pc[40][2] != pc[33][2]);
        }
    }
}

proof fn lemma_no_later_extension_34()
    ensures
        forall|j: int| 34 < j < 41 ==> !extends_tag(#[trigger] pattern_chars()[j], pattern_chars()[34]),
{
    let pc = pattern_chars();
    assert forall|j: int| 34 < j < 41 implies !extends_tag(#[trigger] pc[j], pc[34]) by {
        if j == 35 {
            assert(pc[35][2] != pc[34][2]);
        } else if j == 36 {
            assert(pc[36][2] != pc[34][2]);
        } else if j == 37 {
            assert(pc[37].len() <= pc[34].len());
        } else if j == 38 {
            assert(pc[38].len() <= pc[34].len());
        } else if j == 39 {
            assert(pc[39][2] != pc[34][2]);
        } else if j == 40 {
            assert(pc[40][2] != pc[34][2]);
        }
    }
}

proof fn lemma_no_later_extension_35()
    ensures
        forall|j: int| 35 < j < 41 ==> !extends_tag(#[trigger] pattern_chars()[j], pattern_chars()[35]),
{
    let pc = pattern_chars();
    assert forall|j: int| 35 < j < 41 implies !extends_tag(#[trigger] pc[j], pc[35]) by {
        if j == 36 {
            assert(pc[36].len() <= pc[35].len());
        } else if j == 37 {
            assert(pc[37].len() <= pc[35].len());
        } else if j == 38 {
            assert(pc[38].len() <= pc[35].len());
        } else if j == 39 {
            assert(pc[39].len() <= pc[35].len());
        } else if j == 40 {
            assert(pc[40].len() <= pc[35].len());
        }
    }
}

proof fn lemma_no_later_extension_36()
    ensures
        forall|j: int| 36 < j < 41 ==> !extends_tag(#[trigger] pattern_chars()[j], pattern_chars()[36]),
{
    let pc = pattern_chars();
    assert forall|j: int| 36 < j < 41 implies !extends_tag(#[trigger] pc[j], pc[36]) by {
        if j == 37 {
            assert(pc[37].len() <= pc[36].len());
        } else if j == 38 {
            assert(pc[38].len() <= pc[36].len());
        } else if j == 39 {
            assert(pc[39].len() <= pc[36].len());
        } else if j == 40 {
            assert(pc[40].len() <= pc[36].len());
        }
    }
}

proof fn lemma_no_later_extension_37()
    ensures
        forall|j: int| 37 < j < 41 ==> !extends_tag(#[trigger] pattern_chars()[j], pattern_chars()[37]),
{
    let pc = pattern_chars();
    assert forall|j: int| 37 < j < 41 implies !extends_tag(#[trigger] pc[j], pc[37]) by {
        if j == 38 {
            assert(pc[38].len() <= pc[37].len());
        } else if j == 39 {
            assert(pc[39][2] != pc[37][2]);
        } else if j == 40 {
            assert(pc[40][2] != pc[37][2]);
        }
    }
}

proof fn lemma_no_later_extension_38()
    ensures
        forall|j: int| 38 < j < 41 ==> !extends_tag(#[trigger] pattern_chars()[j], pattern_chars()[38]),
{
    let pc = pattern_chars();
    assert forall|j: int| 38 < j < 41 implies !extends_tag(#[trigger] pc[j], pc[38]) by {
        if j == 39 {
            assert(pc[39][2] != pc[38][2]);
        } else if j == 40 {
            assert(pc[40][2] != pc[38][2]);
        }
    }
}

proof fn lemma_no_later_extension_39()
    ensures
        forall|j: int| 39 < j < 41 ==> !extends_tag(#[trigger] pattern_chars()[j], pattern_chars()[39]),
{
    let pc = pattern_chars();
    assert forall|j: int| 39 < j < 41 implies !extends_tag(#[trigger] pc[j], pc[39]) by {
        if j == 40 {
            assert(pc[40].len() <= pc[39].len());
        }
    }
}

proof fn lemma_no_later_extension_40()
    ensures
        forall|j: int| 40 < j < 41 ==> !extends_tag(#[trigger] pattern_chars()[j], pattern_chars()[40]),
{
    let pc = pattern_chars();
    assert forall|j: int| 40 < j < 41 implies !extends_tag(#[trigger] pc[j], pc[40]) by {
        
    }
}

/// In the list of recognised tags, no tag is properly extended by a later one:
/// each more specific tag comes before the tags it extends.
proof fn lemma_specific_tags_first()
    ensures
        forall|i: int, j: int| 0 <= i < j < quant_patterns().len()
            ==> !extends_tag(#[trigger] quant_patterns()[j], #[trigger] quant_patterns()[i]),
{
    lemma_pattern_chars();
    lemma_no_later_extension_0();
    lemma_no_later_extension_1();
    lemma_no_later_extension_2();
    lemma_no_later_extension_3();
    lemma_no_later_extension_4();
    lemma_no_later_extension_5();
    lemma_no_later_extension_6();
    lemma_no_later_extension_7();
    lemma_no_later_extension_8();
    lemma_no_later_extension_9();
    lemma_no_later_extension_10();
    lemma_no_later_extension_11();
    lemma_no_later_extension_12();
    lemma_no_later_extension_13();
    lemma_no_later_extension_14();
    lemma_no_later_extension_15();
    lemma_no_later_extension_16();
    lemma_no_later_extension_17();
    lemma_no_later_extension_18();
    lemma_no_later_extension_19();
    lemma_no_later_extension_20();
    lemma_no_later_extension_21();
    lemma_no_later_extension_22();
    lemma_no_later_extension_23();
    lemma_no_later_extension_24();
    lemma_no_later_extension_25();
    lemma_no_later_extension_26();
    lemma_no_later_extension_27();
    lemma_no_later_extension_28();
    lemma_no_later_extension_29();
    lemma_no_later_extension_30();
    lemma_no_later_extension_31();
    lemma_no_later_extension_32();
    lemma_no_later_extension_33();
    lemma_no_later_extension_34();
    lemma_no_later_extension_35();
    lemma_no_later_extension_36();
    lemma_no_later_extension_37();
    lemma_no_later_extension_38();
    lemma_no_later_extension_39();
    lemma_no_later_extension_40();
    assert forall|i: int, j: int| 0 <= i < j < quant_patterns().len()
        implies !extends_tag(#[trigger] quant_patterns()[j], #[trigger] quant_patterns()[i]) by {
        if i == 0 { assert(!extends_tag(pattern_chars()[j], pattern_chars()[0])); }
        if i == 1 { assert(!extends_tag(pattern_chars()[j], pattern_chars()[1])); }
        if i == 2 { assert(!extends_tag(pattern_chars()[j], pattern_chars()[2])); }
        if i == 3 { assert(!extends_tag(pattern_chars()[j], pattern_chars()[3])); }
        if i == 4 { assert(!extends_tag(pattern_chars()[j], pattern_chars()[4])); }
        if i == 5 { assert(!extends_tag(pattern_chars()[j], pattern_chars()[5])); }
        if i == 6 { assert(!extends_tag(pattern_chars()[j], pattern_chars()[6])); }
        if i == 7 { assert(!extends_tag(pattern_chars()[j], pattern_chars()[7])); }
        if i == 8 { assert(!extends_tag(pattern_chars()[j], pattern_chars()[8])); }
        if i == 9 { assert(!extends_tag(pattern_chars()[j], pattern_chars()[9])); }
        if i == 10 { assert(!extends_tag(pattern_chars()[j], pattern_chars()[10])); }
        if i == 11 { assert(!extends_tag(pattern_chars()[j], pattern_chars()[11])); }
        if i == 12 { assert(!extends_tag(pattern_chars()[j], pattern_chars()[12])); }
        if i == 13 { assert(!extends_tag(pattern_chars()[j], pattern_chars()[13])); }
        if i == 14 { assert(!extends_tag(pattern_chars()[j], pattern_chars()[14])); }
        if i == 15 { assert(!extends_tag(pattern_chars()[j], pattern_chars()[15])); }
        if i == 16 { assert(!extends_tag(pattern_chars()[j], pattern_chars()[16])); }
        if i == 17 { assert(!extends_tag(pattern_chars()[j], pattern_chars()[17])); }
        if i == 18 { assert(!extends_tag(pattern_chars()[j], pattern_chars()[18])); }
        if i == 19 { assert(!extends_tag(pattern_chars()[j], pattern_chars()[19])); }
        if i == 20 { assert(!extends_tag(pattern_chars()[j], pattern_chars()[20])); }
        if i == 21 { assert(!extends_tag(pattern_chars()[j], pattern_chars()[21])); }
        if i == 22 { assert(!extends_tag(pattern_chars()[j], pattern_chars()[22])); }
        if i == 23 { assert(!extends_tag(pattern_chars()[j], pattern_chars()[23])); }
        if i == 24 { assert(!extends_tag(pattern_chars()[j], pattern_chars()[24])); }
        if i == 25 { assert(!extends_tag(pattern_chars()[j], pattern_chars()[25])); }
        if i == 26 { assert(!extends_tag(pattern_chars()[j], pattern_chars()[26])); }
        if i == 27 { assert(!extends_tag(pattern_chars()[j], pattern_chars()[27])); }
        if i == 28 { assert(!extends_tag(pattern_chars()[j], pattern_chars()[28])); }
        if i == 29 { assert(!extends_tag(pattern_chars()[j], pattern_chars()[29])); }
        if i == 30 { assert(!extends_tag(pattern_chars()[j], pattern_chars()[30])); }
        if i == 31 { assert(!extends_tag(pattern_chars()[j], pattern_chars()[31])); }
        if i == 32 { assert(!extends_tag(pattern_chars()[j], pattern_chars()[32])); }
        if i == 33 { assert(!extends_tag(pattern_chars()[j], pattern_chars()[33])); }
        if i == 34 { assert(!extends_tag(pattern_chars()[j], pattern_chars()[34])); }
        if i == 35 { assert(!extends_tag(pattern_chars()[j], pattern_chars()[35])); }
        if i == 36 { assert(!extends_tag(pattern_chars()[j], pattern_chars()[36])); }
        if i == 37 { assert(!extends_tag(pattern_chars()[j], pattern_chars()[37])); }
        if i == 38 { assert(!extends_tag(pattern_chars()[j], pattern_chars()[38])); }
        if i == 39 { assert(!extends_tag(pattern_chars()[j], pattern_chars()[39])); }
        if i == 40 { assert(!extends_tag(pattern_chars()[j], pattern_chars()[40])); }
    }
}

/// The first tag of `patterns` that occurs in `lower` is found at an index at or
/// before any other tag that occurs.
proof fn lemma_first_pattern_at_or_before(lower: Seq<char>, patterns: Seq<Seq<char>>, j: int)
    requires
        0 <= j < patterns.len(),
        seq_contains(lower, patterns[j]),
    ensures
        exists|i: int| 0 <= i <= j && first_pattern_in(lower, patterns) == Some(#[trigger] patterns[i]),
    decreases patterns.len(),
{
    if seq_contains(lower, patterns[0]) {
        assert(first_pattern_in(lower, patterns) == Some(patterns[0]));
    } else {
        let rest = patterns.drop_first();
        assert(rest[j - 1] == patterns[j]);
        lemma_first_pattern_at_or_before(lower, rest, j - 1);
        let i = choose|i: int| 0 <= i <= j - 1 && first_pattern_in(lower, rest) == Some(#[trigger] rest[i]);
        assert(rest[i] == patterns[i + 1]);
    }
}

/// The most specific recognised tag wins: the tag read from a file name is never
/// properly extended by another recognised tag that also occurs in it (a name with
/// `q5_k_m` gives `q5_k_m`, not `q5_k`).
pub proof fn law_most_specific_tag_wins(lower: Seq<char>, j: int)
    requires
        0 <= j < quant_patterns().len(),
        seq_contains(lower, quant_patterns()[j]),
    ensures
        first_pattern_in(lower, quant_patterns()) is Some,
        !extends_tag(quant_patterns()[j], first_pattern_in(lower, quant_patterns())->Some_0),
{
    lemma_first_pattern_at_or_before(lower, quant_patterns(), j);
    lemma_specific_tags_first();
    let i = choose|i: int| 0 <= i <= j && first_pattern_in(lower, quant_patterns()) == Some(#[trigger] quant_patterns()[i]);
    if i < j {
        assert(!extends_tag(quant_patterns()[j], quant_patterns()[i]));
    }
}

/// The first recognised tag that occurs in `lower`, if any.
pub open spec fn first_pattern_in(lower: Seq<char>, patterns: Seq<Seq<char>>) -> Option<Seq<char>>
    decreases patterns.len(),
{
    if patterns.len() == 0 {
        None
    } else if seq_contains(lower, patterns[0]) {
        Some(patterns[0])
    } else {
        first_pattern_in(lower, patterns.drop_first())
    }
}

/// Unicode alphanumeric character (`char::is_alphanumeric`).
pub uninterp spec fn spec_is_alphanumeric(c: char) -> bool;

/// Whether a character is alphanumeric.
///
/// Calls `char::is_alphanumeric`; the result depends on the character alone and is
/// named `spec_is_alphanumeric`.
#[verifier::external_body]
fn is_alphanumeric(c: char) -> (r: bool)
    ensures
        r == spec_is_alphanumeric(c),
{
    c.is_alphanumeric()
}

/// A separator between the words of a file name: neither alphanumeric nor `_`.
pub open spec fn is_word_separator(c: char) -> bool {
    !spec_is_alphanumeric(c) && c != '_'
}

/// A word that looks like a quantization tag: it starts with `q`, `f` or `iq`, is
/// at least two bytes long, and its second character is an ASCII digit.
pub open spec fn is_quant_word(w: Seq<char>) -> bool {
    &&& (w.len() > 0 && (w[0] == 'q' || w[0] == 'f')) || seq_starts_with(w, "iq"@)
    &&& vstd::utf8::encode_utf8(w).len() >= 2
    &&& w.len() >= 2
    &&& is_ascii_digit(w[1])
}

/// Scanning the rest `s` of a file name with the word `word` in progress: the
/// first separator-delimited word that looks like a quantization tag.
pub open spec fn scan_quant_word(s: Seq<char>, word: Seq<char>) -> Option<Seq<char>>
    decreases s.len(),
{
    if s.len() == 0 {
        if is_quant_word(word) { Some(word) } else { None }
    } else if is_word_separator(s[0]) {
        if is_quant_word(word) { Some(word) } else { scan_quant_word(s.drop_first(), Seq::empty()) }
    } else {
        scan_quant_word(s.drop_first(), word.push(s[0]))
    }
}

fn quant_word(word: &str) -> (r: bool)
    ensures
        r == is_quant_word(word@),
{
    let n = word.unicode_len();
    let starts = (n > 0 && (word.get_char(0) == 'q' || word.get_char(0) == 'f')) || {
        proof {
            reveal_strlit("iq");
        }
        crate::text::str_starts_with(word, "iq")
    };
    let byte_len = word.as_bytes().len();
    starts && byte_len >= 2 && n >= 2 && {
        let c = word.get_char(1);
        '0' <= c && c <= '9'
    }
}

/// Extract a quantization tag dynamically from a lowercased file name: the first
/// word (split at characters that are neither alphanumeric nor `_`) that starts
/// with `q`, `f` or `iq` and has an ASCII digit as its second character, uppercased.
pub fn extract_dynamic_quant_pattern(filename: &str) -> (r: Option<String>)
    ensures
        match scan_quant_word(filename@, Seq::empty()) {
            Some(w) => r is Some && r->Some_0@ == text_uppercase(w),
            None => r is None,
        },
{
    let n = filename.unicode_len();
    let mut word = String::new();
    let mut i: usize = 0;
    proof {
        assert(filename@.skip(0) =~= filename@);
    }
    while i < n
        invariant
            n == filename@.len(),
            i <= n,
            scan_quant_word(filename@, Seq::empty()) == scan_quant_word(filename@.skip(i as int), word@),
        decreases n - i,
    {
        let c = filename.get_char(i);
        proof {
            assert(filename@.skip(i as int)[0] == c);
            assert(filename@.skip(i as int).drop_first() =~= filename@.skip(i + 1));
        }
        if !is_alphanumeric(c) && c != '_' {
            if quant_word(word.as_str()) {
                return Some(to_uppercase(word.as_str()));
            }
            word = String::new();
        } else {
            push_char(&mut word, c);
        }
        i = i + 1;
    }
    proof {
        assert(filename@.skip(n as int).len() == 0);
    }
    if quant_word(word.as_str()) {
        Some(to_uppercase(word.as_str()))
    } else {
        None
    }
}

/// The quantization tag a file name carries: the first recognised tag it contains
/// (ignoring case), else a tag-like word, else `unknown`; tags are uppercased.
pub open spec fn quantization_tag(filename: Seq<char>) -> Seq<char> {
    let lower = text_lowercase(filename);
    match first_pattern_in(lower, quant_patterns()) {
        Some(p) => text_uppercase(p),
        None => match scan_quant_word(lower, Seq::empty()) {
            Some(w) => text_uppercase(w),
            None => "unknown"@,
        },
    }
}

/// Extract the quantization type from a file name (e.g. `model-q4_0` gives `Q4_0`).
pub fn extract_quantization_from_filename(filename: &str) -> (r: String)
    ensures
        r@ == quantization_tag(filename@),
{
    let lower_s = to_lowercase(filename);
    let lower = lower_s.as_str();
    let patterns = quant_pattern_list();
    let ghost ps = patterns@.map_values(|s: &str| s@);
    let n = patterns.len();
    let mut i: usize = 0;
    proof {
        assert(ps.skip(0) =~= ps);
    }
    while i < n
        invariant
            n == patterns@.len(),
            ps == patterns@.map_values(|s: &str| s@),
            ps == quant_patterns(),
            lower@ == text_lowercase(filename@),
            i <= n,
            first_pattern_in(lower@, quant_patterns()) == first_pattern_in(lower@, ps.skip(i as int)),
        decreases n - i,
    {
        proof {
            assert(ps.skip(i as int)[0] == patterns@[i as int]@);
            assert(ps.skip(i as int).drop_first() =~= ps.skip(i + 1));
        }
        if str_contains(lower, patterns[i]) {
            return to_uppercase(patterns[i]);
        }
        i = i + 1;
    }
    proof {
        assert(ps.skip(n as int).len() == 0);
    }
    match extract_dynamic_quant_pattern(lower) {
        Some(q) => q,
        None => to_owned_string("unknown"),
    }
}

/// Estimate the parameter count of a GGUF model from its metadata: the embedding
/// length, block count and vocabulary size are required; the feed-forward length
/// defaults to four times the embedding length.
pub fn estimate_params_from_gguf(
    embedding_length: Option<u32>,
    block_count: Option<u32>,
    vocab_size: Option<u32>,
    feed_forward_length: Option<u32>,
) -> (r: Result<u64, VortexError>)
    requires
        embedding_length is Some && block_count is Some && vocab_size is Some ==> param_steps_fit(
            embedding_length->Some_0 as int,
            block_count->Some_0 as int,
            vocab_size->Some_0 as int,
            match feed_forward_length { Some(f) => f as int, None => 4 * embedding_length->Some_0 },
        ),
    ensures
        match r {
            Ok(n) => embedding_length is Some && block_count is Some && vocab_size is Some
                && n == param_formula(
                    embedding_length->Some_0 as int,
                    block_count->Some_0 as int,
                    vocab_size->Some_0 as int,
                    match feed_forward_length { Some(f) => f as int, None => 4 * embedding_length->Some_0 },
                ),
            Err(e) => e is LoadFailed && (embedding_length is None || block_count is None || vocab_size is None),
        },
{
    let hidden_size = match embedding_length {
        Some(h) => h as u64,
        None => {
            return Err(VortexError::LoadFailed(to_owned_string("GGUF metadata missing 'llama.embedding_length'")));
        },
    };
    let num_layers = match block_count {
        Some(b) => b as u64,
        None => {
            return Err(VortexError::LoadFailed(to_owned_string("GGUF metadata missing 'llama.block_count'")));
        },
    };
    let vocab = match vocab_size {
        Some(v) => v as u64,
        None => {
            return Err(VortexError::LoadFailed(to_owned_string("GGUF metadata missing 'llama.vocab_size'")));
        },
    };
    let intermediate_size = match feed_forward_length {
        Some(f) => f as u64,
        None => hidden_size * 4,
    };
    proof {
        assert(4 * hidden_size * hidden_size == (4 * hidden_size) * hidden_size) by (nonlinear_arith);
        assert(3 * hidden_size * intermediate_size == (3 * hidden_size) * intermediate_size) by (nonlinear_arith);
    }
    let embedding = vocab * hidden_size;
    let per_layer = 4 * hidden_size * hidden_size + 3 * hidden_size * intermediate_size + 2 * hidden_size;
    let output = hidden_size * vocab;
    Ok(embedding + num_layers * per_layer + output)
}

} // verus!
