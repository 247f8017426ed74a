//! Device specification parsing.

use vstd::prelude::*;
use crate::text::{parse_usize, seq_starts_with, spec_parse_usize, text_lowercase, str_eq, str_starts_with, to_lowercase};

verus! {

/// Device specification parsed from a string.
#[derive(Debug, Clone, Copy, PartialEq, Eq, Structural)]
pub enum DeviceSpec {
    /// CPU device.
    Cpu,
    /// CUDA GPU with device ID.
    Cuda(usize),
    /// Metal GPU (macOS).
    Metal,
}

/// The device a lowercased specification names: `cpu`, `metal`, `cuda` or `gpu`
/// (CUDA device 0), `cuda:N`; anything else means the CPU.
pub open spec fn device_for(lower: Seq<char>) -> DeviceSpec {
    if lower == "cpu"@ {
        DeviceSpec::Cpu
    } else if lower == "metal"@ {
        DeviceSpec::Metal
    } else if lower == "cuda"@ || lower == "gpu"@ {
        DeviceSpec::Cuda(0)
    } else if seq_starts_with(lower, "cuda:"@) && spec_parse_usize(lower.skip(5)) is Some {
        DeviceSpec::Cuda(spec_parse_usize(lower.skip(5))->Some_0)
    } else {
        DeviceSpec::Cpu
    }
}

/// Every CUDA device is reached by its index: `cuda:` followed by the decimal
/// form of `n` names CUDA device `n`.
pub proof fn law_cuda_index_round_trip(n: usize)
    ensures
        device_for("cuda:"@ + crate::text::decimal_chars(n as nat)) == DeviceSpec::Cuda(n),
{
    let d = crate::text::decimal_chars(n as nat);
    crate::text::law_decimal_round_trip(n as nat);
    let lower = "cuda:"@ + d;
    reveal_strlit("cuda:");
    reveal_strlit("cpu");
    reveal_strlit("metal");
    reveal_strlit("cuda");
    reveal_strlit("gpu");
    assert(lower.len() >= 6);
    assert(lower != "cpu"@);
    assert(lower != "metal"@);
    assert(lower != "cuda"@);
    assert(lower != "gpu"@);
    crate::text::lemma_starts_with_concat("cuda:"@, d);
    assert(lower.skip(5) =~= d);
}

impl DeviceSpec {
    /// Parse a device specification string, ignoring case; unrecognised
    /// specifications default to the CPU.
    pub fn parse(spec: &str) -> (d: DeviceSpec)
        ensures
            d == device_for(text_lowercase(spec@)),
    {
        let lower_s = to_lowercase(spec);
        let lower = lower_s.as_str();
        if str_eq(lower, "cpu") {
            return DeviceSpec::Cpu;
        }
        if str_eq(lower, "metal") {
            return DeviceSpec::Metal;
        }
        if str_eq(lower, "cuda") || str_eq(lower, "gpu") {
            return DeviceSpec::Cuda(0);
        }
        if str_starts_with(lower, "cuda:") {
            proof {
                reveal_strlit("cuda:");
            }
            let len = lower.unicode_len();
            let rest = lower.substring_char(5, len);
            assert(rest@ == lower@.skip(5));
            if let Some(id) = parse_usize(rest) {
                return DeviceSpec::Cuda(id);
            }
        }
        DeviceSpec::Cpu
    }
}

} // verus!
