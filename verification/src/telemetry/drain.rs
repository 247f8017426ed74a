//! What the ring-buffer drainer reports for a kernel entry.

use vstd::prelude::*;
use vstd::string::StringSliceAdditionalSpecFns;
use vstd::utf8::{decode_utf8, valid_utf8};
use crate::text::concat_str;

verus! {

/// The payload as text, if it is valid UTF-8.
///
/// Calls `std::str::from_utf8`, which returns the bytes as a string slice
/// exactly when they are valid UTF-8.
#[verifier::external_body]
fn utf8_text(bytes: &[u8]) -> (r: Option<&str>)
    ensures
        match r {
            Some(s) => valid_utf8(bytes@) && s.spec_bytes() == bytes@,
            None => !valid_utf8(bytes@),
        },
{
    match std::str::from_utf8(bytes) {
        Ok(s) => Some(s),
        Err(_) => None,
    }
}

/// The message logged for a kernel entry: `[kernel] ` and its payload as text,
/// or `<binary>` when the payload is not valid UTF-8.
pub open spec fn kernel_message(payload: Seq<u8>) -> Seq<char> {
    "[kernel] "@ + if valid_utf8(payload) { decode_utf8(payload) } else { "<binary>"@ }
}

/// The message logged for a kernel entry with this payload.
pub fn kernel_event_message(payload: &[u8]) -> (m: String)
    ensures
        m@ == kernel_message(payload@),
{
    match utf8_text(payload) {
        Some(text) => {
            proof {
                vstd::utf8::encode_utf8_decode_utf8(text@);
            }
            concat_str("[kernel] ", text)
        },
        None => concat_str("[kernel] ", "<binary>"),
    }
}

} // verus!
