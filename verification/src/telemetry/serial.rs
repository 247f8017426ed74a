//! The bytes that kernel telemetry sends to the serial port (COM1).
//!
//! The port itself is driven by the kernel glue; this module computes what goes
//! out: strings with a carriage return before every line feed, log lines, panic
//! reports and decimal numbers.

use vstd::prelude::*;
use vstd::string::StringSliceAdditionalSpecFns;

verus! {

/// Terminal encoding of bytes: a carriage return (13) before every line feed (10).
pub open spec fn crlf_encode(bytes: Seq<u8>) -> Seq<u8>
    decreases bytes.len(),
{
    if bytes.len() == 0 {
        Seq::empty()
    } else if bytes.last() == 10 {
        crlf_encode(bytes.drop_last()) + seq![13u8, 10u8]
    } else {
        crlf_encode(bytes.drop_last()).push(bytes.last())
    }
}

/// Encoding a concatenation is concatenating the encodings.
pub proof fn lemma_crlf_concat(a: Seq<u8>, b: Seq<u8>)
    ensures
        crlf_encode(a + b) == crlf_encode(a) + crlf_encode(b),
    decreases b.len(),
{
    if b.len() == 0 {
        assert(a + b =~= a);
        assert(crlf_encode(a) + crlf_encode(b) =~= crlf_encode(a));
    } else {
        lemma_crlf_concat(a, b.drop_last());
        assert((a + b).drop_last() =~= a + b.drop_last());
        assert((a + b).last() == b.last());
        if b.last() == 10 {
            assert(crlf_encode(a + b) =~= crlf_encode(a) + crlf_encode(b));
        } else {
            assert(crlf_encode(a + b) =~= crlf_encode(a) + crlf_encode(b));
        }
    }
}

/// The bytes of `s` with every carriage return that directly precedes a line feed
/// left out.
pub open spec fn strip_cr_before_lf(s: Seq<u8>) -> Seq<u8>
    decreases s.len(),
{
    if s.len() == 0 {
        Seq::empty()
    } else if s.len() >= 2 && s.last() == 10 && s[s.len() - 2] == 13 {
        strip_cr_before_lf(s.subrange(0, s.len() - 2)).push(10)
    } else {
        strip_cr_before_lf(s.drop_last()).push(s.last())
    }
}

/// Terminal encoding turns each line feed into a carriage return and a line feed
/// and keeps every other byte: every line feed of the output directly follows a
/// carriage return, text without line feeds is sent as it is, and leaving out the
/// carriage returns before line feeds of the output gives back the text (for text
/// without a carriage return directly before a line feed).
pub proof fn law_crlf_encoding(bytes: Seq<u8>)
    ensures
        forall|i: int| 0 <= i < crlf_encode(bytes).len() && #[trigger] crlf_encode(bytes)[i] == 10
            ==> i > 0 && crlf_encode(bytes)[i - 1] == 13,
        (forall|i: int| 0 <= i < bytes.len() ==> #[trigger] bytes[i] != 10) ==> crlf_encode(bytes) == bytes,
        (forall|i: int| 0 < i < bytes.len() && #[trigger] bytes[i] == 10 ==> bytes[i - 1] != 13)
            ==> strip_cr_before_lf(crlf_encode(bytes)) == bytes,
    decreases bytes.len(),
{
    if bytes.len() > 0 {
        let rest = bytes.drop_last();
        law_crlf_encoding(rest);
        let e = crlf_encode(rest);
        if bytes.last() == 10 {
            let out = e + seq![13u8, 10u8];
            assert(crlf_encode(bytes) == out);
            assert forall|i: int| 0 <= i < out.len() && #[trigger] out[i] == 10 implies i > 0 && out[i - 1] == 13 by {
                if i < e.len() {
                    assert(out[i] == e[i]);
                    assert(e[i - 1] == 13);
                    assert(out[i - 1] == e[i - 1]);
                } else if i == e.len() {
                    assert(out[i] == 13);
                } else {
                    assert(out[i - 1] == 13);
                }
            }
            if forall|i: int| 0 < i < bytes.len() && #[trigger] bytes[i] == 10 ==> bytes[i - 1] != 13 {
                assert forall|i: int| 0 < i < rest.len() && #[trigger] rest[i] == 10 implies rest[i - 1] != 13 by {
                    assert(rest[i] == bytes[i]);
                    assert(bytes[i] == 10);
                }
                assert(out.subrange(0, out.len() - 2) =~= e);
                assert(rest.push(10) =~= bytes);
            }
            assert(bytes[bytes.len() - 1] == 10);
        } else {
            let out = e.push(bytes.last());
            assert(crlf_encode(bytes) == out);
            assert forall|i: int| 0 <= i < out.len() && #[trigger] out[i] == 10 implies i > 0 && out[i - 1] == 13 by {
                if i < e.len() {
                    assert(out[i] == e[i]);
                    assert(e[i - 1] == 13);
                    assert(out[i - 1] == e[i - 1]);
                }
            }
            if forall|i: int| 0 <= i < bytes.len() ==> #[trigger] bytes[i] != 10 {
                assert forall|i: int| 0 <= i < rest.len() implies #[trigger] rest[i] != 10 by {
                    assert(rest[i] == bytes[i]);
                }
                assert(rest.push(bytes.last()) =~= bytes);
            }
            if forall|i: int| 0 < i < bytes.len() && #[trigger] bytes[i] == 10 ==> bytes[i - 1] != 13 {
                assert forall|i: int| 0 < i < rest.len() && #[trigger] rest[i] == 10 implies rest[i - 1] != 13 by {
                    assert(rest[i] == bytes[i]);
                    assert(bytes[i] == 10);
                }
                assert(out.drop_last() =~= e);
                assert(rest.push(bytes.last()) =~= bytes);
            }
        }
    }
}

/// Appends the terminal encoding of `s` to `out`.
pub fn push_encoded(out: &mut Vec<u8>, s: &str)
    ensures
        final(out)@ == old(out)@ + crlf_encode(s.spec_bytes()),
{
    let bytes = s.as_bytes();
    let n = bytes.len();
    let mut i: usize = 0;
    let ghost start = out@;
    while i < n
        invariant
            n == bytes@.len(),
            bytes@ == s.spec_bytes(),
            i <= n,
            out@ =~= start + crlf_encode(bytes@.take(i as int)),
        decreases n - i,
    {
        let b = bytes[i];
        if b == 10 {
            out.push(13);
        }
        out.push(b);
        proof {
            assert(bytes@.take(i + 1).drop_last() =~= bytes@.take(i as int));
            assert(bytes@.take(i + 1).last() == b);
        }
        i = i + 1;
    }
    proof {
        assert(bytes@.take(n as int) =~= bytes@);
    }
}

/// The bytes `write_str` sends for a string: CR before every LF.
pub fn encode_str(s: &str) -> (out: Vec<u8>)
    ensures
        out@ == crlf_encode(s.spec_bytes()),
{
    let mut out: Vec<u8> = Vec::new();
    push_encoded(&mut out, s);
    out
}

/// The bytes `write_line` sends: `prefix: message` and a line break.
pub fn encode_line(prefix: &str, message: &str) -> (out: Vec<u8>)
    ensures
        out@ == crlf_encode(prefix.spec_bytes()) + crlf_encode(": ".spec_bytes())
            + crlf_encode(message.spec_bytes()) + crlf_encode("\n".spec_bytes()),
{
    let mut out: Vec<u8> = Vec::new();
    push_encoded(&mut out, prefix);
    push_encoded(&mut out, ": ");
    push_encoded(&mut out, message);
    push_encoded(&mut out, "\n");
    out
}

/// The ASCII decimal digits of `n`, most significant first ("0" for zero).
pub open spec fn decimal_digits(n: nat) -> Seq<u8>
    decreases n,
{
    if n < 10 {
        seq![(48 + n) as u8]
    } else {
        decimal_digits(n / 10).push((48 + n % 10) as u8)
    }
}

/// The ASCII decimal form of a `u32`.
pub fn decimal_u32(value: u32) -> (out: Vec<u8>)
    ensures
        out@ == decimal_digits(value as nat),
{
    let mut buf: Vec<u8> = Vec::new();
    let mut v = value;
    while v >= 10
        invariant
            decimal_digits(value as nat) == decimal_digits(v as nat) + buf@.reverse(),
        decreases v,
    {
        let d = (48 + v % 10) as u8;
        proof {
            assert(decimal_digits(v as nat) == decimal_digits((v / 10) as nat).push(d));
            assert(decimal_digits((v / 10) as nat).push(d) + buf@.reverse()
                =~= decimal_digits((v / 10) as nat) + buf@.push(d).reverse());
        }
        buf.push(d);
        v = v / 10;
    }
    let mut out: Vec<u8> = Vec::new();
    out.push((48 + v) as u8);
    let mut i = buf.len();
    proof {
        assert(decimal_digits(v as nat) =~= seq![(48 + v) as u8]);
        assert(buf@.reverse().take(0) =~= Seq::<u8>::empty());
    }
    while i > 0
        invariant
            i <= buf@.len(),
            decimal_digits(value as nat) == seq![(48 + v) as u8] + buf@.reverse(),
            out@ =~= seq![(48 + v) as u8] + buf@.reverse().take((buf@.len() - i) as int),
        decreases i,
    {
        i = i - 1;
        out.push(buf[i]);
        proof {
            let r = buf@.reverse();
            let k = (buf@.len() - i) as int;
            assert(r.take(k) =~= r.take(k - 1).push(r[k - 1]));
            assert(r[k - 1] == buf@[i as int]);
        }
    }
    proof {
        assert(buf@.reverse().take(buf@.len() as int) =~= buf@.reverse());
    }
    out
}

/// The bytes of a kernel panic report: a banner, the message, and the location
/// `file:line`.
pub open spec fn panic_report(message: Seq<u8>, file: Seq<u8>, line: u32) -> Seq<u8> {
    crlf_encode("\n!!! KERNEL PANIC !!!\n".spec_bytes()) + crlf_encode("Message: ".spec_bytes())
        + crlf_encode(message) + crlf_encode("\nLocation: ".spec_bytes()) + crlf_encode(file)
        + crlf_encode(":".spec_bytes()) + decimal_digits(line as nat) + crlf_encode("\n\n".spec_bytes())
}

/// The bytes `write_panic` sends for a panic at `file:line`.
pub fn encode_panic(message: &str, file: &str, line: u32) -> (out: Vec<u8>)
    ensures
        out@ == panic_report(message.spec_bytes(), file.spec_bytes(), line),
{
    let mut out: Vec<u8> = Vec::new();
    push_encoded(&mut out, "\n!!! KERNEL PANIC !!!\n");
    push_encoded(&mut out, "Message: ");
    push_encoded(&mut out, message);
    push_encoded(&mut out, "\nLocation: ");
    push_encoded(&mut out, file);
    push_encoded(&mut out, ":");
    let mut digits = decimal_u32(line);
    out.append(&mut digits);
    push_encoded(&mut out, "\n\n");
    out
}

} // verus!
