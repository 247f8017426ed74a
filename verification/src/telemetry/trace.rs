//! Distributed tracing identifiers (W3C Trace Context compatible).
//!
//! A [`TraceId`] (16 bytes) names a whole trace; a [`SpanId`] (8 bytes) names one
//! unit of work inside it. Both print as lowercase hexadecimal.

use vstd::prelude::*;
use crate::text::push_char;

verus! {

/// The lowercase hexadecimal digit for a nibble.
pub open spec fn hex_digit(n: int) -> char {
    if n < 10 {
        (48 + n) as char
    } else {
        (87 + n) as char
    }
}

/// Lowercase hexadecimal rendering of a byte sequence: two digits per byte, high nibble first.
pub open spec fn hex_string(bytes: Seq<u8>) -> Seq<char> {
    Seq::new(
        2 * bytes.len(),
        |i: int|
            if i % 2 == 0 {
                hex_digit(bytes[i / 2] as int / 16)
            } else {
                hex_digit(bytes[i / 2] as int % 16)
            },
    )
}

/// The value of a lowercase hexadecimal digit.
pub open spec fn hex_value(c: char) -> int {
    if '0' <= c <= '9' {
        c as int - 48
    } else {
        c as int - 97 + 10
    }
}

/// A lowercase hexadecimal digit: `0`..`9` or `a`..`f`.
pub open spec fn is_lower_hex_digit(c: char) -> bool {
    ('0' <= c <= '9') || ('a' <= c <= 'f')
}

/// Hexadecimal rendering is read back byte by byte: the text has two lowercase
/// hexadecimal digits per byte, and the first digit times sixteen plus the second
/// is the byte.
pub proof fn law_hex_reads_back(bytes: Seq<u8>, k: int)
    ensures
        hex_string(bytes).len() == 2 * bytes.len(),
        0 <= k < 2 * bytes.len() ==> is_lower_hex_digit(hex_string(bytes)[k]),
        0 <= k < bytes.len() ==> hex_value(hex_string(bytes)[2 * k]) * 16 + hex_value(hex_string(bytes)[2 * k + 1])
            == bytes[k] as int,
{
    if 0 <= k < 2 * bytes.len() {
        let b = bytes[k / 2] as int;
        assert(0 <= b / 16 < 16 && 0 <= b % 16 < 16) by (nonlinear_arith)
            requires 0 <= b < 256;
    }
    if 0 <= k < bytes.len() {
        let b = bytes[k] as int;
        assert((2 * k) / 2 == k && (2 * k + 1) / 2 == k && (2 * k) % 2 == 0 && (2 * k + 1) % 2 == 1) by (nonlinear_arith)
            requires 0 <= k;
        assert(0 <= b / 16 < 16 && 0 <= b % 16 < 16 && (b / 16) * 16 + b % 16 == b) by (nonlinear_arith)
            requires 0 <= b < 256;
    }
}

/// The lowercase hexadecimal digit for a nibble.
fn nibble_char(n: u8) -> (c: char)
    requires
        n < 16,
    ensures
        c == hex_digit(n as int),
{
    match n {
        0 => '0',
        1 => '1',
        2 => '2',
        3 => '3',
        4 => '4',
        5 => '5',
        6 => '6',
        7 => '7',
        8 => '8',
        9 => '9',
        10 => 'a',
        11 => 'b',
        12 => 'c',
        13 => 'd',
        14 => 'e',
        _ => 'f',
    }
}

/// Renders bytes as lowercase hexadecimal.
pub fn to_hex(bytes: &[u8]) -> (s: String)
    ensures
        s@ == hex_string(bytes@),
{
    let mut s = String::new();
    let n = bytes.len();
    let mut i: usize = 0;
    while i < n
        invariant
            n == bytes@.len(),
            i <= n,
            s@ =~= hex_string(bytes@.subrange(0, i as int)),
        decreases n - i,
    {
        let b = bytes[i];
        let hi = b / 16;
        let lo = b % 16;
        push_char(&mut s, nibble_char(hi));
        push_char(&mut s, nibble_char(lo));
        proof {
            let prev = bytes@.subrange(0, i as int);
            let next = bytes@.subrange(0, i + 1);
            assert forall|k: int| 0 <= k < 2 * next.len() implies #[trigger] s@[k] == hex_string(next)[k] by {
                if k < 2 * i {
                    assert(k / 2 < i) by (nonlinear_arith) requires 0 <= k < 2 * i;
                    assert(next[k / 2] == prev[k / 2]);
                } else if k == 2 * i {
                    assert(k / 2 == i);
                } else {
                    assert(k / 2 == i);
                }
            }
            assert(s@ =~= hex_string(next));
        }
        i = i + 1;
    }
    proof {
        assert(bytes@.subrange(0, n as int) =~= bytes@);
    }
    s
}

/// Little-endian byte `i` of `x`.
pub open spec fn le_byte(x: u64, i: int) -> u8 {
    ((x as nat / pow256(i)) % 256) as u8
}

/// 256 raised to `i`.
pub open spec fn pow256(i: int) -> nat
    decreases i,
{
    if i <= 0 {
        1
    } else {
        256 * pow256(i - 1)
    }
}

/// The eight little-endian bytes of `x`.
pub open spec fn le_bytes(x: u64) -> Seq<u8> {
    Seq::new(8, |i: int| le_byte(x, i))
}

proof fn lemma_pow256_positive(i: int)
    ensures
        pow256(i) > 0,
    decreases i,
{
    if i > 0 {
        lemma_pow256_positive(i - 1);
    }
}

/// The eight little-endian bytes of `x`, as `u64::to_le_bytes` gives them.
pub fn u64_le_bytes(x: u64) -> (r: [u8; 8])
    ensures
        r@ == le_bytes(x),
{
    let mut out = [0u8; 8];
    let mut v = x;
    assert(pow256(0) == 1);
    let mut i: usize = 0;
    while i < 8
        invariant
            i <= 8,
            out@.len() == 8,
            v as nat == x as nat / pow256(i as int),
            forall|k: int| 0 <= k < i ==> out@[k] == le_byte(x, k),
        decreases 8 - i,
    {
        proof {
            lemma_pow256_positive(i as int);
            let p = pow256(i as int);
            assert(x as nat / (256 * p) == (x as nat / p) / 256) by (nonlinear_arith)
                requires p > 0;
        }
        out[i] = (v % 256) as u8;
        v = v / 256;
        i = i + 1;
    }
    proof {
        assert(out@ =~= le_bytes(x));
    }
    out
}

/// 128-bit trace identifier.
///
/// Uniquely identifies a distributed trace; prints as 32 hexadecimal characters.
#[derive(Debug, Clone, Copy, PartialEq, Eq, Hash)]
pub struct TraceId([u8; 16]);

impl TraceId {
    /// The zero trace ID, meaning "no trace context".
    pub fn none() -> (t: TraceId)
        ensures
            t.bytes() == Seq::new(16, |i: int| 0u8),
    {
        let t = TraceId([0u8; 16]);
        proof {
            assert(t.bytes() =~= Seq::new(16, |i: int| 0u8));
        }
        t
    }

    /// The raw bytes of this trace ID.
    pub closed spec fn bytes(&self) -> Seq<u8> {
        self.0@
    }

    /// Creates a trace ID from raw bytes.
    pub fn from_bytes(bytes: [u8; 16]) -> (t: TraceId)
        ensures
            t.bytes() == bytes@,
    {
        TraceId(bytes)
    }

    /// Returns the raw bytes of this trace ID.
    pub fn as_bytes(&self) -> (b: &[u8; 16])
        ensures
            b@ == self.bytes(),
    {
        &self.0
    }

    /// Whether two TraceIds have the same bytes.
    pub fn same_as(&self, other: &TraceId) -> (r: bool)
        ensures
            r == (self.bytes() == other.bytes()),
    {
        let mut i: usize = 0;
        while i < 16
            invariant
                i <= 16,
                self.0@.len() == 16,
                other.0@.len() == 16,
                forall|k: int| 0 <= k < i ==> self.0@[k] == other.0@[k],
            decreases 16 - i,
        {
            if self.0[i] != other.0[i] {
                assert(self.bytes()[i as int] != other.bytes()[i as int]);
                return false;
            }
            i = i + 1;
        }
        assert(self.bytes() =~= other.bytes());
        true
    }

    /// Whether this is the zero trace ID.
    pub fn is_none(&self) -> (r: bool)
        ensures
            r == (forall|i: int| 0 <= i < 16 ==> self.bytes()[i] == 0),
    {
        let mut i: usize = 0;
        while i < 16
            invariant
                i <= 16,
                self.0@.len() == 16,
                forall|k: int| 0 <= k < i ==> self.0@[k] == 0,
            decreases 16 - i,
        {
            if self.0[i] != 0 {
                assert(self.bytes()[i as int] != 0);
                return false;
            }
            i = i + 1;
        }
        true
    }

    /// A trace ID whose first eight bytes are the low bytes of `nanos`
    /// (little-endian) and whose last eight bytes are `count` (little-endian).
    pub fn from_time_and_count(nanos: u128, count: u64) -> (t: TraceId)
        ensures
            t.bytes() == le_bytes((nanos % 0x1_0000_0000_0000_0000) as u64) + le_bytes(count),
    {
        let low = (nanos % 0x1_0000_0000_0000_0000) as u64;
        let a = u64_le_bytes(low);
        let b = u64_le_bytes(count);
        let mut bytes = [0u8; 16];
        let mut i: usize = 0;
        while i < 8
            invariant
                i <= 8,
                bytes@.len() == 16,
                forall|k: int| 0 <= k < i ==> bytes@[k] == a@[k],
                forall|k: int| 0 <= k < i ==> bytes@[8 + k] == b@[k],
            decreases 8 - i,
        {
            bytes[i] = a[i];
            bytes[8 + i] = b[i];
            i = i + 1;
        }
        proof {
            assert(bytes@ =~= a@ + b@);
        }
        TraceId(bytes)
    }

    /// Generates a trace ID from the current wall-clock time and a caller-supplied
    /// sequence number (the process-wide counter is kept by the caller).
    pub fn generate(count: u64) -> (t: TraceId)
        ensures
            t.bytes().subrange(8, 16) == le_bytes(count),
            exists|low: u64| t.bytes() == #[trigger] le_bytes(low) + le_bytes(count),
    {
        let nanos = crate::telemetry::clock::unix_time_nanos();
        let t = TraceId::from_time_and_count(nanos, count);
        proof {
            assert(t.bytes().subrange(8, 16) =~= le_bytes(count));
            let low = (nanos % 0x1_0000_0000_0000_0000) as u64;
            assert(t.bytes() == le_bytes(low) + le_bytes(count));
        }
        t
    }

    /// The 32-character lowercase hexadecimal form of the trace ID.
    pub fn to_string(&self) -> (s: String)
        ensures
            s@ == hex_string(self.bytes()),
    {
        to_hex(&self.0)
    }
}

/// 64-bit span identifier.
///
/// Identifies one span within a trace; prints as 16 hexadecimal characters.
#[derive(Debug, Clone, Copy, PartialEq, Eq, Hash)]
pub struct SpanId([u8; 8]);

impl SpanId {
    /// The zero span ID, meaning "no span context".
    pub fn none() -> (s: SpanId)
        ensures
            s.bytes() == Seq::new(8, |i: int| 0u8),
    {
        let s = SpanId([0u8; 8]);
        proof {
            assert(s.bytes() =~= Seq::new(8, |i: int| 0u8));
        }
        s
    }

    /// The raw bytes of this span ID.
    pub closed spec fn bytes(&self) -> Seq<u8> {
        self.0@
    }

    /// Creates a span ID from raw bytes.
    pub fn from_bytes(bytes: [u8; 8]) -> (s: SpanId)
        ensures
            s.bytes() == bytes@,
    {
        SpanId(bytes)
    }

    /// Returns the raw bytes of this span ID.
    pub fn as_bytes(&self) -> (b: &[u8; 8])
        ensures
            b@ == self.bytes(),
    {
        &self.0
    }

    /// Whether two SpanIds have the same bytes.
    pub fn same_as(&self, other: &SpanId) -> (r: bool)
        ensures
            r == (self.bytes() == other.bytes()),
    {
        let mut i: usize = 0;
        while i < 8
            invariant
                i <= 8,
                self.0@.len() == 8,
                other.0@.len() == 8,
                forall|k: int| 0 <= k < i ==> self.0@[k] == other.0@[k],
            decreases 8 - i,
        {
            if self.0[i] != other.0[i] {
                assert(self.bytes()[i as int] != other.bytes()[i as int]);
                return false;
            }
            i = i + 1;
        }
        assert(self.bytes() =~= other.bytes());
        true
    }

    /// Whether this is the zero span ID.
    pub fn is_none(&self) -> (r: bool)
        ensures
            r == (forall|i: int| 0 <= i < 8 ==> self.bytes()[i] == 0),
    {
        let mut i: usize = 0;
        while i < 8
            invariant
                i <= 8,
                self.0@.len() == 8,
                forall|k: int| 0 <= k < i ==> self.0@[k] == 0,
            decreases 8 - i,
        {
            if self.0[i] != 0 {
                assert(self.bytes()[i as int] != 0);
                return false;
            }
            i = i + 1;
        }
        true
    }

    /// The span ID for the caller-supplied sequence number `id`: its little-endian bytes.
    pub fn generate(id: u64) -> (s: SpanId)
        ensures
            s.bytes() == le_bytes(id),
    {
        SpanId(u64_le_bytes(id))
    }

    /// The 16-character lowercase hexadecimal form of the span ID.
    pub fn to_string(&self) -> (s: String)
        ensures
            s@ == hex_string(self.bytes()),
    {
        to_hex(&self.0)
    }
}

/// A trace ID is determined by its bytes: two trace IDs with the same bytes are
/// the same ID, so turning an ID into bytes and back gives the ID again.
pub proof fn law_trace_id_is_its_bytes(a: TraceId, b: TraceId)
    ensures
        a.bytes() == b.bytes() ==> a == b,
        a.bytes().len() == 16,
{
    broadcast use vstd::array::group_array_axioms;
    if a.bytes() == b.bytes() {
        assert(a.0 =~= b.0);
    }
}

/// A span ID is determined by its bytes: two span IDs with the same bytes are the
/// same ID, so turning an ID into bytes and back gives the ID again.
pub proof fn law_span_id_is_its_bytes(a: SpanId, b: SpanId)
    ensures
        a.bytes() == b.bytes() ==> a == b,
        a.bytes().len() == 8,
{
    broadcast use vstd::array::group_array_axioms;
    if a.bytes() == b.bytes() {
        assert(a.0 =~= b.0);
    }
}

} // verus!
