//! Telemetry metadata: which subsystem produced an event, and what kind of event it is.

use vstd::prelude::*;
use vstd::string::StringSliceAdditionalSpecFns;

verus! {

/// Subsystem identifier for routing and filtering.
///
/// Kernel subsystems carry codes 0-99, userspace services 100-199 and
/// `Unknown` the code 255 (see [`Subsystem::code`]).
#[derive(Debug, Clone, Copy, PartialEq, Eq, Hash, Structural)]
pub enum Subsystem {
    /// Core kernel functionality.
    Kernel,
    /// Memory management.
    Memory,
    /// Process scheduler.
    Scheduler,
    /// Interrupt handling.
    Interrupt,
    /// Syscall interface.
    Syscall,
    /// Boot sequence.
    Boot,
    /// Vortex LLM inference engine.
    Vortex,
    /// Gallifrey temporal database.
    Gallifrey,
    /// Chronos RAG orchestration.
    Chronos,
    /// Shell user interface.
    Shell,
    /// Telemetry subsystem itself.
    Telemetry,
    /// Unknown or external subsystem.
    Unknown,
}

/// The wire code of a subsystem.
pub open spec fn subsystem_code(s: Subsystem) -> u16 {
    match s {
        Subsystem::Kernel => 0,
        Subsystem::Memory => 1,
        Subsystem::Scheduler => 2,
        Subsystem::Interrupt => 3,
        Subsystem::Syscall => 4,
        Subsystem::Boot => 5,
        Subsystem::Vortex => 100,
        Subsystem::Gallifrey => 101,
        Subsystem::Chronos => 102,
        Subsystem::Shell => 103,
        Subsystem::Telemetry => 104,
        Subsystem::Unknown => 255,
    }
}

/// The subsystem a wire code denotes; codes that name no subsystem denote `Unknown`.
pub open spec fn subsystem_from_code(v: u16) -> Subsystem {
    if v == 0 {
        Subsystem::Kernel
    } else if v == 1 {
        Subsystem::Memory
    } else if v == 2 {
        Subsystem::Scheduler
    } else if v == 3 {
        Subsystem::Interrupt
    } else if v == 4 {
        Subsystem::Syscall
    } else if v == 5 {
        Subsystem::Boot
    } else if v == 100 {
        Subsystem::Vortex
    } else if v == 101 {
        Subsystem::Gallifrey
    } else if v == 102 {
        Subsystem::Chronos
    } else if v == 103 {
        Subsystem::Shell
    } else if v == 104 {
        Subsystem::Telemetry
    } else {
        Subsystem::Unknown
    }
}

/// The lowercase name of a subsystem.
pub open spec fn subsystem_name(s: Subsystem) -> Seq<char> {
    match s {
        Subsystem::Kernel => "kernel"@,
        Subsystem::Memory => "memory"@,
        Subsystem::Scheduler => "scheduler"@,
        Subsystem::Interrupt => "interrupt"@,
        Subsystem::Syscall => "syscall"@,
        Subsystem::Boot => "boot"@,
        Subsystem::Vortex => "vortex"@,
        Subsystem::Gallifrey => "gallifrey"@,
        Subsystem::Chronos => "chronos"@,
        Subsystem::Shell => "shell"@,
        Subsystem::Telemetry => "telemetry"@,
        Subsystem::Unknown => "unknown"@,
    }
}

impl Subsystem {
    /// Returns the subsystem as a static string; parsed as a tracing target (see
    /// [`Subsystem::from_target`]) it gives the subsystem back.
    pub fn as_str(&self) -> (r: &'static str)
        ensures
            r@ == subsystem_name(*self),
            subsystem_for_target(r.spec_bytes()) == *self,
    {
        proof {
            law_from_target_round_trip(*self);
        }
        match self {
            Subsystem::Kernel => "kernel",
            Subsystem::Memory => "memory",
            Subsystem::Scheduler => "scheduler",
            Subsystem::Interrupt => "interrupt",
            Subsystem::Syscall => "syscall",
            Subsystem::Boot => "boot",
            Subsystem::Vortex => "vortex",
            Subsystem::Gallifrey => "gallifrey",
            Subsystem::Chronos => "chronos",
            Subsystem::Shell => "shell",
            Subsystem::Telemetry => "telemetry",
            Subsystem::Unknown => "unknown",
        }
    }

    /// Returns the wire code of the subsystem.
    pub fn code(&self) -> (c: u16)
        ensures
            c == subsystem_code(*self),
    {
        match self {
            Subsystem::Kernel => 0,
            Subsystem::Memory => 1,
            Subsystem::Scheduler => 2,
            Subsystem::Interrupt => 3,
            Subsystem::Syscall => 4,
            Subsystem::Boot => 5,
            Subsystem::Vortex => 100,
            Subsystem::Gallifrey => 101,
            Subsystem::Chronos => 102,
            Subsystem::Shell => 103,
            Subsystem::Telemetry => 104,
            Subsystem::Unknown => 255,
        }
    }
}

impl From<u16> for Subsystem {
    fn from(value: u16) -> (s: Self) {
        match value {
            0 => Subsystem::Kernel,
            1 => Subsystem::Memory,
            2 => Subsystem::Scheduler,
            3 => Subsystem::Interrupt,
            4 => Subsystem::Syscall,
            5 => Subsystem::Boot,
            100 => Subsystem::Vortex,
            101 => Subsystem::Gallifrey,
            102 => Subsystem::Chronos,
            103 => Subsystem::Shell,
            104 => Subsystem::Telemetry,
            _ => Subsystem::Unknown,
        }
    }
}

impl vstd::std_specs::convert::FromSpecImpl<u16> for Subsystem {
    open spec fn obeys_from_spec() -> bool {
        true
    }

    open spec fn from_spec(v: u16) -> Self {
        subsystem_from_code(v)
    }
}


/// ASCII lowercase of a byte; other bytes are unchanged.
pub open spec fn ascii_lower(b: u8) -> u8 {
    if 65 <= b <= 90 {
        (b + 32) as u8
    } else {
        b
    }
}

/// `needle` occurs in `haystack` at byte position `i`, ignoring ASCII case.
pub open spec fn matches_ignore_case_at(haystack: Seq<u8>, needle: Seq<u8>, i: int) -> bool {
    &&& 0 <= i
    &&& i + needle.len() <= haystack.len()
    &&& forall|j: int| 0 <= j < needle.len() ==> ascii_lower(#[trigger] haystack[i + j]) == ascii_lower(needle[j])
}

/// `needle` occurs somewhere in `haystack`, ignoring ASCII case.
pub open spec fn contains_ignore_case_bytes(haystack: Seq<u8>, needle: Seq<u8>) -> bool {
    exists|i: int| #[trigger] matches_ignore_case_at(haystack, needle, i)
}

/// Whether two bytes are equal ignoring ASCII case (`u8::eq_ignore_ascii_case`).
fn eq_ignore_ascii_case(a: u8, b: u8) -> (r: bool)
    ensures
        r == (ascii_lower(a) == ascii_lower(b)),
{
    let la = if 65 <= a && a <= 90 { a + 32 } else { a };
    let lb = if 65 <= b && b <= 90 { b + 32 } else { b };
    la == lb
}

/// Whether the needle occurs at byte position `i`, given that its first byte does.
fn rest_matches_ignore_case(hb: &[u8], nb: &[u8], i: usize) -> (r: bool)
    requires
        nb@.len() > 0,
        i + nb@.len() <= hb@.len(),
        ascii_lower(hb@[i as int]) == ascii_lower(nb@[0]),
    ensures
        r == matches_ignore_case_at(hb@, nb@, i as int),
{
    let n_len = nb.len();
    let h_len = hb.len();
    let mut j: usize = 1;
    while j < n_len
        invariant
            n_len == nb@.len(),
            h_len == hb@.len(),
            i + n_len <= hb@.len(),
            1 <= j <= n_len,
            ascii_lower(hb@[i as int]) == ascii_lower(nb@[0]),
            forall|k: int| 0 <= k < j ==> ascii_lower(#[trigger] hb@[i + k]) == ascii_lower(nb@[k]),
        decreases n_len - j,
    {
        if !eq_ignore_ascii_case(hb[i + j], nb[j]) {
            assert(ascii_lower(hb@[i + j]) != ascii_lower(nb@[j as int]));
            return false;
        }
        j = j + 1;
    }
    true
}

/// Case-insensitive (ASCII) substring check over the bytes of the two strings,
/// without allocation.
fn contains_ignore_case(haystack: &str, needle: &str) -> (r: bool)
    ensures
        r == contains_ignore_case_bytes(haystack.spec_bytes(), needle.spec_bytes()),
{
    let haystack_bytes = haystack.as_bytes();
    let needle_bytes = needle.as_bytes();
    let ghost h = haystack_bytes@;
    let ghost n = needle_bytes@;
    let n_len = needle_bytes.len();
    if n_len == 0 {
        assert(matches_ignore_case_at(h, n, 0));
        return true;
    }
    let h_len = haystack_bytes.len();
    if h_len < n_len {
        assert forall|i: int| !(#[trigger] matches_ignore_case_at(h, n, i)) by {}
        return false;
    }
    let first_needle_byte = needle_bytes[0];
    let last = h_len - n_len;
    let mut i: usize = 0;
    loop
        invariant
            h == haystack.spec_bytes(),
            n == needle.spec_bytes(),
            h == haystack_bytes@,
            n == needle_bytes@,
            h_len == h.len(),
            n_len == n.len(),
            n_len > 0,
            last == h_len - n_len,
            i <= last,
            first_needle_byte == n[0],
            forall|k: int| 0 <= k < i ==> !(#[trigger] matches_ignore_case_at(h, n, k)),
        decreases last - i,
    {
        if eq_ignore_ascii_case(haystack_bytes[i], first_needle_byte) {
            if rest_matches_ignore_case(haystack_bytes, needle_bytes, i) {
                assert(matches_ignore_case_at(h, n, i as int));
                return true;
            }
        } else {
            assert(!matches_ignore_case_at(h, n, i as int)) by {
                assert(ascii_lower(h[i + 0]) != ascii_lower(n[0]));
            }
        }
        if i == last {
            assert forall|k: int| !(#[trigger] matches_ignore_case_at(h, n, k)) by {
                if 0 <= k <= last {
                }
            }
            return false;
        }
        i = i + 1;
    }
}

/// The subsystem a tracing target names: the first keyword, in the order below,
/// that occurs in the target ignoring ASCII case, or `Unknown`.
pub open spec fn subsystem_for_target(t: Seq<u8>) -> Subsystem {
    if contains_ignore_case_bytes(t, "kernel".spec_bytes()) {
        Subsystem::Kernel
    } else if contains_ignore_case_bytes(t, "memory".spec_bytes()) {
        Subsystem::Memory
    } else if contains_ignore_case_bytes(t, "heap".spec_bytes()) {
        Subsystem::Memory
    } else if contains_ignore_case_bytes(t, "scheduler".spec_bytes()) {
        Subsystem::Scheduler
    } else if contains_ignore_case_bytes(t, "process".spec_bytes()) {
        Subsystem::Scheduler
    } else if contains_ignore_case_bytes(t, "interrupt".spec_bytes()) {
        Subsystem::Interrupt
    } else if contains_ignore_case_bytes(t, "irq".spec_bytes()) {
        Subsystem::Interrupt
    } else if contains_ignore_case_bytes(t, "syscall".spec_bytes()) {
        Subsystem::Syscall
    } else if contains_ignore_case_bytes(t, "boot".spec_bytes()) {
        Subsystem::Boot
    } else if contains_ignore_case_bytes(t, "vortex".spec_bytes()) {
        Subsystem::Vortex
    } else if contains_ignore_case_bytes(t, "gallifrey".spec_bytes()) {
        Subsystem::Gallifrey
    } else if contains_ignore_case_bytes(t, "chronos".spec_bytes()) {
        Subsystem::Chronos
    } else if contains_ignore_case_bytes(t, "shell".spec_bytes()) {
        Subsystem::Shell
    } else if contains_ignore_case_bytes(t, "tardis".spec_bytes()) {
        Subsystem::Shell
    } else if contains_ignore_case_bytes(t, "telemetry".spec_bytes()) {
        Subsystem::Telemetry
    } else {
        Subsystem::Unknown
    }
}

impl Subsystem {
    /// Parses a subsystem from a tracing target: the first keyword of the mapping
    /// table that occurs in the target, ignoring ASCII case, decides.
    pub fn from_target(target: &str) -> (s: Subsystem)
        ensures
            s == subsystem_for_target(target.spec_bytes()),
    {
        if contains_ignore_case(target, "kernel") {
            return Subsystem::Kernel;
        }
        if contains_ignore_case(target, "memory") {
            return Subsystem::Memory;
        }
        if contains_ignore_case(target, "heap") {
            return Subsystem::Memory;
        }
        if contains_ignore_case(target, "scheduler") {
            return Subsystem::Scheduler;
        }
        if contains_ignore_case(target, "process") {
            return Subsystem::Scheduler;
        }
        if contains_ignore_case(target, "interrupt") {
            return Subsystem::Interrupt;
        }
        if contains_ignore_case(target, "irq") {
            return Subsystem::Interrupt;
        }
        if contains_ignore_case(target, "syscall") {
            return Subsystem::Syscall;
        }
        if contains_ignore_case(target, "boot") {
            return Subsystem::Boot;
        }
        if contains_ignore_case(target, "vortex") {
            return Subsystem::Vortex;
        }
        if contains_ignore_case(target, "gallifrey") {
            return Subsystem::Gallifrey;
        }
        if contains_ignore_case(target, "chronos") {
            return Subsystem::Chronos;
        }
        if contains_ignore_case(target, "shell") {
            return Subsystem::Shell;
        }
        if contains_ignore_case(target, "tardis") {
            return Subsystem::Shell;
        }
        if contains_ignore_case(target, "telemetry") {
            return Subsystem::Telemetry;
        }
        Subsystem::Unknown
    }
}

/// Lemma: matching ignoring ASCII case does not see the case of the haystack.
proof fn lemma_matches_lowered(h: Seq<u8>, n: Seq<u8>, i: int)
    ensures
        matches_ignore_case_at(h, n, i) == matches_ignore_case_at(h.map_values(|b: u8| ascii_lower(b)), n, i),
{
    let l = h.map_values(|b: u8| ascii_lower(b));
    if 0 <= i && i + n.len() <= h.len() {
        assert forall|j: int| 0 <= j < n.len() implies ascii_lower(#[trigger] l[i + j]) == ascii_lower(h[i + j]) by {
        }
        if matches_ignore_case_at(h, n, i) {
            assert forall|j: int| 0 <= j < n.len() implies ascii_lower(#[trigger] l[i + j]) == ascii_lower(n[j]) by {
                assert(ascii_lower(h[i + j]) == ascii_lower(n[j]));
            }
        }
        if matches_ignore_case_at(l, n, i) {
            assert forall|j: int| 0 <= j < n.len() implies ascii_lower(#[trigger] h[i + j]) == ascii_lower(n[j]) by {
                assert(ascii_lower(l[i + j]) == ascii_lower(n[j]));
            }
        }
    }
}

proof fn lemma_contains_lowered(h: Seq<u8>, n: Seq<u8>)
    ensures
        contains_ignore_case_bytes(h, n) == contains_ignore_case_bytes(h.map_values(|b: u8| ascii_lower(b)), n),
{
    let l = h.map_values(|b: u8| ascii_lower(b));
    if contains_ignore_case_bytes(h, n) {
        let i = choose|i: int| matches_ignore_case_at(h, n, i);
        lemma_matches_lowered(h, n, i);
    }
    if contains_ignore_case_bytes(l, n) {
        let i = choose|i: int| matches_ignore_case_at(l, n, i);
        lemma_matches_lowered(h, n, i);
    }
}

/// The subsystem of a target does not depend on the ASCII case of the target.
pub proof fn law_from_target_ignores_case(t: Seq<u8>)
    ensures
        subsystem_for_target(t) == subsystem_for_target(t.map_values(|b: u8| ascii_lower(b))),
{
    lemma_contains_lowered(t, "kernel".spec_bytes());
    lemma_contains_lowered(t, "memory".spec_bytes());
    lemma_contains_lowered(t, "heap".spec_bytes());
    lemma_contains_lowered(t, "scheduler".spec_bytes());
    lemma_contains_lowered(t, "process".spec_bytes());
    lemma_contains_lowered(t, "interrupt".spec_bytes());
    lemma_contains_lowered(t, "irq".spec_bytes());
    lemma_contains_lowered(t, "syscall".spec_bytes());
    lemma_contains_lowered(t, "boot".spec_bytes());
    lemma_contains_lowered(t, "vortex".spec_bytes());
    lemma_contains_lowered(t, "gallifrey".spec_bytes());
    lemma_contains_lowered(t, "chronos".spec_bytes());
    lemma_contains_lowered(t, "shell".spec_bytes());
    lemma_contains_lowered(t, "tardis".spec_bytes());
    lemma_contains_lowered(t, "telemetry".spec_bytes());
}

/// The empty needle occurs in every haystack.
pub proof fn law_empty_needle_always_matches(h: Seq<u8>)
    ensures
        contains_ignore_case_bytes(h, Seq::empty()),
{
    assert(matches_ignore_case_at(h, Seq::empty(), 0));
}


/// Lemma: the bytes of an ASCII string are its characters, one byte each.
proof fn lemma_ascii_bytes(s: &str, chars: Seq<char>, bytes: Seq<u8>)
    requires
        s@ == chars,
        vstd::utf8::is_ascii_chars(chars),
        bytes.len() == chars.len(),
        forall|i: int| 0 <= i < chars.len() ==> #[trigger] bytes[i] == chars[i] as u8,
    ensures
        s.spec_bytes() == bytes,
{
    vstd::utf8::is_ascii_chars_encode_utf8(chars);
    assert(vstd::utf8::encode_utf8(chars) =~= bytes);
}

/// Lemma: a needle of at least three bytes whose first three bytes (ignoring ASCII
/// case) start at no position of the haystack does not occur in it.
proof fn lemma_prefix_absent(h: Seq<u8>, n: Seq<u8>)
    requires
        n.len() >= 3,
        forall|i: int| 0 <= i && i + n.len() <= h.len() ==>
            ascii_lower(#[trigger] h[i]) != ascii_lower(n[0])
            || ascii_lower(h[i + 1]) != ascii_lower(n[1])
            || ascii_lower(h[i + 2]) != ascii_lower(n[2]),
    ensures
        !contains_ignore_case_bytes(h, n),
{
    if contains_ignore_case_bytes(h, n) {
        let i = choose|i: int| matches_ignore_case_at(h, n, i);
        assert(ascii_lower(h[i + 0]) == ascii_lower(n[0]));
        assert(ascii_lower(h[i + 1]) == ascii_lower(n[1]));
        assert(ascii_lower(h[i + 2]) == ascii_lower(n[2]));
        assert(h[i] == h[i + 0]);
    }
}

/// Lemma: a byte sequence occurs in itself.
proof fn lemma_contains_itself(h: Seq<u8>)
    ensures
        contains_ignore_case_bytes(h, h),
{
    assert(matches_ignore_case_at(h, h, 0)) by {
        assert forall|j: int| 0 <= j < h.len() implies ascii_lower(#[trigger] h[0 + j]) == ascii_lower(h[j]) by {
            assert(h[0 + j] == h[j]);
        }
    }
}

/// Lemma: the bytes of the subsystem names and target keywords.
proof fn lemma_keyword_bytes()
    ensures
        "boot".spec_bytes() == seq![98u8, 111u8, 111u8, 116u8],
        "chronos".spec_bytes() == seq![99u8, 104u8, 114u8, 111u8, 110u8, 111u8, 115u8],
        "gallifrey".spec_bytes() == seq![103u8, 97u8, 108u8, 108u8, 105u8, 102u8, 114u8, 101u8, 121u8],
        "heap".spec_bytes() == seq![104u8, 101u8, 97u8, 112u8],
        "interrupt".spec_bytes() == seq![105u8, 110u8, 116u8, 101u8, 114u8, 114u8, 117u8, 112u8, 116u8],
        "irq".spec_bytes() == seq![105u8, 114u8, 113u8],
        "kernel".spec_bytes() == seq![107u8, 101u8, 114u8, 110u8, 101u8, 108u8],
        "memory".spec_bytes() == seq![109u8, 101u8, 109u8, 111u8, 114u8, 121u8],
        "process".spec_bytes() == seq![112u8, 114u8, 111u8, 99u8, 101u8, 115u8, 115u8],
        "scheduler".spec_bytes() == seq![115u8, 99u8, 104u8, 101u8, 100u8, 117u8, 108u8, 101u8, 114u8],
        "shell".spec_bytes() == seq![115u8, 104u8, 101u8, 108u8, 108u8],
        "syscall".spec_bytes() == seq![115u8, 121u8, 115u8, 99u8, 97u8, 108u8, 108u8],
        "tardis".spec_bytes() == seq![116u8, 97u8, 114u8, 100u8, 105u8, 115u8],
        "telemetry".spec_bytes() == seq![116u8, 101u8, 108u8, 101u8, 109u8, 101u8, 116u8, 114u8, 121u8],
        "unknown".spec_bytes() == seq![117u8, 110u8, 107u8, 110u8, 111u8, 119u8, 110u8],
        "vortex".spec_bytes() == seq![118u8, 111u8, 114u8, 116u8, 101u8, 120u8],
{
    reveal_strlit("boot");
    assert("boot"@ =~= seq!['b', 'o', 'o', 't']);
    lemma_ascii_bytes("boot", seq!['b', 'o', 'o', 't'], seq![98u8, 111u8, 111u8, 116u8]);
    reveal_strlit("chronos");
    assert("chronos"@ =~= seq!['c', 'h', 'r', 'o', 'n', 'o', 's']);
    lemma_ascii_bytes("chronos", seq!['c', 'h', 'r', 'o', 'n', 'o', 's'], seq![99u8, 104u8, 114u8, 111u8, 110u8, 111u8, 115u8]);
    reveal_strlit("gallifrey");
    assert("gallifrey"@ =~= seq!['g', 'a', 'l', 'l', 'i', 'f', 'r', 'e', 'y']);
    lemma_ascii_bytes("gallifrey", seq!['g', 'a', 'l', 'l', 'i', 'f', 'r', 'e', 'y'], seq![103u8, 97u8, 108u8, 108u8, 105u8, 102u8, 114u8, 101u8, 121u8]);
    reveal_strlit("heap");
    assert("heap"@ =~= seq!['h', 'e', 'a', 'p']);
    lemma_ascii_bytes("heap", seq!['h', 'e', 'a', 'p'], seq![104u8, 101u8, 97u8, 112u8]);
    reveal_strlit("interrupt");
    assert("interrupt"@ =~= seq!['i', 'n', 't', 'e', 'r', 'r', 'u', 'p', 't']);
    lemma_ascii_bytes("interrupt", seq!['i', 'n', 't', 'e', 'r', 'r', 'u', 'p', 't'], seq![105u8, 110u8, 116u8, 101u8, 114u8, 114u8, 117u8, 112u8, 116u8]);
    reveal_strlit("irq");
    assert("irq"@ =~= seq!['i', 'r', 'q']);
    lemma_ascii_bytes("irq", seq!['i', 'r', 'q'], seq![105u8, 114u8, 113u8]);
    reveal_strlit("kernel");
    assert("kernel"@ =~= seq!['k', 'e', 'r', 'n', 'e', 'l']);
    lemma_ascii_bytes("kernel", seq!['k', 'e', 'r', 'n', 'e', 'l'], seq![107u8, 101u8, 114u8, 110u8, 101u8, 108u8]);
    reveal_strlit("memory");
    assert("memory"@ =~= seq!['m', 'e', 'm', 'o', 'r', 'y']);
    lemma_ascii_bytes("memory", seq!['m', 'e', 'm', 'o', 'r', 'y'], seq![109u8, 101u8, 109u8, 111u8, 114u8, 121u8]);
    reveal_strlit("process");
    assert("process"@ =~= seq!['p', 'r', 'o', 'c', 'e', 's', 's']);
    lemma_ascii_bytes("process", seq!['p', 'r', 'o', 'c', 'e', 's', 's'], seq![112u8, 114u8, 111u8, 99u8, 101u8, 115u8, 115u8]);
    reveal_strlit("scheduler");
    assert("scheduler"@ =~= seq!['s', 'c', 'h', 'e', 'd', 'u', 'l', 'e', 'r']);
    lemma_ascii_bytes("scheduler", seq!['s', 'c', 'h', 'e', 'd', 'u', 'l', 'e', 'r'], seq![115u8, 99u8, 104u8, 101u8, 100u8, 117u8, 108u8, 101u8, 114u8]);
    reveal_strlit("shell");
    assert("shell"@ =~= seq!['s', 'h', 'e', 'l', 'l']);
    lemma_ascii_bytes("shell", seq!['s', 'h', 'e', 'l', 'l'], seq![115u8, 104u8, 101u8, 108u8, 108u8]);
    reveal_strlit("syscall");
    assert("syscall"@ =~= seq!['s', 'y', 's', 'c', 'a', 'l', 'l']);
    lemma_ascii_bytes("syscall", seq!['s', 'y', 's', 'c', 'a', 'l', 'l'], seq![115u8, 121u8, 115u8, 99u8, 97u8, 108u8, 108u8]);
    reveal_strlit("tardis");
    assert("tardis"@ =~= seq!['t', 'a', 'r', 'd', 'i', 's']);
    lemma_ascii_bytes("tardis", seq!['t', 'a', 'r', 'd', 'i', 's'], seq![116u8, 97u8, 114u8, 100u8, 105u8, 115u8]);
    reveal_strlit("telemetry");
    assert("telemetry"@ =~= seq!['t', 'e', 'l', 'e', 'm', 'e', 't', 'r', 'y']);
    lemma_ascii_bytes("telemetry", seq!['t', 'e', 'l', 'e', 'm', 'e', 't', 'r', 'y'], seq![116u8, 101u8, 108u8, 101u8, 109u8, 101u8, 116u8, 114u8, 121u8]);
    reveal_strlit("unknown");
    assert("unknown"@ =~= seq!['u', 'n', 'k', 'n', 'o', 'w', 'n']);
    lemma_ascii_bytes("unknown", seq!['u', 'n', 'k', 'n', 'o', 'w', 'n'], seq![117u8, 110u8, 107u8, 110u8, 111u8, 119u8, 110u8]);
    reveal_strlit("vortex");
    assert("vortex"@ =~= seq!['v', 'o', 'r', 't', 'e', 'x']);
    lemma_ascii_bytes("vortex", seq!['v', 'o', 'r', 't', 'e', 'x'], seq![118u8, 111u8, 114u8, 116u8, 101u8, 120u8]);
}

proof fn lemma_round_trip_kernel()
    ensures
        subsystem_for_target(vstd::utf8::encode_utf8(subsystem_name(Subsystem::Kernel))) == Subsystem::Kernel,
{
    lemma_keyword_bytes();
    let b = vstd::utf8::encode_utf8(subsystem_name(Subsystem::Kernel));
    assert(b == "kernel".spec_bytes());
    lemma_contains_itself(b);
}

proof fn lemma_round_trip_memory()
    ensures
        subsystem_for_target(vstd::utf8::encode_utf8(subsystem_name(Subsystem::Memory))) == Subsystem::Memory,
{
    lemma_keyword_bytes();
    let b = vstd::utf8::encode_utf8(subsystem_name(Subsystem::Memory));
    assert(b == "memory".spec_bytes());
    lemma_prefix_absent(b, "kernel".spec_bytes());
    lemma_contains_itself(b);
}

proof fn lemma_round_trip_scheduler()
    ensures
        subsystem_for_target(vstd::utf8::encode_utf8(subsystem_name(Subsystem::Scheduler))) == Subsystem::Scheduler,
{
    lemma_keyword_bytes();
    let b = vstd::utf8::encode_utf8(subsystem_name(Subsystem::Scheduler));
    assert(b == "scheduler".spec_bytes());
    lemma_prefix_absent(b, "kernel".spec_bytes());
    lemma_prefix_absent(b, "memory".spec_bytes());
    lemma_prefix_absent(b, "heap".spec_bytes());
    lemma_contains_itself(b);
}

proof fn lemma_round_trip_interrupt()
    ensures
        subsystem_for_target(vstd::utf8::encode_utf8(subsystem_name(Subsystem::Interrupt))) == Subsystem::Interrupt,
{
    lemma_keyword_bytes();
    let b = vstd::utf8::encode_utf8(subsystem_name(Subsystem::Interrupt));
    assert(b == "interrupt".spec_bytes());
    lemma_prefix_absent(b, "kernel".spec_bytes());
    lemma_prefix_absent(b, "memory".spec_bytes());
    lemma_prefix_absent(b, "heap".spec_bytes());
    lemma_prefix_absent(b, "scheduler".spec_bytes());
    lemma_prefix_absent(b, "process".spec_bytes());
    lemma_contains_itself(b);
}

proof fn lemma_round_trip_syscall()
    ensures
        subsystem_for_target(vstd::utf8::encode_utf8(subsystem_name(Subsystem::Syscall))) == Subsystem::Syscall,
{
    lemma_keyword_bytes();
    let b = vstd::utf8::encode_utf8(subsystem_name(Subsystem::Syscall));
    assert(b == "syscall".spec_bytes());
    lemma_prefix_absent(b, "kernel".spec_bytes());
    lemma_prefix_absent(b, "memory".spec_bytes());
    lemma_prefix_absent(b, "heap".spec_bytes());
    lemma_prefix_absent(b, "scheduler".spec_bytes());
    lemma_prefix_absent(b, "process".spec_bytes());
    lemma_prefix_absent(b, "interrupt".spec_bytes());
    lemma_prefix_absent(b, "irq".spec_bytes());
    lemma_contains_itself(b);
}

proof fn lemma_round_trip_boot()
    ensures
        subsystem_for_target(vstd::utf8::encode_utf8(subsystem_name(Subsystem::Boot))) == Subsystem::Boot,
{
    lemma_keyword_bytes();
    let b = vstd::utf8::encode_utf8(subsystem_name(Subsystem::Boot));
    assert(b == "boot".spec_bytes());
    lemma_prefix_absent(b, "kernel".spec_bytes());
    lemma_prefix_absent(b, "memory".spec_bytes());
    lemma_prefix_absent(b, "heap".spec_bytes());
    lemma_prefix_absent(b, "scheduler".spec_bytes());
    lemma_prefix_absent(b, "process".spec_bytes());
    lemma_prefix_absent(b, "interrupt".spec_bytes());
    lemma_prefix_absent(b, "irq".spec_bytes());
    lemma_prefix_absent(b, "syscall".spec_bytes());
    lemma_contains_itself(b);
}

proof fn lemma_round_trip_vortex()
    ensures
        subsystem_for_target(vstd::utf8::encode_utf8(subsystem_name(Subsystem::Vortex))) == Subsystem::Vortex,
{
    lemma_keyword_bytes();
    let b = vstd::utf8::encode_utf8(subsystem_name(Subsystem::Vortex));
    assert(b == "vortex".spec_bytes());
    lemma_prefix_absent(b, "kernel".spec_bytes());
    lemma_prefix_absent(b, "memory".spec_bytes());
    lemma_prefix_absent(b, "heap".spec_bytes());
    lemma_prefix_absent(b, "scheduler".spec_bytes());
    lemma_prefix_absent(b, "process".spec_bytes());
    lemma_prefix_absent(b, "interrupt".spec_bytes());
    lemma_prefix_absent(b, "irq".spec_bytes());
    lemma_prefix_absent(b, "syscall".spec_bytes());
    lemma_prefix_absent(b, "boot".spec_bytes());
    lemma_contains_itself(b);
}

proof fn lemma_round_trip_gallifrey()
    ensures
        subsystem_for_target(vstd::utf8::encode_utf8(subsystem_name(Subsystem::Gallifrey))) == Subsystem::Gallifrey,
{
    lemma_keyword_bytes();
    let b = vstd::utf8::encode_utf8(subsystem_name(Subsystem::Gallifrey));
    assert(b == "gallifrey".spec_bytes());
    lemma_prefix_absent(b, "kernel".spec_bytes());
    lemma_prefix_absent(b, "memory".spec_bytes());
    lemma_prefix_absent(b, "heap".spec_bytes());
    lemma_prefix_absent(b, "scheduler".spec_bytes());
    lemma_prefix_absent(b, "process".spec_bytes());
    lemma_prefix_absent(b, "interrupt".spec_bytes());
    lemma_prefix_absent(b, "irq".spec_bytes());
    lemma_prefix_absent(b, "syscall".spec_bytes());
    lemma_prefix_absent(b, "boot".spec_bytes());
    lemma_prefix_absent(b, "vortex".spec_bytes());
    lemma_contains_itself(b);
}

proof fn lemma_round_trip_chronos()
    ensures
        subsystem_for_target(vstd::utf8::encode_utf8(subsystem_name(Subsystem::Chronos))) == Subsystem::Chronos,
{
    lemma_keyword_bytes();
    let b = vstd::utf8::encode_utf8(subsystem_name(Subsystem::Chronos));
    assert(b == "chronos".spec_bytes());
    lemma_prefix_absent(b, "kernel".spec_bytes());
    lemma_prefix_absent(b, "memory".spec_bytes());
    lemma_prefix_absent(b, "heap".spec_bytes());
    lemma_prefix_absent(b, "scheduler".spec_bytes());
    lemma_prefix_absent(b, "process".spec_bytes());
    lemma_prefix_absent(b, "interrupt".spec_bytes());
    lemma_prefix_absent(b, "irq".spec_bytes());
    lemma_prefix_absent(b, "syscall".spec_bytes());
    lemma_prefix_absent(b, "boot".spec_bytes());
    lemma_prefix_absent(b, "vortex".spec_bytes());
    lemma_prefix_absent(b, "gallifrey".spec_bytes());
    lemma_contains_itself(b);
}

proof fn lemma_round_trip_shell()
    ensures
        subsystem_for_target(vstd::utf8::encode_utf8(subsystem_name(Subsystem::Shell))) == Subsystem::Shell,
{
    lemma_keyword_bytes();
    let b = vstd::utf8::encode_utf8(subsystem_name(Subsystem::Shell));
    assert(b == "shell".spec_bytes());
    lemma_prefix_absent(b, "kernel".spec_bytes());
    lemma_prefix_absent(b, "memory".spec_bytes());
    lemma_prefix_absent(b, "heap".spec_bytes());
    lemma_prefix_absent(b, "scheduler".spec_bytes());
    lemma_prefix_absent(b, "process".spec_bytes());
    lemma_prefix_absent(b, "interrupt".spec_bytes());
    lemma_prefix_absent(b, "irq".spec_bytes());
    lemma_prefix_absent(b, "syscall".spec_bytes());
    lemma_prefix_absent(b, "boot".spec_bytes());
    lemma_prefix_absent(b, "vortex".spec_bytes());
    lemma_prefix_absent(b, "gallifrey".spec_bytes());
    lemma_prefix_absent(b, "chronos".spec_bytes());
    lemma_contains_itself(b);
}

proof fn lemma_round_trip_telemetry()
    ensures
        subsystem_for_target(vstd::utf8::encode_utf8(subsystem_name(Subsystem::Telemetry))) == Subsystem::Telemetry,
{
    lemma_keyword_bytes();
    let b = vstd::utf8::encode_utf8(subsystem_name(Subsystem::Telemetry));
    assert(b == "telemetry".spec_bytes());
    lemma_prefix_absent(b, "kernel".spec_bytes());
    lemma_prefix_absent(b, "memory".spec_bytes());
    lemma_prefix_absent(b, "heap".spec_bytes());
    lemma_prefix_absent(b, "scheduler".spec_bytes());
    lemma_prefix_absent(b, "process".spec_bytes());
    lemma_prefix_absent(b, "interrupt".spec_bytes());
    lemma_prefix_absent(b, "irq".spec_bytes());
    lemma_prefix_absent(b, "syscall".spec_bytes());
    lemma_prefix_absent(b, "boot".spec_bytes());
    lemma_prefix_absent(b, "vortex".spec_bytes());
    lemma_prefix_absent(b, "gallifrey".spec_bytes());
    lemma_prefix_absent(b, "chronos".spec_bytes());
    lemma_prefix_absent(b, "shell".spec_bytes());
    lemma_prefix_absent(b, "tardis".spec_bytes());
    lemma_contains_itself(b);
}

proof fn lemma_round_trip_unknown()
    ensures
        subsystem_for_target(vstd::utf8::encode_utf8(subsystem_name(Subsystem::Unknown))) == Subsystem::Unknown,
{
    lemma_keyword_bytes();
    let b = vstd::utf8::encode_utf8(subsystem_name(Subsystem::Unknown));
    assert(b == "unknown".spec_bytes());
    lemma_prefix_absent(b, "kernel".spec_bytes());
    lemma_prefix_absent(b, "memory".spec_bytes());
    lemma_prefix_absent(b, "heap".spec_bytes());
    lemma_prefix_absent(b, "scheduler".spec_bytes());
    lemma_prefix_absent(b, "process".spec_bytes());
    lemma_prefix_absent(b, "interrupt".spec_bytes());
    lemma_prefix_absent(b, "irq".spec_bytes());
    lemma_prefix_absent(b, "syscall".spec_bytes());
    lemma_prefix_absent(b, "boot".spec_bytes());
    lemma_prefix_absent(b, "vortex".spec_bytes());
    lemma_prefix_absent(b, "gallifrey".spec_bytes());
    lemma_prefix_absent(b, "chronos".spec_bytes());
    lemma_prefix_absent(b, "shell".spec_bytes());
    lemma_prefix_absent(b, "tardis".spec_bytes());
    lemma_prefix_absent(b, "telemetry".spec_bytes());
}

/// The subsystem named by a subsystem's own name is that subsystem: parsing the
/// string `as_str` gives, as a tracing target, gives the subsystem back.
pub proof fn law_from_target_round_trip(s: Subsystem)
    ensures
        subsystem_for_target(vstd::utf8::encode_utf8(subsystem_name(s))) == s,
{
    match s {
        Subsystem::Kernel => lemma_round_trip_kernel(),
        Subsystem::Memory => lemma_round_trip_memory(),
        Subsystem::Scheduler => lemma_round_trip_scheduler(),
        Subsystem::Interrupt => lemma_round_trip_interrupt(),
        Subsystem::Syscall => lemma_round_trip_syscall(),
        Subsystem::Boot => lemma_round_trip_boot(),
        Subsystem::Vortex => lemma_round_trip_vortex(),
        Subsystem::Gallifrey => lemma_round_trip_gallifrey(),
        Subsystem::Chronos => lemma_round_trip_chronos(),
        Subsystem::Shell => lemma_round_trip_shell(),
        Subsystem::Telemetry => lemma_round_trip_telemetry(),
        Subsystem::Unknown => lemma_round_trip_unknown(),
    }
}

/// Decoding the code of a subsystem gives the subsystem back.
pub proof fn law_subsystem_code_round_trip(s: Subsystem)
    ensures
        subsystem_from_code(subsystem_code(s)) == s,
{
}

/// Event type within a subsystem.
#[derive(Debug, Clone, Copy, PartialEq, Eq, Hash, Structural)]
pub enum EventType {
    /// Span started.
    SpanStart,
    /// Span ended.
    SpanEnd,
    /// Log message.
    Log,
    /// Metric sample.
    Metric,
    /// Boot sequence event.
    Boot,
    /// Kernel panic.
    Panic,
    /// Syscall entry.
    SyscallEntry,
    /// Syscall exit.
    SyscallExit,
    /// Page fault.
    PageFault,
    /// Interrupt received.
    InterruptReceived,
    /// Context switch.
    ContextSwitch,
    /// Model loading started.
    ModelLoad,
    /// Model unloaded.
    ModelUnload,
    /// Inference started.
    InferenceStart,
    /// Inference completed.
    InferenceEnd,
    /// Token generated.
    TokenGenerated,
    /// Embedding computed.
    EmbeddingComputed,
    /// Query started.
    QueryStart,
    /// Query completed.
    QueryEnd,
    /// Entity inserted.
    EntityInsert,
    /// Entity updated.
    EntityUpdate,
    /// Time travel query.
    TimeTravel,
    /// Snapshot taken.
    SnapshotTaken,
    /// RAG query started.
    RagQuery,
    /// Retrieval operation.
    Retrieval,
    /// Context augmentation.
    Augmentation,
    /// Memory consolidation.
    Consolidation,
    /// User input received.
    UserInput,
    /// Intent classified.
    IntentClassified,
    /// Response generated.
    ResponseGenerated,
    /// Unknown event type.
    Unknown,
}

/// The wire code of an event type.
pub open spec fn event_type_code(e: EventType) -> u16 {
    match e {
        EventType::SpanStart => 0,
        EventType::SpanEnd => 1,
        EventType::Log => 2,
        EventType::Metric => 3,
        EventType::Boot => 100,
        EventType::Panic => 101,
        EventType::SyscallEntry => 102,
        EventType::SyscallExit => 103,
        EventType::PageFault => 104,
        EventType::InterruptReceived => 105,
        EventType::ContextSwitch => 106,
        EventType::ModelLoad => 200,
        EventType::ModelUnload => 201,
        EventType::InferenceStart => 202,
        EventType::InferenceEnd => 203,
        EventType::TokenGenerated => 204,
        EventType::EmbeddingComputed => 205,
        EventType::QueryStart => 300,
        EventType::QueryEnd => 301,
        EventType::EntityInsert => 302,
        EventType::EntityUpdate => 303,
        EventType::TimeTravel => 304,
        EventType::SnapshotTaken => 305,
        EventType::RagQuery => 400,
        EventType::Retrieval => 401,
        EventType::Augmentation => 402,
        EventType::Consolidation => 403,
        EventType::UserInput => 500,
        EventType::IntentClassified => 501,
        EventType::ResponseGenerated => 502,
        EventType::Unknown => 65535,
    }
}

/// The event type a wire code denotes; codes that name no event type denote `Unknown`.
pub open spec fn event_type_from_code(v: u16) -> EventType {
    if v == 0 { EventType::SpanStart }
    else if v == 1 { EventType::SpanEnd }
    else if v == 2 { EventType::Log }
    else if v == 3 { EventType::Metric }
    else if v == 100 { EventType::Boot }
    else if v == 101 { EventType::Panic }
    else if v == 102 { EventType::SyscallEntry }
    else if v == 103 { EventType::SyscallExit }
    else if v == 104 { EventType::PageFault }
    else if v == 105 { EventType::InterruptReceived }
    else if v == 106 { EventType::ContextSwitch }
    else if v == 200 { EventType::ModelLoad }
    else if v == 201 { EventType::ModelUnload }
    else if v == 202 { EventType::InferenceStart }
    else if v == 203 { EventType::InferenceEnd }
    else if v == 204 { EventType::TokenGenerated }
    else if v == 205 { EventType::EmbeddingComputed }
    else if v == 300 { EventType::QueryStart }
    else if v == 301 { EventType::QueryEnd }
    else if v == 302 { EventType::EntityInsert }
    else if v == 303 { EventType::EntityUpdate }
    else if v == 304 { EventType::TimeTravel }
    else if v == 305 { EventType::SnapshotTaken }
    else if v == 400 { EventType::RagQuery }
    else if v == 401 { EventType::Retrieval }
    else if v == 402 { EventType::Augmentation }
    else if v == 403 { EventType::Consolidation }
    else if v == 500 { EventType::UserInput }
    else if v == 501 { EventType::IntentClassified }
    else if v == 502 { EventType::ResponseGenerated }
    else { EventType::Unknown }
}

/// The snake-case name of an event type.
pub open spec fn event_type_name(e: EventType) -> Seq<char> {
    match e {
        EventType::SpanStart => "span_start"@,
        EventType::SpanEnd => "span_end"@,
        EventType::Log => "log"@,
        EventType::Metric => "metric"@,
        EventType::Boot => "boot"@,
        EventType::Panic => "panic"@,
        EventType::SyscallEntry => "syscall_entry"@,
        EventType::SyscallExit => "syscall_exit"@,
        EventType::PageFault => "page_fault"@,
        EventType::InterruptReceived => "interrupt"@,
        EventType::ContextSwitch => "context_switch"@,
        EventType::ModelLoad => "model_load"@,
        EventType::ModelUnload => "model_unload"@,
        EventType::InferenceStart => "inference_start"@,
        EventType::InferenceEnd => "inference_end"@,
        EventType::TokenGenerated => "token_generated"@,
        EventType::EmbeddingComputed => "embedding_computed"@,
        EventType::QueryStart => "query_start"@,
        EventType::QueryEnd => "query_end"@,
        EventType::EntityInsert => "entity_insert"@,
        EventType::EntityUpdate => "entity_update"@,
        EventType::TimeTravel => "time_travel"@,
        EventType::SnapshotTaken => "snapshot_taken"@,
        EventType::RagQuery => "rag_query"@,
        EventType::Retrieval => "retrieval"@,
        EventType::Augmentation => "augmentation"@,
        EventType::Consolidation => "consolidation"@,
        EventType::UserInput => "user_input"@,
        EventType::IntentClassified => "intent_classified"@,
        EventType::ResponseGenerated => "response_generated"@,
        EventType::Unknown => "unknown"@,
    }
}

impl EventType {
    /// Returns the event type as a static string: a snake-case name that no other
    /// event type has (see [`law_event_type_names_distinct`]).
    pub fn as_str(&self) -> (r: &'static str)
        ensures
            r@ == event_type_name(*self),
            is_snake_case(r@),
    {
        proof {
            law_event_type_names_snake_case(*self);
        }
        match self {
            EventType::SpanStart => "span_start",
            EventType::SpanEnd => "span_end",
            EventType::Log => "log",
            EventType::Metric => "metric",
            EventType::Boot => "boot",
            EventType::Panic => "panic",
            EventType::SyscallEntry => "syscall_entry",
            EventType::SyscallExit => "syscall_exit",
            EventType::PageFault => "page_fault",
            EventType::InterruptReceived => "interrupt",
            EventType::ContextSwitch => "context_switch",
            EventType::ModelLoad => "model_load",
            EventType::ModelUnload => "model_unload",
            EventType::InferenceStart => "inference_start",
            EventType::InferenceEnd => "inference_end",
            EventType::TokenGenerated => "token_generated",
            EventType::EmbeddingComputed => "embedding_computed",
            EventType::QueryStart => "query_start",
            EventType::QueryEnd => "query_end",
            EventType::EntityInsert => "entity_insert",
            EventType::EntityUpdate => "entity_update",
            EventType::TimeTravel => "time_travel",
            EventType::SnapshotTaken => "snapshot_taken",
            EventType::RagQuery => "rag_query",
            EventType::Retrieval => "retrieval",
            EventType::Augmentation => "augmentation",
            EventType::Consolidation => "consolidation",
            EventType::UserInput => "user_input",
            EventType::IntentClassified => "intent_classified",
            EventType::ResponseGenerated => "response_generated",
            EventType::Unknown => "unknown",
        }
    }

    /// Returns the wire code of the event type.
    pub fn code(&self) -> (c: u16)
        ensures
            c == event_type_code(*self),
    {
        match self {
            EventType::SpanStart => 0,
            EventType::SpanEnd => 1,
            EventType::Log => 2,
            EventType::Metric => 3,
            EventType::Boot => 100,
            EventType::Panic => 101,
            EventType::SyscallEntry => 102,
            EventType::SyscallExit => 103,
            EventType::PageFault => 104,
            EventType::InterruptReceived => 105,
            EventType::ContextSwitch => 106,
            EventType::ModelLoad => 200,
            EventType::ModelUnload => 201,
            EventType::InferenceStart => 202,
            EventType::InferenceEnd => 203,
            EventType::TokenGenerated => 204,
            EventType::EmbeddingComputed => 205,
            EventType::QueryStart => 300,
            EventType::QueryEnd => 301,
            EventType::EntityInsert => 302,
            EventType::EntityUpdate => 303,
            EventType::TimeTravel => 304,
            EventType::SnapshotTaken => 305,
            EventType::RagQuery => 400,
            EventType::Retrieval => 401,
            EventType::Augmentation => 402,
            EventType::Consolidation => 403,
            EventType::UserInput => 500,
            EventType::IntentClassified => 501,
            EventType::ResponseGenerated => 502,
            EventType::Unknown => 65535,
        }
    }
}

impl From<u16> for EventType {
    fn from(value: u16) -> (e: Self) {
        match value {
            0 => EventType::SpanStart,
            1 => EventType::SpanEnd,
            2 => EventType::Log,
            3 => EventType::Metric,
            100 => EventType::Boot,
            101 => EventType::Panic,
            102 => EventType::SyscallEntry,
            103 => EventType::SyscallExit,
            104 => EventType::PageFault,
            105 => EventType::InterruptReceived,
            106 => EventType::ContextSwitch,
            200 => EventType::ModelLoad,
            201 => EventType::ModelUnload,
            202 => EventType::InferenceStart,
            203 => EventType::InferenceEnd,
            204 => EventType::TokenGenerated,
            205 => EventType::EmbeddingComputed,
            300 => EventType::QueryStart,
            301 => EventType::QueryEnd,
            302 => EventType::EntityInsert,
            303 => EventType::EntityUpdate,
            304 => EventType::TimeTravel,
            305 => EventType::SnapshotTaken,
            400 => EventType::RagQuery,
            401 => EventType::Retrieval,
            402 => EventType::Augmentation,
            403 => EventType::Consolidation,
            500 => EventType::UserInput,
            501 => EventType::IntentClassified,
            502 => EventType::ResponseGenerated,
            _ => EventType::Unknown,
        }
    }
}

impl vstd::std_specs::convert::FromSpecImpl<u16> for EventType {
    open spec fn obeys_from_spec() -> bool {
        true
    }

    open spec fn from_spec(v: u16) -> Self {
        event_type_from_code(v)
    }
}

/// Decoding the code of an event type gives the event type back.
pub proof fn law_event_type_code_round_trip(e: EventType)
    ensures
        event_type_from_code(event_type_code(e)) == e,
{
}


/// The length, first and last character of a name.
spec fn name_signature(name: Seq<char>) -> (nat, char, char) {
    (name.len(), name[0], name.last())
}

/// The signature of each event type's name.
spec fn event_signature(e: EventType) -> (nat, char, char) {
    match e {
        EventType::SpanStart => (10nat, 's', 't'),
        EventType::SpanEnd => (8nat, 's', 'd'),
        EventType::Log => (3nat, 'l', 'g'),
        EventType::Metric => (6nat, 'm', 'c'),
        EventType::Boot => (4nat, 'b', 't'),
        EventType::Panic => (5nat, 'p', 'c'),
        EventType::SyscallEntry => (13nat, 's', 'y'),
        EventType::SyscallExit => (12nat, 's', 't'),
        EventType::PageFault => (10nat, 'p', 't'),
        EventType::InterruptReceived => (9nat, 'i', 't'),
        EventType::ContextSwitch => (14nat, 'c', 'h'),
        EventType::ModelLoad => (10nat, 'm', 'd'),
        EventType::ModelUnload => (12nat, 'm', 'd'),
        EventType::InferenceStart => (15nat, 'i', 't'),
        EventType::InferenceEnd => (13nat, 'i', 'd'),
        EventType::TokenGenerated => (15nat, 't', 'd'),
        EventType::EmbeddingComputed => (18nat, 'e', 'd'),
        EventType::QueryStart => (11nat, 'q', 't'),
        EventType::QueryEnd => (9nat, 'q', 'd'),
        EventType::EntityInsert => (13nat, 'e', 't'),
        EventType::EntityUpdate => (13nat, 'e', 'e'),
        EventType::TimeTravel => (11nat, 't', 'l'),
        EventType::SnapshotTaken => (14nat, 's', 'n'),
        EventType::RagQuery => (9nat, 'r', 'y'),
        EventType::Retrieval => (9nat, 'r', 'l'),
        EventType::Augmentation => (12nat, 'a', 'n'),
        EventType::Consolidation => (13nat, 'c', 'n'),
        EventType::UserInput => (10nat, 'u', 't'),
        EventType::IntentClassified => (17nat, 'i', 'd'),
        EventType::ResponseGenerated => (18nat, 'r', 'd'),
        EventType::Unknown => (7nat, 'u', 'n'),
    }
}

/// The event type with a given name signature.
spec fn event_from_signature(sig: (nat, char, char)) -> EventType {
    if sig == (10nat, 's', 't') {
        EventType::SpanStart
    } else if sig == (8nat, 's', 'd') {
        EventType::SpanEnd
    } else if sig == (3nat, 'l', 'g') {
        EventType::Log
    } else if sig == (6nat, 'm', 'c') {
        EventType::Metric
    } else if sig == (4nat, 'b', 't') {
        EventType::Boot
    } else if sig == (5nat, 'p', 'c') {
        EventType::Panic
    } else if sig == (13nat, 's', 'y') {
        EventType::SyscallEntry
    } else if sig == (12nat, 's', 't') {
        EventType::SyscallExit
    } else if sig == (10nat, 'p', 't') {
        EventType::PageFault
    } else if sig == (9nat, 'i', 't') {
        EventType::InterruptReceived
    } else if sig == (14nat, 'c', 'h') {
        EventType::ContextSwitch
    } else if sig == (10nat, 'm', 'd') {
        EventType::ModelLoad
    } else if sig == (12nat, 'm', 'd') {
        EventType::ModelUnload
    } else if sig == (15nat, 'i', 't') {
        EventType::InferenceStart
    } else if sig == (13nat, 'i', 'd') {
        EventType::InferenceEnd
    } else if sig == (15nat, 't', 'd') {
        EventType::TokenGenerated
    } else if sig == (18nat, 'e', 'd') {
        EventType::EmbeddingComputed
    } else if sig == (11nat, 'q', 't') {
        EventType::QueryStart
    } else if sig == (9nat, 'q', 'd') {
        EventType::QueryEnd
    } else if sig == (13nat, 'e', 't') {
        EventType::EntityInsert
    } else if sig == (13nat, 'e', 'e') {
        EventType::EntityUpdate
    } else if sig == (11nat, 't', 'l') {
        EventType::TimeTravel
    } else if sig == (14nat, 's', 'n') {
        EventType::SnapshotTaken
    } else if sig == (9nat, 'r', 'y') {
        EventType::RagQuery
    } else if sig == (9nat, 'r', 'l') {
        EventType::Retrieval
    } else if sig == (12nat, 'a', 'n') {
        EventType::Augmentation
    } else if sig == (13nat, 'c', 'n') {
        EventType::Consolidation
    } else if sig == (10nat, 'u', 't') {
        EventType::UserInput
    } else if sig == (17nat, 'i', 'd') {
        EventType::IntentClassified
    } else if sig == (18nat, 'r', 'd') {
        EventType::ResponseGenerated
    } else {
        EventType::Unknown
    }
}

proof fn lemma_event_signature(e: EventType)
    ensures
        name_signature(event_type_name(e)) == event_signature(e),
        event_from_signature(event_signature(e)) == e,
{
    match e {
        EventType::SpanStart => {
            reveal_strlit("span_start");
            assert(event_type_name(e) =~= seq!['s', 'p', 'a', 'n', '_', 's', 't', 'a', 'r', 't']);
        },
        EventType::SpanEnd => {
            reveal_strlit("span_end");
            assert(event_type_name(e) =~= seq!['s', 'p', 'a', 'n', '_', 'e', 'n', 'd']);
        },
        EventType::Log => {
            reveal_strlit("log");
            assert(event_type_name(e) =~= seq!['l', 'o', 'g']);
        },
        EventType::Metric => {
            reveal_strlit("metric");
            assert(event_type_name(e) =~= seq!['m', 'e', 't', 'r', 'i', 'c']);
        },
        EventType::Boot => {
            reveal_strlit("boot");
            assert(event_type_name(e) =~= seq!['b', 'o', 'o', 't']);
        },
        EventType::Panic => {
            reveal_strlit("panic");
            assert(event_type_name(e) =~= seq!['p', 'a', 'n', 'i', 'c']);
        },
        EventType::SyscallEntry => {
            reveal_strlit("syscall_entry");
            assert(event_type_name(e) =~= seq!['s', 'y', 's', 'c', 'a', 'l', 'l', '_', 'e', 'n', 't', 'r', 'y']);
        },
        EventType::SyscallExit => {
            reveal_strlit("syscall_exit");
            assert(event_type_name(e) =~= seq!['s', 'y', 's', 'c', 'a', 'l', 'l', '_', 'e', 'x', 'i', 't']);
        },
        EventType::PageFault => {
            reveal_strlit("page_fault");
            assert(event_type_name(e) =~= seq!['p', 'a', 'g', 'e', '_', 'f', 'a', 'u', 'l', 't']);
        },
        EventType::InterruptReceived => {
            reveal_strlit("interrupt");
            assert(event_type_name(e) =~= seq!['i', 'n', 't', 'e', 'r', 'r', 'u', 'p', 't']);
        },
        EventType::ContextSwitch => {
            reveal_strlit("context_switch");
            assert(event_type_name(e) =~= seq!['c', 'o', 'n', 't', 'e', 'x', 't', '_', 's', 'w', 'i', 't', 'c', 'h']);
        },
        EventType::ModelLoad => {
            reveal_strlit("model_load");
            assert(event_type_name(e) =~= seq!['m', 'o', 'd', 'e', 'l', '_', 'l', 'o', 'a', 'd']);
        },
        EventType::ModelUnload => {
            reveal_strlit("model_unload");
            assert(event_type_name(e) =~= seq!['m', 'o', 'd', 'e', 'l', '_', 'u', 'n', 'l', 'o', 'a', 'd']);
        },
        EventType::InferenceStart => {
            reveal_strlit("inference_start");
            assert(event_type_name(e) =~= seq!['i', 'n', 'f', 'e', 'r', 'e', 'n', 'c', 'e', '_', 's', 't', 'a', 'r', 't']);
        },
        EventType::InferenceEnd => {
            reveal_strlit("inference_end");
            assert(event_type_name(e) =~= seq!['i', 'n', 'f', 'e', 'r', 'e', 'n', 'c', 'e', '_', 'e', 'n', 'd']);
        },
        EventType::TokenGenerated => {
            reveal_strlit("token_generated");
            assert(event_type_name(e) =~= seq!['t', 'o', 'k', 'e', 'n', '_', 'g', 'e', 'n', 'e', 'r', 'a', 't', 'e', 'd']);
        },
        EventType::EmbeddingComputed => {
            reveal_strlit("embedding_computed");
            assert(event_type_name(e) =~= seq!['e', 'm', 'b', 'e', 'd', 'd', 'i', 'n', 'g', '_', 'c', 'o', 'm', 'p', 'u', 't', 'e', 'd']);
        },
        EventType::QueryStart => {
            reveal_strlit("query_start");
            assert(event_type_name(e) =~= seq!['q', 'u', 'e', 'r', 'y', '_', 's', 't', 'a', 'r', 't']);
        },
        EventType::QueryEnd => {
            reveal_strlit("query_end");
            assert(event_type_name(e) =~= seq!['q', 'u', 'e', 'r', 'y', '_', 'e', 'n', 'd']);
        },
        EventType::EntityInsert => {
            reveal_strlit("entity_insert");
            assert(event_type_name(e) =~= seq!['e', 'n', 't', 'i', 't', 'y', '_', 'i', 'n', 's', 'e', 'r', 't']);
        },
        EventType::EntityUpdate => {
            reveal_strlit("entity_update");
            assert(event_type_name(e) =~= seq!['e', 'n', 't', 'i', 't', 'y', '_', 'u', 'p', 'd', 'a', 't', 'e']);
        },
        EventType::TimeTravel => {
            reveal_strlit("time_travel");
            assert(event_type_name(e) =~= seq!['t', 'i', 'm', 'e', '_', 't', 'r', 'a', 'v', 'e', 'l']);
        },
        EventType::SnapshotTaken => {
            reveal_strlit("snapshot_taken");
            assert(event_type_name(e) =~= seq!['s', 'n', 'a', 'p', 's', 'h', 'o', 't', '_', 't', 'a', 'k', 'e', 'n']);
        },
        EventType::RagQuery => {
            reveal_strlit("rag_query");
            assert(event_type_name(e) =~= seq!['r', 'a', 'g', '_', 'q', 'u', 'e', 'r', 'y']);
        },
        EventType::Retrieval => {
            reveal_strlit("retrieval");
            assert(event_type_name(e) =~= seq!['r', 'e', 't', 'r', 'i', 'e', 'v', 'a', 'l']);
        },
        EventType::Augmentation => {
            reveal_strlit("augmentation");
            assert(event_type_name(e) =~= seq!['a', 'u', 'g', 'm', 'e', 'n', 't', 'a', 't', 'i', 'o', 'n']);
        },
        EventType::Consolidation => {
            reveal_strlit("consolidation");
            assert(event_type_name(e) =~= seq!['c', 'o', 'n', 's', 'o', 'l', 'i', 'd', 'a', 't', 'i', 'o', 'n']);
        },
        EventType::UserInput => {
            reveal_strlit("user_input");
            assert(event_type_name(e) =~= seq!['u', 's', 'e', 'r', '_', 'i', 'n', 'p', 'u', 't']);
        },
        EventType::IntentClassified => {
            reveal_strlit("intent_classified");
            assert(event_type_name(e) =~= seq!['i', 'n', 't', 'e', 'n', 't', '_', 'c', 'l', 'a', 's', 's', 'i', 'f', 'i', 'e', 'd']);
        },
        EventType::ResponseGenerated => {
            reveal_strlit("response_generated");
            assert(event_type_name(e) =~= seq!['r', 'e', 's', 'p', 'o', 'n', 's', 'e', '_', 'g', 'e', 'n', 'e', 'r', 'a', 't', 'e', 'd']);
        },
        EventType::Unknown => {
            reveal_strlit("unknown");
            assert(event_type_name(e) =~= seq!['u', 'n', 'k', 'n', 'o', 'w', 'n']);
        },
    }
}

/// Distinct event types have distinct names: the name of an event type
/// determines it.
pub proof fn law_event_type_names_distinct(a: EventType, b: EventType)
    ensures
        event_type_name(a) == event_type_name(b) ==> a == b,
{
    lemma_event_signature(a);
    lemma_event_signature(b);
}


/// A non-empty name of lowercase ASCII letters and underscores.
pub open spec fn is_snake_case(name: Seq<char>) -> bool {
    &&& name.len() > 0
    &&& forall|i: int| 0 <= i < name.len() ==> ('a' <= #[trigger] name[i] <= 'z' || name[i] == '_')
}

/// Every event type's name is in snake case.
pub proof fn law_event_type_names_snake_case(e: EventType)
    ensures
        is_snake_case(event_type_name(e)),
{
    match e {
        EventType::SpanStart => {
            reveal_strlit("span_start");
            assert(event_type_name(e) =~= seq!['s', 'p', 'a', 'n', '_', 's', 't', 'a', 'r', 't']);
        },
        EventType::SpanEnd => {
            reveal_strlit("span_end");
            assert(event_type_name(e) =~= seq!['s', 'p', 'a', 'n', '_', 'e', 'n', 'd']);
        },
        EventType::Log => {
            reveal_strlit("log");
            assert(event_type_name(e) =~= seq!['l', 'o', 'g']);
        },
        EventType::Metric => {
            reveal_strlit("metric");
            assert(event_type_name(e) =~= seq!['m', 'e', 't', 'r', 'i', 'c']);
        },
        EventType::Boot => {
            reveal_strlit("boot");
            assert(event_type_name(e) =~= seq!['b', 'o', 'o', 't']);
        },
        EventType::Panic => {
            reveal_strlit("panic");
            assert(event_type_name(e) =~= seq!['p', 'a', 'n', 'i', 'c']);
        },
        EventType::SyscallEntry => {
            reveal_strlit("syscall_entry");
            assert(event_type_name(e) =~= seq!['s', 'y', 's', 'c', 'a', 'l', 'l', '_', 'e', 'n', 't', 'r', 'y']);
        },
        EventType::SyscallExit => {
            reveal_strlit("syscall_exit");
            assert(event_type_name(e) =~= seq!['s', 'y', 's', 'c', 'a', 'l', 'l', '_', 'e', 'x', 'i', 't']);
        },
        EventType::PageFault => {
            reveal_strlit("page_fault");
            assert(event_type_name(e) =~= seq!['p', 'a', 'g', 'e', '_', 'f', 'a', 'u', 'l', 't']);
        },
        EventType::InterruptReceived => {
            reveal_strlit("interrupt");
            assert(event_type_name(e) =~= seq!['i', 'n', 't', 'e', 'r', 'r', 'u', 'p', 't']);
        },
        EventType::ContextSwitch => {
            reveal_strlit("context_switch");
            assert(event_type_name(e) =~= seq!['c', 'o', 'n', 't', 'e', 'x', 't', '_', 's', 'w', 'i', 't', 'c', 'h']);
        },
        EventType::ModelLoad => {
            reveal_strlit("model_load");
            assert(event_type_name(e) =~= seq!['m', 'o', 'd', 'e', 'l', '_', 'l', 'o', 'a', 'd']);
        },
        EventType::ModelUnload => {
            reveal_strlit("model_unload");
            assert(event_type_name(e) =~= seq!['m', 'o', 'd', 'e', 'l', '_', 'u', 'n', 'l', 'o', 'a', 'd']);
        },
        EventType::InferenceStart => {
            reveal_strlit("inference_start");
            assert(event_type_name(e) =~= seq!['i', 'n', 'f', 'e', 'r', 'e', 'n', 'c', 'e', '_', 's', 't', 'a', 'r', 't']);
        },
        EventType::InferenceEnd => {
            reveal_strlit("inference_end");
            assert(event_type_name(e) =~= seq!['i', 'n', 'f', 'e', 'r', 'e', 'n', 'c', 'e', '_', 'e', 'n', 'd']);
        },
        EventType::TokenGenerated => {
            reveal_strlit("token_generated");
            assert(event_type_name(e) =~= seq!['t', 'o', 'k', 'e', 'n', '_', 'g', 'e', 'n', 'e', 'r', 'a', 't', 'e', 'd']);
        },
        EventType::EmbeddingComputed => {
            reveal_strlit("embedding_computed");
            assert(event_type_name(e) =~= seq!['e', 'm', 'b', 'e', 'd', 'd', 'i', 'n', 'g', '_', 'c', 'o', 'm', 'p', 'u', 't', 'e', 'd']);
        },
        EventType::QueryStart => {
            reveal_strlit("query_start");
            assert(event_type_name(e) =~= seq!['q', 'u', 'e', 'r', 'y', '_', 's', 't', 'a', 'r', 't']);
        },
        EventType::QueryEnd => {
            reveal_strlit("query_end");
            assert(event_type_name(e) =~= seq!['q', 'u', 'e', 'r', 'y', '_', 'e', 'n', 'd']);
        },
        EventType::EntityInsert => {
            reveal_strlit("entity_insert");
            assert(event_type_name(e) =~= seq!['e', 'n', 't', 'i', 't', 'y', '_', 'i', 'n', 's', 'e', 'r', 't']);
        },
        EventType::EntityUpdate => {
            reveal_strlit("entity_update");
            assert(event_type_name(e) =~= seq!['e', 'n', 't', 'i', 't', 'y', '_', 'u', 'p', 'd', 'a', 't', 'e']);
        },
        EventType::TimeTravel => {
            reveal_strlit("time_travel");
            assert(event_type_name(e) =~= seq!['t', 'i', 'm', 'e', '_', 't', 'r', 'a', 'v', 'e', 'l']);
        },
        EventType::SnapshotTaken => {
            reveal_strlit("snapshot_taken");
            assert(event_type_name(e) =~= seq!['s', 'n', 'a', 'p', 's', 'h', 'o', 't', '_', 't', 'a', 'k', 'e', 'n']);
        },
        EventType::RagQuery => {
            reveal_strlit("rag_query");
            assert(event_type_name(e) =~= seq!['r', 'a', 'g', '_', 'q', 'u', 'e', 'r', 'y']);
        },
        EventType::Retrieval => {
            reveal_strlit("retrieval");
            assert(event_type_name(e) =~= seq!['r', 'e', 't', 'r', 'i', 'e', 'v', 'a', 'l']);
        },
        EventType::Augmentation => {
            reveal_strlit("augmentation");
            assert(event_type_name(e) =~= seq!['a', 'u', 'g', 'm', 'e', 'n', 't', 'a', 't', 'i', 'o', 'n']);
        },
        EventType::Consolidation => {
            reveal_strlit("consolidation");
            assert(event_type_name(e) =~= seq!['c', 'o', 'n', 's', 'o', 'l', 'i', 'd', 'a', 't', 'i', 'o', 'n']);
        },
        EventType::UserInput => {
            reveal_strlit("user_input");
            assert(event_type_name(e) =~= seq!['u', 's', 'e', 'r', '_', 'i', 'n', 'p', 'u', 't']);
        },
        EventType::IntentClassified => {
            reveal_strlit("intent_classified");
            assert(event_type_name(e) =~= seq!['i', 'n', 't', 'e', 'n', 't', '_', 'c', 'l', 'a', 's', 's', 'i', 'f', 'i', 'e', 'd']);
        },
        EventType::ResponseGenerated => {
            reveal_strlit("response_generated");
            assert(event_type_name(e) =~= seq!['r', 'e', 's', 'p', 'o', 'n', 's', 'e', '_', 'g', 'e', 'n', 'e', 'r', 'a', 't', 'e', 'd']);
        },
        EventType::Unknown => {
            reveal_strlit("unknown");
            assert(event_type_name(e) =~= seq!['u', 'n', 'k', 'n', 'o', 'w', 'n']);
        },
    }
}

} // verus!
