//! Text helpers shared by the telemetry and inference modules: character-level
//! comparisons, case mapping and decimal parsing.

use vstd::prelude::*;

verus! {

/// `needle` occurs in `s` starting at character position `i`.
pub open spec fn occurs_at(s: Seq<char>, needle: Seq<char>, i: int) -> bool {
    &&& 0 <= i
    &&& i + needle.len() <= s.len()
    &&& s.subrange(i, i + needle.len()) == needle
}

/// `needle` occurs somewhere in `s`.
pub open spec fn seq_contains(s: Seq<char>, needle: Seq<char>) -> bool {
    exists|i: int| occurs_at(s, needle, i)
}

/// `s` ends with `suffix`.
pub open spec fn seq_ends_with(s: Seq<char>, suffix: Seq<char>) -> bool {
    suffix.len() <= s.len() && s.subrange(s.len() - suffix.len(), s.len() as int) == suffix
}

/// `s` starts with `prefix`.
pub open spec fn seq_starts_with(s: Seq<char>, prefix: Seq<char>) -> bool {
    prefix.len() <= s.len() && s.subrange(0, prefix.len() as int) == prefix
}

/// A sequence starts with any of its prefixes.
pub proof fn lemma_starts_with_concat(prefix: Seq<char>, rest: Seq<char>)
    ensures
        seq_starts_with(prefix + rest, prefix),
{
    assert((prefix + rest).subrange(0, prefix.len() as int) =~= prefix);
}

/// Appends one character to a string.
///
/// Calls `String::push`, which appends the character at the end of the string.
#[verifier::external_body]
pub(crate) fn push_char(s: &mut String, c: char)
    ensures
        final(s)@ == old(s)@.push(c),
{
    s.push(c);
}

/// Converts a string slice into an owned string with the same characters.
pub fn to_owned_string(s: &str) -> (r: String)
    ensures
        r@ == s@,
{
    String::from_str(s)
}

/// Whether the characters of `needle` appear in `s` at character position `i`.
fn matches_at(s: &str, needle: &str, i: usize, s_len: usize, n_len: usize) -> (r: bool)
    requires
        s_len == s@.len(),
        n_len == needle@.len(),
        i + n_len <= s_len,
    ensures
        r == occurs_at(s@, needle@, i as int),
{
    let mut j: usize = 0;
    while j < n_len
        invariant
            s_len == s@.len(),
            n_len == needle@.len(),
            i + n_len <= s_len,
            j <= n_len,
            forall|k: int| 0 <= k < j ==> s@[i + k] == needle@[k],
        decreases n_len - j,
    {
        if s.get_char(i + j) != needle.get_char(j) {
            proof {
                assert(s@.subrange(i as int, i + n_len)[j as int] != needle@[j as int]);
            }
            return false;
        }
        j = j + 1;
    }
    proof {
        assert(s@.subrange(i as int, i + n_len) =~= needle@);
    }
    true
}

/// Whether two string slices hold the same characters.
pub fn str_eq(a: &str, b: &str) -> (r: bool)
    ensures
        r == (a@ == b@),
{
    let a_len = a.unicode_len();
    let b_len = b.unicode_len();
    if a_len != b_len {
        return false;
    }
    let r = matches_at(a, b, 0, a_len, b_len);
    proof {
        assert(a@.subrange(0, a_len as int) =~= a@);
    }
    r
}

/// Whether `s` starts with `prefix`.
pub fn str_starts_with(s: &str, prefix: &str) -> (r: bool)
    ensures
        r == seq_starts_with(s@, prefix@),
{
    let s_len = s.unicode_len();
    let p_len = prefix.unicode_len();
    if p_len > s_len {
        return false;
    }
    matches_at(s, prefix, 0, s_len, p_len)
}

/// Whether `s` ends with `suffix`.
pub fn str_ends_with(s: &str, suffix: &str) -> (r: bool)
    ensures
        r == seq_ends_with(s@, suffix@),
{
    let s_len = s.unicode_len();
    let x_len = suffix.unicode_len();
    if x_len > s_len {
        return false;
    }
    matches_at(s, suffix, s_len - x_len, s_len, x_len)
}

/// Whether `needle` occurs in `haystack` (by characters).
pub fn str_contains(haystack: &str, needle: &str) -> (r: bool)
    ensures
        r == seq_contains(haystack@, needle@),
{
    let h_len = haystack.unicode_len();
    let n_len = needle.unicode_len();
    if n_len > h_len {
        proof {
            assert forall|i: int| !occurs_at(haystack@, needle@, i) by {}
        }
        return false;
    }
    let last = h_len - n_len;
    let mut i: usize = 0;
    while i < last
        invariant
            h_len == haystack@.len(),
            n_len == needle@.len(),
            last == h_len - n_len,
            i <= last,
            forall|k: int| 0 <= k < i ==> !occurs_at(haystack@, needle@, k),
        decreases last - i,
    {
        if matches_at(haystack, needle, i, h_len, n_len) {
            return true;
        }
        i = i + 1;
    }
    if matches_at(haystack, needle, last, h_len, n_len) {
        return true;
    }
    proof {
        assert forall|k: int| !occurs_at(haystack@, needle@, k) by {
            if 0 <= k <= last {
            }
        }
    }
    false
}

/// Unicode lowercase mapping of a string (the `Lowercase` derived core property).
pub uninterp spec fn spec_to_lowercase(s: Seq<char>) -> Seq<char>;

/// Unicode uppercase mapping of a string (the `Uppercase` derived core property).
pub uninterp spec fn spec_to_uppercase(s: Seq<char>) -> Seq<char>;

/// The ASCII lowercase of a character: `A`..`Z` become `a`..`z`, every other
/// character stays.
pub open spec fn ascii_lower_char(c: char) -> char {
    if 'A' <= c <= 'Z' {
        ((c as u32) + 32) as char
    } else {
        c
    }
}

/// The ASCII uppercase of a character: `a`..`z` become `A`..`Z`, every other
/// character stays.
pub open spec fn ascii_upper_char(c: char) -> char {
    if 'a' <= c <= 'z' {
        ((c as u32) - 32) as char
    } else {
        c
    }
}

/// The lowercase of a string: for ASCII text its ASCII lowercase, otherwise the
/// Unicode lowercase mapping.
pub open spec fn text_lowercase(s: Seq<char>) -> Seq<char> {
    if vstd::utf8::is_ascii_chars(s) {
        s.map_values(|c: char| ascii_lower_char(c))
    } else {
        spec_to_lowercase(s)
    }
}

/// The uppercase of a string: for ASCII text its ASCII uppercase, otherwise the
/// Unicode uppercase mapping.
pub open spec fn text_uppercase(s: Seq<char>) -> Seq<char> {
    if vstd::utf8::is_ascii_chars(s) {
        s.map_values(|c: char| ascii_upper_char(c))
    } else {
        spec_to_uppercase(s)
    }
}

/// Lowercases a string.
///
/// Calls `str::to_lowercase`; its result depends on the characters alone, and is
/// named `spec_to_lowercase`. For ASCII text it is the ASCII lowercase, character
/// by character (Unicode lowercases `A`..`Z` to `a`..`z` and leaves the other ASCII
/// characters as they are).
#[verifier::external_body]
pub(crate) fn to_lowercase(s: &str) -> (r: String)
    ensures
        r@ == spec_to_lowercase(s@),
        vstd::utf8::is_ascii_chars(s@) ==> r@ == s@.map_values(|c: char| ascii_lower_char(c)),
{
    s.to_lowercase()
}

/// Uppercases a string.
///
/// Calls `str::to_uppercase`; its result depends on the characters alone, and is
/// named `spec_to_uppercase`. For ASCII text it is the ASCII uppercase, character
/// by character (Unicode uppercases `a`..`z` to `A`..`Z` and leaves the other ASCII
/// characters as they are).
#[verifier::external_body]
pub(crate) fn to_uppercase(s: &str) -> (r: String)
    ensures
        r@ == spec_to_uppercase(s@),
        vstd::utf8::is_ascii_chars(s@) ==> r@ == s@.map_values(|c: char| ascii_upper_char(c)),
{
    s.to_uppercase()
}

/// An ASCII decimal digit.
pub open spec fn is_ascii_digit(c: char) -> bool {
    '0' <= c && c <= '9'
}

/// Every character of `d` is an ASCII decimal digit.
pub open spec fn all_ascii_digits(d: Seq<char>) -> bool {
    forall|i: int| 0 <= i < d.len() ==> is_ascii_digit(#[trigger] d[i])
}

/// The value of a sequence of ASCII decimal digits (most significant first).
pub open spec fn decimal_value(digits: Seq<char>) -> nat
    decreases digits.len(),
{
    if digits.len() == 0 {
        0
    } else {
        decimal_value(digits.drop_last()) * 10 + (digits.last() as nat - '0' as nat) as nat
    }
}

/// What `usize::from_str` returns: an optional `+` sign, then one or more ASCII
/// digits whose value fits in `usize`; anything else is rejected.
pub open spec fn spec_parse_usize(s: Seq<char>) -> Option<usize> {
    let digits = if s.len() > 0 && s[0] == '+' { s.drop_first() } else { s };
    if digits.len() == 0 || !all_ascii_digits(digits) {
        None
    } else if decimal_value(digits) > usize::MAX {
        None
    } else {
        Some(decimal_value(digits) as usize)
    }
}

/// Parses a decimal `usize` the way `usize::from_str` does.
pub fn parse_usize(s: &str) -> (r: Option<usize>)
    ensures
        r == spec_parse_usize(s@),
{
    let len = s.unicode_len();
    let mut start: usize = 0;
    if len > 0 && s.get_char(0) == '+' {
        start = 1;
    }
    let ghost digits = if s@.len() > 0 && s@[0] == '+' { s@.drop_first() } else { s@ };
    proof {
        assert(digits =~= s@.subrange(start as int, len as int));
    }
    if start == len {
        return None;
    }
    let mut value: usize = 0;
    let mut i: usize = start;
    let mut overflow = false;
    while i < len
        invariant
            len == s@.len(),
            start <= i <= len,
            start < len,
            digits =~= s@.subrange(start as int, len as int),
            digits == (if s@.len() > 0 && s@[0] == '+' { s@.drop_first() } else { s@ }),
            forall|k: int| start <= k < i ==> is_ascii_digit(s@[k]),
            !overflow ==> value == decimal_value(s@.subrange(start as int, i as int)),
            overflow ==> decimal_value(s@.subrange(start as int, i as int)) > usize::MAX,
        decreases len - i,
    {
        let c = s.get_char(i);
        if !('0' <= c && c <= '9') {
            proof {
                assert(digits[i - start] == s@[i as int]);
                assert(!is_ascii_digit(digits[i - start]));
            }
            return None;
        }
        let d = (c as u32 - '0' as u32) as usize;
        proof {
            assert(s@.subrange(start as int, i + 1).drop_last() =~= s@.subrange(start as int, i as int));
            assert(s@.subrange(start as int, i + 1).last() == c);
        }
        if !overflow {
            match value.checked_mul(10) {
                Some(v10) => match v10.checked_add(d) {
                    Some(v) => {
                        value = v;
                    },
                    None => {
                        overflow = true;
                    },
                },
                None => {
                    overflow = true;
                    proof {
                        assert(decimal_value(s@.subrange(start as int, i + 1)) >= value * 10)
                            by (nonlinear_arith)
                            requires
                                decimal_value(s@.subrange(start as int, i + 1)) == value * 10 + d,
                                d >= 0,
                        ;
                    }
                },
            }
        } else {
            proof {
                let a = decimal_value(s@.subrange(start as int, i as int));
                assert(a * 10 + d >= a) by (nonlinear_arith)
                    requires a >= 0, d >= 0;
            }
        }
        i = i + 1;
    }
    proof {
        assert(s@.subrange(start as int, len as int) =~= digits);
    }
    if overflow {
        None
    } else {
        Some(value)
    }
}


/// The decimal digit character for `d` (0 to 9).
pub open spec fn digit_char(d: nat) -> char {
    ((48 + d) as u8) as char
}

/// The decimal form of `n`, most significant digit first ("0" for zero).
pub open spec fn decimal_chars(n: nat) -> Seq<char>
    decreases n,
{
    if n < 10 {
        seq![digit_char(n)]
    } else {
        decimal_chars(n / 10).push(digit_char(n % 10))
    }
}

/// Reading back the decimal form of a number gives the number: the decimal form
/// is made of ASCII digits, is not empty, and its value is `n`.
pub proof fn law_decimal_round_trip(n: nat)
    ensures
        decimal_chars(n).len() > 0,
        all_ascii_digits(decimal_chars(n)),
        decimal_value(decimal_chars(n)) == n,
        n <= usize::MAX ==> spec_parse_usize(decimal_chars(n)) == Some(n as usize),
    decreases n,
{
    if n < 10 {
        let d = decimal_chars(n);
        assert(d.drop_last() =~= Seq::<char>::empty());
        assert(d.last() == digit_char(n));
        assert((digit_char(n) as nat - '0' as nat) as nat == n);
        assert(decimal_value(d) == decimal_value(d.drop_last()) * 10 + (d.last() as nat - '0' as nat) as nat);
        assert(decimal_value(d.drop_last()) == 0);
        assert(decimal_value(d) == n);
    } else {
        law_decimal_round_trip(n / 10);
        let d = decimal_chars(n);
        let prev = decimal_chars(n / 10);
        assert(d.drop_last() =~= prev);
        assert(d.last() == digit_char(n % 10));
        assert((digit_char(n % 10) as nat - '0' as nat) as nat == n % 10);
        assert forall|i: int| 0 <= i < d.len() implies is_ascii_digit(#[trigger] d[i]) by {
            if i < prev.len() {
                assert(d[i] == prev[i]);
            }
        }
        assert((n / 10) * 10 + n % 10 == n);
        assert(decimal_value(d) == decimal_value(d.drop_last()) * 10 + (d.last() as nat - '0' as nat) as nat);
        assert(decimal_value(d) == (n / 10) * 10 + n % 10);
    }
    let d = decimal_chars(n);
    if n <= usize::MAX {
        if d.len() > 0 && d[0] == '+' {
            assert(is_ascii_digit(d[0]));
        }
    }
}

/// Appends the decimal form of `n` to `s`.
pub fn push_decimal(s: &mut String, n: u64)
    ensures
        final(s)@ == old(s)@ + decimal_chars(n as nat),
    decreases n,
{
    if n >= 10 {
        push_decimal(s, n / 10);
    }
    let d = (n % 10) as u8;
    push_char(s, (48u8 + d) as char);
    proof {
        assert(decimal_chars(n as nat) =~= if n < 10 {
            seq![digit_char(n as nat)]
        } else {
            decimal_chars((n / 10) as nat).push(digit_char((n % 10) as nat))
        });
    }
}

/// A string followed by the decimal form of a number.
pub fn with_decimal(prefix: &str, n: u64) -> (r: String)
    ensures
        r@ == prefix@ + decimal_chars(n as nat),
{
    let mut s = to_owned_string(prefix);
    push_decimal(&mut s, n);
    s
}

/// The concatenation of two strings.
pub fn concat_str(a: &str, b: &str) -> (r: String)
    ensures
        r@ == a@ + b@,
{
    let mut s = to_owned_string(a);
    s.append(b);
    s
}

} // verus!
