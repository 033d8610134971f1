//! Byte-level text predicates on UTF-8 strings. ASCII patterns match the same
//! way on bytes as on characters, since no multi-byte sequence holds an ASCII byte.
use vstd::prelude::*;
use vstd::string::StringSliceAdditionalSpecFns;

verus! {

broadcast use vstd::string::group_string_axioms;

/// The characters of a string, in order.
pub fn chars_of(s: &str) -> (v: Vec<char>)
    ensures
        v@ == s@,
{
    let mut v: Vec<char> = Vec::new();
    for c in iter: s.chars()
        invariant
            iter.seq() == s@,
            v@ == iter.seq().take(iter.index() as int),
    {
        v.push(c);
    }
    v
}

/// An ASCII decimal digit.
pub open spec fn is_digit_char(c: char) -> bool {
    '0' <= c && c <= '9'
}

/// How many ASCII decimal digits a text holds.
pub open spec fn digit_count(s: Seq<char>) -> nat
    decreases s.len(),
{
    if s.len() == 0 {
        0
    } else {
        digit_count(s.drop_last()) + if is_digit_char(s.last()) { 1nat } else { 0nat }
    }
}

/// The number of ASCII decimal digits in `text`.
pub fn count_digits(text: &str) -> (r: usize)
    ensures
        r == digit_count(text@),
{
    let v = chars_of(text);
    let mut n: usize = 0;
    let mut i: usize = 0;
    while i < v.len()
        invariant
            v@ == text@,
            i <= v@.len(),
            n == digit_count(v@.take(i as int)),
            n <= i,
        decreases v@.len() - i,
    {
        assert(v@.take(i + 1).drop_last() =~= v@.take(i as int));
        if '0' <= v[i] && v[i] <= '9' {
            n += 1;
        }
        i += 1;
    }
    assert(v@.take(v@.len() as int) =~= v@);
    n
}


/// ASCII lower-casing of one byte; other bytes are unchanged.
pub open spec fn lower_byte(b: u8) -> u8 {
    if 65 <= b <= 90 {
        (b + 32) as u8
    } else {
        b
    }
}

/// Equality up to ASCII case.
pub open spec fn eq_ignore_case(a: Seq<u8>, b: Seq<u8>) -> bool {
    &&& a.len() == b.len()
    &&& forall|i: int| 0 <= i < a.len() ==> lower_byte(#[trigger] a[i]) == lower_byte(b[i])
}

/// `needle` occurs in `hay` starting at byte `i`.
pub open spec fn occurs_at(hay: Seq<u8>, needle: Seq<u8>, i: int) -> bool {
    &&& 0 <= i
    &&& i + needle.len() <= hay.len()
    &&& hay.subrange(i, i + needle.len()) == needle
}

pub open spec fn contains_bytes(hay: Seq<u8>, needle: Seq<u8>) -> bool {
    exists|i: int| occurs_at(hay, needle, i)
}

/// `hay` ends with `suffix`, compared up to ASCII case.
pub open spec fn ends_with_ignore_case(hay: Seq<u8>, suffix: Seq<u8>) -> bool {
    &&& suffix.len() <= hay.len()
    &&& eq_ignore_case(hay.subrange(hay.len() - suffix.len(), hay.len() as int), suffix)
}

pub fn lower(b: u8) -> (r: u8)
    ensures
        r == lower_byte(b),
{
    if 65 <= b && b <= 90 {
        b + 32
    } else {
        b
    }
}

/// Do `a[start..start + b.len()]` and `b` agree up to ASCII case?
fn window_eq_ignore_case(a: &[u8], start: usize, b: &[u8]) -> (r: bool)
    requires
        start + b.len() <= a.len(),
    ensures
        r == eq_ignore_case(a@.subrange(start as int, start + b@.len()), b@),
{
    let ghost w = a@.subrange(start as int, start + b@.len());
    let mut i: usize = 0;
    while i < b.len()
        invariant
            i <= b@.len(),
            start + b.len() <= a.len(),
            w == a@.subrange(start as int, start + b@.len()),
            forall|j: int| 0 <= j < i ==> lower_byte(#[trigger] w[j]) == lower_byte(b@[j]),
        decreases b@.len() - i,
    {
        if lower(a[start + i]) != lower(b[i]) {
            assert(lower_byte(w[i as int]) != lower_byte(b@[i as int]));
            return false;
        }
        i += 1;
    }
    true
}

pub fn eq_ignore_ascii_case(a: &[u8], b: &[u8]) -> (r: bool)
    ensures
        r == eq_ignore_case(a@, b@),
{
    if a.len() != b.len() {
        return false;
    }
    let r = window_eq_ignore_case(a, 0, b);
    assert(a@.subrange(0, a@.len() as int) == a@);
    r
}

pub fn ends_with_ascii_ignore_case(hay: &[u8], suffix: &[u8]) -> (r: bool)
    ensures
        r == ends_with_ignore_case(hay@, suffix@),
{
    if suffix.len() > hay.len() {
        return false;
    }
    window_eq_ignore_case(hay, hay.len() - suffix.len(), suffix)
}

/// Exact byte equality of `hay[start..start + needle.len()]` with `needle`.
fn window_eq(hay: &[u8], start: usize, needle: &[u8]) -> (r: bool)
    requires
        start + needle.len() <= hay.len(),
    ensures
        r == occurs_at(hay@, needle@, start as int),
{
    let ghost w = hay@.subrange(start as int, start + needle@.len());
    let mut i: usize = 0;
    while i < needle.len()
        invariant
            i <= needle@.len(),
            start + needle.len() <= hay.len(),
            w == hay@.subrange(start as int, start + needle@.len()),
            forall|j: int| 0 <= j < i ==> #[trigger] w[j] == needle@[j],
        decreases needle@.len() - i,
    {
        if hay[start + i] != needle[i] {
            assert(w[i as int] != needle@[i as int]);
            return false;
        }
        i += 1;
    }
    assert(w =~= needle@);
    true
}

pub fn contains(hay: &[u8], needle: &[u8]) -> (r: bool)
    ensures
        r == contains_bytes(hay@, needle@),
{
    if needle.len() > hay.len() {
        return false;
    }
    let last = hay.len() - needle.len();
    let mut i: usize = 0;
    loop
        invariant
            last + needle.len() == hay.len(),
            i <= last,
            forall|j: int| 0 <= j < i ==> !occurs_at(hay@, needle@, j),
        decreases last - i,
    {
        if window_eq(hay, i, needle) {
            return true;
        }
        if i == last {
            assert forall|j: int| !occurs_at(hay@, needle@, j) by {
                if 0 <= j && j + needle@.len() <= hay@.len() {
                    assert(j <= i);
                }
            }
            return false;
        }
        i += 1;
    }
}

pub open spec fn is_digit(b: u8) -> bool {
    48 <= b <= 57
}

/// The value of a string of decimal digits.
pub open spec fn digits_value(s: Seq<u8>) -> int
    decreases s.len(),
{
    if s.len() == 0 {
        0
    } else {
        digits_value(s.drop_last()) * 10 + (s.last() - 48)
    }
}

proof fn lemma_digits_value_nonneg(s: Seq<u8>)
    requires
        forall|i: int| 0 <= i < s.len() ==> is_digit(#[trigger] s[i]),
    ensures
        digits_value(s) >= 0,
    decreases s.len(),
{
    if s.len() > 0 {
        lemma_digits_value_nonneg(s.drop_last());
    }
}

/// One more digit never makes the value smaller.
pub proof fn lemma_digits_value_grows(s: Seq<u8>, d: u8)
    requires
        forall|i: int| 0 <= i < s.len() ==> is_digit(#[trigger] s[i]),
        is_digit(d),
    ensures
        digits_value(s.push(d)) == digits_value(s) * 10 + (d - 48),
        digits_value(s.push(d)) >= digits_value(s),
{
    assert(s.push(d).drop_last() =~= s);
    lemma_digits_value_nonneg(s);
}

/// A longer string of digits is worth at least as much as its prefix.
pub proof fn lemma_prefix_value_le(t: Seq<u8>, k: int)
    requires
        forall|i: int| 0 <= i < t.len() ==> is_digit(#[trigger] t[i]),
        0 <= k <= t.len(),
    ensures
        digits_value(t.subrange(0, k)) <= digits_value(t),
    decreases t.len(),
{
    if k == t.len() {
        assert(t.subrange(0, k) =~= t);
    } else {
        let u = t.drop_last();
        assert forall|i: int| 0 <= i < u.len() implies is_digit(#[trigger] u[i]) by {
            assert(u[i] == t[i]);
        }
        lemma_prefix_value_le(u, k);
        assert(u.subrange(0, k) =~= t.subrange(0, k));
        lemma_digits_value_grows(u, t.last());
        assert(u.push(t.last()) =~= t);
    }
}

/// The text after an optional leading `+`.
pub open spec fn unsigned_digits(s: Seq<u8>) -> Seq<u8> {
    if s.len() > 0 && s[0] == 43u8 { s.drop_first() } else { s }
}

pub open spec fn all_digits(s: Seq<u8>) -> bool {
    forall|i: int| 0 <= i < s.len() ==> is_digit(#[trigger] s[i])
}

/// A decimal number as Rust reads unsigned integers: an optional `+`, then at
/// least one digit and nothing else, within `max`.
#[verifier::opaque]
pub open spec fn decimal_unsigned(s: Seq<u8>, max: u64) -> Option<u64> {
    let digits = unsigned_digits(s);
    if digits.len() == 0 || !all_digits(digits) {
        None
    } else if digits_value(digits) > max {
        None
    } else {
        Some(digits_value(digits) as u64)
    }
}

pub fn parse_unsigned(text: &str, max: u64) -> (r: Option<u64>)
    ensures
        r == decimal_unsigned(text.spec_bytes(), max),
        r matches Some(n) ==> n <= max,
{
    parse_unsigned_bytes(text.as_bytes(), max)
}

pub fn parse_unsigned_bytes(s: &[u8], max: u64) -> (r: Option<u64>)
    ensures
        r == decimal_unsigned(s@, max),
        r matches Some(n) ==> n <= max,
{
    reveal(decimal_unsigned);
    let start: usize = if s.len() > 0 && s[0] == 43u8 { 1 } else { 0 };
    let ghost digits = unsigned_digits(s@);
    assert(digits =~= s@.subrange(start as int, s@.len() as int));
    if start >= s.len() {
        return None;
    }
    let mut value: u64 = 0;
    let mut i: usize = start;
    while i < s.len()
        invariant
            start <= i <= s@.len(),
            digits =~= s@.subrange(start as int, s@.len() as int),
            digits == unsigned_digits(s@),
            forall|j: int| start <= j < i ==> is_digit(#[trigger] s@[j]),
            value <= max,
            value == digits_value(s@.subrange(start as int, i as int)),
        decreases s@.len() - i,
    {
        let b = s[i];
        if b < 48 || b > 57 {
            assert(digits[i - start] == s@[i as int]);
            assert(!is_digit(digits[i - start]));
            proof {
                reveal(decimal_unsigned);
            }
            return None;
        }
        let ghost prefix = s@.subrange(start as int, i as int);
        proof {
            assert forall|j: int| 0 <= j < prefix.len() implies is_digit(#[trigger] prefix[j]) by {
                assert(prefix[j] == s@[start + j]);
            }
            lemma_digits_value_grows(prefix, b);
            assert(s@.subrange(start as int, i + 1) =~= prefix.push(b));
        }
        let d = (b - 48) as u64;
        let next: Option<u64> = match value.checked_mul(10) {
            None => None,
            Some(v) => v.checked_add(d),
        };
        let exceeded = match next {
            None => true,
            Some(n) => n > max,
        };
        if exceeded {
            // The digits so far already exceed `max`; more digits only add to them.
            proof {
                let k = i + 1 - start;
                assert(digits.subrange(0, k) =~= prefix.push(b));
                if all_digits(digits) {
                    lemma_prefix_value_le(digits, k);
                }
                reveal(decimal_unsigned);
            }
            return None;
        }
        value = value * 10 + d;
        i += 1;
    }
    assert(s@.subrange(start as int, s@.len() as int) =~= digits);
    Some(value)
}

} // verus!
