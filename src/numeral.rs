//! Digit strings: decimal and hexadecimal numerals that must fit in a `u64`,
//! and plain prefix tests on strings.
use vstd::prelude::*;

verus! {

/// Whether `c` is a digit in base `radix` (10 or 16; hex digits in either case).
pub open spec fn is_digit(c: char, radix: nat) -> bool {
    ('0' <= c && c <= '9') || (radix == 16 && (('a' <= c && c <= 'f') || ('A' <= c && c <= 'F')))
}

/// The value of a single digit character.
pub open spec fn digit_value(c: char) -> nat {
    if '0' <= c && c <= '9' {
        (c as nat - '0' as nat) as nat
    } else if 'a' <= c && c <= 'f' {
        (c as nat - 'a' as nat + 10) as nat
    } else {
        (c as nat - 'A' as nat + 10) as nat
    }
}

/// The number that the digits of `s` denote in base `radix`, most significant first.
pub open spec fn value_of(s: Seq<char>, radix: nat) -> nat
    decreases s.len(),
{
    if s.len() == 0 {
        0
    } else {
        value_of(s.drop_last(), radix) * radix + digit_value(s.last())
    }
}

/// `s` read as a numeral in base `radix`: at least one digit, digits only, and a value
/// that fits in 64 bits.
pub open spec fn numeral(s: Seq<char>, radix: nat) -> Option<u64> {
    if s.len() > 0 && (forall|i: int| 0 <= i < s.len() ==> is_digit(#[trigger] s[i], radix))
        && value_of(s, radix) <= u64::MAX {
        Some(value_of(s, radix) as u64)
    } else {
        None
    }
}

/// Whether `s` begins with `prefix`.
pub open spec fn has_prefix(s: Seq<char>, prefix: Seq<char>) -> bool {
    prefix.len() <= s.len() && s.subrange(0, prefix.len() as int) == prefix
}

/// A numeral never denotes less than any of its prefixes.
proof fn lemma_value_of_prefix(s: Seq<char>, radix: nat, k: int)
    requires
        0 <= k <= s.len(),
        radix >= 1,
    ensures
        value_of(s.subrange(0, k), radix) <= value_of(s, radix),
    decreases s.len(),
{
    if k < s.len() {
        let t = s.drop_last();
        assert(t.subrange(0, k) =~= s.subrange(0, k));
        lemma_value_of_prefix(t, radix, k);
        let v = value_of(t, radix);
        assert(v <= v * radix) by (nonlinear_arith)
            requires
                radix >= 1,
        ;
    } else {
        assert(s.subrange(0, k) =~= s);
    }
}

/// Tells whether `s` begins with `prefix`.
pub fn starts_with(s: &str, prefix: &str) -> (r: bool)
    ensures
        r == has_prefix(s@, prefix@),
{
    let n = s.unicode_len();
    let m = prefix.unicode_len();
    if m > n {
        return false;
    }
    let mut i: usize = 0;
    while i < m
        invariant
            n == s@.len(),
            m == prefix@.len(),
            m <= n,
            i <= m,
            forall|k: int| 0 <= k < i ==> s@[k] == prefix@[k],
        decreases m - i,
    {
        if s.get_char(i) != prefix.get_char(i) {
            assert(s@.subrange(0, m as int)[i as int] != prefix@[i as int]);
            return false;
        }
        i = i + 1;
    }
    assert(s@.subrange(0, m as int) =~= prefix@);
    true
}

/// Reads the characters of `s` from position `from` on as a numeral in base `radix`.
pub fn parse_numeral(s: &str, from: usize, radix: u64) -> (r: Option<u64>)
    requires
        from <= s@.len(),
        radix == 10 || radix == 16,
    ensures
        r == numeral(s@.skip(from as int), radix as nat),
{
    let n = s.unicode_len();
    let ghost t = s@.skip(from as int);
    if from == n {
        return None;
    }
    let mut acc: u64 = 0;
    let mut i: usize = from;
    while i < n
        invariant
            n == s@.len(),
            from < n,
            from <= i <= n,
            radix == 10 || radix == 16,
            t == s@.skip(from as int),
            acc as nat == value_of(t.subrange(0, i - from), radix as nat),
            forall|k: int| 0 <= k < i - from ==> is_digit(#[trigger] t[k], radix as nat),
        decreases n - i,
    {
        let c = s.get_char(i);
        assert(t[i - from] == c);
        let d: u64;
        if '0' <= c && c <= '9' {
            d = (c as u32 - '0' as u32) as u64;
        } else if radix == 16 && 'a' <= c && c <= 'f' {
            d = (c as u32 - 'a' as u32 + 10) as u64;
        } else if radix == 16 && 'A' <= c && c <= 'F' {
            d = (c as u32 - 'A' as u32 + 10) as u64;
        } else {
            assert(!is_digit(t[i - from], radix as nat));
            return None;
        }
        assert(d as nat == digit_value(c));
        let ghost next = t.subrange(0, i - from + 1);
        assert(next.drop_last() =~= t.subrange(0, i - from));
        assert(value_of(next, radix as nat) == acc * radix + d);
        let limit: u64 = (u64::MAX - d) / radix;
        if acc > limit {
            assert(acc * radix + d > u64::MAX) by (nonlinear_arith)
                requires
                    acc > limit,
                    limit == (u64::MAX - d) as int / radix as int,
                    radix > 0,
                    d <= u64::MAX,
            ;
            proof {
                lemma_value_of_prefix(t, radix as nat, i - from + 1);
            }
            return None;
        }
        assert(acc * radix + d <= u64::MAX) by (nonlinear_arith)
            requires
                acc <= limit,
                limit == (u64::MAX - d) as int / radix as int,
                radix > 0,
                d <= u64::MAX,
        ;
        acc = acc * radix + d;
        i = i + 1;
    }
    assert(t.subrange(0, n - from) =~= t);
    Some(acc)
}

} // verus!
