//! Decimal parsing for configuration values: an optional leading plus
//! sign, then digits, rejected on any other character or on overflow —
//! the acceptance that `str::parse` has for unsigned integers.

use vstd::prelude::*;

verus! {

/// The text to take digits from: `s` with one leading `'+'` removed.
pub open spec fn spec_num_body(s: Seq<char>) -> Seq<char> {
    if s.len() > 0 && s[0] == '+' {
        s.drop_first()
    } else {
        s
    }
}

/// Whether `s` is one or more ASCII digits.
pub open spec fn spec_all_digits(s: Seq<char>) -> bool {
    s.len() > 0 && forall|i: int| 0 <= i < s.len() ==> '0' <= #[trigger] s[i] <= '9'
}

/// The value of the first `k` digit characters of `s`.
pub open spec fn spec_digits_value(s: Seq<char>, k: int) -> int
    decreases k,
{
    if k <= 0 {
        0
    } else {
        spec_digits_value(s, k - 1) * 10 + (s[k - 1] as int - 48)
    }
}

/// What parsing `s` as an unsigned number yields: its digits' value when
/// `s` is an optional plus sign before digits and the value is at most
/// `max`, nothing otherwise.
pub open spec fn spec_parse_uint(s: Seq<char>, max: int) -> Option<int> {
    let b = spec_num_body(s);
    if spec_all_digits(b) && spec_digits_value(b, b.len() as int) <= max {
        Option::Some(spec_digits_value(b, b.len() as int))
    } else {
        Option::None
    }
}

/// What parsing `s` as a `u32` yields.
pub open spec fn spec_parse_u32(s: Seq<char>) -> Option<u32> {
    match spec_parse_uint(s, u32::MAX as int) {
        Option::Some(v) => Option::Some(v as u32),
        Option::None => Option::None,
    }
}

/// What parsing `s` as a `u64` yields.
pub open spec fn spec_parse_u64(s: Seq<char>) -> Option<u64> {
    match spec_parse_uint(s, u64::MAX as int) {
        Option::Some(v) => Option::Some(v as u64),
        Option::None => Option::None,
    }
}

proof fn lemma_digits_value_nonneg(s: Seq<char>, k: int)
    requires
        forall|i: int| 0 <= i < s.len() ==> '0' <= #[trigger] s[i] <= '9',
        k <= s.len(),
    ensures
        spec_digits_value(s, k) >= 0,
    decreases k,
{
    if k > 0 {
        lemma_digits_value_nonneg(s, k - 1);
    }
}

proof fn lemma_digits_value_grows(s: Seq<char>, a: int, b: int)
    requires
        forall|i: int| 0 <= i < s.len() ==> '0' <= #[trigger] s[i] <= '9',
        0 <= a <= b <= s.len(),
    ensures
        spec_digits_value(s, a) <= spec_digits_value(s, b),
    decreases b - a,
{
    if a < b {
        lemma_digits_value_grows(s, a, b - 1);
        lemma_digits_value_nonneg(s, b - 1);
        assert(spec_digits_value(s, b) == spec_digits_value(s, b - 1) * 10 + (s[b - 1] as int
            - 48));
        assert(spec_digits_value(s, b - 1) * 10 >= spec_digits_value(s, b - 1)) by (
        nonlinear_arith)
            requires
                spec_digits_value(s, b - 1) >= 0,
        ;
    }
}

/// Parses `s` as a `u64`: an optional plus sign, then digits, with
/// nothing yielded on any other character or on overflow.
pub fn parse_u64(s: &str) -> (r: Option<u64>)
    ensures
        r == spec_parse_u64(s@),
{
    let len = s.unicode_len();
    let start: usize = if len > 0 && s.get_char(0) == '+' {
        1
    } else {
        0
    };
    let ghost b = spec_num_body(s@);
    proof {
        assert(b =~= s@.subrange(start as int, len as int));
    }
    if start >= len {
        return None;
    }
    let mut acc: u128 = 0;
    let mut i: usize = start;
    while i < len
        invariant
            start <= i <= len,
            len == s@.len(),
            b == spec_num_body(s@),
            b == s@.subrange(start as int, len as int),
            forall|j: int| 0 <= j < i - start ==> '0' <= #[trigger] b[j] <= '9',
            acc == spec_digits_value(b, i - start),
            acc <= u64::MAX,
        decreases len - i,
    {
        let c = s.get_char(i);
        if !('0' <= c && c <= '9') {
            assert(b[i - start] == c);
            assert(!spec_all_digits(b));
            return None;
        }
        let d: u128 = (c as u32 - 48) as u128;
        assert(b[i - start] == c);
        acc = acc * 10 + d;
        assert(acc == spec_digits_value(b, i + 1 - start));
        if acc > u64::MAX as u128 {
            proof {
                if spec_all_digits(b) {
                    lemma_digits_value_grows(b, i + 1 - start, b.len() as int);
                    assert(spec_digits_value(b, b.len() as int) > u64::MAX);
                }
            }
            return None;
        }
        i += 1;
    }
    assert(spec_all_digits(b));
    Some(acc as u64)
}

/// Parses `s` as a `u32`: an optional plus sign, then digits, with
/// nothing yielded on any other character or on overflow.
pub fn parse_u32(s: &str) -> (r: Option<u32>)
    ensures
        r == spec_parse_u32(s@),
{
    let len = s.unicode_len();
    let start: usize = if len > 0 && s.get_char(0) == '+' {
        1
    } else {
        0
    };
    let ghost b = spec_num_body(s@);
    proof {
        assert(b =~= s@.subrange(start as int, len as int));
    }
    if start >= len {
        return None;
    }
    let mut acc: u64 = 0;
    let mut i: usize = start;
    while i < len
        invariant
            start <= i <= len,
            len == s@.len(),
            b == spec_num_body(s@),
            b == s@.subrange(start as int, len as int),
            forall|j: int| 0 <= j < i - start ==> '0' <= #[trigger] b[j] <= '9',
            acc == spec_digits_value(b, i - start),
            acc <= u32::MAX,
        decreases len - i,
    {
        let c = s.get_char(i);
        if !('0' <= c && c <= '9') {
            assert(b[i - start] == c);
            assert(!spec_all_digits(b));
            return None;
        }
        let d: u64 = (c as u32 - 48) as u64;
        assert(b[i - start] == c);
        acc = acc * 10 + d;
        assert(acc == spec_digits_value(b, i + 1 - start));
        if acc > u32::MAX as u64 {
            proof {
                if spec_all_digits(b) {
                    lemma_digits_value_grows(b, i + 1 - start, b.len() as int);
                    assert(spec_digits_value(b, b.len() as int) > u32::MAX);
                }
            }
            return None;
        }
        i += 1;
    }
    assert(spec_all_digits(b));
    Some(acc as u32)
}

} // verus!
