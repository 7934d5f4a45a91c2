//! EAN-13 barcode generation for products without one: a deterministic
//! prefix built from the product id, two clock-derived digits, and the
//! EAN-13 check digit.

use vstd::prelude::*;
use crate::timeclock::subsec_nanos_now;

verus! {

/// The numeric value of an ASCII digit character; any other character
/// counts as zero.
pub open spec fn spec_digit_val(c: char) -> int {
    if '0' <= c && c <= '9' {
        c as int - 48
    } else {
        0
    }
}

/// The EAN-13 weighted sum of the first `k` characters: odd positions
/// (counted from zero) weigh three, even positions one.
pub open spec fn spec_weighted_sum(s: Seq<char>, k: int) -> int
    decreases k,
{
    if k <= 0 {
        0
    } else {
        spec_weighted_sum(s, k - 1) + spec_digit_val(s[k - 1]) * (if (k - 1) % 2 == 0 {
            1int
        } else {
            3int
        })
    }
}

/// The EAN-13 check digit of a digit string.
pub open spec fn spec_check_digit(s: Seq<char>) -> int {
    (10 - spec_weighted_sum(s, s.len() as int) % 10) % 10
}

proof fn lemma_weighted_sum_nonneg(s: Seq<char>, k: int)
    ensures
        spec_weighted_sum(s, k) >= 0,
    decreases k,
{
    if k > 0 {
        lemma_weighted_sum_nonneg(s, k - 1);
    }
}

/// Computes the EAN-13 check digit of the leading digits: the weighted
/// sum with weights one and three, taken modulo ten and subtracted from
/// ten.
pub fn ean13_check_digit(digits: &str) -> (r: u32)
    ensures
        r == spec_check_digit(digits@),
        r < 10,
{
    let len = digits.unicode_len();
    let mut sum: u32 = 0;
    let mut i: usize = 0;
    while i < len
        invariant
            i <= len,
            len == digits@.len(),
            sum < 10,
            sum == spec_weighted_sum(digits@, i as int) % 10,
        decreases len - i,
    {
        let c = digits.get_char(i);
        let d: u32 = if '0' <= c && c <= '9' {
            (c as u32) - 48
        } else {
            0
        };
        assert(d == spec_digit_val(digits@[i as int]));
        let w: u32 = if i % 2 == 0 {
            d
        } else {
            d * 3
        };
        proof {
            lemma_weighted_sum_nonneg(digits@, i as int);
            assert((spec_weighted_sum(digits@, i as int) % 10 + spec_digit_val(
                digits@[i as int],
            ) * (if (i as int) % 2 == 0 {
                1int
            } else {
                3int
            })) % 10 == spec_weighted_sum(digits@, i + 1) % 10) by (nonlinear_arith)
                requires
                    spec_weighted_sum(digits@, i + 1) == spec_weighted_sum(digits@, i as int)
                        + spec_digit_val(digits@[i as int]) * (if (i as int) % 2 == 0 {
                        1int
                    } else {
                        3int
                    }),
                    spec_weighted_sum(digits@, i as int) >= 0,
            ;
        }
        sum = (sum + w) % 10;
        i += 1;
    }
    (10 - sum) % 10
}

/// The decimal rendering of `n` zero-padded to exactly `w` digits; the
/// value is taken modulo `10^w`.
pub open spec fn spec_zpad(n: nat, w: nat) -> Seq<char>
    decreases w,
{
    if w == 0 {
        Seq::empty()
    } else {
        spec_zpad(n / 10, (w - 1) as nat).push(crate::format::spec_digit_char((n % 10) as int))
    }
}

/// Appends `v` as exactly `w` zero-padded decimal digits.
fn push_zpad(v: u64, w: u32, out: &mut String)
    ensures
        final(out)@ == old(out)@ + spec_zpad(v as nat, w as nat),
    decreases w,
{
    if w == 0 {
    } else {
        push_zpad(v / 10, w - 1, out);
        let d: u64 = v % 10;
        proof {
            reveal_strlit("0123456789");
        }
        let lit = "0123456789";
        out.append(lit.substring_ascii(d as usize, d as usize + 1));
        assert(final(out)@ =~= old(out)@ + spec_zpad(v as nat, w as nat));
    }
}

/// The generated barcode: the `200` store prefix, seven digits of the
/// product id, two extra digits, and the EAN-13 check digit — thirteen
/// digits in all.
pub open spec fn spec_generated_barcode(product_id: int, extra: int) -> Seq<char> {
    let base = "200"@ + spec_zpad((product_id % 10_000_000) as nat, 7) + spec_zpad(
        extra as nat,
        2,
    );
    base.push(crate::format::spec_digit_char(spec_check_digit(base)))
}

proof fn lemma_zpad_len(n: nat, w: nat)
    ensures
        spec_zpad(n, w).len() == w,
    decreases w,
{
    if w > 0 {
        lemma_zpad_len(n / 10, (w - 1) as nat);
    }
}

/// Builds a candidate barcode for a product from its id and two extra
/// digits: thirteen characters ending in the check digit, so the label
/// builder will always emit it as EAN-13.
pub fn generated_barcode(product_id: i64, extra: u32) -> (r: String)
    requires
        product_id >= 0,
        extra < 100,
    ensures
        r@ == spec_generated_barcode(product_id as int, extra as int),
        r@.len() == 13,
{
    let mut base = String::from_str("200");
    push_zpad((product_id % 10_000_000) as u64, 7, &mut base);
    push_zpad(extra as u64, 2, &mut base);
    let check = ean13_check_digit(base.as_str());
    proof {
        reveal_strlit("0123456789");
        reveal_strlit("200");
        lemma_zpad_len(((product_id % 10_000_000) as u64) as nat, 7);
        lemma_zpad_len((extra as u64) as nat, 2);
    }
    let lit = "0123456789";
    let mut r = base;
    r.append(lit.substring_ascii(check as usize, check as usize + 1));
    assert(r@ =~= spec_generated_barcode(product_id as int, extra as int));
    r
}

/// A generated barcode is thirteen characters, so the label builder
/// always emits it under the EAN-13 opcode.
pub proof fn lemma_generated_barcode_is_ean13(product_id: int, extra: int)
    requires
        0 <= product_id,
        0 <= extra,
    ensures
        crate::escpos::spec_barcode_section(spec_generated_barcode(product_id, extra)).subrange(
            0,
            3,
        ) == crate::escpos::esc_ean13(),
{
    reveal_strlit("200");
    let b = spec_generated_barcode(product_id, extra);
    lemma_zpad_len((product_id % 10_000_000) as nat, 7);
    lemma_zpad_len(extra as nat, 2);
    assert(b.len() == 13);
    crate::escpos::lemma_barcode_symbology(b);
}

/// Two digits drawn from the clock's nanosecond reading, for barcode
/// uniqueness probing.
pub fn rand_digits() -> (r: u32)
    ensures
        r < 100,
{
    subsec_nanos_now() % 100
}

} // verus!
