//! Text formatting for printable documents: decimal rendering with
//! thousands separators, fixed-width right alignment, and truncation to a
//! maximum character width.

use vstd::prelude::*;

verus! {

/// The ASCII digit character for `d` (`0 <= d <= 9`).
pub open spec fn spec_digit_char(d: int) -> char {
    ((0x30 + d) as u8) as char
}

/// The decimal digit characters of `n`, most significant first.
pub open spec fn spec_digits(n: nat) -> Seq<char>
    decreases n,
{
    if n < 10 {
        seq![spec_digit_char(n as int)]
    } else {
        spec_digits(n / 10).push(spec_digit_char((n % 10) as int))
    }
}

/// The first `k` characters of the digit string `ds`, with `'.'` inserted
/// before every position from which a multiple of three digits remains.
pub open spec fn spec_grouped_prefix(ds: Seq<char>, k: int) -> Seq<char>
    decreases k,
{
    if k <= 0 {
        seq![]
    } else {
        spec_grouped_prefix(ds, k - 1) + (if k - 1 > 0 && (ds.len() - (k - 1)) % 3 == 0 {
            seq!['.', ds[k - 1]]
        } else {
            seq![ds[k - 1]]
        })
    }
}

/// The digit string `ds` with `'.'` as a thousands separator.
pub open spec fn spec_grouped(ds: Seq<char>) -> Seq<char> {
    spec_grouped_prefix(ds, ds.len() as int)
}

/// The rendering of the integer `v`: absolute value grouped in threes with
/// `'.'`, and a leading `'-'` when `v` is negative.
pub open spec fn spec_format_number(v: int) -> Seq<char> {
    if v < 0 {
        seq!['-'] + spec_grouped(spec_digits((-v) as nat))
    } else {
        spec_grouped(spec_digits(v as nat))
    }
}

/// The one-character string holding the digit `d`.
fn digit_str(d: u64) -> (r: &'static str)
    requires
        d < 10,
    ensures
        r@ =~= seq![spec_digit_char(d as int)],
{
    let lit = "0123456789";
    proof {
        reveal_strlit("0123456789");
    }
    lit.substring_ascii(d as usize, d as usize + 1)
}

/// Appends the decimal digits of `v` to `out`.
fn push_digits(v: u64, out: &mut String)
    ensures
        final(out)@ == old(out)@ + spec_digits(v as nat),
    decreases v,
{
    if v < 10 {
        out.append(digit_str(v));
    } else {
        push_digits(v / 10, out);
        out.append(digit_str(v % 10));
    }
}

/// The amount `n` rendered with `'.'` as a thousands separator, negative
/// values prefixed with `'-'` and never grouped into an empty leading
/// segment.
pub fn format_number(n: i64) -> (r: String)
    ensures
        r@ == spec_format_number(n as int),
{
    let m: u64 = if n < 0 {
        ((-(n + 1)) as u64) + 1
    } else {
        n as u64
    };
    let mut ds = String::new();
    push_digits(m, &mut ds);
    let len = ds.unicode_len();
    let mut r = String::new();
    if n < 0 {
        r.append("-");
        proof {
            reveal_strlit("-");
        }
    }
    let ghost head = r@;
    assert(r@ == head + spec_grouped_prefix(ds@, 0));
    let mut i: usize = 0;
    while i < len
        invariant
            i <= len,
            len == ds@.len(),
            r@ == head + spec_grouped_prefix(ds@, i as int),
        decreases len - i,
    {
        if i > 0 && (len - i) % 3 == 0 {
            r.append(".");
            proof {
                reveal_strlit(".");
            }
        }
        r.append(ds.as_str().substring_char(i, i + 1));
        assert(ds@.subrange(i as int, i + 1) =~= seq![ds@[i as int]]);
        i += 1;
    }
    r
}

/// Digit strings are never empty.
pub proof fn lemma_digits_nonempty(n: nat)
    ensures
        spec_digits(n).len() >= 1,
    decreases n,
{
    if n >= 10 {
        lemma_digits_nonempty(n / 10);
    }
}

/// Digit strings hold digit characters only.
pub proof fn lemma_digits_digit_chars(n: nat)
    ensures
        forall|i: int|
            0 <= i < spec_digits(n).len() ==> '0' <= #[trigger] spec_digits(n)[i] <= '9',
    decreases n,
{
    if n < 10 {
    } else {
        lemma_digits_digit_chars(n / 10);
        assert forall|i: int|
            0 <= i < spec_digits(n).len() implies '0' <= #[trigger] spec_digits(n)[i]
            <= '9' by {
            if i < spec_digits(n).len() - 1 {
                assert(spec_digits(n)[i] == spec_digits(n / 10)[i]);
            }
        }
    }
}

/// Decimal rendering is injective: equal digit strings come from equal
/// numbers.
pub proof fn lemma_digits_injective(a: nat, b: nat)
    requires
        spec_digits(a) == spec_digits(b),
    ensures
        a == b,
    decreases a,
{
    lemma_digits_nonempty(a / 10);
    lemma_digits_nonempty(b / 10);
    if a < 10 && b < 10 {
        assert(spec_digits(a) == seq![spec_digit_char(a as int)]);
        assert(spec_digits(b) == seq![spec_digit_char(b as int)]);
        assert(seq![spec_digit_char(a as int)][0] == spec_digit_char(a as int));
        assert(seq![spec_digit_char(b as int)][0] == spec_digit_char(b as int));
        assert(spec_digits(a)[0] == spec_digits(b)[0]);
        assert(spec_digit_char(a as int) == spec_digit_char(b as int));
        assert(((0x30 + a) as u8) as char == ((0x30 + b) as u8) as char);
        assert((0x30 + a) as u8 == (0x30 + b) as u8);
    } else if a < 10 {
        assert(spec_digits(a).len() == 1);
        assert(spec_digits(b).len() == spec_digits(b / 10).len() + 1);
    } else if b < 10 {
        assert(spec_digits(b).len() == 1);
        assert(spec_digits(a).len() == spec_digits(a / 10).len() + 1);
    } else {
        assert(spec_digits(a) == spec_digits(a / 10).push(spec_digit_char((a % 10) as int)));
        assert(spec_digits(b) == spec_digits(b / 10).push(spec_digit_char((b % 10) as int)));
        assert(spec_digits(a).last() == spec_digit_char((a % 10) as int));
        assert(spec_digits(b).last() == spec_digit_char((b % 10) as int));
        assert(spec_digit_char((a % 10) as int) == spec_digit_char((b % 10) as int));
        assert(((0x30 + a % 10) as u8) as char == ((0x30 + b % 10) as u8) as char);
        assert((0x30 + a % 10) as u8 == (0x30 + b % 10) as u8);
        assert(a % 10 == b % 10);
        assert(spec_digits(a).drop_last() =~= spec_digits(a / 10));
        assert(spec_digits(b).drop_last() =~= spec_digits(b / 10));
        assert(spec_digits(a / 10) == spec_digits(b / 10));
        lemma_digits_injective(a / 10, b / 10);
        assert(a == 10 * (a / 10) + a % 10);
        assert(b == 10 * (b / 10) + b % 10);
    }
}

/// `v` rendered in plain decimal.
pub fn u64_to_string(v: u64) -> (r: String)
    ensures
        r@ == spec_digits(v as nat),
{
    let mut r = String::new();
    push_digits(v, &mut r);
    r
}

/// The plain decimal rendering of `v`: digits only, with a leading `'-'`
/// when `v` is negative.
pub open spec fn spec_plain_int(v: int) -> Seq<char> {
    if v < 0 {
        seq!['-'] + spec_digits((-v) as nat)
    } else {
        spec_digits(v as nat)
    }
}

/// `v` rendered in plain decimal, without grouping.
pub fn int_to_string(v: i64) -> (r: String)
    ensures
        r@ == spec_plain_int(v as int),
{
    let m: u64 = if v < 0 {
        ((-(v + 1)) as u64) + 1
    } else {
        v as u64
    };
    let mut r = String::new();
    if v < 0 {
        r.append("-");
        proof {
            reveal_strlit("-");
        }
    }
    push_digits(m, &mut r);
    r
}

/// `s` padded on the left with spaces to at least `width` characters, as a
/// right-aligned fixed-width column renders it.
pub open spec fn spec_pad_left(s: Seq<char>, width: int) -> Seq<char> {
    if s.len() >= width {
        s
    } else {
        Seq::new((width - s.len()) as nat, |i: int| ' ') + s
    }
}

/// `s` right-aligned in a column of `width` characters.
pub fn pad_left(s: &str, width: usize) -> (r: String)
    ensures
        r@ == spec_pad_left(s@, width as int),
{
    let len = s.unicode_len();
    let mut r = String::new();
    proof {
        reveal_strlit(" ");
    }
    if len < width {
        let mut k: usize = 0;
        while k < width - len
            invariant
                k <= width - len,
                len == s@.len(),
                len < width,
                r@ =~= Seq::new(k as nat, |i: int| ' '),
            decreases width - len - k,
        {
            proof {
                reveal_strlit(" ");
            }
            r.append(" ");
            assert(r@ =~= Seq::new((k + 1) as nat, |i: int| ' '));
            k += 1;
        }
    }
    r.append(s);
    assert(len < width ==> r@ =~= Seq::new((width - len) as nat, |i: int| ' ') + s@);
    assert(len >= width ==> r@ =~= s@);
    r
}

/// The first `k` characters of `s`, or all of `s` when it is shorter.
pub open spec fn spec_take_chars(s: Seq<char>, k: int) -> Seq<char> {
    if s.len() <= k {
        s
    } else {
        s.subrange(0, k)
    }
}

/// At most the first `k` characters of `s`.
pub fn take_chars(s: &str, k: usize) -> (r: &str)
    ensures
        r@ == spec_take_chars(s@, k as int),
{
    let len = s.unicode_len();
    if len <= k {
        assert(s@.subrange(0, len as int) =~= s@);
        s.substring_char(0, len)
    } else {
        s.substring_char(0, k)
    }
}

} // verus!
