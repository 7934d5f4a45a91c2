//! Small verified string utilities shared by the printing core and the
//! validators: prefix tests, substring search, ASCII case folding and
//! whitespace trimming over `Seq<char>` views.

use vstd::prelude::*;
use crate::chars::char_whitespace;

verus! {

/// `s` with any leading whitespace characters removed.
pub open spec fn spec_trim_start(s: Seq<char>) -> Seq<char>
    decreases s.len(),
{
    if s.len() > 0 && char_whitespace(s[0]) {
        spec_trim_start(s.drop_first())
    } else {
        s
    }
}

/// `s` with any trailing whitespace characters removed.
pub open spec fn spec_trim_end(s: Seq<char>) -> Seq<char>
    decreases s.len(),
{
    if s.len() > 0 && char_whitespace(s.last()) {
        spec_trim_end(s.drop_last())
    } else {
        s
    }
}

/// `s` with leading and trailing whitespace characters removed.
pub open spec fn spec_trim(s: Seq<char>) -> Seq<char> {
    spec_trim_end(spec_trim_start(s))
}

proof fn lemma_trim_start_at(s: Seq<char>, a: int)
    requires
        0 <= a <= s.len(),
        forall|i: int| 0 <= i < a ==> char_whitespace(s[i]),
        a == s.len() || !char_whitespace(s[a]),
    ensures
        spec_trim_start(s) == s.subrange(a, s.len() as int),
    decreases a,
{
    if a == 0 {
        assert(s.subrange(0, s.len() as int) =~= s);
    } else {
        let t = s.drop_first();
        assert(forall|i: int| 0 <= i < a - 1 ==> t[i] == s[i + 1]);
        lemma_trim_start_at(t, a - 1);
        assert(t.subrange(a - 1, t.len() as int) =~= s.subrange(a, s.len() as int));
    }
}

proof fn lemma_trim_end_at(s: Seq<char>, b: int)
    requires
        0 <= b <= s.len(),
        forall|i: int| b <= i < s.len() ==> char_whitespace(s[i]),
        b == 0 || !char_whitespace(s[b - 1]),
    ensures
        spec_trim_end(s) == s.subrange(0, b),
    decreases s.len(),
{
    if b == s.len() {
        assert(s.subrange(0, s.len() as int) =~= s);
    } else {
        assert(char_whitespace(s[s.len() - 1]));
        let t = s.drop_last();
        assert(forall|i: int| 0 <= i < t.len() ==> t[i] == s[i]);
        lemma_trim_end_at(t, b);
        assert(t.subrange(0, b) =~= s.subrange(0, b));
    }
}

/// `s` without leading and trailing whitespace, as `str::trim` computes it.
pub fn trim(s: &str) -> (r: &str)
    ensures
        r@ == spec_trim(s@),
{
    let len = s.unicode_len();
    let mut a: usize = 0;
    while a < len && s.get_char(a).is_whitespace()
        invariant
            a <= len,
            len == s@.len(),
            forall|i: int| 0 <= i < a ==> char_whitespace(s@[i]),
        decreases len - a,
    {
        a += 1;
    }
    let mut b: usize = len;
    while b > a && s.get_char(b - 1).is_whitespace()
        invariant
            a <= b <= len,
            len == s@.len(),
            forall|i: int| b <= i < len ==> char_whitespace(s@[i]),
        decreases b,
    {
        b -= 1;
    }
    let r = s.substring_char(a, b);
    proof {
        lemma_trim_start_at(s@, a as int);
        let t = s@.subrange(a as int, len as int);
        assert(forall|i: int| b - a <= i < t.len() ==> t[i] == s@[i + a]);
        lemma_trim_end_at(t, b - a);
        assert(t.subrange(0, b - a) =~= s@.subrange(a as int, b as int));
    }
    r
}

/// True when `p` is a prefix of `s`.
pub open spec fn spec_starts_with(s: Seq<char>, p: Seq<char>) -> bool {
    p.len() <= s.len() && s.subrange(0, p.len() as int) == p
}

/// True when `n` occurs in `s` at position `i`.
pub open spec fn occurs_at(s: Seq<char>, n: Seq<char>, i: int) -> bool {
    0 <= i && i + n.len() <= s.len() && s.subrange(i, i + n.len() as int) == n
}

/// True when `n` occurs somewhere in `s`.
pub open spec fn spec_contains_seq(s: Seq<char>, n: Seq<char>) -> bool {
    exists|i: int| occurs_at(s, n, i)
}

/// True when the character `c` occurs in `s`.
pub open spec fn spec_contains_char(s: Seq<char>, c: char) -> bool {
    exists|i: int| 0 <= i < s.len() && s[i] == c
}

/// Whether `p` is a prefix of `s`.
pub fn str_starts_with(s: &str, p: &str) -> (r: bool)
    ensures
        r == spec_starts_with(s@, p@),
{
    let s_len = s.unicode_len();
    let p_len = p.unicode_len();
    if p_len > s_len {
        return false;
    }
    let mut i: usize = 0;
    while i < p_len
        invariant
            i <= p_len <= s_len,
            s_len == s@.len(),
            p_len == p@.len(),
            forall|j: int| 0 <= j < i ==> s@[j] == p@[j],
        decreases p_len - i,
    {
        if s.get_char(i) != p.get_char(i) {
            assert(s@.subrange(0, p@.len() as int)[i as int] != p@[i as int]);
            return false;
        }
        i += 1;
    }
    assert(s@.subrange(0, p@.len() as int) =~= p@);
    true
}

/// Whether the character `c` occurs in `s`.
pub fn str_contains_char(s: &str, c: char) -> (r: bool)
    ensures
        r == spec_contains_char(s@, c),
{
    let len = s.unicode_len();
    let mut i: usize = 0;
    while i < len
        invariant
            i <= len,
            len == s@.len(),
            forall|j: int| 0 <= j < i ==> s@[j] != c,
        decreases len - i,
    {
        if s.get_char(i) == c {
            return true;
        }
        i += 1;
    }
    false
}

/// The ASCII-lowercase counterpart of `c`; characters outside `'A'..='Z'`
/// are unchanged.
pub open spec fn spec_lower_char(c: char) -> char {
    if 'A' <= c && c <= 'Z' {
        (((c as u32) + 32) as u8) as char
    } else {
        c
    }
}

/// `s` with every ASCII uppercase letter folded to lowercase.
pub open spec fn spec_lower(s: Seq<char>) -> Seq<char> {
    s.map_values(|c: char| spec_lower_char(c))
}

/// The ASCII-lowercase counterpart of `c`.
pub fn lower_char(c: char) -> (r: char)
    ensures
        r == spec_lower_char(c),
{
    if 'A' <= c && c <= 'Z' {
        (((c as u32) + 32) as u8) as char
    } else {
        c
    }
}

/// Whether `n` occurs in `s` once ASCII case in `s` is folded; `n` is
/// expected in lowercase already.
pub fn str_contains_ci(s: &str, n: &str) -> (r: bool)
    ensures
        r == spec_contains_seq(spec_lower(s@), n@),
{
    let s_len = s.unicode_len();
    let n_len = n.unicode_len();
    let ghost ls = spec_lower(s@);
    assert(ls.len() == s@.len());
    if n_len > s_len {
        assert(!spec_contains_seq(ls, n@)) by {
            assert(forall|i: int| !occurs_at(ls, n@, i));
        }
        return false;
    }
    if n_len == 0 {
        assert(ls.subrange(0, 0) =~= n@);
        assert(occurs_at(ls, n@, 0));
        return true;
    }
    let mut start: usize = 0;
    while start <= s_len - n_len
        invariant
            0 < n_len <= s_len,
            start <= s_len,
            s_len == s@.len(),
            n_len == n@.len(),
            ls == spec_lower(s@),
            ls.len() == s@.len(),
            forall|i: int| 0 <= i < start ==> !occurs_at(ls, n@, i),
        decreases s_len - start,
    {
        let mut j: usize = 0;
        let mut here = true;
        while here && j < n_len
            invariant
                j <= n_len,
                start + n_len <= s_len,
                s_len == s@.len(),
                n_len == n@.len(),
                ls == spec_lower(s@),
                ls.len() == s@.len(),
                here ==> forall|k: int| 0 <= k < j ==> ls[start + k] == n@[k],
                !here ==> !occurs_at(ls, n@, start as int),
            decreases (if here { 1int } else { 0int }), n_len - j,
        {
            if lower_char(s.get_char(start + j)) != n.get_char(j) {
                assert(ls[start + j] != n@[j as int]);
                assert(ls.subrange(start as int, start as int + n@.len())[j as int] != n@[j as int]);
                assert(!occurs_at(ls, n@, start as int));
                here = false;
            } else {
                assert(ls[start + j] == n@[j as int]);
                j += 1;
            }
        }
        if here {
            assert forall|k: int| 0 <= k < n@.len() implies
                ls.subrange(start as int, start as int + n@.len())[k] == n@[k] by {
                assert(ls[start + k] == n@[k]);
            }
            assert(ls.subrange(start as int, start as int + n@.len()) =~= n@);
            assert(occurs_at(ls, n@, start as int));
            return true;
        }
        start += 1;
    }
    assert forall|i: int| !occurs_at(ls, n@, i) by {
        if occurs_at(ls, n@, i) {
            assert(0 <= i < start);
        }
    }
    false
}

/// Whether `s` equals `n` once ASCII case in `s` is folded; `n` is expected
/// in lowercase already.
pub fn str_eq_ci(s: &str, n: &str) -> (r: bool)
    ensures
        r == (spec_lower(s@) == n@),
{
    let s_len = s.unicode_len();
    let n_len = n.unicode_len();
    let ghost ls = spec_lower(s@);
    assert(ls.len() == s@.len());
    if s_len != n_len {
        return false;
    }
    let mut i: usize = 0;
    while i < s_len
        invariant
            i <= s_len,
            s_len == s@.len(),
            s_len == n@.len(),
            ls == spec_lower(s@),
            ls.len() == s@.len(),
            forall|j: int| 0 <= j < i ==> ls[j] == n@[j],
        decreases s_len - i,
    {
        if lower_char(s.get_char(i)) != n.get_char(i) {
            assert(ls[i as int] != n@[i as int]);
            return false;
        }
        assert(ls[i as int] == n@[i as int]);
        i += 1;
    }
    assert(ls =~= n@);
    true
}

/// Whether `n` occurs as a contiguous run of characters in `s`.
pub fn str_contains(s: &str, n: &str) -> (r: bool)
    ensures
        r == spec_contains_seq(s@, n@),
{
    let s_len = s.unicode_len();
    let n_len = n.unicode_len();
    if n_len > s_len {
        assert(!spec_contains_seq(s@, n@)) by {
            assert(forall|i: int| !occurs_at(s@, n@, i));
        }
        return false;
    }
    if n_len == 0 {
        assert(s@.subrange(0, 0) =~= n@);
        assert(occurs_at(s@, n@, 0));
        return true;
    }
    let mut start: usize = 0;
    while start <= s_len - n_len
        invariant
            0 < n_len <= s_len,
            start <= s_len,
            s_len == s@.len(),
            n_len == n@.len(),
            forall|i: int| 0 <= i < start ==> !occurs_at(s@, n@, i),
        decreases s_len - start,
    {
        let mut j: usize = 0;
        let mut here = true;
        while here && j < n_len
            invariant
                j <= n_len,
                start + n_len <= s_len,
                s_len == s@.len(),
                n_len == n@.len(),
                here ==> forall|k: int| 0 <= k < j ==> s@[start + k] == n@[k],
                !here ==> !occurs_at(s@, n@, start as int),
            decreases (if here { 1int } else { 0int }), n_len - j,
        {
            if s.get_char(start + j) != n.get_char(j) {
                assert(s@.subrange(start as int, start as int + n@.len())[j as int] != n@[j as int]);
                assert(!occurs_at(s@, n@, start as int));
                here = false;
            } else {
                j += 1;
            }
        }
        if here {
            assert forall|k: int| 0 <= k < n@.len() implies
                s@.subrange(start as int, start as int + n@.len())[k] == n@[k] by {
                assert(s@[start + k] == n@[k]);
            }
            assert(s@.subrange(start as int, start as int + n@.len()) =~= n@);
            assert(occurs_at(s@, n@, start as int));
            return true;
        }
        start += 1;
    }
    assert forall|i: int| !occurs_at(s@, n@, i) by {
        if occurs_at(s@, n@, i) {
            assert(0 <= i < start);
        }
    }
    false
}

/// Whether `a` and `b` hold the same characters.
pub fn str_eq(a: &str, b: &str) -> (r: bool)
    ensures
        r == (a@ == b@),
{
    let a_len = a.unicode_len();
    let b_len = b.unicode_len();
    if a_len != b_len {
        return false;
    }
    let mut i: usize = 0;
    while i < a_len
        invariant
            i <= a_len,
            a_len == a@.len(),
            a_len == b@.len(),
            forall|j: int| 0 <= j < i ==> a@[j] == b@[j],
        decreases a_len - i,
    {
        if a.get_char(i) != b.get_char(i) {
            return false;
        }
        i += 1;
    }
    assert(a@ =~= b@);
    true
}

/// `s` with every trailing occurrence of `c` removed.
pub open spec fn spec_strip_trailing(s: Seq<char>, c: char) -> Seq<char>
    decreases s.len(),
{
    if s.len() > 0 && s.last() == c {
        spec_strip_trailing(s.drop_last(), c)
    } else {
        s
    }
}

proof fn lemma_strip_trailing_at(s: Seq<char>, c: char, b: int)
    requires
        0 <= b <= s.len(),
        forall|i: int| b <= i < s.len() ==> s[i] == c,
        b == 0 || s[b - 1] != c,
    ensures
        spec_strip_trailing(s, c) == s.subrange(0, b),
    decreases s.len(),
{
    if b == s.len() {
        assert(s.subrange(0, s.len() as int) =~= s);
    } else {
        let t = s.drop_last();
        assert(forall|i: int| 0 <= i < t.len() ==> t[i] == s[i]);
        lemma_strip_trailing_at(t, c, b);
        assert(t.subrange(0, b) =~= s.subrange(0, b));
    }
}

/// `s` without its leading and trailing runs of `c`, as
/// `str::trim_matches` computes it for a character pattern.
pub fn strip_edges(s: &str, c: char) -> (r: &str)
    ensures
        r@ == spec_strip_trailing(spec_strip_leading(s@, c), c),
{
    let len = s.unicode_len();
    let mut a: usize = 0;
    while a < len && s.get_char(a) == c
        invariant
            a <= len,
            len == s@.len(),
            forall|i: int| 0 <= i < a ==> s@[i] == c,
        decreases len - a,
    {
        a += 1;
    }
    let mut b: usize = len;
    while b > a && s.get_char(b - 1) == c
        invariant
            a <= b <= len,
            len == s@.len(),
            forall|i: int| b <= i < len ==> s@[i] == c,
        decreases b,
    {
        b -= 1;
    }
    let r = s.substring_char(a, b);
    proof {
        lemma_strip_leading_at(s@, c, a as int);
        let t = s@.subrange(a as int, len as int);
        assert(forall|i: int| b - a <= i < t.len() ==> t[i] == s@[i + a]);
        lemma_strip_trailing_at(t, c, b - a);
        assert(t.subrange(0, b - a) =~= s@.subrange(a as int, b as int));
    }
    r
}

/// `s` with every leading occurrence of `c` removed.
pub open spec fn spec_strip_leading(s: Seq<char>, c: char) -> Seq<char>
    decreases s.len(),
{
    if s.len() > 0 && s[0] == c {
        spec_strip_leading(s.drop_first(), c)
    } else {
        s
    }
}

proof fn lemma_strip_leading_at(s: Seq<char>, c: char, a: int)
    requires
        0 <= a <= s.len(),
        forall|i: int| 0 <= i < a ==> s[i] == c,
        a == s.len() || s[a] != c,
    ensures
        spec_strip_leading(s, c) == s.subrange(a, s.len() as int),
    decreases a,
{
    if a == 0 {
        assert(s.subrange(0, s.len() as int) =~= s);
    } else {
        let t = s.drop_first();
        assert(forall|i: int| 0 <= i < a - 1 ==> t[i] == s[i + 1]);
        lemma_strip_leading_at(t, c, a - 1);
        assert(t.subrange(a - 1, t.len() as int) =~= s.subrange(a, s.len() as int));
    }
}

/// `s` without its leading run of `c` characters, as
/// `str::trim_start_matches` computes it for a character pattern.
pub fn strip_leading(s: &str, c: char) -> (r: &str)
    ensures
        r@ == spec_strip_leading(s@, c),
{
    let len = s.unicode_len();
    let mut a: usize = 0;
    while a < len && s.get_char(a) == c
        invariant
            a <= len,
            len == s@.len(),
            forall|i: int| 0 <= i < a ==> s@[i] == c,
        decreases len - a,
    {
        a += 1;
    }
    proof {
        lemma_strip_leading_at(s@, c, a as int);
    }
    s.substring_char(a, len)
}

/// The first position at or after `from` holding `c`, or the length of
/// `s` when `c` does not occur there.
pub open spec fn spec_first_index(s: Seq<char>, c: char, from: int) -> int
    decreases s.len() - from,
{
    if from < 0 || from >= s.len() {
        s.len() as int
    } else if s[from] == c {
        from
    } else {
        spec_first_index(s, c, from + 1)
    }
}

/// The segments of `s` between occurrences of the separator `c`; always
/// at least one segment, and empty segments are kept.
pub open spec fn spec_split(s: Seq<char>, c: char) -> Seq<Seq<char>>
    decreases s.len(),
{
    if s.len() == 0 {
        seq![Seq::<char>::empty()]
    } else if s[0] == c {
        seq![Seq::<char>::empty()] + spec_split(s.drop_first(), c)
    } else {
        let rest = spec_split(s.drop_first(), c);
        seq![seq![s[0]] + rest[0]] + rest.drop_first()
    }
}

pub proof fn lemma_split_len(s: Seq<char>, c: char)
    ensures
        spec_split(s, c).len() >= 1,
    decreases s.len(),
{
    if s.len() > 0 {
        lemma_split_len(s.drop_first(), c)
    }
}

/// Splitting at the first separator occurrence: where none occurs the
/// whole string is the one segment, and otherwise the head segment ends
/// there and the rest is split on its own.
pub proof fn lemma_split_at_first(s: Seq<char>, c: char, i: int)
    requires
        0 <= i <= s.len(),
        forall|j: int| 0 <= j < i ==> s[j] != c,
        i == s.len() || s[i] == c,
    ensures
        i == s.len() ==> spec_split(s, c) =~~= seq![s],
        i < s.len() ==> spec_split(s, c) =~~= seq![s.subrange(0, i)] + spec_split(
            s.subrange(i + 1, s.len() as int),
            c,
        ),
    decreases i,
{
    lemma_split_len(s, c);
    if i == 0 {
        if s.len() > 0 && s[0] == c {
            assert(s.drop_first() =~= s.subrange(1, s.len() as int));
        }
        if s.len() == 0 {
            assert(s.subrange(0, 0) =~= s);
        }
    } else {
        let t = s.drop_first();
        assert(forall|j: int| 0 <= j < i - 1 ==> t[j] == s[j + 1]);
        lemma_split_at_first(t, c, i - 1);
        lemma_split_len(t, c);
        if i == s.len() {
            assert(spec_split(t, c) =~~= seq![t]);
            assert(seq![s[0]] + t =~= s);
        } else {
            assert(spec_split(t, c) =~~= seq![t.subrange(0, i - 1)] + spec_split(
                t.subrange(i, t.len() as int),
                c,
            ));
            assert(seq![s[0]] + t.subrange(0, i - 1) =~= s.subrange(0, i));
            assert(t.subrange(i, t.len() as int) =~= s.subrange(i + 1, s.len() as int));
        }
    }
}

/// Splits `s` at every occurrence of `c`, keeping empty segments, as
/// `str::split` does for a character pattern.
pub fn split_char(s: &str, c: char) -> (r: Vec<String>)
    ensures
        r@.len() == spec_split(s@, c).len(),
        forall|i: int| 0 <= i < r@.len() ==> r@[i]@ == spec_split(s@, c)[i],
{
    let len = s.unicode_len();
    let mut r: Vec<String> = Vec::new();
    let mut pos: usize = 0;
    let ghost whole = spec_split(s@, c);
    proof {
        assert(s@.subrange(0, len as int) =~= s@);
        assert(r@.map_values(|x: String| x@) =~= Seq::<Seq<char>>::empty());
        assert(whole =~~= r@.map_values(|x: String| x@) + spec_split(
            s@.subrange(0, len as int),
            c,
        ));
    }
    loop
        invariant_except_break
            pos <= len,
            len == s@.len(),
            whole == spec_split(s@, c),
            forall|i: int| 0 <= i < r@.len() ==> r@[i]@ == whole[i],
            whole =~~= r@.map_values(|x: String| x@) + spec_split(
                s@.subrange(pos as int, len as int),
                c,
            ),
        ensures
            r@.len() == whole.len(),
            forall|i: int| 0 <= i < r@.len() ==> r@[i]@ == whole[i],
        decreases len - pos,
    {
        let ghost rest = s@.subrange(pos as int, len as int);
        let ghost pre = r@;
        let mut j: usize = pos;
        while j < len && s.get_char(j) != c
            invariant
                pos <= j <= len,
                len == s@.len(),
                forall|k: int| pos <= k < j ==> s@[k] != c,
            decreases len - j,
        {
            j += 1;
        }
        let seg = s.substring_char(pos, j).to_owned();
        proof {
            assert(forall|k: int| 0 <= k < rest.len() ==> rest[k] == s@[pos + k]);
            lemma_split_at_first(rest, c, j - pos);
            assert(rest.subrange(0, j - pos) =~= s@.subrange(pos as int, j as int));
        }
        r.push(seg);
        proof {
            assert(r@.map_values(|x: String| x@) =~= pre.map_values(|x: String| x@) + seq![seg@]);
        }
        if j < len {
            proof {
                assert(rest.subrange(j - pos + 1, rest.len() as int) =~= s@.subrange(
                    j + 1,
                    len as int,
                ));
            }
            pos = j + 1;
            proof {
                assert(whole =~~= r@.map_values(|x: String| x@) + spec_split(
                    s@.subrange(pos as int, len as int),
                    c,
                ));
            }
        } else {
            proof {
                assert(spec_split(rest, c) =~~= seq![rest]);
                assert(whole =~~= r@.map_values(|x: String| x@));
                assert(forall|i: int| 0 <= i < r@.len() ==> r@[i]@ == whole[i]);
            }
            break;
        }
    }
    r
}

} // verus!
