//! Input validation and sanitization: user names, contact data, product
//! fields and paths, each rejected with a fixed message when it falls
//! outside its shape.
//!
//! Length checks follow the byte length of the trimmed input, as the
//! stored form does; character classes are the Unicode classes of `std`.

use vstd::prelude::*;
use vstd::utf8::encode_utf8;
use crate::chars::{char_alphabetic, char_numeric, char_whitespace, char_control, char_uppercase, char_lowercase};
use crate::strutil::{trim, spec_trim, spec_contains_char, str_contains_char};

verus! {

/// The outcome of one validation: nothing, or a fixed message.
pub type ValidationResult = Result<(), String>;

/// The byte length of a character sequence.
pub open spec fn byte_len(s: Seq<char>) -> int {
    encode_utf8(s).len() as int
}

/// A username character: a letter, a digit, `'_'` or `'-'`.
pub open spec fn spec_username_char(c: char) -> bool {
    char_alphabetic(c) || char_numeric(c) || c == '_' || c == '-'
}

/// A valid username: nonempty, 3 to 50 bytes once trimmed, starting with
/// a letter, of username characters only.
pub open spec fn spec_valid_username(t: Seq<char>) -> bool {
    &&& t.len() > 0
    &&& 3 <= byte_len(t) <= 50
    &&& char_alphabetic(t[0])
    &&& forall|i: int| 0 <= i < t.len() ==> spec_username_char(#[trigger] t[i])
}

/// Checks a username: 3 to 50 characters, letters, digits, underscore
/// and hyphen, starting with a letter.
pub fn validate_username(username: &str) -> (r: ValidationResult)
    ensures
        r.is_ok() <==> spec_valid_username(spec_trim(username@)),
{
    let trimmed = trim(username);
    let len = trimmed.unicode_len();
    if len == 0 {
        return Err(String::from_str("Username tidak boleh kosong"));
    }
    let byte_count = trimmed.as_bytes_vec().len();
    if byte_count < 3 || byte_count > 50 {
        return Err(String::from_str("Username harus 3-50 karakter"));
    }
    if !trimmed.get_char(0).is_alphabetic() {
        return Err(String::from_str("Username harus dimulai dengan huruf"));
    }
    let mut i: usize = 0;
    while i < len
        invariant
            i <= len,
            len == spec_trim(username@).len(),
            trimmed@ == spec_trim(username@),
            forall|j: int| 0 <= j < i ==> spec_username_char(#[trigger] trimmed@[j]),
        decreases len - i,
    {
        let c = trimmed.get_char(i);
        if !(c.is_alphanumeric() || c == '_' || c == '-') {
            return Err(
                String::from_str(
                    "Username hanya boleh berisi huruf, angka, underscore, dan hyphen",
                ),
            );
        }
        i += 1;
    }
    Ok(())
}

/// A name character: a letter, whitespace, `'.'`, `'-'` or `'\''`.
pub open spec fn spec_name_char(c: char) -> bool {
    char_alphabetic(c) || char_whitespace(c) || c == '.' || c == '-' || c == '\''
}

/// A valid person name: nonempty, 2 to 100 bytes once trimmed, of name
/// characters only.
pub open spec fn spec_valid_name(t: Seq<char>) -> bool {
    &&& t.len() > 0
    &&& 2 <= byte_len(t) <= 100
    &&& forall|i: int| 0 <= i < t.len() ==> spec_name_char(#[trigger] t[i])
}

/// Checks a full name: 2 to 100 characters of letters, spaces and basic
/// punctuation.
pub fn validate_name(name: &str) -> (r: ValidationResult)
    ensures
        r.is_ok() <==> spec_valid_name(spec_trim(name@)),
{
    let trimmed = trim(name);
    let len = trimmed.unicode_len();
    if len == 0 {
        return Err(String::from_str("Nama tidak boleh kosong"));
    }
    let byte_count = trimmed.as_bytes_vec().len();
    if byte_count < 2 || byte_count > 100 {
        return Err(String::from_str("Nama harus 2-100 karakter"));
    }
    let mut i: usize = 0;
    while i < len
        invariant
            i <= len,
            len == spec_trim(name@).len(),
            trimmed@ == spec_trim(name@),
            forall|j: int| 0 <= j < i ==> spec_name_char(#[trigger] trimmed@[j]),
        decreases len - i,
    {
        let c = trimmed.get_char(i);
        if !(c.is_alphabetic() || c.is_whitespace() || c == '.' || c == '-' || c == '\'') {
            return Err(
                String::from_str("Nama hanya boleh berisi huruf, spasi, dan karakter .-'"),
            );
        }
        i += 1;
    }
    Ok(())
}

/// The number of `'@'` characters among the first `k` of `s`.
pub open spec fn spec_count_at(s: Seq<char>, k: int) -> int
    decreases k,
{
    if k <= 0 {
        0
    } else {
        spec_count_at(s, k - 1) + (if s[k - 1] == '@' {
            1int
        } else {
            0int
        })
    }
}

proof fn lemma_count_at_nonneg(s: Seq<char>, k: int)
    ensures
        spec_count_at(s, k) >= 0,
    decreases k,
{
    if k > 0 {
        lemma_count_at_nonneg(s, k - 1);
    }
}

proof fn lemma_count_at_mono(s: Seq<char>, a: int, b: int)
    requires
        a <= b,
    ensures
        spec_count_at(s, a) <= spec_count_at(s, b),
    decreases b - a,
{
    if a < b {
        lemma_count_at_mono(s, a, b - 1);
    }
}

/// With exactly one `'@'` counted in the first `k`, the position holding
/// one is unique.
proof fn lemma_count_at_unique(s: Seq<char>, k: int, p: int, q: int)
    requires
        0 <= p < k,
        0 <= q < k,
        p != q,
        s[p] == '@',
        s[q] == '@',
    ensures
        spec_count_at(s, k) >= 2,
{
    let a = if p < q {
        p
    } else {
        q
    };
    let b = if p < q {
        q
    } else {
        p
    };
    lemma_count_at_nonneg(s, a);
    assert(spec_count_at(s, a + 1) >= 1);
    lemma_count_at_mono(s, a + 1, b);
    assert(spec_count_at(s, b + 1) >= 2);
    lemma_count_at_mono(s, b + 1, k);
}

/// The `'@'`-split at position `k` cuts the string into an acceptable
/// local part and domain.
pub open spec fn spec_email_split_ok(t: Seq<char>, k: int) -> bool {
    &&& 0 <= k < t.len()
    &&& t[k] == '@'
    &&& t.subrange(0, k).len() > 0
    &&& byte_len(t.subrange(0, k)) <= 64
    &&& spec_contains_char(t.subrange(k + 1, t.len() as int), '.')
}

/// A valid email: nonempty and at most 254 bytes once trimmed, exactly
/// one `'@'`, and the split there has a local part of 1 to 64 bytes and
/// a domain containing a dot.
pub open spec fn spec_valid_email(t: Seq<char>) -> bool {
    &&& t.len() > 0
    &&& byte_len(t) <= 254
    &&& spec_count_at(t, t.len() as int) == 1
    &&& exists|k: int| spec_email_split_ok(t, k)
}

/// Checks an email address: one `'@'`, a local part of bounded size, a
/// dotted domain.
pub fn validate_email(email: &str) -> (r: ValidationResult)
    ensures
        r.is_ok() <==> spec_valid_email(spec_trim(email@)),
{
    let trimmed = trim(email);
    let ghost t = spec_trim(email@);
    let len = trimmed.unicode_len();
    if len == 0 {
        return Err(String::from_str("Email tidak boleh kosong"));
    }
    if trimmed.as_bytes_vec().len() > 254 {
        return Err(String::from_str("Email terlalu panjang (max 254 karakter)"));
    }
    let mut at_pos: usize = 0;
    let mut at_count: usize = 0;
    let mut i: usize = 0;
    while i < len
        invariant
            i <= len,
            len == t.len(),
            trimmed@ == t,
            at_count == spec_count_at(t, i as int),
            at_count <= i,
            at_count > 0 ==> at_pos < i && t[at_pos as int] == '@',
        decreases len - i,
    {
        if trimmed.get_char(i) == '@' {
            if at_count == 0 {
                at_pos = i;
            }
            at_count += 1;
        }
        i += 1;
    }
    if at_count != 1 {
        return Err(
            if at_count == 0 {
                String::from_str("Email harus berisi '@'")
            } else {
                String::from_str("Format email tidak valid")
            },
        );
    }
    let local = trimmed.substring_char(0, at_pos);
    let domain = trimmed.substring_char(at_pos + 1, len);
    proof {
        assert forall|k: int| spec_email_split_ok(t, k) implies k == at_pos as int by {
            if k != at_pos as int {
                lemma_count_at_unique(t, t.len() as int, k, at_pos as int);
            }
        }
    }
    if at_pos == 0 || local.as_bytes_vec().len() > 64 {
        assert(!spec_email_split_ok(t, at_pos as int));
        return Err(String::from_str("Bagian lokal email tidak valid"));
    }
    if !str_contains_char(domain, '.') {
        assert(!spec_email_split_ok(t, at_pos as int));
        return Err(String::from_str("Domain email tidak valid"));
    }
    assert(spec_email_split_ok(t, at_pos as int));
    Ok(())
}

/// The number of numeric characters among the first `k` of `s`.
pub open spec fn spec_digit_count(s: Seq<char>, k: int) -> int
    decreases k,
{
    if k <= 0 {
        0
    } else {
        spec_digit_count(s, k - 1) + (if char_numeric(s[k - 1]) {
            1int
        } else {
            0int
        })
    }
}

/// A valid phone number: nonempty once trimmed, with 8 to 15 digits.
pub open spec fn spec_valid_phone(t: Seq<char>) -> bool {
    &&& t.len() > 0
    &&& 8 <= spec_digit_count(t, t.len() as int) <= 15
}

/// Checks a phone number: 8 to 15 digits among the separators.
pub fn validate_phone(phone: &str) -> (r: ValidationResult)
    ensures
        r.is_ok() <==> spec_valid_phone(spec_trim(phone@)),
{
    let trimmed = trim(phone);
    let len = trimmed.unicode_len();
    if len == 0 {
        return Err(String::from_str("Nomor telepon tidak boleh kosong"));
    }
    let mut digits: usize = 0;
    let mut i: usize = 0;
    while i < len
        invariant
            i <= len,
            len == spec_trim(phone@).len(),
            trimmed@ == spec_trim(phone@),
            digits == spec_digit_count(trimmed@, i as int),
            digits <= i,
        decreases len - i,
    {
        if trimmed.get_char(i).is_numeric() {
            digits += 1;
        }
        i += 1;
    }
    if digits < 8 || digits > 15 {
        return Err(String::from_str("Nomor telepon harus 8-15 digit"));
    }
    Ok(())
}

/// A valid password: 8 to 128 bytes with at least one uppercase letter,
/// one lowercase letter and one digit. The input is taken as given, not
/// trimmed.
pub open spec fn spec_valid_password(p: Seq<char>) -> bool {
    &&& p.len() > 0
    &&& 8 <= byte_len(p) <= 128
    &&& exists|i: int| 0 <= i < p.len() && char_uppercase(#[trigger] p[i])
    &&& exists|i: int| 0 <= i < p.len() && char_lowercase(#[trigger] p[i])
    &&& exists|i: int| 0 <= i < p.len() && char_numeric(#[trigger] p[i])
}

/// Checks password strength: bounded length, mixed case and a digit.
pub fn validate_password(password: &str) -> (r: ValidationResult)
    ensures
        r.is_ok() <==> spec_valid_password(password@),
{
    let len = password.unicode_len();
    if len == 0 {
        return Err(String::from_str("Password tidak boleh kosong"));
    }
    let byte_count = password.as_bytes_vec().len();
    if byte_count < 8 {
        return Err(String::from_str("Password minimal 8 karakter"));
    }
    if byte_count > 128 {
        return Err(String::from_str("Password maksimal 128 karakter"));
    }
    let mut has_upper = false;
    let mut has_lower = false;
    let mut has_digit = false;
    let mut i: usize = 0;
    while i < len
        invariant
            i <= len,
            len == password@.len(),
            has_upper <==> exists|j: int| 0 <= j < i && char_uppercase(#[trigger] password@[j]),
            has_lower <==> exists|j: int| 0 <= j < i && char_lowercase(#[trigger] password@[j]),
            has_digit <==> exists|j: int| 0 <= j < i && char_numeric(#[trigger] password@[j]),
        decreases len - i,
    {
        let c = password.get_char(i);
        if c.is_uppercase() {
            has_upper = true;
        }
        if c.is_lowercase() {
            has_lower = true;
        }
        if c.is_numeric() {
            has_digit = true;
        }
        i += 1;
    }
    if !has_upper || !has_lower || !has_digit {
        return Err(
            String::from_str("Password harus mengandung huruf kapital, huruf kecil, dan angka"),
        );
    }
    Ok(())
}

/// A valid quantity: not negative, and within the given bounds (zero to
/// one million by default).
pub open spec fn spec_valid_quantity(qty: int, min: Option<i64>, max: Option<i64>) -> bool {
    &&& qty >= 0
    &&& qty >= (match min {
        Option::Some(m) => m as int,
        Option::None => 0,
    })
    &&& qty <= (match max {
        Option::Some(m) => m as int,
        Option::None => 1_000_000,
    })
}

/// Checks a product quantity against optional bounds.
pub fn validate_quantity(qty: i64, min: Option<i64>, max: Option<i64>) -> (r: ValidationResult)
    ensures
        r.is_ok() <==> spec_valid_quantity(qty as int, min, max),
{
    if qty < 0 {
        return Err(String::from_str("Jumlah tidak boleh negatif"));
    }
    let min_val: i64 = match min {
        Some(m) => m,
        None => 0,
    };
    let max_val: i64 = match max {
        Some(m) => m,
        None => 1_000_000,
    };
    if qty < min_val {
        let mut m = String::from_str("Jumlah minimal ");
        let v = crate::format::int_to_string(min_val);
        m.append(v.as_str());
        return Err(m);
    }
    if qty > max_val {
        let mut m = String::from_str("Jumlah maksimal ");
        let v = crate::format::int_to_string(max_val);
        m.append(v.as_str());
        return Err(m);
    }
    Ok(())
}

/// A valid product name: nonempty and 2 to 200 bytes once trimmed.
pub open spec fn spec_valid_product_name(t: Seq<char>) -> bool {
    &&& t.len() > 0
    &&& 2 <= byte_len(t) <= 200
}

/// Checks a product name: 2 to 200 characters.
pub fn validate_product_name(name: &str) -> (r: ValidationResult)
    ensures
        r.is_ok() <==> spec_valid_product_name(spec_trim(name@)),
{
    let trimmed = trim(name);
    if trimmed.unicode_len() == 0 {
        return Err(String::from_str("Nama produk tidak boleh kosong"));
    }
    let byte_count = trimmed.as_bytes_vec().len();
    if byte_count < 2 || byte_count > 200 {
        return Err(String::from_str("Nama produk harus 2-200 karakter"));
    }
    Ok(())
}

/// An SKU character: a letter, a digit, `'-'`, `'_'` or `'.'`.
pub open spec fn spec_sku_char(c: char) -> bool {
    char_alphabetic(c) || char_numeric(c) || c == '-' || c == '_' || c == '.'
}

/// A valid SKU: empty (it is optional), or at most 50 bytes of SKU
/// characters once trimmed.
pub open spec fn spec_valid_sku(s: Seq<char>) -> bool {
    s.len() == 0 || {
        let t = spec_trim(s);
        &&& byte_len(t) <= 50
        &&& forall|i: int| 0 <= i < t.len() ==> spec_sku_char(#[trigger] t[i])
    }
}

/// Checks an optional SKU: up to 50 characters of letters, digits and
/// `-_.`.
pub fn validate_sku(sku: &str) -> (r: ValidationResult)
    ensures
        r.is_ok() <==> spec_valid_sku(sku@),
{
    if sku.unicode_len() == 0 {
        return Ok(());
    }
    let trimmed = trim(sku);
    if trimmed.as_bytes_vec().len() > 50 {
        return Err(String::from_str("SKU maksimal 50 karakter"));
    }
    let len = trimmed.unicode_len();
    let mut i: usize = 0;
    while i < len
        invariant
            i <= len,
            len == spec_trim(sku@).len(),
            trimmed@ == spec_trim(sku@),
            forall|j: int| 0 <= j < i ==> spec_sku_char(#[trigger] trimmed@[j]),
        decreases len - i,
    {
        let c = trimmed.get_char(i);
        if !(c.is_alphanumeric() || c == '-' || c == '_' || c == '.') {
            return Err(String::from_str("SKU hanya boleh berisi huruf, angka, dan karakter -_."));
        }
        i += 1;
    }
    Ok(())
}

/// A valid barcode: empty (it is optional), or at most 50 bytes of
/// letters and digits once trimmed.
pub open spec fn spec_valid_barcode(s: Seq<char>) -> bool {
    s.len() == 0 || {
        let t = spec_trim(s);
        &&& byte_len(t) <= 50
        &&& forall|i: int|
            0 <= i < t.len() ==> char_alphabetic(#[trigger] t[i]) || char_numeric(t[i])
    }
}

/// Checks an optional barcode: up to 50 alphanumeric characters.
pub fn validate_barcode(barcode: &str) -> (r: ValidationResult)
    ensures
        r.is_ok() <==> spec_valid_barcode(barcode@),
{
    if barcode.unicode_len() == 0 {
        return Ok(());
    }
    let trimmed = trim(barcode);
    if trimmed.as_bytes_vec().len() > 50 {
        return Err(String::from_str("Barcode terlalu panjang (max 50 karakter)"));
    }
    let len = trimmed.unicode_len();
    let mut i: usize = 0;
    while i < len
        invariant
            i <= len,
            len == spec_trim(barcode@).len(),
            trimmed@ == spec_trim(barcode@),
            forall|j: int|
                0 <= j < i ==> char_alphabetic(#[trigger] trimmed@[j]) || char_numeric(
                    trimmed@[j],
                ),
        decreases len - i,
    {
        if !trimmed.get_char(i).is_alphanumeric() {
            return Err(String::from_str("Barcode hanya boleh berisi huruf dan angka"));
        }
        i += 1;
    }
    Ok(())
}

/// A valid file path: nonempty, free of `..` and of NUL bytes, so it
/// cannot climb out of its directory.
pub open spec fn spec_valid_file_path(s: Seq<char>) -> bool {
    &&& s.len() > 0
    &&& !crate::strutil::spec_contains_seq(s, ".."@)
    &&& !spec_contains_char(s, '\0')
}

/// Checks a file path against traversal and NUL-byte tricks.
pub fn validate_file_path(path: &str) -> (r: ValidationResult)
    ensures
        r.is_ok() <==> spec_valid_file_path(path@),
{
    if path.unicode_len() == 0 {
        return Err(String::from_str("Path file tidak boleh kosong"));
    }
    if crate::strutil::str_contains(path, "..") {
        return Err(String::from_str("Path file tidak valid"));
    }
    if str_contains_char(path, '\0') {
        return Err(String::from_str("Path file tidak valid"));
    }
    proof {
        reveal_strlit("..");
    }
    Ok(())
}

/// `s` with every NUL character removed.
pub open spec fn spec_strip_nul(s: Seq<char>) -> Seq<char>
    decreases s.len(),
{
    if s.len() == 0 {
        Seq::empty()
    } else if s[0] == '\0' {
        spec_strip_nul(s.drop_first())
    } else {
        seq![s[0]] + spec_strip_nul(s.drop_first())
    }
}

/// `s` with every left-to-right occurrence of `..` removed.
pub open spec fn spec_strip_dotdot(s: Seq<char>) -> Seq<char>
    decreases s.len(),
{
    if s.len() >= 2 && s[0] == '.' && s[1] == '.' {
        spec_strip_dotdot(s.subrange(2, s.len() as int))
    } else if s.len() > 0 {
        seq![s[0]] + spec_strip_dotdot(s.drop_first())
    } else {
        Seq::empty()
    }
}

/// The sanitized form of a path: NUL characters removed, then `..` pairs
/// removed, then trimmed.
pub open spec fn spec_sanitize_file_path(s: Seq<char>) -> Seq<char> {
    spec_trim(spec_strip_dotdot(spec_strip_nul(s)))
}

/// Strips NUL characters, traversal pairs and surrounding whitespace
/// from a path.
pub fn sanitize_file_path(path: &str) -> (r: String)
    ensures
        r@ == spec_sanitize_file_path(path@),
{
    let len = path.unicode_len();
    let mut s1 = String::new();
    proof {
        assert(path@.subrange(0, len as int) =~= path@);
        assert(s1@ + spec_strip_nul(path@) =~= spec_strip_nul(path@));
    }
    let mut i: usize = 0;
    while i < len
        invariant
            i <= len,
            len == path@.len(),
            s1@ + spec_strip_nul(path@.subrange(i as int, len as int)) == spec_strip_nul(path@),
        decreases len - i,
    {
        let ghost pre = s1@;
        let ghost rest = path@.subrange(i as int, len as int);
        if path.get_char(i) != '\0' {
            s1.append(path.substring_char(i, i + 1));
            assert(s1@ =~= pre + seq![path@[i as int]]);
        }
        proof {
            assert(rest.drop_first() =~= path@.subrange(i + 1, len as int));
            assert(s1@ + spec_strip_nul(path@.subrange(i + 1, len as int)) =~= pre
                + spec_strip_nul(rest));
        }
        i += 1;
    }
    proof {
        assert(spec_strip_nul(path@.subrange(len as int, len as int)) =~= Seq::<char>::empty());
        assert(s1@ =~= spec_strip_nul(path@));
    }
    let s1_len = s1.as_str().unicode_len();
    let mut s2 = String::new();
    proof {
        assert(s1@.subrange(0, s1_len as int) =~= s1@);
        assert(s2@ + spec_strip_dotdot(s1@) =~= spec_strip_dotdot(s1@));
    }
    let mut j: usize = 0;
    while j < s1_len
        invariant
            j <= s1_len,
            s1_len == s1@.len(),
            s2@ + spec_strip_dotdot(s1@.subrange(j as int, s1_len as int)) == spec_strip_dotdot(
                s1@,
            ),
        decreases s1_len - j,
    {
        let ghost pre = s2@;
        let ghost rest = s1@.subrange(j as int, s1_len as int);
        if j + 1 < s1_len && s1.as_str().get_char(j) == '.' && s1.as_str().get_char(j + 1)
            == '.' {
            proof {
                assert(rest.subrange(2, rest.len() as int) =~= s1@.subrange(
                    j + 2,
                    s1_len as int,
                ));
                assert(s2@ + spec_strip_dotdot(s1@.subrange(j + 2, s1_len as int)) =~= pre
                    + spec_strip_dotdot(rest));
            }
            j += 2;
        } else {
            if j < s1_len {
                s2.append(s1.as_str().substring_char(j, j + 1));
                assert(s2@ =~= pre + seq![s1@[j as int]]);
                proof {
                    assert(rest.drop_first() =~= s1@.subrange(j + 1, s1_len as int));
                    assert(s2@ + spec_strip_dotdot(s1@.subrange(j + 1, s1_len as int)) =~= pre
                        + spec_strip_dotdot(rest));
                }
            }
            j += 1;
        }
    }
    proof {
        assert(spec_strip_dotdot(s1@.subrange(s1_len as int, s1_len as int)) =~= Seq::<
            char,
        >::empty());
        assert(s2@ =~= spec_strip_dotdot(s1@));
    }
    trim(s2.as_str()).to_owned()
}

/// `s` with every control character removed.
pub open spec fn spec_strip_control(s: Seq<char>) -> Seq<char>
    decreases s.len(),
{
    if s.len() == 0 {
        Seq::empty()
    } else if char_control(s[0]) {
        spec_strip_control(s.drop_first())
    } else {
        seq![s[0]] + spec_strip_control(s.drop_first())
    }
}

/// Removes control characters from untrusted input.
pub fn sanitize_string(input: &str) -> (r: String)
    ensures
        r@ == spec_strip_control(input@),
{
    let len = input.unicode_len();
    let mut r = String::new();
    proof {
        assert(input@.subrange(0, len as int) =~= input@);
        assert(r@ + spec_strip_control(input@) =~= spec_strip_control(input@));
    }
    let mut i: usize = 0;
    while i < len
        invariant
            i <= len,
            len == input@.len(),
            r@ + spec_strip_control(input@.subrange(i as int, len as int)) == spec_strip_control(
                input@,
            ),
        decreases len - i,
    {
        let ghost pre = r@;
        let ghost rest = input@.subrange(i as int, len as int);
        if !input.get_char(i).is_control() {
            r.append(input.substring_char(i, i + 1));
            assert(r@ =~= pre + seq![input@[i as int]]);
        }
        proof {
            assert(rest.drop_first() =~= input@.subrange(i + 1, len as int));
            assert(r@ + spec_strip_control(input@.subrange(i + 1, len as int)) =~= pre
                + spec_strip_control(rest));
        }
        i += 1;
    }
    proof {
        assert(spec_strip_control(input@.subrange(len as int, len as int)) =~= Seq::<
            char,
        >::empty());
        assert(r@ =~= spec_strip_control(input@));
    }
    r
}

/// A valid order id: nonempty, at most 100 bytes, of letters, digits and
/// hyphens. The input is taken as given, not trimmed.
pub open spec fn spec_valid_order_id(s: Seq<char>) -> bool {
    &&& s.len() > 0
    &&& byte_len(s) <= 100
    &&& forall|i: int|
        0 <= i < s.len() ==> char_alphabetic(#[trigger] s[i]) || char_numeric(s[i]) || s[i] == '-'
}

/// Checks an order id: bounded alphanumeric text with hyphens.
pub fn validate_order_id(order_id: &str) -> (r: ValidationResult)
    ensures
        r.is_ok() <==> spec_valid_order_id(order_id@),
{
    let len = order_id.unicode_len();
    if len == 0 {
        return Err(String::from_str("Order ID tidak boleh kosong"));
    }
    if order_id.as_bytes_vec().len() > 100 {
        return Err(String::from_str("Order ID terlalu panjang"));
    }
    let mut i: usize = 0;
    while i < len
        invariant
            i <= len,
            len == order_id@.len(),
            forall|j: int|
                0 <= j < i ==> char_alphabetic(#[trigger] order_id@[j]) || char_numeric(
                    order_id@[j],
                ) || order_id@[j] == '-',
        decreases len - i,
    {
        let c = order_id.get_char(i);
        if !(c.is_alphanumeric() || c == '-') {
            return Err(
                String::from_str("Order ID hanya boleh berisi huruf, angka, dan hyphen"),
            );
        }
        i += 1;
    }
    Ok(())
}

/// Valid notes: empty (they are optional) or at most 500 bytes.
pub open spec fn spec_valid_notes(s: Seq<char>) -> bool {
    s.len() == 0 || byte_len(s) <= 500
}

/// Checks optional transaction notes: at most 500 characters.
pub fn validate_notes(notes: &str) -> (r: ValidationResult)
    ensures
        r.is_ok() <==> spec_valid_notes(notes@),
{
    if notes.unicode_len() == 0 {
        return Ok(());
    }
    if notes.as_bytes_vec().len() > 500 {
        return Err(String::from_str("Catatan terlalu panjang (max 500 karakter)"));
    }
    Ok(())
}

} // verus!
