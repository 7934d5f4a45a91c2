//! Names for the Unicode character-class queries of `std`.
//!
//! The classes themselves (Alphabetic, Numeric, White_Space, ...) are large
//! Unicode tables, so each query is given an uninterpreted name and the
//! corresponding `char` method is trusted to return it. Contracts elsewhere
//! speak of these names.

use vstd::prelude::*;

verus! {

/// What `char::is_alphabetic` returns for `c`.
pub uninterp spec fn char_alphabetic(c: char) -> bool;

/// What `char::is_numeric` returns for `c`.
pub uninterp spec fn char_numeric(c: char) -> bool;

/// What `char::is_whitespace` returns for `c`.
pub uninterp spec fn char_whitespace(c: char) -> bool;

/// What `char::is_uppercase` returns for `c`.
pub uninterp spec fn char_uppercase(c: char) -> bool;

/// What `char::is_lowercase` returns for `c`.
pub uninterp spec fn char_lowercase(c: char) -> bool;

/// What `char::is_control` returns for `c`.
pub uninterp spec fn char_control(c: char) -> bool;

/// Relies on `char::is_alphabetic`: whether `c` has the Unicode Alphabetic
/// property. The result depends on `c` alone.
pub assume_specification[ char::is_alphabetic ](c: char) -> (r: bool)
    ensures
        r == char_alphabetic(c),
;

/// Relies on `char::is_numeric`: whether `c` has one of the Unicode number
/// general categories. The result depends on `c` alone.
pub assume_specification[ char::is_numeric ](c: char) -> (r: bool)
    ensures
        r == char_numeric(c),
;

/// Relies on `char::is_alphanumeric`, documented as true exactly when
/// `is_alphabetic` or `is_numeric` is.
pub assume_specification[ char::is_alphanumeric ](c: char) -> (r: bool)
    ensures
        r == (char_alphabetic(c) || char_numeric(c)),
;

/// Relies on `char::is_whitespace`: whether `c` has the Unicode White_Space
/// property. The result depends on `c` alone.
pub assume_specification[ char::is_whitespace ](c: char) -> (r: bool)
    ensures
        r == char_whitespace(c),
;

/// Relies on `char::is_uppercase`: whether `c` has the Unicode Uppercase
/// property. The result depends on `c` alone.
pub assume_specification[ char::is_uppercase ](c: char) -> (r: bool)
    ensures
        r == char_uppercase(c),
;

/// Relies on `char::is_lowercase`: whether `c` has the Unicode Lowercase
/// property. The result depends on `c` alone.
pub assume_specification[ char::is_lowercase ](c: char) -> (r: bool)
    ensures
        r == char_lowercase(c),
;

/// Relies on `char::is_control`: whether `c` is a Unicode control code.
/// The result depends on `c` alone.
pub assume_specification[ char::is_control ](c: char) -> (r: bool)
    ensures
        r == char_control(c),
;

} // verus!
