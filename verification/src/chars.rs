//! Character classes used by the validation rules.
//!
//! The Unicode classes (uppercase, lowercase, alphabetic, alphanumeric) are
//! those of the standard library's `char` methods.  Each class is given a
//! name here, together with its value on the ASCII range, where the Unicode
//! categories coincide with the familiar ASCII ranges.

use vstd::prelude::*;

verus! {

/// What `char::is_uppercase` returns: whether the character has the
/// Unicode `Uppercase` property.
pub uninterp spec fn is_uppercase_char(c: char) -> bool;

/// What `char::is_lowercase` returns: whether the character has the
/// Unicode `Lowercase` property.
pub uninterp spec fn is_lowercase_char(c: char) -> bool;

/// What `char::is_alphabetic` returns: whether the character has the
/// Unicode `Alphabetic` property.
pub uninterp spec fn is_alphabetic_char(c: char) -> bool;

/// What `char::is_alphanumeric` returns: whether the character is
/// alphabetic or has one of the Unicode number categories.
pub uninterp spec fn is_alphanumeric_char(c: char) -> bool;

/// Relies on `char::is_uppercase`.  On ASCII, exactly `A`..=`Z` have the
/// `Uppercase` property.
pub assume_specification[ char::is_uppercase ](c: char) -> (r: bool)
    ensures
        r == is_uppercase_char(c),
        (c as u32) < 128 ==> r == ('A' <= c && c <= 'Z'),
;

/// Relies on `char::is_lowercase`.  On ASCII, exactly `a`..=`z` have the
/// `Lowercase` property.
pub assume_specification[ char::is_lowercase ](c: char) -> (r: bool)
    ensures
        r == is_lowercase_char(c),
        (c as u32) < 128 ==> r == ('a' <= c && c <= 'z'),
;

/// Relies on `char::is_alphabetic`.  On ASCII, exactly the letters
/// `A`..=`Z` and `a`..=`z` are alphabetic.
pub assume_specification[ char::is_alphabetic ](c: char) -> (r: bool)
    ensures
        r == is_alphabetic_char(c),
        (c as u32) < 128 ==> r == ('A' <= c && c <= 'Z' || 'a' <= c && c <= 'z'),
;

/// Relies on `char::is_alphanumeric`.  On ASCII, exactly the letters and
/// the decimal digits are alphanumeric.
pub assume_specification[ char::is_alphanumeric ](c: char) -> (r: bool)
    ensures
        r == is_alphanumeric_char(c),
        (c as u32) < 128 ==> r == ('A' <= c && c <= 'Z' || 'a' <= c && c <= 'z' || '0' <= c
            && c <= '9'),
;

/// A decimal digit `0`..=`9`, the only characters `char::is_digit(10)`
/// accepts.
pub open spec fn is_decimal_digit(c: char) -> bool {
    '0' <= c && c <= '9'
}

/// Runtime check for [`is_decimal_digit`].
pub fn check_decimal_digit(c: char) -> (r: bool)
    ensures
        r == is_decimal_digit(c),
{
    '0' <= c && c <= '9'
}

/// A word character of the email pattern: alphanumeric or underscore.
pub open spec fn is_word_char(c: char) -> bool {
    is_alphanumeric_char(c) || c == '_'
}

/// A character allowed on either side of the `@` of an email address:
/// a word character, a dot or a hyphen.
pub open spec fn is_email_atom_char(c: char) -> bool {
    is_word_char(c) || c == '.' || c == '-'
}

/// Runtime check for [`is_email_atom_char`].
pub fn check_email_atom_char(c: char) -> (r: bool)
    ensures
        r == is_email_atom_char(c),
{
    c.is_alphanumeric() || c == '_' || c == '.' || c == '-'
}

} // verus!
