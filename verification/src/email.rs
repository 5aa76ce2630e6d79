//! The email pattern of the validator: one or more word/dot/hyphen
//! characters, `@`, one or more word/dot/hyphen characters, a dot, and two
//! or more letters.
//!
//! A string matches if it can be split around an `@` and a later dot this
//! way.  Because `@` is not a word/dot/hyphen character and a dot is not a
//! letter, the `@` of a match is the first `@` of the string and the dot is
//! the last dot; the checker scans for those two positions and verifies
//! each region.

use vstd::prelude::*;
use vstd::string::StrSliceExecFns;
use crate::chars::{check_email_atom_char, is_alphabetic_char, is_email_atom_char};

verus! {

/// The indices `at` and `dot` split `s` into a match of the email pattern:
/// one or more atom characters, `@` at `at`, one or more atom characters,
/// `.` at `dot`, and two or more letters.
pub open spec fn email_split_ok(s: Seq<char>, at: int, dot: int) -> bool {
    &&& 1 <= at
    &&& at + 2 <= dot
    &&& dot + 3 <= s.len()
    &&& s[at] == '@'
    &&& s[dot] == '.'
    &&& (forall|k: int| 0 <= k < at ==> is_email_atom_char(#[trigger] s[k]))
    &&& (forall|k: int| at < k < dot ==> is_email_atom_char(#[trigger] s[k]))
    &&& (forall|k: int| dot < k < s.len() ==> is_alphabetic_char(#[trigger] s[k]))
}

/// A syntactically valid email address: some split matches the pattern.
pub open spec fn email_ok(s: Seq<char>) -> bool {
    exists|at: int, dot: int| email_split_ok(s, at, dot)
}

/// Runs the classifiers on the two separators of the pattern.  `@` is not
/// an atom character and `.` is not a letter, so the split of a match is
/// unambiguous.
fn classify_separators()
    ensures
        !is_email_atom_char('@'),
        !is_alphabetic_char('.'),
{
    let _at_is_alnum: bool = '@'.is_alphanumeric();
    let _dot_is_letter: bool = '.'.is_alphabetic();
}

/// In a match whose `@` lies at `at`, with only non-`@` atom characters
/// before `at`, the split's `@` is exactly `at`.
proof fn lemma_split_pins_at(s: Seq<char>, at: int, a: int, d: int)
    requires
        email_split_ok(s, a, d),
        0 <= at < s.len(),
        s[at] == '@',
        forall|k: int| 0 <= k < at ==> is_email_atom_char(#[trigger] s[k]) && s[k] != '@',
        !is_email_atom_char('@'),
    ensures
        a == at,
{
    if a < at {
        assert(s[a] != '@');
    }
    if a > at {
        assert(is_email_atom_char(s[at]));
    }
}

/// In a match whose `@` is `at` and whose last dot after `at` is `dot`,
/// the split's dot is exactly `dot`.
proof fn lemma_split_pins_dot(s: Seq<char>, at: int, dot: int, a: int, d: int)
    requires
        email_split_ok(s, a, d),
        a == at,
        at < dot < s.len(),
        s[dot] == '.',
        forall|m: int| dot < m < s.len() ==> s[m] != '.',
        !is_alphabetic_char('.'),
    ensures
        d == dot,
{
    if d < dot {
        assert(is_alphabetic_char(s[dot]));
    }
    if d > dot {
        assert(s[d] != '.');
    }
}

/// Looks for the first `@`, checking that everything before it is an atom
/// character.  Returns its index, or `None` when the string cannot match.
fn scan_local_part(s: &str) -> (r: Option<usize>)
    ensures
        r matches Some(at) ==> at < s@.len() && s@[at as int] == '@' && (forall|k: int|
            0 <= k < at ==> is_email_atom_char(#[trigger] s@[k]) && s@[k] != '@'),
        r is None ==> !email_ok(s@),
{
    let n = s.unicode_len();
    let mut i: usize = 0;
    while i < n
        invariant
            n == s@.len(),
            i <= n,
            forall|k: int| 0 <= k < i ==> is_email_atom_char(#[trigger] s@[k]) && s@[k] != '@',
        decreases n - i,
    {
        let c = s.get_char(i);
        if c == '@' {
            return Some(i);
        }
        if !check_email_atom_char(c) {
            proof {
                assert forall|a: int, d: int| !email_split_ok(s@, a, d) by {
                    if email_split_ok(s@, a, d) {
                        if a <= i {
                            assert(s@[a] != '@');
                        } else {
                            assert(is_email_atom_char(s@[i as int]));
                        }
                    }
                }
            }
            return None;
        }
        i += 1;
    }
    proof {
        assert forall|a: int, d: int| !email_split_ok(s@, a, d) by {
            if email_split_ok(s@, a, d) {
                assert(s@[a] != '@');
            }
        }
    }
    None
}

/// Finds the last dot strictly after `at`, if any.
fn find_last_dot(s: &str, at: usize) -> (r: Option<usize>)
    requires
        at < s@.len(),
    ensures
        r matches Some(dot) ==> at < dot < s@.len() && s@[dot as int] == '.' && (forall|m: int|
            dot < m < s@.len() ==> s@[m] != '.'),
        r is None ==> forall|m: int| at < m < s@.len() ==> s@[m] != '.',
{
    let n = s.unicode_len();
    let mut j = n;
    while j > at + 1
        invariant
            n == s@.len(),
            at + 1 <= j <= n,
            forall|m: int| j <= m < n ==> s@[m] != '.',
        decreases j,
    {
        j -= 1;
        let c = s.get_char(j);
        if c == '.' {
            return Some(j);
        }
    }
    None
}

/// Checks that every character of `s` in `[from, to)` is an atom character.
fn all_atom_chars(s: &str, from: usize, to: usize) -> (r: bool)
    requires
        from <= to <= s@.len(),
    ensures
        r == (forall|k: int| from <= k < to ==> is_email_atom_char(#[trigger] s@[k])),
{
    let mut i = from;
    while i < to
        invariant
            from <= i <= to <= s@.len(),
            forall|k: int| from <= k < i ==> is_email_atom_char(#[trigger] s@[k]),
        decreases to - i,
    {
        let c = s.get_char(i);
        if !check_email_atom_char(c) {
            assert(!is_email_atom_char(s@[i as int]));
            return false;
        }
        i += 1;
    }
    true
}

/// Checks that every character of `s` in `[from, to)` is a letter.
fn all_letters(s: &str, from: usize, to: usize) -> (r: bool)
    requires
        from <= to <= s@.len(),
    ensures
        r == (forall|k: int| from <= k < to ==> is_alphabetic_char(#[trigger] s@[k])),
{
    let mut i = from;
    while i < to
        invariant
            from <= i <= to <= s@.len(),
            forall|k: int| from <= k < i ==> is_alphabetic_char(#[trigger] s@[k]),
        decreases to - i,
    {
        let c = s.get_char(i);
        if !c.is_alphabetic() {
            assert(!is_alphabetic_char(s@[i as int]));
            return false;
        }
        i += 1;
    }
    true
}

/// Whether `email` matches the email pattern of the validator.
pub fn check_email(email: &str) -> (r: bool)
    ensures
        r == email_ok(email@),
{
    let n = email.unicode_len();
    classify_separators();
    let at = match scan_local_part(email) {
        None => {
            return false;
        },
        Some(at) => at,
    };
    if at == 0 {
        proof {
            assert forall|a: int, d: int| !email_split_ok(email@, a, d) by {
                if email_split_ok(email@, a, d) {
                    lemma_split_pins_at(email@, at as int, a, d);
                }
            }
        }
        return false;
    }
    let dot = match find_last_dot(email, at) {
        None => {
            proof {
                assert forall|a: int, d: int| !email_split_ok(email@, a, d) by {
                    if email_split_ok(email@, a, d) {
                        lemma_split_pins_at(email@, at as int, a, d);
                        assert(email@[d] != '.');
                    }
                }
            }
            return false;
        },
        Some(dot) => dot,
    };
    if dot < at + 2 || n - dot < 3 {
        proof {
            assert forall|a: int, d: int| !email_split_ok(email@, a, d) by {
                if email_split_ok(email@, a, d) {
                    lemma_split_pins_at(email@, at as int, a, d);
                    lemma_split_pins_dot(email@, at as int, dot as int, a, d);
                }
            }
        }
        return false;
    }
    if !all_atom_chars(email, at + 1, dot) {
        proof {
            assert forall|a: int, d: int| !email_split_ok(email@, a, d) by {
                if email_split_ok(email@, a, d) {
                    lemma_split_pins_at(email@, at as int, a, d);
                    lemma_split_pins_dot(email@, at as int, dot as int, a, d);
                }
            }
        }
        return false;
    }
    if !all_letters(email, dot + 1, n) {
        proof {
            assert forall|a: int, d: int| !email_split_ok(email@, a, d) by {
                if email_split_ok(email@, a, d) {
                    lemma_split_pins_at(email@, at as int, a, d);
                    lemma_split_pins_dot(email@, at as int, dot as int, a, d);
                }
            }
        }
        return false;
    }
    proof {
        assert(email_split_ok(email@, at as int, dot as int));
    }
    true
}

} // verus!
