//! Classification of backend failure text.
//!
//! A relational backend reports a uniqueness violation in its error
//! message; the transport layer recognises it by the words
//! `unique constraint` and maps it to a conflict, never to a generic
//! internal error.

use vstd::prelude::*;
use vstd::string::StrSliceExecFns;
use crate::errors::StoreError;

verus! {

/// Whether `needle` occurs in `haystack` starting at index `i`.
pub open spec fn seq_contains_at(haystack: Seq<char>, needle: Seq<char>, i: int) -> bool {
    &&& 0 <= i
    &&& i + needle.len() <= haystack.len()
    &&& haystack.subrange(i, i + needle.len()) == needle
}

/// Whether `needle` occurs somewhere in `haystack`.
pub open spec fn seq_contains(haystack: Seq<char>, needle: Seq<char>) -> bool {
    exists|i: int| seq_contains_at(haystack, needle, i)
}

/// Whether `needle` occurs in `haystack` starting at `i`, by comparison.
fn matches_at(haystack: &str, needle: &str, i: usize) -> (r: bool)
    requires
        i + needle@.len() <= haystack@.len(),
        haystack@.len() <= usize::MAX,
    ensures
        r == (haystack@.subrange(i as int, i + needle@.len()) == needle@),
{
    let nl = needle.unicode_len();
    let mut j: usize = 0;
    while j < nl
        invariant
            nl == needle@.len(),
            i + nl <= haystack@.len() <= usize::MAX,
            j <= nl,
            forall|k: int| 0 <= k < j ==> haystack@[i + k] == needle@[k],
        decreases nl - j,
    {
        if haystack.get_char(i + j) != needle.get_char(j) {
            proof {
                if haystack@.subrange(i as int, i + needle@.len()) == needle@ {
                    assert(needle@[j as int] == haystack@.subrange(
                        i as int,
                        i + needle@.len(),
                    )[j as int]);
                }
            }
            return false;
        }
        j += 1;
    }
    proof {
        assert(haystack@.subrange(i as int, i + needle@.len()) =~= needle@);
    }
    true
}

/// Whether `needle` occurs anywhere in `haystack`.
pub fn contains_text(haystack: &str, needle: &str) -> (r: bool)
    ensures
        r == seq_contains(haystack@, needle@),
{
    let hl = haystack.unicode_len();
    let nl = needle.unicode_len();
    if nl == 0 {
        proof {
            assert(haystack@.subrange(0, 0) =~= needle@);
            assert(seq_contains_at(haystack@, needle@, 0));
        }
        return true;
    }
    if nl > hl {
        proof {
            assert forall|k: int| !seq_contains_at(haystack@, needle@, k) by {}
        }
        return false;
    }
    let mut i: usize = 0;
    while i <= hl - nl
        invariant
            hl == haystack@.len(),
            nl == needle@.len(),
            1 <= nl <= hl <= usize::MAX,
            i <= hl - nl + 1,
            forall|k: int| 0 <= k < i ==> !seq_contains_at(haystack@, needle@, k),
        decreases hl - nl + 1 - i,
    {
        if matches_at(haystack, needle, i) {
            proof {
                assert(seq_contains_at(haystack@, needle@, i as int));
            }
            return true;
        }
        i += 1;
    }
    proof {
        assert forall|k: int| !seq_contains_at(haystack@, needle@, k) by {
            if 0 <= k < i {
                assert(!seq_contains_at(haystack@, needle@, k));
            }
        }
    }
    false
}

/// Classifies a backend failure by its message: a uniqueness violation
/// (the message names a `unique constraint`) is a conflict; anything else
/// is internal.
pub fn classify_store_failure(message: &str) -> (r: StoreError)
    ensures
        seq_contains(message@, "unique constraint"@) ==> r == StoreError::Conflict,
        !seq_contains(message@, "unique constraint"@) ==> r == StoreError::Internal,
{
    if contains_text(message, "unique constraint") {
        StoreError::Conflict
    } else {
        StoreError::Internal
    }
}

} // verus!
