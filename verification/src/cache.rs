//! The best-effort key/value side-store, keyed by user id.
//!
//! Registration only ever writes to the cache; reads and eviction are
//! outside this library's scope, so the model keeps every write.  A write
//! failure can be injected for the next set, so callers' fire-and-forget
//! handling can be exercised.

use vstd::prelude::*;
use crate::errors::CacheError;

verus! {

/// The cache's contents as mathematical values: key/value pairs in write
/// order.
pub open spec fn cache_view(entries: Seq<(i32, String)>) -> Seq<(int, Seq<char>)> {
    entries.map_values(|e: (i32, String)| (e.0 as int, e.1@))
}

/// The key/value side-store.
pub struct Cache {
    /// The written entries, in write order.
    pub entries: Vec<(i32, String)>,
    /// When set, the next write fails (and clears this flag).
    pub fail_next_set: bool,
}

impl Cache {
    /// An empty cache.
    pub fn new() -> (r: Cache)
        ensures
            r.entries@.len() == 0,
            !r.fail_next_set,
    {
        Cache { entries: Vec::new(), fail_next_set: false }
    }

    /// Injects a failure to be reported by the next set.
    pub fn inject_set_failure(&mut self)
        ensures
            *final(self) == (Cache { fail_next_set: true, ..*old(self) }),
    {
        self.fail_next_set = true;
    }

    /// Writes a value under a key.  The time-to-live is accepted for the
    /// backend's benefit; the model does not evict.  An injected failure
    /// is reported once and leaves the contents untouched.
    pub fn set(&mut self, key: i32, value: String, ttl: Option<u64>) -> (r: Result<(), CacheError>)
        ensures
            !final(self).fail_next_set,
            old(self).fail_next_set ==> r == Err::<(), CacheError>(CacheError::Unavailable)
                && final(self).entries == old(self).entries,
            !old(self).fail_next_set ==> r == Ok::<(), CacheError>(()) && cache_view(
                final(self).entries@,
            ) == cache_view(old(self).entries@).push((key as int, value@)),
    {
        let _ = ttl;
        if self.fail_next_set {
            self.fail_next_set = false;
            return Err(CacheError::Unavailable);
        }
        let ghost pre = self.entries@;
        self.entries.push((key, value));
        proof {
            assert(cache_view(self.entries@) =~= cache_view(pre).push(
                (key as int, self.entries@[pre.len() as int].1@),
            ));
        }
        Ok(())
    }
}

} // verus!
