//! The store's clock.

use vstd::prelude::*;

verus! {

/// Relies on `chrono::Utc::now`: the current UTC time in milliseconds
/// since the Unix epoch.  Nothing is assumed of the value.
#[verifier::external_body]
pub(crate) fn now_utc_millis() -> i64 {
    chrono::Utc::now().timestamp_millis()
}

} // verus!
