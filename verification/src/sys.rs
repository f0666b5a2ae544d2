//! The trusted boundary to the system clock and to the identifier generator.

use vstd::prelude::*;

verus! {

/// Relies on chrono's `Utc::now` and `DateTime::timestamp`: the current
/// wall-clock time in whole seconds since the Unix epoch. The result depends
/// on the clock, so nothing is promised of it.
#[verifier::external_body]
pub(crate) fn now_ts() -> i64 {
    chrono::Utc::now().timestamp()
}

/// Relies on uuid's `Uuid::new_v4` and its `Display` impl: a fresh random
/// identifier in the 36-character hyphenated form. The value is random, so
/// only its length is promised.
#[verifier::external_body]
pub(crate) fn fresh_id() -> (r: String)
    ensures
        r@.len() == 36,
{
    uuid::Uuid::new_v4().to_string()
}

} // verus!
