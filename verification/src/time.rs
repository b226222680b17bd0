use vstd::prelude::*;

verus! {

/// Relies on chrono::Utc::now (and DateTime::timestamp): the current
/// wall-clock time as whole seconds since the Unix epoch. The clock promises
/// nothing about its value, so callers state what holds of any instant.
#[verifier::external_body]
pub(crate) fn now_ts() -> i64 {
    chrono::Utc::now().timestamp()
}

} // verus!
