//! Effectful inputs of record synthesis: the random draw for auxiliary
//! readings and the wall-clock timestamp.

use rand::RngExt;
use vstd::prelude::*;

verus! {

/// Relies on rand's `RngExt::random_range` over `0..bound`: the sample is
/// uniform in the half-open range, so it is strictly below `bound`; the call
/// panics only on an empty range, which `bound > 0` rules out.
#[verifier::external_body]
pub(crate) fn random_below(bound: u8) -> (r: u8)
    requires
        bound > 0,
    ensures
        r < bound,
{
    rand::rng().random_range(0..bound)
}

/// Relies on chrono's `Utc::now` and `DateTime::timestamp_micros`: the number
/// of microseconds since the Unix epoch. The clock decides the value, so
/// nothing is promised of it.
#[verifier::external_body]
pub(crate) fn now_micros() -> i64 {
    chrono::Utc::now().timestamp_micros()
}

} // verus!
