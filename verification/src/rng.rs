//! The two calls into the process-wide random generator stream.
//!
//! Only the range of each draw is stated: every verified function that
//! uses a draw takes it as a plain value and is proved for every value
//! in the range.

use vstd::prelude::*;
use rand::Rng;

verus! {

/// Relies on `rand::Rng::gen_range` over `low..high` (rand 0.8, via
/// `rand::thread_rng`): returns a uniform sample of the half-open
/// range, and panics only when the range is empty, which the
/// precondition excludes.
#[verifier::external_body]
pub(crate) fn sample_range(low: i64, high: i64) -> (r: i64)
    requires
        low < high,
    ensures
        low <= r < high,
{
    rand::thread_rng().gen_range(low..high)
}

/// Relies on `rand::Rng::gen_ratio(1, 2)` (rand 0.8, via
/// `rand::thread_rng`): a fair coin.  With these constant arguments
/// the call cannot panic; nothing is promised of the outcome.
#[verifier::external_body]
pub(crate) fn sample_coin() -> bool {
    rand::thread_rng().gen_ratio(1, 2)
}

} // verus!
