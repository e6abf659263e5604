//! The injectable random capability: every draw the scheduler makes goes
//! through this interface, so a test can fix the outcome.

use vstd::prelude::*;

verus! {

/// A source of uniform draws. The contract holds of every outcome: a
/// draw lies in the half-open range it was asked from.
pub trait RandomContext {
    fn random_range(&mut self, from: i64, to: i64) -> (r: i64)
        requires
            from < to,
        ensures
            from <= r < to,
    ;
}

/// The process-wide random source.
pub struct ThreadRandom;

impl RandomContext for ThreadRandom {
    fn random_range(&mut self, from: i64, to: i64) -> (r: i64) {
        os_random_range(from, to)
    }
}

/// Relies on rand's `Rng::gen_range` with the thread-local generator: it
/// panics on an empty range and otherwise samples uniformly from
/// `[from, to)`.
#[verifier::external_body]
fn os_random_range(from: i64, to: i64) -> (r: i64)
    requires
        from < to,
    ensures
        from <= r < to,
{
    rand::Rng::gen_range(&mut rand::thread_rng(), from..to)
}

} // verus!
