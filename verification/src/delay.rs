//! How long to wait between two requests.

use rand::Rng;
use vstd::prelude::*;

verus! {

/// The bounds, in milliseconds, between which the wait before the next
/// request is drawn. The lower bound is never above the upper one.
#[derive(Clone, Copy, Debug, PartialEq, Eq)]
pub struct DelayPolicy {
    min_ms: u64,
    max_ms: u64,
}

/// Draws a number between two bounds with `rand::Rng::gen_range` on the
/// generator that `rand::thread_rng` hands out. The contract claims that the
/// number lies between the bounds, both included; which number it is depends
/// on chance. `gen_range` panics on an empty range, which `requires` leaves
/// out. The generator seeds itself from the operating system when a thread
/// first uses it, and panics where the system gives it no seed; nothing here
/// can rule that out.
#[verifier::external_body]
fn draw_between(low: u64, high: u64) -> (drawn: u64)
    requires
        low <= high,
    ensures
        low <= drawn <= high,
{
    rand::thread_rng().gen_range(low..=high)
}

impl DelayPolicy {
    #[verifier::type_invariant]
    spec fn ordered(self) -> bool {
        self.min_ms <= self.max_ms
    }

    /// The shortest wait, in milliseconds.
    pub closed spec fn min(self) -> u64 {
        self.min_ms
    }

    /// The longest wait, in milliseconds.
    pub closed spec fn max(self) -> u64 {
        self.max_ms
    }

    /// A policy with the given bounds, if the lower is not above the upper.
    pub fn new(min_ms: u64, max_ms: u64) -> (policy: Option<DelayPolicy>)
        ensures
            policy is Some <==> min_ms <= max_ms,
            policy matches Some(p) ==> p.min() == min_ms && p.max() == max_ms,
    {
        if min_ms <= max_ms {
            Some(DelayPolicy { min_ms, max_ms })
        } else {
            None
        }
    }

    /// The waits that keep the server from taking the run for abuse: between
    /// 800 and 1500 milliseconds.
    pub fn polite() -> (policy: DelayPolicy)
        ensures
            policy.min() == 800,
            policy.max() == 1500,
    {
        DelayPolicy { min_ms: 800, max_ms: 1500 }
    }

    /// No wait at all.
    pub fn none() -> (policy: DelayPolicy)
        ensures
            policy.min() == 0,
            policy.max() == 0,
    {
        DelayPolicy { min_ms: 0, max_ms: 0 }
    }

    /// The lower bound.
    pub fn min_ms(&self) -> (ms: u64)
        ensures
            ms == self.min(),
    {
        self.min_ms
    }

    /// The upper bound.
    pub fn max_ms(&self) -> (ms: u64)
        ensures
            ms == self.max(),
    {
        self.max_ms
    }

    /// Draws the length of the next wait, in milliseconds. Which length comes
    /// out depends on chance; it is always within the bounds.
    pub fn sample(&self) -> (ms: u64)
        ensures
            self.min() <= ms <= self.max(),
    {
        proof {
            use_type_invariant(self);
        }
        draw_between(self.min_ms, self.max_ms)
    }
}

} // verus!
