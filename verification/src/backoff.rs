//! Adaptive backoff for the polling interval.
//!
//! While the editor or the chat client is unavailable the base poll interval
//! is scaled by a multiplier that doubles on every "not ready" observation,
//! up to a cap, and drops back to one as soon as both are ready again.

use vstd::arithmetic::power2::{lemma2_to64, lemma_pow2_strictly_increases, lemma_pow2_unfold, pow2};
use vstd::math::min;
use vstd::prelude::*;

verus! {

/// Largest factor by which the base poll interval is ever scaled.
pub const MAX_MULTIPLIER: u64 = 8;

/// The values a multiplier can take: the powers of two up to the cap.
pub open spec fn is_multiplier(m: int) -> bool {
    m == 1 || m == 2 || m == 4 || m == 8
}

/// The multiplier that follows `m` after one more "not ready" observation.
pub open spec fn increased(m: int) -> int {
    min(2 * m, MAX_MULTIPLIER as int)
}

/// The multiplier reached from `m` after `n` consecutive "not ready"
/// observations.
pub open spec fn increased_n(m: int, n: nat) -> int
    decreases n,
{
    if n == 0 {
        m
    } else {
        increased(increased_n(m, (n - 1) as nat))
    }
}

/// The factor by which the poll interval is currently scaled.
#[derive(Clone, Copy, Debug)]
pub struct Backoff {
    multiplier: u64,
}

impl View for Backoff {
    type V = int;

    closed spec fn view(&self) -> int {
        self.multiplier as int
    }
}

impl Backoff {
    /// The multiplier is always one of the allowed values.
    #[verifier::type_invariant]
    pub open spec fn well_formed(self) -> bool {
        is_multiplier(self@)
    }

    /// A backoff at its resting value of one.
    pub fn new() -> (backoff: Self)
        ensures
            backoff@ == 1,
    {
        Backoff { multiplier: 1 }
    }

    /// Records one "not ready" observation: the multiplier doubles, up to
    /// [`MAX_MULTIPLIER`].
    pub fn increase(&mut self)
        ensures
            final(self)@ == increased(old(self)@),
    {
        proof {
            use_type_invariant(&*self);
        }
        let doubled: u64 = self.multiplier * 2;
        self.multiplier = if doubled < MAX_MULTIPLIER {
            doubled
        } else {
            MAX_MULTIPLIER
        };
    }

    /// Records that both endpoints are ready: the multiplier is one again.
    pub fn reset(&mut self)
        ensures
            final(self)@ == 1,
    {
        self.multiplier = 1;
    }

    /// The current multiplier.
    pub fn multiplier(&self) -> (m: u64)
        ensures
            m == self@,
            is_multiplier(self@),
    {
        proof {
            use_type_invariant(self);
        }
        self.multiplier
    }

    /// `interval` scaled by the current multiplier.
    pub fn scale(&self, interval: u64) -> (scaled: u64)
        requires
            interval * MAX_MULTIPLIER <= u64::MAX,
        ensures
            scaled == interval * self@,
    {
        proof {
            use_type_invariant(self);
            assert(interval * self.multiplier <= interval * MAX_MULTIPLIER) by (nonlinear_arith)
                requires
                    self.multiplier <= MAX_MULTIPLIER,
            ;
        }
        interval * self.multiplier
    }
}

/// Doubling keeps a multiplier among the allowed values and never lowers it.
pub proof fn lemma_increased_is_multiplier(m: int)
    requires
        is_multiplier(m),
    ensures
        is_multiplier(increased(m)),
        m <= increased(m) <= MAX_MULTIPLIER,
{
}

/// After `n` consecutive "not ready" observations, starting from the resting
/// value, the multiplier is `min(2^n, 8)`.
pub proof fn lemma_backoff_cap(n: nat)
    ensures
        increased_n(1, n) == min(pow2(n) as int, MAX_MULTIPLIER as int),
    decreases n,
{
    lemma2_to64();
    if n > 0 {
        let k = (n - 1) as nat;
        lemma_backoff_cap(k);
        lemma_pow2_unfold(n);
        if k > 3 {
            lemma_pow2_strictly_increases(3, k);
        }
    }
}

/// The multiplier only grows during a run of "not ready" observations, and
/// stays among the allowed values.
pub proof fn lemma_increased_n_monotonic(m: int, n: nat)
    requires
        is_multiplier(m),
    ensures
        is_multiplier(increased_n(m, n)),
        m <= increased_n(m, n),
        n > 0 ==> increased_n(m, (n - 1) as nat) <= increased_n(m, n),
    decreases n,
{
    if n > 0 {
        lemma_increased_n_monotonic(m, (n - 1) as nat);
    }
}

} // verus!
