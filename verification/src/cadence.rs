//! Cadence of the liveness re-checks.
//!
//! Asking whether the editor is still running is expensive, so it is done
//! only once the count of polling cycles since the last check has reached a
//! configured period; every other cycle just advances the count.

use vstd::prelude::*;

verus! {

/// Whether a cycle that starts with `cycles` on the counter performs a fresh
/// liveness check.
pub open spec fn check_due(cycles: int, period: int) -> bool {
    cycles == period
}

/// The counter after one cycle: back to zero when the check ran, one more
/// otherwise.
pub open spec fn cycles_after(cycles: int, period: int) -> int {
    if check_due(cycles, period) {
        0
    } else {
        cycles + 1
    }
}

/// The counter after `n` consecutive cycles.
pub open spec fn cycles_after_n(cycles: int, period: int, n: nat) -> int
    decreases n,
{
    if n == 0 {
        cycles
    } else {
        cycles_after(cycles_after_n(cycles, period, (n - 1) as nat), period)
    }
}

/// How many of `n` consecutive cycles perform a liveness check.
pub open spec fn checks_in(cycles: int, period: int, n: nat) -> nat
    decreases n,
{
    if n == 0 {
        0
    } else {
        let before = (n - 1) as nat;
        let last: nat = if check_due(cycles_after_n(cycles, period, before), period) {
            1
        } else {
            0
        };
        checks_in(cycles, period, before) + last
    }
}

/// What a [`Cadence`] stands for: the cycles counted since the last liveness
/// check and the period after which the next one is due.
pub struct CadenceView {
    pub cycles: int,
    pub period: int,
}

impl CadenceView {
    /// The counter never runs past the period.
    pub open spec fn valid(self) -> bool {
        0 <= self.cycles <= self.period
    }
}

/// Counter of polling cycles since the last liveness check.
#[derive(Clone, Copy, Debug)]
pub struct Cadence {
    cycles: u8,
    period: u8,
}

impl View for Cadence {
    type V = CadenceView;

    closed spec fn view(&self) -> CadenceView {
        CadenceView { cycles: self.cycles as int, period: self.period as int }
    }
}

impl Cadence {
    /// The counter never runs past the period.
    #[verifier::type_invariant]
    pub open spec fn well_formed(self) -> bool {
        self@.valid()
    }

    /// A counter that has already reached `period`, so that the very first
    /// cycle checks liveness.
    pub fn new(period: u8) -> (cadence: Self)
        ensures
            cadence@ == (CadenceView { cycles: period as int, period: period as int }),
    {
        Cadence { cycles: period, period }
    }

    /// Runs one cycle and tells whether a fresh liveness check is due in it.
    pub fn tick(&mut self) -> (due: bool)
        ensures
            due == check_due(old(self)@.cycles, old(self)@.period),
            final(self)@.cycles == cycles_after(old(self)@.cycles, old(self)@.period),
            final(self)@.period == old(self)@.period,
    {
        proof {
            use_type_invariant(&*self);
        }
        if self.cycles == self.period {
            self.cycles = 0;
            true
        } else {
            self.cycles = self.cycles + 1;
            false
        }
    }

    /// Cycles counted since the last liveness check.
    pub fn cycles(&self) -> (cycles: u8)
        ensures
            cycles == self@.cycles,
            self@.valid(),
    {
        proof {
            use_type_invariant(self);
        }
        self.cycles
    }

    /// Number of cycles after which a liveness check is due.
    pub fn period(&self) -> (period: u8)
        ensures
            period == self@.period,
    {
        self.period
    }
}

/// One cycle keeps the counter within the period.
pub proof fn lemma_cycle_stays_valid(cycles: int, period: int)
    requires
        0 <= cycles <= period,
    ensures
        0 <= cycles_after(cycles, period) <= period,
        check_due(cycles, period) ==> cycles_after(cycles, period) == 0,
        !check_due(cycles, period) ==> cycles_after(cycles, period) == cycles + 1,
{
}

/// Where the counter stands, and how many checks have run, after `n` cycles:
/// it climbs to the period without a check, the check then takes it back to
/// zero, and it climbs again.
pub proof fn lemma_cadence_run(cycles: int, period: int, n: nat)
    requires
        0 <= cycles <= period,
        n <= 2 * period - cycles + 1,
    ensures
        n <= period - cycles ==> cycles_after_n(cycles, period, n) == cycles + n && checks_in(
            cycles,
            period,
            n,
        ) == 0,
        n > period - cycles ==> cycles_after_n(cycles, period, n) == n - (period - cycles) - 1
            && checks_in(cycles, period, n) == 1,
    decreases n,
{
    if n > 0 {
        lemma_cadence_run(cycles, period, (n - 1) as nat);
    }
}

/// Among `period` consecutive cycles that start with the counter anywhere
/// from one up to the period, exactly one performs a liveness check: the one
/// that finds the counter at the period. The counter is zero right after it.
pub proof fn lemma_one_check_per_period(cycles: int, period: int)
    requires
        1 <= cycles <= period,
    ensures
        checks_in(cycles, period, period as nat) == 1,
        check_due(cycles_after_n(cycles, period, (period - cycles) as nat), period),
        cycles_after_n(cycles, period, (period - cycles + 1) as nat) == 0,
        forall|k: nat|
            k < period && k != period - cycles ==> !check_due(
                #[trigger] cycles_after_n(cycles, period, k),
                period,
            ),
{
    lemma_cadence_run(cycles, period, period as nat);
    lemma_cadence_run(cycles, period, (period - cycles) as nat);
    lemma_cadence_run(cycles, period, (period - cycles + 1) as nat);
    assert forall|k: nat| k < period && k != period - cycles implies !check_due(
        #[trigger] cycles_after_n(cycles, period, k),
        period,
    ) by {
        lemma_cadence_run(cycles, period, k);
    }
}

/// A full round of `period + 1` consecutive cycles performs exactly one
/// liveness check, wherever the counter stands at its start.
pub proof fn lemma_one_check_per_round(cycles: int, period: int)
    requires
        0 <= cycles <= period,
    ensures
        checks_in(cycles, period, (period + 1) as nat) == 1,
        cycles_after_n(cycles, period, (period + 1) as nat) == cycles,
{
    lemma_cadence_run(cycles, period, (period + 1) as nat);
}

/// With the counter at zero, the next `period` cycles perform no check: the
/// check is due only on the cycle after them.
pub proof fn lemma_no_check_before_period(period: int)
    requires
        0 <= period,
    ensures
        checks_in(0, period, period as nat) == 0,
        check_due(cycles_after_n(0, period, period as nat), period),
{
    lemma_cadence_run(0, period, period as nat);
}

} // verus!
