use vstd::prelude::*;

verus! {

/// Simulated time is counted in ticks of 1/60000 of a second.
pub const TICKS_PER_SECOND: u64 = 60_000;

/// The fixed simulation step: 1/60 of a second.
pub const TIMESTEP: u64 = 1_000;

/// How many whole steps of simulation are owed when the clock reads `now` and the
/// simulation has covered the time up to `elapsed`.
pub open spec fn steps_due(elapsed: u64, now: u64) -> int {
    if now >= elapsed {
        (now - elapsed) / (TIMESTEP as int)
    } else {
        0
    }
}

/// Drains wall-clock time in fixed steps: `elapsed` is the simulated time covered so far.
#[derive(Clone, Copy, Debug, PartialEq, Eq, Structural)]
pub struct FixedStepClock {
    pub elapsed: u64,
}

impl FixedStepClock {
    pub fn new() -> (r: FixedStepClock)
        ensures
            r.elapsed == 0,
    {
        FixedStepClock { elapsed: 0 }
    }

    /// Consumes every whole step between the covered time and `now`, and returns how many
    /// steps of `TIMESTEP` ticks the simulation must run. A clock reading behind the
    /// covered time owes no step.
    pub fn advance(&mut self, now: u64) -> (steps: u64)
        ensures
            steps == steps_due(old(self).elapsed, now),
            final(self).elapsed == old(self).elapsed + steps * TIMESTEP,
            final(self).elapsed <= now || final(self).elapsed == old(self).elapsed,
    {
        if now < self.elapsed {
            return 0;
        }
        let start: u64 = self.elapsed;
        let mut acc: u64 = now - self.elapsed;
        let mut steps: u64 = 0;
        while acc >= TIMESTEP
            invariant
                start <= now,
                self.elapsed == start + steps * TIMESTEP,
                acc + self.elapsed == now,
                steps == (now - start - acc) / (TIMESTEP as int),
                (now - start - acc) % (TIMESTEP as int) == 0,
            decreases acc,
        {
            acc = acc - TIMESTEP;
            self.elapsed = self.elapsed + TIMESTEP;
            steps = steps + 1;
        }
        assert((now - start) / (TIMESTEP as int) == steps);
        steps
    }
}

/// For a clock that has advanced by exactly `k` steps since the covered time, exactly `k`
/// steps are owed.
pub proof fn lemma_fixed_step(elapsed: u64, k: u64)
    requires
        elapsed + k * TIMESTEP <= u64::MAX,
    ensures
        steps_due(elapsed, (elapsed + k * TIMESTEP) as u64) == k,
{
    assert((k * TIMESTEP) / (TIMESTEP as int) == k) by (nonlinear_arith);
}

} // verus!
