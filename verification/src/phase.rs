//! Phase accumulation shared by all three generator kinds.
//!
//! Each generator owns a `divisor` (clock ticks per period) and a `phase`
//! accumulator. Elapsed ticks are added to the phase, and whole periods are
//! then peeled off one at a time while the phase still exceeds the divisor.

use vstd::prelude::*;

verus! {

/// The phase accumulator left after peeling whole periods of length `d` off
/// `p` while `p` still exceeds `d`. The result lies in `0..=d` whenever
/// `0 <= p` and `1 <= d` (see `lemma_reduce_phase_range`).
pub open spec fn reduce_phase(p: int, d: int) -> int
    decreases p when d >= 1
{
    if p > d {
        reduce_phase(p - d, d)
    } else {
        p
    }
}

/// How many whole periods of length `d` are peeled off a phase accumulator
/// holding `p`: one for each subtraction `reduce_phase` performs.
pub open spec fn crossings(p: int, d: int) -> int
    decreases p when d >= 1
{
    if p > d {
        1 + crossings(p - d, d)
    } else {
        0
    }
}

pub proof fn lemma_reduce_phase_range(p: int, d: int)
    requires
        0 <= p,
        1 <= d,
    ensures
        0 <= reduce_phase(p, d) <= d,
    decreases p,
{
    if p > d {
        lemma_reduce_phase_range(p - d, d);
    }
}

pub proof fn lemma_crossings_nonneg(p: int, d: int)
    requires
        1 <= d,
    ensures
        0 <= crossings(p, d),
    decreases p,
{
    if p > d {
        lemma_crossings_nonneg(p - d, d);
    }
}

} // verus!
