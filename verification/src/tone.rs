//! The square-wave tone oscillator, one per channel.

use vstd::prelude::*;

use crate::phase::{lemma_reduce_phase_range, reduce_phase};

verus! {

/// A square-wave oscillator driven by a 12-bit frequency value. The divisor
/// is 32 ticks per unit of frequency; the output is high during the first
/// half of each period, giving a 50%-duty square wave.
#[derive(Clone, Copy, PartialEq, Eq, Structural, Debug)]
pub struct FreqGen {
    pub divisor: u32,
    pub phase: u32,
}

/// The oscillator state after `t` elapsed ticks: the divisor is kept and the
/// phase accumulator is reduced back below (or onto) the divisor.
pub open spec fn tone_after(g: FreqGen, t: u32) -> FreqGen {
    FreqGen { divisor: g.divisor, phase: reduce_phase(g.phase + t, g.divisor as int) as u32 }
}

/// The output bit after `t` elapsed ticks: high while the reduced phase is in
/// the first half of the period.
pub open spec fn tone_bit(g: FreqGen, t: u32) -> bool {
    tone_after(g, t).phase < g.divisor / 2
}

impl FreqGen {
    /// The divisor is a positive multiple of 32 derived from a 12-bit
    /// frequency value, and the phase stays reduced.
    pub open spec fn wf(self) -> bool {
        &&& self.divisor % 32 == 0
        &&& 32 <= self.divisor <= 32 * 4095
        &&& self.phase <= self.divisor
    }

    pub fn new() -> (r: FreqGen)
        ensures
            r == (FreqGen { divisor: 32u32, phase: 0u32 }),
            r.wf(),
    {
        FreqGen { divisor: 32, phase: 0 }
    }

    /// Any change to the frequency restarts the waveform from the beginning
    /// of its cycle.
    pub fn set_freq(&mut self, freq: u16)
        requires
            1 <= freq <= 4095,
        ensures
            *final(self) == (FreqGen { divisor: (32 * freq) as u32, phase: 0u32 }),
            final(self).wf(),
    {
        self.divisor = 32 * (freq as u32);
        self.phase = 0;
    }

    /// Advances the oscillator by `t` elapsed ticks and reports whether the
    /// output is in the high half of its period.
    pub fn next_sample(&mut self, t: u32) -> (r: bool)
        requires
            old(self).wf(),
            t + old(self).divisor <= u32::MAX,
        ensures
            *final(self) == tone_after(*old(self), t),
            r == tone_bit(*old(self), t),
            final(self).wf(),
    {
        let ghost orig = *self;
        self.phase = self.phase + t;
        while self.phase > self.divisor
            invariant
                self.divisor == orig.divisor,
                32 <= self.divisor,
                reduce_phase(self.phase as int, self.divisor as int) == reduce_phase(
                    orig.phase + t,
                    orig.divisor as int,
                ),
            decreases self.phase,
        {
            self.phase = self.phase - self.divisor;
        }
        proof {
            lemma_reduce_phase_range(orig.phase + t, orig.divisor as int);
        }
        self.phase < self.divisor / 2
    }
}

} // verus!
