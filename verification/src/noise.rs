//! The pseudo-random noise source shared by all three channels.

use vstd::prelude::*;

verus! {

/// The noise source: a feedback shift register clocked by its own divisor.
/// On each period crossing the output `level` is toggled by bit 0 of the
/// register, the feedback bit (bit 0 xor bit 3) enters at bit 16, and the
/// register shifts right by one. The output is the toggled accumulator, not
/// the raw register bit.
#[derive(Clone, Copy, PartialEq, Eq, Structural, Debug)]
pub struct NoiseGen {
    pub divisor: u32,
    pub shift: u32,
    pub level: bool,
    pub phase: u32,
}

/// One shift-register step: the feedback bit (bit 0 xor bit 3) is placed at
/// bit 16 before the whole register shifts right.
pub open spec fn noise_step_shift(s: u32) -> u32 {
    if ((s & 1) != 0) != ((s & 8) != 0) {
        (s ^ 0x10000) >> 1
    } else {
        s >> 1
    }
}

/// One output step: the level is toggled by bit 0 of the register.
pub open spec fn noise_step_level(s: u32, l: bool) -> bool {
    l != ((s & 1) != 0)
}

/// Drives the generator from phase accumulator `p`: each period of length `d`
/// peeled off steps the register and the level once. Returns the reduced
/// phase, the final register and the final level.
pub open spec fn noise_adv(p: int, s: u32, l: bool, d: int) -> (int, u32, bool)
    decreases p when d >= 1
{
    if p > d {
        noise_adv(p - d, noise_step_shift(s), noise_step_level(s, l), d)
    } else {
        (p, s, l)
    }
}

/// The generator state after `t` elapsed ticks.
pub open spec fn noise_after(g: NoiseGen, t: u32) -> NoiseGen {
    let a = noise_adv(g.phase + t, g.shift, g.level, g.divisor as int);
    NoiseGen { divisor: g.divisor, shift: a.1, level: a.2, phase: a.0 as u32 }
}

/// A non-zero register stays non-zero and below 2^16 across a step: the
/// feedback bit supplies the new top bit, and a register whose only set bit
/// is bit 0 always feeds back.
pub proof fn lemma_noise_step_wf(s: u32)
    requires
        0 < s < 0x10000,
    ensures
        0 < noise_step_shift(s) < 0x10000,
{
    assert(((s & 1) != 0) != ((s & 8) != 0) ==> 0 < ((s ^ 0x10000) >> 1) < 0x10000)
        by (bit_vector)
        requires 0 < s < 0x10000,
    ;
    assert(((s & 1) != 0) == ((s & 8) != 0) ==> 0 < (s >> 1) < 0x10000)
        by (bit_vector)
        requires 0 < s < 0x10000,
    ;
}

impl NoiseGen {
    /// The divisor is a positive multiple of 32 derived from a 5-bit
    /// frequency value; the register is never zero and fits 16 bits once the
    /// transient feedback bit has been shifted out; the phase never exceeds
    /// the largest possible noise divisor (changing the frequency does not
    /// reset the phase, so it is not always below the current divisor).
    pub open spec fn wf(self) -> bool {
        &&& self.divisor % 32 == 0
        &&& 32 <= self.divisor <= 32 * 31
        &&& 0 < self.shift < 0x10000
        &&& self.phase <= 32 * 31
    }

    pub fn new() -> (r: NoiseGen)
        ensures
            r == (NoiseGen { divisor: 32u32, shift: 1u32, level: false, phase: 0u32 }),
            r.wf(),
    {
        NoiseGen { divisor: 32, shift: 1, level: false, phase: 0 }
    }

    /// Changes the divisor without disturbing the register, the level or the
    /// phase accumulator.
    pub fn set_freq(&mut self, freq: u8)
        requires
            old(self).wf(),
            1 <= freq <= 31,
        ensures
            *final(self) == (NoiseGen {
                divisor: (32 * freq) as u32,
                shift: old(self).shift,
                level: old(self).level,
                phase: old(self).phase,
            }),
            final(self).wf(),
    {
        self.divisor = 32 * (freq as u32);
    }

    /// Advances the generator by `t` elapsed ticks and returns the level.
    pub fn next_sample(&mut self, t: u32) -> (r: bool)
        requires
            old(self).wf(),
            t + 32 * 31 <= u32::MAX,
        ensures
            *final(self) == noise_after(*old(self), t),
            r == noise_after(*old(self), t).level,
            final(self).wf(),
    {
        let ghost orig = *self;
        self.phase = self.phase + t;
        while self.phase > self.divisor
            invariant
                self.divisor == orig.divisor,
                32 <= self.divisor <= 32 * 31,
                0 < self.shift < 0x10000,
                noise_adv(self.phase as int, self.shift, self.level, self.divisor as int)
                    == noise_adv(orig.phase + t, orig.shift, orig.level, orig.divisor as int),
            decreases self.phase,
        {
            self.phase = self.phase - self.divisor;
            let ghost s_pre = self.shift;
            let bit0 = (self.shift & 1) != 0;
            let bit3 = (self.shift & 8) != 0;
            self.level = self.level ^ bit0;
            if bit0 ^ bit3 {
                self.shift = self.shift ^ 0x10000;
            }
            self.shift = self.shift >> 1;
            proof {
                lemma_noise_step_wf(s_pre);
            }
        }
        self.level
    }
}

} // verus!
