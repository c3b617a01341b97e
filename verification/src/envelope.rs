//! The 4-bit amplitude envelope shared by all three channels.

use vstd::prelude::*;

use crate::phase::crossings;
use crate::phase::lemma_crossings_nonneg;

verus! {

/// What the envelope is currently doing: holding at the top or bottom of its
/// range, or ramping up or down one step per period crossing.
#[derive(Clone, Copy, PartialEq, Eq, Structural, Debug)]
pub enum EnvBlock {
    High,
    Low,
    Raise,
    Lower,
}

/// The eight canonical envelope shapes: an initial ramp direction together
/// with what happens once a ramp completes its sixteen steps.
#[derive(Clone, Copy, PartialEq, Eq, Structural, Debug)]
pub enum EnvShape {
    /// One-shot ramp down, then hold low.
    LowerLow,
    /// One-shot ramp up, then settle low.
    RaiseLow,
    /// Ramp down, repeated forever.
    LowerLoop,
    /// Ramp down, then alternate up and down forever.
    LowerRaiseLoop,
    /// One-shot ramp down, then hold high.
    LowerHigh,
    /// Ramp up, repeated forever.
    RaiseLoop,
    /// One-shot ramp up, then hold high.
    RaiseHigh,
    /// Ramp up, then alternate down and up forever.
    RaiseLowerLoop,
}

/// The shape selected by the low nibble of the shape register.
pub open spec fn shape_of(code: u8) -> EnvShape {
    let c = code & 0x0f;
    if c == 0x08 {
        EnvShape::LowerLoop
    } else if c == 0x0a {
        EnvShape::LowerRaiseLoop
    } else if c == 0x0b {
        EnvShape::LowerHigh
    } else if c == 0x0c {
        EnvShape::RaiseLoop
    } else if c == 0x0d {
        EnvShape::RaiseHigh
    } else if c == 0x0e {
        EnvShape::RaiseLowerLoop
    } else if c == 0x04 || c == 0x05 || c == 0x06 || c == 0x07 || c == 0x0f {
        EnvShape::RaiseLow
    } else {
        EnvShape::LowerLow
    }
}

/// The block a shape starts in when the shape register is written.
pub open spec fn init_block(sh: EnvShape) -> EnvBlock {
    match sh {
        EnvShape::LowerLow
        | EnvShape::LowerLoop
        | EnvShape::LowerRaiseLoop
        | EnvShape::LowerHigh => EnvBlock::Lower,
        EnvShape::RaiseLow
        | EnvShape::RaiseLoop
        | EnvShape::RaiseHigh
        | EnvShape::RaiseLowerLoop => EnvBlock::Raise,
    }
}

/// The block entered once a ramp completes its sixteen steps: one-shot shapes
/// settle high or low, single-direction loops restart their ramp, and the
/// alternating loops reverse direction. Only ramp blocks ever reach a
/// transition under an alternating shape, so the hold blocks map arbitrarily
/// there (to `Lower`).
pub open spec fn next_block(sh: EnvShape, b: EnvBlock) -> EnvBlock {
    match sh {
        EnvShape::LowerLow | EnvShape::RaiseLow => EnvBlock::Low,
        EnvShape::LowerHigh | EnvShape::RaiseHigh => EnvBlock::High,
        EnvShape::LowerLoop => EnvBlock::Lower,
        EnvShape::RaiseLoop => EnvBlock::Raise,
        EnvShape::LowerRaiseLoop | EnvShape::RaiseLowerLoop => (match b {
            EnvBlock::Lower => EnvBlock::Raise,
            _ => EnvBlock::Lower,
        }),
    }
}

/// The 4-bit output level of a block at a given step.
pub open spec fn env_level(b: EnvBlock, st: u8) -> u8 {
    match b {
        EnvBlock::Low => 0,
        EnvBlock::High => 15,
        EnvBlock::Raise => st,
        EnvBlock::Lower => (15 - st) as u8,
    }
}

/// Drives the envelope from phase accumulator `p`: each period of length `d`
/// peeled off advances the step counter, and after sixteen steps the block
/// transitions. Returns the reduced phase, the final step and the final
/// block.
pub open spec fn env_adv(p: int, st: u8, b: EnvBlock, sh: EnvShape, d: int) -> (int, u8, EnvBlock)
    decreases p when d >= 1
{
    if p > d {
        if st + 1 == 16 {
            env_adv(p - d, 0, next_block(sh, b), sh, d)
        } else {
            env_adv(p - d, (st + 1) as u8, b, sh, d)
        }
    } else {
        (p, st, b)
    }
}

/// The envelope generator: a divisor and phase accumulator like the
/// oscillators, plus the shape, the step counter and the current block.
#[derive(Clone, Copy, PartialEq, Eq, Structural, Debug)]
pub struct Envelope {
    pub divisor: u32,
    pub phase: u32,
    pub shape: EnvShape,
    pub step: u8,
    pub block: EnvBlock,
}

/// The generator state after `t` elapsed ticks.
pub open spec fn env_after(e: Envelope, t: u32) -> Envelope {
    let a = env_adv(e.phase + t, e.step, e.block, e.shape, e.divisor as int);
    Envelope { divisor: e.divisor, phase: a.0 as u32, shape: e.shape, step: a.1, block: a.2 }
}

/// The 4-bit level reported after `t` elapsed ticks.
pub open spec fn env_out(e: Envelope, t: u32) -> u8 {
    env_level(env_after(e, t).block, env_after(e, t).step)
}

impl Envelope {
    /// The divisor is a positive multiple of 32 derived from a 16-bit
    /// frequency value, the phase stays reduced, the step counter stays below
    /// sixteen, and an alternating shape is always in one of its two ramp
    /// blocks.
    pub open spec fn wf(self) -> bool {
        &&& self.divisor % 32 == 0
        &&& 32 <= self.divisor <= 32 * 65535
        &&& self.phase <= self.divisor
        &&& self.step <= 15
        &&& (self.shape == EnvShape::LowerRaiseLoop || self.shape == EnvShape::RaiseLowerLoop)
            ==> (self.block == EnvBlock::Lower || self.block == EnvBlock::Raise)
    }

    /// The power-on state is the one that writing the zeroed envelope
    /// registers produces: divisor 32, shape zero, standing at the first
    /// step of that shape's initial block. A freshly built generator is
    /// therefore indistinguishable from one restored by replaying a zeroed
    /// register file.
    pub fn new() -> (r: Envelope)
        ensures
            r == (Envelope {
                divisor: 32u32,
                phase: 0u32,
                shape: EnvShape::LowerLow,
                step: 0u8,
                block: EnvBlock::Lower,
            }),
            r.wf(),
    {
        Envelope {
            divisor: 32,
            phase: 0,
            shape: EnvShape::LowerLow,
            step: 0,
            block: EnvBlock::Lower,
        }
    }

    /// Reprograms the envelope: the divisor is rederived, the ramp restarts
    /// from step zero, and the shape and its initial block come from the low
    /// nibble of the shape byte.
    pub fn set_freq_shape(&mut self, freq: u16, shape: u8)
        requires
            1 <= freq,
        ensures
            *final(self) == (Envelope {
                divisor: (32 * freq) as u32,
                phase: 0u32,
                shape: shape_of(shape),
                step: 0u8,
                block: init_block(shape_of(shape)),
            }),
            final(self).wf(),
    {
        self.divisor = 32 * (freq as u32);
        self.phase = 0;
        self.step = 0;
        let c = shape & 0x0f;
        proof {
            assert(shape & 0x0f <= 15) by (bit_vector);
        }
        let (sh, b) = match c {
            0x00 | 0x01 | 0x02 | 0x03 | 0x09 => (EnvShape::LowerLow, EnvBlock::Lower),
            0x04 | 0x05 | 0x06 | 0x07 | 0x0f => (EnvShape::RaiseLow, EnvBlock::Raise),
            0x08 => (EnvShape::LowerLoop, EnvBlock::Lower),
            0x0a => (EnvShape::LowerRaiseLoop, EnvBlock::Lower),
            0x0b => (EnvShape::LowerHigh, EnvBlock::Lower),
            0x0c => (EnvShape::RaiseLoop, EnvBlock::Raise),
            0x0d => (EnvShape::RaiseHigh, EnvBlock::Raise),
            _ => (EnvShape::RaiseLowerLoop, EnvBlock::Raise),
        };
        self.shape = sh;
        self.block = b;
    }

    /// Advances the envelope by `t` elapsed ticks and returns the 4-bit
    /// level.
    pub fn next_sample(&mut self, t: u32) -> (r: u8)
        requires
            old(self).wf(),
            t + old(self).divisor <= u32::MAX,
        ensures
            *final(self) == env_after(*old(self), t),
            r == env_out(*old(self), t),
            r <= 15,
            final(self).wf(),
    {
        let ghost orig = *self;
        self.phase = self.phase + t;
        while self.phase > self.divisor
            invariant
                self.divisor == orig.divisor,
                self.shape == orig.shape,
                32 <= self.divisor,
                self.step <= 15,
                (self.shape == EnvShape::LowerRaiseLoop || self.shape == EnvShape::RaiseLowerLoop)
                    ==> (self.block == EnvBlock::Lower || self.block == EnvBlock::Raise),
                env_adv(self.phase as int, self.step, self.block, self.shape, self.divisor as int)
                    == env_adv(orig.phase + t, orig.step, orig.block, orig.shape, orig.divisor as int),
            decreases self.phase,
        {
            self.phase = self.phase - self.divisor;
            self.step = self.step + 1;
            if self.step == 16 {
                self.step = 0;
                self.block = match self.shape {
                    EnvShape::LowerLow | EnvShape::RaiseLow => EnvBlock::Low,
                    EnvShape::LowerHigh | EnvShape::RaiseHigh => EnvBlock::High,
                    EnvShape::LowerLoop => EnvBlock::Lower,
                    EnvShape::RaiseLoop => EnvBlock::Raise,
                    EnvShape::LowerRaiseLoop | EnvShape::RaiseLowerLoop => match self.block {
                        EnvBlock::Lower => EnvBlock::Raise,
                        _ => EnvBlock::Lower,
                    },
                };
            }
        }
        match self.block {
            EnvBlock::Low => 0,
            EnvBlock::High => 15,
            EnvBlock::Raise => self.step,
            EnvBlock::Lower => 15 - self.step,
        }
    }
}

/// Law: under the repeating ramp-down shape the block never leaves the
/// downward ramp, the step advances by one per period crossing modulo
/// sixteen, and so the level runs 15, 14, ..., 0 and wraps back to 15,
/// cycling with period sixteen.
pub proof fn lemma_ramp_down_loop(p: int, st: u8, d: int)
    requires
        1 <= d,
        st <= 15,
    ensures
        ({
            let a = env_adv(p, st, EnvBlock::Lower, EnvShape::LowerLoop, d);
            &&& a.2 == EnvBlock::Lower
            &&& a.1 == (st + crossings(p, d)) % 16
            &&& env_level(a.2, a.1) == 15 - (st + crossings(p, d)) % 16
        }),
    decreases p,
{
    if p > d {
        lemma_crossings_nonneg(p - d, d);
        if st == 15 {
            lemma_ramp_down_loop(p - d, 0, d);
            assert((16 + crossings(p - d, d)) % 16 == crossings(p - d, d) % 16)
                by (nonlinear_arith)
                requires 0 <= crossings(p - d, d),
            ;
        } else {
            lemma_ramp_down_loop(p - d, (st + 1) as u8, d);
        }
    }
}

} // verus!
