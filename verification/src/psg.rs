//! The sound controller: the register file, the mixer and the combined
//! sample output, tying the three tone oscillators, the noise source and the
//! envelope together behind a port-mapped register interface.

use vstd::prelude::*;

use crate::envelope::{env_after, env_out, init_block, shape_of, EnvBlock, Envelope, EnvShape};
use crate::noise::{noise_after, NoiseGen};
use crate::tone::{tone_after, tone_bit, FreqGen};

verus! {

/// The 12-bit tone period assembled from a fine register and the low nibble
/// of its coarse register, with zero driven as one.
pub open spec fn freq12_spec(lo: u8, hi: u8) -> int {
    let n = lo + 256 * (hi & 0x0f);
    if n == 0 {
        1
    } else {
        n
    }
}

/// The 16-bit envelope period assembled from a fine and a coarse register,
/// with zero driven as one.
pub open spec fn freq16_spec(lo: u8, hi: u8) -> int {
    let n = lo + 256 * hi;
    if n == 0 {
        1
    } else {
        n
    }
}

/// The 5-bit noise period, with zero driven as one.
pub open spec fn noise_freq_spec(v: u8) -> int {
    let n = (v & 0x1f) as int;
    if n == 0 {
        1
    } else {
        n
    }
}

/// What a register read returns: registers narrower than eight bits hand
/// back only the bits the chip actually stores. The coarse tone registers
/// and the envelope shape keep four bits; the noise period and the three
/// volume registers keep five.
pub open spec fn masked_reg(sel: u8, v: u8) -> u8 {
    if sel == 0x01 || sel == 0x03 || sel == 0x05 || sel == 0x0d {
        v & 0x0f
    } else if sel == 0x06 || sel == 0x08 || sel == 0x09 || sel == 0x0a {
        v & 0x1f
    } else {
        v
    }
}

/// A mixer path is enabled when its disable bit is clear.
pub open spec fn mix_enabled(mix: u8, mask: u8) -> bool {
    mix & mask == 0
}

/// Whether any channel currently mixes the noise source in; only then is the
/// noise generator advanced.
pub open spec fn noise_on(mix: u8) -> bool {
    mix_enabled(mix, 0x08) || mix_enabled(mix, 0x10) || mix_enabled(mix, 0x20)
}

/// The mixer truth table for one channel: with both paths enabled the tone
/// and noise bits are ANDed, with one path enabled that bit passes through,
/// and with neither enabled the channel contributes unconditionally.
pub open spec fn channel_out(tone_en: bool, noise_en: bool, tone: bool, noise: bool) -> bool {
    if tone_en {
        if noise_en {
            tone && noise
        } else {
            tone
        }
    } else if noise_en {
        noise
    } else {
        true
    }
}

/// Which 4-bit level a channel plays: with bit 4 of its volume register set
/// the envelope level, otherwise the low nibble of the register itself.
pub open spec fn vol_index(v: u8, env: u8) -> u8 {
    if v & 0x10 != 0 {
        env
    } else {
        v & 0x0f
    }
}

/// The non-linear amplitude table: each 4-bit level is about square root of
/// two below the next, offset so that the curve starts near zero.
pub open spec fn level_amp(i: int) -> u16 {
    if i == 0 {
        5
    } else if i == 1 {
        7
    } else if i == 2 {
        12
    } else if i == 3 {
        20
    } else if i == 4 {
        33
    } else if i == 5 {
        55
    } else if i == 6 {
        91
    } else if i == 7 {
        150
    } else if i == 8 {
        247
    } else if i == 9 {
        408
    } else if i == 10 {
        672
    } else if i == 11 {
        1109
    } else if i == 12 {
        1828
    } else if i == 13 {
        3014
    } else if i == 14 {
        4969
    } else {
        8192
    }
}

/// The programmable sound generator: sixteen byte-wide registers, the
/// selected register index, three tone oscillators, the shared noise source
/// and the shared envelope.
pub struct Psg {
    /// The selected register, read or written next.
    pub reg_sel: u8,
    /// The sixteen byte-wide registers.
    pub reg: [u8; 16],
    /// The tone oscillator of channel A.
    pub freq_a: FreqGen,
    /// The tone oscillator of channel B.
    pub freq_b: FreqGen,
    /// The tone oscillator of channel C.
    pub freq_c: FreqGen,
    /// The noise source shared by all channels.
    pub noise: NoiseGen,
    /// The envelope generator shared by all channels.
    pub envelope: Envelope,
}

/// The whole controller state after one sample advance of `t` ticks: every
/// tone oscillator and the envelope always advance, while the noise source
/// advances only when some channel currently mixes it in.
pub open spec fn psg_after(s: Psg, t: u32) -> Psg {
    Psg {
        reg_sel: s.reg_sel,
        reg: s.reg,
        freq_a: tone_after(s.freq_a, t),
        freq_b: tone_after(s.freq_b, t),
        freq_c: tone_after(s.freq_c, t),
        noise: if noise_on(s.reg@[7]) {
            noise_after(s.noise, t)
        } else {
            s.noise
        },
        envelope: env_after(s.envelope, t),
    }
}

/// The combined sample produced by one advance of `t` ticks: each channel
/// passes its tone and the (possibly stale) noise bit through the mixer
/// truth table, picks its 4-bit level directly or from the envelope, maps it
/// through the amplitude table, and the enabled channels are summed.
pub open spec fn sample_of(s: Psg, t: u32) -> int {
    let mix = s.reg@[7];
    let nbit = if noise_on(mix) {
        noise_after(s.noise, t).level
    } else {
        false
    };
    let env = env_out(s.envelope, t);
    let ca = channel_out(mix_enabled(mix, 0x01), mix_enabled(mix, 0x08), tone_bit(s.freq_a, t), nbit);
    let cb = channel_out(mix_enabled(mix, 0x02), mix_enabled(mix, 0x10), tone_bit(s.freq_b, t), nbit);
    let cc = channel_out(mix_enabled(mix, 0x04), mix_enabled(mix, 0x20), tone_bit(s.freq_c, t), nbit);
    (if ca {
        level_amp(vol_index(s.reg@[8], env) as int) as int
    } else {
        0
    }) + (if cb {
        level_amp(vol_index(s.reg@[9], env) as int) as int
    } else {
        0
    }) + (if cc {
        level_amp(vol_index(s.reg@[10], env) as int) as int
    } else {
        0
    })
}

/// Bounds on the masked nibble and five-bit fields of a register byte.
proof fn lemma_mask_bounds(x: u8)
    by (bit_vector)
    ensures
        x & 0x0f <= 15,
        x & 0x1f <= 31,
{
}

impl Psg {
    /// Every generator is well formed and its parameters agree with the
    /// register file: each register write recomputes the generators it
    /// affects, so the frequencies and the envelope shape are always exactly
    /// what the registers decode to.
    pub open spec fn inv(self) -> bool {
        &&& self.reg_sel < 16
        &&& self.freq_a.wf()
        &&& self.freq_a.divisor == 32 * freq12_spec(self.reg@[0], self.reg@[1])
        &&& self.freq_b.wf()
        &&& self.freq_b.divisor == 32 * freq12_spec(self.reg@[2], self.reg@[3])
        &&& self.freq_c.wf()
        &&& self.freq_c.divisor == 32 * freq12_spec(self.reg@[4], self.reg@[5])
        &&& self.noise.wf()
        &&& self.noise.divisor == 32 * noise_freq_spec(self.reg@[6])
        &&& self.envelope.wf()
        &&& self.envelope.divisor == 32 * freq16_spec(self.reg@[11], self.reg@[12])
        &&& self.envelope.shape == shape_of(self.reg@[13])
    }

    /// A fresh controller: all registers zero, register zero selected, every
    /// generator in its power-on state. That state is exactly what replaying
    /// the zeroed register file produces, so a fresh controller is already
    /// `pristine` and the snapshot round-trip law covers it.
    pub fn new() -> (r: Psg)
        ensures
            r.inv(),
            r.pristine(),
            r.reg_sel == 0,
            forall|i: int| 0 <= i < 16 ==> r.reg@[i] == 0,
            r.freq_a == (FreqGen { divisor: 32u32, phase: 0u32 }),
            r.freq_b == (FreqGen { divisor: 32u32, phase: 0u32 }),
            r.freq_c == (FreqGen { divisor: 32u32, phase: 0u32 }),
            r.noise == (NoiseGen { divisor: 32u32, shift: 1u32, level: false, phase: 0u32 }),
            r.envelope == (Envelope {
                divisor: 32u32,
                phase: 0u32,
                shape: EnvShape::LowerLow,
                step: 0u8,
                block: EnvBlock::Lower,
            }),
    {
        let r = Psg {
            reg_sel: 0,
            reg: [0; 16],
            freq_a: FreqGen::new(),
            freq_b: FreqGen::new(),
            freq_c: FreqGen::new(),
            noise: NoiseGen::new(),
            envelope: Envelope::new(),
        };
        proof {
            assert(0u8 & 0x0f == 0) by (bit_vector);
            assert(0u8 & 0x1f == 0) by (bit_vector);
        }
        r
    }

    /// Changes the selected register; an index above fifteen is ignored and
    /// the selection is left as it was.
    pub fn select_reg(&mut self, reg: u8)
        requires
            old(self).inv(),
        ensures
            final(self).inv(),
            final(self).reg_sel == (if reg < 16 {
                reg
            } else {
                old(self).reg_sel
            }),
            final(self).reg == old(self).reg,
            final(self).freq_a == old(self).freq_a,
            final(self).freq_b == old(self).freq_b,
            final(self).freq_c == old(self).freq_c,
            final(self).noise == old(self).noise,
            final(self).envelope == old(self).envelope,
    {
        if reg < 16 {
            self.reg_sel = reg;
        }
    }

    /// Reads the selected register without side effects, masked down to the
    /// bits the chip stores for that register.
    pub fn read_reg(&self) -> (r: u8)
        requires
            self.inv(),
        ensures
            r == masked_reg(self.reg_sel, self.reg@[self.reg_sel as int]),
    {
        let r = self.reg[self.reg_sel as usize];
        match self.reg_sel {
            0x01 | 0x03 | 0x05 | 0x0d => r & 0x0f,
            0x06 | 0x08 | 0x09 | 0x0a => r & 0x1f,
            _ => r,
        }
    }

    /// Stores `x` in the selected register and unconditionally recomputes
    /// the generators that register feeds: the tone pairs, the noise period,
    /// and the envelope period and shape. The mixer, volume and I/O-port
    /// registers are consumed during sampling and have no decode step.
    pub fn write_reg(&mut self, x: u8)
        requires
            old(self).inv(),
        ensures
            final(self).inv(),
            final(self).reg_sel == old(self).reg_sel,
            final(self).reg@ == old(self).reg@.update(old(self).reg_sel as int, x),
            final(self).freq_a == (if old(self).reg_sel == 0 || old(self).reg_sel == 1 {
                FreqGen {
                    divisor: (32 * freq12_spec(final(self).reg@[0], final(self).reg@[1])) as u32,
                    phase: 0u32,
                }
            } else {
                old(self).freq_a
            }),
            final(self).freq_b == (if old(self).reg_sel == 2 || old(self).reg_sel == 3 {
                FreqGen {
                    divisor: (32 * freq12_spec(final(self).reg@[2], final(self).reg@[3])) as u32,
                    phase: 0u32,
                }
            } else {
                old(self).freq_b
            }),
            final(self).freq_c == (if old(self).reg_sel == 4 || old(self).reg_sel == 5 {
                FreqGen {
                    divisor: (32 * freq12_spec(final(self).reg@[4], final(self).reg@[5])) as u32,
                    phase: 0u32,
                }
            } else {
                old(self).freq_c
            }),
            final(self).noise == (if old(self).reg_sel == 6 {
                NoiseGen {
                    divisor: (32 * noise_freq_spec(final(self).reg@[6])) as u32,
                    shift: old(self).noise.shift,
                    level: old(self).noise.level,
                    phase: old(self).noise.phase,
                }
            } else {
                old(self).noise
            }),
            final(self).envelope == (if old(self).reg_sel == 11 || old(self).reg_sel == 12
                || old(self).reg_sel == 13 {
                Envelope {
                    divisor: (32 * freq16_spec(final(self).reg@[11], final(self).reg@[12])) as u32,
                    phase: 0u32,
                    shape: shape_of(final(self).reg@[13]),
                    step: 0u8,
                    block: init_block(shape_of(final(self).reg@[13])),
                }
            } else {
                old(self).envelope
            }),
    {
        let sel = self.reg_sel;
        self.reg[sel as usize] = x;
        match sel {
            0x00 | 0x01 => {
                let freq = Self::freq_12(self.reg[0], self.reg[1]);
                self.freq_a.set_freq(freq);
            }
            0x02 | 0x03 => {
                let freq = Self::freq_12(self.reg[2], self.reg[3]);
                self.freq_b.set_freq(freq);
            }
            0x04 | 0x05 => {
                let freq = Self::freq_12(self.reg[4], self.reg[5]);
                self.freq_c.set_freq(freq);
            }
            0x06 => {
                let v = self.reg[6] & 0x1f;
                proof {
                    lemma_mask_bounds(self.reg@[6]);
                }
                let freq = if v == 0 {
                    1
                } else {
                    v
                };
                self.noise.set_freq(freq);
            }
            0x0b | 0x0c | 0x0d => {
                let freq = Self::freq_16(self.reg[11], self.reg[12]);
                let shape = self.reg[13];
                self.envelope.set_freq_shape(freq, shape);
            }
            _ => {}
        }
    }

    /// A state that register writes alone can produce: every oscillator sits
    /// at the start of its cycle, the noise register holds its power-on
    /// value, and the envelope stands at the first step of the initial block
    /// of its programmed shape. `new` starts in such a state, register
    /// selects and writes keep it, and `load_snapshot` always leaves the
    /// controller in it.
    pub open spec fn pristine(self) -> bool {
        &&& self.freq_a.phase == 0
        &&& self.freq_b.phase == 0
        &&& self.freq_c.phase == 0
        &&& self.noise.shift == 1
        &&& self.noise.level == false
        &&& self.noise.phase == 0
        &&& self.envelope.phase == 0
        &&& self.envelope.step == 0
        &&& self.envelope.block == init_block(self.envelope.shape)
    }

    /// Serialises the persisted state: the selected index followed by the
    /// sixteen register bytes in index order. Generator internals (phases,
    /// the noise register, the envelope position) are deliberately not
    /// saved; they are rederived on restore by replaying the registers.
    pub fn snapshot(&self) -> (r: Vec<u8>)
        ensures
            r@.len() == 17,
            r@[0] == self.reg_sel,
            forall|i: int| 0 <= i < 16 ==> r@[i + 1] == self.reg@[i],
    {
        let mut out: Vec<u8> = Vec::new();
        out.push(self.reg_sel);
        let mut i: usize = 0;
        while i < 16
            invariant
                i <= 16,
                out@.len() == i + 1,
                out@[0] == self.reg_sel,
                forall|j: int| 0 <= j < i ==> out@[j + 1] == self.reg@[j],
            decreases 16 - i,
        {
            out.push(self.reg[i]);
            i = i + 1;
        }
        out
    }

    /// Rebuilds a controller from a snapshot by replaying each register byte
    /// through a normal write — so every generator is reconfigured by the
    /// usual decode side effects — and then restoring the selected index,
    /// which the replay itself disturbed. The selected-index byte must be a
    /// valid register index, as `snapshot` always records.
    pub fn load_snapshot(data: &Vec<u8>) -> (r: Psg)
        requires
            data@.len() >= 17,
            data@[0] < 16,
        ensures
            r.inv(),
            r.pristine(),
            r.reg_sel == data@[0],
            forall|i: int| 0 <= i < 16 ==> r.reg@[i] == data@[i + 1],
    {
        let mut psg = Psg::new();
        let mut i: usize = 0;
        while i < 16
            invariant
                i <= 16,
                data@.len() >= 17,
                psg.inv(),
                psg.freq_a.phase == 0,
                psg.freq_b.phase == 0,
                psg.freq_c.phase == 0,
                psg.noise.shift == 1,
                psg.noise.level == false,
                psg.noise.phase == 0,
                psg.envelope.phase == 0,
                psg.envelope.step == 0,
                psg.envelope.block == init_block(psg.envelope.shape),
                forall|j: int| 0 <= j < i ==> psg.reg@[j] == data@[j + 1],
                forall|j: int| i <= j < 16 ==> psg.reg@[j] == 0,
            decreases 16 - i,
        {
            psg.reg_sel = i as u8;
            psg.write_reg(data[i + 1]);
            i = i + 1;
        }
        psg.reg_sel = data[0];
        psg
    }

    /// Produces one combined sample after `t` elapsed ticks. The mixer
    /// register (seven) is read as six active-low enable bits; the tone
    /// oscillators and the envelope always advance, the noise source only
    /// when some channel mixes it in. The sum of up to three amplitudes is
    /// at most 24576 and fits comfortably in sixteen bits.
    pub fn next_sample(&mut self, t: u32) -> (r: u16)
        requires
            old(self).inv(),
            t + 32 * 65535 <= u32::MAX,
        ensures
            final(self).inv(),
            *final(self) == psg_after(*old(self), t),
            r == sample_of(*old(self), t),
            r <= 24576,
    {
        let mix = self.reg[7];
        let tone_a = (mix & 0x01) == 0;
        let tone_b = (mix & 0x02) == 0;
        let tone_c = (mix & 0x04) == 0;
        let noise_a = (mix & 0x08) == 0;
        let noise_b = (mix & 0x10) == 0;
        let noise_c = (mix & 0x20) == 0;

        // The noise source is advanced only while some channel asks for it;
        // its phase deliberately stands still otherwise.
        let noise = if noise_a || noise_b || noise_c {
            self.noise.next_sample(t)
        } else {
            false
        };

        let chan_a = Self::channel(tone_a, noise_a, &mut self.freq_a, noise, t);
        let chan_b = Self::channel(tone_b, noise_b, &mut self.freq_b, noise, t);
        let chan_c = Self::channel(tone_c, noise_c, &mut self.freq_c, noise, t);

        // The envelope advances even while no volume register selects it,
        // since any channel may switch to envelope mode at any time.
        let env = self.envelope.next_sample(t);

        let mut res: u16 = 0;
        if chan_a {
            res = res + Self::volume(self.reg[8], env);
        }
        if chan_b {
            res = res + Self::volume(self.reg[9], env);
        }
        if chan_c {
            res = res + Self::volume(self.reg[10], env);
        }
        res
    }

    /// One channel of the mixer: always advances the channel's oscillator —
    /// the chip's oscillators run whether or not they are being listened to
    /// — and combines its bit with the noise bit per the truth table.
    fn channel(tone_enabled: bool, noise_enabled: bool, freq: &mut FreqGen, noise: bool, t: u32)
        -> (r: bool)
        requires
            old(freq).wf(),
            t + old(freq).divisor <= u32::MAX,
        ensures
            *final(freq) == tone_after(*old(freq), t),
            final(freq).wf(),
            r == channel_out(tone_enabled, noise_enabled, tone_bit(*old(freq), t), noise),
    {
        let tone = freq.next_sample(t);
        if tone_enabled {
            if noise_enabled {
                tone && noise
            } else {
                tone
            }
        } else if noise_enabled {
            noise
        } else {
            true
        }
    }

    /// The amplitude a volume register produces: the envelope level when bit
    /// four is set, else the register's own low nibble, mapped through the
    /// amplitude table.
    fn volume(v: u8, env: u8) -> (r: u16)
        requires
            env <= 15,
        ensures
            r == level_amp(vol_index(v, env) as int),
            r <= 8192,
    {
        let idx = if v & 0x10 != 0 {
            env
        } else {
            v & 0x0f
        };
        proof {
            lemma_mask_bounds(v);
        }
        match idx {
            0 => 5,
            1 => 7,
            2 => 12,
            3 => 20,
            4 => 33,
            5 => 55,
            6 => 91,
            7 => 150,
            8 => 247,
            9 => 408,
            10 => 672,
            11 => 1109,
            12 => 1828,
            13 => 3014,
            14 => 4969,
            _ => 8192,
        }
    }

    /// Assembles a 12-bit period from a fine byte and the low nibble of a
    /// coarse byte, clamping zero to one.
    fn freq_12(a: u8, b: u8) -> (r: u16)
        ensures
            r == freq12_spec(a, b),
            1 <= r <= 4095,
    {
        let n = (a as u16) | (((b & 0x0f) as u16) << 8);
        proof {
            assert((a as u16) | (((b & 0x0f) as u16) << 8) == (a as u16) + 256 * ((b
                & 0x0f) as u16)) by (bit_vector);
            assert((b & 0x0f) as u16 <= 15) by (bit_vector);
        }
        if n == 0 {
            1
        } else {
            n
        }
    }

    /// Assembles a 16-bit period from a fine and a coarse byte, clamping
    /// zero to one.
    fn freq_16(a: u8, b: u8) -> (r: u16)
        ensures
            r == freq16_spec(a, b),
            1 <= r,
    {
        let n = (a as u16) | ((b as u16) << 8);
        proof {
            assert((a as u16) | ((b as u16) << 8) == (a as u16) + 256 * (b as u16))
                by (bit_vector);
        }
        if n == 0 {
            1
        } else {
            n
        }
    }
}

/// Law: the seventeen snapshot bytes determine a freshly restored controller
/// completely. Any two well-formed controllers in the writes-only
/// (`pristine`) state with the same selected index and the same register
/// bytes — such as a controller built by register writes alone and the one
/// `load_snapshot` rebuilds from its `snapshot` — agree on every generator,
/// and therefore produce identical samples for every following tick
/// sequence.
pub proof fn lemma_snapshot_roundtrip(p: Psg, q: Psg)
    requires
        p.inv(),
        p.pristine(),
        q.inv(),
        q.pristine(),
        p.reg_sel == q.reg_sel,
        p.reg@ == q.reg@,
    ensures
        p.freq_a == q.freq_a,
        p.freq_b == q.freq_b,
        p.freq_c == q.freq_c,
        p.noise == q.noise,
        p.envelope == q.envelope,
{
}

/// Law: a channel whose tone and noise paths are both disabled contributes
/// unconditionally, whatever the oscillator and the noise source produce.
pub proof fn lemma_idle_channel_full(tone: bool, noise: bool)
    ensures
        channel_out(false, false, tone, noise),
{
}

/// Law: a frequency field of zero behaves exactly as a field of one — all
/// three period decoders clamp zero, so the divisor becomes 32 ticks in
/// either case, in the tone, envelope and noise generators alike.
pub proof fn lemma_zero_freq_clamp()
    ensures
        freq12_spec(0, 0) == 1 && freq12_spec(1, 0) == 1,
        freq16_spec(0, 0) == 1 && freq16_spec(1, 0) == 1,
        noise_freq_spec(0) == 1 && noise_freq_spec(1) == 1,
{
    assert(0u8 & 0x0f == 0) by (bit_vector);
    assert(0u8 & 0x1f == 0) by (bit_vector);
    assert(1u8 & 0x1f == 1) by (bit_vector);
}

/// Law: the amplitude table, level by level.
pub proof fn lemma_volume_table()
    ensures
        level_amp(0) == 5,
        level_amp(1) == 7,
        level_amp(2) == 12,
        level_amp(3) == 20,
        level_amp(4) == 33,
        level_amp(5) == 55,
        level_amp(6) == 91,
        level_amp(7) == 150,
        level_amp(8) == 247,
        level_amp(9) == 408,
        level_amp(10) == 672,
        level_amp(11) == 1109,
        level_amp(12) == 1828,
        level_amp(13) == 3014,
        level_amp(14) == 4969,
        level_amp(15) == 8192,
{
}

/// Law: in every reachable controller state, each generator's divisor is a
/// positive multiple of 32.
pub proof fn lemma_divisors_positive(p: Psg)
    requires
        p.inv(),
    ensures
        p.freq_a.divisor % 32 == 0 && p.freq_a.divisor >= 32,
        p.freq_b.divisor % 32 == 0 && p.freq_b.divisor >= 32,
        p.freq_c.divisor % 32 == 0 && p.freq_c.divisor >= 32,
        p.noise.divisor % 32 == 0 && p.noise.divisor >= 32,
        p.envelope.divisor % 32 == 0 && p.envelope.divisor >= 32,
{
}

} // verus!
