//! Channel 4 — noise.
//!
//! Pseudo-random noise from a 15-bit (or 7-bit) linear feedback shift
//! register. NR43 selects the clock shift `s`, the divider `r` and the LFSR
//! width; the timer period is `8 * r * 2^(s+1)` T-cycles, or `4 * 2^(s+1)` for
//! `r = 0`.

use vstd::prelude::*;
use crate::bits::{lemma_u8_fields, lemma_small_shifts};
use crate::apu::timer_steps;
use crate::apu::channel1::period_or_8;

verus! {

/// One LFSR clock: bit 0 XOR bit 1 is shifted in at bit 14 (and also
/// written to bit 6 in 7-bit mode) as the register shifts right.
pub open spec fn lfsr_step(lfsr: u16, short: bool) -> u16 {
    let x = (lfsr & 1) ^ ((lfsr >> 1) & 1);
    let l1 = (lfsr >> 1) | (x << 14);
    if short { (l1 & !(1u16 << 6)) | (x << 6) } else { l1 }
}

/// `n` LFSR clocks.
pub open spec fn lfsr_iter(lfsr: u16, short: bool, n: nat) -> u16
    decreases n,
{
    if n == 0 { lfsr } else { lfsr_iter(lfsr_step(lfsr, short), short, (n - 1) as nat) }
}

pub struct Channel4 {
    /// Length load (bits 5-0).
    pub nr41: u8,
    /// Envelope: `VVVV APPP`.
    pub nr42: u8,
    /// Clock: `SSSS WRRR` (shift, width, divider).
    pub nr43: u8,
    /// Control: `TL-- ----`.
    pub nr44: u8,
    pub enabled: bool,
    pub dac_enabled: bool,
    /// The shift register; bit 0 is the output bit.
    pub lfsr: u16,
    pub freq_timer: u32,
    pub length_counter: u8,
    pub env_volume: u8,
    pub env_timer: u8,
    pub env_running: bool,
}

impl Channel4 {
    /// State and amplitude after running the channel for `cycles` T-cycles.
    pub open spec fn tick_spec(self, cycles: u32) -> (Self, u8) {
        let o = self;
        if !o.enabled || !o.dac_enabled {
            (o, 0u8)
        } else {
            let run = timer_steps(o.freq_timer as int, o.period_spec(), cycles as int);
            let s = Channel4 {
                freq_timer: run.0 as u32,
                lfsr: lfsr_iter(o.lfsr, o.nr43 & 0x08 != 0, run.1),
                ..o
            };
            (s, if s.lfsr & 1 == 0 { o.env_volume } else { 0 })
        }
    }

    /// State after a frame-sequencer length clock.
    pub open spec fn length_clocked(self) -> Self {
        if self.nr44 & 0x40 != 0 { self.length_step() } else { self }
    }

    /// State after a frame-sequencer envelope clock.
    pub open spec fn envelope_clocked(self) -> Self {
        let o = self;
        let t = if o.env_timer > 0 { (o.env_timer - 1) as u8 } else { 0u8 };
        let add = o.nr42 & 0x08 != 0;
        if t == 0 && o.env_running {
            let s = Channel4 { env_timer: period_or_8(o.nr42 & 0x07), ..o };
            if add && o.env_volume < 15 {
                Channel4 { env_volume: (o.env_volume + 1) as u8, ..s }
            } else if !add && o.env_volume > 0 {
                Channel4 { env_volume: (o.env_volume - 1) as u8, ..s }
            } else {
                Channel4 { env_running: false, ..s }
            }
        } else {
            Channel4 { env_timer: t, ..o }
        }
    }

    /// State after writing `val` to NR41.
    pub open spec fn nr41_written(self, val: u8) -> Self {
        Channel4 {
                nr41: val,
                length_counter: (64 - (val & 0x3F)) as u8,
                ..self
            }
    }

    /// State after writing `val` to NR42.
    pub open spec fn nr42_written(self, val: u8) -> Self {
        Channel4 {
                nr42: val,
                dac_enabled: val & 0xF8 != 0,
                enabled: if val & 0xF8 == 0 { false } else { self.enabled },
                ..self
            }
    }

    /// State after writing `val` to NR43.
    pub open spec fn nr43_written(self, val: u8) -> Self {
        Channel4 { nr43: val, ..self }
    }

    /// State after writing `val` to NR44 on frame-sequencer step `frame_seq_step`:
    /// enabling the length counter on an odd step clocks it once, bit 7 triggers.
    pub open spec fn nr44_written(self, val: u8, frame_seq_step: u8) -> Self {
        let s1 = Channel4 { nr44: val & 0x7F, ..self };
        let s2 = if self.nr44 & 0x40 == 0 && val & 0x40 != 0 && frame_seq_step & 1 == 1 {
            s1.length_step()
        } else {
            s1
        };
        if val & 0x80 != 0 { s2.trigger_spec(frame_seq_step) } else { s2 }
    }

    /// State after APU power-off.
    pub open spec fn powered_off(self) -> Self {
        Channel4 {
                nr41: 0, nr42: 0, nr43: 0, nr44: 0,
                enabled: false, dac_enabled: false, lfsr: 0x7FFF, freq_timer: 0,
                length_counter: 0, env_volume: 0, env_timer: 0, env_running: false,
            }
    }

    /// Timer period in T-cycles.
    pub open spec fn period_spec(self) -> int {
        let r = self.nr43 & 0x07;
        let s = (self.nr43 >> 4) & 0x0F;
        if r == 0 { 4 * pow2_spec(s as nat + 1) } else { 8 * r * pow2_spec(s as nat + 1) }
    }

    pub open spec fn length_step(self) -> Self {
        if self.length_counter > 0 {
            Channel4 {
                length_counter: (self.length_counter - 1) as u8,
                enabled: if self.length_counter == 1 { false } else { self.enabled },
                ..self
            }
        } else {
            self
        }
    }

    pub open spec fn trigger_spec(self, step: u8) -> Self {
        let len = if self.length_counter == 0 {
            if step & 1 == 1 && self.nr44 & 0x40 != 0 { 63u8 } else { 64u8 }
        } else {
            self.length_counter
        };
        Channel4 {
            enabled: self.dac_enabled,
            length_counter: len,
            freq_timer: self.period_spec() as u32,
            lfsr: 0x7FFF,
            env_volume: (self.nr42 >> 4) & 0x0F,
            env_timer: period_or_8(self.nr42 & 0x07),
            env_running: true,
            ..self
        }
    }

    /// Power-on state.
    pub open spec fn initial() -> Self {
        Channel4 {
                nr41: 0xFF, nr42: 0x00, nr43: 0x00, nr44: 0xBF,
                enabled: false, dac_enabled: false, lfsr: 0x7FFF, freq_timer: 0,
                length_counter: 0, env_volume: 0, env_timer: 0, env_running: false,
            }
    }

    pub fn new() -> (r: Self)
        ensures
            r == Channel4::initial(),
    {
        Channel4 {
            nr41: 0xFF,
            nr42: 0x00,
            nr43: 0x00,
            nr44: 0xBF,
            enabled: false,
            dac_enabled: false,
            lfsr: 0x7FFF,
            freq_timer: 0,
            length_counter: 0,
            env_volume: 0,
            env_timer: 0,
            env_running: false,
        }
    }

    pub fn read_nr41(&self) -> (r: u8)
        ensures r == 0xFF,
    {
        0xFF
    }

    pub fn read_nr42(&self) -> (r: u8)
        ensures r == self.nr42,
    {
        self.nr42
    }

    pub fn read_nr43(&self) -> (r: u8)
        ensures r == self.nr43,
    {
        self.nr43
    }

    pub fn read_nr44(&self) -> (r: u8)
        ensures r == self.nr44 | 0xBF,
    {
        self.nr44 | 0xBF
    }

    pub fn write_nr41(&mut self, val: u8)
        ensures
            *final(self) == old(self).nr41_written(val),
    {
        proof { lemma_u8_fields(val); }
        self.nr41 = val;
        self.length_counter = 64 - (val & 0x3F);
    }

    pub fn write_nr42(&mut self, val: u8)
        ensures
            *final(self) == old(self).nr42_written(val),
    {
        self.nr42 = val;
        self.dac_enabled = (val & 0xF8) != 0;
        if !self.dac_enabled {
            self.enabled = false;
        }
    }

    pub fn write_nr43(&mut self, val: u8)
        ensures *final(self) == old(self).nr43_written(val),
    {
        self.nr43 = val;
    }

    pub fn write_nr44(&mut self, val: u8, frame_seq_step: u8)
        ensures
            *final(self) == old(self).nr44_written(val, frame_seq_step),
    {
        let old_len_en = (self.nr44 & 0x40) != 0;
        let new_len_en = (val & 0x40) != 0;
        let trigger = (val & 0x80) != 0;
        self.nr44 = val & 0x7F;
        if !old_len_en && new_len_en && (frame_seq_step & 1) == 1 {
            self.clock_length_inner();
        }
        if trigger {
            self.trigger(frame_seq_step);
        }
    }

    pub fn clock_length(&mut self)
        ensures
            *final(self) == old(self).length_clocked(),
    {
        if (self.nr44 & 0x40) != 0 {
            self.clock_length_inner();
        }
    }

    pub fn clock_length_inner(&mut self)
        ensures *final(self) == old(self).length_step(),
    {
        if self.length_counter > 0 {
            self.length_counter -= 1;
            if self.length_counter == 0 {
                self.enabled = false;
            }
        }
    }

    /// Frame-sequencer envelope clock (see `Channel1::clock_envelope`).
    pub fn clock_envelope(&mut self)
        ensures
            *final(self) == old(self).envelope_clocked(),
    {
        if self.env_timer > 0 {
            self.env_timer -= 1;
        }
        if self.env_timer == 0 && self.env_running {
            let period = self.nr42 & 0x07;
            self.env_timer = if period == 0 { 8 } else { period };
            let add = (self.nr42 & 0x08) != 0;
            if add && self.env_volume < 15 {
                self.env_volume += 1;
            } else if !add && self.env_volume > 0 {
                self.env_volume -= 1;
            } else {
                self.env_running = false;
            }
        }
    }

    /// Advance the noise timer by `cycles` T-cycles, clocking the LFSR at every
    /// reload, and return the envelope volume when LFSR bit 0 is clear, else 0.
    /// A silent channel outputs 0 and does not advance.
    pub fn tick(&mut self, cycles: u32) -> (r: u8)
        ensures
            (*final(self), r) == old(self).tick_spec(cycles),
    {
        if !self.enabled || !self.dac_enabled {
            return 0;
        }
        let ghost o = *self;
        let mut remaining = cycles;
        let p = self.period();
        while remaining > 0
            invariant
                p as int == o.period_spec(),
                p > 0,
                *self == (Channel4 { freq_timer: self.freq_timer, lfsr: self.lfsr, ..o }),
                ({
                    let total = timer_steps(o.freq_timer as int, o.period_spec(), cycles as int);
                    let rest = timer_steps(self.freq_timer as int, o.period_spec(), remaining as int);
                    &&& rest.0 == total.0
                    &&& lfsr_iter(self.lfsr, (o.nr43 & 0x08 != 0), rest.1) == lfsr_iter(o.lfsr, (o.nr43 & 0x08 != 0), total.1)
                }),
            decreases remaining, (if self.freq_timer == 0 { 1int } else { 0int }),
        {
            let ghost t0 = self.freq_timer as int;
            let ghost r0 = remaining as int;
            let ghost l0 = self.lfsr;
            let step = if remaining < self.freq_timer { remaining } else { self.freq_timer };
            self.freq_timer = self.freq_timer - step;
            remaining = remaining - step;
            if self.freq_timer == 0 {
                self.freq_timer = self.period();
                self.clock_lfsr();
                proof {
                    assert(timer_steps(t0, o.period_spec(), r0) == ({
                        let r = timer_steps(o.period_spec(), o.period_spec(), remaining as int);
                        (r.0, r.1 + 1)
                    }));
                    let k = timer_steps(self.freq_timer as int, o.period_spec(), remaining as int).1;
                    assert(lfsr_iter(l0, (o.nr43 & 0x08 != 0), k + 1) == lfsr_iter(lfsr_step(l0, (o.nr43 & 0x08 != 0)), (o.nr43 & 0x08 != 0), k));
                }
            } else {
                proof {
                    assert(timer_steps(t0, o.period_spec(), r0) == (self.freq_timer as int, 0nat));
                    assert(timer_steps(self.freq_timer as int, o.period_spec(), remaining as int) == (self.freq_timer as int, 0nat));
                }
            }
        }
        proof {
            assert(timer_steps(self.freq_timer as int, o.period_spec(), 0) == (self.freq_timer as int, 0nat));
        }
        if (self.lfsr & 1) == 0 {
            self.env_volume
        } else {
            0
        }
    }

    /// True in 7-bit LFSR mode (NR43 bit 3).
    pub fn is_short_lfsr(&self) -> (r: bool)
        ensures r == (self.nr43 & 0x08 != 0),
    {
        (self.nr43 & 0x08) != 0
    }

    pub fn clock_shift(&self) -> (r: u8)
        ensures r == (self.nr43 >> 4) & 0x0F, r <= 15,
    {
        proof { lemma_u8_fields(self.nr43); }
        (self.nr43 >> 4) & 0x0F
    }

    pub fn clock_divider(&self) -> (r: u8)
        ensures r == self.nr43 & 0x07, r <= 7,
    {
        proof { lemma_u8_fields(self.nr43); }
        self.nr43 & 0x07
    }

    pub fn period(&self) -> (r: u32)
        ensures r == self.period_spec(), r > 0,
    {
        let r = self.clock_divider() as u32;
        let s = self.clock_shift() as u32;
        proof {
            lemma_small_shifts((s + 1) as u32);
            lemma_shl_pow2((s + 1) as u32);
        }
        if r == 0 {
            4u32 << (s + 1)
        } else {
            proof {
                assert(8 * r * (1u32 << (s + 1)) <= 8 * 7 * 0x10000) by (nonlinear_arith)
                    requires r <= 7, (1u32 << (s + 1)) <= 0x10000;
                assert(8 * r * (1u32 << (s + 1)) > 0) by (nonlinear_arith)
                    requires r >= 1, (1u32 << (s + 1)) >= 2;
            }
            8 * r * (1u32 << (s + 1))
        }
    }

    pub fn clock_lfsr(&mut self)
        ensures
            *final(self) == (Channel4 { lfsr: lfsr_step(old(self).lfsr, old(self).nr43 & 0x08 != 0), ..*old(self) }),
    {
        let xor_bit = (self.lfsr & 1) ^ ((self.lfsr >> 1) & 1);
        self.lfsr = (self.lfsr >> 1) | (xor_bit << 14);
        if self.is_short_lfsr() {
            self.lfsr = (self.lfsr & !(1 << 6)) | (xor_bit << 6);
        }
    }

    pub fn trigger(&mut self, frame_seq_step: u8)
        ensures *final(self) == old(self).trigger_spec(frame_seq_step),
    {
        self.enabled = self.dac_enabled;
        if self.length_counter == 0 {
            self.length_counter = 64;
            if (frame_seq_step & 1) == 1 && (self.nr44 & 0x40) != 0 {
                self.length_counter = 63;
            }
        }
        self.freq_timer = self.period();
        self.lfsr = 0x7FFF;
        proof { lemma_u8_fields(self.nr42); }
        self.env_volume = (self.nr42 >> 4) & 0x0F;
        let period = self.nr42 & 0x07;
        self.env_timer = if period == 0 { 8 } else { period };
        self.env_running = true;
    }

    pub fn power_off(&mut self)
        ensures
            *final(self) == old(self).powered_off(),
    {
        self.nr41 = 0;
        self.nr42 = 0;
        self.nr43 = 0;
        self.nr44 = 0;
        self.enabled = false;
        self.dac_enabled = false;
        self.lfsr = 0x7FFF;
        self.freq_timer = 0;
        self.length_counter = 0;
        self.env_volume = 0;
        self.env_timer = 0;
        self.env_running = false;
    }
}

/// `2^n` as an integer.
pub open spec fn pow2_spec(n: nat) -> int
    decreases n,
{
    if n == 0 { 1 } else { 2 * pow2_spec((n - 1) as nat) }
}

proof fn lemma_shl_pow2(s: u32)
    requires
        1 <= s <= 16,
    ensures
        (1u32 << s) as int == pow2_spec(s as nat),
        (4u32 << s) as int == 4 * pow2_spec(s as nat),
{
    vstd::bits::lemma_u32_pow2_no_overflow(s as nat);
    vstd::bits::lemma_u32_shl_is_mul(1, s);
    lemma_pow2_agree(s as nat);
    lemma_small_shifts(s);
}

proof fn lemma_pow2_agree(n: nat)
    ensures pow2_spec(n) == vstd::arithmetic::power2::pow2(n),
    decreases n,
{
    if n > 0 {
        vstd::arithmetic::power2::lemma_pow2_unfold(n);
        lemma_pow2_agree((n - 1) as nat);
    } else {
        vstd::arithmetic::power2::lemma2_to64();
    }
}

/// The volume envelope moves the volume one step in the direction NR42
/// bit 3 selects (set: up, clear: down) each time its timer runs out, and
/// reloads the timer with the period (bits 0-2, 0 counting as 8); at the
/// end of its range (15 going up, 0 going down) it stops instead. Between
/// firings, and once stopped, the volume stays put.
pub proof fn law_channel4_envelope(c: Channel4)
    ensures ({
        let e = c.envelope_clocked();
        let fires = c.env_running && c.env_timer <= 1;
        &&& fires && c.nr42 & 0x08 == 0 && c.env_volume > 0 ==> e.env_volume == c.env_volume - 1 && e.env_running
        &&& fires && c.nr42 & 0x08 != 0 && c.env_volume < 15 ==> e.env_volume == c.env_volume + 1 && e.env_running
        &&& fires && c.nr42 & 0x08 == 0 && c.env_volume == 0 ==> e.env_volume == 0 && !e.env_running
        &&& fires && c.nr42 & 0x08 != 0 && c.env_volume == 15 ==> e.env_volume == 15 && !e.env_running
        &&& fires ==> e.env_timer == (if c.nr42 & 0x07 == 0 { 8 } else { c.nr42 & 0x07 })
        &&& !fires ==> e.env_volume == c.env_volume && e.env_running == c.env_running
    }),
{
}

/// Triggering (a write to NR44 with bit 7 set) restarts the noise: the
/// shift register is filled with ones (0x7FFF), the volume is the NR42
/// upper nibble, the envelope runs with its period (0 counting as 8), a
/// used-up length counter restarts at 64 (on an even frame-sequencer
/// step), and the channel plays exactly when its DAC is on.
pub proof fn law_channel4_trigger(c: Channel4, val: u8, step: u8)
    requires val & 0x80 != 0,
    ensures ({
        let t = c.nr44_written(val, step);
        &&& t.lfsr == 0x7FFF
        &&& t.env_volume == c.nr42 / 16
        &&& t.env_running
        &&& t.env_timer == (if c.nr42 % 8 == 0 { 8 } else { c.nr42 % 8 })
        &&& c.length_counter == 0 && step % 2 == 0 ==> t.length_counter == 64
        &&& t.enabled == c.dac_enabled
    }),
{
    crate::bits::lemma_byte_fields(c.nr42, val, val);
    crate::apu::channel1::lemma_low_bit(step);
}

/// The noise timer period is the divisor (8 for code 0, else 16 times the
/// NR43 low three bits) times 2 to the power of the NR43 upper nibble.
pub proof fn law_channel4_period(c: Channel4)
    ensures
        c.period_spec() == (if c.nr43 % 8 == 0 { 8 } else { 16 * (c.nr43 % 8) }) * pow2_spec((c.nr43 / 16) as nat),
{
    crate::bits::lemma_byte_fields(c.nr43, c.nr43, c.nr43);
    let s = (c.nr43 / 16) as nat;
    assert(pow2_spec(s + 1) == 2 * pow2_spec(s));
    let r = c.nr43 % 8;
    assert(8 * r * (2 * pow2_spec(s)) == 16 * r * pow2_spec(s)) by (nonlinear_arith);
}

/// The noise shift register: each clock shifts it right and feeds the XOR
/// of its two lowest bits into bit 14 (and, in 7-bit mode, also into bit 6
/// in place of the bit shifted there).
pub proof fn law_lfsr_step(l: u16, short: bool)
    requires l < 0x8000,
    ensures ({
        let x: int = (l % 2 + (l / 2) % 2) % 2;
        let h: int = (l / 2) as int;
        &&& !short ==> lfsr_step(l, short) == h + 0x4000 * x
        &&& short ==> lfsr_step(l, short) == h - ((h / 64) % 2) * 64 + 64 * x + 0x4000 * x
    }),
{
    let x = (l & 1) ^ ((l >> 1) & 1);
    let l1 = (l >> 1) | (x << 14);
    assert(
        x == (l % 2 + (l / 2) % 2) % 2
        && l1 == l / 2 + 0x4000 * x
        && (l1 & !(1u16 << 6)) | (x << 6) == l / 2 - (((l / 2) / 64) % 2) * 64 + 64 * x + 0x4000 * x
    ) by (bit_vector)
        requires l < 0x8000, x == (l & 1) ^ ((l >> 1) & 1), l1 == (l >> 1) | (x << 14);
}

} // verus!
