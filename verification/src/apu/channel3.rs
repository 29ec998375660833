//! Channel 3 — wave output.
//!
//! Plays the 32 four-bit samples stored in wave RAM (0xFF30-0xFF3F). The
//! volume is a right shift chosen by NR32: mute, 100%, 50% or 25%. The
//! frequency timer runs at 2 T-cycles per unit, twice as fast as the pulses.

use vstd::prelude::*;
use crate::bits::{lemma_u8_fields, lemma_freq11};
use crate::apu::timer_steps;
use vstd::array::spec_array_update;

verus! {

/// Position after `n` advances of a 5-bit step counter starting at `pos`.
pub open spec fn advance_pos32(pos: u8, n: nat) -> u8 {
    if n == 0 { pos } else { ((pos as int + n) % 32) as u8 }
}

proof fn lemma_advance_pos32_step(pos: u8, n: nat)
    requires
        pos < 32,
    ensures
        advance_pos32(((pos + 1) % 32) as u8, n) == advance_pos32(pos, n + 1),
{
    vstd::arithmetic::div_mod::lemma_add_mod_noop(pos as int + 1, n as int, 32int);
    vstd::arithmetic::div_mod::lemma_small_mod(((pos as int + 1) % 32) as nat, 32nat);
}

/// The 4-bit sample at position `pos` (0-31) of wave RAM: the high nibble of
/// byte `pos / 2` at even positions, the low nibble at odd ones.
pub open spec fn wave_sample(ram: Seq<u8>, pos: u8) -> u8 {
    let byte = ram[pos as int / 2];
    if pos % 2 == 0 { (byte >> 4) & 0x0F } else { byte & 0x0F }
}

/// Right shift applied for a 2-bit volume code (code 0 mutes).
pub open spec fn volume_shift(code: u8) -> u8 {
    if code == 1 { 0 } else if code == 2 { 1 } else { 2 }
}

pub struct Channel3 {
    /// DAC enable (bit 7).
    pub nr30: u8,
    /// Length load.
    pub nr31: u8,
    /// Volume code (bits 6-5).
    pub nr32: u8,
    /// Frequency low byte.
    pub nr33: u8,
    /// Control: `TL-- -FFF`.
    pub nr34: u8,
    pub enabled: bool,
    pub dac_enabled: bool,
    pub freq_timer: u32,
    /// Current sample position 0-31.
    pub wave_pos: u8,
    /// The sample latched at the last timer reload.
    pub sample_buffer: u8,
    /// Length counter (counts from 256).
    pub length_counter: u16,
    /// 16 bytes holding 32 four-bit samples.
    pub wave_ram: [u8; 16],
}

impl Channel3 {
    /// State and amplitude after running the channel for `cycles` T-cycles.
    pub open spec fn tick_spec(self, cycles: u32) -> (Self, u8) {
        let o = self;
        if !o.enabled || !o.dac_enabled {
            (o, 0u8)
        } else {
            let run = timer_steps(o.freq_timer as int, o.period_spec(), cycles as int);
            let pos = advance_pos32(o.wave_pos, run.1);
            let code = (o.nr32 >> 5) & 0x03;
            let s = Channel3 {
                freq_timer: run.0 as u32,
                wave_pos: pos,
                sample_buffer: if run.1 == 0 { o.sample_buffer } else { wave_sample(o.wave_ram@, pos) },
                ..o
            };
            (s, if code == 0 { 0 } else { s.sample_buffer >> volume_shift(code) })
        }
    }

    /// State after a frame-sequencer length clock.
    pub open spec fn length_clocked(self) -> Self {
        if self.nr34 & 0x40 != 0 { self.length_step() } else { self }
    }

    /// State after writing `val` to NR30.
    pub open spec fn nr30_written(self, val: u8) -> Self {
        Channel3 {
                nr30: val,
                dac_enabled: val & 0x80 != 0,
                enabled: if val & 0x80 == 0 { false } else { self.enabled },
                ..self
            }
    }

    /// State after writing `val` to NR31.
    pub open spec fn nr31_written(self, val: u8) -> Self {
        Channel3 { nr31: val, length_counter: (256 - val) as u16, ..self }
    }

    /// State after writing `val` to NR32.
    pub open spec fn nr32_written(self, val: u8) -> Self {
        Channel3 { nr32: val, ..self }
    }

    /// State after writing `val` to NR33.
    pub open spec fn nr33_written(self, val: u8) -> Self {
        Channel3 { nr33: val, ..self }
    }

    /// State after writing `val` to NR34 on frame-sequencer step `frame_seq_step`:
    /// enabling the length counter on an odd step clocks it once, bit 7 triggers.
    pub open spec fn nr34_written(self, val: u8, frame_seq_step: u8) -> Self {
        let s1 = Channel3 { nr34: val & 0x7F, ..self };
        let s2 = if self.nr34 & 0x40 == 0 && val & 0x40 != 0 && frame_seq_step & 1 == 1 {
            s1.length_step()
        } else {
            s1
        };
        if val & 0x80 != 0 { s2.trigger_spec(frame_seq_step) } else { s2 }
    }

    /// State after APU power-off.
    pub open spec fn powered_off(self) -> Self {
        Channel3 {
                nr30: 0, nr31: 0, nr32: 0, nr33: 0, nr34: 0,
                enabled: false, dac_enabled: false, freq_timer: 0, wave_pos: 0,
                sample_buffer: 0, length_counter: 0, wave_ram: self.wave_ram,
            }
    }

    pub open spec fn freq_spec(self) -> u16 {
        ((self.nr34 as u16 & 0x07) << 8) | self.nr33 as u16
    }

    pub open spec fn period_spec(self) -> int {
        (2048 - self.freq_spec()) * 2
    }

    pub open spec fn length_step(self) -> Self {
        if self.length_counter > 0 {
            Channel3 {
                length_counter: (self.length_counter - 1) as u16,
                enabled: if self.length_counter == 1 { false } else { self.enabled },
                ..self
            }
        } else {
            self
        }
    }

    pub open spec fn trigger_spec(self, step: u8) -> Self {
        let len = if self.length_counter == 0 {
            if step & 1 == 1 && self.nr34 & 0x40 != 0 { 255u16 } else { 256u16 }
        } else {
            self.length_counter
        };
        Channel3 {
            enabled: self.dac_enabled,
            length_counter: len,
            freq_timer: self.period_spec() as u32,
            wave_pos: 0,
            ..self
        }
    }

    /// Power-on state (wave RAM given).
    pub open spec fn initial(ram: [u8; 16]) -> Self {
        Channel3 {
                nr30: 0x7F, nr31: 0xFF, nr32: 0x9F, nr33: 0xFF, nr34: 0xBF,
                enabled: false, dac_enabled: false, freq_timer: 0, wave_pos: 0,
                sample_buffer: 0, length_counter: 0, wave_ram: ram,
            }
    }

    pub fn new() -> (r: Self)
        ensures
            r == Channel3::initial(r.wave_ram),
            r.wave_ram@ == Seq::new(16, |i: int| 0u8),
    {
        let r = Channel3 {
            nr30: 0x7F,
            nr31: 0xFF,
            nr32: 0x9F,
            nr33: 0xFF,
            nr34: 0xBF,
            enabled: false,
            dac_enabled: false,
            freq_timer: 0,
            wave_pos: 0,
            sample_buffer: 0,
            length_counter: 0,
            wave_ram: [0u8; 16],
        };
        assert(r.wave_ram@ =~= Seq::new(16, |i: int| 0u8));
        r
    }

    pub fn read_nr30(&self) -> (r: u8)
        ensures r == self.nr30 | 0x7F,
    {
        self.nr30 | 0x7F
    }

    pub fn read_nr31(&self) -> (r: u8)
        ensures r == 0xFF,
    {
        0xFF
    }

    pub fn read_nr32(&self) -> (r: u8)
        ensures r == self.nr32 | 0x9F,
    {
        self.nr32 | 0x9F
    }

    pub fn read_nr33(&self) -> (r: u8)
        ensures r == 0xFF,
    {
        0xFF
    }

    pub fn read_nr34(&self) -> (r: u8)
        ensures r == self.nr34 | 0xBF,
    {
        self.nr34 | 0xBF
    }

    /// Wave RAM byte `offset & 0x0F`.
    pub fn read_wave_ram(&self, offset: u8) -> (r: u8)
        ensures r == self.wave_ram@[(offset & 0x0F) as int],
    {
        proof { lemma_u8_fields(offset); }
        self.wave_ram[(offset & 0x0F) as usize]
    }

    /// Store wave RAM byte `offset & 0x0F`.
    pub fn write_wave_ram(&mut self, offset: u8, val: u8)
        ensures
            final(self).wave_ram@ == old(self).wave_ram@.update((offset & 0x0F) as int, val),
            *final(self) == old(self).wave_written(offset, val),
    {
        proof { lemma_u8_fields(offset); }
        self.wave_ram[(offset & 0x0F) as usize] = val;
        proof {
            broadcast use vstd::array::group_array_axioms;
            assert(self.wave_ram =~= spec_array_update(old(self).wave_ram, (offset & 0x0F) as int, val));
        }
    }

    /// The channel after wave RAM byte `offset & 0x0F` is set to `val`.
    pub open spec fn wave_written(self, offset: u8, val: u8) -> Channel3 {
        Channel3 { wave_ram: spec_array_update(self.wave_ram, (offset & 0x0F) as int, val), ..self }
    }

    pub fn write_nr30(&mut self, val: u8)
        ensures
            *final(self) == old(self).nr30_written(val),
    {
        self.nr30 = val;
        self.dac_enabled = (val & 0x80) != 0;
        if !self.dac_enabled {
            self.enabled = false;
        }
    }

    pub fn write_nr31(&mut self, val: u8)
        ensures
            *final(self) == old(self).nr31_written(val),
    {
        self.nr31 = val;
        self.length_counter = 256 - val as u16;
    }

    pub fn write_nr32(&mut self, val: u8)
        ensures *final(self) == old(self).nr32_written(val),
    {
        self.nr32 = val;
    }

    pub fn write_nr33(&mut self, val: u8)
        ensures *final(self) == old(self).nr33_written(val),
    {
        self.nr33 = val;
    }

    pub fn write_nr34(&mut self, val: u8, frame_seq_step: u8)
        ensures
            *final(self) == old(self).nr34_written(val, frame_seq_step),
    {
        let old_len_en = (self.nr34 & 0x40) != 0;
        let new_len_en = (val & 0x40) != 0;
        let trigger = (val & 0x80) != 0;
        self.nr34 = val & 0x7F;
        if !old_len_en && new_len_en && (frame_seq_step & 1) == 1 {
            self.clock_length_inner();
        }
        if trigger {
            self.trigger(frame_seq_step);
        }
    }

    pub fn clock_length(&mut self)
        ensures
            *final(self) == old(self).length_clocked(),
    {
        if (self.nr34 & 0x40) != 0 {
            self.clock_length_inner();
        }
    }

    pub fn clock_length_inner(&mut self)
        ensures *final(self) == old(self).length_step(),
    {
        if self.length_counter > 0 {
            self.length_counter -= 1;
            if self.length_counter == 0 {
                self.enabled = false;
            }
        }
    }

    /// Advance the wave player by `cycles` T-cycles and return the current
    /// amplitude (0-15).
    ///
    /// Each timer reload moves to the next sample and latches it. The output is
    /// the latched sample shifted right by the volume shift, or 0 when muted.
    /// A silent channel outputs 0 and does not advance.
    pub fn tick(&mut self, cycles: u32) -> (r: u8)
        requires
            old(self).wave_pos < 32,
        ensures
            (*final(self), r) == old(self).tick_spec(cycles),
            final(self).wave_pos < 32,
    {
        if !self.enabled || !self.dac_enabled {
            return 0;
        }
        let ghost o = *self;
        proof { lemma_freq11(self.nr34, self.nr33); }
        let mut remaining = cycles;
        let ghost mut n: nat = 0;
        while remaining > 0
            invariant
                o.freq_spec() <= 2047,
                self.wave_pos < 32,
                *self == (Channel3 {
                    freq_timer: self.freq_timer,
                    wave_pos: self.wave_pos,
                    sample_buffer: self.sample_buffer,
                    ..o
                }),
                n > 0 ==> self.sample_buffer == wave_sample(o.wave_ram@, self.wave_pos),
                ({
                    let total = timer_steps(o.freq_timer as int, o.period_spec(), cycles as int);
                    let rest = timer_steps(self.freq_timer as int, o.period_spec(), remaining as int);
                    &&& rest.0 == total.0
                    &&& advance_pos32(self.wave_pos, rest.1) == advance_pos32(o.wave_pos, total.1)
                    &&& (n == 0 ==> self.wave_pos == o.wave_pos && self.sample_buffer == o.sample_buffer
                        && rest.1 == total.1)
                    &&& (total.1 == 0 <==> (n == 0 && rest.1 == 0))
                }),
            decreases remaining, (if self.freq_timer == 0 { 1int } else { 0int }),
        {
            let ghost t0 = self.freq_timer as int;
            let ghost r0 = remaining as int;
            let ghost pos0 = self.wave_pos;
            let step = if remaining < self.freq_timer { remaining } else { self.freq_timer };
            self.freq_timer = self.freq_timer - step;
            remaining = remaining - step;
            if self.freq_timer == 0 {
                let freq = self.frequency();
                self.freq_timer = (2048 - freq as u32) * 2;
                proof { lemma_u8_fields((pos0 + 1) as u8); }
                self.wave_pos = (self.wave_pos + 1) & 31;
                let byte = self.wave_ram[(self.wave_pos / 2) as usize];
                proof { lemma_u8_fields(byte); }
                self.sample_buffer = if self.wave_pos & 1 == 0 {
                    (byte >> 4) & 0x0F
                } else {
                    byte & 0x0F
                };
                proof {
                    lemma_u8_fields(self.wave_pos);
                    n = n + 1;
                    lemma_advance_pos32_step(pos0, timer_steps(self.freq_timer as int, o.period_spec(), remaining as int).1);
                    assert(timer_steps(t0, o.period_spec(), r0) == ({
                        let r = timer_steps(o.period_spec(), o.period_spec(), remaining as int);
                        (r.0, r.1 + 1)
                    }));
                }
            } else {
                proof {
                    assert(timer_steps(t0, o.period_spec(), r0) == (self.freq_timer as int, 0nat));
                    assert(timer_steps(self.freq_timer as int, o.period_spec(), remaining as int) == (self.freq_timer as int, 0nat));
                }
            }
        }
        proof {
            assert(timer_steps(self.freq_timer as int, o.period_spec(), 0) == (self.freq_timer as int, 0nat));
            lemma_u8_fields(self.nr32);
        }
        let code = (self.nr32 >> 5) & 0x03;
        let shift: u8 = if code == 0 {
            return 0;
        } else if code == 1 {
            0
        } else if code == 2 {
            1
        } else {
            2
        };
        self.sample_buffer >> shift
    }

    pub fn frequency(&self) -> (r: u16)
        ensures r == self.freq_spec(), r <= 2047,
    {
        proof { lemma_freq11(self.nr34, self.nr33); }
        ((self.nr34 as u16 & 0x07) << 8) | self.nr33 as u16
    }

    pub fn volume_code(&self) -> (r: u8)
        ensures r == (self.nr32 >> 5) & 0x03, r <= 3,
    {
        proof { lemma_u8_fields(self.nr32); }
        (self.nr32 >> 5) & 0x03
    }

    pub fn trigger(&mut self, frame_seq_step: u8)
        ensures *final(self) == old(self).trigger_spec(frame_seq_step),
    {
        self.enabled = self.dac_enabled;
        if self.length_counter == 0 {
            self.length_counter = 256;
            if (frame_seq_step & 1) == 1 && (self.nr34 & 0x40) != 0 {
                self.length_counter = 255;
            }
        }
        let freq = self.frequency();
        self.freq_timer = (2048 - freq as u32) * 2;
        self.wave_pos = 0;
    }

    /// APU power-off clears the registers and counters; wave RAM is kept.
    pub fn power_off(&mut self)
        ensures
            *final(self) == old(self).powered_off(),
    {
        self.nr30 = 0;
        self.nr31 = 0;
        self.nr32 = 0;
        self.nr33 = 0;
        self.nr34 = 0;
        self.enabled = false;
        self.dac_enabled = false;
        self.freq_timer = 0;
        self.wave_pos = 0;
        self.sample_buffer = 0;
        self.length_counter = 0;
    }
}

/// Wave RAM holds two samples per byte, the high nibble first: sample
/// `pos` is the upper nibble of byte `pos / 2` for even `pos` and the lower
/// nibble for odd `pos`.
pub proof fn law_wave_sample_nibbles(ram: Seq<u8>, pos: u8)
    ensures
        pos % 2 == 0 ==> wave_sample(ram, pos) == ram[pos as int / 2] / 16,
        pos % 2 == 1 ==> wave_sample(ram, pos) == ram[pos as int / 2] % 16,
{
    let b = ram[pos as int / 2];
    crate::bits::lemma_byte_fields(b, b, b);
}

/// The wave channel's output is its latched sample scaled by the NR32
/// volume code (bits 5-6): 0 mutes, 1 plays it at full level, 2 at half
/// and 3 at a quarter (rounding down); a disabled channel or one with its
/// DAC off outputs 0.
pub proof fn law_channel3_output_level(c: Channel3, cycles: u32)
    ensures ({
        let (s, out) = c.tick_spec(cycles);
        let code = (c.nr32 / 32) % 4;
        &&& !c.enabled || !c.dac_enabled ==> out == 0
        &&& c.enabled && c.dac_enabled ==> out == (if code == 0 { 0 } else if code == 1 { s.sample_buffer }
                else if code == 2 { s.sample_buffer / 2 } else { s.sample_buffer / 4 })
    }),
{
    crate::bits::lemma_byte_fields(c.nr32, c.nr32, c.nr32);
    let (s, out) = c.tick_spec(cycles);
    let x = s.sample_buffer;
    vstd::bits::lemma_u8_shr_is_div(x, 0);
    vstd::bits::lemma_u8_shr_is_div(x, 1);
    vstd::bits::lemma_u8_shr_is_div(x, 2);
    vstd::arithmetic::power2::lemma2_to64();
}

/// Triggering (a write to NR34 with bit 7 set) restarts the wave from
/// sample 0 with the frequency timer reloaded to (2048 - frequency) * 2
/// cycles for the 11-bit frequency in NR33 and the written value; a
/// used-up length counter restarts at 256 (on an even frame-sequencer
/// step), and the channel plays exactly when its DAC is on.
pub proof fn law_channel3_trigger(c: Channel3, val: u8, step: u8)
    requires val & 0x80 != 0,
    ensures ({
        let t = c.nr34_written(val, step);
        &&& t.wave_pos == 0
        &&& t.freq_timer == (2048 - ((val % 8) * 256 + c.nr33)) * 2
        &&& c.length_counter == 0 && step % 2 == 0 ==> t.length_counter == 256
        &&& t.enabled == c.dac_enabled
    }),
{
    crate::bits::lemma_byte_fields(val, val, c.nr33);
    crate::apu::channel1::lemma_low_bit(step);
}

} // verus!
