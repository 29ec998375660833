//! Channel 2 — pulse wave.
//!
//! Identical to channel 1 in duty cycle, length counter and envelope, but
//! without the frequency sweep unit.

use vstd::prelude::*;
use crate::bits::{lemma_u8_fields, lemma_freq11};
use crate::apu::timer_steps;
use crate::apu::channel1::{duty_bit, duty_level, period_or_8, advance_pos8, lemma_advance_pos8_step};

verus! {

pub struct Channel2 {
    /// Duty and length: `DDLL LLLL`.
    pub nr21: u8,
    /// Envelope: `VVVV APPP`.
    pub nr22: u8,
    /// Frequency low byte.
    pub nr23: u8,
    /// Control: `TL-- -FFF`.
    pub nr24: u8,
    pub enabled: bool,
    pub dac_enabled: bool,
    pub freq_timer: u32,
    pub duty_pos: u8,
    pub length_counter: u8,
    pub env_volume: u8,
    pub env_timer: u8,
    pub env_running: bool,
}

impl Channel2 {
    /// State and amplitude after running the channel for `cycles` T-cycles.
    pub open spec fn tick_spec(self, cycles: u32) -> (Self, u8) {
        let o = self;
        if !o.enabled || !o.dac_enabled {
            (o, 0u8)
        } else {
            let run = timer_steps(o.freq_timer as int, o.period_spec(), cycles as int);
            let s = Channel2 {
                freq_timer: run.0 as u32,
                duty_pos: advance_pos8(o.duty_pos, run.1),
                ..o
            };
            (s, (duty_bit((o.nr21 >> 6) & 0x03, s.duty_pos) * o.env_volume) as u8)
        }
    }

    /// State after a frame-sequencer length clock.
    pub open spec fn length_clocked(self) -> Self {
        if self.nr24 & 0x40 != 0 { self.length_step() } else { self }
    }

    /// State after a frame-sequencer envelope clock.
    pub open spec fn envelope_clocked(self) -> Self {
        let o = self;
        let t = if o.env_timer > 0 { (o.env_timer - 1) as u8 } else { 0u8 };
        let add = o.nr22 & 0x08 != 0;
        if t == 0 && o.env_running {
            let s = Channel2 { env_timer: period_or_8(o.nr22 & 0x07), ..o };
            if add && o.env_volume < 15 {
                Channel2 { env_volume: (o.env_volume + 1) as u8, ..s }
            } else if !add && o.env_volume > 0 {
                Channel2 { env_volume: (o.env_volume - 1) as u8, ..s }
            } else {
                Channel2 { env_running: false, ..s }
            }
        } else {
            Channel2 { env_timer: t, ..o }
        }
    }

    /// State after writing `val` to NR21.
    pub open spec fn nr21_written(self, val: u8) -> Self {
        Channel2 {
                nr21: val,
                length_counter: (64 - (val & 0x3F)) as u8,
                ..self
            }
    }

    /// State after writing `val` to NR22.
    pub open spec fn nr22_written(self, val: u8) -> Self {
        Channel2 {
                nr22: val,
                dac_enabled: val & 0xF8 != 0,
                enabled: if val & 0xF8 == 0 { false } else { self.enabled },
                ..self
            }
    }

    /// State after writing `val` to NR23.
    pub open spec fn nr23_written(self, val: u8) -> Self {
        Channel2 { nr23: val, ..self }
    }

    /// State after writing `val` to NR24 on frame-sequencer step `frame_seq_step`:
    /// enabling the length counter on an odd step clocks it once, bit 7 triggers.
    pub open spec fn nr24_written(self, val: u8, frame_seq_step: u8) -> Self {
        let s1 = Channel2 { nr24: val & 0x7F, ..self };
        let s2 = if self.nr24 & 0x40 == 0 && val & 0x40 != 0 && frame_seq_step & 1 == 1 {
            s1.length_step()
        } else {
            s1
        };
        if val & 0x80 != 0 { s2.trigger_spec(frame_seq_step) } else { s2 }
    }

    /// State after APU power-off.
    pub open spec fn powered_off(self) -> Self {
        Channel2 {
                nr21: 0, nr22: 0, nr23: 0, nr24: 0,
                enabled: false, dac_enabled: false, freq_timer: 0, duty_pos: 0,
                length_counter: 0, env_volume: 0, env_timer: 0, env_running: false,
            }
    }

    pub open spec fn freq_spec(self) -> u16 {
        ((self.nr24 as u16 & 0x07) << 8) | self.nr23 as u16
    }

    pub open spec fn period_spec(self) -> int {
        (2048 - self.freq_spec()) * 4
    }

    pub open spec fn length_step(self) -> Self {
        if self.length_counter > 0 {
            Channel2 {
                length_counter: (self.length_counter - 1) as u8,
                enabled: if self.length_counter == 1 { false } else { self.enabled },
                ..self
            }
        } else {
            self
        }
    }

    pub open spec fn trigger_spec(self, step: u8) -> Self {
        let len = if self.length_counter == 0 {
            if step & 1 == 1 && self.nr24 & 0x40 != 0 { 63u8 } else { 64u8 }
        } else {
            self.length_counter
        };
        Channel2 {
            enabled: self.dac_enabled,
            length_counter: len,
            freq_timer: self.period_spec() as u32,
            env_volume: (self.nr22 >> 4) & 0x0F,
            env_timer: period_or_8(self.nr22 & 0x07),
            env_running: true,
            ..self
        }
    }

    /// Power-on state.
    pub open spec fn initial() -> Self {
        Channel2 {
                nr21: 0x3F, nr22: 0x00, nr23: 0xFF, nr24: 0xBF,
                enabled: false, dac_enabled: false, freq_timer: 0, duty_pos: 0,
                length_counter: 0, env_volume: 0, env_timer: 0, env_running: false,
            }
    }

    pub fn new() -> (r: Self)
        ensures
            r == Channel2::initial(),
    {
        Channel2 {
            nr21: 0x3F,
            nr22: 0x00,
            nr23: 0xFF,
            nr24: 0xBF,
            enabled: false,
            dac_enabled: false,
            freq_timer: 0,
            duty_pos: 0,
            length_counter: 0,
            env_volume: 0,
            env_timer: 0,
            env_running: false,
        }
    }

    pub fn read_nr21(&self) -> (r: u8)
        ensures r == self.nr21 | 0x3F,
    {
        self.nr21 | 0x3F
    }

    pub fn read_nr22(&self) -> (r: u8)
        ensures r == self.nr22,
    {
        self.nr22
    }

    pub fn read_nr23(&self) -> (r: u8)
        ensures r == 0xFF,
    {
        0xFF
    }

    pub fn read_nr24(&self) -> (r: u8)
        ensures r == self.nr24 | 0xBF,
    {
        self.nr24 | 0xBF
    }

    pub fn write_nr21(&mut self, val: u8)
        ensures
            *final(self) == old(self).nr21_written(val),
    {
        proof { lemma_u8_fields(val); }
        self.nr21 = val;
        self.length_counter = 64 - (val & 0x3F);
    }

    pub fn write_nr22(&mut self, val: u8)
        ensures
            *final(self) == old(self).nr22_written(val),
    {
        self.nr22 = val;
        self.dac_enabled = (val & 0xF8) != 0;
        if !self.dac_enabled {
            self.enabled = false;
        }
    }

    pub fn write_nr23(&mut self, val: u8)
        ensures *final(self) == old(self).nr23_written(val),
    {
        self.nr23 = val;
    }

    pub fn write_nr24(&mut self, val: u8, frame_seq_step: u8)
        ensures
            *final(self) == old(self).nr24_written(val, frame_seq_step),
    {
        let old_len_en = (self.nr24 & 0x40) != 0;
        let new_len_en = (val & 0x40) != 0;
        let trigger = (val & 0x80) != 0;
        self.nr24 = val & 0x7F;
        if !old_len_en && new_len_en && (frame_seq_step & 1) == 1 {
            self.clock_length_inner();
        }
        if trigger {
            self.trigger(frame_seq_step);
        }
    }

    pub fn clock_length(&mut self)
        ensures
            *final(self) == old(self).length_clocked(),
    {
        if (self.nr24 & 0x40) != 0 {
            self.clock_length_inner();
        }
    }

    pub fn clock_length_inner(&mut self)
        ensures *final(self) == old(self).length_step(),
    {
        if self.length_counter > 0 {
            self.length_counter -= 1;
            if self.length_counter == 0 {
                self.enabled = false;
            }
        }
    }

    /// Frame-sequencer envelope clock (see `Channel1::clock_envelope`).
    pub fn clock_envelope(&mut self)
        ensures
            *final(self) == old(self).envelope_clocked(),
    {
        if self.env_timer > 0 {
            self.env_timer -= 1;
        }
        if self.env_timer == 0 && self.env_running {
            let period = self.nr22 & 0x07;
            self.env_timer = if period == 0 { 8 } else { period };
            let add = (self.nr22 & 0x08) != 0;
            if add && self.env_volume < 15 {
                self.env_volume += 1;
            } else if !add && self.env_volume > 0 {
                self.env_volume -= 1;
            } else {
                self.env_running = false;
            }
        }
    }

    /// Advance the frequency timer by `cycles` T-cycles and return the
    /// current amplitude (0-15); a silent channel outputs 0 and does not advance.
    pub fn tick(&mut self, cycles: u32) -> (r: u8)
        requires
            old(self).duty_pos < 8,
        ensures
            (*final(self), r) == old(self).tick_spec(cycles),
            final(self).duty_pos < 8,
    {
        if !self.enabled || !self.dac_enabled {
            return 0;
        }
        let ghost o = *self;
        proof { lemma_freq11(self.nr24, self.nr23); }
        let mut remaining = cycles;
        let ghost mut n: nat = 0;
        while remaining > 0
            invariant
                o.freq_spec() <= 2047,
                self.duty_pos < 8,
                *self == (Channel2 { freq_timer: self.freq_timer, duty_pos: self.duty_pos, ..o }),
                ({
                    let total = timer_steps(o.freq_timer as int, o.period_spec(), cycles as int);
                    let rest = timer_steps(self.freq_timer as int, o.period_spec(), remaining as int);
                    &&& rest.0 == total.0
                    &&& advance_pos8(self.duty_pos, rest.1) == advance_pos8(o.duty_pos, total.1)
                    &&& (n == 0 ==> self.duty_pos == o.duty_pos)
                }),
            decreases remaining, (if self.freq_timer == 0 { 1int } else { 0int }),
        {
            let ghost t0 = self.freq_timer as int;
            let ghost r0 = remaining as int;
            let ghost pos0 = self.duty_pos;
            let step = if remaining < self.freq_timer { remaining } else { self.freq_timer };
            self.freq_timer = self.freq_timer - step;
            remaining = remaining - step;
            if self.freq_timer == 0 {
                let freq = self.frequency();
                self.freq_timer = (2048 - freq as u32) * 4;
                self.duty_pos = (self.duty_pos + 1) & 7;
                proof {
                    n = n + 1;
                    lemma_u8_fields((pos0 + 1) as u8);
                    lemma_advance_pos8_step(pos0, timer_steps(self.freq_timer as int, o.period_spec(), remaining as int).1);
                    assert(timer_steps(t0, o.period_spec(), r0) == ({
                        let r = timer_steps(o.period_spec(), o.period_spec(), remaining as int);
                        (r.0, r.1 + 1)
                    }));
                }
            } else {
                proof {
                    assert(timer_steps(t0, o.period_spec(), r0) == (self.freq_timer as int, 0nat));
                    assert(timer_steps(self.freq_timer as int, o.period_spec(), remaining as int) == (self.freq_timer as int, 0nat));
                }
            }
        }
        proof { lemma_u8_fields(self.nr21); }
        let level = duty_level(self.duty(), self.duty_pos);
        proof { assert(level * self.env_volume <= 255) by (nonlinear_arith) requires level <= 1; }
        level * self.env_volume
    }

    pub fn frequency(&self) -> (r: u16)
        ensures r == self.freq_spec(), r <= 2047,
    {
        proof { lemma_freq11(self.nr24, self.nr23); }
        ((self.nr24 as u16 & 0x07) << 8) | self.nr23 as u16
    }

    pub fn duty(&self) -> (r: u8)
        ensures r == (self.nr21 >> 6) & 0x03, r <= 3,
    {
        proof { lemma_u8_fields(self.nr21); }
        (self.nr21 >> 6) & 0x03
    }

    pub fn trigger(&mut self, frame_seq_step: u8)
        ensures *final(self) == old(self).trigger_spec(frame_seq_step),
    {
        self.enabled = self.dac_enabled;
        if self.length_counter == 0 {
            self.length_counter = 64;
            if (frame_seq_step & 1) == 1 && (self.nr24 & 0x40) != 0 {
                self.length_counter = 63;
            }
        }
        let freq = self.frequency();
        self.freq_timer = (2048 - freq as u32) * 4;
        proof { lemma_u8_fields(self.nr22); }
        self.env_volume = (self.nr22 >> 4) & 0x0F;
        let period = self.nr22 & 0x07;
        self.env_timer = if period == 0 { 8 } else { period };
        self.env_running = true;
    }

    pub fn power_off(&mut self)
        ensures
            *final(self) == old(self).powered_off(),
    {
        self.nr21 = 0;
        self.nr22 = 0;
        self.nr23 = 0;
        self.nr24 = 0;
        self.enabled = false;
        self.dac_enabled = false;
        self.freq_timer = 0;
        self.duty_pos = 0;
        self.length_counter = 0;
        self.env_volume = 0;
        self.env_timer = 0;
        self.env_running = false;
    }
}

/// The volume envelope moves the volume one step in the direction NR22
/// bit 3 selects (set: up, clear: down) each time its timer runs out, and
/// reloads the timer with the period (bits 0-2, 0 counting as 8); at the
/// end of its range (15 going up, 0 going down) it stops instead. Between
/// firings, and once stopped, the volume stays put.
pub proof fn law_channel2_envelope(c: Channel2)
    ensures ({
        let e = c.envelope_clocked();
        let fires = c.env_running && c.env_timer <= 1;
        &&& fires && c.nr22 & 0x08 == 0 && c.env_volume > 0 ==> e.env_volume == c.env_volume - 1 && e.env_running
        &&& fires && c.nr22 & 0x08 != 0 && c.env_volume < 15 ==> e.env_volume == c.env_volume + 1 && e.env_running
        &&& fires && c.nr22 & 0x08 == 0 && c.env_volume == 0 ==> e.env_volume == 0 && !e.env_running
        &&& fires && c.nr22 & 0x08 != 0 && c.env_volume == 15 ==> e.env_volume == 15 && !e.env_running
        &&& fires ==> e.env_timer == (if c.nr22 & 0x07 == 0 { 8 } else { c.nr22 & 0x07 })
        &&& !fires ==> e.env_volume == c.env_volume && e.env_running == c.env_running
    }),
{
}

/// Triggering (a write to NR24 with bit 7 set) restarts the note: the
/// volume is the NR22 upper nibble, the envelope runs with its period
/// (0 counting as 8), the frequency timer is reloaded with
/// (2048 - frequency) * 4 cycles for the 11-bit frequency in NR23 and the
/// low three bits of the written value, a used-up length counter restarts
/// at 64 (on an even frame-sequencer step), and the channel plays exactly
/// when its DAC is on.
pub proof fn law_channel2_trigger(c: Channel2, val: u8, step: u8)
    requires val & 0x80 != 0,
    ensures ({
        let t = c.nr24_written(val, step);
        let freq = (val % 8) * 256 + c.nr23;
        &&& t.env_volume == c.nr22 / 16
        &&& t.env_running
        &&& t.env_timer == (if c.nr22 % 8 == 0 { 8 } else { c.nr22 % 8 })
        &&& t.freq_timer == (2048 - freq) * 4
        &&& c.length_counter == 0 && step % 2 == 0 ==> t.length_counter == 64
        &&& c.length_counter > 1 ==> t.length_counter >= c.length_counter - 1
        &&& t.enabled == c.dac_enabled
    }),
{
    crate::bits::lemma_byte_fields(c.nr22, val, c.nr23);
    crate::apu::channel1::lemma_low_bit(step);
}

/// A length clock with length enabled (NR24 bit 6) counts the length
/// counter down by one and silences the channel when it reaches 0; with
/// length disabled or the counter already 0 nothing changes.
pub proof fn law_channel2_length(c: Channel2)
    ensures
        c.nr24 & 0x40 == 0 || c.length_counter == 0 ==> c.length_clocked() == c,
        c.nr24 & 0x40 != 0 && c.length_counter > 0 ==> c.length_clocked()
            == (Channel2 { length_counter: (c.length_counter - 1) as u8, enabled: c.enabled && c.length_counter != 1, ..c }),
{
}

/// Writing NR21 loads the length counter with 64 minus its low six bits.
pub proof fn law_channel2_length_load(c: Channel2, val: u8)
    ensures c.nr21_written(val).length_counter == 64 - val % 64,
{
    crate::bits::lemma_byte_fields(val, val, val);
}

} // verus!
