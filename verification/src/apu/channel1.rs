//! Channel 1 — pulse wave with frequency sweep.
//!
//! A square-wave generator with a selectable duty cycle, a length counter,
//! a volume envelope and the hardware frequency sweep unit.

use vstd::prelude::*;
use crate::bits::{lemma_u8_fields, lemma_freq11};
use crate::apu::timer_steps;

verus! {

/// Output level (0 or 1) of the pulse waveform at step `pos` of duty pattern `duty`.
///
/// | duty | pattern (pos 0..7) |
/// |------|--------------------|
/// | 0    | 0 0 0 0 0 0 0 1    |
/// | 1    | 1 0 0 0 0 0 0 1    |
/// | 2    | 1 0 0 0 0 1 1 1    |
/// | 3    | 0 1 1 1 1 1 1 0    |
pub open spec fn duty_bit(duty: u8, pos: u8) -> u8 {
    if duty == 0 {
        if pos == 7 { 1 } else { 0 }
    } else if duty == 1 {
        if pos == 0 || pos == 7 { 1 } else { 0 }
    } else if duty == 2 {
        if pos == 0 || pos >= 5 { 1 } else { 0 }
    } else {
        if 1 <= pos <= 6 { 1 } else { 0 }
    }
}

/// Executable lookup of [`duty_bit`].
pub fn duty_level(duty: u8, pos: u8) -> (r: u8)
    ensures
        r == duty_bit(duty, pos),
        r <= 1,
{
    if duty == 0 {
        if pos == 7 { 1 } else { 0 }
    } else if duty == 1 {
        if pos == 0 || pos == 7 { 1 } else { 0 }
    } else if duty == 2 {
        if pos == 0 || pos >= 5 { 1 } else { 0 }
    } else {
        if 1 <= pos && pos <= 6 { 1 } else { 0 }
    }
}

/// Reload value of an envelope or sweep timer for a 3-bit period (0 counts as 8).
pub open spec fn period_or_8(period: u8) -> u8 {
    if period == 0 { 8 } else { period }
}

/// Position after `n` advances of a 3-bit step counter that starts at `pos`.
pub open spec fn advance_pos8(pos: u8, n: nat) -> u8 {
    if n == 0 { pos } else { ((pos as int + n) % 8) as u8 }
}

/// Advancing once and then `n` more times is advancing `n + 1` times.
pub proof fn lemma_advance_pos8_step(pos: u8, n: nat)
    requires
        pos < 8,
    ensures
        advance_pos8(((pos + 1) % 8) as u8, n) == advance_pos8(pos, n + 1),
{
    vstd::arithmetic::div_mod::lemma_add_mod_noop(pos as int + 1, n as int, 8int);
    vstd::arithmetic::div_mod::lemma_small_mod(((pos as int + 1) % 8) as nat, 8nat);
}

pub struct Channel1 {
    /// Sweep register: `-PPP NSSS` (period, negate, shift).
    pub nr10: u8,
    /// Duty and length: `DDLL LLLL`.
    pub nr11: u8,
    /// Envelope: `VVVV APPP` (initial volume, add, period).
    pub nr12: u8,
    /// Frequency low byte.
    pub nr13: u8,
    /// Control: `TL-- -FFF` (trigger, length enable, frequency high bits).
    pub nr14: u8,
    pub enabled: bool,
    pub dac_enabled: bool,
    pub freq_timer: u32,
    pub duty_pos: u8,
    pub length_counter: u8,
    pub env_volume: u8,
    pub env_timer: u8,
    pub env_running: bool,
    pub sweep_timer: u8,
    pub sweep_enabled: bool,
    pub shadow_freq: u16,
    pub sweep_negate_used: bool,
}

impl Channel1 {
    /// State and amplitude after running the channel for `cycles` T-cycles.
    pub open spec fn tick_spec(self, cycles: u32) -> (Self, u8) {
        let o = self;
        if !o.enabled || !o.dac_enabled {
            (o, 0u8)
        } else {
            let run = timer_steps(o.freq_timer as int, o.period_spec(), cycles as int);
            let s = Channel1 {
                freq_timer: run.0 as u32,
                duty_pos: advance_pos8(o.duty_pos, run.1),
                ..o
            };
            (s, (duty_bit((o.nr11 >> 6) & 0x03, s.duty_pos) * o.env_volume) as u8)
        }
    }

    /// State after a frame-sequencer length clock.
    pub open spec fn length_clocked(self) -> Self {
        if self.nr14 & 0x40 != 0 { self.length_step() } else { self }
    }

    /// State after a frame-sequencer envelope clock.
    pub open spec fn envelope_clocked(self) -> Self {
        let o = self;
        let t = if o.env_timer > 0 { (o.env_timer - 1) as u8 } else { 0u8 };
        let add = o.nr12 & 0x08 != 0;
        if t == 0 && o.env_running {
            let s = Channel1 { env_timer: period_or_8(o.nr12 & 0x07), ..o };
            if add && o.env_volume < 15 {
                Channel1 { env_volume: (o.env_volume + 1) as u8, ..s }
            } else if !add && o.env_volume > 0 {
                Channel1 { env_volume: (o.env_volume - 1) as u8, ..s }
            } else {
                Channel1 { env_running: false, ..s }
            }
        } else {
            Channel1 { env_timer: t, ..o }
        }
    }

    /// State after a frame-sequencer sweep clock.
    pub open spec fn sweep_clocked(self) -> Self {
        let o = self;
        let t = if o.sweep_timer > 0 { (o.sweep_timer - 1) as u8 } else { 0u8 };
        let period = (o.nr10 >> 4) & 0x07;
        if t != 0 {
            Channel1 { sweep_timer: t, ..o }
        } else {
            let s1 = Channel1 { sweep_timer: period_or_8(period), ..o };
            if s1.sweep_enabled && period != 0 {
                let nf = s1.sweep_target();
                let s2 = s1.sweep_check();
                if nf <= 2047 && o.nr10 & 0x07 != 0 {
                    let s3 = Channel1 {
                        shadow_freq: nf,
                        nr13: (nf & 0xFF) as u8,
                        nr14: (s2.nr14 & 0xF8) | (((nf >> 8) as u8) & 0x07),
                        ..s2
                    };
                    s3.sweep_check()
                } else {
                    s2
                }
            } else {
                s1
            }
        }
    }

    /// State after writing `val` to NR10.
    pub open spec fn nr10_written(self, val: u8) -> Self {
        Channel1 {
                nr10: val & 0x7F,
                enabled: if self.sweep_negate_used && self.nr10 & 0x08 != 0
                    && val & 0x08 == 0 { false } else { self.enabled },
                ..self
            }
    }

    /// State after writing `val` to NR11.
    pub open spec fn nr11_written(self, val: u8) -> Self {
        Channel1 {
                nr11: val,
                length_counter: (64 - (val & 0x3F)) as u8,
                ..self
            }
    }

    /// State after writing `val` to NR12.
    pub open spec fn nr12_written(self, val: u8) -> Self {
        Channel1 {
                nr12: val,
                dac_enabled: val & 0xF8 != 0,
                enabled: if val & 0xF8 == 0 { false } else { self.enabled },
                ..self
            }
    }

    /// State after writing `val` to NR13.
    pub open spec fn nr13_written(self, val: u8) -> Self {
        Channel1 { nr13: val, ..self }
    }

    /// State after writing `val` to NR14 on frame-sequencer step `frame_seq_step`:
    /// enabling the length counter on an odd step clocks it once, bit 7 triggers.
    pub open spec fn nr14_written(self, val: u8, frame_seq_step: u8) -> Self {
        let s1 = Channel1 { nr14: val & 0x7F, ..self };
        let s2 = if self.nr14 & 0x40 == 0 && val & 0x40 != 0 && frame_seq_step & 1 == 1 {
            s1.length_step()
        } else {
            s1
        };
        if val & 0x80 != 0 { s2.trigger_spec(frame_seq_step) } else { s2 }
    }

    /// State after APU power-off.
    pub open spec fn powered_off(self) -> Self {
        Channel1 {
                nr10: 0, nr11: 0, nr12: 0, nr13: 0, nr14: 0,
                enabled: false, dac_enabled: false, freq_timer: 0, duty_pos: 0,
                length_counter: 0, env_volume: 0, env_timer: 0, env_running: false,
                sweep_timer: 0, sweep_enabled: false, shadow_freq: 0, sweep_negate_used: false,
            }
    }

    /// The 11-bit frequency value held in NR13/NR14.
    pub open spec fn freq_spec(self) -> u16 {
        ((self.nr14 as u16 & 0x07) << 8) | self.nr13 as u16
    }

    /// Timer period in T-cycles of one duty step.
    pub open spec fn period_spec(self) -> int {
        (2048 - self.freq_spec()) * 4
    }

    /// Decrement of the length counter; reaching zero silences the channel.
    pub open spec fn length_step(self) -> Self {
        if self.length_counter > 0 {
            Channel1 {
                length_counter: (self.length_counter - 1) as u8,
                enabled: if self.length_counter == 1 { false } else { self.enabled },
                ..self
            }
        } else {
            self
        }
    }

    /// The sweep unit's next frequency: the shadow frequency plus or minus
    /// itself shifted right by the sweep shift, wrapping at 16 bits.
    pub open spec fn sweep_target(self) -> u16 {
        let delta = self.shadow_freq >> ((self.nr10 & 0x07) as u16);
        if self.nr10 & 0x08 != 0 {
            vstd::wrapping::u16_specs::wrapping_sub(self.shadow_freq, delta)
        } else {
            vstd::wrapping::u16_specs::wrapping_add(self.shadow_freq, delta)
        }
    }

    /// Computing the sweep target: a negating computation is remembered, and a
    /// target above 2047 disables the channel.
    pub open spec fn sweep_check(self) -> Self {
        Channel1 {
            sweep_negate_used: if self.nr10 & 0x08 != 0 { true } else { self.sweep_negate_used },
            enabled: if self.sweep_target() > 2047 { false } else { self.enabled },
            ..self
        }
    }

    /// State after a trigger event on frame-sequencer step `step`.
    pub open spec fn trigger_spec(self, step: u8) -> Self {
        let len = if self.length_counter == 0 {
            if step & 1 == 1 && self.nr14 & 0x40 != 0 { 63u8 } else { 64u8 }
        } else {
            self.length_counter
        };
        let sweep_period = (self.nr10 >> 4) & 0x07;
        let sweep_shift = self.nr10 & 0x07;
        let s = Channel1 {
            enabled: self.dac_enabled,
            length_counter: len,
            freq_timer: self.period_spec() as u32,
            env_volume: (self.nr12 >> 4) & 0x0F,
            env_timer: period_or_8(self.nr12 & 0x07),
            env_running: true,
            shadow_freq: self.freq_spec(),
            sweep_negate_used: false,
            sweep_timer: period_or_8(sweep_period),
            sweep_enabled: sweep_period != 0 || sweep_shift != 0,
            ..self
        };
        if sweep_shift != 0 { s.sweep_check() } else { s }
    }

    /// Power-on state.
    pub open spec fn initial() -> Self {
        Channel1 {
                nr10: 0x80, nr11: 0xBF, nr12: 0xF3, nr13: 0xFF, nr14: 0xBF,
                enabled: false, dac_enabled: true, freq_timer: 0, duty_pos: 0,
                length_counter: 63, env_volume: 0xF, env_timer: 3, env_running: true,
                sweep_timer: 0, sweep_enabled: false, shadow_freq: 0, sweep_negate_used: false,
            }
    }

    pub fn new() -> (r: Self)
        ensures
            r == Channel1::initial(),
    {
        Channel1 {
            nr10: 0x80,
            nr11: 0xBF,
            nr12: 0xF3,
            nr13: 0xFF,
            nr14: 0xBF,
            enabled: false,
            dac_enabled: true,
            freq_timer: 0,
            duty_pos: 0,
            length_counter: 63,
            env_volume: 0xF,
            env_timer: 3,
            env_running: true,
            sweep_timer: 0,
            sweep_enabled: false,
            shadow_freq: 0,
            sweep_negate_used: false,
        }
    }

    pub fn read_nr10(&self) -> (r: u8)
        ensures r == self.nr10 | 0x80,
    {
        self.nr10 | 0x80
    }

    pub fn read_nr11(&self) -> (r: u8)
        ensures r == self.nr11 | 0x3F,
    {
        self.nr11 | 0x3F
    }

    pub fn read_nr12(&self) -> (r: u8)
        ensures r == self.nr12,
    {
        self.nr12
    }

    pub fn read_nr13(&self) -> (r: u8)
        ensures r == 0xFF,
    {
        0xFF
    }

    pub fn read_nr14(&self) -> (r: u8)
        ensures r == self.nr14 | 0xBF,
    {
        self.nr14 | 0xBF
    }

    /// Turning the sweep direction from subtract back to add after a
    /// subtracting sweep computation silences the channel.
    pub fn write_nr10(&mut self, val: u8)
        ensures
            *final(self) == old(self).nr10_written(val),
    {
        let old_negate = (self.nr10 & 0x08) != 0;
        let new_negate = (val & 0x08) != 0;
        if self.sweep_negate_used && old_negate && !new_negate {
            self.enabled = false;
        }
        self.nr10 = val & 0x7F;
    }

    pub fn write_nr11(&mut self, val: u8)
        ensures
            *final(self) == old(self).nr11_written(val),
    {
        proof { lemma_u8_fields(val); }
        self.nr11 = val;
        self.length_counter = 64 - (val & 0x3F);
    }

    pub fn write_nr12(&mut self, val: u8)
        ensures
            *final(self) == old(self).nr12_written(val),
    {
        self.nr12 = val;
        self.dac_enabled = (val & 0xF8) != 0;
        if !self.dac_enabled {
            self.enabled = false;
        }
    }

    pub fn write_nr13(&mut self, val: u8)
        ensures *final(self) == old(self).nr13_written(val),
    {
        self.nr13 = val;
    }

    /// Writing NR14: enabling the length counter on an odd frame-sequencer
    /// step clocks it once; bit 7 triggers the channel.
    pub fn write_nr14(&mut self, val: u8, frame_seq_step: u8)
        ensures
            *final(self) == old(self).nr14_written(val, frame_seq_step),
    {
        let old_len_en = (self.nr14 & 0x40) != 0;
        let new_len_en = (val & 0x40) != 0;
        let trigger = (val & 0x80) != 0;
        self.nr14 = val & 0x7F;
        if !old_len_en && new_len_en && (frame_seq_step & 1) == 1 {
            self.clock_length_inner();
        }
        if trigger {
            self.trigger(frame_seq_step);
        }
    }

    /// Frame-sequencer length clock; only counts when NR14 bit 6 is set.
    pub fn clock_length(&mut self)
        ensures
            *final(self) == old(self).length_clocked(),
    {
        if (self.nr14 & 0x40) != 0 {
            self.clock_length_inner();
        }
    }

    pub fn clock_length_inner(&mut self)
        ensures *final(self) == old(self).length_step(),
    {
        if self.length_counter > 0 {
            self.length_counter -= 1;
            if self.length_counter == 0 {
                self.enabled = false;
            }
        }
    }

    /// Frame-sequencer sweep clock.
    ///
    /// The sweep timer counts down; at zero it reloads from the sweep period
    /// (0 counts as 8). When the sweep is enabled and the period is non-zero
    /// the target frequency is computed; if it fits in 11 bits and the shift is
    /// non-zero it becomes the new frequency, and the target is computed once
    /// more for the overflow check.
    pub fn clock_sweep(&mut self)
        ensures
            *final(self) == old(self).sweep_clocked(),
    {
        if self.sweep_timer > 0 {
            self.sweep_timer -= 1;
        }
        if self.sweep_timer == 0 {
            proof { lemma_u8_fields(self.nr10); }
            let period = (self.nr10 >> 4) & 0x07;
            self.sweep_timer = if period == 0 { 8 } else { period };
            if self.sweep_enabled && period != 0 {
                let new_freq = self.calc_new_freq();
                let shift = self.nr10 & 0x07;
                if new_freq <= 2047 && shift != 0 {
                    self.shadow_freq = new_freq;
                    self.nr13 = (new_freq & 0xFF) as u8;
                    self.nr14 = (self.nr14 & 0xF8) | ((new_freq >> 8) as u8 & 0x07);
                    self.calc_new_freq();
                }
            }
        }
    }

    /// Frame-sequencer envelope clock.
    ///
    /// The envelope timer counts down; at zero (while the envelope runs) it
    /// reloads from the period (0 counts as 8) and the volume moves one step
    /// in the configured direction, or the envelope stops at 0 or 15.
    pub fn clock_envelope(&mut self)
        ensures
            *final(self) == old(self).envelope_clocked(),
    {
        if self.env_timer > 0 {
            self.env_timer -= 1;
        }
        if self.env_timer == 0 && self.env_running {
            let period = self.nr12 & 0x07;
            self.env_timer = if period == 0 { 8 } else { period };
            let add = (self.nr12 & 0x08) != 0;
            if add && self.env_volume < 15 {
                self.env_volume += 1;
            } else if !add && self.env_volume > 0 {
                self.env_volume -= 1;
            } else {
                self.env_running = false;
            }
        }
    }

    /// Advance the frequency timer by `cycles` T-cycles and return the current
    /// amplitude (0-15). A silent channel (disabled or DAC off) outputs 0 and
    /// does not advance.
    pub fn tick(&mut self, cycles: u32) -> (r: u8)
        requires
            old(self).duty_pos < 8,
        ensures
            (*final(self), r) == old(self).tick_spec(cycles),
            final(self).duty_pos < 8,
    {
        if !self.enabled || !self.dac_enabled {
            return 0;
        }
        let ghost o = *self;
        proof { lemma_freq11(self.nr14, self.nr13); }
        let mut remaining = cycles;
        let ghost mut n: nat = 0;
        while remaining > 0
            invariant
                self.freq_timer as int >= 0,
                o.freq_spec() <= 2047,
                self.nr14 == o.nr14 && self.nr13 == o.nr13 && self.nr11 == o.nr11,
                self.duty_pos < 8,
                *self == (Channel1 { freq_timer: self.freq_timer, duty_pos: self.duty_pos, ..o }),
                ({
                    let total = timer_steps(o.freq_timer as int, o.period_spec(), cycles as int);
                    let rest = timer_steps(self.freq_timer as int, o.period_spec(), remaining as int);
                    &&& rest.0 == total.0
                    &&& advance_pos8(self.duty_pos, rest.1) == advance_pos8(o.duty_pos, total.1)
                    &&& (n == 0 ==> self.duty_pos == o.duty_pos)
                }),
            decreases remaining, (if self.freq_timer == 0 { 1int } else { 0int }),
        {
            let ghost t0 = self.freq_timer as int;
            let ghost r0 = remaining as int;
            let ghost pos0 = self.duty_pos;
            let step = if remaining < self.freq_timer { remaining } else { self.freq_timer };
            self.freq_timer = self.freq_timer - step;
            remaining = remaining - step;
            if self.freq_timer == 0 {
                let freq = self.frequency();
                self.freq_timer = (2048 - freq as u32) * 4;
                self.duty_pos = (self.duty_pos + 1) & 7;
                proof {
                    n = n + 1;
                    lemma_u8_fields((pos0 + 1) as u8);
                    lemma_advance_pos8_step(pos0, timer_steps(self.freq_timer as int, o.period_spec(), remaining as int).1);
                    assert(timer_steps(t0, o.period_spec(), r0) == ({
                        let r = timer_steps(o.period_spec(), o.period_spec(), remaining as int);
                        (r.0, r.1 + 1)
                    }));
                }
            } else {
                proof {
                    assert(timer_steps(t0, o.period_spec(), r0) == (self.freq_timer as int, 0nat));
                    assert(timer_steps(self.freq_timer as int, o.period_spec(), remaining as int) == (self.freq_timer as int, 0nat));
                }
            }
        }
        proof { lemma_u8_fields(self.nr11); }
        let level = duty_level(self.duty(), self.duty_pos);
        proof { assert(level * self.env_volume <= 255) by (nonlinear_arith) requires level <= 1; }
        level * self.env_volume
    }

    pub fn frequency(&self) -> (r: u16)
        ensures r == self.freq_spec(), r <= 2047,
    {
        proof { lemma_freq11(self.nr14, self.nr13); }
        ((self.nr14 as u16 & 0x07) << 8) | self.nr13 as u16
    }

    pub fn duty(&self) -> (r: u8)
        ensures r == (self.nr11 >> 6) & 0x03, r <= 3,
    {
        proof { lemma_u8_fields(self.nr11); }
        (self.nr11 >> 6) & 0x03
    }

    pub fn calc_new_freq(&mut self) -> (r: u16)
        ensures
            r == old(self).sweep_target(),
            *final(self) == old(self).sweep_check(),
    {
        proof { lemma_u8_fields(self.nr10); }
        let negate = (self.nr10 & 0x08) != 0;
        let shift = (self.nr10 & 0x07) as u16;
        let delta = self.shadow_freq >> shift;
        let new_freq = if negate {
            self.sweep_negate_used = true;
            self.shadow_freq.wrapping_sub(delta)
        } else {
            self.shadow_freq.wrapping_add(delta)
        };
        if new_freq > 2047 {
            self.enabled = false;
        }
        new_freq
    }

    pub fn trigger(&mut self, frame_seq_step: u8)
        ensures *final(self) == old(self).trigger_spec(frame_seq_step),
    {
        self.enabled = self.dac_enabled;
        if self.length_counter == 0 {
            self.length_counter = 64;
            if (frame_seq_step & 1) == 1 && (self.nr14 & 0x40) != 0 {
                self.length_counter = 63;
            }
        }
        let freq = self.frequency();
        self.freq_timer = (2048 - freq as u32) * 4;
        proof { lemma_u8_fields(self.nr12); lemma_u8_fields(self.nr10); }
        self.env_volume = (self.nr12 >> 4) & 0x0F;
        let period = self.nr12 & 0x07;
        self.env_timer = if period == 0 { 8 } else { period };
        self.env_running = true;
        self.shadow_freq = freq;
        self.sweep_negate_used = false;
        let sweep_period = (self.nr10 >> 4) & 0x07;
        let sweep_shift = self.nr10 & 0x07;
        self.sweep_timer = if sweep_period == 0 { 8 } else { sweep_period };
        self.sweep_enabled = sweep_period != 0 || sweep_shift != 0;
        if sweep_shift != 0 {
            self.calc_new_freq();
        }
    }

    /// APU power-off clears every register and counter.
    pub fn power_off(&mut self)
        ensures
            *final(self) == old(self).powered_off(),
    {
        self.nr10 = 0;
        self.nr11 = 0;
        self.nr12 = 0;
        self.nr13 = 0;
        self.nr14 = 0;
        self.enabled = false;
        self.dac_enabled = false;
        self.freq_timer = 0;
        self.duty_pos = 0;
        self.length_counter = 0;
        self.env_volume = 0;
        self.env_timer = 0;
        self.env_running = false;
        self.sweep_timer = 0;
        self.sweep_enabled = false;
        self.shadow_freq = 0;
        self.sweep_negate_used = false;
    }
}

/// The volume envelope moves the volume one step in the direction NR12
/// bit 3 selects (set: up, clear: down) each time its timer runs out, and
/// reloads the timer with the period (bits 0-2, 0 counting as 8); at the
/// end of its range (15 going up, 0 going down) it stops instead. Between
/// firings, and once stopped, the volume stays put.
pub proof fn law_channel1_envelope(c: Channel1)
    ensures ({
        let e = c.envelope_clocked();
        let fires = c.env_running && c.env_timer <= 1;
        &&& fires && c.nr12 & 0x08 == 0 && c.env_volume > 0 ==> e.env_volume == c.env_volume - 1 && e.env_running
        &&& fires && c.nr12 & 0x08 != 0 && c.env_volume < 15 ==> e.env_volume == c.env_volume + 1 && e.env_running
        &&& fires && c.nr12 & 0x08 == 0 && c.env_volume == 0 ==> e.env_volume == 0 && !e.env_running
        &&& fires && c.nr12 & 0x08 != 0 && c.env_volume == 15 ==> e.env_volume == 15 && !e.env_running
        &&& fires ==> e.env_timer == (if c.nr12 & 0x07 == 0 { 8 } else { c.nr12 & 0x07 })
        &&& !fires ==> e.env_volume == c.env_volume && e.env_running == c.env_running
    }),
{
}

/// Triggering (a write to NR14 with bit 7 set) restarts the note: the
/// volume is the NR12 upper nibble, the envelope runs with its period
/// (0 counting as 8), the frequency timer is reloaded with
/// (2048 - frequency) * 4 cycles for the 11-bit frequency in NR13 and the
/// low three bits of the written value, a used-up length counter restarts
/// at 64 (on an even frame-sequencer step), and the channel plays exactly
/// when its DAC is on (with no sweep shift).
pub proof fn law_channel1_trigger(c: Channel1, val: u8, step: u8)
    requires val & 0x80 != 0,
    ensures ({
        let t = c.nr14_written(val, step);
        let freq = (val % 8) * 256 + c.nr13;
        &&& t.env_volume == c.nr12 / 16
        &&& t.env_running
        &&& t.env_timer == (if c.nr12 % 8 == 0 { 8 } else { c.nr12 % 8 })
        &&& t.freq_timer == (2048 - freq) * 4
        &&& c.length_counter == 0 && step % 2 == 0 ==> t.length_counter == 64
        &&& c.length_counter > 1 ==> t.length_counter >= c.length_counter - 1
        &&& c.nr10 % 8 == 0 ==> t.enabled == c.dac_enabled
    }),
{
    crate::bits::lemma_byte_fields(c.nr12, val, c.nr13);
    lemma_low_bit(step);
    crate::bits::lemma_byte_fields(c.nr10, val, c.nr13);
}

/// A length clock with length enabled (NR14 bit 6) counts the length
/// counter down by one and silences the channel when it reaches 0; with
/// length disabled or the counter already 0 nothing changes.
pub proof fn law_channel1_length(c: Channel1)
    ensures
        c.nr14 & 0x40 == 0 || c.length_counter == 0 ==> c.length_clocked() == c,
        c.nr14 & 0x40 != 0 && c.length_counter > 0 ==> c.length_clocked()
            == (Channel1 { length_counter: (c.length_counter - 1) as u8, enabled: c.enabled && c.length_counter != 1, ..c }),
{
}

/// Writing NR11 loads the length counter with 64 minus its low six bits.
pub proof fn law_channel1_length_load(c: Channel1, val: u8)
    ensures c.nr11_written(val).length_counter == 64 - val % 64,
{
    crate::bits::lemma_byte_fields(val, val, val);
}

/// The sweep unit's next frequency adds (NR10 bit 3 clear) or subtracts
/// (set) the shadow frequency divided by 2 to the power of the sweep shift
/// (NR10 bits 0-2), adding modulo 0x10000; computing it silences the
/// channel exactly when it exceeds 2047.
pub proof fn law_channel1_sweep(c: Channel1)
    ensures ({
        let d = (c.shadow_freq as nat) / vstd::arithmetic::power2::pow2((c.nr10 % 8) as nat);
        &&& c.nr10 & 0x08 == 0 ==> c.sweep_target() == (c.shadow_freq + d) % 0x10000
        &&& c.nr10 & 0x08 != 0 ==> c.sweep_target() == c.shadow_freq - d
        &&& c.sweep_check().enabled == (c.enabled && c.sweep_target() <= 2047)
    }),
{
    let s = c.nr10 % 8;
    crate::bits::lemma_byte_fields(c.nr10, c.nr10, c.nr10);
    vstd::bits::lemma_u16_shr_is_div(c.shadow_freq, s as u16);
    vstd::arithmetic::power2::lemma_pow2_pos(s as nat);
    let p = vstd::arithmetic::power2::pow2(s as nat);
    vstd::arithmetic::div_mod::lemma_div_is_ordered_by_denominator(c.shadow_freq as int, 1, p as int);
}

/// Bit 0 is the remainder modulo 2.
pub proof fn lemma_low_bit(x: u8)
    ensures (x & 1 == 1) == (x % 2 == 1),
{
    assert((x & 1 == 1) == (x % 2 == 1)) by (bit_vector);
}

/// The four pulse duty cycles are high for 1, 2, 4 and 6 of their 8 steps
/// (12.5%, 25%, 50%, 75%), and the 75% pattern is the complement of the
/// 25% one: 25% is high on the last and first step, 75% on the six between.
pub proof fn law_duty_cycles(d: u8)
    requires d < 4,
    ensures
        duty_bit(d, 0) + duty_bit(d, 1) + duty_bit(d, 2) + duty_bit(d, 3)
            + duty_bit(d, 4) + duty_bit(d, 5) + duty_bit(d, 6) + duty_bit(d, 7)
            == (if d == 0 { 1int } else if d == 1 { 2 } else if d == 2 { 4 } else { 6 }),
        forall|p: u8| p < 8 ==> #[trigger] duty_bit(3, p) == 1 - duty_bit(1, p),
{
}

} // verus!
