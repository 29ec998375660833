//! Game Boy APU (audio processing unit): register file, frame sequencer and
//! the four tone generators.
//!
//! The APU produces, for every CPU step, one 4-bit amplitude per channel.
//! Mixing those amplitudes into PCM samples is done by the host.

use vstd::prelude::*;

pub mod channel1;
pub mod channel2;
pub mod channel3;
pub mod channel4;

use crate::bits::{lemma_u8_fields, lemma_u16_fields};
use channel1::Channel1;
use channel2::Channel2;
use channel3::Channel3;
use channel4::Channel4;

verus! {

/// Running a down-counting channel timer for `c` T-cycles.
///
/// The timer `t` counts down; whenever it reaches zero it reloads with the
/// period `p` and the channel advances one step. The result is the final timer
/// value and the number of reloads that happened. A timer that already reads
/// zero reloads before consuming any cycle; no reload happens when `c == 0`.
pub open spec fn timer_steps(t: int, p: int, c: int) -> (int, nat)
    decreases c, (if t == 0 { 1int } else { 0int }),
{
    if c <= 0 || p <= 0 || t < 0 {
        (t, 0)
    } else {
        let s = if c < t { c } else { t };
        if t - s == 0 {
            let r = timer_steps(p, p, c - s);
            (r.0, r.1 + 1)
        } else {
            (t - s, 0)
        }
    }
}

/// The APU register file and frame sequencer.
pub struct Apu {
    pub ch1: Channel1,
    pub ch2: Channel2,
    pub ch3: Channel3,
    pub ch4: Channel4,
    /// NR50: master volume (bits 6-4 left, bits 2-0 right) and VIN routing.
    pub nr50: u8,
    /// NR51: per-channel panning (bits 7-4 left, bits 3-0 right).
    pub nr51: u8,
    /// NR52: power bit (bit 7).
    pub nr52: u8,
    /// Frame sequencer step 0-7.
    pub frame_seq_step: u8,
    /// Last seen value of bit 12 of the timer's divider.
    pub prev_div_bit12: bool,
}

impl Apu {
    /// Positions that index the waveform tables stay in range.
    pub open spec fn wf(self) -> bool {
        &&& self.ch1.duty_pos < 8
        &&& self.ch2.duty_pos < 8
        &&& self.ch3.wave_pos < 32
    }

    pub open spec fn powered_spec(self) -> bool {
        self.nr52 & 0x80 != 0
    }

    /// NR52 as read: the power bit, bits 6-4 set, and one status bit per
    /// enabled channel.
    pub open spec fn nr52_spec(self) -> u8 {
        (self.nr52 & 0x80) | 0x70
            | (if self.ch1.enabled { 0x01u8 } else { 0 })
            | (if self.ch2.enabled { 0x02u8 } else { 0 })
            | (if self.ch3.enabled { 0x04u8 } else { 0 })
            | (if self.ch4.enabled { 0x08u8 } else { 0 })
    }

    /// Value read from APU register `addr`.
    pub open spec fn read_spec(self, addr: u16) -> u8 {
        if addr == 0xFF10 { self.ch1.nr10 | 0x80 }
        else if addr == 0xFF11 { self.ch1.nr11 | 0x3F }
        else if addr == 0xFF12 { self.ch1.nr12 }
        else if addr == 0xFF14 { self.ch1.nr14 | 0xBF }
        else if addr == 0xFF16 { self.ch2.nr21 | 0x3F }
        else if addr == 0xFF17 { self.ch2.nr22 }
        else if addr == 0xFF19 { self.ch2.nr24 | 0xBF }
        else if addr == 0xFF1A { self.ch3.nr30 | 0x7F }
        else if addr == 0xFF1C { self.ch3.nr32 | 0x9F }
        else if addr == 0xFF1E { self.ch3.nr34 | 0xBF }
        else if addr == 0xFF21 { self.ch4.nr42 }
        else if addr == 0xFF22 { self.ch4.nr43 }
        else if addr == 0xFF23 { self.ch4.nr44 | 0xBF }
        else if addr == 0xFF24 { self.nr50 }
        else if addr == 0xFF25 { self.nr51 }
        else if addr == 0xFF26 { self.nr52_spec() }
        else if 0xFF30 <= addr <= 0xFF3F { self.ch3.wave_ram@[(addr - 0xFF30) as int] }
        else { 0xFF }
    }

    /// State after NR52 is written: only the power bit is kept; switching the
    /// power off clears every channel, NR50, NR51 and the sequencer step.
    pub open spec fn nr52_written(self, val: u8) -> Self {
        let s = Apu { nr52: val & 0x80, ..self };
        if self.powered_spec() && val & 0x80 == 0 {
            Apu {
                ch1: self.ch1.powered_off(),
                ch2: self.ch2.powered_off(),
                ch3: self.ch3.powered_off(),
                ch4: self.ch4.powered_off(),
                nr50: 0,
                nr51: 0,
                frame_seq_step: 0,
                ..s
            }
        } else {
            s
        }
    }

    /// State after `val` is written to APU register `addr`.
    ///
    /// While powered off only NR52, wave RAM and the length loads (with the
    /// duty bits masked off) accept writes.
    pub open spec fn write_spec(self, addr: u16, val: u8) -> Self {
        let step = self.frame_seq_step;
        if !self.powered_spec() && addr != 0xFF26 && !(0xFF30 <= addr <= 0xFF3F) {
            if addr == 0xFF11 { Apu { ch1: self.ch1.nr11_written(val & 0x3F), ..self } }
            else if addr == 0xFF16 { Apu { ch2: self.ch2.nr21_written(val & 0x3F), ..self } }
            else if addr == 0xFF1B { Apu { ch3: self.ch3.nr31_written(val), ..self } }
            else if addr == 0xFF20 { Apu { ch4: self.ch4.nr41_written(val & 0x3F), ..self } }
            else { self }
        } else if addr == 0xFF10 { Apu { ch1: self.ch1.nr10_written(val), ..self } }
        else if addr == 0xFF11 { Apu { ch1: self.ch1.nr11_written(val), ..self } }
        else if addr == 0xFF12 { Apu { ch1: self.ch1.nr12_written(val), ..self } }
        else if addr == 0xFF13 { Apu { ch1: self.ch1.nr13_written(val), ..self } }
        else if addr == 0xFF14 { Apu { ch1: self.ch1.nr14_written(val, step), ..self } }
        else if addr == 0xFF16 { Apu { ch2: self.ch2.nr21_written(val), ..self } }
        else if addr == 0xFF17 { Apu { ch2: self.ch2.nr22_written(val), ..self } }
        else if addr == 0xFF18 { Apu { ch2: self.ch2.nr23_written(val), ..self } }
        else if addr == 0xFF19 { Apu { ch2: self.ch2.nr24_written(val, step), ..self } }
        else if addr == 0xFF1A { Apu { ch3: self.ch3.nr30_written(val), ..self } }
        else if addr == 0xFF1B { Apu { ch3: self.ch3.nr31_written(val), ..self } }
        else if addr == 0xFF1C { Apu { ch3: self.ch3.nr32_written(val), ..self } }
        else if addr == 0xFF1D { Apu { ch3: self.ch3.nr33_written(val), ..self } }
        else if addr == 0xFF1E { Apu { ch3: self.ch3.nr34_written(val, step), ..self } }
        else if addr == 0xFF20 { Apu { ch4: self.ch4.nr41_written(val), ..self } }
        else if addr == 0xFF21 { Apu { ch4: self.ch4.nr42_written(val), ..self } }
        else if addr == 0xFF22 { Apu { ch4: self.ch4.nr43_written(val), ..self } }
        else if addr == 0xFF23 { Apu { ch4: self.ch4.nr44_written(val, step), ..self } }
        else if addr == 0xFF24 { Apu { nr50: val, ..self } }
        else if addr == 0xFF25 { Apu { nr51: val, ..self } }
        else if addr == 0xFF26 { self.nr52_written(val) }
        else if 0xFF30 <= addr <= 0xFF3F {
            Apu { ch3: self.ch3.wave_written((addr - 0xFF30) as u8, val), ..self }
        } else { self }
    }

    /// One frame-sequencer step: length clocks on steps 0, 2, 4, 6, the sweep
    /// on steps 2 and 6, the envelopes on step 7; then the step advances mod 8.
    pub open spec fn sequencer_stepped(self) -> Self {
        let st = self.frame_seq_step;
        let s = if st == 0 || st == 4 {
            Apu {
                ch1: self.ch1.length_clocked(),
                ch2: self.ch2.length_clocked(),
                ch3: self.ch3.length_clocked(),
                ch4: self.ch4.length_clocked(),
                ..self
            }
        } else if st == 2 || st == 6 {
            Apu {
                ch1: self.ch1.length_clocked().sweep_clocked(),
                ch2: self.ch2.length_clocked(),
                ch3: self.ch3.length_clocked(),
                ch4: self.ch4.length_clocked(),
                ..self
            }
        } else if st == 7 {
            Apu {
                ch1: self.ch1.envelope_clocked(),
                ch2: self.ch2.envelope_clocked(),
                ch4: self.ch4.envelope_clocked(),
                ..self
            }
        } else {
            self
        };
        Apu { frame_seq_step: ((st as int + 1) % 8) as u8, ..s }
    }

    /// Power-on state.
    pub open spec fn initial(ch1: Channel1, ch2: Channel2, ch3: Channel3, ch4: Channel4) -> Self {
        Apu { ch1, ch2, ch3, ch4, nr50: 0x77, nr51: 0xF3, nr52: 0xF1, frame_seq_step: 0, prev_div_bit12: false }
    }

    pub fn new() -> (r: Self)
        ensures
            r == Apu::initial(Channel1::initial(), Channel2::initial(), Channel3::initial(r.ch3.wave_ram), Channel4::initial()),
            r.ch3.wave_ram@ == Seq::new(16, |i: int| 0u8),
            r.wf(),
    {
        Apu {
            ch1: Channel1::new(),
            ch2: Channel2::new(),
            ch3: Channel3::new(),
            ch4: Channel4::new(),
            nr50: 0x77,
            nr51: 0xF3,
            nr52: 0xF1,
            frame_seq_step: 0,
            prev_div_bit12: false,
        }
    }

    /// The APU after `cycles` T-cycles with the timer's divider at
    /// `div_counter`, and the four channel amplitudes produced; `None` (and
    /// no change) while powered off. A falling edge of divider bit 12 first
    /// clocks the frame sequencer.
    pub open spec fn tick_spec(self, cycles: u32, div_counter: u16) -> (Apu, Option<(u8, u8, u8, u8)>) {
        let bit12 = (div_counter >> 12) & 1 == 1;
        let s = if self.prev_div_bit12 && !bit12 { self.sequencer_stepped() } else { self };
        if !self.powered_spec() {
            (self, None)
        } else {
            let (c1, a1) = s.ch1.tick_spec(cycles);
            let (c2, a2) = s.ch2.tick_spec(cycles);
            let (c3, a3) = s.ch3.tick_spec(cycles);
            let (c4, a4) = s.ch4.tick_spec(cycles);
            (Apu { ch1: c1, ch2: c2, ch3: c3, ch4: c4, prev_div_bit12: bit12, ..s }, Some((a1, a2, a3, a4)))
        }
    }

    /// Advance the APU by `cycles` T-cycles; `div_counter` is the timer's
    /// 16-bit divider, whose bit 12 falling edge clocks the frame sequencer
    /// (see [`Apu::tick_spec`]).
    pub fn tick(&mut self, cycles: u32, div_counter: u16) -> (r: Option<(u8, u8, u8, u8)>)
        requires
            old(self).wf(),
        ensures
            final(self).wf(),
            (*final(self), r) == old(self).tick_spec(cycles, div_counter),
    {
        if !self.powered() {
            return None;
        }
        let bit12 = (div_counter >> 12) & 1 == 1;
        if self.prev_div_bit12 && !bit12 {
            self.step_frame_sequencer();
        }
        self.prev_div_bit12 = bit12;
        let out1 = self.ch1.tick(cycles);
        let out2 = self.ch2.tick(cycles);
        let out3 = self.ch3.tick(cycles);
        let out4 = self.ch4.tick(cycles);
        Some((out1, out2, out3, out4))
    }

    /// Read APU register `addr` (0xFF10-0xFF3F); unmapped addresses read 0xFF.
    pub fn read(&self, addr: u16) -> (r: u8)
        ensures
            r == self.read_spec(addr),
    {
        match addr {
            0xFF10 => self.ch1.read_nr10(),
            0xFF11 => self.ch1.read_nr11(),
            0xFF12 => self.ch1.read_nr12(),
            0xFF13 => self.ch1.read_nr13(),
            0xFF14 => self.ch1.read_nr14(),
            0xFF15 => 0xFF,
            0xFF16 => self.ch2.read_nr21(),
            0xFF17 => self.ch2.read_nr22(),
            0xFF18 => self.ch2.read_nr23(),
            0xFF19 => self.ch2.read_nr24(),
            0xFF1A => self.ch3.read_nr30(),
            0xFF1B => self.ch3.read_nr31(),
            0xFF1C => self.ch3.read_nr32(),
            0xFF1D => self.ch3.read_nr33(),
            0xFF1E => self.ch3.read_nr34(),
            0xFF1F => 0xFF,
            0xFF20 => self.ch4.read_nr41(),
            0xFF21 => self.ch4.read_nr42(),
            0xFF22 => self.ch4.read_nr43(),
            0xFF23 => self.ch4.read_nr44(),
            0xFF24 => self.nr50,
            0xFF25 => self.nr51,
            0xFF26 => self.read_nr52(),
            0xFF27..=0xFF2F => 0xFF,
            0xFF30..=0xFF3F => {
                proof { lemma_u8_fields((addr - 0xFF30) as u8); }
                self.ch3.read_wave_ram((addr - 0xFF30) as u8)
            },
            _ => 0xFF,
        }
    }

    /// Write `val` to APU register `addr` (see [`Apu::write_spec`]).
    pub fn write(&mut self, addr: u16, val: u8)
        requires
            old(self).wf(),
        ensures
            final(self).wf(),
            *final(self) == old(self).write_spec(addr, val),
    {
        if !self.powered() && addr != 0xFF26 && !(0xFF30 <= addr && addr <= 0xFF3F) {
            match addr {
                0xFF11 => self.ch1.write_nr11(val & 0x3F),
                0xFF16 => self.ch2.write_nr21(val & 0x3F),
                0xFF1B => self.ch3.write_nr31(val),
                0xFF20 => self.ch4.write_nr41(val & 0x3F),
                _ => {},
            }
            return;
        }
        let step = self.frame_seq_step;
        match addr {
            0xFF10 => self.ch1.write_nr10(val),
            0xFF11 => self.ch1.write_nr11(val),
            0xFF12 => self.ch1.write_nr12(val),
            0xFF13 => self.ch1.write_nr13(val),
            0xFF14 => self.ch1.write_nr14(val, step),
            0xFF16 => self.ch2.write_nr21(val),
            0xFF17 => self.ch2.write_nr22(val),
            0xFF18 => self.ch2.write_nr23(val),
            0xFF19 => self.ch2.write_nr24(val, step),
            0xFF1A => self.ch3.write_nr30(val),
            0xFF1B => self.ch3.write_nr31(val),
            0xFF1C => self.ch3.write_nr32(val),
            0xFF1D => self.ch3.write_nr33(val),
            0xFF1E => self.ch3.write_nr34(val, step),
            0xFF20 => self.ch4.write_nr41(val),
            0xFF21 => self.ch4.write_nr42(val),
            0xFF22 => self.ch4.write_nr43(val),
            0xFF23 => self.ch4.write_nr44(val, step),
            0xFF24 => self.nr50 = val,
            0xFF25 => self.nr51 = val,
            0xFF26 => self.write_nr52(val),
            0xFF30..=0xFF3F => {
                proof { lemma_u8_fields((addr - 0xFF30) as u8); }
                self.ch3.write_wave_ram((addr - 0xFF30) as u8, val)
            },
            _ => {},
        }
    }

    pub fn powered(&self) -> (r: bool)
        ensures r == self.powered_spec(),
    {
        self.nr52 & 0x80 != 0
    }

    pub fn read_nr52(&self) -> (r: u8)
        ensures r == self.nr52_spec(),
    {
        let mut v = self.nr52 & 0x80;
        v |= 0x70;
        let b1: u8 = if self.ch1.enabled { 0x01 } else { 0 };
        let b2: u8 = if self.ch2.enabled { 0x02 } else { 0 };
        let b3: u8 = if self.ch3.enabled { 0x04 } else { 0 };
        let b4: u8 = if self.ch4.enabled { 0x08 } else { 0 };
        v | b1 | b2 | b3 | b4
    }

    pub fn write_nr52(&mut self, val: u8)
        ensures *final(self) == old(self).nr52_written(val),
    {
        let was_on = self.powered();
        let now_on = val & 0x80 != 0;
        self.nr52 = val & 0x80;
        if was_on && !now_on {
            self.ch1.power_off();
            self.ch2.power_off();
            self.ch3.power_off();
            self.ch4.power_off();
            self.nr50 = 0;
            self.nr51 = 0;
            self.frame_seq_step = 0;
        }
    }

    pub fn step_frame_sequencer(&mut self)
        ensures *final(self) == old(self).sequencer_stepped(),
    {
        let st = self.frame_seq_step;
        if st == 0 || st == 4 {
            self.ch1.clock_length();
            self.ch2.clock_length();
            self.ch3.clock_length();
            self.ch4.clock_length();
        } else if st == 2 || st == 6 {
            self.ch1.clock_length();
            self.ch2.clock_length();
            self.ch3.clock_length();
            self.ch4.clock_length();
            self.ch1.clock_sweep();
        } else if st == 7 {
            self.ch1.clock_envelope();
            self.ch2.clock_envelope();
            self.ch4.clock_envelope();
        }
        proof { lemma_u16_fields((st as u16 + 1) as u16); }
        self.frame_seq_step = ((st as u16 + 1) & 7) as u8;
    }

    /// Stereo mix of four channel amplitudes before normalisation: each side
    /// sums the channels panned to it (NR51 bits 4-7 left, 0-3 right) and is
    /// scaled by its master volume plus one (NR50).
    pub fn mix_levels(&self, c1: u8, c2: u8, c3: u8, c4: u8) -> (r: (u32, u32))
        ensures
            r.0 == mix_side(self.nr51 >> 4, (self.nr50 >> 4) & 0x07, c1, c2, c3, c4),
            r.1 == mix_side(self.nr51 & 0x0F, self.nr50 & 0x07, c1, c2, c3, c4),
    {
        proof { lemma_u8_fields(self.nr51); lemma_u8_fields(self.nr50); }
        let l = pan_sum(self.nr51 >> 4, c1, c2, c3, c4);
        let r = pan_sum(self.nr51 & 0x0F, c1, c2, c3, c4);
        let vl = ((self.nr50 >> 4) & 0x07) as u32 + 1;
        let vr = (self.nr50 & 0x07) as u32 + 1;
        proof {
            assert(l * vl <= 1020 * 8) by (nonlinear_arith) requires l <= 1020, vl <= 8;
            assert(r * vr <= 1020 * 8) by (nonlinear_arith) requires r <= 1020, vr <= 8;
        }
        (l * vl, r * vr)
    }
}

/// Sum of the amplitudes whose bit is set in the 4-bit `mask` (bit 0 = channel 1).
pub open spec fn pan_spec(mask: u8, c1: u8, c2: u8, c3: u8, c4: u8) -> int {
    (if mask & 1 != 0 { c1 as int } else { 0 })
        + (if mask & 2 != 0 { c2 as int } else { 0 })
        + (if mask & 4 != 0 { c3 as int } else { 0 })
        + (if mask & 8 != 0 { c4 as int } else { 0 })
}

/// One side of the stereo mix: the panned sum times the master volume plus one.
pub open spec fn mix_side(mask: u8, vol: u8, c1: u8, c2: u8, c3: u8, c4: u8) -> int {
    pan_spec(mask, c1, c2, c3, c4) * (vol + 1)
}

fn pan_sum(mask: u8, c1: u8, c2: u8, c3: u8, c4: u8) -> (r: u32)
    ensures
        r == pan_spec(mask, c1, c2, c3, c4),
        r <= 1020,
{
    let mut s: u32 = 0;
    if mask & 1 != 0 { s = s + c1 as u32; }
    if mask & 2 != 0 { s = s + c2 as u32; }
    if mask & 4 != 0 { s = s + c3 as u32; }
    if mask & 8 != 0 { s = s + c4 as u32; }
    s
}

/// Letter of the pitch class `p` (0 = C, ..., 11 = B).
pub open spec fn pitch_letter(p: int) -> char {
    if p <= 1 { 'C' } else if p <= 3 { 'D' } else if p == 4 { 'E' } else if p <= 6 { 'F' }
    else if p <= 8 { 'G' } else if p <= 10 { 'A' } else { 'B' }
}

/// Accidental of the pitch class `p`: `#` for the black keys, `-` otherwise.
pub open spec fn pitch_accidental(p: int) -> char {
    if p == 1 || p == 3 || p == 6 || p == 8 || p == 10 { '#' } else { '-' }
}

/// Octave digit: `0`-`9`, and `A` for octave 10.
pub open spec fn octave_char(o: int) -> char {
    if o == 0 { '0' } else if o == 1 { '1' } else if o == 2 { '2' } else if o == 3 { '3' }
    else if o == 4 { '4' } else if o == 5 { '5' } else if o == 6 { '6' } else if o == 7 { '7' }
    else if o == 8 { '8' } else if o == 9 { '9' } else { 'A' }
}

/// Tracker-style name of a MIDI note (`"C-4"`, `"A#3"`): letter, accidental
/// and octave; notes outside 0-127 are `"---"`.
pub open spec fn note_name(note: u8) -> Seq<char> {
    if note >= 128 {
        seq!['-', '-', '-']
    } else {
        seq![pitch_letter((note % 12) as int), pitch_accidental((note % 12) as int), octave_char((note / 12) as int)]
    }
}

/// Format a MIDI note number as a note name (see [`note_name`]).
#[verifier::rlimit(100)]
pub fn midi_to_note_name(note: u8) -> (r: &'static str)
    ensures
        r@ == note_name(note),
{
    match note {
        0 => {
            proof { reveal_strlit("C-0"); }
            "C-0"
        }
        1 => {
            proof { reveal_strlit("C#0"); }
            "C#0"
        }
        2 => {
            proof { reveal_strlit("D-0"); }
            "D-0"
        }
        3 => {
            proof { reveal_strlit("D#0"); }
            "D#0"
        }
        4 => {
            proof { reveal_strlit("E-0"); }
            "E-0"
        }
        5 => {
            proof { reveal_strlit("F-0"); }
            "F-0"
        }
        6 => {
            proof { reveal_strlit("F#0"); }
            "F#0"
        }
        7 => {
            proof { reveal_strlit("G-0"); }
            "G-0"
        }
        8 => {
            proof { reveal_strlit("G#0"); }
            "G#0"
        }
        9 => {
            proof { reveal_strlit("A-0"); }
            "A-0"
        }
        10 => {
            proof { reveal_strlit("A#0"); }
            "A#0"
        }
        11 => {
            proof { reveal_strlit("B-0"); }
            "B-0"
        }
        12 => {
            proof { reveal_strlit("C-1"); }
            "C-1"
        }
        13 => {
            proof { reveal_strlit("C#1"); }
            "C#1"
        }
        14 => {
            proof { reveal_strlit("D-1"); }
            "D-1"
        }
        15 => {
            proof { reveal_strlit("D#1"); }
            "D#1"
        }
        16 => {
            proof { reveal_strlit("E-1"); }
            "E-1"
        }
        17 => {
            proof { reveal_strlit("F-1"); }
            "F-1"
        }
        18 => {
            proof { reveal_strlit("F#1"); }
            "F#1"
        }
        19 => {
            proof { reveal_strlit("G-1"); }
            "G-1"
        }
        20 => {
            proof { reveal_strlit("G#1"); }
            "G#1"
        }
        21 => {
            proof { reveal_strlit("A-1"); }
            "A-1"
        }
        22 => {
            proof { reveal_strlit("A#1"); }
            "A#1"
        }
        23 => {
            proof { reveal_strlit("B-1"); }
            "B-1"
        }
        24 => {
            proof { reveal_strlit("C-2"); }
            "C-2"
        }
        25 => {
            proof { reveal_strlit("C#2"); }
            "C#2"
        }
        26 => {
            proof { reveal_strlit("D-2"); }
            "D-2"
        }
        27 => {
            proof { reveal_strlit("D#2"); }
            "D#2"
        }
        28 => {
            proof { reveal_strlit("E-2"); }
            "E-2"
        }
        29 => {
            proof { reveal_strlit("F-2"); }
            "F-2"
        }
        30 => {
            proof { reveal_strlit("F#2"); }
            "F#2"
        }
        31 => {
            proof { reveal_strlit("G-2"); }
            "G-2"
        }
        32 => {
            proof { reveal_strlit("G#2"); }
            "G#2"
        }
        33 => {
            proof { reveal_strlit("A-2"); }
            "A-2"
        }
        34 => {
            proof { reveal_strlit("A#2"); }
            "A#2"
        }
        35 => {
            proof { reveal_strlit("B-2"); }
            "B-2"
        }
        36 => {
            proof { reveal_strlit("C-3"); }
            "C-3"
        }
        37 => {
            proof { reveal_strlit("C#3"); }
            "C#3"
        }
        38 => {
            proof { reveal_strlit("D-3"); }
            "D-3"
        }
        39 => {
            proof { reveal_strlit("D#3"); }
            "D#3"
        }
        40 => {
            proof { reveal_strlit("E-3"); }
            "E-3"
        }
        41 => {
            proof { reveal_strlit("F-3"); }
            "F-3"
        }
        42 => {
            proof { reveal_strlit("F#3"); }
            "F#3"
        }
        43 => {
            proof { reveal_strlit("G-3"); }
            "G-3"
        }
        44 => {
            proof { reveal_strlit("G#3"); }
            "G#3"
        }
        45 => {
            proof { reveal_strlit("A-3"); }
            "A-3"
        }
        46 => {
            proof { reveal_strlit("A#3"); }
            "A#3"
        }
        47 => {
            proof { reveal_strlit("B-3"); }
            "B-3"
        }
        48 => {
            proof { reveal_strlit("C-4"); }
            "C-4"
        }
        49 => {
            proof { reveal_strlit("C#4"); }
            "C#4"
        }
        50 => {
            proof { reveal_strlit("D-4"); }
            "D-4"
        }
        51 => {
            proof { reveal_strlit("D#4"); }
            "D#4"
        }
        52 => {
            proof { reveal_strlit("E-4"); }
            "E-4"
        }
        53 => {
            proof { reveal_strlit("F-4"); }
            "F-4"
        }
        54 => {
            proof { reveal_strlit("F#4"); }
            "F#4"
        }
        55 => {
            proof { reveal_strlit("G-4"); }
            "G-4"
        }
        56 => {
            proof { reveal_strlit("G#4"); }
            "G#4"
        }
        57 => {
            proof { reveal_strlit("A-4"); }
            "A-4"
        }
        58 => {
            proof { reveal_strlit("A#4"); }
            "A#4"
        }
        59 => {
            proof { reveal_strlit("B-4"); }
            "B-4"
        }
        60 => {
            proof { reveal_strlit("C-5"); }
            "C-5"
        }
        61 => {
            proof { reveal_strlit("C#5"); }
            "C#5"
        }
        62 => {
            proof { reveal_strlit("D-5"); }
            "D-5"
        }
        63 => {
            proof { reveal_strlit("D#5"); }
            "D#5"
        }
        64 => {
            proof { reveal_strlit("E-5"); }
            "E-5"
        }
        65 => {
            proof { reveal_strlit("F-5"); }
            "F-5"
        }
        66 => {
            proof { reveal_strlit("F#5"); }
            "F#5"
        }
        67 => {
            proof { reveal_strlit("G-5"); }
            "G-5"
        }
        68 => {
            proof { reveal_strlit("G#5"); }
            "G#5"
        }
        69 => {
            proof { reveal_strlit("A-5"); }
            "A-5"
        }
        70 => {
            proof { reveal_strlit("A#5"); }
            "A#5"
        }
        71 => {
            proof { reveal_strlit("B-5"); }
            "B-5"
        }
        72 => {
            proof { reveal_strlit("C-6"); }
            "C-6"
        }
        73 => {
            proof { reveal_strlit("C#6"); }
            "C#6"
        }
        74 => {
            proof { reveal_strlit("D-6"); }
            "D-6"
        }
        75 => {
            proof { reveal_strlit("D#6"); }
            "D#6"
        }
        76 => {
            proof { reveal_strlit("E-6"); }
            "E-6"
        }
        77 => {
            proof { reveal_strlit("F-6"); }
            "F-6"
        }
        78 => {
            proof { reveal_strlit("F#6"); }
            "F#6"
        }
        79 => {
            proof { reveal_strlit("G-6"); }
            "G-6"
        }
        80 => {
            proof { reveal_strlit("G#6"); }
            "G#6"
        }
        81 => {
            proof { reveal_strlit("A-6"); }
            "A-6"
        }
        82 => {
            proof { reveal_strlit("A#6"); }
            "A#6"
        }
        83 => {
            proof { reveal_strlit("B-6"); }
            "B-6"
        }
        84 => {
            proof { reveal_strlit("C-7"); }
            "C-7"
        }
        85 => {
            proof { reveal_strlit("C#7"); }
            "C#7"
        }
        86 => {
            proof { reveal_strlit("D-7"); }
            "D-7"
        }
        87 => {
            proof { reveal_strlit("D#7"); }
            "D#7"
        }
        88 => {
            proof { reveal_strlit("E-7"); }
            "E-7"
        }
        89 => {
            proof { reveal_strlit("F-7"); }
            "F-7"
        }
        90 => {
            proof { reveal_strlit("F#7"); }
            "F#7"
        }
        91 => {
            proof { reveal_strlit("G-7"); }
            "G-7"
        }
        92 => {
            proof { reveal_strlit("G#7"); }
            "G#7"
        }
        93 => {
            proof { reveal_strlit("A-7"); }
            "A-7"
        }
        94 => {
            proof { reveal_strlit("A#7"); }
            "A#7"
        }
        95 => {
            proof { reveal_strlit("B-7"); }
            "B-7"
        }
        96 => {
            proof { reveal_strlit("C-8"); }
            "C-8"
        }
        97 => {
            proof { reveal_strlit("C#8"); }
            "C#8"
        }
        98 => {
            proof { reveal_strlit("D-8"); }
            "D-8"
        }
        99 => {
            proof { reveal_strlit("D#8"); }
            "D#8"
        }
        100 => {
            proof { reveal_strlit("E-8"); }
            "E-8"
        }
        101 => {
            proof { reveal_strlit("F-8"); }
            "F-8"
        }
        102 => {
            proof { reveal_strlit("F#8"); }
            "F#8"
        }
        103 => {
            proof { reveal_strlit("G-8"); }
            "G-8"
        }
        104 => {
            proof { reveal_strlit("G#8"); }
            "G#8"
        }
        105 => {
            proof { reveal_strlit("A-8"); }
            "A-8"
        }
        106 => {
            proof { reveal_strlit("A#8"); }
            "A#8"
        }
        107 => {
            proof { reveal_strlit("B-8"); }
            "B-8"
        }
        108 => {
            proof { reveal_strlit("C-9"); }
            "C-9"
        }
        109 => {
            proof { reveal_strlit("C#9"); }
            "C#9"
        }
        110 => {
            proof { reveal_strlit("D-9"); }
            "D-9"
        }
        111 => {
            proof { reveal_strlit("D#9"); }
            "D#9"
        }
        112 => {
            proof { reveal_strlit("E-9"); }
            "E-9"
        }
        113 => {
            proof { reveal_strlit("F-9"); }
            "F-9"
        }
        114 => {
            proof { reveal_strlit("F#9"); }
            "F#9"
        }
        115 => {
            proof { reveal_strlit("G-9"); }
            "G-9"
        }
        116 => {
            proof { reveal_strlit("G#9"); }
            "G#9"
        }
        117 => {
            proof { reveal_strlit("A-9"); }
            "A-9"
        }
        118 => {
            proof { reveal_strlit("A#9"); }
            "A#9"
        }
        119 => {
            proof { reveal_strlit("B-9"); }
            "B-9"
        }
        120 => {
            proof { reveal_strlit("C-A"); }
            "C-A"
        }
        121 => {
            proof { reveal_strlit("C#A"); }
            "C#A"
        }
        122 => {
            proof { reveal_strlit("D-A"); }
            "D-A"
        }
        123 => {
            proof { reveal_strlit("D#A"); }
            "D#A"
        }
        124 => {
            proof { reveal_strlit("E-A"); }
            "E-A"
        }
        125 => {
            proof { reveal_strlit("F-A"); }
            "F-A"
        }
        126 => {
            proof { reveal_strlit("F#A"); }
            "F#A"
        }
        127 => {
            proof { reveal_strlit("G-A"); }
            "G-A"
        }
        _ => {
            proof { reveal_strlit("---"); }
            "---"
        }
    }
}

/// A byte written to wave RAM (0xFF30-0xFF3F) reads back, powered or not.
pub proof fn law_wave_ram_read_after_write(a: Apu, addr: u16, val: u8)
    requires 0xFF30 <= addr <= 0xFF3F,
    ensures a.write_spec(addr, val).read_spec(addr) == val,
{
    broadcast use vstd::array::group_array_axioms;
    crate::bits::lemma_u8_fields((addr - 0xFF30) as u8);
}

/// The integer state of one channel for a tracker-style display; fields a
/// channel lacks are 0 or false.
#[derive(Clone, Copy, Debug)]
pub struct ChannelStatus {
    pub enabled: bool,
    pub dac_on: bool,
    /// 0-15.
    pub volume: u8,
    /// The 11-bit frequency register (channels 1-3).
    pub freq_reg: u16,
    /// Duty index 0-3 (channels 1-2), volume code 0-3 (channel 3).
    pub duty_or_vol: u8,
    /// Position in the duty pattern (0-7) or wave (0-31).
    pub pos: u8,
    /// Envelope direction (true = increase) and period.
    pub env_add: bool,
    pub env_period: u8,
    pub length: u16,
    pub length_enabled: bool,
    /// Sweep period, shift and direction (channel 1).
    pub sweep_period: u8,
    pub sweep_shift: u8,
    pub sweep_negate: bool,
    /// Shift register and its 7-bit mode (channel 4).
    pub lfsr: u16,
    pub lfsr_short: bool,
}

/// The integer state of the whole APU.
#[derive(Clone, Copy, Debug)]
pub struct ApuStatus {
    pub powered: bool,
    pub nr50: u8,
    pub nr51: u8,
    /// NR52 as read.
    pub nr52: u8,
    pub frame_seq_step: u8,
    pub ch1: ChannelStatus,
    pub ch2: ChannelStatus,
    pub ch3: ChannelStatus,
    pub ch4: ChannelStatus,
    pub wave_ram: [u8; 16],
}

impl Apu {
    /// Channel 1 as [`ChannelStatus`].
    pub open spec fn ch1_state(self) -> ChannelStatus {
        ChannelStatus {
            enabled: self.ch1.enabled, dac_on: self.ch1.dac_enabled, volume: self.ch1.env_volume,
            freq_reg: self.ch1.freq_spec(), duty_or_vol: (self.ch1.nr11 >> 6) & 0x03, pos: self.ch1.duty_pos,
            env_add: self.ch1.nr12 & 0x08 != 0, env_period: self.ch1.nr12 & 0x07,
            length: self.ch1.length_counter as u16, length_enabled: self.ch1.nr14 & 0x40 != 0,
            sweep_period: (self.ch1.nr10 >> 4) & 0x07, sweep_shift: self.ch1.nr10 & 0x07,
            sweep_negate: self.ch1.nr10 & 0x08 != 0, lfsr: 0, lfsr_short: false,
        }
    }

    /// Channel 2 as [`ChannelStatus`].
    pub open spec fn ch2_state(self) -> ChannelStatus {
        ChannelStatus {
            enabled: self.ch2.enabled, dac_on: self.ch2.dac_enabled, volume: self.ch2.env_volume,
            freq_reg: self.ch2.freq_spec(), duty_or_vol: (self.ch2.nr21 >> 6) & 0x03, pos: self.ch2.duty_pos,
            env_add: self.ch2.nr22 & 0x08 != 0, env_period: self.ch2.nr22 & 0x07,
            length: self.ch2.length_counter as u16, length_enabled: self.ch2.nr24 & 0x40 != 0,
            sweep_period: 0, sweep_shift: 0, sweep_negate: false, lfsr: 0, lfsr_short: false,
        }
    }

    /// Channel 3 as [`ChannelStatus`].
    pub open spec fn ch3_state(self) -> ChannelStatus {
        ChannelStatus {
            enabled: self.ch3.enabled, dac_on: self.ch3.dac_enabled, volume: (((self.ch3.nr32 >> 5) & 0x03) * 5) as u8,
            freq_reg: self.ch3.freq_spec(), duty_or_vol: (self.ch3.nr32 >> 5) & 0x03, pos: self.ch3.wave_pos,
            env_add: false, env_period: 0,
            length: self.ch3.length_counter, length_enabled: self.ch3.nr34 & 0x40 != 0,
            sweep_period: 0, sweep_shift: 0, sweep_negate: false, lfsr: 0, lfsr_short: false,
        }
    }

    /// Channel 4 as [`ChannelStatus`].
    pub open spec fn ch4_state(self) -> ChannelStatus {
        ChannelStatus {
            enabled: self.ch4.enabled, dac_on: self.ch4.dac_enabled, volume: self.ch4.env_volume,
            freq_reg: 0, duty_or_vol: 0, pos: 0,
            env_add: self.ch4.nr42 & 0x08 != 0, env_period: self.ch4.nr42 & 0x07,
            length: self.ch4.length_counter as u16, length_enabled: self.ch4.nr44 & 0x40 != 0,
            sweep_period: 0, sweep_shift: 0, sweep_negate: false,
            lfsr: self.ch4.lfsr, lfsr_short: self.ch4.nr43 & 0x08 != 0,
        }
    }

    pub fn ch1_status(&self) -> (r: ChannelStatus)
        ensures
            r == self.ch1_state(),
    {
        ChannelStatus {
            enabled: self.ch1.enabled,
            dac_on: self.ch1.dac_enabled,
            volume: self.ch1.env_volume,
            freq_reg: self.ch1.frequency(),
            duty_or_vol: self.ch1.duty(),
            pos: self.ch1.duty_pos,
            env_add: (self.ch1.nr12 & 0x08) != 0,
            env_period: self.ch1.nr12 & 0x07,
            length: self.ch1.length_counter as u16,
            length_enabled: (self.ch1.nr14 & 0x40) != 0,
            sweep_period: (self.ch1.nr10 >> 4) & 0x07,
            sweep_shift: self.ch1.nr10 & 0x07,
            sweep_negate: (self.ch1.nr10 & 0x08) != 0,
            lfsr: 0,
            lfsr_short: false,
        }
    }

    pub fn ch2_status(&self) -> (r: ChannelStatus)
        ensures
            r == self.ch2_state(),
    {
        ChannelStatus {
            enabled: self.ch2.enabled,
            dac_on: self.ch2.dac_enabled,
            volume: self.ch2.env_volume,
            freq_reg: self.ch2.frequency(),
            duty_or_vol: self.ch2.duty(),
            pos: self.ch2.duty_pos,
            env_add: (self.ch2.nr22 & 0x08) != 0,
            env_period: self.ch2.nr22 & 0x07,
            length: self.ch2.length_counter as u16,
            length_enabled: (self.ch2.nr24 & 0x40) != 0,
            sweep_period: 0,
            sweep_shift: 0,
            sweep_negate: false,
            lfsr: 0,
            lfsr_short: false,
        }
    }

    /// Channel 3's volume shows its code scaled to 0, 5, 10 or 15.
    pub fn ch3_status(&self) -> (r: ChannelStatus)
        ensures
            r == self.ch3_state(),
    {
        let code = self.ch3.volume_code();
        ChannelStatus {
            enabled: self.ch3.enabled,
            dac_on: self.ch3.dac_enabled,
            volume: code * 5,
            freq_reg: self.ch3.frequency(),
            duty_or_vol: code,
            pos: self.ch3.wave_pos,
            env_add: false,
            env_period: 0,
            length: self.ch3.length_counter,
            length_enabled: (self.ch3.nr34 & 0x40) != 0,
            sweep_period: 0,
            sweep_shift: 0,
            sweep_negate: false,
            lfsr: 0,
            lfsr_short: false,
        }
    }

    pub fn ch4_status(&self) -> (r: ChannelStatus)
        ensures
            r == self.ch4_state(),
    {
        ChannelStatus {
            enabled: self.ch4.enabled,
            dac_on: self.ch4.dac_enabled,
            volume: self.ch4.env_volume,
            freq_reg: 0,
            duty_or_vol: 0,
            pos: 0,
            env_add: (self.ch4.nr42 & 0x08) != 0,
            env_period: self.ch4.nr42 & 0x07,
            length: self.ch4.length_counter as u16,
            length_enabled: (self.ch4.nr44 & 0x40) != 0,
            sweep_period: 0,
            sweep_shift: 0,
            sweep_negate: false,
            lfsr: self.ch4.lfsr,
            lfsr_short: self.ch4.is_short_lfsr(),
        }
    }

    /// Power, mixer registers, sequencer step, every channel and wave RAM.
    pub fn status(&self) -> (r: ApuStatus)
        ensures
            r == (ApuStatus {
                powered: self.powered_spec(), nr50: self.nr50, nr51: self.nr51, nr52: self.nr52_spec(),
                frame_seq_step: self.frame_seq_step,
                ch1: self.ch1_state(), ch2: self.ch2_state(), ch3: self.ch3_state(), ch4: self.ch4_state(),
                wave_ram: self.ch3.wave_ram,
            }),
    {
        ApuStatus {
            powered: self.powered(),
            nr50: self.nr50,
            nr51: self.nr51,
            nr52: self.read_nr52(),
            frame_seq_step: self.frame_seq_step,
            ch1: self.ch1_status(),
            ch2: self.ch2_status(),
            ch3: self.ch3_status(),
            ch4: self.ch4_status(),
            wave_ram: self.ch3.wave_ram,
        }
    }
}

/// The frame sequencer runs through eight steps: the length counters are
/// clocked on the even steps (256 Hz), the channel 1 sweep on steps 2 and 6
/// (128 Hz) and the volume envelopes on step 7 (64 Hz); the other steps
/// leave the channels alone.
pub proof fn law_frame_sequencer(a: Apu)
    requires a.frame_seq_step < 8,
    ensures ({
        let st = a.frame_seq_step;
        let n = a.sequencer_stepped();
        &&& n.frame_seq_step == (st + 1) % 8
        &&& st % 2 == 0 ==> n.ch2 == a.ch2.length_clocked() && n.ch3 == a.ch3.length_clocked()
                && n.ch4 == a.ch4.length_clocked()
        &&& (st == 0 || st == 4) ==> n.ch1 == a.ch1.length_clocked()
        &&& (st == 2 || st == 6) ==> n.ch1 == a.ch1.length_clocked().sweep_clocked()
        &&& st == 7 ==> n.ch1 == a.ch1.envelope_clocked() && n.ch2 == a.ch2.envelope_clocked()
                && n.ch3 == a.ch3 && n.ch4 == a.ch4.envelope_clocked()
        &&& (st == 1 || st == 3 || st == 5) ==> n.ch1 == a.ch1 && n.ch2 == a.ch2 && n.ch3 == a.ch3 && n.ch4 == a.ch4
    }),
{
}

} // verus!
