//! MBC7: ROM, ADXL202E accelerometer and 93LC56 serial EEPROM (cartridge
//! type 0x22).
//!
//! ROM registers: 0x0000-0x1FFF RAM gate 1 (write 0x0A to open), 0x2000-0x3FFF
//! ROM bank, 0x4000-0x5FFF RAM gate 2 (write 0x40 to open). With both gates
//! open, RAM address bits 4-7 select a register: 0 and 1 latch the
//! accelerometer (write 0x55 then 0xAA), 2-5 read the latched X/Y axes (low
//! then high byte), 6 and 7 read the Z axis (0x00, 0xFF), 8-15 are the EEPROM
//! pin register.

use vstd::prelude::*;
use crate::memory::cartridge::{byte_at, banked_rom_read};

verus! {

/// Neutral accelerometer reading (device held flat).
pub const ACCEL_CENTER: i32 = 0x81D0;

/// Serial protocol state of the EEPROM.
#[derive(Debug, Clone, Copy, PartialEq, Eq, Structural)]
pub enum EepromState {
    Idle,
    /// Collecting start bit, 2-bit opcode and 7-bit address.
    Receiving,
    /// Shifting out a 16-bit word; `sent` bits output so far.
    Reading { word: u16, sent: u8 },
    /// Collecting 16 data bits for a single address.
    Writing { addr: u8, data: u16, received: u8 },
    /// Collecting 16 data bits to write to every address.
    WritingAll { data: u16, received: u8 },
}

/// 93LC56 EEPROM: 128 16-bit words (stored little-endian) behind a
/// Microwire interface. The pin register maps bit 7 to CS, bit 6 to CLK,
/// bit 1 to DI (written) and bit 0 to DO (read).
pub struct Eeprom93lc56 {
    pub data: [u8; 256],
    pub write_enabled: bool,
    pub cs: bool,
    pub clk: bool,
    pub di: bool,
    pub do_bit: bool,
    pub state: EepromState,
    /// Bits received so far.
    pub in_bits: u32,
    /// Number of bits received, counted from the start bit.
    pub in_count: u8,
}

pub struct EepromView {
    pub data: Seq<u8>,
    pub write_enabled: bool,
    pub cs: bool,
    pub clk: bool,
    pub di: bool,
    pub do_bit: bool,
    pub state: EepromState,
    pub in_bits: u32,
    pub in_count: u8,
}

/// Little-endian 16-bit word `addr` of the EEPROM contents.
pub open spec fn word_at(data: Seq<u8>, addr: int) -> u16 {
    (data[2 * addr] + 256 * data[2 * addr + 1]) as u16
}

/// Contents with word `addr` replaced by `val`.
pub open spec fn word_stored(data: Seq<u8>, addr: int, val: u16) -> Seq<u8> {
    data.update(2 * addr, (val % 256) as u8).update(2 * addr + 1, (val / 256) as u8)
}

/// Contents with every word replaced by `val`.
pub open spec fn all_words(val: u16) -> Seq<u8> {
    Seq::new(256, |i: int| if i % 2 == 0 { (val % 256) as u8 } else { (val / 256) as u8 })
}

impl EepromView {
    /// Counters within the protocol's ranges.
    pub open spec fn wf(self) -> bool {
        &&& self.data.len() == 256
        &&& self.in_count < 10
        &&& match self.state {
            EepromState::Reading { sent, .. } => sent <= 16,
            EepromState::Writing { addr, received, .. } => received < 16 && addr < 128,
            EepromState::WritingAll { received, .. } => received < 16,
            _ => true,
        }
    }

    /// The pin register: CS, CLK, DI as last written and the DO line.
    pub open spec fn read_spec(self) -> u8 {
        (if self.cs { 0x80u8 } else { 0 }) | (if self.clk { 0x40u8 } else { 0 })
            | (if self.di { 0x02u8 } else { 0 }) | (if self.do_bit { 0x01u8 } else { 0 })
    }

    /// A complete command (start bit, opcode `op`, address `addr`) was received.
    ///
    /// READ (10) starts shifting out the word after a dummy 0; WRITE (01)
    /// collects a data word; ERASE (11) blanks a word (when writes are enabled);
    /// 00 with address bits 6-5 = 11 enables writes, 00 disables them, 10
    /// erases everything (when enabled) and 01 collects a word for WRAL.
    pub open spec fn command(self, op: u32, addr: u8) -> Self {
        let s = EepromView { in_bits: 0, in_count: 0, ..self };
        if op == 2 {
            EepromView { state: EepromState::Reading { word: word_at(s.data, addr as int), sent: 0 }, do_bit: false, ..s }
        } else if op == 1 {
            EepromView { state: EepromState::Writing { addr, data: 0, received: 0 }, ..s }
        } else if op == 3 {
            EepromView {
                data: if s.write_enabled { word_stored(s.data, addr as int, 0xFFFF) } else { s.data },
                do_bit: true,
                state: EepromState::Idle,
                ..s
            }
        } else {
            let sub = (addr / 32) % 4;
            if sub == 1 {
                EepromView { state: EepromState::WritingAll { data: 0, received: 0 }, ..s }
            } else {
                let s2 = if sub == 3 {
                    EepromView { write_enabled: true, ..s }
                } else if sub == 0 {
                    EepromView { write_enabled: false, ..s }
                } else {
                    EepromView { data: if s.write_enabled { Seq::new(256, |i: int| 0xFFu8) } else { s.data }, ..s }
                };
                EepromView { do_bit: true, state: EepromState::Idle, ..s2 }
            }
        }
    }

    /// One rising clock edge with data-in bit `di`.
    pub open spec fn clocked(self, di: bool) -> Self {
        match self.state {
            EepromState::Idle => self,
            EepromState::Receiving => {
                if self.in_count == 0 && !di {
                    self
                } else {
                    let bits = (self.in_bits << 1) | (if di { 1u32 } else { 0u32 });
                    let count = (self.in_count + 1) as u8;
                    if count < 10 {
                        EepromView { in_bits: bits, in_count: count, ..self }
                    } else {
                        self.command((bits / 128) % 4, (bits % 128) as u8)
                    }
                }
            },
            EepromState::Reading { word, sent } => {
                if sent < 16 {
                    EepromView {
                        do_bit: (word >> ((15 - sent) as u16)) & 1 != 0,
                        state: EepromState::Reading { word, sent: (sent + 1) as u8 },
                        ..self
                    }
                } else {
                    EepromView { do_bit: true, state: EepromState::Idle, ..self }
                }
            },
            EepromState::Writing { addr, data, received } => {
                let d = ((data << 1) | (if di { 1u16 } else { 0u16 })) as u16;
                if received + 1 < 16 {
                    EepromView { state: EepromState::Writing { addr, data: d, received: (received + 1) as u8 }, ..self }
                } else {
                    EepromView {
                        data: if self.write_enabled { word_stored(self.data, addr as int, d) } else { self.data },
                        do_bit: true,
                        state: EepromState::Idle,
                        ..self
                    }
                }
            },
            EepromState::WritingAll { data, received } => {
                let d = ((data << 1) | (if di { 1u16 } else { 0u16 })) as u16;
                if received + 1 < 16 {
                    EepromView { state: EepromState::WritingAll { data: d, received: (received + 1) as u8 }, ..self }
                } else {
                    EepromView {
                        data: if self.write_enabled { all_words(d) } else { self.data },
                        do_bit: true,
                        state: EepromState::Idle,
                        ..self
                    }
                }
            },
        }
    }

    /// A write of `value` to the pin register.
    ///
    /// A falling CS edge resets the protocol (DO high); a rising CS edge
    /// starts receiving a command. A rising CLK edge while CS is high clocks
    /// in bit DI.
    pub open spec fn write_spec(self, value: u8) -> Self {
        let new_cs = value & 0x80 != 0;
        let new_clk = value & 0x40 != 0;
        let di = value & 0x02 != 0;
        let s1 = EepromView { di, ..self };
        let s2 = if self.cs && !new_cs {
            EepromView { state: EepromState::Idle, in_bits: 0, in_count: 0, do_bit: true, ..s1 }
        } else if !self.cs && new_cs {
            EepromView { state: EepromState::Receiving, in_bits: 0, in_count: 0, ..s1 }
        } else {
            s1
        };
        let rising = new_cs && !self.clk && new_clk;
        let s3 = EepromView { cs: new_cs, clk: new_clk, ..s2 };
        if rising { s3.clocked(di) } else { s3 }
    }
}

impl Eeprom93lc56 {
    pub open spec fn view(&self) -> EepromView {
        EepromView {
            data: self.data@,
            write_enabled: self.write_enabled,
            cs: self.cs,
            clk: self.clk,
            di: self.di,
            do_bit: self.do_bit,
            state: self.state,
            in_bits: self.in_bits,
            in_count: self.in_count,
        }
    }

    /// Blank (all 0xFF), writes disabled, idle with DO high.
    pub fn new() -> (r: Self)
        ensures
            r.view() == (EepromView {
                data: Seq::new(256, |i: int| 0xFFu8), write_enabled: false, cs: false, clk: false,
                di: false, do_bit: true, state: EepromState::Idle, in_bits: 0, in_count: 0,
            }),
    {
        let r = Eeprom93lc56 {
            data: [0xFF; 256],
            write_enabled: false,
            cs: false,
            clk: false,
            di: false,
            do_bit: true,
            state: EepromState::Idle,
            in_bits: 0,
            in_count: 0,
        };
        assert(r.data@ =~= Seq::new(256, |i: int| 0xFFu8));
        r
    }

    pub fn read(&self) -> (r: u8)
        ensures r == self.view().read_spec(),
    {
        let cs: u8 = if self.cs { 0x80 } else { 0 };
        let clk: u8 = if self.clk { 0x40 } else { 0 };
        let di: u8 = if self.di { 0x02 } else { 0 };
        let do_: u8 = if self.do_bit { 0x01 } else { 0 };
        cs | clk | di | do_
    }

    /// Write the pin register and advance the protocol (see [`EepromView::write_spec`]).
    pub fn write(&mut self, value: u8)
        requires old(self).view().wf(),
        ensures
            final(self).view() == old(self).view().write_spec(value),
            final(self).view().wf(),
    {
        let new_cs = value & 0x80 != 0;
        let new_clk = value & 0x40 != 0;
        let di = value & 0x02 != 0;
        self.di = di;
        if self.cs && !new_cs {
            self.state = EepromState::Idle;
            self.in_bits = 0;
            self.in_count = 0;
            self.do_bit = true;
        }
        if !self.cs && new_cs {
            self.state = EepromState::Receiving;
            self.in_bits = 0;
            self.in_count = 0;
        }
        let rising = new_cs && !self.clk && new_clk;
        self.cs = new_cs;
        self.clk = new_clk;
        if !rising {
            return;
        }
        self.clock_in(di);
    }

    /// Process one rising clock edge (see [`EepromView::clocked`]).
    pub fn clock_in(&mut self, di: bool)
        requires old(self).view().wf(),
        ensures
            final(self).view() == old(self).view().clocked(di),
            final(self).view().wf(),
    {
        match self.state {
            EepromState::Idle => {},
            EepromState::Receiving => {
                if self.in_count == 0 && !di {
                    return;
                }
                self.in_bits = (self.in_bits << 1) | (if di { 1u32 } else { 0u32 });
                self.in_count = self.in_count + 1;
                if self.in_count < 10 {
                    return;
                }
                let op = (self.in_bits / 128) % 4;
                let addr = (self.in_bits % 128) as u8;
                let ghost mid = self.view();
                self.run_command(op, addr);
                assert(mid.command(op, addr) == old(self).view().clocked(di));
            },
            EepromState::Reading { word, sent } => {
                if sent < 16 {
                    self.do_bit = (word >> ((15 - sent) as u16)) & 1 != 0;
                    self.state = EepromState::Reading { word, sent: sent + 1 };
                } else {
                    self.do_bit = true;
                    self.state = EepromState::Idle;
                }
                assert(self.view() == old(self).view().clocked(di));
            },
            EepromState::Writing { addr, data, received } => {
                let data = (data << 1) | (if di { 1u16 } else { 0u16 });
                if received + 1 < 16 {
                    self.state = EepromState::Writing { addr, data, received: received + 1 };
                } else {
                    if self.write_enabled {
                        self.write_word(addr, data);
                    }
                    self.do_bit = true;
                    self.state = EepromState::Idle;
                }
                assert(self.view() == old(self).view().clocked(di));
            },
            EepromState::WritingAll { data, received } => {
                let data = (data << 1) | (if di { 1u16 } else { 0u16 });
                if received + 1 < 16 {
                    self.state = EepromState::WritingAll { data, received: received + 1 };
                } else {
                    if self.write_enabled {
                        self.write_all(data);
                    }
                    self.do_bit = true;
                    self.state = EepromState::Idle;
                }
                assert(self.view() == old(self).view().clocked(di));
            },
        }
    }

    /// Store `val` in every word.
    fn write_all(&mut self, val: u16)
        requires old(self).data@.len() == 256,
        ensures
            final(self).data@ == all_words(val),
            *final(self) == (Eeprom93lc56 { data: final(self).data, ..*old(self) }),
    {
        let mut i: u8 = 0;
        while i < 128
            invariant
                i <= 128,
                self.data@.len() == 256,
                forall|j: int| 0 <= j < 2 * i ==> self.data@[j] == all_words(val)[j],
                *self == (Eeprom93lc56 { data: self.data, ..*old(self) }),
            decreases 128 - i,
        {
            self.write_word(i, val);
            i = i + 1;
        }
        assert(self.data@ =~= all_words(val));
    }

    fn run_command(&mut self, op: u32, addr: u8)
        requires
            old(self).data@.len() == 256,
            addr < 128,
        ensures
            final(self).view() == old(self).view().command(op, addr),
    {
        self.in_bits = 0;
        self.in_count = 0;
        if op == 2 {
            let word = self.read_word(addr);
            self.state = EepromState::Reading { word, sent: 0 };
            self.do_bit = false;
        } else if op == 1 {
            self.state = EepromState::Writing { addr, data: 0, received: 0 };
        } else if op == 3 {
            if self.write_enabled {
                self.write_word(addr, 0xFFFF);
            }
            self.do_bit = true;
            self.state = EepromState::Idle;
        } else {
            let sub = (addr / 32) % 4;
            if sub == 1 {
                self.state = EepromState::WritingAll { data: 0, received: 0 };
                return;
            }
            if sub == 3 {
                self.write_enabled = true;
            } else if sub == 0 {
                self.write_enabled = false;
            } else {
                if self.write_enabled {
                    let mut i: usize = 0;
                    while i < 256
                        invariant
                            i <= 256,
                            self.data@.len() == 256,
                            forall|j: int| 0 <= j < i ==> self.data@[j] == 0xFF,
                            *self == (Eeprom93lc56 { data: self.data, ..*old(self) }).with_counters_cleared(),
                        decreases 256 - i,
                    {
                        self.data[i] = 0xFF;
                        i = i + 1;
                    }
                    assert(self.data@ =~= Seq::new(256, |i: int| 0xFFu8));
                }
            }
            self.do_bit = true;
            self.state = EepromState::Idle;
        }
    }

    pub open spec fn with_counters_cleared(self) -> Self {
        Eeprom93lc56 { in_bits: 0, in_count: 0, ..self }
    }

    /// Little-endian word `addr`.
    pub fn read_word(&self, addr: u8) -> (r: u16)
        requires addr < 128,
        ensures r == word_at(self.data@, addr as int),
    {
        let i = (addr as usize) * 2;
        self.data[i] as u16 + 256 * (self.data[i + 1] as u16)
    }

    /// Store little-endian word `addr`.
    pub fn write_word(&mut self, addr: u8, val: u16)
        requires addr < 128,
        ensures
            final(self).data@ == word_stored(old(self).data@, addr as int, val),
            *final(self) == (Eeprom93lc56 { data: final(self).data, ..*old(self) }),
    {
        let i = (addr as usize) * 2;
        self.data[i] = (val % 256) as u8;
        self.data[i + 1] = (val / 256) as u8;
    }

    /// The 256 bytes of contents.
    pub fn as_bytes(&self) -> (r: &[u8])
        ensures r@ == self.data@,
    {
        self.data.as_slice()
    }

    /// Copy `bytes` over the start of the contents (at most 256 bytes).
    pub fn load_bytes(&mut self, bytes: &[u8])
        ensures
            final(self).data@ == Seq::new(256, |i: int| if i < bytes@.len() { bytes@[i] } else { old(self).data@[i] }),
            *final(self) == (Eeprom93lc56 { data: final(self).data, ..*old(self) }),
    {
        let len = if bytes.len() < 256 { bytes.len() } else { 256 };
        let mut i: usize = 0;
        while i < len
            invariant
                len <= 256,
                len <= bytes@.len(),
                i <= len,
                forall|j: int| 0 <= j < i ==> self.data@[j] == bytes@[j],
                forall|j: int| i <= j < 256 ==> self.data@[j] == old(self).data@[j],
                *self == (Eeprom93lc56 { data: self.data, ..*old(self) }),
            decreases len - i,
        {
            self.data[i] = bytes[i];
            i = i + 1;
        }
        assert(self.data@ =~= Seq::new(256, |i: int| if i < bytes@.len() { bytes@[i] } else { old(self).data@[i] }));
    }
}

/// Accelerometer latch sequence.
#[derive(Debug, Clone, Copy, PartialEq, Eq, Structural)]
pub enum LatchStep {
    Idle,
    /// 0x55 seen; waiting for 0xAA.
    Seen55,
}

pub struct Mbc7 {
    pub rom: Vec<u8>,
    pub rom_bank: u16,
    pub ram_gate1: bool,
    pub ram_gate2: bool,
    pub accel_x: u16,
    pub accel_y: u16,
    pub accel_x_latched: u16,
    pub accel_y_latched: u16,
    pub latch_step: LatchStep,
    pub eeprom: Eeprom93lc56,
}

pub struct Mbc7View {
    pub rom: Seq<u8>,
    pub rom_bank: u16,
    pub ram_gate1: bool,
    pub ram_gate2: bool,
    pub accel_x: u16,
    pub accel_y: u16,
    pub accel_x_latched: u16,
    pub accel_y_latched: u16,
    pub latch_step: LatchStep,
    pub eeprom: EepromView,
}

/// `a / b` rounded toward zero.
pub open spec fn trunc_div(a: int, b: int) -> int {
    if a >= 0 { a / b } else { -((-a) / b) }
}

/// `v` clamped to 0..=0xFFFF.
pub open spec fn clamp16(v: int) -> u16 {
    if v < 0 { 0 } else if v > 0xFFFF { 0xFFFF } else { v as u16 }
}

impl Mbc7View {
    pub open spec fn wf(self) -> bool {
        self.eeprom.wf()
    }

    pub open spec fn ram_open(self) -> bool {
        self.ram_gate1 && self.ram_gate2
    }

    pub open spec fn read_rom(self, addr: u16) -> u8 {
        banked_rom_read(self.rom, self.rom_bank as int, addr)
    }

    /// Gate 1 opens on 0x0A, gate 2 on 0x40; 0x2000-0x3FFF selects the ROM bank.
    pub open spec fn write_rom(self, addr: u16, value: u8) -> Self {
        if addr <= 0x1FFF {
            Mbc7View { ram_gate1: value == 0x0A, ..self }
        } else if addr <= 0x3FFF {
            Mbc7View { rom_bank: value as u16, ..self }
        } else if addr <= 0x5FFF {
            Mbc7View { ram_gate2: value == 0x40, ..self }
        } else {
            self
        }
    }

    pub open spec fn read_ram(self, addr: u16) -> u8 {
        let reg = (addr / 16) % 16;
        if !self.ram_open() { 0xFF }
        else if reg == 2 { (self.accel_x_latched % 256) as u8 }
        else if reg == 3 { (self.accel_x_latched / 256) as u8 }
        else if reg == 4 { (self.accel_y_latched % 256) as u8 }
        else if reg == 5 { (self.accel_y_latched / 256) as u8 }
        else if reg == 6 { 0x00 }
        else if reg >= 8 { self.eeprom.read_spec() }
        else { 0xFF }
    }

    pub open spec fn write_ram(self, addr: u16, value: u8) -> Self {
        let reg = (addr / 16) % 16;
        if !self.ram_open() {
            self
        } else if reg == 0 {
            Mbc7View { latch_step: if value == 0x55 { LatchStep::Seen55 } else { LatchStep::Idle }, ..self }
        } else if reg == 1 {
            let s = Mbc7View { latch_step: LatchStep::Idle, ..self };
            if self.latch_step == LatchStep::Seen55 && value == 0xAA {
                Mbc7View { accel_x_latched: self.accel_x, accel_y_latched: self.accel_y, ..s }
            } else {
                s
            }
        } else if reg >= 8 {
            Mbc7View { eeprom: self.eeprom.write_spec(value), ..self }
        } else {
            self
        }
    }
}

impl Mbc7 {
    pub open spec fn view(&self) -> Mbc7View {
        Mbc7View {
            rom: self.rom@,
            rom_bank: self.rom_bank,
            ram_gate1: self.ram_gate1,
            ram_gate2: self.ram_gate2,
            accel_x: self.accel_x,
            accel_y: self.accel_y,
            accel_x_latched: self.accel_x_latched,
            accel_y_latched: self.accel_y_latched,
            latch_step: self.latch_step,
            eeprom: self.eeprom.view(),
        }
    }

    pub fn new(rom: Vec<u8>) -> (r: Self)
        ensures
            r.view() == (Mbc7View {
                rom: rom@, rom_bank: 1, ram_gate1: false, ram_gate2: false,
                accel_x: 0x81D0, accel_y: 0x81D0, accel_x_latched: 0x81D0, accel_y_latched: 0x81D0,
                latch_step: LatchStep::Idle, eeprom: r.eeprom.view(),
            }),
            r.eeprom.view() == (EepromView {
                data: Seq::new(256, |i: int| 0xFFu8), write_enabled: false, cs: false, clk: false,
                di: false, do_bit: true, state: EepromState::Idle, in_bits: 0, in_count: 0,
            }),
            r.view().wf(),
    {
        Mbc7 {
            rom,
            rom_bank: 1,
            ram_gate1: false,
            ram_gate2: false,
            accel_x: 0x81D0,
            accel_y: 0x81D0,
            accel_x_latched: 0x81D0,
            accel_y_latched: 0x81D0,
            latch_step: LatchStep::Idle,
            eeprom: Eeprom93lc56::new(),
        }
    }

    /// Feed a host accelerometer reading: `x` and `y` are offsets from flat
    /// where ±0x1000 is ±1g; the hardware maps ±1g to ±0x70 counts around
    /// 0x81D0, clamped to 16 bits.
    pub fn set_accelerometer(&mut self, x: i32, y: i32)
        requires
            -0x1249249 <= x <= 0x1249249,
            -0x1249249 <= y <= 0x1249249,
        ensures
            final(self).view() == (Mbc7View {
                accel_x: clamp16(0x81D0 + trunc_div(x * 0x70, 0x1000)),
                accel_y: clamp16(0x81D0 + trunc_div(y * 0x70, 0x1000)),
                ..old(self).view()
            }),
            final(self).rom == old(self).rom,
    {
        let sx = (x * 0x70) / 0x1000;
        let sy = (y * 0x70) / 0x1000;
        let vx = ACCEL_CENTER + sx;
        let vy = ACCEL_CENTER + sy;
        self.accel_x = if vx < 0 { 0 } else if vx > 0xFFFF { 0xFFFF } else { vx as u16 };
        self.accel_y = if vy < 0 { 0 } else if vy > 0xFFFF { 0xFFFF } else { vy as u16 };
    }

    pub fn ram_open(&self) -> (r: bool)
        ensures r == self.view().ram_open(),
    {
        self.ram_gate1 && self.ram_gate2
    }

    pub fn read_rom(&self, addr: u16) -> (r: u8)
        ensures r == self.view().read_rom(addr),
    {
        if addr <= 0x3FFF {
            byte_at(&self.rom, addr as usize)
        } else if addr <= 0x7FFF {
            byte_at(&self.rom, self.rom_bank as usize * 0x4000 + (addr as usize - 0x4000))
        } else {
            0xFF
        }
    }

    pub fn write_rom(&mut self, addr: u16, value: u8)
        ensures final(self).view() == old(self).view().write_rom(addr, value), final(self).rom == old(self).rom,
    {
        if addr <= 0x1FFF {
            self.ram_gate1 = value == 0x0A;
        } else if addr <= 0x3FFF {
            self.rom_bank = value as u16;
        } else if addr <= 0x5FFF {
            self.ram_gate2 = value == 0x40;
        }
    }

    pub fn read_ram(&self, addr: u16) -> (r: u8)
        ensures r == self.view().read_ram(addr),
    {
        if !self.ram_open() {
            return 0xFF;
        }
        let reg = (addr / 16) % 16;
        if reg == 2 {
            (self.accel_x_latched % 256) as u8
        } else if reg == 3 {
            (self.accel_x_latched / 256) as u8
        } else if reg == 4 {
            (self.accel_y_latched % 256) as u8
        } else if reg == 5 {
            (self.accel_y_latched / 256) as u8
        } else if reg == 6 {
            0x00
        } else if reg >= 8 {
            self.eeprom.read()
        } else {
            0xFF
        }
    }

    pub fn write_ram(&mut self, addr: u16, value: u8)
        requires old(self).view().wf(),
        ensures
            final(self).view() == old(self).view().write_ram(addr, value),
            final(self).view().wf(),
            final(self).rom == old(self).rom,
    {
        if !self.ram_open() {
            return;
        }
        let reg = (addr / 16) % 16;
        if reg == 0 {
            self.latch_step = if value == 0x55 { LatchStep::Seen55 } else { LatchStep::Idle };
        } else if reg == 1 {
            if self.latch_step == LatchStep::Seen55 && value == 0xAA {
                self.accel_x_latched = self.accel_x;
                self.accel_y_latched = self.accel_y;
            }
            self.latch_step = LatchStep::Idle;
        } else if reg >= 8 {
            self.eeprom.write(value);
        }
    }

    /// The EEPROM contents (the save data of this cartridge).
    pub fn ram_data(&self) -> (r: &[u8])
        ensures r@ == self.eeprom.data@,
    {
        self.eeprom.as_bytes()
    }

    pub fn load_ram(&mut self, data: &[u8])
        ensures
            final(self).eeprom.data@ == Seq::new(256, |i: int| if i < data@.len() { data@[i] } else { old(self).eeprom.data@[i] }),
            final(self).view() == (Mbc7View { eeprom: EepromView { data: final(self).eeprom.data@, ..old(self).view().eeprom }, ..old(self).view() }),
            final(self).rom == old(self).rom,
    {
        self.eeprom.load_bytes(data);
    }

    pub fn rom_bank_count(&self) -> (r: usize)
        ensures r == self.rom@.len() / 0x4000,
    {
        self.rom.len() / 0x4000
    }
}


/// `2^k`.
pub open spec fn two_pow(k: nat) -> nat
    decreases k,
{
    if k == 0 { 1 } else { 2 * two_pow((k - 1) as nat) }
}

impl EepromView {
    /// One clock pulse with CS high: the pins are written with CLK low, then
    /// with CLK high, DI carrying `di`.
    pub open spec fn pulse(self, di: bool) -> Self {
        if di { self.write_spec(0x82).write_spec(0xC2) } else { self.write_spec(0x80).write_spec(0xC0) }
    }

    /// Pulses clocking in the low `n` bits of `v`, most significant first.
    pub open spec fn clock_bits(self, v: nat, n: nat) -> Self
        decreases n,
    {
        if n == 0 { self } else { self.clock_bits(v / 2, (n - 1) as nat).pulse(v % 2 == 1) }
    }
}

/// The command word of a transaction: start bit, 2-bit opcode, 7-bit address.
pub open spec fn command_word(op: nat, addr: nat) -> nat {
    512 + op * 128 + addr
}

/// The pin values used by a pulse.
proof fn lemma_pulse_pins()
    ensures
        0x82u8 & 0x80 != 0, 0x82u8 & 0x40 == 0, 0x82u8 & 0x02 != 0,
        0xC2u8 & 0x80 != 0, 0xC2u8 & 0x40 != 0, 0xC2u8 & 0x02 != 0,
        0x80u8 & 0x80 != 0, 0x80u8 & 0x40 == 0, 0x80u8 & 0x02 == 0,
        0xC0u8 & 0x80 != 0, 0xC0u8 & 0x40 != 0, 0xC0u8 & 0x02 == 0,
        0x00u8 & 0x80 == 0, 0x00u8 & 0x40 == 0, 0x00u8 & 0x02 == 0,
{
    assert(
        0x82u8 & 0x80 != 0 && 0x82u8 & 0x40 == 0 && 0x82u8 & 0x02 != 0
        && 0xC2u8 & 0x80 != 0 && 0xC2u8 & 0x40 != 0 && 0xC2u8 & 0x02 != 0
        && 0x80u8 & 0x80 != 0 && 0x80u8 & 0x40 == 0 && 0x80u8 & 0x02 == 0
        && 0xC0u8 & 0x80 != 0 && 0xC0u8 & 0x40 != 0 && 0xC0u8 & 0x02 == 0
        && 0x00u8 & 0x80 == 0 && 0x00u8 & 0x40 == 0 && 0x00u8 & 0x02 == 0
    ) by (bit_vector);
}

/// Shifting in one bit doubles and adds it.
proof fn lemma_shift_in(x: u32, y: u16, b: bool)
    ensures
        x < 0x10000 ==> (x << 1) | (if b { 1u32 } else { 0u32 }) == 2 * x + (if b { 1int } else { 0 }),
        y < 0x8000 ==> ((y << 1) | (if b { 1u16 } else { 0u16 })) as u16 == 2 * y + (if b { 1int } else { 0 }),
{
    let bx: u32 = if b { 1 } else { 0 };
    let by: u16 = if b { 1 } else { 0 };
    assert(x < 0x10000 ==> (x << 1) | bx == 2 * x + bx) by (bit_vector) requires bx <= 1;
    assert(y < 0x8000 ==> ((y << 1) | by) as u16 == 2 * y + by) by (bit_vector) requires by <= 1;
}

/// A pulse with CS already high is one clocked bit.
proof fn lemma_pulse_high(s: EepromView, di: bool)
    requires s.cs,
    ensures s.pulse(di) == (EepromView { cs: true, clk: true, di, ..s }).clocked(di),
{
    lemma_pulse_pins();
}

/// The first pulse of a transaction raises CS, which starts receiving.
proof fn lemma_pulse_low(s: EepromView, di: bool)
    requires !s.cs,
    ensures
        s.pulse(di) == (EepromView {
            cs: true, clk: true, di, state: EepromState::Receiving, in_bits: 0, in_count: 0, ..s
        }).clocked(di),
{
    lemma_pulse_pins();
}

/// Clocking the first `n` (1-9) command bits, the first being the start
/// bit, from CS low collects them.
proof fn lemma_receive_prefix(e: EepromView, v: nat, n: nat)
    requires !e.cs, 1 <= n <= 9, two_pow((n - 1) as nat) <= v < two_pow(n),
    ensures
        e.clock_bits(v, n) == (EepromView {
            cs: true, clk: true, di: v % 2 == 1, state: EepromState::Receiving,
            in_bits: v as u32, in_count: n as u8, ..e
        }),
    decreases n,
{
    reveal_with_fuel(two_pow, 10);
    if n == 1 {
        assert(v == 1);
        assert(e.clock_bits(v, n) == e.clock_bits(0, 0).pulse(true));
        lemma_pulse_low(e, true);
        lemma_shift_in(0, 0, true);
    } else {
        lemma_receive_prefix(e, v / 2, (n - 1) as nat);
        let p = e.clock_bits(v / 2, (n - 1) as nat);
        lemma_pulse_high(p, v % 2 == 1);
        lemma_shift_in((v / 2) as u32, 0, v % 2 == 1);
    }
}

/// Clocking a whole command word from CS low runs the command.
proof fn lemma_receive_command(e: EepromView, op: nat, addr: nat)
    requires !e.cs, op < 4, addr < 128,
    ensures ({
        let v = command_word(op, addr);
        e.clock_bits(v, 10) == (EepromView { cs: true, clk: true, di: v % 2 == 1, ..e }).command(op as u32, addr as u8)
    }),
{
    let v = command_word(op, addr);
    reveal_with_fuel(two_pow, 10);
    lemma_receive_prefix(e, v / 2, 9);
    let p = e.clock_bits(v / 2, 9);
    lemma_pulse_high(p, v % 2 == 1);
    lemma_shift_in((v / 2) as u32, 0, v % 2 == 1);
    assert((v / 2) * 2 + v % 2 == v);
    assert((v / 128) % 4 == op);
    assert(v % 128 == addr);
}

/// Clocking `k` (1-15) data bits into a WRITE collects them.
proof fn lemma_write_prefix(w: EepromView, addr: u8, v: nat, k: nat)
    requires
        w.cs,
        w.state == (EepromState::Writing { addr, data: 0, received: 0 }),
        1 <= k <= 15, v < two_pow(k),
    ensures
        w.clock_bits(v, k) == (EepromView {
            clk: true, di: v % 2 == 1,
            state: EepromState::Writing { addr, data: v as u16, received: k as u8 }, ..w
        }),
    decreases k,
{
    reveal_with_fuel(two_pow, 16);
    if k == 1 {
        assert(w.clock_bits(v, k) == w.clock_bits(v / 2, 0).pulse(v % 2 == 1));
        lemma_pulse_high(w, v % 2 == 1);
        lemma_shift_in(0, 0, v % 2 == 1);
    } else {
        lemma_write_prefix(w, addr, v / 2, (k - 1) as nat);
        let p = w.clock_bits(v / 2, (k - 1) as nat);
        lemma_pulse_high(p, v % 2 == 1);
        lemma_shift_in(0, (v / 2) as u16, v % 2 == 1);
    }
}

/// Pulses during a READ shift out the word: after `k` (1-16) of them DO
/// is bit `16 - k` of the word.
proof fn lemma_read_prefix(r: EepromView, word: u16, v: nat, k: nat)
    requires
        r.cs,
        r.state == (EepromState::Reading { word, sent: 0 }),
        1 <= k <= 16,
    ensures
        r.clock_bits(v, k) == (EepromView {
            clk: true, di: v % 2 == 1,
            do_bit: (word >> ((16 - k) as u16)) & 1 != 0,
            state: EepromState::Reading { word, sent: k as u8 }, ..r
        }),
    decreases k,
{
    if k == 1 {
        assert(r.clock_bits(v, k) == r.clock_bits(v / 2, 0).pulse(v % 2 == 1));
        lemma_pulse_high(r, v % 2 == 1);
    } else {
        lemma_read_prefix(r, word, v / 2, (k - 1) as nat);
        let p = r.clock_bits(v / 2, (k - 1) as nat);
        lemma_pulse_high(p, v % 2 == 1);
    }
}

/// DO as the pin register shows it.
proof fn lemma_do_pin(e: EepromView)
    ensures
        (e.read_spec() & 0x01 == 1) == e.do_bit,
        (e.read_spec() & 0x01 == 0) == !e.do_bit,
{
    let a: u8 = if e.cs { 0x80 } else { 0 };
    let b: u8 = if e.clk { 0x40 } else { 0 };
    let c: u8 = if e.di { 0x02 } else { 0 };
    let d: u8 = if e.do_bit { 0x01 } else { 0 };
    assert(((a | b | c | d) & 0x01 == 1) == (d == 1) && ((a | b | c | d) & 0x01 == 0) == (d == 0))
        by (bit_vector)
        requires a == 0 || a == 0x80, b == 0 || b == 0x40, c == 0 || c == 2, d == 0 || d == 1;
}

/// WREN: clocking start bit, opcode 00 and an address 11xxxxx, then
/// dropping CS, enables writes and changes no data; DO reads 1.
pub proof fn law_eeprom_write_enable(e: EepromView, low: nat)
    requires e.wf(), !e.cs, low < 32,
    ensures ({
        let f = e.clock_bits(command_word(0, 96 + low), 10).write_spec(0x00);
        &&& f.write_enabled
        &&& f.data == e.data
        &&& f.state == EepromState::Idle
        &&& f.read_spec() & 0x01 == 1
        &&& !f.cs
        &&& f.wf()
    }),
{
    lemma_receive_command(e, 0, 96 + low);
    lemma_pulse_pins();
    let f = e.clock_bits(command_word(0, 96 + low), 10).write_spec(0x00);
    assert(((96 + low) as u8 / 32) % 4 == 3);
    lemma_do_pin(f);
}

/// WRITE: clocking start bit, opcode 01, address `addr`, then the 16 bits
/// of `d` (most significant first) and dropping CS stores `d` as word
/// `addr` when writes are enabled, and changes nothing otherwise; DO then
/// reads 1 (ready) and the chip is idle.
pub proof fn law_eeprom_write_word(e: EepromView, addr: nat, d: u16)
    requires e.wf(), !e.cs, addr < 128,
    ensures ({
        let f = e.clock_bits(command_word(1, addr), 10).clock_bits(d as nat, 16).write_spec(0x00);
        &&& f.data == (if e.write_enabled { word_stored(e.data, addr as int, d) } else { e.data })
        &&& f.write_enabled == e.write_enabled
        &&& f.state == EepromState::Idle
        &&& f.read_spec() & 0x01 == 1
        &&& !f.cs
        &&& f.wf()
    }),
{
    reveal_with_fuel(two_pow, 17);
    lemma_receive_command(e, 1, addr);
    lemma_pulse_pins();
    let w = e.clock_bits(command_word(1, addr), 10);
    let v = d as nat;
    lemma_write_prefix(w, addr as u8, v / 2, 15);
    let p = w.clock_bits(v / 2, 15);
    lemma_pulse_high(p, v % 2 == 1);
    lemma_shift_in(0, (v / 2) as u16, v % 2 == 1);
    assert(w.clock_bits(v, 16) == p.pulse(v % 2 == 1));
    let f = w.clock_bits(v, 16).write_spec(0x00);
    lemma_do_pin(f);
}

/// READ: clocking start bit, opcode 10 and address `addr` puts the dummy 0
/// on DO; each of the next 16 pulses shows the next bit of word `addr`,
/// most significant first; one more pulse ends the read with DO 1. The
/// data never changes.
pub proof fn law_eeprom_read_word(e: EepromView, addr: nat, k: nat, v: nat)
    requires e.wf(), !e.cs, addr < 128, 1 <= k <= 16,
    ensures ({
        let r = e.clock_bits(command_word(2, addr), 10);
        let w = word_at(e.data, addr as int);
        &&& r.read_spec() & 0x01 == 0
        &&& (r.clock_bits(v, k).read_spec() & 0x01 == 1) == ((w >> ((16 - k) as u16)) & 1 == 1)
        &&& r.clock_bits(v, 16).pulse(true).read_spec() & 0x01 == 1
        &&& r.clock_bits(v, 16).pulse(true).state == EepromState::Idle
        &&& r.clock_bits(v, k).data == e.data
    }),
{
    lemma_receive_command(e, 2, addr);
    let r = e.clock_bits(command_word(2, addr), 10);
    let w = word_at(e.data, addr as int);
    lemma_do_pin(r);
    lemma_read_prefix(r, w, v, k);
    lemma_do_pin(r.clock_bits(v, k));
    let sh: u16 = (16 - k) as u16;
    assert(((w >> sh) & 1 != 0) <==> ((w >> sh) & 1 == 1)) by (bit_vector);
    lemma_read_prefix(r, w, v, 16);
    lemma_pulse_high(r.clock_bits(v, 16), true);
    lemma_do_pin(r.clock_bits(v, 16).pulse(true));
}

/// A word written after WREN reads back: WREN, then WRITE of `d` to word
/// `addr`, then READ of word `addr` shows the bits of `d` on DO, most
/// significant first, one per pulse after the command.
pub proof fn law_eeprom_write_then_read(e: EepromView, low: nat, addr: nat, d: u16, k: nat, v: nat)
    requires e.wf(), !e.cs, low < 32, addr < 128, 1 <= k <= 16,
    ensures ({
        let w = e.clock_bits(command_word(0, 96 + low), 10).write_spec(0x00);
        let f = w.clock_bits(command_word(1, addr), 10).clock_bits(d as nat, 16).write_spec(0x00);
        let r = f.clock_bits(command_word(2, addr), 10);
        &&& word_at(f.data, addr as int) == d
        &&& (r.clock_bits(v, k).read_spec() & 0x01 == 1) == ((d >> ((16 - k) as u16)) & 1 == 1)
    }),
{
    law_eeprom_write_enable(e, low);
    let w = e.clock_bits(command_word(0, 96 + low), 10).write_spec(0x00);
    law_eeprom_write_word(w, addr, d);
    let f = w.clock_bits(command_word(1, addr), 10).clock_bits(d as nat, 16).write_spec(0x00);
    assert(f.data == word_stored(w.data, addr as int, d));
    assert(word_at(f.data, addr as int) == d);
    law_eeprom_read_word(f, addr, k, v);
}

} // verus!
