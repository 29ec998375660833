//! The CPU's view of the address space: the joypad register (0xFF00), the
//! timer registers (0xFF04-0xFF07) and the sound registers and wave RAM
//! (0xFF10-0xFF3F) are routed to their components, everything else to the
//! memory.

use vstd::prelude::*;
use crate::joypad::Joypad;
use crate::memory::{Memory, MemView, is_ram_address, law_read_after_write, law_write_keeps_other_ram};
use crate::timer::Timer;
use crate::apu::Apu;
use crate::apu::channel1::Channel1;
use crate::apu::channel2::Channel2;
use crate::apu::channel3::Channel3;
use crate::apu::channel4::Channel4;

verus! {

/// Memory, timer, joypad and sound unit as the CPU addresses them.
pub struct MemoryBus {
    pub memory: Memory,
    pub timer: Timer,
    pub joypad: Joypad,
    pub apu: Apu,
}

/// The bus as values.
pub struct BusView {
    pub mem: MemView,
    pub timer: Timer,
    pub joypad: Joypad,
    pub apu: Apu,
}

/// Addresses that belong to the sound unit.
pub open spec fn is_apu_address(addr: u16) -> bool {
    0xFF10 <= addr <= 0xFF3F
}

impl BusView {
    pub open spec fn wf(self) -> bool {
        self.mem.wf() && self.apu.wf()
    }

    #[verifier::opaque]
    pub open spec fn read(self, addr: u16) -> u8 {
        if addr == 0xFF00 {
            self.joypad.read_spec()
        } else if 0xFF04 <= addr <= 0xFF07 {
            self.timer.read_spec(addr)
        } else if is_apu_address(addr) {
            self.apu.read_spec(addr)
        } else {
            self.mem.read(addr)
        }
    }

    #[verifier::opaque]
    pub open spec fn write(self, addr: u16, value: u8) -> Self {
        if addr == 0xFF00 {
            BusView { joypad: self.joypad.write_spec(value), ..self }
        } else if 0xFF04 <= addr <= 0xFF07 {
            BusView { timer: self.timer.write_spec(addr, value), ..self }
        } else if is_apu_address(addr) {
            BusView { apu: self.apu.write_spec(addr, value), ..self }
        } else {
            BusView { mem: self.mem.write(addr, value), ..self }
        }
    }

    /// Little-endian 16-bit read at `addr` (the high byte from `addr + 1`,
    /// wrapping).
    pub open spec fn read_word(self, addr: u16) -> u16 {
        (self.read(addr) + 256 * self.read(((addr + 1) % 0x10000) as u16)) as u16
    }
}

/// Through the bus, a byte written to RAM reads back.
pub proof fn law_bus_read_after_write(b: BusView, addr: u16, value: u8)
    requires b.wf(), is_ram_address(addr),
    ensures b.write(addr, value).read(addr) == value,
{
    reveal(BusView::read);
    reveal(BusView::write);
    law_read_after_write(b.mem, addr, value);
}

/// Through the bus, a write to work RAM or high RAM keeps the other work
/// RAM and high RAM bytes.
pub proof fn law_bus_write_keeps_other_ram(b: BusView, a: u16, c: u16, value: u8)
    requires
        b.wf(),
        (0xC000 <= a <= 0xDFFF) || (0xFF80 <= a <= 0xFFFE),
        (0xC000 <= c <= 0xDFFF) || (0xFF80 <= c <= 0xFFFE),
        a != c,
    ensures b.write(a, value).read(c) == b.read(c),
{
    reveal(BusView::read);
    reveal(BusView::write);
    law_write_keeps_other_ram(b.mem, a, c, value);
}

/// Writing any value to DIV (0xFF04) through the bus clears it; the joypad
/// register keeps its button state.
pub proof fn law_bus_div_reset(b: BusView, value: u8)
    requires b.wf(),
    ensures
        b.write(0xFF04, value).read(0xFF04) == 0,
        b.write(0xFF00, value).joypad == b.joypad.write_spec(value),
{
    reveal(BusView::read);
    reveal(BusView::write);
}

/// Bus writes to work RAM or high RAM keep the memory well formed.
pub proof fn lemma_bus_ram_write_wf(b: BusView, addr: u16, value: u8)
    requires b.wf(), (0xC000 <= addr <= 0xDFFF) || (0xFF80 <= addr <= 0xFFFE),
    ensures b.write(addr, value).wf(),
{
    reveal(BusView::write);
    crate::memory::lemma_ram_write_wf(b.mem, addr, value);
}

impl MemoryBus {
    pub open spec fn view(&self) -> BusView {
        BusView { mem: self.memory.view(), timer: self.timer, joypad: self.joypad, apu: self.apu }
    }

    /// A bus over the given components with a sound unit in its power-on
    /// state.
    pub fn new(memory: Memory, timer: Timer, joypad: Joypad) -> (r: Self)
        ensures
            r.memory == memory, r.timer == timer, r.joypad == joypad,
            r.apu == Apu::initial(Channel1::initial(), Channel2::initial(), Channel3::initial(r.apu.ch3.wave_ram), Channel4::initial()),
            r.apu.ch3.wave_ram@ == Seq::new(16, |i: int| 0u8),
            r.apu.wf(),
    {
        MemoryBus { memory, timer, joypad, apu: Apu::new() }
    }

    /// A bus over the given components and sound unit.
    pub fn with_apu(memory: Memory, timer: Timer, joypad: Joypad, apu: Apu) -> (r: Self)
        ensures r.memory == memory, r.timer == timer, r.joypad == joypad, r.apu == apu,
    {
        MemoryBus { memory, timer, joypad, apu }
    }

    pub fn read(&self, addr: u16) -> (r: u8)
        requires self.view().wf(),
        ensures r == self.view().read(addr),
    {
        reveal(BusView::read);
        if addr == 0xFF00 {
            self.joypad.read()
        } else if 0xFF04 <= addr && addr <= 0xFF07 {
            self.timer.read(addr)
        } else if 0xFF10 <= addr && addr <= 0xFF3F {
            self.apu.read(addr)
        } else {
            self.memory.read(addr)
        }
    }

    pub fn write(&mut self, addr: u16, value: u8)
        requires old(self).view().wf(),
        ensures
            final(self).view() == old(self).view().write(addr, value),
            final(self).view().wf(),
    {
        reveal(BusView::write);
        if addr == 0xFF00 {
            self.joypad.write(value);
        } else if 0xFF04 <= addr && addr <= 0xFF07 {
            self.timer.write(addr, value);
        } else if 0xFF10 <= addr && addr <= 0xFF3F {
            self.apu.write(addr, value);
        } else {
            self.memory.write(addr, value);
        }
    }

    /// The memory, for changes the bus does not route.
    pub fn memory_mut(&mut self) -> (r: &mut Memory)
        ensures
            *r == old(self).memory,
            *final(self) == (MemoryBus { memory: *final(r), ..*old(self) }),
    {
        &mut self.memory
    }

    /// The interrupt enable register.
    pub fn get_ie(&self) -> (r: u8)
        ensures r == self.memory.ie,
    {
        self.memory.get_ie()
    }

    /// I/O register 0xFF00 + `offset` as the memory stores it.
    pub fn read_io_direct(&self, offset: u8) -> (r: u8)
        requires offset < 0x80, self.view().wf(),
        ensures r == self.memory.io@[offset as int],
    {
        self.memory.read_io_direct(offset)
    }
}

} // verus!
