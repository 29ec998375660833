//! Interrupt requests: the IF register (0xFF0F) holds one flag per source;
//! the IE register (0xFFFF) enables them. Priority, highest first: VBlank,
//! LCD STAT, Timer, Serial, Joypad.

use vstd::prelude::*;
use crate::memory::{Memory, MemView};

verus! {

/// Interrupt sources, by hardware priority.
#[derive(Debug, Clone, Copy, PartialEq, Eq, Structural)]
pub enum Interrupt {
    VBlank,
    LcdStat,
    Timer,
    Serial,
    Joypad,
}

/// Bit of IF and IE that belongs to an interrupt source.
pub open spec fn interrupt_bit(i: Interrupt) -> u8 {
    match i {
        Interrupt::VBlank => 0,
        Interrupt::LcdStat => 1,
        Interrupt::Timer => 2,
        Interrupt::Serial => 3,
        Interrupt::Joypad => 4,
    }
}

/// Mask of an interrupt source in IF and IE.
pub open spec fn interrupt_mask(i: Interrupt) -> u8 {
    match i {
        Interrupt::VBlank => 0x01,
        Interrupt::LcdStat => 0x02,
        Interrupt::Timer => 0x04,
        Interrupt::Serial => 0x08,
        Interrupt::Joypad => 0x10,
    }
}

impl Interrupt {
    /// Bit number of this source in IF and IE.
    pub fn bit(self) -> (r: u8)
        ensures r == interrupt_bit(self),
    {
        match self {
            Interrupt::VBlank => 0,
            Interrupt::LcdStat => 1,
            Interrupt::Timer => 2,
            Interrupt::Serial => 3,
            Interrupt::Joypad => 4,
        }
    }

    /// Mask of this source in IF and IE.
    pub fn mask(self) -> (r: u8)
        ensures r == interrupt_mask(self),
    {
        match self {
            Interrupt::VBlank => 0x01,
            Interrupt::LcdStat => 0x02,
            Interrupt::Timer => 0x04,
            Interrupt::Serial => 0x08,
            Interrupt::Joypad => 0x10,
        }
    }
}

/// Memory with IF flag `mask` set.
pub open spec fn requested(m: MemView, mask: u8) -> MemView {
    MemView { io: m.io.update(0x0F, m.io[0x0F] | mask), ..m }
}

/// Memory with IF flag `mask` cleared.
pub open spec fn cleared(m: MemView, mask: u8) -> MemView {
    MemView { io: m.io.update(0x0F, m.io[0x0F] & !mask), ..m }
}

/// Sets and clears interrupt flags in the memory's IF register.
pub struct InterruptController;

impl InterruptController {
    pub fn new() -> (r: Self) {
        InterruptController
    }

    /// Set the IF flag of `interrupt`.
    pub fn request(&self, interrupt: Interrupt, memory: &mut Memory)
        requires old(memory).view().wf(),
        ensures
            final(memory).view() == requested(old(memory).view(), interrupt_mask(interrupt)),
            final(memory).view().wf(),
    {
        let if_reg = memory.read_io_direct(0x0F);
        memory.write_io_direct(0x0F, if_reg | interrupt.mask());
    }

    /// Clear the IF flag of `interrupt`.
    pub fn clear(&self, interrupt: Interrupt, memory: &mut Memory)
        requires old(memory).view().wf(),
        ensures
            final(memory).view() == cleared(old(memory).view(), interrupt_mask(interrupt)),
            final(memory).view().wf(),
    {
        let if_reg = memory.read_io_direct(0x0F);
        memory.write_io_direct(0x0F, if_reg & !interrupt.mask());
    }
}

/// Requesting an interrupt sets exactly its flag in IF and leaves the other
/// flags as they were; clearing it then leaves its flag clear.
pub proof fn law_request_then_clear(m: MemView, i: Interrupt)
    requires m.wf(),
    ensures
        requested(m, interrupt_mask(i)).io[0x0F] & interrupt_mask(i) == interrupt_mask(i),
        forall|b: u8| b < 5 && b != interrupt_bit(i) ==>
            (#[trigger] (requested(m, interrupt_mask(i)).io[0x0F] & (1u8 << b))) == m.io[0x0F] & (1u8 << b),
        cleared(requested(m, interrupt_mask(i)), interrupt_mask(i)).io[0x0F] & interrupt_mask(i) == 0,
{
    let f = m.io[0x0F];
    let k = interrupt_mask(i);
    let kb = interrupt_bit(i);
    assert((f | k) & k == k) by (bit_vector);
    assert(((f | k) & !k) & k == 0) by (bit_vector);
    assert forall|b: u8| b < 5 && b != kb implies (#[trigger] ((f | k) & (1u8 << b))) == f & (1u8 << b) by {
        assert(b < 5 && b != kb && ((kb == 0 && k == 1) || (kb == 1 && k == 2) || (kb == 2 && k == 4)
            || (kb == 3 && k == 8) || (kb == 4 && k == 16)) ==> (f | k) & (1u8 << b) == f & (1u8 << b)) by (bit_vector);
    }
}

} // verus!
