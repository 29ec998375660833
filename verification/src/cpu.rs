//! Sharp LR35902 CPU.
//!
//! Implements the instruction set including the CB-prefixed opcodes,
//! interrupt dispatch and the HALT state. Each `step` executes one
//! instruction (or dispatches one interrupt) and returns the T-cycles used.

use vstd::prelude::*;
use crate::bus::{MemoryBus, BusView};
use crate::interrupts::{Interrupt, InterruptController, cleared};

pub mod alu;
pub mod opcodes;

verus! {

/// Bit numbers of the flags in F.
pub const FLAG_Z: u8 = 7;
pub const FLAG_N: u8 = 6;
pub const FLAG_H: u8 = 5;
pub const FLAG_C: u8 = 4;

/// Registers and state for debugging.
pub struct CpuDebugState {
    pub pc: u16,
    pub sp: u16,
    pub a: u8,
    pub f: u8,
    pub bc: u16,
    pub de: u16,
    pub hl: u16,
    pub ime: bool,
    pub halted: bool,
}

#[derive(Clone, Copy)]
pub struct Cpu {
    pub a: u8,
    /// Flags: Z N H C in bits 7-4.
    pub f: u8,
    pub b: u8,
    pub c: u8,
    pub d: u8,
    pub e: u8,
    pub h: u8,
    pub l: u8,
    pub sp: u16,
    pub pc: u16,
    pub halted: bool,
    /// Interrupt master enable.
    pub ime: bool,
    /// EI enables IME after the next instruction.
    pub ime_pending: bool,
    /// Instructions executed.
    pub instruction_count: u64,
}

/// The 16-bit value of a register pair.
pub open spec fn w16(hi: u8, lo: u8) -> u16 {
    (hi as int * 256 + lo as int) as u16
}

/// `x + d` modulo 2^16.
pub open spec fn add16(x: u16, d: int) -> u16 {
    ((x as int + d) % 0x10000) as u16
}

/// High byte of a word.
pub open spec fn hi8(v: u16) -> u8 {
    (v / 256) as u8
}

/// Low byte of a word.
pub open spec fn lo8(v: u16) -> u8 {
    (v % 256) as u8
}

/// The opcodes the instruction set leaves undefined.
pub open spec fn is_illegal(op: u8) -> bool {
    op == 0xD3 || op == 0xDB || op == 0xDD || op == 0xE3 || op == 0xE4 || op == 0xEB || op == 0xEC
        || op == 0xED || op == 0xF4 || op == 0xFC || op == 0xFD
}

/// Enabled and requested interrupts (IE & IF, five sources).
pub open spec fn pending_interrupts(bus: BusView) -> u8 {
    bus.mem.ie & bus.mem.io[0x0F] & 0x1F
}

impl Cpu {
    /// State after the boot ROM.
    pub open spec fn initial() -> Cpu {
        Cpu {
            a: 0x01, f: 0xB0, b: 0x00, c: 0x13, d: 0x00, e: 0xD8, h: 0x01, l: 0x4D,
            sp: 0xFFFE, pc: 0x0100, halted: false, ime: true, ime_pending: false, instruction_count: 0,
        }
    }

    pub open spec fn af_spec(self) -> u16 { w16(self.a, self.f) }
    pub open spec fn bc_spec(self) -> u16 { w16(self.b, self.c) }
    pub open spec fn de_spec(self) -> u16 { w16(self.d, self.e) }
    pub open spec fn hl_spec(self) -> u16 { w16(self.h, self.l) }

    pub open spec fn with_af(self, v: u16) -> Cpu {
        Cpu { a: hi8(v), f: (lo8(v) / 16 * 16) as u8, ..self }
    }
    pub open spec fn with_bc(self, v: u16) -> Cpu { Cpu { b: hi8(v), c: lo8(v), ..self } }
    pub open spec fn with_de(self, v: u16) -> Cpu { Cpu { d: hi8(v), e: lo8(v), ..self } }
    pub open spec fn with_hl(self, v: u16) -> Cpu { Cpu { h: hi8(v), l: lo8(v), ..self } }

    /// Register pair `i`: BC, DE, HL, SP.
    pub open spec fn rr(self, i: int) -> u16 {
        if i == 0 { self.bc_spec() } else if i == 1 { self.de_spec() } else if i == 2 { self.hl_spec() } else { self.sp }
    }

    pub open spec fn with_rr(self, i: int, v: u16) -> Cpu {
        if i == 0 { self.with_bc(v) } else if i == 1 { self.with_de(v) } else if i == 2 { self.with_hl(v) } else { Cpu { sp: v, ..self } }
    }

    pub open spec fn flag_z(self) -> bool { self.f & 0x80 != 0 }
    pub open spec fn flag_n(self) -> bool { self.f & 0x40 != 0 }
    pub open spec fn flag_h(self) -> bool { self.f & 0x20 != 0 }
    pub open spec fn flag_c(self) -> bool { self.f & 0x10 != 0 }

    /// Condition `cc` of a conditional jump, call or return: NZ, Z, NC, C.
    pub open spec fn condition(self, cc: int) -> bool {
        if cc == 0 { !self.flag_z() } else if cc == 1 { self.flag_z() } else if cc == 2 { !self.flag_c() } else { self.flag_c() }
    }

    /// Operand `i` of the register field: B, C, D, E, H, L, (HL), A.
    pub open spec fn reg(self, bus: BusView, i: int) -> u8 {
        if i == 0 { self.b }
        else if i == 1 { self.c }
        else if i == 2 { self.d }
        else if i == 3 { self.e }
        else if i == 4 { self.h }
        else if i == 5 { self.l }
        else if i == 6 { bus.read(self.hl_spec()) }
        else { self.a }
    }

    /// Store `v` in operand `i` of the register field.
    pub open spec fn with_reg(self, bus: BusView, i: int, v: u8) -> (Cpu, BusView) {
        if i == 0 { (Cpu { b: v, ..self }, bus) }
        else if i == 1 { (Cpu { c: v, ..self }, bus) }
        else if i == 2 { (Cpu { d: v, ..self }, bus) }
        else if i == 3 { (Cpu { e: v, ..self }, bus) }
        else if i == 4 { (Cpu { h: v, ..self }, bus) }
        else if i == 5 { (Cpu { l: v, ..self }, bus) }
        else if i == 6 { (self, bus.write(self.hl_spec(), v)) }
        else { (Cpu { a: v, ..self }, bus) }
    }

    /// The byte at PC, and PC advanced past it.
    pub open spec fn fetched(self, bus: BusView) -> (Cpu, u8) {
        (Cpu { pc: add16(self.pc, 1), ..self }, bus.read(self.pc))
    }

    /// The little-endian word at PC, and PC advanced past it.
    pub open spec fn fetched_word(self, bus: BusView) -> (Cpu, u16) {
        (Cpu { pc: add16(self.pc, 2), ..self }, w16(bus.read(add16(self.pc, 1)), bus.read(self.pc)))
    }

    /// Push `v`: high byte at SP - 1, low byte at SP - 2.
    pub open spec fn pushed(self, bus: BusView, v: u16) -> (Cpu, BusView) {
        let s1 = add16(self.sp, -1);
        let s2 = add16(self.sp, -2);
        (Cpu { sp: s2, ..self }, bus.write(s1, hi8(v)).write(s2, lo8(v)))
    }

    /// Pop a word: low byte at SP, high byte at SP + 1.
    pub open spec fn popped(self, bus: BusView) -> (Cpu, u16) {
        (Cpu { sp: add16(self.sp, 2), ..self }, w16(bus.read(add16(self.sp, 1)), bus.read(self.sp)))
    }

    /// Dispatch of the highest-priority pending interrupt: IME and HALT
    /// clear, its IF flag clears, PC is pushed and the handler at 0x40,
    /// 0x48, 0x50, 0x58 or 0x60 runs; 20 cycles.
    pub open spec fn interrupt_spec(self, bus: BusView) -> (Cpu, BusView) {
        let p = pending_interrupts(bus);
        let (mask, vector): (u8, u16) = if p & 0x01 != 0 { (0x01, 0x40) }
            else if p & 0x02 != 0 { (0x02, 0x48) }
            else if p & 0x04 != 0 { (0x04, 0x50) }
            else if p & 0x08 != 0 { (0x08, 0x58) }
            else { (0x10, 0x60) };
        let c1 = Cpu { halted: false, ime: false, ..self };
        let b1 = BusView { mem: cleared(bus.mem, mask), ..bus };
        let (c2, b2) = c1.pushed(b1, c1.pc);
        (Cpu { pc: vector, ..c2 }, b2)
    }

    /// Whether `step` can run from this state: the opcode it would fetch is
    /// defined, and the instruction counter can advance.
    pub open spec fn can_step_spec(self, bus: BusView) -> bool {
        let c = if self.ime_pending { Cpu { ime: true, ime_pending: false, ..self } } else { self };
        let p = pending_interrupts(bus);
        if c.ime && p != 0 {
            true
        } else if c.halted && p == 0 {
            true
        } else {
            !is_illegal(bus.read(c.pc)) && self.instruction_count < u64::MAX
        }
    }

    /// One `step`: a pending EI takes effect; with IME set a pending
    /// interrupt is dispatched (20 cycles); a halted CPU wakes on any
    /// pending interrupt, else idles for 4 cycles; otherwise the next
    /// instruction is fetched and executed.
    pub open spec fn step_spec(self, bus: BusView) -> (Cpu, BusView, u32) {
        let c = if self.ime_pending { Cpu { ime: true, ime_pending: false, ..self } } else { self };
        let p = pending_interrupts(bus);
        if c.ime && p != 0 {
            let (c2, b2) = c.interrupt_spec(bus);
            (c2, b2, 20)
        } else if c.halted && p == 0 {
            (c, bus, 4)
        } else {
            let c1 = Cpu { halted: false, ..c };
            let (c2, op) = c1.fetched(bus);
            let c3 = Cpu { instruction_count: (c2.instruction_count + 1) as u64, ..c2 };
            c3.exec_spec(bus, op)
        }
    }

    pub fn new() -> (r: Self)
        ensures r == Cpu::initial(),
    {
        Cpu {
            a: 0x01,
            f: 0xB0,
            b: 0x00,
            c: 0x13,
            d: 0x00,
            e: 0xD8,
            h: 0x01,
            l: 0x4D,
            sp: 0xFFFE,
            pc: 0x0100,
            halted: false,
            ime: true,
            ime_pending: false,
            instruction_count: 0,
        }
    }

    /// Whether [`Cpu::step`] can run (see [`Cpu::can_step_spec`]).
    pub fn can_step(&self, bus: &MemoryBus) -> (r: bool)
        requires bus.view().wf(),
        ensures r == self.can_step_spec(bus.view()),
    {
        let ime = self.ime || self.ime_pending;
        let pending = bus.get_ie() & bus.read_io_direct(0x0F) & 0x1F;
        if ime && pending != 0 {
            true
        } else if self.halted && pending == 0 {
            true
        } else {
            !is_illegal_opcode(bus.read(self.pc)) && self.instruction_count < u64::MAX
        }
    }

    /// Execute one instruction or dispatch one interrupt (see
    /// [`Cpu::step_spec`]); returns the T-cycles used.
    pub fn step(&mut self, bus: &mut MemoryBus, interrupts: &mut InterruptController) -> (r: u32)
        requires
            old(bus).view().wf(),
            old(self).can_step_spec(old(bus).view()),
        ensures
            (*final(self), final(bus).view(), r) == old(self).step_spec(old(bus).view()),
            final(bus).view().wf(),
            4 <= r <= 24,
    {
        if self.ime_pending {
            self.ime = true;
            self.ime_pending = false;
        }
        let pending = bus.get_ie() & bus.read_io_direct(0x0F) & 0x1F;
        if self.ime && pending != 0 {
            self.handle_interrupt(bus, interrupts);
            return 20;
        }
        if self.halted {
            if pending != 0 {
                self.halted = false;
            } else {
                return 4;
            }
        }
        let opcode = self.fetch(bus);
        self.instruction_count = self.instruction_count + 1;
        self.execute(opcode, bus)
    }

    /// Read the byte at PC and advance PC.
    pub fn fetch(&mut self, bus: &MemoryBus) -> (r: u8)
        requires bus.view().wf(),
        ensures (*final(self), r) == old(self).fetched(bus.view()),
    {
        let v = bus.read(self.pc);
        self.pc = self.pc.wrapping_add(1);
        v
    }

    /// Read the little-endian word at PC and advance PC by 2.
    pub fn fetch_word(&mut self, bus: &MemoryBus) -> (r: u16)
        requires bus.view().wf(),
        ensures (*final(self), r) == old(self).fetched_word(bus.view()),
    {
        let low = self.fetch(bus) as u16;
        let high = self.fetch(bus) as u16;
        high * 256 + low
    }

    /// Dispatch the highest-priority pending interrupt (see
    /// [`Cpu::interrupt_spec`]).
    fn handle_interrupt(&mut self, bus: &mut MemoryBus, interrupts: &mut InterruptController)
        requires
            old(bus).view().wf(),
            pending_interrupts(old(bus).view()) != 0,
        ensures
            (*final(self), final(bus).view()) == old(self).interrupt_spec(old(bus).view()),
            final(bus).view().wf(),
    {
        let pending = bus.get_ie() & bus.read_io_direct(0x0F) & 0x1F;
        self.halted = false;
        self.ime = false;
        let (interrupt, vector): (Interrupt, u16) = if pending & 0x01 != 0 {
            (Interrupt::VBlank, 0x40)
        } else if pending & 0x02 != 0 {
            (Interrupt::LcdStat, 0x48)
        } else if pending & 0x04 != 0 {
            (Interrupt::Timer, 0x50)
        } else if pending & 0x08 != 0 {
            (Interrupt::Serial, 0x58)
        } else {
            (Interrupt::Joypad, 0x60)
        };
        interrupts.clear(interrupt, &mut bus.memory);
        let pc = self.pc;
        self.push_word(bus, pc);
        self.pc = vector;
    }

    /// Operand `idx` of the register field (see [`Cpu::reg`]).
    pub fn get_reg(&self, idx: u8, bus: &MemoryBus) -> (r: u8)
        requires bus.view().wf(), idx < 8,
        ensures r == self.reg(bus.view(), idx as int),
    {
        if idx == 0 { self.b }
        else if idx == 1 { self.c }
        else if idx == 2 { self.d }
        else if idx == 3 { self.e }
        else if idx == 4 { self.h }
        else if idx == 5 { self.l }
        else if idx == 6 { bus.read(self.hl()) }
        else { self.a }
    }

    /// Store into operand `idx` of the register field (see [`Cpu::with_reg`]).
    pub fn set_reg(&mut self, idx: u8, value: u8, bus: &mut MemoryBus)
        requires old(bus).view().wf(), idx < 8,
        ensures
            (*final(self), final(bus).view()) == old(self).with_reg(old(bus).view(), idx as int, value),
            final(bus).view().wf(),
    {
        if idx == 0 { self.b = value; }
        else if idx == 1 { self.c = value; }
        else if idx == 2 { self.d = value; }
        else if idx == 3 { self.e = value; }
        else if idx == 4 { self.h = value; }
        else if idx == 5 { self.l = value; }
        else if idx == 6 { bus.write(self.hl(), value); }
        else { self.a = value; }
    }

    pub fn af(&self) -> (r: u16)
        ensures r == self.af_spec(),
    {
        self.a as u16 * 256 + self.f as u16
    }

    pub fn bc(&self) -> (r: u16)
        ensures r == self.bc_spec(),
    {
        self.b as u16 * 256 + self.c as u16
    }

    pub fn de(&self) -> (r: u16)
        ensures r == self.de_spec(),
    {
        self.d as u16 * 256 + self.e as u16
    }

    pub fn hl(&self) -> (r: u16)
        ensures r == self.hl_spec(),
    {
        self.h as u16 * 256 + self.l as u16
    }

    /// Set AF; the low four bits of F always read 0.
    pub fn set_af(&mut self, v: u16)
        ensures *final(self) == old(self).with_af(v),
    {
        self.a = (v / 256) as u8;
        self.f = ((v % 256) / 16 * 16) as u8;
    }

    pub fn set_bc(&mut self, v: u16)
        ensures *final(self) == old(self).with_bc(v),
    {
        self.b = (v / 256) as u8;
        self.c = (v % 256) as u8;
    }

    pub fn set_de(&mut self, v: u16)
        ensures *final(self) == old(self).with_de(v),
    {
        self.d = (v / 256) as u8;
        self.e = (v % 256) as u8;
    }

    pub fn set_hl(&mut self, v: u16)
        ensures *final(self) == old(self).with_hl(v),
    {
        self.h = (v / 256) as u8;
        self.l = (v % 256) as u8;
    }

    /// Register pair `i` (see [`Cpu::rr`]).
    pub fn get_rr(&self, i: u8) -> (r: u16)
        requires i < 4,
        ensures r == self.rr(i as int),
    {
        if i == 0 { self.bc() } else if i == 1 { self.de() } else if i == 2 { self.hl() } else { self.sp }
    }

    /// Set register pair `i` (see [`Cpu::with_rr`]).
    pub fn set_rr(&mut self, i: u8, v: u16)
        requires i < 4,
        ensures *final(self) == old(self).with_rr(i as int, v),
    {
        if i == 0 { self.set_bc(v) } else if i == 1 { self.set_de(v) } else if i == 2 { self.set_hl(v) } else { self.sp = v }
    }

    /// Flag `bit` (one of FLAG_Z, FLAG_N, FLAG_H, FLAG_C) of F.
    pub fn flag(&self, bit: u8) -> (r: bool)
        requires bit < 8,
        ensures r == ((self.f >> bit) & 1 == 1),
    {
        (self.f >> bit) & 1 == 1
    }

    /// Condition `cc`: NZ, Z, NC, C.
    pub fn check_condition(&self, cc: u8) -> (r: bool)
        requires cc < 4,
        ensures r == self.condition(cc as int),
    {
        if cc == 0 { self.f & 0x80 == 0 }
        else if cc == 1 { self.f & 0x80 != 0 }
        else if cc == 2 { self.f & 0x10 == 0 }
        else { self.f & 0x10 != 0 }
    }

    /// Push a word (see [`Cpu::pushed`]).
    pub fn push_word(&mut self, bus: &mut MemoryBus, value: u16)
        requires old(bus).view().wf(),
        ensures
            (*final(self), final(bus).view()) == old(self).pushed(old(bus).view(), value),
            final(bus).view().wf(),
    {
        self.sp = self.sp.wrapping_sub(1);
        bus.write(self.sp, (value / 256) as u8);
        self.sp = self.sp.wrapping_sub(1);
        bus.write(self.sp, (value % 256) as u8);
    }

    /// Pop a word (see [`Cpu::popped`]).
    pub fn pop_word(&mut self, bus: &MemoryBus) -> (r: u16)
        requires bus.view().wf(),
        ensures (*final(self), r) == old(self).popped(bus.view()),
    {
        let low = bus.read(self.sp) as u16;
        self.sp = self.sp.wrapping_add(1);
        let high = bus.read(self.sp) as u16;
        self.sp = self.sp.wrapping_add(1);
        high * 256 + low
    }

    /// Registers and state for debugging.
    pub fn get_debug_state(&self) -> (r: CpuDebugState)
        ensures
            r.pc == self.pc && r.sp == self.sp && r.a == self.a && r.f == self.f,
            r.bc == self.bc_spec() && r.de == self.de_spec() && r.hl == self.hl_spec(),
            r.ime == self.ime && r.halted == self.halted,
    {
        CpuDebugState {
            pc: self.pc,
            sp: self.sp,
            a: self.a,
            f: self.f,
            bc: self.bc(),
            de: self.de(),
            hl: self.hl(),
            ime: self.ime,
            halted: self.halted,
        }
    }
}

/// Whether a stack pointer has both bytes below it in work RAM or high RAM.
pub open spec fn stack_in_ram(sp: u16) -> bool {
    (0xC002 <= sp <= 0xE000) || (0xFF82 <= sp <= 0xFFFF)
}

/// Popping after a push gives back the pushed word and the stack pointer.
pub proof fn law_push_then_pop(c: Cpu, b: BusView, v: u16)
    requires b.wf(), stack_in_ram(c.sp),
    ensures ({
        let (c1, b1) = c.pushed(b, v);
        let (c2, r) = c1.popped(b1);
        r == v && c2.sp == c.sp
    }),
{
    let s1 = add16(c.sp, -1);
    let s2 = add16(c.sp, -2);
    let b1 = b.write(s1, hi8(v));
    let b2 = b1.write(s2, lo8(v));
    crate::bus::lemma_bus_ram_write_wf(b, s1, hi8(v));
    crate::bus::law_bus_read_after_write(b1, s2, lo8(v));
    crate::bus::law_bus_read_after_write(b, s1, hi8(v));
    crate::bus::law_bus_write_keeps_other_ram(b1, s2, s1, lo8(v));
    assert(add16(s2, 1) == s1);
    assert(add16(s2, 2) == c.sp);
}

/// A halted CPU with no pending interrupt idles for 4 cycles.
pub proof fn law_halt_idles(c: Cpu, b: BusView)
    requires c.halted, !c.ime_pending, pending_interrupts(b) == 0,
    ensures c.step_spec(b) == (c, b, 4u32),
{
}

/// EI takes effect one step late: executing EI (4 cycles) only sets the
/// pending flag, and the next step, whatever the bus, runs exactly as if IME
/// were already set.
pub proof fn law_ei_delay(c: Cpu, b: BusView, b2: BusView)
    ensures
        c.exec_spec(b, 0xFB) == (Cpu { ime_pending: true, ..c }, b, 4u32),
        ({
            let c1 = c.exec_spec(b, 0xFB).0;
            c1.step_spec(b2) == (Cpu { ime: true, ime_pending: false, ..c1 }).step_spec(b2)
        }),
{
    reveal(Cpu::high_b_spec);
}

/// Interrupt priority and vectors: with IME set, a step dispatches the
/// pending interrupt (enabled in IE and requested in IF) of lowest bit
/// number `k` (V-blank 0, LCD STAT 1, Timer 2, Serial 3, Joypad 4) to
/// handler 0x40 + 8k in 20 cycles, clearing IME and HALT and pushing PC.
pub proof fn law_interrupt_dispatch(c: Cpu, b: BusView, k: int)
    requires 0 <= k < 5, c.ime,
    ensures ({
        let p = pending_interrupts(b);
        let w: int = if k == 0 { 1 } else if k == 1 { 2 } else if k == 2 { 4 } else if k == 3 { 8 } else { 16 };
        let (n, nb, cyc) = c.step_spec(b);
        (p as int) % w == 0 && ((p as int) / w) % 2 == 1 ==> {
            &&& n.pc == 0x40 + 8 * k
            &&& cyc == 20
            &&& !n.ime && !n.halted
            &&& n.sp == add16(c.sp, -2)
        }
    }),
{
    let p = pending_interrupts(b);
    assert((p & 0x01 != 0) == (p % 2 == 1) && (p & 0x02 != 0) == ((p / 2) % 2 == 1)
        && (p & 0x04 != 0) == ((p / 4) % 2 == 1) && (p & 0x08 != 0) == ((p / 8) % 2 == 1)) by (bit_vector);
}

/// Whether `op` is one of the undefined opcodes.
pub fn is_illegal_opcode(op: u8) -> (r: bool)
    ensures r == is_illegal(op),
{
    op == 0xD3 || op == 0xDB || op == 0xDD || op == 0xE3 || op == 0xE4 || op == 0xEB || op == 0xEC
        || op == 0xED || op == 0xF4 || op == 0xFC || op == 0xFD
}

/// A step that can run takes between 4 and 24 T-cycles.
pub proof fn lemma_step_cycles(c: Cpu, b: BusView)
    requires c.can_step_spec(b),
    ensures 4 <= c.step_spec(b).2 <= 24,
{
    let c0 = if c.ime_pending { Cpu { ime: true, ime_pending: false, ..c } } else { c };
    let p = pending_interrupts(b);
    if !(c0.ime && p != 0) && !(c0.halted && p == 0) {
        let c1 = Cpu { halted: false, ..c0 };
        let (c2, op) = c1.fetched(b);
        let c3 = Cpu { instruction_count: (c2.instruction_count + 1) as u64, ..c2 };
        crate::cpu::opcodes::lemma_exec_cycles(c3, b, op);
    }
}

} // verus!
