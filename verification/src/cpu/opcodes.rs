//! Instruction decoding and execution.
//!
//! The opcode table is regular: 0x40-0x7F (but 0x76) load register to
//! register, 0x80-0xBF apply the ALU to A; in the other quarters the low
//! bits select the kind of instruction and the middle bits a register,
//! register pair or condition.

use vstd::prelude::*;
use crate::bus::{MemoryBus, BusView};
use crate::memory::MemView;
use crate::memory::cgb::CgbView;
use crate::cpu::{Cpu, add16, hi8, lo8, w16, is_illegal, stack_in_ram};
use crate::cpu::alu::{inc_spec, dec_spec, alu_spec, add_hl_spec, daa_spec, shift_spec, flag_bits, all_flags,
    inc, dec, alu, add_hl, daa, shift, flags_of};

verus! {

/// Signed value of a relative jump offset.
pub open spec fn rel8(n: u8) -> int {
    if n < 128 { n as int } else { n - 256 }
}

/// The memory after STOP switched the CPU speed.
pub open spec fn speed_switched(m: MemView) -> MemView {
    MemView { cgb: CgbView { double_speed: !m.cgb.double_speed, speed_armed: false, ..m.cgb }, ..m }
}

impl Cpu {
    /// 0x40-0x7F but 0x76: LD r, r'.
    #[verifier::opaque]
    pub open spec fn ld_spec(self, bus: BusView, op: u8) -> (Cpu, BusView, u32) {
        let dst = (op / 8 % 8) as int;
        let src = (op % 8) as int;
        let (c, b) = self.with_reg(bus, dst, self.reg(bus, src));
        (c, b, if src == 6 || dst == 6 { 8 } else { 4 })
    }

    /// 0x80-0xBF: ALU operation (bits 3-5) on A and a register.
    #[verifier::opaque]
    pub open spec fn alu_r_spec(self, bus: BusView, op: u8) -> (Cpu, BusView, u32) {
        let src = (op % 8) as int;
        let (r, f) = alu_spec((op / 8 % 8) as int, self.a, self.reg(bus, src), self.f);
        (Cpu { a: r, f, ..self }, bus, if src == 6 { 8 } else { 4 })
    }

    /// NOP, LD (nn),SP, STOP (a speed switch when KEY1 armed one, else a
    /// halt), JR and JR cc (opcodes 0x00-0x38 with low bits 000).
    #[verifier::opaque]
    pub open spec fn control_spec(self, bus: BusView, op: u8) -> (Cpu, BusView, u32) {
        let y = (op / 8 % 8) as int;
        if op == 0x00 {
            (self, bus, 4)
        } else if op == 0x08 {
            let (c, nn) = self.fetched_word(bus);
            (c, bus.write(nn, lo8(self.sp)).write(add16(nn, 1), hi8(self.sp)), 20)
        } else if op == 0x10 {
            let (c, _) = self.fetched(bus);
            if bus.mem.cgb.speed_armed {
                (c, BusView { mem: speed_switched(bus.mem), ..bus }, 4)
            } else {
                (Cpu { halted: true, ..c }, bus, 4)
            }
        } else if op == 0x18 {
            let (c, n) = self.fetched(bus);
            (Cpu { pc: add16(c.pc, rel8(n)), ..c }, bus, 12)
        } else {
            let (c, n) = self.fetched(bus);
            if self.condition(y - 4) {
                (Cpu { pc: add16(c.pc, rel8(n)), ..c }, bus, 12)
            } else {
                (c, bus, 8)
            }
        }
    }

    /// LD rr,nn, ADD HL,rr, INC rr, DEC rr and LD between A and (BC),
    /// (DE), (HL+), (HL-) (opcodes 0x00-0x3F with low bits 001-011).
    #[verifier::opaque]
    pub open spec fn pairs_spec(self, bus: BusView, op: u8) -> (Cpu, BusView, u32) {
        let p = (op / 16) as int;
        if op % 16 == 1 {
            let (c, nn) = self.fetched_word(bus);
            (c.with_rr(p, nn), bus, 12)
        } else if op % 16 == 9 {
            let (r, f) = add_hl_spec(self.hl_spec(), self.rr(p), self.f);
            (Cpu { f, ..self.with_hl(r) }, bus, 8)
        } else if op % 16 == 3 {
            (self.with_rr(p, add16(self.rr(p), 1)), bus, 8)
        } else if op % 16 == 11 {
            (self.with_rr(p, add16(self.rr(p), -1)), bus, 8)
        } else {
            let addr = if p == 0 { self.bc_spec() } else if p == 1 { self.de_spec() } else { self.hl_spec() };
            let c = if p == 2 { self.with_hl(add16(addr, 1)) } else if p == 3 { self.with_hl(add16(addr, -1)) } else { self };
            if op % 16 == 2 {
                (c, bus.write(addr, self.a), 8)
            } else {
                (Cpu { a: bus.read(addr), ..c }, bus, 8)
            }
        }
    }

    /// INC r, DEC r, LD r,n, the A rotates, DAA, CPL, SCF and CCF (opcodes
    /// 0x00-0x3F with low bits 100-111).
    #[verifier::opaque]
    pub open spec fn regs_spec(self, bus: BusView, op: u8) -> (Cpu, BusView, u32) {
        let y = (op / 8 % 8) as int;
        if op % 8 == 4 {
            let (r, f) = inc_spec(self.reg(bus, y), self.f);
            let (c, b) = Cpu { f, ..self }.with_reg(bus, y, r);
            (c, b, if y == 6 { 12 } else { 4 })
        } else if op % 8 == 5 {
            let (r, f) = dec_spec(self.reg(bus, y), self.f);
            let (c, b) = Cpu { f, ..self }.with_reg(bus, y, r);
            (c, b, if y == 6 { 12 } else { 4 })
        } else if op % 8 == 6 {
            let (c, n) = self.fetched(bus);
            let (c2, b2) = c.with_reg(bus, y, n);
            (c2, b2, if y == 6 { 12 } else { 8 })
        } else if op == 0x07 || op == 0x0F || op == 0x17 || op == 0x1F {
            let (r, f) = shift_spec(y, self.a, self.f);
            (Cpu { a: r, f: f & 0x7F, ..self }, bus, 4)
        } else if op == 0x27 {
            let (r, f) = daa_spec(self.a, self.f);
            (Cpu { a: r, f, ..self }, bus, 4)
        } else if op == 0x2F {
            (Cpu { a: !self.a, f: self.f | 0x60, ..self }, bus, 4)
        } else if op == 0x37 {
            (Cpu { f: (self.f & 0x8F) | 0x10, ..self }, bus, 4)
        } else {
            (Cpu { f: (self.f & 0x8F) | (if self.f & 0x10 != 0 { 0u8 } else { 0x10u8 }), ..self }, bus, 4)
        }
    }

    /// Opcodes 0x00-0x3F.
    pub open spec fn low_spec(self, bus: BusView, op: u8) -> (Cpu, BusView, u32) {
        if op % 8 == 0 {
            self.control_spec(bus, op)
        } else if op % 8 < 4 {
            self.pairs_spec(bus, op)
        } else {
            self.regs_spec(bus, op)
        }
    }

    /// HALT, LDH, ADD SP,n, LD HL,SP+n, RET cc, POP, RET, RETI, JP (HL),
    /// LD SP,HL and LD between A and (C) or (nn).
    #[verifier::opaque]
    pub open spec fn high_a_spec(self, bus: BusView, op: u8) -> (Cpu, BusView, u32) {
        let y = (op / 8 % 8) as int;
        let p = (op / 16 - 12) as int;
        if op == 0x76 {
            (Cpu { halted: true, ..self }, bus, 4)
        } else if op == 0xE0 {
            let (c, n) = self.fetched(bus);
            (c, bus.write((0xFF00 + n) as u16, self.a), 12)
        } else if op == 0xF0 {
            let (c, n) = self.fetched(bus);
            (Cpu { a: bus.read((0xFF00 + n) as u16), ..c }, bus, 12)
        } else if op == 0xE8 || op == 0xF8 {
            let (c, n) = self.fetched(bus);
            let r = add16(self.sp, rel8(n));
            let f = all_flags(self.f, false, false, self.sp % 16 + n % 16 > 15, self.sp % 256 + n > 255);
            if op == 0xE8 {
                (Cpu { sp: r, f, ..c }, bus, 16)
            } else {
                (Cpu { f, ..c.with_hl(r) }, bus, 12)
            }
        } else if op % 8 == 0 {
            if self.condition(y) {
                let (c, v) = self.popped(bus);
                (Cpu { pc: v, ..c }, bus, 20)
            } else {
                (self, bus, 8)
            }
        } else if op % 16 == 1 {
            let (c, v) = self.popped(bus);
            (if p == 3 { c.with_af(v) } else { c.with_rr(p, v) }, bus, 12)
        } else if op == 0xC9 || op == 0xD9 {
            let (c, v) = self.popped(bus);
            (Cpu { pc: v, ime: if op == 0xD9 { true } else { self.ime }, ..c }, bus, 16)
        } else if op == 0xE9 {
            (Cpu { pc: self.hl_spec(), ..self }, bus, 4)
        } else if op == 0xF9 {
            (Cpu { sp: self.hl_spec(), ..self }, bus, 8)
        } else if op == 0xE2 {
            (self, bus.write((0xFF00 + self.c) as u16, self.a), 8)
        } else if op == 0xF2 {
            (Cpu { a: bus.read((0xFF00 + self.c) as u16), ..self }, bus, 8)
        } else if op == 0xEA {
            let (c, nn) = self.fetched_word(bus);
            (c, bus.write(nn, self.a), 16)
        } else {
            let (c, nn) = self.fetched_word(bus);
            (Cpu { a: bus.read(nn), ..c }, bus, 16)
        }
    }

    /// JP cc, JP, the CB prefix, DI, EI, CALL cc, CALL, PUSH, ALU with an
    /// immediate and RST.
    #[verifier::opaque]
    pub open spec fn high_b_spec(self, bus: BusView, op: u8) -> (Cpu, BusView, u32) {
        let y = (op / 8 % 8) as int;
        let p = (op / 16 - 12) as int;
        if op % 8 == 2 {
            let (c, nn) = self.fetched_word(bus);
            if self.condition(y) { (Cpu { pc: nn, ..c }, bus, 16) } else { (c, bus, 12) }
        } else if op == 0xC3 {
            let (c, nn) = self.fetched_word(bus);
            (Cpu { pc: nn, ..c }, bus, 16)
        } else if op == 0xCB {
            let (c, cb) = self.fetched(bus);
            c.cb_spec(bus, cb)
        } else if op == 0xF3 {
            (Cpu { ime: false, ..self }, bus, 4)
        } else if op == 0xFB {
            (Cpu { ime_pending: true, ..self }, bus, 4)
        } else if op % 8 == 4 || op == 0xCD {
            let (c, nn) = self.fetched_word(bus);
            if op == 0xCD || self.condition(y) {
                let (c2, b2) = c.pushed(bus, c.pc);
                (Cpu { pc: nn, ..c2 }, b2, 24)
            } else {
                (c, bus, 12)
            }
        } else if op % 16 == 5 {
            let v = if p == 3 { self.af_spec() } else { self.rr(p) };
            let (c, b) = self.pushed(bus, v);
            (c, b, 16)
        } else if op % 8 == 6 {
            let (c, n) = self.fetched(bus);
            let (r, f) = alu_spec(y, self.a, n, self.f);
            (Cpu { a: r, f, ..c }, bus, 8)
        } else {
            let (c, b) = self.pushed(bus, self.pc);
            (Cpu { pc: (op - 0xC7) as u16, ..c }, b, 16)
        }
    }

    /// Whether `op` (0xC0-0xFF or HALT) is handled by [`Cpu::high_a_spec`].
    pub open spec fn is_high_a(op: u8) -> bool {
        op == 0x76 || op == 0xE0 || op == 0xF0 || op == 0xE8 || op == 0xF8 || op % 8 == 0 || op % 16 == 1
            || op == 0xC9 || op == 0xD9 || op == 0xE9 || op == 0xF9 || op == 0xE2 || op == 0xF2
            || op == 0xEA || op == 0xFA
    }

    /// Opcodes 0xC0-0xFF and HALT (0x76).
    pub open spec fn high_spec(self, bus: BusView, op: u8) -> (Cpu, BusView, u32) {
        if Cpu::is_high_a(op) { self.high_a_spec(bus, op) } else { self.high_b_spec(bus, op) }
    }

    /// CB-prefixed opcode `op`: rotate/shift, BIT, RES or SET on a
    /// register or (HL).
    #[verifier::opaque]
    pub open spec fn cb_spec(self, bus: BusView, op: u8) -> (Cpu, BusView, u32) {
        let idx = (op % 8) as int;
        let t = (op / 8) as int;
        let v = self.reg(bus, idx);
        let is_hl = idx == 6;
        if t < 8 {
            let (r, f) = shift_spec(t, v, self.f);
            let (c, b) = Cpu { f, ..self }.with_reg(bus, idx, r);
            (c, b, if is_hl { 16 } else { 8 })
        } else if t < 16 {
            let bit = (t - 8) as u8;
            let f = (self.f & 0x1F) | flag_bits((v >> bit) & 1 == 0, false, true, false);
            (Cpu { f, ..self }, bus, if is_hl { 12 } else { 8 })
        } else {
            let bit = (t % 8) as u8;
            let r = if t < 24 { v & !(1u8 << bit) } else { v | (1u8 << bit) };
            let (c, b) = self.with_reg(bus, idx, r);
            (c, b, if is_hl { 16 } else { 8 })
        }
    }

    /// The effect of executing opcode `op` whose byte PC has already passed:
    /// new registers, new bus and the T-cycles used.
    pub open spec fn exec_spec(self, bus: BusView, op: u8) -> (Cpu, BusView, u32) {
        if 0x40 <= op <= 0x7F && op != 0x76 {
            self.ld_spec(bus, op)
        } else if 0x80 <= op <= 0xBF {
            self.alu_r_spec(bus, op)
        } else if op < 0x40 {
            self.low_spec(bus, op)
        } else {
            self.high_spec(bus, op)
        }
    }

    /// Execute opcode `opcode` (see [`Cpu::exec_spec`]); returns the T-cycles
    /// used. The undefined opcodes are not accepted.
    pub fn execute(&mut self, opcode: u8, bus: &mut MemoryBus) -> (r: u32)
        requires
            old(bus).view().wf(),
            !is_illegal(opcode),
        ensures
            (*final(self), final(bus).view(), r) == old(self).exec_spec(old(bus).view(), opcode),
            final(bus).view().wf(),
            4 <= r <= 24,
    {
        if 0x40 <= opcode && opcode <= 0x7F && opcode != 0x76 {
            self.execute_ld(opcode, bus)
        } else if 0x80 <= opcode && opcode <= 0xBF {
            self.execute_alu_r(opcode, bus)
        } else if opcode < 0x40 {
            self.execute_low(opcode, bus)
        } else {
            self.execute_high(opcode, bus)
        }
    }

    /// LD r, r' (see [`Cpu::ld_spec`]).
    fn execute_ld(&mut self, opcode: u8, bus: &mut MemoryBus) -> (r: u32)
        requires old(bus).view().wf(),
        ensures
            (*final(self), final(bus).view(), r) == old(self).ld_spec(old(bus).view(), opcode),
            final(bus).view().wf(),
            4 <= r <= 24,
    {
        reveal(Cpu::ld_spec);
        let dst = opcode / 8 % 8;
        let src = opcode % 8;
        let v = self.get_reg(src, bus);
        self.set_reg(dst, v, bus);
        if src == 6 || dst == 6 { 8 } else { 4 }
    }

    /// ALU A, r (see [`Cpu::alu_r_spec`]).
    fn execute_alu_r(&mut self, opcode: u8, bus: &mut MemoryBus) -> (r: u32)
        requires old(bus).view().wf(),
        ensures
            (*final(self), final(bus).view(), r) == old(self).alu_r_spec(old(bus).view(), opcode),
            final(bus).view().wf(),
            4 <= r <= 24,
    {
        reveal(Cpu::alu_r_spec);
        let src = opcode % 8;
        let v = self.get_reg(src, bus);
        let (r, f) = alu(opcode / 8 % 8, self.a, v, self.f);
        self.a = r;
        self.f = f;
        if src == 6 { 8 } else { 4 }
    }

    /// Jump by the signed offset `n` from PC.
    fn jump_relative(&mut self, n: u8)
        ensures *final(self) == (Cpu { pc: add16(old(self).pc, rel8(n)), ..*old(self) }),
    {
        if n < 128 {
            self.pc = self.pc.wrapping_add(n as u16);
        } else {
            self.pc = self.pc.wrapping_sub(256 - n as u16);
        }
    }

    /// Opcodes 0x00-0x3F (see [`Cpu::low_spec`]).
    fn execute_low(&mut self, op: u8, bus: &mut MemoryBus) -> (r: u32)
        requires
            old(bus).view().wf(),
            op < 0x40,
        ensures
            (*final(self), final(bus).view(), r) == old(self).low_spec(old(bus).view(), op),
            final(bus).view().wf(),
            4 <= r <= 24,
    {
        if op % 8 == 0 {
            self.execute_low_control(op, bus)
        } else if op % 8 < 4 {
            self.execute_low_pairs(op, bus)
        } else {
            self.execute_low_regs(op, bus)
        }
    }

    /// NOP, LD (nn),SP, STOP, JR and JR cc.
    #[verifier::rlimit(40)]
    fn execute_low_control(&mut self, op: u8, bus: &mut MemoryBus) -> (r: u32)
        requires
            old(bus).view().wf(),
            op < 0x40,
            op % 8 == 0,
        ensures
            (*final(self), final(bus).view(), r) == old(self).control_spec(old(bus).view(), op),
            final(bus).view().wf(),
            4 <= r <= 24,
    {
        reveal(Cpu::control_spec);
        let y = op / 8 % 8;
        if op == 0x00 {
            4
        } else if op == 0x08 {
            let nn = self.fetch_word(bus);
            let sp = self.sp;
            bus.write(nn, (sp % 256) as u8);
            bus.write(nn.wrapping_add(1), (sp / 256) as u8);
            20
        } else if op == 0x10 {
            self.fetch(bus);
            if bus.memory.is_speed_armed() {
                bus.memory.toggle_double_speed();
            } else {
                self.halted = true;
            }
            4
        } else if op == 0x18 {
            let n = self.fetch(bus);
            self.jump_relative(n);
            12
        } else {
            let n = self.fetch(bus);
            if self.check_condition(y - 4) {
                self.jump_relative(n);
                12
            } else {
                8
            }
        }
    }

    /// 16-bit loads, ADD HL, INC/DEC of pairs and the indirect A loads.
    fn execute_low_pairs(&mut self, op: u8, bus: &mut MemoryBus) -> (r: u32)
        requires
            old(bus).view().wf(),
            op < 0x40,
            1 <= op % 8 <= 3,
        ensures
            (*final(self), final(bus).view(), r) == old(self).pairs_spec(old(bus).view(), op),
            final(bus).view().wf(),
            4 <= r <= 24,
    {
        if op % 16 == 2 || op % 16 == 10 {
            self.execute_indirect_a(op, bus)
        } else {
            self.execute_pair_arith(op, bus)
        }
    }

    /// LD rr,nn, ADD HL,rr, INC rr and DEC rr.
    #[verifier::rlimit(100)]
    #[verifier::spinoff_prover]
    fn execute_pair_arith(&mut self, op: u8, bus: &mut MemoryBus) -> (r: u32)
        requires
            old(bus).view().wf(),
            op < 0x40,
            op % 16 == 1 || op % 16 == 3 || op % 16 == 9 || op % 16 == 11,
        ensures
            (*final(self), final(bus).view(), r) == old(self).pairs_spec(old(bus).view(), op),
            final(bus).view().wf(),
            4 <= r <= 24,
    {
        reveal(Cpu::pairs_spec);
        let p = op / 16;
        if op % 16 == 1 {
            let nn = self.fetch_word(bus);
            self.set_rr(p, nn);
            12
        } else if op % 16 == 9 {
            let (r, f) = add_hl(self.hl(), self.get_rr(p), self.f);
            self.set_hl(r);
            self.f = f;
            8
        } else if op % 16 == 3 {
            let v = self.get_rr(p).wrapping_add(1);
            self.set_rr(p, v);
            8
        } else {
            let v = self.get_rr(p).wrapping_sub(1);
            self.set_rr(p, v);
            8
        }
    }

    /// LD (BC),A, LD (DE),A, LD (HL+),A, LD (HL-),A and the reverse loads.
    #[verifier::rlimit(100)]
    #[verifier::spinoff_prover]
    fn execute_indirect_a(&mut self, op: u8, bus: &mut MemoryBus) -> (r: u32)
        requires
            old(bus).view().wf(),
            op < 0x40,
            op % 16 == 2 || op % 16 == 10,
        ensures
            (*final(self), final(bus).view(), r) == old(self).pairs_spec(old(bus).view(), op),
            final(bus).view().wf(),
            4 <= r <= 24,
    {
        reveal(Cpu::pairs_spec);
        let p = op / 16;
        let addr = if p == 0 { self.bc() } else if p == 1 { self.de() } else { self.hl() };
        if p == 2 {
            self.set_hl(addr.wrapping_add(1));
        } else if p == 3 {
            self.set_hl(addr.wrapping_sub(1));
        }
        if op % 16 == 2 {
            bus.write(addr, self.a);
        } else {
            self.a = bus.read(addr);
        }
        8
    }

    /// INC r, DEC r, LD r,n and the accumulator/flag operations.
    #[verifier::rlimit(40)]
    fn execute_low_regs(&mut self, op: u8, bus: &mut MemoryBus) -> (r: u32)
        requires
            old(bus).view().wf(),
            op < 0x40,
            op % 8 >= 4,
        ensures
            (*final(self), final(bus).view(), r) == old(self).regs_spec(old(bus).view(), op),
            final(bus).view().wf(),
            4 <= r <= 24,
    {
        reveal(Cpu::regs_spec);
        let y = op / 8 % 8;
        if op % 8 == 4 {
            let (r, f) = inc(self.get_reg(y, bus), self.f);
            self.f = f;
            self.set_reg(y, r, bus);
            if y == 6 { 12 } else { 4 }
        } else if op % 8 == 5 {
            let (r, f) = dec(self.get_reg(y, bus), self.f);
            self.f = f;
            self.set_reg(y, r, bus);
            if y == 6 { 12 } else { 4 }
        } else if op % 8 == 6 {
            let n = self.fetch(bus);
            self.set_reg(y, n, bus);
            if y == 6 { 12 } else { 8 }
        } else if op == 0x07 || op == 0x0F || op == 0x17 || op == 0x1F {
            let (r, f) = shift(y, self.a, self.f);
            self.a = r;
            self.f = f & 0x7F;
            4
        } else if op == 0x27 {
            let (r, f) = daa(self.a, self.f);
            self.a = r;
            self.f = f;
            4
        } else if op == 0x2F {
            self.a = !self.a;
            self.f = self.f | 0x60;
            4
        } else if op == 0x37 {
            self.f = (self.f & 0x8F) | 0x10;
            4
        } else {
            let c: u8 = if self.f & 0x10 != 0 { 0 } else { 0x10 };
            self.f = (self.f & 0x8F) | c;
            4
        }
    }

    /// Opcodes 0xC0-0xFF and HALT (see [`Cpu::high_spec`]).
    fn execute_high(&mut self, op: u8, bus: &mut MemoryBus) -> (r: u32)
        requires
            old(bus).view().wf(),
            op >= 0xC0 || op == 0x76,
            !is_illegal(op),
        ensures
            (*final(self), final(bus).view(), r) == old(self).high_spec(old(bus).view(), op),
            final(bus).view().wf(),
            4 <= r <= 24,
    {
        if op == 0x76 || op == 0xE0 || op == 0xF0 || op == 0xE8 || op == 0xF8 || op % 8 == 0 || op % 16 == 1
            || op == 0xC9 || op == 0xD9 || op == 0xE9 || op == 0xF9 || op == 0xE2 || op == 0xF2
            || op == 0xEA || op == 0xFA {
            self.execute_high_a(op, bus)
        } else {
            self.execute_high_b(op, bus)
        }
    }

    /// See [`Cpu::high_a_spec`].
    #[verifier::rlimit(100)]
    #[verifier::spinoff_prover]
    fn execute_high_a(&mut self, op: u8, bus: &mut MemoryBus) -> (r: u32)
        requires
            old(bus).view().wf(),
            op >= 0xC0 || op == 0x76,
            Cpu::is_high_a(op),
        ensures
            (*final(self), final(bus).view(), r) == old(self).high_a_spec(old(bus).view(), op),
            final(bus).view().wf(),
            4 <= r <= 24,
    {
        reveal(Cpu::high_a_spec);
        let y = op / 8 % 8;
        if op == 0x76 {
            self.halted = true;
            return 4;
        }
        let p = op / 16 - 12;
        if op == 0xE0 {
            let n = self.fetch(bus);
            bus.write(0xFF00 + n as u16, self.a);
            12
        } else if op == 0xF0 {
            let n = self.fetch(bus);
            self.a = bus.read(0xFF00 + n as u16);
            12
        } else if op == 0xE8 || op == 0xF8 {
            let sp = self.sp;
            let n = self.fetch(bus);
            let r = if n < 128 { sp.wrapping_add(n as u16) } else { sp.wrapping_sub(256 - n as u16) };
            let f = flags_of(self.f, false, false, sp % 16 + n as u16 % 16 > 15, sp % 256 + n as u16 > 255);
            if op == 0xE8 {
                self.sp = r;
                self.f = f;
                16
            } else {
                self.set_hl(r);
                self.f = f;
                12
            }
        } else if op % 8 == 0 {
            if self.check_condition(y) {
                self.pc = self.pop_word(bus);
                20
            } else {
                8
            }
        } else if op % 16 == 1 {
            let v = self.pop_word(bus);
            if p == 3 {
                self.set_af(v);
            } else {
                self.set_rr(p, v);
            }
            12
        } else if op == 0xC9 || op == 0xD9 {
            if op == 0xD9 {
                self.ime = true;
            }
            self.pc = self.pop_word(bus);
            16
        } else if op == 0xE9 {
            self.pc = self.hl();
            4
        } else if op == 0xF9 {
            self.sp = self.hl();
            8
        } else if op == 0xE2 {
            bus.write(0xFF00 + self.c as u16, self.a);
            8
        } else if op == 0xF2 {
            self.a = bus.read(0xFF00 + self.c as u16);
            8
        } else if op == 0xEA {
            let nn = self.fetch_word(bus);
            bus.write(nn, self.a);
            16
        } else {
            let nn = self.fetch_word(bus);
            self.a = bus.read(nn);
            16
        }
    }

    /// See [`Cpu::high_b_spec`].
    #[verifier::rlimit(40)]
    fn execute_high_b(&mut self, op: u8, bus: &mut MemoryBus) -> (r: u32)
        requires
            old(bus).view().wf(),
            op >= 0xC0,
            !Cpu::is_high_a(op),
            !is_illegal(op),
        ensures
            (*final(self), final(bus).view(), r) == old(self).high_b_spec(old(bus).view(), op),
            final(bus).view().wf(),
            4 <= r <= 24,
    {
        reveal(Cpu::high_b_spec);
        let y = op / 8 % 8;
        let p = op / 16 - 12;
        if op % 8 == 2 {
            let nn = self.fetch_word(bus);
            if self.check_condition(y) {
                self.pc = nn;
                16
            } else {
                12
            }
        } else if op == 0xC3 {
            self.pc = self.fetch_word(bus);
            16
        } else if op == 0xCB {
            let cb = self.fetch(bus);
            self.execute_cb(cb, bus)
        } else if op == 0xF3 {
            self.ime = false;
            4
        } else if op == 0xFB {
            self.ime_pending = true;
            4
        } else if op % 8 == 4 || op == 0xCD {
            let nn = self.fetch_word(bus);
            if op == 0xCD || self.check_condition(y) {
                let pc = self.pc;
                self.push_word(bus, pc);
                self.pc = nn;
                24
            } else {
                12
            }
        } else if op % 16 == 5 {
            let v = if p == 3 { self.af() } else { self.get_rr(p) };
            self.push_word(bus, v);
            16
        } else if op % 8 == 6 {
            let n = self.fetch(bus);
            let (r, f) = alu(y, self.a, n, self.f);
            self.a = r;
            self.f = f;
            8
        } else {
            let pc = self.pc;
            self.push_word(bus, pc);
            self.pc = (op - 0xC7) as u16;
            16
        }
    }

    /// Execute CB-prefixed opcode `op` (see [`Cpu::cb_spec`]).
    pub fn execute_cb(&mut self, op: u8, bus: &mut MemoryBus) -> (r: u32)
        requires old(bus).view().wf(),
        ensures
            (*final(self), final(bus).view(), r) == old(self).cb_spec(old(bus).view(), op),
            final(bus).view().wf(),
            4 <= r <= 24,
    {
        reveal(Cpu::cb_spec);
        let idx = op % 8;
        let t = op / 8;
        let v = self.get_reg(idx, bus);
        let is_hl = idx == 6;
        if t < 8 {
            let (r, f) = shift(t, v, self.f);
            self.f = f;
            self.set_reg(idx, r, bus);
            if is_hl { 16 } else { 8 }
        } else if t < 16 {
            let bit = t - 8;
            let zb: u8 = if (v >> bit) & 1 == 0 { 0x80 } else { 0 };
            self.f = (self.f & 0x1F) | (zb | 0 | 0x20 | 0);
            if is_hl { 12 } else { 8 }
        } else {
            let bit = t % 8;
            let r = if t < 24 { v & !(1u8 << bit) } else { v | (1u8 << bit) };
            self.set_reg(idx, r, bus);
            if is_hl { 16 } else { 8 }
        }
    }
}

/// Every defined instruction takes between 4 and 24 T-cycles.
pub proof fn lemma_exec_cycles(c: Cpu, b: BusView, op: u8)
    requires !is_illegal(op),
    ensures 4 <= c.exec_spec(b, op).2 <= 24,
{
    if 0x40 <= op <= 0x7F && op != 0x76 {
        reveal(Cpu::ld_spec);
    } else if 0x80 <= op <= 0xBF {
        reveal(Cpu::alu_r_spec);
    } else if op < 0x40 {
        if op % 8 == 0 {
            reveal(Cpu::control_spec);
        } else if op % 8 < 4 {
            reveal(Cpu::pairs_spec);
        } else {
            reveal(Cpu::regs_spec);
        }
    } else if Cpu::is_high_a(op) {
        reveal(Cpu::high_a_spec);
    } else {
        reveal(Cpu::high_b_spec);
        reveal(Cpu::cb_spec);
    }
}

/// Opcodes 0x80-0xBF combine A with the operand their low three bits name
/// (B, C, D, E, H, L, (HL), A): in order of bits 3-5 ADD, ADC, SUB, SBC,
/// AND, XOR, OR and CP, ADC and SBC taking in the carry flag (F bit 4).
/// CP leaves A alone; the bus is untouched.
pub proof fn law_alu_opcodes(cpu: Cpu, bus: BusView, op: u8)
    requires 0x80 <= op <= 0xBF,
    ensures ({
        let x = cpu.reg(bus, (op % 8) as int);
        let c: int = if cpu.f & 0x10 != 0 { 1 } else { 0 };
        let (n, b, cyc) = cpu.exec_spec(bus, op);
        let kind = (op - 0x80) / 8;
        &&& b == bus
        &&& cyc == (if op % 8 == 6 { 8u32 } else { 4 })
        &&& kind == 0 ==> n.a == (cpu.a + x) % 256
        &&& kind == 1 ==> n.a == (cpu.a + x + c) % 256
        &&& kind == 2 ==> n.a == (cpu.a - x + 256) % 256
        &&& kind == 3 ==> n.a == (cpu.a - x - c + 512) % 256
        &&& kind == 4 ==> n.a == cpu.a & x
        &&& kind == 5 ==> n.a == cpu.a ^ x
        &&& kind == 6 ==> n.a == cpu.a | x
        &&& kind == 7 ==> n.a == cpu.a
        &&& n == (Cpu { a: n.a, f: n.f, ..cpu })
    }),
{
    reveal(Cpu::alu_r_spec);
    let x = cpu.reg(bus, (op % 8) as int);
    crate::cpu::alu::law_add_adc(cpu.a, x, cpu.f);
    crate::cpu::alu::law_sub_sbc(cpu.a, x, cpu.f);
    assert((op / 8 % 8) as int == (op - 0x80) / 8);
}

/// Opcodes 0xC6, 0xCE, ..., 0xFE combine A with the byte after the opcode
/// (at PC, which then moves past it): ADD, ADC, SUB, SBC, AND, XOR, OR and
/// CP in order, ADC and SBC taking in the carry flag.
pub proof fn law_alu_immediate_opcodes(cpu: Cpu, bus: BusView, op: u8)
    requires 0xC6 <= op, op % 8 == 6,
    ensures ({
        let x = bus.read(cpu.pc);
        let c: int = if cpu.f & 0x10 != 0 { 1 } else { 0 };
        let (n, b, cyc) = cpu.exec_spec(bus, op);
        let kind = (op - 0xC6) / 8;
        &&& b == bus
        &&& cyc == 8
        &&& n.pc == (cpu.pc + 1) % 0x10000
        &&& kind == 0 ==> n.a == (cpu.a + x) % 256
        &&& kind == 1 ==> n.a == (cpu.a + x + c) % 256
        &&& kind == 2 ==> n.a == (cpu.a - x + 256) % 256
        &&& kind == 3 ==> n.a == (cpu.a - x - c + 512) % 256
        &&& kind == 4 ==> n.a == cpu.a & x
        &&& kind == 5 ==> n.a == cpu.a ^ x
        &&& kind == 6 ==> n.a == cpu.a | x
        &&& kind == 7 ==> n.a == cpu.a
    }),
{
    reveal(Cpu::high_b_spec);
    let x = bus.read(cpu.pc);
    crate::cpu::alu::law_add_adc(cpu.a, x, cpu.f);
    crate::cpu::alu::law_sub_sbc(cpu.a, x, cpu.f);
    assert(!Cpu::is_high_a(op));
    assert((op / 8 % 8) as int == (op - 0xC6) / 8);
}

/// LD r, r' (0x40-0x7F but 0x76) copies operand `op % 8` into operand
/// `(op / 8) % 8` (B, C, D, E, H, L, (HL), A) and changes no other register.
pub proof fn law_ld_opcodes(cpu: Cpu, bus: BusView, op: u8)
    requires 0x40 <= op <= 0x7F, op != 0x76, op % 8 != 6, (op / 8) % 8 != 6,
    ensures ({
        let (n, b, cyc) = cpu.exec_spec(bus, op);
        let dst = ((op / 8) % 8) as int;
        let src = (op % 8) as int;
        &&& n.reg(b, dst) == cpu.reg(bus, src)
        &&& b == bus
        &&& cyc == 4
        &&& forall|i: int| 0 <= i < 8 && i != dst && i != 6 ==> #[trigger] n.reg(b, i) == cpu.reg(bus, i)
        &&& n.pc == cpu.pc && n.sp == cpu.sp && n.f == cpu.f
    }),
{
    reveal(Cpu::ld_spec);
}

/// JP nn jumps to the little-endian word after the opcode; JR e jumps by
/// the signed byte after the opcode, counted from the next instruction
/// (PC here has already moved past the opcode).
pub proof fn law_jumps(cpu: Cpu, bus: BusView)
    ensures
        cpu.exec_spec(bus, 0xC3).0.pc == bus.read(cpu.pc) + 256 * bus.read(add16(cpu.pc, 1)),
        ({
            let x = bus.read(cpu.pc);
            cpu.exec_spec(bus, 0x18).0.pc == (cpu.pc + 1 + x - (if x >= 128 { 256int } else { 0 })) % 0x10000
        }),
{
    reveal(Cpu::high_b_spec);
    reveal(Cpu::control_spec);
    let x = bus.read(cpu.pc);
    let m: int = 0x10000;
    let a: int = cpu.pc + 1;
    let r = rel8(x);
    vstd::arithmetic::div_mod::lemma_add_mod_noop(a, r, m);
    vstd::arithmetic::div_mod::lemma_add_mod_noop(a % m, r, m);
    vstd::arithmetic::div_mod::lemma_mod_twice(a, m);
    assert(((a % m) + r) % m == (a + r) % m);
}

/// RET after CALL nn returns to the instruction after the CALL with the
/// stack pointer restored; the CALL itself jumps to nn.
pub proof fn law_call_then_ret(cpu: Cpu, bus: BusView)
    requires bus.wf(), stack_in_ram(cpu.sp),
    ensures ({
        let (c1, b1, _) = cpu.exec_spec(bus, 0xCD);
        let (c2, _, _) = c1.exec_spec(b1, 0xC9);
        &&& c1.pc == w16(bus.read(add16(cpu.pc, 1)), bus.read(cpu.pc))
        &&& c2.pc == add16(cpu.pc, 2)
        &&& c2.sp == cpu.sp
    }),
{
    reveal(Cpu::high_b_spec);
    reveal(Cpu::high_a_spec);
    let (c, nn) = cpu.fetched_word(bus);
    crate::cpu::law_push_then_pop(c, bus, c.pc);
    assert(!Cpu::is_high_a(0xCD));
    assert(Cpu::is_high_a(0xC9));
}

/// BIT b, r (CB 0x40-0x7F) sets Z exactly when bit `b` (opcode bits 3-5)
/// of the operand is 0, clears N, sets H, keeps C and changes nothing else.
pub proof fn law_bit_test(cpu: Cpu, bus: BusView, op: u8)
    requires 0x40 <= op <= 0x7F,
    ensures ({
        let (n, b, _) = cpu.cb_spec(bus, op);
        let v = cpu.reg(bus, (op % 8) as int);
        let k = ((op / 8) % 8) as nat;
        &&& (n.f & 0x80 != 0) == ((v as nat / vstd::arithmetic::power2::pow2(k)) % 2 == 0)
        &&& n.f & 0x40 == 0 && n.f & 0x20 != 0 && n.f & 0x10 == cpu.f & 0x10
        &&& n == (Cpu { f: n.f, ..cpu }) && b == bus
    }),
{
    reveal(Cpu::cb_spec);
    let v = cpu.reg(bus, (op % 8) as int);
    let bit = ((op / 8) - 8) as u8;
    assert(bit as nat == ((op / 8) % 8) as nat);
    vstd::bits::lemma_u8_shr_is_div(v, bit);
    crate::bits::lemma_byte_fields(v >> bit, 0, 0);
    crate::cpu::alu::lemma_znh_bits(cpu.f, (v >> bit) & 1 == 0, false, true);
}

} // verus!
