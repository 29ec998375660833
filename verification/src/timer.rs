//! Timer: DIV, TIMA, TMA and TAC (0xFF04-0xFF07).
//!
//! DIV is the upper byte of a 16-bit counter that advances every cycle.
//! With TAC bit 2 set, TIMA increments on each falling edge of the counter
//! bit chosen by TAC bits 0-1 (9, 3, 5 or 7: 4096, 262144, 65536 or 16384
//! Hz). When TIMA overflows it reads 0 for four cycles, then reloads from
//! TMA and requests the Timer interrupt.

use vstd::prelude::*;
use crate::interrupts::{Interrupt, InterruptController, requested};
use crate::memory::{Memory, MemView};

verus! {

#[derive(Clone, Copy)]
pub struct Timer {
    /// Internal 16-bit counter; DIV is its upper byte.
    pub div_counter: u16,
    pub tima: u8,
    pub tma: u8,
    pub tac: u8,
    /// Cycles left until TIMA reloads after an overflow (0 = none pending).
    pub overflow_cycles: u8,
}

/// Counter bit whose falling edge clocks TIMA, by TAC clock select.
pub open spec fn tac_bit(tac: u8) -> u16 {
    let sel = tac % 4;
    if sel == 0 { 9 } else if sel == 1 { 3 } else if sel == 2 { 5 } else { 7 }
}

/// Bit `bit` of the counter value `v`.
pub open spec fn counter_bit(v: u16, bit: u16) -> u16 {
    (v >> bit) & 1
}

impl Timer {
    /// State after boot.
    pub open spec fn initial() -> Timer {
        Timer { div_counter: 0xABCC, tima: 0, tma: 0, tac: 0xF8, overflow_cycles: 0 }
    }

    /// One cycle: a pending reload counts down (reloading TIMA from TMA and
    /// requesting the interrupt when it reaches 0), the counter advances,
    /// and with the timer enabled a falling edge of the selected bit
    /// increments TIMA; wrapping to 0 schedules the reload 4 cycles later.
    /// The flag is whether the interrupt was requested.
    pub open spec fn step(self) -> (Timer, bool) {
        let reload = self.overflow_cycles == 1;
        let t1 = if self.overflow_cycles > 0 {
            Timer {
                overflow_cycles: (self.overflow_cycles - 1) as u8,
                tima: if reload { self.tma } else { self.tima },
                ..self
            }
        } else {
            self
        };
        let new_div = ((t1.div_counter + 1) % 0x10000) as u16;
        let t2 = Timer { div_counter: new_div, ..t1 };
        if t1.tac & 0x04 == 0 {
            (t2, reload)
        } else {
            let bit = tac_bit(t1.tac);
            if counter_bit(t1.div_counter, bit) == 1 && counter_bit(new_div, bit) == 0 {
                let tima = ((t2.tima + 1) % 256) as u8;
                (Timer { tima, overflow_cycles: if tima == 0 { 4 } else { t2.overflow_cycles }, ..t2 }, reload)
            } else {
                (t2, reload)
            }
        }
    }

    /// `n` cycles; the flag is whether any of them requested the interrupt.
    pub open spec fn steps(self, n: nat) -> (Timer, bool)
        decreases n,
    {
        if n == 0 {
            (self, false)
        } else {
            let (t, r) = self.steps((n - 1) as nat);
            let (t2, r2) = t.step();
            (t2, r || r2)
        }
    }

    /// Register read (0xFF04-0xFF07): DIV, TIMA, TMA, TAC with the upper
    /// five bits set; 0xFF elsewhere.
    pub open spec fn read_spec(self, addr: u16) -> u8 {
        if addr == 0xFF04 { (self.div_counter / 256) as u8 }
        else if addr == 0xFF05 { self.tima }
        else if addr == 0xFF06 { self.tma }
        else if addr == 0xFF07 { self.tac | 0xF8 }
        else { 0xFF }
    }

    /// Register write: any write to DIV clears the counter; a TIMA write
    /// cancels a pending reload.
    pub open spec fn write_spec(self, addr: u16, value: u8) -> Timer {
        if addr == 0xFF04 { Timer { div_counter: 0, ..self } }
        else if addr == 0xFF05 { Timer { tima: value, overflow_cycles: 0, ..self } }
        else if addr == 0xFF06 { Timer { tma: value, ..self } }
        else if addr == 0xFF07 { Timer { tac: value, ..self } }
        else { self }
    }

    pub fn new() -> (r: Self)
        ensures r == Timer::initial(),
    {
        Timer { div_counter: 0xABCC, tima: 0, tma: 0, tac: 0xF8, overflow_cycles: 0 }
    }

    /// Run `cycles` cycles, requesting the Timer interrupt in `memory` when
    /// TIMA reloads.
    pub fn tick(&mut self, cycles: u32, memory: &mut Memory, interrupts: &InterruptController)
        requires old(memory).view().wf(),
        ensures
            *final(self) == old(self).steps(cycles as nat).0,
            final(memory).view() == if old(self).steps(cycles as nat).1 {
                requested(old(memory).view(), 0x04)
            } else {
                old(memory).view()
            },
            final(memory).view().wf(),
    {
        let ghost t0 = *self;
        let ghost m0 = memory.view();
        let mut i: u32 = 0;
        while i < cycles
            invariant
                i <= cycles,
                *self == t0.steps(i as nat).0,
                memory.view() == if t0.steps(i as nat).1 { requested(m0, 0x04) } else { m0 },
                memory.view().wf(),
                m0.wf(),
            decreases cycles - i,
        {
            let ghost before = memory.view();
            let req = self.tick_once();
            if req {
                interrupts.request(Interrupt::Timer, memory);
                proof {
                    lemma_request_idempotent(m0, 0x04);
                }
            }
            i = i + 1;
        }
    }

    /// One cycle (see [`Timer::step`]); returns whether the interrupt is due.
    fn tick_once(&mut self) -> (r: bool)
        ensures (*final(self), r) == old(self).step(),
    {
        let mut reload = false;
        if self.overflow_cycles > 0 {
            self.overflow_cycles = self.overflow_cycles - 1;
            if self.overflow_cycles == 0 {
                self.tima = self.tma;
                reload = true;
            }
        }
        let old_div = self.div_counter;
        self.div_counter = self.div_counter.wrapping_add(1);
        if self.tac & 0x04 == 0 {
            return reload;
        }
        let sel = self.tac % 4;
        let bit: u16 = if sel == 0 { 9 } else if sel == 1 { 3 } else if sel == 2 { 5 } else { 7 };
        let old_bit = (old_div >> bit) & 1;
        let new_bit = (self.div_counter >> bit) & 1;
        if old_bit == 1 && new_bit == 0 {
            self.tima = self.tima.wrapping_add(1);
            if self.tima == 0 {
                self.overflow_cycles = 4;
            }
        }
        reload
    }

    /// Register read (see [`Timer::read_spec`]).
    pub fn read(&self, addr: u16) -> (r: u8)
        ensures r == self.read_spec(addr),
    {
        if addr == 0xFF04 {
            (self.div_counter / 256) as u8
        } else if addr == 0xFF05 {
            self.tima
        } else if addr == 0xFF06 {
            self.tma
        } else if addr == 0xFF07 {
            self.tac | 0xF8
        } else {
            0xFF
        }
    }

    /// Register write (see [`Timer::write_spec`]).
    pub fn write(&mut self, addr: u16, value: u8)
        ensures *final(self) == old(self).write_spec(addr, value),
    {
        if addr == 0xFF04 {
            self.div_counter = 0;
        } else if addr == 0xFF05 {
            self.overflow_cycles = 0;
            self.tima = value;
        } else if addr == 0xFF06 {
            self.tma = value;
        } else if addr == 0xFF07 {
            self.tac = value;
        }
    }
}

/// Any write to DIV clears it; a TIMA write cancels a pending reload.
pub proof fn law_timer_writes(t: Timer, v: u8)
    ensures
        t.write_spec(0xFF04, v).read_spec(0xFF04) == 0,
        t.write_spec(0xFF05, v).read_spec(0xFF05) == v,
        t.write_spec(0xFF05, v).overflow_cycles == 0,
        t.write_spec(0xFF07, v).read_spec(0xFF07) == v | 0xF8,
{
}

/// The Timer interrupt is requested exactly on the cycle the delayed reload
/// happens, and that cycle loads TMA into TIMA (before any increment).
pub proof fn law_timer_reload(t: Timer)
    ensures
        t.step().1 == (t.overflow_cycles == 1),
        t.overflow_cycles == 1 && t.tac & 0x04 == 0 ==> t.step().0.tima == t.tma,
{
}

/// Requesting an interrupt twice is requesting it once.
pub proof fn lemma_request_idempotent(m: MemView, mask: u8)
    requires m.wf(),
    ensures
        requested(requested(m, mask), mask) == requested(m, mask),
        requested(m, mask).wf(),
{
    let f = m.io[0x0F];
    assert((f | mask) | mask == f | mask) by (bit_vector);
    assert(requested(requested(m, mask), mask).io =~= requested(m, mask).io);
}

/// CPU cycles per TIMA increment for TAC clock select `tac & 3`: 4096,
/// 262144, 65536 and 16384 Hz of the 4194304 Hz clock.
pub open spec fn timer_period(tac: u8) -> int {
    let sel = tac % 4;
    if sel == 0 { 1024 } else if sel == 1 { 16 } else if sel == 2 { 64 } else { 256 }
}

/// The selected counter bit falls on the cycle that takes the counter to a
/// multiple of the timer period.
#[verifier::spinoff_prover]
proof fn lemma_timer_edge(x: u16, tac: u8)
    ensures
        (counter_bit(x, tac_bit(tac)) == 1 && counter_bit(((x + 1) % 0x10000) as u16, tac_bit(tac)) == 0)
            == ((x as int + 1) % timer_period(tac) == 0),
{
    let y: u16 = ((x + 1) % 0x10000) as u16;
    assert((x < 0xFFFF && y == x + 1) || (x == 0xFFFF && y == 0));
    assert(
        ((((x >> 9u16) & 1) == 1 && ((y >> 9u16) & 1) == 0) == (y % 1024 == 0))
        && ((((x >> 3u16) & 1) == 1 && ((y >> 3u16) & 1) == 0) == (y % 16 == 0))
        && ((((x >> 5u16) & 1) == 1 && ((y >> 5u16) & 1) == 0) == (y % 64 == 0))
        && ((((x >> 7u16) & 1) == 1 && ((y >> 7u16) & 1) == 0) == (y % 256 == 0))
    ) by (bit_vector)
        requires (x < 0xFFFF && y == x + 1) || (x == 0xFFFF && y == 0);
    assert((y as int) % 1024 == (x as int + 1) % 1024 && (y as int) % 16 == (x as int + 1) % 16
        && (y as int) % 64 == (x as int + 1) % 64 && (y as int) % 256 == (x as int + 1) % 256);
    let sel = tac % 4;
    if sel == 0 {
        assert(tac_bit(tac) == 9 && timer_period(tac) == 1024);
    } else if sel == 1 {
        assert(tac_bit(tac) == 3 && timer_period(tac) == 16);
    } else if sel == 2 {
        assert(tac_bit(tac) == 5 && timer_period(tac) == 64);
    } else {
        assert(tac_bit(tac) == 7 && timer_period(tac) == 256);
    }
}

/// A counter at a multiple of the period reaches the next multiple only
/// after a whole period, without wrapping before it.
proof fn lemma_period_steps(d: u16, tac: u8, k: int)
    requires (d as int) % timer_period(tac) == 0, 0 < k <= timer_period(tac),
    ensures
        d + timer_period(tac) <= 0x10000,
        ((d + k) % timer_period(tac) == 0) == (k == timer_period(tac)),
{
    let sel = tac % 4;
    if sel == 0 {
        assert(d + 1024 <= 0x10000 && ((d + k) % 1024 == 0) == (k == 1024)) by (nonlinear_arith)
            requires d % 1024 == 0, 0 < k <= 1024, d < 0x10000;
    } else if sel == 1 {
        assert(d + 16 <= 0x10000 && ((d + k) % 16 == 0) == (k == 16)) by (nonlinear_arith)
            requires d % 16 == 0, 0 < k <= 16, d < 0x10000;
    } else if sel == 2 {
        assert(d + 64 <= 0x10000 && ((d + k) % 64 == 0) == (k == 64)) by (nonlinear_arith)
            requires d % 64 == 0, 0 < k <= 64, d < 0x10000;
    } else {
        assert(d + 256 <= 0x10000 && ((d + k) % 256 == 0) == (k == 256)) by (nonlinear_arith)
            requires d % 256 == 0, 0 < k <= 256, d < 0x10000;
    }
}

/// Running and with no reload pending, from a counter that is a multiple of
/// the period, the first `k` cycles (`k` below the period) only advance the
/// counter.
proof fn lemma_timer_quiet(t: Timer, k: nat)
    requires
        t.tac & 0x04 != 0,
        t.overflow_cycles == 0,
        (t.div_counter as int) % timer_period(t.tac) == 0,
        k < timer_period(t.tac),
    ensures
        t.steps(k) == (Timer { div_counter: (t.div_counter + k) as u16, ..t }, false),
    decreases k,
{
    if k > 0 {
        lemma_timer_quiet(t, (k - 1) as nat);
        let p = Timer { div_counter: (t.div_counter + k - 1) as u16, ..t };
        lemma_period_steps(t.div_counter, t.tac, k as int);
        lemma_timer_edge(p.div_counter, t.tac);
    }
}

/// The timer runs at the selected rate: enabled, with no reload pending and
/// TIMA below 255, from a counter that is a multiple of the period
/// (1024, 16, 64 or 256 cycles for TAC select 0-3), TIMA stays put for the
/// first period minus one cycles and has gone up by exactly one after a
/// whole period, with no interrupt.
pub proof fn law_timer_rate(t: Timer, k: nat)
    requires
        t.tac & 0x04 != 0,
        t.overflow_cycles == 0,
        t.tima < 255,
        (t.div_counter as int) % timer_period(t.tac) == 0,
        k <= timer_period(t.tac),
    ensures
        t.steps(k).0.tima == t.tima + (if k == timer_period(t.tac) { 1int } else { 0 }),
        !t.steps(k).1,
        t.steps(k).0.div_counter == (t.div_counter + k) % 0x10000,
{
    if k < timer_period(t.tac) {
        lemma_timer_quiet(t, k);
    } else {
        lemma_timer_quiet(t, (k - 1) as nat);
        let p = Timer { div_counter: (t.div_counter + k - 1) as u16, ..t };
        lemma_period_steps(t.div_counter, t.tac, k as int);
        lemma_timer_edge(p.div_counter, t.tac);
    }
}

/// TIMA overflow is delayed: after TIMA wraps (a reload pending for 4
/// cycles) and with no further TIMA clock in the meantime, TIMA reads 0
/// for three cycles with no interrupt, and on the fourth it is loaded
/// from TMA and the Timer interrupt is requested.
pub proof fn law_timer_overflow_delay(t: Timer)
    requires
        t.overflow_cycles == 4, t.tima == 0,
        t.tac & 0x04 == 0 || (t.div_counter as int) % timer_period(t.tac) + 4 < timer_period(t.tac),
    ensures
        forall|k: nat| 1 <= k <= 3 ==> (#[trigger] t.steps(k)).0.tima == 0 && !t.steps(k).1,
        t.steps(4).0.tima == t.tma,
        t.steps(4).1,
        t.steps(4).0.overflow_cycles == 0,
{
    let d = t.div_counter;
    if t.tac & 0x04 != 0 {
        let p = timer_period(t.tac);
        lemma_period_steps((d - (d as int) % p) as u16, t.tac, p);
        lemma_no_edge_soon(d, t.tac);
    }
    let t1 = Timer { overflow_cycles: 3, div_counter: ((d + 1) % 0x10000) as u16, ..t };
    let t2 = Timer { overflow_cycles: 2, div_counter: ((d + 2) % 0x10000) as u16, ..t };
    let t3 = Timer { overflow_cycles: 1, div_counter: ((d + 3) % 0x10000) as u16, ..t };
    let t4 = Timer { overflow_cycles: 0, tima: t.tma, div_counter: ((d + 4) % 0x10000) as u16, ..t };
    if t.tac & 0x04 != 0 {
        lemma_timer_edge(d, t.tac);
        assert((d + 1) % timer_period(t.tac) != 0);
        lemma_timer_edge((d + 1) as u16, t.tac);
        assert((d + 1 + 1) % timer_period(t.tac) != 0);
        lemma_timer_edge((d + 2) as u16, t.tac);
        assert((d + 2 + 1) % timer_period(t.tac) != 0);
        lemma_timer_edge((d + 3) as u16, t.tac);
        assert((d + 3 + 1) % timer_period(t.tac) != 0);
    }
    assert(t.step() == (t1, false));
    assert(t1.step() == (t2, false));
    assert(t2.step() == (t3, false));
    assert(t3.step() == (t4, true));
    assert(t.steps(1) == (t1, false)) by { reveal_with_fuel(Timer::steps, 2); }
    assert(t.steps(2) == (t2, false)) by { reveal_with_fuel(Timer::steps, 2); }
    assert(t.steps(3) == (t3, false)) by { reveal_with_fuel(Timer::steps, 2); }
    assert(t.steps(4) == (t4, true)) by { reveal_with_fuel(Timer::steps, 2); }
}

/// Away from a period boundary, the next four counter values are not
/// multiples of the period and do not wrap.
proof fn lemma_no_edge_soon(d: u16, tac: u8)
    requires (d as int) % timer_period(tac) + 4 < timer_period(tac),
    ensures
        d + 4 < 0x10000,
        forall|i: int| 1 <= i <= 4 ==> (#[trigger] (d + i)) % timer_period(tac) != 0,
{
    let sel = tac % 4;
    if sel == 0 {
        assert(d + 4 < 0x10000 && forall|i: int| 1 <= i <= 4 ==> (#[trigger] (d + i)) % 1024 != 0) by (nonlinear_arith)
            requires d % 1024 + 4 < 1024, d < 0x10000;
    } else if sel == 1 {
        assert(d + 4 < 0x10000 && forall|i: int| 1 <= i <= 4 ==> (#[trigger] (d + i)) % 16 != 0) by (nonlinear_arith)
            requires d % 16 + 4 < 16, d < 0x10000;
    } else if sel == 2 {
        assert(d + 4 < 0x10000 && forall|i: int| 1 <= i <= 4 ==> (#[trigger] (d + i)) % 64 != 0) by (nonlinear_arith)
            requires d % 64 + 4 < 64, d < 0x10000;
    } else {
        assert(d + 4 < 0x10000 && forall|i: int| 1 <= i <= 4 ==> (#[trigger] (d + i)) % 256 != 0) by (nonlinear_arith)
            requires d % 256 + 4 < 256, d < 0x10000;
    }
}

} // verus!
