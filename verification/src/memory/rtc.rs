//! MBC3 real-time clock.
//!
//! Seconds, minutes, hours and a 9-bit day counter, readable through RAM
//! bank values 0x08-0x0C. Writing 0x00 then 0x01 to 0x6000-0x7FFF latches a
//! frozen copy for reads. The host supplies the wall-clock time (Unix
//! seconds); register writes restart elapsed-time tracking at the latest
//! reading.

use vstd::prelude::*;
use crate::bits::lemma_u8_fields;

verus! {

pub struct Rtc {
    pub s: u8,
    pub m: u8,
    pub h: u8,
    /// Day counter, low 8 bits.
    pub dl: u8,
    /// Bit 0: day counter bit 8; bit 6: halt; bit 7: day carry.
    pub dh: u8,
    pub latched_s: u8,
    pub latched_m: u8,
    pub latched_h: u8,
    pub latched_dl: u8,
    pub latched_dh: u8,
    /// A 0x00 write was seen; a following 0x01 latches.
    pub latch_ready: bool,
    /// Wall-clock second at which the live registers were last synced.
    pub base_timestamp: u64,
    /// The latest wall-clock second supplied by the host.
    pub clock: u64,
}

impl Rtc {
    /// The day counter (0-511).
    pub open spec fn day(self) -> int {
        (self.dh % 2) * 256 + self.dl
    }

    /// The clock's reading in seconds.
    pub open spec fn total_seconds(self) -> int {
        self.day() * 86400 + self.h * 3600 + self.m * 60 + self.s
    }

    /// Seconds elapsed since the last sync (0 if the clock went backwards).
    pub open spec fn elapsed(self, now: u64) -> int {
        if now > self.base_timestamp { now - self.base_timestamp } else { 0 }
    }

    /// The registers after the running clock advanced by `elapsed > 0` seconds:
    /// the new total is split into seconds, minutes, hours and days; more than
    /// 511 days sets the carry bit and wraps the day counter to 0.
    pub open spec fn advanced(self, elapsed: int, now: u64) -> Self {
        let total = self.total_seconds() + elapsed;
        let days = (total / 86400) as u32;
        let s1 = Rtc {
            s: (total % 60) as u8,
            m: ((total / 60) % 60) as u8,
            h: ((total / 3600) % 24) as u8,
            base_timestamp: now,
            ..self
        };
        if days > 511 {
            Rtc { dh: (self.dh & 0x40) | 0x80, dl: 0, ..s1 }
        } else {
            Rtc { dl: (days % 256) as u8, dh: (self.dh & 0xC0) | ((days / 256) as u8), ..s1 }
        }
    }

    pub fn new(now: u64) -> (r: Self)
        ensures
            r == (Rtc {
                s: 0, m: 0, h: 0, dl: 0, dh: 0,
                latched_s: 0, latched_m: 0, latched_h: 0, latched_dl: 0, latched_dh: 0,
                latch_ready: false, base_timestamp: now, clock: now,
            }),
    {
        Rtc {
            s: 0,
            m: 0,
            h: 0,
            dl: 0,
            dh: 0,
            latched_s: 0,
            latched_m: 0,
            latched_h: 0,
            latched_dl: 0,
            latched_dh: 0,
            latch_ready: false,
            base_timestamp: now,
            clock: now,
        }
    }

    /// Record wall-clock second `now` and advance the live registers to it.
    ///
    /// While halted (DH bit 6) only the sync time moves; with no elapsed
    /// second nothing else changes.
    /// The clock after advancing to wall-clock second `now`: a halted clock
    /// (DH bit 6) only moves its base; otherwise the seconds elapsed since the
    /// base are added to the counters.
    pub open spec fn ticked(self, now: u64) -> Rtc {
        let o = Rtc { clock: now, ..self };
        if o.dh & 0x40 != 0 {
            Rtc { base_timestamp: now, ..o }
        } else if o.elapsed(now) == 0 {
            o
        } else {
            o.advanced(o.elapsed(now), now)
        }
    }

    pub fn tick(&mut self, now: u64)
        requires
            old(self).total_seconds() + old(self).elapsed(now) <= u64::MAX,
        ensures
            *final(self) == old(self).ticked(now),
    {
        self.clock = now;
        if self.dh & 0x40 != 0 {
            self.base_timestamp = now;
            return;
        }
        let elapsed = now.saturating_sub(self.base_timestamp);
        if elapsed == 0 {
            return;
        }
        self.base_timestamp = now;
        proof { lemma_u8_fields(self.dh); }
        let day: u64 = (self.dh & 0x01) as u64 * 256 + self.dl as u64;
        let mut total_secs: u64 = day * 86400 + self.h as u64 * 3600 + self.m as u64 * 60 + self.s as u64;
        total_secs = total_secs + elapsed;
        let ghost total = total_secs as int;
        self.s = (total_secs % 60) as u8;
        total_secs = total_secs / 60;
        self.m = (total_secs % 60) as u8;
        total_secs = total_secs / 60;
        self.h = (total_secs % 24) as u8;
        total_secs = total_secs / 24;
        proof {
            vstd::arithmetic::div_mod::lemma_div_denominator(total, 60, 60);
            vstd::arithmetic::div_mod::lemma_div_denominator(total, 3600, 24);
        }
        let days = total_secs as u32;
        if days > 511 {
            self.dh = (self.dh & 0x40) | 0x80;
            self.dl = 0;
        } else {
            self.dl = (days % 256) as u8;
            self.dh = (self.dh & 0xC0) | ((days / 256) as u8);
        }
    }

    /// Latch sequence: 0x00 arms, a following 0x01 copies the live registers
    /// into the latched ones; any other write disarms.
    pub open spec fn latch_written(self, value: u8) -> Rtc {
        if value == 0x00 {
            Rtc { latch_ready: true, ..self }
        } else if value == 0x01 && self.latch_ready {
            Rtc {
                latch_ready: false,
                latched_s: self.s,
                latched_m: self.m,
                latched_h: self.h,
                latched_dl: self.dl,
                latched_dh: self.dh,
                ..self
            }
        } else {
            Rtc { latch_ready: false, ..self }
        }
    }

    /// The live register selected by `reg` (0x08-0x0C), else 0xFF.
    pub open spec fn live_spec(self, reg: u8) -> u8 {
        if reg == 0x08 { self.s }
        else if reg == 0x09 { self.m }
        else if reg == 0x0A { self.h }
        else if reg == 0x0B { self.dl }
        else if reg == 0x0C { self.dh }
        else { 0xFF }
    }

    /// Write to the latch register (see [`Rtc::latch_written`]).
    pub fn write_latch(&mut self, value: u8)
        ensures
            *final(self) == old(self).latch_written(value),
    {
        if value == 0x00 {
            self.latch_ready = true;
        } else if value == 0x01 && self.latch_ready {
            self.latch_ready = false;
            self.latched_s = self.s;
            self.latched_m = self.m;
            self.latched_h = self.h;
            self.latched_dl = self.dl;
            self.latched_dh = self.dh;
        } else {
            self.latch_ready = false;
        }
    }

    /// The latched register selected by `reg` (0x08-0x0C), else 0xFF.
    pub open spec fn read_spec(self, reg: u8) -> u8 {
        if reg == 0x08 { self.latched_s }
        else if reg == 0x09 { self.latched_m }
        else if reg == 0x0A { self.latched_h }
        else if reg == 0x0B { self.latched_dl }
        else if reg == 0x0C { self.latched_dh }
        else { 0xFF }
    }

    pub fn read_register(&self, reg: u8) -> (r: u8)
        ensures r == self.read_spec(reg),
    {
        match reg {
            0x08 => self.latched_s,
            0x09 => self.latched_m,
            0x0A => self.latched_h,
            0x0B => self.latched_dl,
            0x0C => self.latched_dh,
            _ => 0xFF,
        }
    }

    /// Record wall-clock second `now` as the current time without advancing
    /// the registers: a register written after this restarts its tracking
    /// at `now`.
    pub fn set_clock(&mut self, now: u64)
        ensures *final(self) == (Rtc { clock: now, ..*old(self) }),
    {
        self.clock = now;
    }

    /// Write a live register (seconds and minutes keep 6 bits, hours 5) and
    /// restart elapsed-time tracking at the latest host clock reading.
    pub open spec fn write_spec(self, reg: u8, value: u8) -> Self {
        let s = Rtc { base_timestamp: self.clock, ..self };
        if reg == 0x08 { Rtc { s: value & 0x3F, ..s } }
        else if reg == 0x09 { Rtc { m: value & 0x3F, ..s } }
        else if reg == 0x0A { Rtc { h: value & 0x1F, ..s } }
        else if reg == 0x0B { Rtc { dl: value, ..s } }
        else if reg == 0x0C { Rtc { dh: value, ..s } }
        else { s }
    }

    pub fn write_register(&mut self, reg: u8, value: u8)
        ensures *final(self) == old(self).write_spec(reg, value),
    {
        match reg {
            0x08 => self.s = value & 0x3F,
            0x09 => self.m = value & 0x3F,
            0x0A => self.h = value & 0x1F,
            0x0B => self.dl = value,
            0x0C => self.dh = value,
            _ => {},
        }
        self.base_timestamp = self.clock;
    }

    /// Whether RAM bank value `bank` selects an RTC register.
    pub fn is_rtc_register(bank: u8) -> (r: bool)
        ensures r == (0x08 <= bank <= 0x0C),
    {
        0x08 <= bank && bank <= 0x0C
    }
}

/// A halted clock (DH bit 6) keeps its time; only its reference moves.
pub proof fn law_rtc_halted_keeps_time(r: Rtc, now: u64)
    requires r.dh & 0x40 != 0,
    ensures
        r.ticked(now).s == r.s && r.ticked(now).m == r.m && r.ticked(now).h == r.h,
        r.ticked(now).dl == r.dl && r.ticked(now).dh == r.dh,
        r.ticked(now).base_timestamp == now,
{
}

/// A running clock with no time elapsed keeps its time.
pub proof fn law_rtc_no_elapsed_time(r: Rtc, now: u64)
    requires r.dh & 0x40 == 0, now <= r.base_timestamp,
    ensures r.ticked(now) == (Rtc { clock: now, ..r }),
{
}

/// Writing 0x00 then 0x01 to the latch makes the registers read the live
/// clock as it was at that moment, and they keep reading it while the clock
/// runs on.
pub proof fn law_latch_freezes(r: Rtc, now: u64, reg: u8)
    ensures
        r.latch_written(0x00).latch_written(0x01).read_spec(reg) == r.live_spec(reg),
        r.latch_written(0x00).latch_written(0x01).ticked(now).read_spec(reg)
            == r.latch_written(0x00).latch_written(0x01).read_spec(reg),
{
}

/// A 0x01 written without a preceding 0x00 latches nothing.
pub proof fn law_latch_needs_arming(r: Rtc, reg: u8)
    requires !r.latch_ready,
    ensures r.latch_written(0x01).read_spec(reg) == r.read_spec(reg),
{
}

/// The split of a second count into seconds, minutes, hours and days.
proof fn lemma_time_split(total: int)
    requires total >= 0,
    ensures
        (total / 86400) * 86400 + ((total / 3600) % 24) * 3600 + ((total / 60) % 60) * 60 + total % 60 == total,
{
    let a = total / 60;
    let b = a / 60;
    vstd::arithmetic::div_mod::lemma_div_denominator(total, 60, 60);
    vstd::arithmetic::div_mod::lemma_div_denominator(total, 3600, 24);
    vstd::arithmetic::div_mod::lemma_fundamental_div_mod(total, 60);
    vstd::arithmetic::div_mod::lemma_fundamental_div_mod(a, 60);
    vstd::arithmetic::div_mod::lemma_fundamental_div_mod(b, 24);
    assert(total == 60 * a + total % 60);
    assert(a == 60 * b + a % 60);
    assert(b == 24 * (b / 24) + b % 24);
    assert(b / 24 == total / 86400);
    assert(b == total / 3600);
}

/// A running clock counts the seconds that passed: with valid registers
/// (seconds and minutes below 60, hours below 24), advancing to a later
/// wall-clock second adds exactly the elapsed seconds to its reading and
/// leaves valid registers with the halt bit and carry kept; once the day
/// counter would pass 511, the carry bit is set and the day counter wraps
/// to 0 (for readings below 2^32 days).
pub proof fn law_rtc_counts_elapsed(r: Rtc, now: u64)
    requires r.dh & 0x40 == 0, now > r.base_timestamp, r.s < 60, r.m < 60, r.h < 24,
    ensures ({
        let t = r.ticked(now);
        let e = now - r.base_timestamp;
        &&& t.base_timestamp == now
        &&& r.total_seconds() + e < 512 * 86400 ==> {
            &&& t.total_seconds() == r.total_seconds() + e
            &&& t.s < 60 && t.m < 60 && t.h < 24
            &&& t.dh & 0xC0 == r.dh & 0xC0
        }
        &&& 512 * 86400 <= r.total_seconds() + e < 0x1_0000_0000 * 86400 ==> t.dh & 0x80 != 0 && t.dl == 0 && t.dh % 2 == 0
    }),
{
    let total = r.total_seconds() + (now - r.base_timestamp);
    lemma_time_split(total);
    let days = total / 86400;
    let dh = r.dh;
    let q: u8 = if days > 511 { 0 } else { (days / 256) as u8 };
    assert(
        (q <= 1 ==> ((dh & 0xC0) | q) % 2 == q && ((dh & 0xC0) | q) & 0xC0 == dh & 0xC0)
        && ((dh & 0x40) | 0x80) & 0x80 != 0 && ((dh & 0x40) | 0x80) % 2 == 0
    ) by (bit_vector);
    vstd::arithmetic::div_mod::lemma_fundamental_div_mod(days, 256);
    let t = r.ticked(now);
    if total < 512 * 86400 {
        assert(days <= 511);
        assert(t.dl == days % 256);
        assert(t.dh == (dh & 0xC0) | q);
        assert(t.day() == days);
    } else if total < 0x1_0000_0000 * 86400 {
        assert(days > 511 && days < 0x1_0000_0000);
    }
}

} // verus!
