//! Rate limiting for diagnostic messages.
//!
//! A [`RateLimiter`] counts how often a log point has been reached and lets
//! the first `limit` hits through (optionally also every `interval`-th hit).
//! The messages themselves are printed by the host.

use vstd::prelude::*;

verus! {

/// Categories of diagnostic messages.
#[derive(Debug, Clone, Copy, PartialEq, Eq)]
pub enum LogCategory {
    Camera,
    Memory,
    Cpu,
    Ppu,
    General,
}

impl LogCategory {
    /// Message prefix of the category.
    pub fn prefix(self) -> (r: &'static str)
        ensures
            r@ == match self {
                LogCategory::Camera => "[Camera]"@,
                LogCategory::Memory => "[Memory]"@,
                LogCategory::Cpu => "[CPU]"@,
                LogCategory::Ppu => "[PPU]"@,
                LogCategory::General => "[EMU]"@,
            },
    {
        match self {
            LogCategory::Camera => "[Camera]",
            LogCategory::Memory => "[Memory]",
            LogCategory::Cpu => "[CPU]",
            LogCategory::Ppu => "[PPU]",
            LogCategory::General => "[EMU]",
        }
    }
}

/// Counter of how many times a log point has been hit.
pub struct RateLimiter {
    pub counter: u32,
    pub limit: u32,
}

/// Whether `count` is a multiple of `interval` (only 0 is a multiple of 0).
pub open spec fn is_multiple(count: u32, interval: u32) -> bool {
    if interval == 0 { count == 0 } else { count % interval == 0 }
}

impl RateLimiter {
    /// A limiter that lets `limit` messages through.
    pub fn new(limit: u32) -> (r: Self)
        ensures r.counter == 0, r.limit == limit,
    {
        RateLimiter { counter: 0, limit }
    }

    /// Count one hit; true while fewer than `limit` hits came before it.
    /// The counter wraps at 2^32.
    pub fn should_log(&mut self) -> (r: bool)
        ensures
            r == (old(self).counter < old(self).limit),
            final(self).counter == vstd::wrapping::u32_specs::wrapping_add(old(self).counter, 1),
            final(self).limit == old(self).limit,
    {
        let count = self.counter;
        self.counter = self.counter.wrapping_add(1);
        count < self.limit
    }

    /// Count one hit; true while under the limit or on every `interval`-th hit.
    pub fn should_log_interval(&mut self, interval: u32) -> (r: bool)
        ensures
            r == (old(self).counter < old(self).limit || is_multiple(old(self).counter, interval)),
            final(self).counter == vstd::wrapping::u32_specs::wrapping_add(old(self).counter, 1),
            final(self).limit == old(self).limit,
    {
        let count = self.counter;
        self.counter = self.counter.wrapping_add(1);
        count < self.limit || (if interval == 0 { count == 0 } else { count % interval == 0 })
    }

    /// The number of hits so far (modulo 2^32).
    pub fn count(&self) -> (r: u32)
        ensures r == self.counter,
    {
        self.counter
    }
}

/// Decides which diagnostic messages go out; the host prints them.
pub struct Logger;

impl Logger {
    /// Whether a rate-limited message is let through (the hit is counted).
    pub fn info_limited(category: LogCategory, limiter: &mut RateLimiter, msg: &str) -> (r: bool)
        ensures
            r == (old(limiter).counter < old(limiter).limit),
            final(limiter).counter == vstd::wrapping::u32_specs::wrapping_add(old(limiter).counter, 1),
            final(limiter).limit == old(limiter).limit,
    {
        limiter.should_log()
    }

    /// Whether a message limited to the first hits and then every
    /// `interval`-th hit is let through (the hit is counted).
    pub fn info_interval(category: LogCategory, limiter: &mut RateLimiter, interval: u32, msg: &str) -> (r: bool)
        ensures
            r == (old(limiter).counter < old(limiter).limit || is_multiple(old(limiter).counter, interval)),
            final(limiter).counter == vstd::wrapping::u32_specs::wrapping_add(old(limiter).counter, 1),
            final(limiter).limit == old(limiter).limit,
    {
        limiter.should_log_interval(interval)
    }
}

} // verus!
