//! Game Boy / Game Boy Color emulator core.

pub mod bits;
pub mod apu;
pub mod joypad;
pub mod snapshot;
pub mod log;
pub mod memory;
pub mod interrupts;
pub mod timer;
pub mod bus;
pub mod cpu;
pub mod ppu;
pub mod frame;
pub mod gameboy;
