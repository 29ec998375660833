use gb_emu::bus::MemoryBus;
use gb_emu::frame::DoubleBuffer;
use gb_emu::interrupts::{Interrupt, InterruptController};
use gb_emu::joypad::{Button, Joypad};
use gb_emu::memory::Memory;
use gb_emu::ppu::{Ppu, PpuMode};
use gb_emu::timer::Timer;

#[test]
fn test_div_increment() {
    let mut timer = Timer::new();
    let mut mem = Memory::new();
    let ic = InterruptController::new();
    let initial_div = timer.read(0xFF04);
    timer.tick(256, &mut mem, &ic);
    let new_div = timer.read(0xFF04);
    assert_eq!(new_div, initial_div.wrapping_add(1));
}

#[test]
fn timer_test_div_reset() {
    let mut timer = Timer::new();
    timer.div_counter = 0x1234;
    timer.write(0xFF04, 0xFF);
    assert_eq!(timer.div_counter, 0);
}

#[test]
fn test_timer_disabled() {
    let mut timer = Timer::new();
    let mut mem = Memory::new();
    let ic = InterruptController::new();
    timer.tac = 0x00;
    timer.tima = 0;
    timer.tick(1000, &mut mem, &ic);
    assert_eq!(timer.tima, 0);
}

#[test]
fn timer_overflow_reloads_and_interrupts() {
    let mut timer = Timer::new();
    let mut mem = Memory::new();
    let ic = InterruptController::new();
    mem.write_io_direct(0x0F, 0x00);
    timer.div_counter = 0;
    timer.tac = 0x05;
    timer.tima = 0xFF;
    timer.tma = 0x40;
    timer.tick(16, &mut mem, &ic);
    assert_eq!(timer.tima, 0);
    assert_eq!(timer.overflow_cycles, 4);
    timer.tick(4, &mut mem, &ic);
    assert_eq!(timer.tima, 0x40);
    assert_eq!(mem.read_io_direct(0x0F) & 0x04, 0x04);
}

#[test]
fn test_interrupt_requests() {
    let ic = InterruptController::new();
    let mut mem = Memory::new();
    mem.write_io_direct(0x0F, 0x00);
    ic.request(Interrupt::VBlank, &mut mem);
    assert_eq!(mem.read_io_direct(0x0F) & 0x01, 0x01);
    ic.request(Interrupt::LcdStat, &mut mem);
    assert_eq!(mem.read_io_direct(0x0F) & 0x02, 0x02);
    ic.request(Interrupt::Timer, &mut mem);
    assert_eq!(mem.read_io_direct(0x0F) & 0x04, 0x04);
    ic.request(Interrupt::Serial, &mut mem);
    assert_eq!(mem.read_io_direct(0x0F) & 0x08, 0x08);
    ic.request(Interrupt::Joypad, &mut mem);
    assert_eq!(mem.read_io_direct(0x0F) & 0x10, 0x10);
}

#[test]
fn test_interrupt_clear() {
    let ic = InterruptController::new();
    let mut mem = Memory::new();
    mem.write_io_direct(0x0F, 0x1F);
    ic.clear(Interrupt::VBlank, &mut mem);
    assert_eq!(mem.read_io_direct(0x0F), 0x1E);
    ic.clear(Interrupt::Timer, &mut mem);
    assert_eq!(mem.read_io_direct(0x0F), 0x1A);
}

#[test]
fn test_no_buttons_pressed() {
    let mut joypad = Joypad::new();
    joypad.select_buttons = true;
    joypad.select_dpad = false;
    let result = joypad.read();
    assert_eq!(result & 0x0F, 0x0F);
}

#[test]
fn test_a_button_pressed() {
    let mut joypad = Joypad::new();
    joypad.select_buttons = true;
    joypad.select_dpad = false;
    joypad.a = true;
    let result = joypad.read();
    assert_eq!(result & 0x01, 0x00);
}

#[test]
fn test_dpad_pressed() {
    let mut joypad = Joypad::new();
    joypad.select_buttons = false;
    joypad.select_dpad = true;
    joypad.up = true;
    joypad.right = true;
    let result = joypad.read();
    assert_eq!(result & 0x01, 0x00);
    assert_eq!(result & 0x04, 0x00);
}

#[test]
fn joypad_set_button_and_select() {
    let mut joypad = Joypad::new();
    joypad.write(0x10);
    joypad.set_button(Button::Start, true);
    assert_eq!(joypad.read() & 0x08, 0x00);
    joypad.set_button(Button::Start, false);
    assert_eq!(joypad.read() & 0x08, 0x08);
    joypad.write(0x30);
    joypad.set_button(Button::A, true);
    assert_eq!(joypad.read() & 0x0F, 0x0F);
    assert_eq!(Button::from_u8(7).map(|b| b.to_u8()), Some(7));
    assert!(Button::from_u8(8).is_none());
}

#[test]
fn ppu_test_ppu_initial_state() {
    let ppu = Ppu::new();
    assert_eq!(ppu.mode, PpuMode::OamScan);
    assert_eq!(ppu.line, 0);
    assert_eq!(ppu.cycles, 0);
}

#[test]
fn ppu_test_buffer_size() {
    let ppu = Ppu::new();
    assert_eq!(ppu.get_buffer().len(), 160 * 144 * 4);
}

#[test]
fn mod_test_ppu_initial_state() {
    let ppu = Ppu::new();
    assert_eq!(ppu.mode, PpuMode::OamScan);
    assert_eq!(ppu.line, 0);
    assert_eq!(ppu.cycles, 0);
}

#[test]
fn mod_test_buffer_size() {
    let ppu = Ppu::new();
    assert_eq!(ppu.get_buffer().len(), 160 * 144 * 4);
}

#[test]
fn bus_routes_sound_registers_to_apu() {
    let mut bus = MemoryBus::new(Memory::new(), Timer::new(), Joypad::new());
    bus.write(0xFF24, 0x55);
    assert_eq!(bus.read(0xFF24), 0x55);
    assert_eq!(bus.apu.nr50, 0x55);
    assert_eq!(bus.read_io_direct(0x24), 0x00);
    bus.write(0xFF32, 0x9A);
    assert_eq!(bus.read(0xFF32), 0x9A);
    // Outside 0xFF10-0xFF3F the memory answers.
    bus.write(0xFF42, 0x12);
    assert_eq!(bus.read_io_direct(0x42), 0x12);
}

#[test]
fn double_buffer_swap_exchanges_and_restores() {
    let mut b: DoubleBuffer<4> = DoubleBuffer::new();
    assert_eq!(b.front(), &[0, 0, 0, 0]);
    b.fill_back(&[1, 2, 3, 4]);
    assert_eq!(b.front(), &[0, 0, 0, 0]);
    b.swap();
    assert_eq!(b.front(), &[1, 2, 3, 4]);
    b.back_mut()[0] = 9;
    assert_eq!(b.front(), &[1, 2, 3, 4]);
    b.swap();
    assert_eq!(b.front(), &[9, 0, 0, 0]);
    b.swap();
    assert_eq!(b.front(), &[1, 2, 3, 4]);
}

#[test]
fn bus_memory_mut_writes_memory() {
    let mut bus = MemoryBus::new(Memory::new(), Timer::new(), Joypad::new());
    bus.memory_mut().write(0xC000, 0x5A);
    assert_eq!(bus.read(0xC000), 0x5A);
}

#[test]
fn ppu_lcd_off_resets_line_and_keeps_picture() {
    let mut ppu = Ppu::new();
    let mut mem = Memory::new();
    let ic = InterruptController::new();
    // LCD on: run into line 1.
    mem.write_io_direct(0x40, 0x91);
    for _ in 0..10 {
        ppu.tick(100, &mut mem, &ic);
    }
    assert!(ppu.get_debug_state().line >= 1);
    let before = ppu.get_buffer().to_vec();
    mem.write_io_direct(0x40, 0x11);
    ppu.tick(4, &mut mem, &ic);
    assert_eq!(ppu.get_debug_state().line, 0);
    assert_eq!(ppu.get_debug_state().mode, 0);
    assert_eq!(mem.read_io_direct(0x44), 0);
    assert_eq!(ppu.get_buffer(), &before[..]);
}
