use gb_emu::cpu::alu::{alu, daa};
use gb_emu::bus::MemoryBus;
use gb_emu::cpu::{Cpu, FLAG_C, FLAG_H, FLAG_N, FLAG_Z};
use gb_emu::interrupts::InterruptController;
use gb_emu::joypad::Joypad;
use gb_emu::memory::Memory;
use gb_emu::timer::Timer;

struct TestContext {
    cpu: Cpu,
    bus: MemoryBus,
    ic: InterruptController,
}

impl TestContext {
    fn step(&mut self) -> u32 {
        self.cpu.step(&mut self.bus, &mut self.ic)
    }
}

fn setup_with_rom(rom_data: &[u8]) -> TestContext {
    let mut mem = Memory::new();
    let mut rom = vec![0u8; 0x8000];
    for (i, &byte) in rom_data.iter().enumerate() {
        if 0x100 + i < rom.len() {
            rom[0x100 + i] = byte;
        }
    }
    mem.load_rom(&rom, false, 0).unwrap();
    TestContext {
        cpu: Cpu::new(),
        bus: MemoryBus::new(mem, Timer::new(), Joypad::new()),
        ic: InterruptController::new(),
    }
}

#[test]
fn cpu_test_initial_state() {
    let cpu = Cpu::new();
    assert_eq!(cpu.pc, 0x0100);
    assert_eq!(cpu.sp, 0xFFFE);
    assert_eq!(cpu.a, 0x01);
    assert!(!cpu.halted);
    assert!(cpu.ime);
}

#[test]
fn cpu_test_nop() {
    let mut ctx = setup_with_rom(&[0x00]);
    let cycles = ctx.step();
    assert_eq!(cycles, 4);
    assert_eq!(ctx.cpu.pc, 0x0101);
}

#[test]
fn cpu_test_ld_immediate_8bit() {
    let mut ctx = setup_with_rom(&[0x3E, 0x42, 0x06, 0x55]);
    ctx.step();
    assert_eq!(ctx.cpu.a, 0x42);
    ctx.step();
    assert_eq!(ctx.cpu.b, 0x55);
}

#[test]
fn cpu_test_ld_immediate_16bit() {
    let mut ctx = setup_with_rom(&[0x21, 0x34, 0x12]);
    ctx.step();
    assert_eq!(ctx.cpu.hl(), 0x1234);
}

#[test]
fn cpu_test_inc_dec_8bit() {
    let mut ctx = setup_with_rom(&[0x3C, 0x3D]);
    ctx.cpu.a = 0x0F;
    ctx.step();
    assert_eq!(ctx.cpu.a, 0x10);
    assert!(ctx.cpu.flag(FLAG_H));
    ctx.step();
    assert_eq!(ctx.cpu.a, 0x0F);
}

#[test]
fn cpu_test_inc_zero_flag() {
    let mut ctx = setup_with_rom(&[0x3C]);
    ctx.cpu.a = 0xFF;
    ctx.step();
    assert_eq!(ctx.cpu.a, 0x00);
    assert!(ctx.cpu.flag(FLAG_Z));
}

#[test]
fn cpu_test_add() {
    let mut ctx = setup_with_rom(&[0x80]);
    ctx.cpu.a = 0x3A;
    ctx.cpu.b = 0xC6;
    ctx.step();
    assert_eq!(ctx.cpu.a, 0x00);
    assert!(ctx.cpu.flag(FLAG_Z));
    assert!(ctx.cpu.flag(FLAG_H));
    assert!(ctx.cpu.flag(FLAG_C));
}

#[test]
fn cpu_test_sub() {
    let mut ctx = setup_with_rom(&[0x90]);
    ctx.cpu.a = 0x3E;
    ctx.cpu.b = 0x3E;
    ctx.step();
    assert_eq!(ctx.cpu.a, 0x00);
    assert!(ctx.cpu.flag(FLAG_Z));
    assert!(ctx.cpu.flag(FLAG_N));
}

#[test]
fn cpu_test_and() {
    let mut ctx = setup_with_rom(&[0xA0]);
    ctx.cpu.a = 0x5A;
    ctx.cpu.b = 0x3F;
    ctx.step();
    assert_eq!(ctx.cpu.a, 0x1A);
    assert!(ctx.cpu.flag(FLAG_H));
    assert!(!ctx.cpu.flag(FLAG_C));
}

#[test]
fn cpu_test_xor() {
    let mut ctx = setup_with_rom(&[0xAF]);
    ctx.cpu.a = 0xFF;
    ctx.step();
    assert_eq!(ctx.cpu.a, 0x00);
    assert!(ctx.cpu.flag(FLAG_Z));
}

#[test]
fn cpu_test_jp() {
    let mut ctx = setup_with_rom(&[0xC3, 0x00, 0x80]);
    ctx.step();
    assert_eq!(ctx.cpu.pc, 0x8000);
}

#[test]
fn cpu_test_jr() {
    let mut ctx = setup_with_rom(&[0x18, 0x05]);
    ctx.step();
    assert_eq!(ctx.cpu.pc, 0x0107);
}

#[test]
fn cpu_test_call_ret() {
    let mut rom_data = vec![0u8; 0x200];
    rom_data[0] = 0xCD;
    rom_data[1] = 0x00;
    rom_data[2] = 0x02;
    rom_data[0x100] = 0xC9;
    let mut ctx = setup_with_rom(&rom_data);
    ctx.cpu.sp = 0xFFFE;
    ctx.step();
    assert_eq!(ctx.cpu.pc, 0x0200);
    assert_eq!(ctx.cpu.sp, 0xFFFC);
    ctx.step();
    assert_eq!(ctx.cpu.pc, 0x0103);
    assert_eq!(ctx.cpu.sp, 0xFFFE);
}

#[test]
fn cpu_test_push_pop() {
    let mut ctx = setup_with_rom(&[0xC5, 0xC1]);
    ctx.cpu.sp = 0xFFFE;
    ctx.cpu.set_bc(0x1234);
    ctx.step();
    assert_eq!(ctx.cpu.sp, 0xFFFC);
    ctx.cpu.set_bc(0x0000);
    ctx.step();
    assert_eq!(ctx.cpu.bc(), 0x1234);
    assert_eq!(ctx.cpu.sp, 0xFFFE);
}

#[test]
fn cpu_test_rlca() {
    let mut ctx = setup_with_rom(&[0x07]);
    ctx.cpu.a = 0x85;
    ctx.step();
    assert_eq!(ctx.cpu.a, 0x0B);
    assert!(ctx.cpu.flag(FLAG_C));
}

#[test]
fn cpu_test_rrca() {
    let mut ctx = setup_with_rom(&[0x0F]);
    ctx.cpu.a = 0x01;
    ctx.step();
    assert_eq!(ctx.cpu.a, 0x80);
    assert!(ctx.cpu.flag(FLAG_C));
}

#[test]
fn cpu_test_cb_swap() {
    let mut ctx = setup_with_rom(&[0xCB, 0x37]);
    ctx.cpu.a = 0xF0;
    ctx.step();
    assert_eq!(ctx.cpu.a, 0x0F);
}

#[test]
fn cpu_test_cb_bit() {
    let mut ctx = setup_with_rom(&[0xCB, 0x7F, 0xCB, 0x47]);
    ctx.cpu.a = 0x80;
    ctx.step();
    assert!(!ctx.cpu.flag(FLAG_Z));
    ctx.step();
    assert!(ctx.cpu.flag(FLAG_Z));
}

#[test]
fn cpu_test_halt() {
    let mut ctx = setup_with_rom(&[0x76]);
    ctx.step();
    assert!(ctx.cpu.halted);
}

#[test]
fn cpu_test_di_ei() {
    let mut ctx = setup_with_rom(&[0xF3, 0xFB, 0x00]);
    ctx.step();
    assert!(!ctx.cpu.ime);
    ctx.step();
    assert!(!ctx.cpu.ime);
    ctx.step();
    assert!(ctx.cpu.ime);
}

#[test]
fn cpu_test_ld_hl_n() {
    let mut ctx = setup_with_rom(&[0x21, 0x00, 0xC0, 0x36, 0x42]);
    ctx.step();
    assert_eq!(ctx.cpu.hl(), 0xC000);
    ctx.step();
    assert_eq!(ctx.bus.read(0xC000), 0x42);
}

#[test]
fn mod_test_initial_state() {
    let cpu = Cpu::new();
    assert_eq!(cpu.pc, 0x0100);
    assert_eq!(cpu.sp, 0xFFFE);
    assert_eq!(cpu.a, 0x01);
    assert!(!cpu.halted);
    assert!(cpu.ime);
}

#[test]
fn mod_test_nop() {
    let mut ctx = setup_with_rom(&[0x00]);
    let cycles = ctx.step();
    assert_eq!(cycles, 4);
    assert_eq!(ctx.cpu.pc, 0x0101);
}

#[test]
fn mod_test_ld_immediate_8bit() {
    let mut ctx = setup_with_rom(&[0x3E, 0x42, 0x06, 0x55]);
    ctx.step();
    assert_eq!(ctx.cpu.a, 0x42);
    ctx.step();
    assert_eq!(ctx.cpu.b, 0x55);
}

#[test]
fn mod_test_ld_immediate_16bit() {
    let mut ctx = setup_with_rom(&[0x21, 0x34, 0x12]);
    ctx.step();
    assert_eq!(ctx.cpu.hl(), 0x1234);
}

#[test]
fn mod_test_inc_dec_8bit() {
    let mut ctx = setup_with_rom(&[0x3C, 0x3D]);
    ctx.cpu.a = 0x0F;
    ctx.step();
    assert_eq!(ctx.cpu.a, 0x10);
    assert!(ctx.cpu.flag(FLAG_H));
    ctx.step();
    assert_eq!(ctx.cpu.a, 0x0F);
}

#[test]
fn mod_test_inc_zero_flag() {
    let mut ctx = setup_with_rom(&[0x3C]);
    ctx.cpu.a = 0xFF;
    ctx.step();
    assert_eq!(ctx.cpu.a, 0x00);
    assert!(ctx.cpu.flag(FLAG_Z));
}

#[test]
fn mod_test_add() {
    let mut ctx = setup_with_rom(&[0x80]);
    ctx.cpu.a = 0x3A;
    ctx.cpu.b = 0xC6;
    ctx.step();
    assert_eq!(ctx.cpu.a, 0x00);
    assert!(ctx.cpu.flag(FLAG_Z));
    assert!(ctx.cpu.flag(FLAG_H));
    assert!(ctx.cpu.flag(FLAG_C));
}

#[test]
fn mod_test_sub() {
    let mut ctx = setup_with_rom(&[0x90]);
    ctx.cpu.a = 0x3E;
    ctx.cpu.b = 0x3E;
    ctx.step();
    assert_eq!(ctx.cpu.a, 0x00);
    assert!(ctx.cpu.flag(FLAG_Z));
    assert!(ctx.cpu.flag(FLAG_N));
}

#[test]
fn mod_test_and() {
    let mut ctx = setup_with_rom(&[0xA0]);
    ctx.cpu.a = 0x5A;
    ctx.cpu.b = 0x3F;
    ctx.step();
    assert_eq!(ctx.cpu.a, 0x1A);
    assert!(ctx.cpu.flag(FLAG_H));
    assert!(!ctx.cpu.flag(FLAG_C));
}

#[test]
fn mod_test_xor() {
    let mut ctx = setup_with_rom(&[0xAF]);
    ctx.cpu.a = 0xFF;
    ctx.step();
    assert_eq!(ctx.cpu.a, 0x00);
    assert!(ctx.cpu.flag(FLAG_Z));
}

#[test]
fn mod_test_jp() {
    let mut ctx = setup_with_rom(&[0xC3, 0x00, 0x80]);
    ctx.step();
    assert_eq!(ctx.cpu.pc, 0x8000);
}

#[test]
fn mod_test_jr() {
    let mut ctx = setup_with_rom(&[0x18, 0x05]);
    ctx.step();
    assert_eq!(ctx.cpu.pc, 0x0107);
}

#[test]
fn mod_test_call_ret() {
    let mut rom_data = vec![0u8; 0x200];
    rom_data[0] = 0xCD;
    rom_data[1] = 0x00;
    rom_data[2] = 0x02;
    rom_data[0x100] = 0xC9;
    let mut ctx = setup_with_rom(&rom_data);
    ctx.cpu.sp = 0xFFFE;
    ctx.step();
    assert_eq!(ctx.cpu.pc, 0x0200);
    assert_eq!(ctx.cpu.sp, 0xFFFC);
    ctx.step();
    assert_eq!(ctx.cpu.pc, 0x0103);
    assert_eq!(ctx.cpu.sp, 0xFFFE);
}

#[test]
fn mod_test_push_pop() {
    let mut ctx = setup_with_rom(&[0xC5, 0xC1]);
    ctx.cpu.sp = 0xFFFE;
    ctx.cpu.set_bc(0x1234);
    ctx.step();
    assert_eq!(ctx.cpu.sp, 0xFFFC);
    ctx.cpu.set_bc(0x0000);
    ctx.step();
    assert_eq!(ctx.cpu.bc(), 0x1234);
    assert_eq!(ctx.cpu.sp, 0xFFFE);
}

#[test]
fn mod_test_rlca() {
    let mut ctx = setup_with_rom(&[0x07]);
    ctx.cpu.a = 0x85;
    ctx.step();
    assert_eq!(ctx.cpu.a, 0x0B);
    assert!(ctx.cpu.flag(FLAG_C));
}

#[test]
fn mod_test_rrca() {
    let mut ctx = setup_with_rom(&[0x0F]);
    ctx.cpu.a = 0x01;
    ctx.step();
    assert_eq!(ctx.cpu.a, 0x80);
    assert!(ctx.cpu.flag(FLAG_C));
}

#[test]
fn mod_test_cb_swap() {
    let mut ctx = setup_with_rom(&[0xCB, 0x37]);
    ctx.cpu.a = 0xF0;
    ctx.step();
    assert_eq!(ctx.cpu.a, 0x0F);
}

#[test]
fn mod_test_cb_bit() {
    let mut ctx = setup_with_rom(&[0xCB, 0x7F, 0xCB, 0x47]);
    ctx.cpu.a = 0x80;
    ctx.step();
    assert!(!ctx.cpu.flag(FLAG_Z));
    ctx.step();
    assert!(ctx.cpu.flag(FLAG_Z));
}

#[test]
fn mod_test_halt() {
    let mut ctx = setup_with_rom(&[0x76]);
    ctx.step();
    assert!(ctx.cpu.halted);
}

#[test]
fn mod_test_di_ei() {
    let mut ctx = setup_with_rom(&[0xF3, 0xFB, 0x00]);
    ctx.step();
    assert!(!ctx.cpu.ime);
    ctx.step();
    assert!(!ctx.cpu.ime);
    ctx.step();
    assert!(ctx.cpu.ime);
}

#[test]
fn mod_test_ld_hl_n() {
    let mut ctx = setup_with_rom(&[0x21, 0x00, 0xC0, 0x36, 0x42]);
    ctx.step();
    assert_eq!(ctx.cpu.hl(), 0xC000);
    ctx.step();
    assert_eq!(ctx.bus.read(0xC000), 0x42);
}

#[test]
fn daa_after_bcd_add_and_sub() {
    let (r, f) = alu(0, 0x45, 0x38, 0);
    let (d, f2) = daa(r, f);
    assert_eq!(d, 0x83);
    assert_eq!(f2 & 0x10, 0);
    let (r, f) = alu(0, 0x75, 0x48, 0);
    let (d, f2) = daa(r, f);
    assert_eq!(d, 0x23);
    assert_eq!(f2 & 0x10, 0x10);
    let (r, f) = alu(2, 0x45, 0x38, 0);
    let (d, f2) = daa(r, f);
    assert_eq!(d, 0x07);
    assert_eq!(f2 & 0x50, 0x40);
    let (r, f) = alu(2, 0x38, 0x45, 0);
    let (d, f2) = daa(r, f);
    assert_eq!(d, 0x93);
    assert_eq!(f2 & 0x10, 0x10);
    let (r, f) = alu(0, 0x50, 0x50, 0);
    let (d, f2) = daa(r, f);
    assert_eq!(d, 0x00);
    assert_eq!(f2 & 0x90, 0x90);
}
