use gb_emu::memory::cgb::rgb555_to_rgb888;
use gb_emu::memory::Memory;
use gb_emu::memory::cartridge::mbc7::Eeprom93lc56;
use gb_emu::memory::cartridge::{make_cartridge, ram_size_from_header, Cartridge, MbcType};

fn make_rom(cart_type: u8, ram_size_byte: u8) -> Vec<u8> {
    let mut rom = vec![0u8; 0x8000];
    rom[0x0147] = cart_type;
    rom[0x0149] = ram_size_byte;
    rom
}

#[test]
fn test_wram_read_write() {
    let mut mem = Memory::new();
    mem.write(0xC000, 0x42);
    assert_eq!(mem.read(0xC000), 0x42);
    mem.write(0xDFFF, 0xFF);
    assert_eq!(mem.read(0xDFFF), 0xFF);
}

#[test]
fn test_echo_ram() {
    let mut mem = Memory::new();
    mem.write(0xC000, 0x42);
    assert_eq!(mem.read(0xE000), 0x42);
    mem.write(0xE100, 0x55);
    assert_eq!(mem.read(0xC100), 0x55);
}

#[test]
fn test_hram() {
    let mut mem = Memory::new();
    mem.write(0xFF80, 0x12);
    assert_eq!(mem.read(0xFF80), 0x12);
    mem.write(0xFFFE, 0x34);
    assert_eq!(mem.read(0xFFFE), 0x34);
}

#[test]
fn test_ie_register() {
    let mut mem = Memory::new();
    mem.write(0xFFFF, 0x1F);
    assert_eq!(mem.read(0xFFFF), 0x1F);
    assert_eq!(mem.get_ie(), 0x1F);
}

#[test]
fn test_vram() {
    let mut mem = Memory::new();
    mem.write(0x8000, 0xAA);
    assert_eq!(mem.read(0x8000), 0xAA);
    mem.write(0x9FFF, 0xBB);
    assert_eq!(mem.read(0x9FFF), 0xBB);
}

#[test]
fn test_oam() {
    let mut mem = Memory::new();
    mem.write(0xFE00, 0x10);
    assert_eq!(mem.read(0xFE00), 0x10);
    mem.write(0xFE9F, 0x20);
    assert_eq!(mem.read(0xFE9F), 0x20);
}

#[test]
fn test_unusable_region() {
    let mem = Memory::new();
    assert_eq!(mem.read(0xFEA0), 0xFF);
    assert_eq!(mem.read(0xFEFF), 0xFF);
}

#[test]
fn test_rom_bank_switching() {
    let mut mem = Memory::new();
    let mut rom = vec![0u8; 0x8000];
    rom[0x0000] = 0x11;
    rom[0x4000] = 0x22;
    mem.load_rom(&rom, false, 0).unwrap();
    assert_eq!(mem.read(0x0000), 0x11);
    assert_eq!(mem.read(0x4000), 0x22);
}

#[test]
fn test_rom_bank_select() {
    let mut mem = Memory::new();
    let mut rom = vec![0u8; 0x10000];
    rom[0x0147] = 0x01;
    rom[0x4000] = 0x11;
    rom[0x8000] = 0x22;
    rom[0xC000] = 0x33;
    mem.load_rom(&rom, false, 0).unwrap();
    mem.write(0x2000, 0x02);
    assert_eq!(mem.read(0x4000), 0x22);
    mem.write(0x2000, 0x03);
    assert_eq!(mem.read(0x4000), 0x33);
    mem.write(0x2000, 0x00);
    assert_eq!(mem.read(0x4000), 0x11);
}

#[test]
fn test_external_ram_enable() {
    let mut mem = Memory::new();
    mem.load_rom(&make_rom(0x03, 0x02), false, 0).unwrap();
    assert_eq!(mem.read(0xA000), 0xFF);
    mem.write(0x0000, 0x0A);
    mem.write(0xA000, 0x42);
    assert_eq!(mem.read(0xA000), 0x42);
    mem.write(0x0000, 0x00);
    assert_eq!(mem.read(0xA000), 0xFF);
}

#[test]
fn mod_test_div_reset() {
    let mut mem = Memory::new();
    mem.write_io_direct(0x04, 0xFF);
    mem.write(0xFF04, 0x42);
    assert_eq!(mem.read(0xFF04), 0x00);
}

#[test]
fn test_ly_readonly() {
    let mut mem = Memory::new();
    mem.write_io_direct(0x44, 0x50);
    mem.write(0xFF44, 0x99);
    assert_eq!(mem.read(0xFF44), 0x50);
}

#[test]
fn test_dma_transfer() {
    let mut mem = Memory::new();
    for i in 0..0xA0 {
        mem.write(0xC000 + i as u16, i as u8);
    }
    mem.write(0xFF46, 0xC0);
    for i in 0..0xA0 {
        assert_eq!(mem.read(0xFE00 + i as u16), i as u8);
    }
}

#[test]
fn test_load_rom_too_small() {
    let mut mem = Memory::new();
    let small_rom = vec![0u8; 0x100];
    assert!(mem.load_rom(&small_rom, false, 0).is_err());
}

#[test]
fn test_cartridge_ram_persistence() {
    let mut mem = Memory::new();
    mem.load_rom(&make_rom(0x03, 0x02), false, 0).unwrap();
    mem.write(0x0000, 0x0A);
    mem.write(0xA000, 0x42);
    mem.write(0xA001, 0x43);
    let ram = mem.get_cartridge_ram().to_vec();
    assert_eq!(ram[0], 0x42);
    assert_eq!(ram[1], 0x43);
    let mut mem2 = Memory::new();
    mem2.load_rom(&make_rom(0x03, 0x02), false, 0).unwrap();
    mem2.load_cartridge_ram(&ram);
    mem2.write(0x0000, 0x0A);
    assert_eq!(mem2.read(0xA000), 0x42);
    assert_eq!(mem2.read(0xA001), 0x43);
}

#[test]
fn test_cgb_load_rom_sets_mode() {
    let mut mem = Memory::new();
    let rom = vec![0u8; 0x8000];
    mem.load_rom(&rom, true, 0).unwrap();
    assert!(mem.is_cgb_mode());
    mem.load_rom(&rom, false, 0).unwrap();
    assert!(!mem.is_cgb_mode());
}

#[test]
fn test_cgb_vram_bank_switching() {
    let mut mem = Memory::new();
    mem.load_rom(&vec![0u8; 0x8000], true, 0).unwrap();
    mem.write(0x8000, 0xAA);
    assert_eq!(mem.read(0x8000), 0xAA);
    mem.write(0xFF4F, 0x01);
    assert_eq!(mem.read(0xFF4F), 0xFF);
    mem.write(0x8000, 0xBB);
    assert_eq!(mem.read(0x8000), 0xBB);
    mem.write(0xFF4F, 0x00);
    assert_eq!(mem.read(0x8000), 0xAA);
    assert_eq!(mem.read_vram_bank(0, 0x8000), 0xAA);
    assert_eq!(mem.read_vram_bank(1, 0x8000), 0xBB);
}

#[test]
fn test_cgb_wram_bank_switching() {
    let mut mem = Memory::new();
    mem.load_rom(&vec![0u8; 0x8000], true, 0).unwrap();
    mem.write(0xC100, 0x11);
    mem.write(0xD000, 0x22);
    mem.write(0xFF70, 0x03);
    assert_eq!(mem.read(0xFF70), 0x03 | 0xF8);
    mem.write(0xD000, 0x33);
    assert_eq!(mem.read(0xD000), 0x33);
    mem.write(0xFF70, 0x01);
    assert_eq!(mem.read(0xD000), 0x22);
    assert_eq!(mem.read(0xC100), 0x11);
}

#[test]
fn test_cgb_bg_palette_write_read() {
    let mut mem = Memory::new();
    mem.load_rom(&vec![0u8; 0x8000], true, 0).unwrap();
    mem.write(0xFF68, 0x00);
    mem.write(0xFF69, 0xFF);
    mem.write(0xFF68, 0x01);
    mem.write(0xFF69, 0x7F);
    let (lo, hi) = mem.read_bg_palette(0, 0);
    assert_eq!(lo, 0xFF, "palette lo byte");
    assert_eq!(hi, 0x7F, "palette hi byte");
}

#[test]
fn test_cgb_obj_palette_auto_increment() {
    let mut mem = Memory::new();
    mem.load_rom(&vec![0u8; 0x8000], true, 0).unwrap();
    mem.write(0xFF6A, 0x80);
    let bytes = [0x00u8, 0x00, 0xFF, 0x7F, 0x1F, 0x00, 0xFF, 0x00];
    for b in bytes {
        mem.write(0xFF6B, b);
    }
    let ocps = mem.read(0xFF6A);
    assert_eq!(ocps & 0x3F, 8, "OCPS address after 8 auto-increments");
    let (lo, hi) = mem.read_obj_palette(0, 1);
    assert_eq!(lo, 0xFF);
    assert_eq!(hi, 0x7F);
}

#[test]
fn test_cgb_key1_arm_and_toggle() {
    let mut mem = Memory::new();
    mem.load_rom(&vec![0u8; 0x8000], true, 0).unwrap();
    assert!(!mem.is_double_speed());
    let key1 = mem.read(0xFF4D);
    assert_eq!(key1 & 0x01, 0, "speed_armed initially clear");
    assert_eq!(key1 & 0x80, 0, "double_speed initially clear");
    mem.write(0xFF4D, 0x01);
    let key1 = mem.read(0xFF4D);
    assert_eq!(key1 & 0x01, 1, "speed_armed set");
    mem.toggle_double_speed();
    assert!(mem.is_double_speed());
    let key1 = mem.read(0xFF4D);
    assert_eq!(key1 & 0x80, 0x80, "bit 7 reflects double_speed");
    assert_eq!(key1 & 0x01, 0, "speed_armed cleared after toggle");
    mem.write(0xFF4D, 0x01);
    mem.toggle_double_speed();
    assert!(!mem.is_double_speed());
}

#[test]
fn test_dmg_ignores_cgb_registers() {
    let mut mem = Memory::new();
    mem.load_rom(&vec![0u8; 0x8000], false, 0).unwrap();
    mem.write(0x8000, 0xAA);
    mem.write(0xFF4F, 0x01);
    mem.write(0x8000, 0xBB);
    assert_eq!(mem.read(0x8000), 0xBB);
    assert_eq!(mem.read_vram_bank(0, 0x8000), 0xBB);
    assert_eq!(mem.read_vram_bank(1, 0x8000), 0x00);
    assert_eq!(mem.read(0xFF4D), 0xFF);
    assert_eq!(mem.read(0xFF4F), 0xFF);
    assert_eq!(mem.read(0xFF68), 0xFF);
    assert_eq!(mem.read(0xFF70), 0xFF);
}

#[test]
fn serial_output_collects_bytes() {
    let mut mem = Memory::new();
    mem.write(0xFF01, b'O');
    mem.write(0xFF02, 0x81);
    mem.write(0xFF01, b'K');
    mem.write(0xFF02, 0x81);
    assert_eq!(mem.get_serial_output_string(), "OK");
    assert_eq!(mem.read(0xFF02), 0x01);
    mem.clear_serial_output();
    assert_eq!(mem.get_serial_output_string(), "");
}

#[test]
fn ram_size_header_values() {
    assert_eq!(ram_size_from_header(0x00), 8 * 1024);
    assert_eq!(ram_size_from_header(0x01), 2 * 1024);
    assert_eq!(ram_size_from_header(0x03), 32 * 1024);
    assert_eq!(ram_size_from_header(0x04), 128 * 1024);
    assert_eq!(ram_size_from_header(0x05), 64 * 1024);
    assert_eq!(ram_size_from_header(0x42), 128 * 1024);
}

#[test]
fn cartridge_types_from_header() {
    let kinds = [
        (0x00u8, MbcType::NoMbc),
        (0x02, MbcType::Mbc1),
        (0x10, MbcType::Mbc3),
        (0x1B, MbcType::Mbc5),
        (0x22, MbcType::Mbc7),
        (0xFC, MbcType::PocketCamera),
        (0x99, MbcType::Mbc5),
    ];
    for (t, k) in kinds {
        let c: Cartridge = make_cartridge(vec![0u8; 0x8000], t, 0x2000, 0);
        assert_eq!(c.mbc_type(), k);
    }
}

#[test]
fn gbc_hdma_general_copy() {
    let mut mem = Memory::new();
    mem.load_rom(&vec![0u8; 0x8000], true, 0).unwrap();
    for i in 0..32u16 {
        mem.write(0xC000 + i, (i as u8) ^ 0x5A);
    }
    mem.write(0xFF51, 0xC0);
    mem.write(0xFF52, 0x00);
    mem.write(0xFF53, 0x01);
    mem.write(0xFF54, 0x00);
    mem.write(0xFF55, 0x01);
    for i in 0..32u16 {
        assert_eq!(mem.read(0x8100 + i), (i as u8) ^ 0x5A);
    }
    assert_eq!(mem.read_io_direct(0x55), 0xFF);
}

#[test]
fn gbc_hdma_hblank_steps() {
    let mut mem = Memory::new();
    mem.load_rom(&vec![0u8; 0x8000], true, 0).unwrap();
    for i in 0..32u16 {
        mem.write(0xC000 + i, i as u8 + 1);
    }
    mem.write(0xFF51, 0xC0);
    mem.write(0xFF52, 0x00);
    mem.write(0xFF53, 0x00);
    mem.write(0xFF54, 0x00);
    mem.write(0xFF55, 0x81);
    assert_eq!(mem.read(0x8000), 0);
    mem.tick_hdma_hblank();
    assert_eq!(mem.read(0x8000), 1);
    assert_eq!(mem.read(0x8010), 0);
    assert_eq!(mem.read_io_direct(0x55), 0);
    mem.tick_hdma_hblank();
    assert_eq!(mem.read(0x8010), 17);
    assert_eq!(mem.read_io_direct(0x55), 0xFF);
}

#[test]
fn rgb555_expands_each_channel() {
    assert_eq!(rgb555_to_rgb888(0xFF, 0x7F), 0xFFFFFF);
    assert_eq!(rgb555_to_rgb888(0x1F, 0x00), 0xFF0000);
    assert_eq!(rgb555_to_rgb888(0xE0, 0x03), 0x00FF00);
    assert_eq!(rgb555_to_rgb888(0x00, 0x7C), 0x0000FF);
    assert_eq!(rgb555_to_rgb888(0x10, 0x42), 0x848484);
    assert_eq!(rgb555_to_rgb888(0x00, 0x00), 0x000000);
}

#[test]
fn serial_output_survives_load_rom() {
    let mut mem = Memory::new();
    mem.write(0xFF01, b'H');
    mem.write(0xFF02, 0x81);
    mem.load_rom(&vec![0u8; 0x8000], false, 0).unwrap();
    assert_eq!(mem.get_serial_output_string(), "H");
}

#[test]
fn camera_capture_invert_flips_tile_bits() {
    let mut rom = vec![0u8; 0x8000];
    rom[0x0147] = 0xFC;
    let processed: Vec<u8> = (0..128 * 112).map(|i| (i * 7 % 256) as u8).collect();
    let mut plain = Memory::new();
    plain.load_rom(&rom, false, 0).unwrap();
    plain.store_camera_capture(&processed, false);
    let mut inverted = Memory::new();
    inverted.load_rom(&rom, false, 0).unwrap();
    inverted.store_camera_capture(&processed, true);
    let a = plain.camera_capture_sram();
    let b = inverted.camera_capture_sram();
    assert_eq!(a.len(), 3584);
    assert!(a.iter().any(|&x| x != 0 && x != 0xFF));
    for i in 0..a.len() {
        assert_eq!(b[i], !a[i]);
    }
}

fn eeprom_pulse(e: &mut Eeprom93lc56, bit: bool) {
    let di = if bit { 0x02 } else { 0x00 };
    e.write(0x80 | di);
    e.write(0xC0 | di);
}

fn eeprom_clock_bits(e: &mut Eeprom93lc56, value: u32, n: u32) {
    for i in (0..n).rev() {
        eeprom_pulse(e, (value >> i) & 1 == 1);
    }
}

#[test]
fn eeprom_wren_write_then_read_word() {
    let mut e = Eeprom93lc56::new();
    // WREN: start 1, opcode 00, address 11xxxxx.
    eeprom_clock_bits(&mut e, 0x200 | 0x60, 10);
    e.write(0x00);
    assert_eq!(e.read() & 0x01, 1);
    // WRITE 0xBEEF to word 5.
    eeprom_clock_bits(&mut e, 0x200 | 0x80 | 5, 10);
    eeprom_clock_bits(&mut e, 0xBEEF, 16);
    e.write(0x00);
    assert_eq!(e.read() & 0x01, 1);
    assert_eq!(e.as_bytes()[10], 0xEF);
    assert_eq!(e.as_bytes()[11], 0xBE);
    assert_eq!(e.as_bytes()[12], 0xFF);
    // READ word 5: a dummy 0, then the word most significant bit first.
    eeprom_clock_bits(&mut e, 0x200 | 0x100 | 5, 10);
    assert_eq!(e.read() & 0x01, 0);
    let mut word: u16 = 0;
    for _ in 0..16 {
        eeprom_pulse(&mut e, false);
        word = (word << 1) | (e.read() & 0x01) as u16;
    }
    assert_eq!(word, 0xBEEF);
    eeprom_pulse(&mut e, false);
    assert_eq!(e.read() & 0x01, 1);
}

#[test]
fn eeprom_write_without_wren_changes_nothing() {
    let mut e = Eeprom93lc56::new();
    eeprom_clock_bits(&mut e, 0x200 | 0x80 | 5, 10);
    eeprom_clock_bits(&mut e, 0x1234, 16);
    e.write(0x00);
    assert!(e.as_bytes().iter().all(|&b| b == 0xFF));
    assert_eq!(e.read() & 0x01, 1);
}
