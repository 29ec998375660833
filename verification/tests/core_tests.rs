use gb_emu::gameboy::{FrameEvent, GameBoyCore, SampleEvent, StepEvent, CYCLES_PER_FRAME};

/// 32 KB ROM without MBC whose code at 0x0100 is `code`.
fn rom_with_code(code: &[u8]) -> Vec<u8> {
    let mut rom = vec![0u8; 0x8000];
    for (i, b) in code.iter().enumerate() {
        rom[0x0100 + i] = *b;
    }
    rom
}

/// NOP, then JR -2 forever.
fn minimal_rom() -> Vec<u8> {
    rom_with_code(&[0x00, 0x18, 0xFE])
}

#[test]
fn core_runs_frames() {
    let mut core = GameBoyCore::new();
    core.load_rom(&minimal_rom(), false, 0).unwrap();
    for _ in 0..5 {
        match core.step_frame(0) {
            FrameEvent::Done(n) => assert!(n > 0),
            other => panic!("unexpected {:?}", other),
        }
    }
    assert_eq!(core.frame_count(), 5);
    assert!(core.total_cycles() >= 5 * CYCLES_PER_FRAME as u64);
    assert!(core.total_cycles() < 5 * (CYCLES_PER_FRAME as u64 + 24));
    assert_eq!(core.frame().len(), 160 * 144 * 4);
}

#[test]
fn core_load_rom_too_small() {
    let mut core = GameBoyCore::new();
    assert!(core.load_rom(&[0u8; 0x100], false, 0).is_err());
    assert_eq!(core.frame_count(), 0);
}

#[test]
fn core_illegal_opcode_locks() {
    let mut core = GameBoyCore::new();
    core.load_rom(&rom_with_code(&[0xD3]), false, 0).unwrap();
    assert_eq!(core.step_single(), StepEvent::Locked);
    assert_eq!(core.step_frame(0), FrameEvent::Locked);
    assert_eq!(core.total_cycles(), 0);
}

#[test]
fn core_step_single_counts_cycles() {
    let mut core = GameBoyCore::new();
    core.load_rom(&minimal_rom(), false, 0).unwrap();
    assert_eq!(core.step_single(), StepEvent::Ran(4)); // NOP
    assert_eq!(core.step_single(), StepEvent::Ran(12)); // JR taken
    assert_eq!(core.total_cycles(), 16);
}

#[test]
fn core_set_button_requests_joypad_interrupt() {
    let mut core = GameBoyCore::new();
    core.load_rom(&minimal_rom(), false, 0).unwrap();
    core.write_io(0x0F, 0x00);
    core.set_button(0, false);
    assert_eq!(core.read_io(0x0F) & 0x10, 0);
    core.set_button(0, true);
    assert_eq!(core.read_io(0x0F) & 0x10, 0x10);
    core.write_io(0x0F, 0x00);
    core.set_button(9, true);
    assert_eq!(core.read_io(0x0F), 0x00);
}

#[test]
fn core_serial_inject() {
    let mut core = GameBoyCore::new();
    core.load_rom(&minimal_rom(), false, 0).unwrap();
    core.write_io(0x02, 0x81);
    core.serial_inject(0x42);
    assert_eq!(core.read_io(0x01), 0x42);
    assert_eq!(core.read_io(0x02), 0x00);
    assert_eq!(core.read_io(0x0F) & 0x08, 0x08);
}

#[test]
fn core_serial_take_output_in_order() {
    // LD A,0x55; LDH (01),A; LD A,0x81; LDH (02),A; LD A,0x66; LDH (01),A;
    // LD A,0x81; LDH (02),A; JR -2
    let code = [
        0x3E, 0x55, 0xE0, 0x01, 0x3E, 0x81, 0xE0, 0x02, 0x3E, 0x66, 0xE0, 0x01, 0x3E, 0x81, 0xE0, 0x02, 0x18, 0xFE,
    ];
    let mut core = GameBoyCore::new();
    core.load_rom(&rom_with_code(&code), false, 0).unwrap();
    assert_eq!(core.serial_take_output(), None);
    assert!(matches!(core.step_frame(0), FrameEvent::Done(_)));
    assert_eq!(core.serial_take_output(), Some(0x55));
    assert_eq!(core.serial_take_output(), Some(0x66));
    assert_eq!(core.serial_take_output(), None);
}

#[test]
fn core_step_samples_reaches_target() {
    let mut core = GameBoyCore::new();
    core.load_rom(&minimal_rom(), false, 0).unwrap();
    assert!(core.apu_powered());
    match core.step_samples(128) {
        SampleEvent::Done(n) => {
            assert!(n >= 128);
            assert!(n <= 129);
        }
        other => panic!("unexpected {:?}", other),
    }
    assert!(core.apu_sample_len() >= 256);
    assert_eq!(core.apu_sample_levels().len(), core.apu_sample_len());
    core.apu_clear_samples();
    assert_eq!(core.apu_sample_len(), 0);
}

#[test]
fn core_step_samples_with_apu_off_stops_at_budget() {
    // LD A,0; LDH (26),A (sound off); JR -2
    let mut core = GameBoyCore::new();
    core.load_rom(&rom_with_code(&[0x3E, 0x00, 0xE0, 0x26, 0x18, 0xFE]), false, 0).unwrap();
    match core.step_samples(10) {
        SampleEvent::Done(n) => assert!(n <= 1),
        other => panic!("unexpected {:?}", other),
    }
    assert!(!core.apu_powered());
    assert!(core.total_cycles() >= 2000);
}

#[test]
fn core_mbc1_banking() {
    let mut rom = vec![0u8; 0x10000];
    rom[0x0147] = 0x01;
    rom[0x0100] = 0x18;
    rom[0x0101] = 0xFE;
    rom[0x4000] = 0xAA;
    rom[0x8000] = 0xBB;
    let mut core = GameBoyCore::new();
    core.load_rom(&rom, false, 0).unwrap();
    core.write_byte(0x2000, 0x02);
    assert_eq!(core.read_byte(0x4000), 0xBB);
    core.write_byte(0x2000, 0x01);
    assert_eq!(core.read_byte(0x4000), 0xAA);
}

#[test]
fn core_cartridge_ram_load_and_reset() {
    let mut rom = vec![0u8; 0x8000];
    rom[0x0147] = 0x1B;
    rom[0x0149] = 0x02;
    rom[0x0100] = 0x18;
    rom[0x0101] = 0xFE;
    let mut core = GameBoyCore::new();
    core.load_rom(&rom, false, 0).unwrap();
    let saved: Vec<u8> = (0..8).collect();
    core.load_cartridge_ram(&saved);
    assert_eq!(&core.get_cartridge_ram()[..8], &saved[..]);
    core.step_frame(0);
    core.reset(0);
    assert_eq!(core.frame_count(), 0);
    assert_eq!(core.total_cycles(), 0);
    assert_eq!(&core.get_cartridge_ram()[..8], &[0u8; 8][..]);
}

#[test]
fn core_camera_capture_round_trip() {
    // LD A,0x10; LD (0x4000),A (camera registers); LD A,0x01; LD (0xA000),A; JR -2
    let mut rom = rom_with_code(&[0x3E, 0x10, 0xEA, 0x00, 0x40, 0x3E, 0x01, 0xEA, 0x00, 0xA0, 0x18, 0xFE]);
    rom[0x0147] = 0xFC;
    let mut core = GameBoyCore::new();
    core.load_rom(&rom, false, 0).unwrap();
    assert!(core.is_camera_cartridge());
    assert!(!core.is_camera_ready());
    core.set_camera_image(&vec![0x80u8; 128 * 112]);
    assert!(core.is_camera_ready());
    assert_eq!(core.step_frame(0), FrameEvent::Capture(false));
    assert_eq!(core.frame_count(), 0);
    // A black sensor image without dithering gives colour 3 everywhere.
    core.store_camera_capture(&vec![0u8; 128 * 112], false);
    assert!(core.update_camera_live());
    let live = core.camera_live();
    assert_eq!(live.len(), 128 * 112 * 4);
    assert_eq!(&live[0..4], &[0x00, 0x00, 0x00, 0xFF]);
    assert!(!core.update_camera_live());
    match core.step_frame(0) {
        FrameEvent::Done(_) => {}
        other => panic!("unexpected {:?}", other),
    }
    assert_eq!(core.frame_count(), 1);
    // Zeroed save RAM marks every slot's state entry as used.
    assert_eq!(core.camera_photo_count(), 30);
    core.clear_camera_photo_slot(1);
    assert_eq!(core.camera_photo_count(), 29);
    assert!(core.decode_camera_photo(1).is_empty());
}

#[test]
fn core_non_camera_has_no_camera() {
    let mut core = GameBoyCore::new();
    core.load_rom(&minimal_rom(), false, 0).unwrap();
    assert!(!core.is_camera_cartridge());
    assert!(!core.update_camera_live());
    assert!(core.decode_camera_photo(1).is_empty());
    assert!(!core.encode_camera_photo(1, &vec![0u8; 57344]));
    assert_eq!(core.camera_photo_count(), 0);
}

#[test]
fn core_drain_samples_takes_everything() {
    let mut core = GameBoyCore::new();
    core.load_rom(&minimal_rom(), false, 0).unwrap();
    core.step_samples(16);
    let n = core.apu_sample_len();
    assert!(n >= 32);
    let levels = core.drain_samples();
    assert_eq!(levels.len(), n);
    assert_eq!(core.apu_sample_len(), 0);
}

#[test]
fn core_stop_switches_speed_when_armed() {
    // LD A,1; LDH (4D),A (arm KEY1); STOP 0; JR -2
    let code = [0x3E, 0x01, 0xE0, 0x4D, 0x10, 0x00, 0x18, 0xFE];
    let mut core = GameBoyCore::new();
    core.load_rom(&rom_with_code(&code), true, 0).unwrap();
    assert!(!core.memory().is_double_speed());
    for _ in 0..3 {
        core.step_single();
    }
    assert!(core.memory().is_double_speed());
    assert!(!core.memory().is_speed_armed());
    assert_eq!(core.read_byte(0xFF4D) & 0x81, 0x80);
    // Without arming, STOP halts instead.
    let code = [0x10, 0x00, 0x18, 0xFE];
    let mut core = GameBoyCore::new();
    core.load_rom(&rom_with_code(&code), true, 0).unwrap();
    core.step_single();
    assert!(!core.memory().is_double_speed());
    assert!(core.cpu.halted);
}
