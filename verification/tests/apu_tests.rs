use gb_emu::apu::channel1::Channel1;
use gb_emu::apu::channel4::Channel4;
use gb_emu::apu::{midi_to_note_name, Apu};

#[test]
fn apu_power_on_state() {
    let apu = Apu::new();
    assert!(apu.powered());
    assert_eq!(apu.read(0xFF24), 0x77);
    assert_eq!(apu.read(0xFF25), 0xF3);
    // Power bit, bits 6-4 set, no channel running.
    assert_eq!(apu.read(0xFF26), 0xF0);
    assert_eq!(apu.read(0xFF15), 0xFF);
    assert_eq!(apu.read(0xFF27), 0xFF);
}

#[test]
fn apu_wave_ram_read_after_write() {
    let mut apu = Apu::new();
    apu.write(0xFF30, 0x12);
    apu.write(0xFF3F, 0xAB);
    assert_eq!(apu.read(0xFF30), 0x12);
    assert_eq!(apu.read(0xFF3F), 0xAB);
    assert_eq!(apu.read(0xFF31), 0x00);
    // Wave RAM stays writable with the power off.
    apu.write(0xFF26, 0x00);
    apu.write(0xFF31, 0x34);
    assert_eq!(apu.read(0xFF31), 0x34);
}

#[test]
fn apu_power_off_clears_registers() {
    let mut apu = Apu::new();
    apu.write(0xFF12, 0xF3);
    apu.write(0xFF24, 0x55);
    apu.write(0xFF26, 0x00);
    assert!(!apu.powered());
    assert_eq!(apu.read(0xFF24), 0x00);
    assert_eq!(apu.read(0xFF25), 0x00);
    assert_eq!(apu.read(0xFF26), 0x70);
    // Writes other than length loads are ignored while off.
    apu.write(0xFF24, 0x77);
    assert_eq!(apu.read(0xFF24), 0x00);
    assert_eq!(apu.tick(100, 0), None);
    apu.write(0xFF26, 0x80);
    assert!(apu.powered());
}

#[test]
fn apu_trigger_sets_status_bit() {
    let mut apu = Apu::new();
    apu.write(0xFF12, 0xF0); // volume 15, DAC on
    apu.write(0xFF14, 0x80); // trigger
    assert_eq!(apu.read(0xFF26) & 0x01, 0x01);
    // Turning the DAC off stops the channel.
    apu.write(0xFF12, 0x00);
    assert_eq!(apu.read(0xFF26) & 0x01, 0x00);
}

#[test]
fn apu_tick_outputs_levels_when_powered() {
    let mut apu = Apu::new();
    apu.write(0xFF12, 0xF0);
    apu.write(0xFF11, 0x80); // 50% duty
    apu.write(0xFF14, 0x87);
    let mut saw_high = false;
    for _ in 0..64 {
        let out = apu.tick(256, 0).expect("powered");
        assert!(out.0 == 0 || out.0 == 15);
        if out.0 == 15 {
            saw_high = true;
        }
        assert!(out.1 <= 15 && out.2 <= 15 && out.3 <= 15);
    }
    assert!(saw_high);
}

#[test]
fn apu_mix_levels_follow_panning_and_volume() {
    let apu = Apu::new(); // NR50 0x77, NR51 0xF3
    // Left: all four channels; right: channels 1 and 2; both volumes 7 (x8).
    assert_eq!(apu.mix_levels(15, 15, 15, 15), (480, 240));
    assert_eq!(apu.mix_levels(0, 0, 0, 0), (0, 0));
    assert_eq!(apu.mix_levels(0, 0, 10, 0), (80, 0));
}

#[test]
fn apu_frame_sequencer_clocks_length() {
    let mut apu = Apu::new();
    apu.write(0xFF12, 0xF0);
    apu.write(0xFF11, 0x3F); // length 1
    apu.write(0xFF14, 0xC0); // trigger with length enabled
    assert_eq!(apu.read(0xFF26) & 0x01, 0x01);
    for _ in 0..8 {
        apu.step_frame_sequencer();
    }
    assert_eq!(apu.read(0xFF26) & 0x01, 0x00);
}

#[test]
fn apu_falling_div_bit_steps_sequencer() {
    let mut apu = Apu::new();
    apu.tick(4, 0x1000);
    assert_eq!(apu.frame_seq_step, 0);
    apu.tick(4, 0x0000);
    assert_eq!(apu.frame_seq_step, 1);
}

#[test]
fn note_names() {
    assert_eq!(midi_to_note_name(0), "C-0");
    assert_eq!(midi_to_note_name(1), "C#0");
    assert_eq!(midi_to_note_name(69), "A-5");
    assert_eq!(midi_to_note_name(127), "G-A");
    assert_eq!(midi_to_note_name(128), "---");
    assert_eq!(midi_to_note_name(255), "---");
}

#[test]
fn channel1_frequency_and_duty() {
    let mut ch = Channel1::new();
    ch.write_nr13(0x34);
    ch.write_nr14(0x05, 0);
    assert_eq!(ch.frequency(), 0x534);
    ch.write_nr11(0xC0);
    assert_eq!(ch.duty(), 3);
}

#[test]
fn channel4_clock_fields() {
    let mut ch = Channel4::new();
    ch.write_nr43(0x5B);
    assert_eq!(ch.clock_shift(), 5);
    assert_eq!(ch.clock_divider(), 3);
    assert!(ch.is_short_lfsr());
}
