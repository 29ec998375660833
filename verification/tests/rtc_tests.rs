use gb_emu::memory::rtc::Rtc;

const NOW: u64 = 1_700_000_000;

#[test]
fn test_new_zeroed() {
    let rtc = Rtc::new(NOW);
    assert_eq!(rtc.s, 0);
    assert_eq!(rtc.m, 0);
    assert_eq!(rtc.h, 0);
    assert_eq!(rtc.dl, 0);
    assert_eq!(rtc.dh, 0);
}

#[test]
fn test_is_rtc_register() {
    assert!(!Rtc::is_rtc_register(0x07));
    assert!(Rtc::is_rtc_register(0x08));
    assert!(Rtc::is_rtc_register(0x0C));
    assert!(!Rtc::is_rtc_register(0x0D));
}

#[test]
fn test_write_and_read_registers() {
    let mut rtc = Rtc::new(NOW);
    rtc.write_register(0x08, 30);
    rtc.write_register(0x09, 45);
    rtc.write_register(0x0A, 12);
    rtc.write_register(0x0B, 0xFF);
    rtc.write_register(0x0C, 0x01);
    assert_eq!(rtc.read_register(0x08), 0);
    rtc.write_latch(0x00);
    rtc.write_latch(0x01);
    assert_eq!(rtc.read_register(0x08), 30);
    assert_eq!(rtc.read_register(0x09), 45);
    assert_eq!(rtc.read_register(0x0A), 12);
    assert_eq!(rtc.read_register(0x0B), 0xFF);
    assert_eq!(rtc.read_register(0x0C), 0x01);
}

#[test]
fn test_seconds_mask() {
    let mut rtc = Rtc::new(NOW);
    rtc.write_register(0x08, 0xFF);
    rtc.write_latch(0x00);
    rtc.write_latch(0x01);
    assert_eq!(rtc.read_register(0x08), 0x3F);
}

#[test]
fn test_hours_mask() {
    let mut rtc = Rtc::new(NOW);
    rtc.write_register(0x0A, 0xFF);
    rtc.write_latch(0x00);
    rtc.write_latch(0x01);
    assert_eq!(rtc.read_register(0x0A), 0x1F);
}

#[test]
fn test_latch_requires_sequence() {
    let mut rtc = Rtc::new(NOW);
    rtc.write_register(0x08, 42);
    rtc.write_latch(0x01);
    assert_eq!(rtc.read_register(0x08), 0);
    rtc.write_latch(0x00);
    rtc.write_latch(0x02);
    rtc.write_latch(0x01);
    assert_eq!(rtc.read_register(0x08), 0);
    rtc.write_latch(0x00);
    rtc.write_latch(0x01);
    assert_eq!(rtc.read_register(0x08), 42);
}

#[test]
fn test_latch_freezes_snapshot() {
    let mut rtc = Rtc::new(NOW);
    rtc.write_register(0x08, 10);
    rtc.write_latch(0x00);
    rtc.write_latch(0x01);
    assert_eq!(rtc.read_register(0x08), 10);
    rtc.write_register(0x08, 20);
    assert_eq!(rtc.read_register(0x08), 10);
    rtc.write_latch(0x00);
    rtc.write_latch(0x01);
    assert_eq!(rtc.read_register(0x08), 20);
}

#[test]
fn test_tick_advances_time() {
    let mut rtc = Rtc::new(NOW);
    rtc.write_register(0x08, 58);
    rtc.base_timestamp = NOW - 5;
    rtc.tick(NOW);
    rtc.write_latch(0x00);
    rtc.write_latch(0x01);
    assert_eq!(rtc.read_register(0x08), 3);
    assert_eq!(rtc.read_register(0x09), 1);
}

#[test]
fn test_tick_rollover_minutes_hours() {
    let mut rtc = Rtc::new(NOW);
    rtc.write_register(0x08, 0);
    rtc.write_register(0x09, 59);
    rtc.write_register(0x0A, 23);
    rtc.write_register(0x0B, 0);
    rtc.base_timestamp = NOW - 3600;
    rtc.tick(NOW);
    rtc.write_latch(0x00);
    rtc.write_latch(0x01);
    assert_eq!(rtc.read_register(0x08), 0);
    assert_eq!(rtc.read_register(0x09), 59);
    assert_eq!(rtc.read_register(0x0A), 0);
    assert_eq!(rtc.read_register(0x0B), 1);
}

#[test]
fn test_halt_prevents_advance() {
    let mut rtc = Rtc::new(NOW);
    rtc.write_register(0x08, 10);
    rtc.write_register(0x0C, 0x40);
    rtc.base_timestamp = NOW - 100;
    rtc.tick(NOW);
    rtc.write_latch(0x00);
    rtc.write_latch(0x01);
    assert_eq!(rtc.read_register(0x08), 10);
}

#[test]
fn test_day_counter_carry() {
    let mut rtc = Rtc::new(NOW);
    rtc.write_register(0x0B, 0xFF);
    rtc.write_register(0x0C, 0x01);
    rtc.base_timestamp = NOW - 86400;
    rtc.tick(NOW);
    rtc.write_latch(0x00);
    rtc.write_latch(0x01);
    assert_eq!(rtc.read_register(0x0B), 0);
    assert_eq!(rtc.read_register(0x0C) & 0x80, 0x80);
    assert_eq!(rtc.read_register(0x0C) & 0x01, 0x00);
}

#[test]
fn test_read_invalid_register() {
    let rtc = Rtc::new(NOW);
    assert_eq!(rtc.read_register(0x00), 0xFF);
    assert_eq!(rtc.read_register(0x0D), 0xFF);
}

#[test]
fn test_zero_elapsed_no_change() {
    let mut rtc = Rtc::new(NOW);
    rtc.write_register(0x08, 30);
    rtc.tick(NOW);
    rtc.write_latch(0x00);
    rtc.write_latch(0x01);
    assert_eq!(rtc.read_register(0x08), 30);
}

#[test]
fn rtc_day_counter_over_two_days() {
    let mut rtc = Rtc::new(NOW);
    rtc.base_timestamp = NOW - 2 * 86400 - 61;
    rtc.tick(NOW);
    assert_eq!(rtc.dl, 2);
    assert_eq!(rtc.m, 1);
    assert_eq!(rtc.s, 1);
}

#[test]
fn rtc_write_restarts_from_recorded_clock() {
    let mut rtc = Rtc::new(NOW);
    rtc.set_clock(NOW + 100);
    rtc.write_register(0x08, 10);
    assert_eq!(rtc.base_timestamp, NOW + 100);
    rtc.tick(NOW + 105);
    assert_eq!(rtc.s, 15);
}
