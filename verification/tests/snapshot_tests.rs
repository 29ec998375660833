use gb_emu::snapshot::{SnapReader, SnapWriter};

#[test]
fn roundtrip_primitives() {
    let mut w = SnapWriter::new();
    w.u8(0xFF);
    w.u16(0x1234);
    w.u32(0xDEAD_BEEF);
    w.u64(u64::MAX);
    w.u32(1.5_f32.to_bits());
    w.u64(std::f64::consts::PI.to_bits());
    w.bool(true);
    w.bool(false);
    let data = w.into_vec();
    let mut r = SnapReader::new(&data);
    assert_eq!(r.u8().unwrap(), 0xFF);
    assert_eq!(r.u16().unwrap(), 0x1234);
    assert_eq!(r.u32().unwrap(), 0xDEAD_BEEF);
    assert_eq!(r.u64().unwrap(), u64::MAX);
    assert_eq!(f32::from_bits(r.u32().unwrap()), 1.5_f32);
    assert!((f64::from_bits(r.u64().unwrap()) - std::f64::consts::PI).abs() < 1e-15);
    assert!(r.bool().unwrap());
    assert!(!r.bool().unwrap());
}

#[test]
fn roundtrip_bytes() {
    let src = [1u8, 2, 3, 255, 0];
    let mut w = SnapWriter::new();
    w.bytes(&src);
    let data = w.into_vec();
    let mut r = SnapReader::new(&data);
    assert_eq!(r.bytes(src.len()).unwrap(), &src);
}

#[test]
fn reader_u8_truncated() {
    let data: [u8; 0] = [];
    let mut r = SnapReader::new(&data);
    assert!(r.u8().is_err());
}

#[test]
fn reader_u16_truncated() {
    let data = [0u8];
    let mut r = SnapReader::new(&data);
    assert!(r.u16().is_err());
}

#[test]
fn reader_bytes_truncated() {
    let data = [0u8; 3];
    let mut r = SnapReader::new(&data);
    assert!(r.bytes(4).is_err());
}

#[test]
fn reader_bytes_exact() {
    let data = [1u8, 2, 3];
    let mut r = SnapReader::new(&data);
    assert_eq!(r.bytes(3).unwrap(), &[1, 2, 3]);
    assert!(r.u8().is_err());
}

#[test]
fn little_endian_u16() {
    let mut w = SnapWriter::new();
    w.u16(0x0102);
    assert_eq!(w.into_vec(), [0x02, 0x01]);
}

#[test]
fn little_endian_u32() {
    let mut w = SnapWriter::new();
    w.u32(0x01020304);
    assert_eq!(w.into_vec(), [0x04, 0x03, 0x02, 0x01]);
}

#[test]
fn little_endian_u64_and_errors() {
    let mut w = SnapWriter::new();
    w.u64(0x0102030405060708);
    let v = w.into_vec();
    assert_eq!(v, [8, 7, 6, 5, 4, 3, 2, 1]);
    let mut r = SnapReader::new(&v[..7]);
    assert_eq!(r.u64(), Err("snapshot truncated"));
}

#[test]
fn reader_failed_read_consumes_rest() {
    let data = [0x01u8, 0x02, 0x03];
    let mut r = SnapReader::new(&data);
    assert!(r.u32().is_err());
    assert_eq!(r.pos, 3);
    assert!(r.u8().is_err());
    assert_eq!(r.pos, 3);
    let mut r = SnapReader::new(&data[..1]);
    assert!(r.u16().is_err());
    assert_eq!(r.pos, 1);
}
