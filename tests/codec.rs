use shardc::numvalue::{signed, unsigned, write_f32_bits, write_f64_bits};
use shardc::util::{signed_leb128, unsigned_leb128};

fn enc_u(v: u64) -> Vec<u8> {
    let mut w = Vec::new();
    unsigned(&mut w, v);
    w
}

fn enc_s(v: i64) -> Vec<u8> {
    let mut w = Vec::new();
    signed(&mut w, v);
    w
}

fn read_u(b: &[u8]) -> (u64, usize) {
    let mut v: u64 = 0;
    let mut shift = 0;
    let mut n = 0;
    loop {
        let byte = b[n];
        n += 1;
        v |= ((byte & 0x7F) as u64) << shift;
        if byte & 0x80 == 0 {
            return (v, n);
        }
        shift += 7;
    }
}

fn read_s(b: &[u8]) -> (i64, usize) {
    let mut v: i128 = 0;
    let mut shift = 0;
    let mut n = 0;
    loop {
        let byte = b[n];
        n += 1;
        v |= ((byte & 0x7F) as i128) << shift;
        shift += 7;
        if byte & 0x80 == 0 {
            if byte & 0x40 != 0 {
                v -= 1i128 << shift;
            }
            return (v as i64, n);
        }
    }
}

#[test]
fn unsigned_small_values() {
    assert_eq!(enc_u(0), vec![0x00]);
    assert_eq!(enc_u(127), vec![0x7F]);
    assert_eq!(enc_u(128), vec![0x80, 0x01]);
    assert_eq!(enc_u(624485), vec![0xE5, 0x8E, 0x26]);
}

#[test]
fn unsigned_largest_value() {
    assert_eq!(
        enc_u(u64::MAX),
        vec![0xFF, 0xFF, 0xFF, 0xFF, 0xFF, 0xFF, 0xFF, 0xFF, 0xFF, 0x01]
    );
}

#[test]
fn unsigned_round_trip_values() {
    for v in [0u64, 1, 63, 64, 127, 128, 300, 16383, 16384, 1 << 35, u64::MAX - 1, u64::MAX] {
        let b = enc_u(v);
        assert_eq!(read_u(&b), (v, b.len()));
    }
}

#[test]
fn signed_small_values() {
    assert_eq!(enc_s(-1), vec![0x7F]);
    assert_eq!(enc_s(64), vec![0xC0, 0x00]);
    assert_eq!(enc_s(63), vec![0x3F]);
    assert_eq!(enc_s(-64), vec![0x40]);
    assert_eq!(enc_s(-65), vec![0xBF, 0x7F]);
    assert_eq!(enc_s(0), vec![0x00]);
    assert_eq!(enc_s(-123456), vec![0xC0, 0xBB, 0x78]);
}

#[test]
fn signed_extreme_values() {
    assert_eq!(
        enc_s(i64::MIN),
        vec![0x80, 0x80, 0x80, 0x80, 0x80, 0x80, 0x80, 0x80, 0x80, 0x7F]
    );
    assert_eq!(
        enc_s(i64::MAX),
        vec![0xFF, 0xFF, 0xFF, 0xFF, 0xFF, 0xFF, 0xFF, 0xFF, 0xFF, 0x00]
    );
}

#[test]
fn signed_round_trip_values() {
    for v in [0i64, 1, -1, 63, 64, -64, -65, 127, 128, -128, 1 << 40, -(1 << 40), i64::MIN, i64::MAX] {
        let b = enc_s(v);
        assert_eq!(read_s(&b), (v, b.len()));
    }
}

#[test]
fn counting_writers_report_length() {
    let mut w = vec![0xAA];
    assert_eq!(unsigned_leb128(&mut w, 128), 2);
    assert_eq!(w, vec![0xAA, 0x80, 0x01]);
    let mut w = Vec::new();
    assert_eq!(signed_leb128(&mut w, -1), 1);
    assert_eq!(w, vec![0x7F]);
    let mut w = Vec::new();
    assert_eq!(signed_leb128(&mut w, 64), 2);
    assert_eq!(w, vec![0xC0, 0x00]);
}

#[test]
fn floats_are_little_endian_bit_patterns() {
    let mut w = Vec::new();
    write_f32_bits(&mut w, 1.5f32.to_bits());
    assert_eq!(w, 1.5f32.to_le_bytes().to_vec());
    assert_eq!(w, vec![0x00, 0x00, 0xC0, 0x3F]);
    let mut w = Vec::new();
    write_f64_bits(&mut w, (-2.0f64).to_bits());
    assert_eq!(w, vec![0, 0, 0, 0, 0, 0, 0, 0xC0]);
}
