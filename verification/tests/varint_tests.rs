use miniwasm::decode::Module;
use miniwasm::error::DecodeError;
use miniwasm::varint::encode_var_u32;

/// Decode one varint from `bytes` starting at offset 0.
fn decode(bytes: Vec<u8>) -> (Result<u32, DecodeError>, usize) {
    let m = Module::new(bytes);
    let mut cur: usize = 0;
    let r = m.read_var_u32(&mut cur);
    (r, cur)
}

fn round_trip(v: u32) {
    let enc = encode_var_u32(v);
    let n = enc.len();
    let (r, cur) = decode(enc);
    assert_eq!(r, Ok(v));
    assert_eq!(cur, n);
}

#[test]
fn varint_round_trip_small() {
    round_trip(0);
    round_trip(1);
    round_trip(42);
    round_trip(127);
}

#[test]
fn varint_round_trip_multibyte() {
    round_trip(128);
    round_trip(300);
    round_trip(16383);
    round_trip(16384);
    round_trip(624485);
    round_trip(0x0FFF_FFFF);
    round_trip(0x1000_0000);
    round_trip(u32::MAX);
}

#[test]
fn varint_single_byte_fast_path() {
    // Values below 128 take exactly one byte both ways.
    for v in [0u32, 1, 64, 127] {
        let enc = encode_var_u32(v);
        assert_eq!(enc.len(), 1);
        assert_eq!(enc[0], v as u8);
        let (r, cur) = decode(enc);
        assert_eq!(r, Ok(v));
        assert_eq!(cur, 1);
    }
    // 128 is the first value that needs a second byte.
    assert_eq!(encode_var_u32(128).len(), 2);
}

#[test]
fn varint_non_canonical_zero() {
    // A padded encoding of 0 is accepted; it is just not canonical.
    let (r, cur) = decode(vec![0x80, 0x00]);
    assert_eq!(r, Ok(0));
    assert_eq!(cur, 2);
}

#[test]
fn varint_five_byte_boundary() {
    // 0xFF 0xFF 0xFF 0xFF 0x0F is u32::MAX: the fifth byte holds only the
    // four value bits below bit 32.
    let (r, cur) = decode(vec![0xFF, 0xFF, 0xFF, 0xFF, 0x0F]);
    assert_eq!(r, Ok(u32::MAX));
    assert_eq!(cur, 5);
}

#[test]
fn varint_too_wide_is_invalid() {
    // A fifth byte at or above 0x10 would place bits at or beyond bit 32.
    let (r, cur) = decode(vec![0x80, 0x80, 0x80, 0x80, 0x10]);
    assert_eq!(r, Err(DecodeError::InvalidVarint));
    assert_eq!(cur, 0);
    // A fifth continuation byte is rejected the same way.
    let (r2, _) = decode(vec![0xFF, 0xFF, 0xFF, 0xFF, 0xFF, 0x00]);
    assert_eq!(r2, Err(DecodeError::InvalidVarint));
}

#[test]
fn varint_truncated_is_out_of_bounds() {
    let (r, cur) = decode(vec![]);
    assert_eq!(r, Err(DecodeError::OutOfBounds));
    assert_eq!(cur, 0);
    let (r1, _) = decode(vec![0x80]);
    assert_eq!(r1, Err(DecodeError::OutOfBounds));
    let (r2, _) = decode(vec![0x80, 0x80, 0x80, 0x80]);
    assert_eq!(r2, Err(DecodeError::OutOfBounds));
}
