use forza_dataout_parse::DecodeError;
use forza_dataout_parse::utils::{parse_f32_bits, parse_i32, parse_i8, parse_u16, parse_u32, parse_u8};

#[test]
fn u8_reads_one_byte_and_advances() {
    let buf = [0xab, 0xcd];
    let mut pos: usize = 0;
    assert_eq!(parse_u8(&buf, &mut pos), Ok(0xab));
    assert_eq!(pos, 1);
    assert_eq!(parse_u8(&buf, &mut pos), Ok(0xcd));
    assert_eq!(pos, 2);
    assert_eq!(parse_u8(&buf, &mut pos), Err(DecodeError::TruncatedInput));
    assert_eq!(pos, 2);
}

#[test]
fn i8_is_twos_complement() {
    let buf = [0xff, 0x80, 0x7f, 0x00];
    let mut pos: usize = 0;
    assert_eq!(parse_i8(&buf, &mut pos), Ok(-1));
    assert_eq!(parse_i8(&buf, &mut pos), Ok(-128));
    assert_eq!(parse_i8(&buf, &mut pos), Ok(127));
    assert_eq!(parse_i8(&buf, &mut pos), Ok(0));
    assert_eq!(pos, 4);
}

#[test]
fn u16_is_little_endian() {
    let buf = [0x34, 0x12, 0xff];
    let mut pos: usize = 0;
    assert_eq!(parse_u16(&buf, &mut pos), Ok(0x1234));
    assert_eq!(pos, 2);
    assert_eq!(parse_u16(&buf, &mut pos), Err(DecodeError::TruncatedInput));
    assert_eq!(pos, 2);
}

#[test]
fn u32_is_little_endian() {
    let buf = [0x78, 0x56, 0x34, 0x12];
    let mut pos: usize = 0;
    assert_eq!(parse_u32(&buf, &mut pos), Ok(0x12345678));
    assert_eq!(pos, 4);
}

#[test]
fn u32_matches_std_le_decoding() {
    let v: u32 = 3_735_928_559;
    let buf = v.to_le_bytes();
    let mut pos: usize = 0;
    assert_eq!(parse_u32(&buf, &mut pos), Ok(v));
}

#[test]
fn i32_is_twos_complement() {
    let mut buf = Vec::new();
    buf.extend_from_slice(&(-1i32).to_le_bytes());
    buf.extend_from_slice(&i32::MIN.to_le_bytes());
    buf.extend_from_slice(&i32::MAX.to_le_bytes());
    buf.extend_from_slice(&(-123_456_789i32).to_le_bytes());
    let mut pos: usize = 0;
    assert_eq!(parse_i32(&buf, &mut pos), Ok(-1));
    assert_eq!(parse_i32(&buf, &mut pos), Ok(i32::MIN));
    assert_eq!(parse_i32(&buf, &mut pos), Ok(i32::MAX));
    assert_eq!(parse_i32(&buf, &mut pos), Ok(-123_456_789));
    assert_eq!(pos, 16);
}

#[test]
fn i32_fails_without_four_bytes() {
    let buf = [0x01, 0x02, 0x03];
    let mut pos: usize = 0;
    assert_eq!(parse_i32(&buf, &mut pos), Err(DecodeError::TruncatedInput));
    assert_eq!(pos, 0);
}

#[test]
fn f32_bits_carry_the_wire_pattern() {
    let v: f32 = -123.456;
    let buf = v.to_le_bytes();
    let mut pos: usize = 0;
    assert_eq!(parse_f32_bits(&buf, &mut pos), Ok(v.to_bits()));
    assert_eq!(pos, 4);
    assert_eq!(f32::from_bits(v.to_bits()), v);
}

#[test]
fn cursor_past_end_is_truncated_input() {
    let buf = [0u8; 8];
    let mut pos: usize = 6;
    assert_eq!(parse_u32(&buf, &mut pos), Err(DecodeError::TruncatedInput));
    assert_eq!(pos, 6);
    assert_eq!(parse_u16(&buf, &mut pos), Ok(0));
    assert_eq!(pos, 8);
}
