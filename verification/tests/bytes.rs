use decode_ceph::bytes::{be_u128, be_u16, le_i16, le_i32, le_u16, le_u32, le_u64, le_u8};
use decode_ceph::bytes::{parse_bytes, parse_str, take, take_as_str};
use decode_ceph::bytes::{put_blob, put_bytes, put_i16_le, put_i32_le, put_str, put_u128_be};
use decode_ceph::bytes::{put_u16_be, put_u16_le, put_u32_le, put_u64_le, put_u8, put_zeros};
use decode_ceph::error::SerialError;

#[test]
fn reads_one_byte() {
    let bytes = [0x2a, 0x01];
    assert_eq!(le_u8(&bytes), Ok((0x2a, &bytes[1..])));
    let none: [u8; 0] = [];
    assert_eq!(le_u8(&none), Err(SerialError::Incomplete));
}

#[test]
fn reads_u16_in_both_orders() {
    let bytes = [0x34, 0x12, 0xff];
    assert_eq!(le_u16(&bytes), Ok((0x1234, &bytes[2..])));
    assert_eq!(be_u16(&bytes), Ok((0x3412, &bytes[2..])));
    assert_eq!(le_u16(&bytes[..1]), Err(SerialError::Incomplete));
    assert_eq!(be_u16(&bytes[..1]), Err(SerialError::Incomplete));
}

#[test]
fn reads_u32_little_endian() {
    let bytes = [0x78, 0x56, 0x34, 0x12, 0x00];
    assert_eq!(le_u32(&bytes), Ok((0x1234_5678, &bytes[4..])));
    assert_eq!(le_u32(&bytes[..3]), Err(SerialError::Incomplete));
}

#[test]
fn reads_u64_little_endian() {
    let bytes = [0x08, 0x07, 0x06, 0x05, 0x04, 0x03, 0x02, 0x01];
    let empty: &[u8] = &[];
    assert_eq!(le_u64(&bytes), Ok((0x0102_0304_0506_0708, empty)));
    assert_eq!(le_u64(&bytes[..7]), Err(SerialError::Incomplete));
}

#[test]
fn reads_u128_big_endian() {
    let bytes = [
        0xa1, 0xa2, 0xa3, 0xa4, 0xb1, 0xb2, 0xc1, 0xc2, 0xd1, 0xd2, 0xd3, 0xd4, 0xd5, 0xd6, 0xd7,
        0xd8, 0x99,
    ];
    assert_eq!(be_u128(&bytes), Ok((0xa1a2a3a4_b1b2_c1c2_d1d2_d3d4d5d6d7d8, &bytes[16..])));
    assert_eq!(be_u128(&bytes[..15]), Err(SerialError::Incomplete));
}

#[test]
fn reads_signed_numbers_in_twos_complement() {
    let empty: &[u8] = &[];
    assert_eq!(le_i16(&[0xff, 0xff]), Ok((-1, empty)));
    assert_eq!(le_i16(&[0x00, 0x80]), Ok((i16::MIN, empty)));
    assert_eq!(le_i16(&[0xff, 0x7f]), Ok((i16::MAX, empty)));
    assert_eq!(le_i16(&[0xff]), Err(SerialError::Incomplete));
    assert_eq!(le_i32(&[0xfe, 0xff, 0xff, 0xff]), Ok((-2, empty)));
    assert_eq!(le_i32(&[0x00, 0x00, 0x00, 0x80]), Ok((i32::MIN, empty)));
    assert_eq!(le_i32(&[0x01, 0x00, 0x00]), Err(SerialError::Incomplete));
}

#[test]
fn takes_a_prefix() {
    let bytes = [1, 2, 3, 4, 5];
    assert_eq!(take(&bytes, 2), Ok((&bytes[..2], &bytes[2..])));
    assert_eq!(take(&bytes, 0), Ok((&bytes[..0], &bytes[..])));
    assert_eq!(take(&bytes, 5), Ok((&bytes[..], &bytes[5..])));
    assert_eq!(take(&bytes, 6), Err(SerialError::Incomplete));
}

#[test]
fn takes_text() {
    let bytes = b"hello world";
    assert_eq!(take_as_str(bytes, 5), Ok(("hello", &bytes[5..])));
    assert_eq!(take_as_str(bytes, 12), Err(SerialError::Incomplete));
    assert_eq!(take_as_str(&[0x61, 0xff, 0x62], 3), Err(SerialError::InvalidText));
    // a prefix that ends inside a character is no text
    let snowman = "a\u{2603}".as_bytes();
    assert_eq!(take_as_str(snowman, 2), Err(SerialError::InvalidText));
    assert_eq!(take_as_str(snowman, 4), Ok(("a\u{2603}", &snowman[4..])));
}

#[test]
fn parses_length_prefixed_text() {
    let bytes = [5, 0, 0, 0, b'a', b'd', b'm', b'i', b'n', 9];
    assert_eq!(parse_str(&bytes), Ok(("admin", &bytes[9..])));
    assert_eq!(parse_str(&bytes[..8]), Err(SerialError::Incomplete));
    assert_eq!(parse_str(&bytes[..3]), Err(SerialError::Incomplete));
    assert_eq!(parse_str(&[2, 0, 0, 0, 0xc3, 0x28]), Err(SerialError::InvalidText));
    let empty: &[u8] = &[];
    assert_eq!(parse_str(&[0, 0, 0, 0]), Ok(("", empty)));
}

#[test]
fn parses_length_prefixed_bytes() {
    let bytes = [3, 0, 0, 0, 0xff, 0xfe, 0xfd, 7];
    assert_eq!(parse_bytes(&bytes), Ok((&bytes[4..7], &bytes[7..])));
    assert_eq!(parse_bytes(&bytes[..6]), Err(SerialError::Incomplete));
}

#[test]
fn writes_integers() {
    let mut buf = vec![0xeeu8];
    put_u8(&mut buf, 0x2a);
    put_u16_le(&mut buf, 0x1234);
    put_u16_be(&mut buf, 0x1234);
    put_u32_le(&mut buf, 0x1234_5678);
    put_u64_le(&mut buf, 0x0102_0304_0506_0708);
    assert_eq!(
        buf,
        vec![
            0xee, 0x2a, 0x34, 0x12, 0x12, 0x34, 0x78, 0x56, 0x34, 0x12, 0x08, 0x07, 0x06, 0x05,
            0x04, 0x03, 0x02, 0x01
        ]
    );
}

#[test]
fn writes_u128_big_endian() {
    let mut buf = Vec::new();
    put_u128_be(&mut buf, 0xa1a2a3a4_b1b2_c1c2_d1d2_d3d4d5d6d7d8);
    assert_eq!(
        buf,
        vec![
            0xa1, 0xa2, 0xa3, 0xa4, 0xb1, 0xb2, 0xc1, 0xc2, 0xd1, 0xd2, 0xd3, 0xd4, 0xd5, 0xd6,
            0xd7, 0xd8
        ]
    );
}

#[test]
fn writes_signed_numbers_in_twos_complement() {
    let mut buf = Vec::new();
    put_i16_le(&mut buf, -1);
    put_i16_le(&mut buf, i16::MIN);
    put_i32_le(&mut buf, -2);
    put_i32_le(&mut buf, 1);
    assert_eq!(buf, vec![0xff, 0xff, 0x00, 0x80, 0xfe, 0xff, 0xff, 0xff, 0x01, 0x00, 0x00, 0x00]);
}

#[test]
fn writes_bytes_text_and_zeros() {
    let mut buf = vec![1u8];
    put_bytes(&mut buf, &[2, 3]);
    put_zeros(&mut buf, 3);
    put_str(&mut buf, "ab");
    put_blob(&mut buf, &[9, 8, 7]);
    put_zeros(&mut buf, 0);
    assert_eq!(buf, vec![1, 2, 3, 0, 0, 0, 2, 0, 0, 0, b'a', b'b', 3, 0, 0, 0, 9, 8, 7]);
}

#[test]
fn text_length_counts_bytes_not_characters() {
    let mut buf = Vec::new();
    put_str(&mut buf, "\u{2603}");
    assert_eq!(buf, vec![3, 0, 0, 0, 0xe2, 0x98, 0x83]);
    let empty: &[u8] = &[];
    assert_eq!(parse_str(&buf), Ok(("\u{2603}", empty)));
}
