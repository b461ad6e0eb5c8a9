//! Readers that take a value off the front of a byte slice and writers that put one at
//! the end of a buffer. The integers are read by `nom` and written by `byteorder`.

use vstd::prelude::*;
use vstd::utf8::{encode_utf8, valid_utf8};
use vstd::utf8::encode_utf8_decode_utf8;
use crate::error::SerialError;
use crate::wire::{blob_bytes, decoded, i16_le_bytes, i16_of, i32_le_bytes, i32_of, str_bytes};
use crate::wire::zeros;
use crate::wire::{take_blob, take_bytes, take_i16_le, take_i32_le, take_str, take_text};
use crate::wire::{take_u128_be, take_u16_be, take_u16_le, take_u32_le, take_u64_le, take_u8};
use crate::wire::{u128_be, u128_be_bytes, u16_be, u16_be_bytes, u16_le, u16_le_bytes};
use crate::wire::{u32_le, u32_le_bytes, u64_le, u64_le_bytes};

verus! {

/// `nom::number::streaming::le_u8` on a byte slice: the first byte and the slice behind
/// it, or nothing where the slice is empty.
#[verifier::external_body]
fn nom_le_u8<'a>(input: &'a [u8]) -> (r: Option<(u8, &'a [u8])>)
    ensures
        match r {
            Some((v, rest)) => input@.len() >= 1 && v == input@[0] && rest@ == input@.skip(1),
            None => input@.len() < 1,
        },
{
    match nom::number::streaming::le_u8::<&[u8], nom::error::Error<&[u8]>>(input) {
        Ok((rest, v)) => Some((v, rest)),
        Err(_) => None,
    }
}

/// `nom::number::streaming::le_u16` on a byte slice: the little-endian value of the first
/// two bytes and the slice behind them, or nothing where the slice is shorter.
#[verifier::external_body]
fn nom_le_u16<'a>(input: &'a [u8]) -> (r: Option<(u16, &'a [u8])>)
    ensures
        match r {
            Some((v, rest)) => input@.len() >= 2 && v == u16_le(input@) && rest@ == input@.skip(2),
            None => input@.len() < 2,
        },
{
    match nom::number::streaming::le_u16::<&[u8], nom::error::Error<&[u8]>>(input) {
        Ok((rest, v)) => Some((v, rest)),
        Err(_) => None,
    }
}

/// `nom::number::streaming::be_u16` on a byte slice: the big-endian value of the first
/// two bytes and the slice behind them, or nothing where the slice is shorter.
#[verifier::external_body]
fn nom_be_u16<'a>(input: &'a [u8]) -> (r: Option<(u16, &'a [u8])>)
    ensures
        match r {
            Some((v, rest)) => input@.len() >= 2 && v == u16_be(input@) && rest@ == input@.skip(2),
            None => input@.len() < 2,
        },
{
    match nom::number::streaming::be_u16::<&[u8], nom::error::Error<&[u8]>>(input) {
        Ok((rest, v)) => Some((v, rest)),
        Err(_) => None,
    }
}

/// `nom::number::streaming::le_u32` on a byte slice: the little-endian value of the first
/// four bytes and the slice behind them, or nothing where the slice is shorter.
#[verifier::external_body]
fn nom_le_u32<'a>(input: &'a [u8]) -> (r: Option<(u32, &'a [u8])>)
    ensures
        match r {
            Some((v, rest)) => input@.len() >= 4 && v == u32_le(input@) && rest@ == input@.skip(4),
            None => input@.len() < 4,
        },
{
    match nom::number::streaming::le_u32::<&[u8], nom::error::Error<&[u8]>>(input) {
        Ok((rest, v)) => Some((v, rest)),
        Err(_) => None,
    }
}

/// `nom::number::streaming::le_u64` on a byte slice: the little-endian value of the first
/// eight bytes and the slice behind them, or nothing where the slice is shorter.
#[verifier::external_body]
fn nom_le_u64<'a>(input: &'a [u8]) -> (r: Option<(u64, &'a [u8])>)
    ensures
        match r {
            Some((v, rest)) => input@.len() >= 8 && v == u64_le(input@) && rest@ == input@.skip(8),
            None => input@.len() < 8,
        },
{
    match nom::number::streaming::le_u64::<&[u8], nom::error::Error<&[u8]>>(input) {
        Ok((rest, v)) => Some((v, rest)),
        Err(_) => None,
    }
}

/// `nom::number::streaming::be_u128` on a byte slice: the big-endian value of the first
/// sixteen bytes and the slice behind them, or nothing where the slice is shorter.
#[verifier::external_body]
fn nom_be_u128<'a>(input: &'a [u8]) -> (r: Option<(u128, &'a [u8])>)
    ensures
        match r {
            Some((v, rest)) => input@.len() >= 16 && v == u128_be(input@) && rest@
                == input@.skip(16),
            None => input@.len() < 16,
        },
{
    match nom::number::streaming::be_u128::<&[u8], nom::error::Error<&[u8]>>(input) {
        Ok((rest, v)) => Some((v, rest)),
        Err(_) => None,
    }
}

/// `nom::number::streaming::le_i16` on a byte slice: the first two bytes, little-endian,
/// read as a signed number in two's complement, and the slice behind them, or nothing
/// where the slice is shorter.
#[verifier::external_body]
fn nom_le_i16<'a>(input: &'a [u8]) -> (r: Option<(i16, &'a [u8])>)
    ensures
        match r {
            Some((v, rest)) => input@.len() >= 2 && v == i16_of(u16_le(input@)) && rest@
                == input@.skip(2),
            None => input@.len() < 2,
        },
{
    match nom::number::streaming::le_i16::<&[u8], nom::error::Error<&[u8]>>(input) {
        Ok((rest, v)) => Some((v, rest)),
        Err(_) => None,
    }
}

/// `nom::number::streaming::le_i32` on a byte slice: the first four bytes, little-endian,
/// read as a signed number in two's complement, and the slice behind them, or nothing
/// where the slice is shorter.
#[verifier::external_body]
fn nom_le_i32<'a>(input: &'a [u8]) -> (r: Option<(i32, &'a [u8])>)
    ensures
        match r {
            Some((v, rest)) => input@.len() >= 4 && v == i32_of(u32_le(input@)) && rest@
                == input@.skip(4),
            None => input@.len() < 4,
        },
{
    match nom::number::streaming::le_i32::<&[u8], nom::error::Error<&[u8]>>(input) {
        Ok((rest, v)) => Some((v, rest)),
        Err(_) => None,
    }
}

/// `nom::bytes::streaming::take` on a byte slice: the first `n` bytes and the slice behind
/// them, or nothing where the slice is shorter.
#[verifier::external_body]
fn nom_take<'a>(input: &'a [u8], n: usize) -> (r: Option<(&'a [u8], &'a [u8])>)
    ensures
        match r {
            Some((taken, rest)) => input@.len() >= n && taken@ == input@.take(n as int) && rest@
                == input@.skip(n as int),
            None => input@.len() < n,
        },
{
    match nom::bytes::streaming::take::<usize, &[u8], nom::error::Error<&[u8]>>(n)(input) {
        Ok((rest, taken)) => Some((taken, rest)),
        Err(_) => None,
    }
}

/// `std::str::from_utf8`: the bytes as a string slice where they are valid UTF-8, and
/// nothing where they are not.
#[verifier::external_body]
fn str_from_utf8<'a>(bytes: &'a [u8]) -> (r: Option<&'a str>)
    ensures
        match r {
            Some(text) => valid_utf8(bytes@) && encode_utf8(text@) == bytes@,
            None => !valid_utf8(bytes@),
        },
{
    match std::str::from_utf8(bytes) {
        Ok(text) => Some(text),
        Err(_) => None,
    }
}

/// `byteorder::LittleEndian::write_u16` into two bytes.
#[verifier::external_body]
fn byteorder_u16_le(v: u16) -> (r: Vec<u8>)
    ensures
        r@ == u16_le_bytes(v),
{
    let mut out = [0u8; 2];
    <byteorder::LittleEndian as byteorder::ByteOrder>::write_u16(&mut out, v);
    out.to_vec()
}

/// `byteorder::BigEndian::write_u16` into two bytes.
#[verifier::external_body]
fn byteorder_u16_be(v: u16) -> (r: Vec<u8>)
    ensures
        r@ == u16_be_bytes(v),
{
    let mut out = [0u8; 2];
    <byteorder::BigEndian as byteorder::ByteOrder>::write_u16(&mut out, v);
    out.to_vec()
}

/// `byteorder::LittleEndian::write_u32` into four bytes.
#[verifier::external_body]
fn byteorder_u32_le(v: u32) -> (r: Vec<u8>)
    ensures
        r@ == u32_le_bytes(v),
{
    let mut out = [0u8; 4];
    <byteorder::LittleEndian as byteorder::ByteOrder>::write_u32(&mut out, v);
    out.to_vec()
}

/// `byteorder::LittleEndian::write_u64` into eight bytes.
#[verifier::external_body]
fn byteorder_u64_le(v: u64) -> (r: Vec<u8>)
    ensures
        r@ == u64_le_bytes(v),
{
    let mut out = [0u8; 8];
    <byteorder::LittleEndian as byteorder::ByteOrder>::write_u64(&mut out, v);
    out.to_vec()
}

/// `byteorder::BigEndian::write_u128` into sixteen bytes.
#[verifier::external_body]
fn byteorder_u128_be(v: u128) -> (r: Vec<u8>)
    ensures
        r@ == u128_be_bytes(v),
{
    let mut out = [0u8; 16];
    <byteorder::BigEndian as byteorder::ByteOrder>::write_u128(&mut out, v);
    out.to_vec()
}

/// `byteorder::LittleEndian::write_i16` into two bytes: the number in two's complement.
#[verifier::external_body]
fn byteorder_i16_le(v: i16) -> (r: Vec<u8>)
    ensures
        r@ == i16_le_bytes(v),
{
    let mut out = [0u8; 2];
    <byteorder::LittleEndian as byteorder::ByteOrder>::write_i16(&mut out, v);
    out.to_vec()
}

/// `byteorder::LittleEndian::write_i32` into four bytes: the number in two's complement.
#[verifier::external_body]
fn byteorder_i32_le(v: i32) -> (r: Vec<u8>)
    ensures
        r@ == i32_le_bytes(v),
{
    let mut out = [0u8; 4];
    <byteorder::LittleEndian as byteorder::ByteOrder>::write_i32(&mut out, v);
    out.to_vec()
}

// Readers.

pub fn le_u8<'a>(input: &'a [u8]) -> (r: Result<(u8, &'a [u8]), SerialError>)
    ensures
        decoded(r) == take_u8(input@),
{
    proof {
        reveal(take_u8);
    }
    match nom_le_u8(input) {
        Some((v, rest)) => Ok((v, rest)),
        None => Err(SerialError::Incomplete),
    }
}

pub fn le_u16<'a>(input: &'a [u8]) -> (r: Result<(u16, &'a [u8]), SerialError>)
    ensures
        decoded(r) == take_u16_le(input@),
{
    proof {
        reveal(take_u16_le);
    }
    match nom_le_u16(input) {
        Some((v, rest)) => Ok((v, rest)),
        None => Err(SerialError::Incomplete),
    }
}

pub fn be_u16<'a>(input: &'a [u8]) -> (r: Result<(u16, &'a [u8]), SerialError>)
    ensures
        decoded(r) == take_u16_be(input@),
{
    proof {
        reveal(take_u16_be);
    }
    match nom_be_u16(input) {
        Some((v, rest)) => Ok((v, rest)),
        None => Err(SerialError::Incomplete),
    }
}

pub fn le_u32<'a>(input: &'a [u8]) -> (r: Result<(u32, &'a [u8]), SerialError>)
    ensures
        decoded(r) == take_u32_le(input@),
{
    proof {
        reveal(take_u32_le);
    }
    match nom_le_u32(input) {
        Some((v, rest)) => Ok((v, rest)),
        None => Err(SerialError::Incomplete),
    }
}

pub fn le_u64<'a>(input: &'a [u8]) -> (r: Result<(u64, &'a [u8]), SerialError>)
    ensures
        decoded(r) == take_u64_le(input@),
{
    proof {
        reveal(take_u64_le);
    }
    match nom_le_u64(input) {
        Some((v, rest)) => Ok((v, rest)),
        None => Err(SerialError::Incomplete),
    }
}

pub fn be_u128<'a>(input: &'a [u8]) -> (r: Result<(u128, &'a [u8]), SerialError>)
    ensures
        decoded(r) == take_u128_be(input@),
{
    proof {
        reveal(take_u128_be);
    }
    match nom_be_u128(input) {
        Some((v, rest)) => Ok((v, rest)),
        None => Err(SerialError::Incomplete),
    }
}

pub fn le_i16<'a>(input: &'a [u8]) -> (r: Result<(i16, &'a [u8]), SerialError>)
    ensures
        decoded(r) == take_i16_le(input@),
{
    proof {
        reveal(take_i16_le);
    }
    match nom_le_i16(input) {
        Some((v, rest)) => Ok((v, rest)),
        None => Err(SerialError::Incomplete),
    }
}

pub fn le_i32<'a>(input: &'a [u8]) -> (r: Result<(i32, &'a [u8]), SerialError>)
    ensures
        decoded(r) == take_i32_le(input@),
{
    proof {
        reveal(take_i32_le);
    }
    match nom_le_i32(input) {
        Some((v, rest)) => Ok((v, rest)),
        None => Err(SerialError::Incomplete),
    }
}

/// The first `n` bytes of the input.
pub fn take<'a>(input: &'a [u8], n: usize) -> (r: Result<(&'a [u8], &'a [u8]), SerialError>)
    ensures
        decoded(r) == take_bytes(input@, n as nat),
{
    proof {
        reveal(take_bytes);
    }
    match nom_take(input, n) {
        Some((taken, rest)) => Ok((taken, rest)),
        None => Err(SerialError::Incomplete),
    }
}

/// The first `n` bytes of the input as text.
pub fn take_as_str<'a>(input: &'a [u8], n: usize) -> (r: Result<(&'a str, &'a [u8]), SerialError>)
    ensures
        decoded(r) == take_text(input@, n as nat),
{
    proof {
        reveal(take_text);
        reveal(take_bytes);
    }
    let (bytes, rest) = take(input, n)?;
    match str_from_utf8(bytes) {
        Some(text) => {
            proof {
                encode_utf8_decode_utf8(text@);
            }
            Ok((text, rest))
        },
        None => Err(SerialError::InvalidText),
    }
}

/// A byte string behind its length.
pub fn parse_bytes<'a>(input: &'a [u8]) -> (r: Result<(&'a [u8], &'a [u8]), SerialError>)
    ensures
        decoded(r) == take_blob(input@),
{
    proof {
        reveal(take_blob);
    }
    let (length, rest) = le_u32(input)?;
    take(rest, length as usize)
}

/// A text behind the length of its UTF-8 form.
pub fn parse_str<'a>(input: &'a [u8]) -> (r: Result<(&'a str, &'a [u8]), SerialError>)
    ensures
        decoded(r) == take_str(input@),
{
    proof {
        reveal(take_str);
    }
    let (length, rest) = le_u32(input)?;
    take_as_str(rest, length as usize)
}

// Writers.

pub fn put_u8(buf: &mut Vec<u8>, v: u8)
    ensures
        final(buf)@ == old(buf)@ + seq![v],
{
    buf.push(v);
    assert(buf@ =~= old(buf)@ + seq![v]);
}

pub fn put_u16_le(buf: &mut Vec<u8>, v: u16)
    ensures
        final(buf)@ == old(buf)@ + u16_le_bytes(v),
{
    let mut bytes = byteorder_u16_le(v);
    buf.append(&mut bytes);
}

pub fn put_u16_be(buf: &mut Vec<u8>, v: u16)
    ensures
        final(buf)@ == old(buf)@ + u16_be_bytes(v),
{
    let mut bytes = byteorder_u16_be(v);
    buf.append(&mut bytes);
}

pub fn put_u32_le(buf: &mut Vec<u8>, v: u32)
    ensures
        final(buf)@ == old(buf)@ + u32_le_bytes(v),
{
    let mut bytes = byteorder_u32_le(v);
    buf.append(&mut bytes);
}

pub fn put_u64_le(buf: &mut Vec<u8>, v: u64)
    ensures
        final(buf)@ == old(buf)@ + u64_le_bytes(v),
{
    let mut bytes = byteorder_u64_le(v);
    buf.append(&mut bytes);
}

pub fn put_u128_be(buf: &mut Vec<u8>, v: u128)
    ensures
        final(buf)@ == old(buf)@ + u128_be_bytes(v),
{
    let mut bytes = byteorder_u128_be(v);
    buf.append(&mut bytes);
}

pub fn put_i16_le(buf: &mut Vec<u8>, v: i16)
    ensures
        final(buf)@ == old(buf)@ + i16_le_bytes(v),
{
    let mut bytes = byteorder_i16_le(v);
    buf.append(&mut bytes);
}

pub fn put_i32_le(buf: &mut Vec<u8>, v: i32)
    ensures
        final(buf)@ == old(buf)@ + i32_le_bytes(v),
{
    let mut bytes = byteorder_i32_le(v);
    buf.append(&mut bytes);
}

pub fn put_bytes(buf: &mut Vec<u8>, data: &[u8])
    ensures
        final(buf)@ == old(buf)@ + data@,
{
    buf.extend_from_slice(data);
    assert(buf@ =~= old(buf)@ + data@);
}

/// `n` zero bytes.
pub fn put_zeros(buf: &mut Vec<u8>, n: usize)
    ensures
        final(buf)@ == old(buf)@ + zeros(n as nat),
{
    let mut i: usize = 0;
    while i < n
        invariant
            i <= n,
            buf@ == old(buf)@ + zeros(i as nat),
        decreases n - i,
    {
        buf.push(0u8);
        i = i + 1;
        assert(buf@ =~= old(buf)@ + zeros(i as nat));
    }
}

/// A byte string behind its length. A length of more than 32 bits is cut to 32.
pub fn put_blob(buf: &mut Vec<u8>, data: &[u8])
    ensures
        final(buf)@ == old(buf)@ + blob_bytes(data@),
{
    put_u32_le(buf, #[verifier::truncate] (data.len() as u32));
    put_bytes(buf, data);
    assert(buf@ =~= old(buf)@ + blob_bytes(data@));
}

/// A text behind the length of its UTF-8 form. A length of more than 32 bits is cut to 32.
pub fn put_str(buf: &mut Vec<u8>, text: &str)
    ensures
        final(buf)@ == old(buf)@ + str_bytes(text@),
{
    let data = text.as_bytes();
    put_u32_le(buf, #[verifier::truncate] (data.len() as u32));
    put_bytes(buf, data);
    assert(buf@ =~= old(buf)@ + str_bytes(text@));
}

} // verus!
