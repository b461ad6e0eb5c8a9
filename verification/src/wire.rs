//! The byte level of the wire format: integers of fixed width, byte strings and text,
//! each as a value of a byte sequence, as the bytes of a value, and as a step that takes
//! the value off the front of a buffer.

use vstd::prelude::*;
use vstd::utf8::{decode_utf8, encode_utf8, valid_utf8};
use vstd::utf8::{encode_utf8_decode_utf8, encode_utf8_valid_utf8};
use crate::error::SerialError;

verus! {

/// What a step leaves: the value and the bytes behind it, or the failure.
pub type Taken<V> = Result<(V, Seq<u8>), SerialError>;

/// What a decoder returned, the value and the rest of the buffer taken by their views.
pub open spec fn decoded<T: View>(r: Result<(T, &[u8]), SerialError>) -> Taken<T::V> {
    match r {
        Ok((v, rest)) => Ok((v@, rest@)),
        Err(e) => Err(e),
    }
}

/// The bytes behind the value that a step took.
pub open spec fn rest<V>(r: Taken<V>) -> Seq<u8> {
    match r {
        Ok((_, s)) => s,
        Err(_) => Seq::empty(),
    }
}

/// The value that a step took.
pub open spec fn value<V>(r: Taken<V>) -> V {
    r->Ok_0.0
}

/// The failure of a step, as the failure of what the step is a part of.
pub open spec fn failed<V, W>(r: Taken<V>) -> Taken<W> {
    Err(r->Err_0)
}

/// `n` zero bytes.
pub open spec fn zeros(n: nat) -> Seq<u8> {
    Seq::new(n, |i: int| 0u8)
}

// The value of the bytes at the front of a sequence.

/// The little-endian value of the first two bytes.
pub open spec fn u16_le(b: Seq<u8>) -> u16 {
    (b[0] as int + 0x100 * (b[1] as int)) as u16
}

/// The big-endian value of the first two bytes.
pub open spec fn u16_be(b: Seq<u8>) -> u16 {
    (0x100 * (b[0] as int) + b[1] as int) as u16
}

/// The little-endian value of the first four bytes.
pub open spec fn u32_le(b: Seq<u8>) -> u32 {
    (b[0] as int + 0x100 * (b[1] as int) + 0x1_0000 * (b[2] as int) + 0x100_0000 * (b[3] as int))
        as u32
}

/// The little-endian value of the first eight bytes.
pub open spec fn u64_le(b: Seq<u8>) -> u64 {
    (u32_le(b) as int + 0x1_0000_0000 * (u32_le(b.skip(4)) as int)) as u64
}

/// The big-endian value of the first four bytes.
pub open spec fn u32_be(b: Seq<u8>) -> u32 {
    (0x100_0000 * (b[0] as int) + 0x1_0000 * (b[1] as int) + 0x100 * (b[2] as int) + b[3] as int)
        as u32
}

/// The big-endian value of the first eight bytes.
pub open spec fn u64_be(b: Seq<u8>) -> u64 {
    (0x1_0000_0000 * (u32_be(b) as int) + u32_be(b.skip(4)) as int) as u64
}

/// The big-endian value of the first sixteen bytes.
pub open spec fn u128_be(b: Seq<u8>) -> u128 {
    (0x1_0000_0000_0000_0000 * (u64_be(b) as int) + u64_be(b.skip(8)) as int) as u128
}

/// The signed reading of sixteen bits in two's complement.
pub open spec fn i16_of(x: u16) -> i16 {
    if x < 0x8000 {
        x as i16
    } else {
        (x - 0x1_0000) as i16
    }
}

/// The sixteen bits that stand for a signed value in two's complement.
pub open spec fn u16_of(x: i16) -> u16 {
    if x < 0 {
        (x + 0x1_0000) as u16
    } else {
        x as u16
    }
}

/// The signed reading of thirty-two bits in two's complement.
pub open spec fn i32_of(x: u32) -> i32 {
    if x < 0x8000_0000 {
        x as i32
    } else {
        (x - 0x1_0000_0000) as i32
    }
}

/// The thirty-two bits that stand for a signed value in two's complement.
pub open spec fn u32_of(x: i32) -> u32 {
    if x < 0 {
        (x + 0x1_0000_0000) as u32
    } else {
        x as u32
    }
}

// The bytes of a value.

/// The two bytes of a value, the low one first.
#[verifier::opaque]
pub open spec fn u16_le_bytes(v: u16) -> Seq<u8> {
    seq![(v % 0x100) as u8, (v / 0x100) as u8]
}

/// The two bytes of a value, the high one first.
#[verifier::opaque]
pub open spec fn u16_be_bytes(v: u16) -> Seq<u8> {
    seq![(v / 0x100) as u8, (v % 0x100) as u8]
}

/// The four bytes of a value, the lowest first.
#[verifier::opaque]
pub open spec fn u32_le_bytes(v: u32) -> Seq<u8> {
    seq![
        (v % 0x100) as u8,
        (v / 0x100 % 0x100) as u8,
        (v / 0x1_0000 % 0x100) as u8,
        (v / 0x100_0000) as u8,
    ]
}

/// The four bytes of a value, the highest first.
#[verifier::opaque]
pub open spec fn u32_be_bytes(v: u32) -> Seq<u8> {
    seq![
        (v / 0x100_0000) as u8,
        (v / 0x1_0000 % 0x100) as u8,
        (v / 0x100 % 0x100) as u8,
        (v % 0x100) as u8,
    ]
}

/// The eight bytes of a value, the lowest first.
#[verifier::opaque]
pub open spec fn u64_le_bytes(v: u64) -> Seq<u8> {
    u32_le_bytes((v % 0x1_0000_0000) as u32) + u32_le_bytes((v / 0x1_0000_0000) as u32)
}

/// The eight bytes of a value, the highest first.
#[verifier::opaque]
pub open spec fn u64_be_bytes(v: u64) -> Seq<u8> {
    u32_be_bytes((v / 0x1_0000_0000) as u32) + u32_be_bytes((v % 0x1_0000_0000) as u32)
}

/// The sixteen bytes of a value, the highest first.
#[verifier::opaque]
pub open spec fn u128_be_bytes(v: u128) -> Seq<u8> {
    u64_be_bytes((v / 0x1_0000_0000_0000_0000) as u64) + u64_be_bytes(
        (v % 0x1_0000_0000_0000_0000) as u64,
    )
}

/// The two bytes of a signed value in two's complement, the low one first.
#[verifier::opaque]
pub open spec fn i16_le_bytes(v: i16) -> Seq<u8> {
    u16_le_bytes(u16_of(v))
}

/// The four bytes of a signed value in two's complement, the lowest first.
#[verifier::opaque]
pub open spec fn i32_le_bytes(v: i32) -> Seq<u8> {
    u32_le_bytes(u32_of(v))
}

/// A byte string behind its length, which is four bytes, little-endian.
pub open spec fn blob_bytes(data: Seq<u8>) -> Seq<u8> {
    u32_le_bytes(data.len() as u32) + data
}

/// A text behind the length of its UTF-8 form, which is four bytes, little-endian.
pub open spec fn str_bytes(text: Seq<char>) -> Seq<u8> {
    u32_le_bytes(encode_utf8(text).len() as u32) + encode_utf8(text)
}

// The steps: each takes a value off the front of a sequence, and fails where the
// sequence is too short for it.

/// One byte.
#[verifier::opaque]
pub open spec fn take_u8(s: Seq<u8>) -> Taken<u8> {
    if s.len() < 1 {
        Err(SerialError::Incomplete)
    } else {
        Ok((s[0], s.skip(1)))
    }
}

/// Two bytes, little-endian.
#[verifier::opaque]
pub open spec fn take_u16_le(s: Seq<u8>) -> Taken<u16> {
    if s.len() < 2 {
        Err(SerialError::Incomplete)
    } else {
        Ok((u16_le(s), s.skip(2)))
    }
}

/// Two bytes, big-endian.
#[verifier::opaque]
pub open spec fn take_u16_be(s: Seq<u8>) -> Taken<u16> {
    if s.len() < 2 {
        Err(SerialError::Incomplete)
    } else {
        Ok((u16_be(s), s.skip(2)))
    }
}

/// Four bytes, little-endian.
#[verifier::opaque]
pub open spec fn take_u32_le(s: Seq<u8>) -> Taken<u32> {
    if s.len() < 4 {
        Err(SerialError::Incomplete)
    } else {
        Ok((u32_le(s), s.skip(4)))
    }
}

/// Eight bytes, little-endian.
#[verifier::opaque]
pub open spec fn take_u64_le(s: Seq<u8>) -> Taken<u64> {
    if s.len() < 8 {
        Err(SerialError::Incomplete)
    } else {
        Ok((u64_le(s), s.skip(8)))
    }
}

/// Sixteen bytes, big-endian.
#[verifier::opaque]
pub open spec fn take_u128_be(s: Seq<u8>) -> Taken<u128> {
    if s.len() < 16 {
        Err(SerialError::Incomplete)
    } else {
        Ok((u128_be(s), s.skip(16)))
    }
}

/// Two bytes, little-endian, as a signed number.
#[verifier::opaque]
pub open spec fn take_i16_le(s: Seq<u8>) -> Taken<i16> {
    if s.len() < 2 {
        Err(SerialError::Incomplete)
    } else {
        Ok((i16_of(u16_le(s)), s.skip(2)))
    }
}

/// Four bytes, little-endian, as a signed number.
#[verifier::opaque]
pub open spec fn take_i32_le(s: Seq<u8>) -> Taken<i32> {
    if s.len() < 4 {
        Err(SerialError::Incomplete)
    } else {
        Ok((i32_of(u32_le(s)), s.skip(4)))
    }
}

/// The first `n` bytes.
#[verifier::opaque]
pub open spec fn take_bytes(s: Seq<u8>, n: nat) -> Taken<Seq<u8>> {
    if s.len() < n {
        Err(SerialError::Incomplete)
    } else {
        Ok((s.take(n as int), s.skip(n as int)))
    }
}

/// The first `n` bytes as text.
#[verifier::opaque]
pub open spec fn take_text(s: Seq<u8>, n: nat) -> Taken<Seq<char>> {
    if s.len() < n {
        Err(SerialError::Incomplete)
    } else if !valid_utf8(s.take(n as int)) {
        Err(SerialError::InvalidText)
    } else {
        Ok((decode_utf8(s.take(n as int)), s.skip(n as int)))
    }
}

/// A length of four bytes, little-endian, and as many bytes behind it.
#[verifier::opaque]
pub open spec fn take_blob(s: Seq<u8>) -> Taken<Seq<u8>> {
    match take_u32_le(s) {
        Err(e) => Err(e),
        Ok((n, s1)) => take_bytes(s1, n as nat),
    }
}

/// A length of four bytes, little-endian, and as many bytes of text behind it.
#[verifier::opaque]
pub open spec fn take_str(s: Seq<u8>) -> Taken<Seq<char>> {
    match take_u32_le(s) {
        Err(e) => Err(e),
        Ok((n, s1)) => take_text(s1, n as nat),
    }
}

// The bytes of a value are as many as its width.

pub broadcast proof fn lemma_len_u16_le_bytes(v: u16)
    ensures
        #[trigger] u16_le_bytes(v).len() == 2,
{
    reveal(u16_le_bytes);
}

pub broadcast proof fn lemma_len_u16_be_bytes(v: u16)
    ensures
        #[trigger] u16_be_bytes(v).len() == 2,
{
    reveal(u16_be_bytes);
}

pub broadcast proof fn lemma_len_u32_le_bytes(v: u32)
    ensures
        #[trigger] u32_le_bytes(v).len() == 4,
{
    reveal(u32_le_bytes);
}

pub broadcast proof fn lemma_len_u32_be_bytes(v: u32)
    ensures
        #[trigger] u32_be_bytes(v).len() == 4,
{
    reveal(u32_be_bytes);
}

pub broadcast proof fn lemma_len_u64_le_bytes(v: u64)
    ensures
        #[trigger] u64_le_bytes(v).len() == 8,
{
    reveal(u64_le_bytes);
    lemma_len_u32_le_bytes((v % 0x1_0000_0000) as u32);
    lemma_len_u32_le_bytes((v / 0x1_0000_0000) as u32);
}

pub broadcast proof fn lemma_len_u64_be_bytes(v: u64)
    ensures
        #[trigger] u64_be_bytes(v).len() == 8,
{
    reveal(u64_be_bytes);
    lemma_len_u32_be_bytes((v % 0x1_0000_0000) as u32);
    lemma_len_u32_be_bytes((v / 0x1_0000_0000) as u32);
}

pub broadcast proof fn lemma_len_u128_be_bytes(v: u128)
    ensures
        #[trigger] u128_be_bytes(v).len() == 16,
{
    reveal(u128_be_bytes);
    lemma_len_u64_be_bytes((v % 0x1_0000_0000_0000_0000) as u64);
    lemma_len_u64_be_bytes((v / 0x1_0000_0000_0000_0000) as u64);
}

pub broadcast proof fn lemma_len_i16_le_bytes(v: i16)
    ensures
        #[trigger] i16_le_bytes(v).len() == 2,
{
    reveal(i16_le_bytes);
    lemma_len_u16_le_bytes(u16_of(v));
}

pub broadcast proof fn lemma_len_i32_le_bytes(v: i32)
    ensures
        #[trigger] i32_le_bytes(v).len() == 4,
{
    reveal(i32_le_bytes);
    lemma_len_u32_le_bytes(u32_of(v));
}

/// Byte sequences may be joined in any grouping.
pub proof fn lemma_concat_assoc(a: Seq<u8>, b: Seq<u8>, c: Seq<u8>)
    ensures
        (a + b) + c == a + (b + c),
{
    assert((a + b) + c =~= a + (b + c));
}

/// What stands between two byte sequences is found again at its place.
pub proof fn lemma_concat_middle(a: Seq<u8>, b: Seq<u8>, c: Seq<u8>)
    ensures
        ((a + b) + c).subrange(a.len() as int, (a.len() + b.len()) as int) == b,
{
    assert(((a + b) + c).subrange(a.len() as int, (a.len() + b.len()) as int) =~= b);
}

// Each step undoes the bytes of its value.

pub broadcast proof fn lemma_take_u8(v: u8, tail: Seq<u8>)
    ensures
        #[trigger] take_u8(seq![v] + tail) == Ok::<(u8, Seq<u8>), SerialError>((v, tail)),
{
    reveal(take_u8);
    assert((seq![v] + tail).skip(1) =~= tail);
}

pub broadcast proof fn lemma_take_u16_le(v: u16, tail: Seq<u8>)
    ensures
        #[trigger] take_u16_le(u16_le_bytes(v) + tail) == Ok::<(u16, Seq<u8>), SerialError>(
            (v, tail),
        ),
{
    reveal(u16_le_bytes);
    reveal(take_u16_le);
    assert((u16_le_bytes(v) + tail).skip(2) =~= tail);
}

pub broadcast proof fn lemma_take_u16_be(v: u16, tail: Seq<u8>)
    ensures
        #[trigger] take_u16_be(u16_be_bytes(v) + tail) == Ok::<(u16, Seq<u8>), SerialError>(
            (v, tail),
        ),
{
    reveal(u16_be_bytes);
    reveal(take_u16_be);
    assert((u16_be_bytes(v) + tail).skip(2) =~= tail);
}

pub proof fn lemma_u32_le_of_bytes(v: u32, tail: Seq<u8>)
    ensures
        u32_le(u32_le_bytes(v) + tail) == v,
        (u32_le_bytes(v) + tail).skip(4) == tail,
{
    reveal(u32_le_bytes);
    assert((u32_le_bytes(v) + tail).skip(4) =~= tail);
}

pub proof fn lemma_u32_be_of_bytes(v: u32, tail: Seq<u8>)
    ensures
        u32_be(u32_be_bytes(v) + tail) == v,
        (u32_be_bytes(v) + tail).skip(4) == tail,
{
    reveal(u32_be_bytes);
    assert((u32_be_bytes(v) + tail).skip(4) =~= tail);
}

pub broadcast proof fn lemma_take_u32_le(v: u32, tail: Seq<u8>)
    ensures
        #[trigger] take_u32_le(u32_le_bytes(v) + tail) == Ok::<(u32, Seq<u8>), SerialError>(
            (v, tail),
        ),
{
    lemma_len_u32_le_bytes(v);
    reveal(take_u32_le);
    lemma_u32_le_of_bytes(v, tail);
}

pub proof fn lemma_u64_le_of_bytes(v: u64, tail: Seq<u8>)
    ensures
        u64_le(u64_le_bytes(v) + tail) == v,
        (u64_le_bytes(v) + tail).skip(8) == tail,
{
    reveal(u64_le_bytes);
    lemma_len_u32_le_bytes((v % 0x1_0000_0000) as u32);
    lemma_len_u32_le_bytes((v / 0x1_0000_0000) as u32);
    let lo = (v % 0x1_0000_0000) as u32;
    let hi = (v / 0x1_0000_0000) as u32;
    let s = u64_le_bytes(v) + tail;
    assert(s =~= u32_le_bytes(lo) + (u32_le_bytes(hi) + tail));
    lemma_u32_le_of_bytes(lo, u32_le_bytes(hi) + tail);
    lemma_u32_le_of_bytes(hi, tail);
    assert(s.skip(8) =~= tail);
}

pub proof fn lemma_u64_be_of_bytes(v: u64, tail: Seq<u8>)
    ensures
        u64_be(u64_be_bytes(v) + tail) == v,
        (u64_be_bytes(v) + tail).skip(8) == tail,
{
    reveal(u64_be_bytes);
    lemma_len_u32_be_bytes((v % 0x1_0000_0000) as u32);
    lemma_len_u32_be_bytes((v / 0x1_0000_0000) as u32);
    let lo = (v % 0x1_0000_0000) as u32;
    let hi = (v / 0x1_0000_0000) as u32;
    let s = u64_be_bytes(v) + tail;
    assert(s =~= u32_be_bytes(hi) + (u32_be_bytes(lo) + tail));
    lemma_u32_be_of_bytes(hi, u32_be_bytes(lo) + tail);
    lemma_u32_be_of_bytes(lo, tail);
    assert(s.skip(8) =~= tail);
}

pub broadcast proof fn lemma_take_u64_le(v: u64, tail: Seq<u8>)
    ensures
        #[trigger] take_u64_le(u64_le_bytes(v) + tail) == Ok::<(u64, Seq<u8>), SerialError>(
            (v, tail),
        ),
{
    lemma_len_u64_le_bytes(v);
    reveal(take_u64_le);
    lemma_u64_le_of_bytes(v, tail);
}

pub broadcast proof fn lemma_take_u128_be(v: u128, tail: Seq<u8>)
    ensures
        #[trigger] take_u128_be(u128_be_bytes(v) + tail) == Ok::<(u128, Seq<u8>), SerialError>(
            (v, tail),
        ),
{
    reveal(u128_be_bytes);
    lemma_len_u64_be_bytes((v % 0x1_0000_0000_0000_0000) as u64);
    lemma_len_u64_be_bytes((v / 0x1_0000_0000_0000_0000) as u64);
    reveal(take_u128_be);
    let lo = (v % 0x1_0000_0000_0000_0000) as u64;
    let hi = (v / 0x1_0000_0000_0000_0000) as u64;
    let s = u128_be_bytes(v) + tail;
    let rest = u64_be_bytes(lo) + tail;
    assert(s =~= u64_be_bytes(hi) + rest);
    assert(u64_be(s) == hi && s.skip(8) == rest) by {
        lemma_u64_be_of_bytes(hi, rest);
    }
    assert(u64_be(rest) == lo && rest.skip(8) == tail) by {
        lemma_u64_be_of_bytes(lo, tail);
    }
    assert(s.skip(16) =~= s.skip(8).skip(8));
    assert(0x1_0000_0000_0000_0000 * (hi as int) + lo as int == v as int);
}

pub broadcast proof fn lemma_take_i16_le(v: i16, tail: Seq<u8>)
    ensures
        #[trigger] take_i16_le(i16_le_bytes(v) + tail) == Ok::<(i16, Seq<u8>), SerialError>(
            (v, tail),
        ),
{
    reveal(i16_le_bytes);
    reveal(take_i16_le);
    reveal(take_u16_le);
    lemma_take_u16_le(u16_of(v), tail);
}

pub broadcast proof fn lemma_take_i32_le(v: i32, tail: Seq<u8>)
    ensures
        #[trigger] take_i32_le(i32_le_bytes(v) + tail) == Ok::<(i32, Seq<u8>), SerialError>(
            (v, tail),
        ),
{
    lemma_len_u32_le_bytes(u32_of(v));
    reveal(i32_le_bytes);
    reveal(take_i32_le);
    lemma_u32_le_of_bytes(u32_of(v), tail);
}

pub broadcast proof fn lemma_take_bytes(data: Seq<u8>, tail: Seq<u8>)
    ensures
        #[trigger] take_bytes(data + tail, data.len()) == Ok::<(Seq<u8>, Seq<u8>), SerialError>(
            (data, tail),
        ),
{
    reveal(take_bytes);
    assert((data + tail).take(data.len() as int) =~= data);
    assert((data + tail).skip(data.len() as int) =~= tail);
}

pub broadcast proof fn lemma_take_blob(data: Seq<u8>, tail: Seq<u8>)
    requires
        data.len() <= u32::MAX,
    ensures
        #[trigger] take_blob(blob_bytes(data) + tail) == Ok::<(Seq<u8>, Seq<u8>), SerialError>(
            (data, tail),
        ),
{
    lemma_len_u32_le_bytes(data.len() as u32);
    reveal(take_blob);
    let n = data.len() as u32;
    assert(blob_bytes(data) + tail =~= u32_le_bytes(n) + (data + tail));
    lemma_take_u32_le(n, data + tail);
    lemma_take_bytes(data, tail);
}

pub broadcast proof fn lemma_take_str(text: Seq<char>, tail: Seq<u8>)
    requires
        encode_utf8(text).len() <= u32::MAX,
    ensures
        #[trigger] take_str(str_bytes(text) + tail) == Ok::<(Seq<char>, Seq<u8>), SerialError>(
            (text, tail),
        ),
{
    lemma_len_u32_le_bytes(encode_utf8(text).len() as u32);
    reveal(take_str);
    reveal(take_text);
    reveal(take_bytes);
    let data = encode_utf8(text);
    let n = data.len() as u32;
    assert(str_bytes(text) + tail =~= u32_le_bytes(n) + (data + tail));
    lemma_take_u32_le(n, data + tail);
    lemma_take_bytes(data, tail);
    encode_utf8_valid_utf8(text);
    encode_utf8_decode_utf8(text);
}

// Each step leaves what stood behind the bytes that it took.

/// Whether `rest` is what stands in `input` behind its first bytes, at least `n` of them.
pub open spec fn behind(rest: Seq<u8>, input: Seq<u8>, n: nat) -> bool {
    &&& rest.len() + n <= input.len()
    &&& rest == input.skip(input.len() - rest.len())
}

/// What stands behind what stands behind the first bytes stands behind the first bytes.
pub proof fn lemma_behind_trans(a: Seq<u8>, b: Seq<u8>, c: Seq<u8>, n: nat, m: nat)
    requires
        behind(a, b, n),
        behind(b, c, m),
    ensures
        behind(a, c, n + m),
{
    assert(a =~= c.skip(c.len() - a.len()));
}

pub broadcast proof fn lemma_behind_take_u8(s: Seq<u8>)
    ensures
        #[trigger] take_u8(s) matches Ok((_, r)) ==> behind(r, s, 1),
{
    reveal(take_u8);
}

pub broadcast proof fn lemma_behind_take_u16_le(s: Seq<u8>)
    ensures
        #[trigger] take_u16_le(s) matches Ok((_, r)) ==> behind(r, s, 2),
{
    reveal(take_u16_le);
}

pub broadcast proof fn lemma_behind_take_u16_be(s: Seq<u8>)
    ensures
        #[trigger] take_u16_be(s) matches Ok((_, r)) ==> behind(r, s, 2),
{
    reveal(take_u16_be);
}

pub broadcast proof fn lemma_behind_take_u32_le(s: Seq<u8>)
    ensures
        #[trigger] take_u32_le(s) matches Ok((_, r)) ==> behind(r, s, 4),
{
    reveal(take_u32_le);
}

pub broadcast proof fn lemma_behind_take_u64_le(s: Seq<u8>)
    ensures
        #[trigger] take_u64_le(s) matches Ok((_, r)) ==> behind(r, s, 8),
{
    reveal(take_u64_le);
}

pub broadcast proof fn lemma_behind_take_u128_be(s: Seq<u8>)
    ensures
        #[trigger] take_u128_be(s) matches Ok((_, r)) ==> behind(r, s, 16),
{
    reveal(take_u128_be);
}

pub broadcast proof fn lemma_behind_take_i16_le(s: Seq<u8>)
    ensures
        #[trigger] take_i16_le(s) matches Ok((_, r)) ==> behind(r, s, 2),
{
    reveal(take_i16_le);
}

pub broadcast proof fn lemma_behind_take_i32_le(s: Seq<u8>)
    ensures
        #[trigger] take_i32_le(s) matches Ok((_, r)) ==> behind(r, s, 4),
{
    reveal(take_i32_le);
}

pub broadcast proof fn lemma_behind_take_bytes(s: Seq<u8>, n: nat)
    ensures
        #[trigger] take_bytes(s, n) matches Ok((_, r)) ==> behind(r, s, n),
{
    reveal(take_bytes);
}

pub broadcast proof fn lemma_behind_take_text(s: Seq<u8>, n: nat)
    ensures
        #[trigger] take_text(s, n) matches Ok((_, r)) ==> behind(r, s, n),
{
    reveal(take_text);
}

pub broadcast proof fn lemma_behind_take_blob(s: Seq<u8>)
    ensures
        #[trigger] take_blob(s) matches Ok((_, r)) ==> behind(r, s, 4),
{
    reveal(take_blob);
    lemma_behind_take_u32_le(s);
    if let Ok((n, s1)) = take_u32_le(s) {
        lemma_behind_take_bytes(s1, n as nat);
        if let Ok((_, r)) = take_bytes(s1, n as nat) {
            lemma_behind_trans(r, s1, s, 0, 4);
        }
    }
}

pub broadcast proof fn lemma_behind_take_str(s: Seq<u8>)
    ensures
        #[trigger] take_str(s) matches Ok((_, r)) ==> behind(r, s, 4),
{
    reveal(take_str);
    lemma_behind_take_u32_le(s);
    if let Ok((n, s1)) = take_u32_le(s) {
        lemma_behind_take_text(s1, n as nat);
        if let Ok((_, r)) = take_text(s1, n as nat) {
            lemma_behind_trans(r, s1, s, 0, 4);
        }
    }
}

/// The steps of this module, each leaving what stood behind the bytes that it took.
pub broadcast group group_behind {
    lemma_behind_take_u8,
    lemma_behind_take_u16_le,
    lemma_behind_take_u16_be,
    lemma_behind_take_u32_le,
    lemma_behind_take_u64_le,
    lemma_behind_take_u128_be,
    lemma_behind_take_i16_le,
    lemma_behind_take_i32_le,
    lemma_behind_take_bytes,
    lemma_behind_take_text,
    lemma_behind_take_blob,
    lemma_behind_take_str,
}

/// The steps of this module, each undoing the bytes of its value.
pub broadcast group group_take {
    lemma_len_u16_le_bytes,
    lemma_len_u16_be_bytes,
    lemma_len_u32_le_bytes,
    lemma_len_u32_be_bytes,
    lemma_len_u64_le_bytes,
    lemma_len_u64_be_bytes,
    lemma_len_u128_be_bytes,
    lemma_len_i16_le_bytes,
    lemma_len_i32_le_bytes,
    lemma_take_u8,
    lemma_take_u16_le,
    lemma_take_u16_be,
    lemma_take_u32_le,
    lemma_take_u64_le,
    lemma_take_u128_be,
    lemma_take_i16_le,
    lemma_take_i32_le,
    lemma_take_bytes,
}

} // verus!
