//! The network endpoint of a peer: eight bytes of hint and nonce, and behind them a slot
//! of 128 bytes that holds the family, the port and the address as a socket address does,
//! both in network byte order, and zeros to its end.

use vstd::prelude::*;
use crate::bytes::{be_u16, le_u32, le_u8, put_u16_be, put_u32_le, put_u8, put_zeros, take};
use crate::error::{SerialError, WireField};
use crate::primitive::{CephPrimitive, RoundTrip};
use crate::wire::{behind, decoded, group_behind, group_take, lemma_behind_trans};
use crate::wire::lemma_concat_assoc;
use crate::wire::{lemma_concat_middle, lemma_take_bytes, rest, value};
use crate::wire::{zeros, Taken};
use crate::wire::{take_bytes, take_u16_be, take_u32_le, take_u8, u16_be, u16_be_bytes};
use crate::wire::u32_le_bytes;

verus! {

/// The family of an IPv4 address.
pub const FAMILY_IPV4: u16 = 2;

/// The family of an IPv6 address.
pub const FAMILY_IPV6: u16 = 10;

/// The family written where no address is held.
pub const FAMILY_NONE: u16 = 0;

/// An IPv4 address: its four bytes, the first one first.
#[derive(Debug, Clone, Copy, PartialEq, Eq)]
pub struct Ipv4Address {
    pub a: u8,
    pub b: u8,
    pub c: u8,
    pub d: u8,
}

/// An IPv6 address: its eight groups, the first one first.
#[derive(Debug, Clone, Copy, PartialEq, Eq)]
pub struct Ipv6Address {
    pub a: u16,
    pub b: u16,
    pub c: u16,
    pub d: u16,
    pub e: u16,
    pub f: u16,
    pub g: u16,
    pub h: u16,
}

impl Ipv4Address {
    pub fn new(a: u8, b: u8, c: u8, d: u8) -> (ip: Ipv4Address)
        ensures
            ip == (Ipv4Address { a, b, c, d }),
    {
        Ipv4Address { a, b, c, d }
    }
}

impl Ipv6Address {
    pub fn new(a: u16, b: u16, c: u16, d: u16, e: u16, f: u16, g: u16, h: u16) -> (ip: Ipv6Address)
        ensures
            ip == (Ipv6Address { a, b, c, d, e, f, g, h }),
    {
        Ipv6Address { a, b, c, d, e, f, g, h }
    }
}

impl View for Ipv4Address {
    type V = Ipv4Address;

    open spec fn view(&self) -> Ipv4Address {
        *self
    }
}

impl View for Ipv6Address {
    type V = Ipv6Address;

    open spec fn view(&self) -> Ipv6Address {
        *self
    }
}

/// The address of an endpoint.
#[allow(non_camel_case_types)]
#[derive(Debug, Clone, Copy, PartialEq, Eq)]
pub enum Addr {
    v4addr(Ipv4Address),
    v6addr(Ipv6Address),
}

/// The endpoint of a peer. A decoded endpoint always holds an address.
#[derive(Debug, Clone, Copy, PartialEq, Eq)]
pub struct EntityAddr {
    pub port: u16,
    pub nonce: u32,
    pub addr: Option<Addr>,
}

impl View for EntityAddr {
    type V = EntityAddr;

    open spec fn view(&self) -> EntityAddr {
        *self
    }
}

/// The four bytes of an IPv4 address.
#[verifier::opaque]
pub open spec fn take_ipv4(s: Seq<u8>) -> Taken<Ipv4Address> {
    if s.len() < 4 {
        Err(SerialError::Incomplete)
    } else {
        Ok((Ipv4Address { a: s[0], b: s[1], c: s[2], d: s[3] }, s.skip(4)))
    }
}

/// The eight groups of an IPv6 address, each of two bytes, big-endian.
#[verifier::opaque]
pub open spec fn take_ipv6(s: Seq<u8>) -> Taken<Ipv6Address> {
    if s.len() < 16 {
        Err(SerialError::Incomplete)
    } else {
        Ok(
            (
                Ipv6Address {
                    a: u16_be(s),
                    b: u16_be(s.skip(2)),
                    c: u16_be(s.skip(4)),
                    d: u16_be(s.skip(6)),
                    e: u16_be(s.skip(8)),
                    f: u16_be(s.skip(10)),
                    g: u16_be(s.skip(12)),
                    h: u16_be(s.skip(14)),
                },
                s.skip(16),
            ),
        )
    }
}

pub open spec fn ipv4_bytes(ip: Ipv4Address) -> Seq<u8> {
    seq![ip.a, ip.b, ip.c, ip.d]
}

pub open spec fn ipv6_bytes(ip: Ipv6Address) -> Seq<u8> {
    u16_be_bytes(ip.a) + u16_be_bytes(ip.b) + u16_be_bytes(ip.c) + u16_be_bytes(ip.d)
        + u16_be_bytes(ip.e) + u16_be_bytes(ip.f) + u16_be_bytes(ip.g) + u16_be_bytes(ip.h)
}

/// An IPv4 address and the 120 bytes that fill its slot.
#[verifier::opaque]
pub open spec fn take_ipv4_slot(s: Seq<u8>) -> Taken<Ipv4Address> {
    match take_ipv4(s) {
        Err(e) => Err(e),
        Ok((ip, s1)) => match take_bytes(s1, 120) {
            Err(e) => Err(e),
            Ok((_, s2)) => Ok((ip, s2)),
        },
    }
}

/// An IPv6 address and the 108 bytes that fill its slot.
#[verifier::opaque]
pub open spec fn take_ipv6_slot(s: Seq<u8>) -> Taken<Ipv6Address> {
    match take_ipv6(s) {
        Err(e) => Err(e),
        Ok((ip, s1)) => match take_bytes(s1, 108) {
            Err(e) => Err(e),
            Ok((_, s2)) => Ok((ip, s2)),
        },
    }
}

/// What stands in the slot behind family and port, by the family.
pub open spec fn take_addr(family: u16, s: Seq<u8>) -> Taken<Addr> {
    if family == FAMILY_IPV4 {
        match take_ipv4_slot(s) {
            Err(e) => Err(e),
            Ok((ip, s1)) => Ok((Addr::v4addr(ip), s1)),
        }
    } else if family == FAMILY_IPV6 {
        match take_ipv6_slot(s) {
            Err(e) => Err(e),
            Ok((ip, s1)) => Ok((Addr::v6addr(ip), s1)),
        }
    } else {
        Err(SerialError::InvalidEnumValue { field: WireField::AddressFamily, code: family as u64 })
    }
}

/// The family that stands for an address.
pub open spec fn family_of(addr: Option<Addr>) -> u16 {
    match addr {
        Some(Addr::v4addr(_)) => FAMILY_IPV4,
        Some(Addr::v6addr(_)) => FAMILY_IPV6,
        None => FAMILY_NONE,
    }
}

/// The 124 bytes behind family and port: the address, and zeros to the end of the slot.
pub open spec fn addr_bytes(addr: Option<Addr>) -> Seq<u8> {
    match addr {
        Some(Addr::v4addr(ip)) => ipv4_bytes(ip) + zeros(120),
        Some(Addr::v6addr(ip)) => ipv6_bytes(ip) + zeros(108),
        None => zeros(124),
    }
}

pub proof fn lemma_take_ipv4(ip: Ipv4Address, tail: Seq<u8>)
    ensures
        take_ipv4(ipv4_bytes(ip) + tail) == Ok::<(Ipv4Address, Seq<u8>), SerialError>((ip, tail)),
{
    reveal(take_ipv4);
    assert((ipv4_bytes(ip) + tail).skip(4) =~= tail);
}

pub proof fn lemma_take_ipv6(ip: Ipv6Address, tail: Seq<u8>)
    ensures
        take_ipv6(ipv6_bytes(ip) + tail) == Ok::<(Ipv6Address, Seq<u8>), SerialError>((ip, tail)),
{
    reveal(take_ipv6);
    reveal(u16_be_bytes);
    let s = ipv6_bytes(ip) + tail;
    assert(s.skip(16) =~= tail);
    assert(s.len() >= 16);
    assert(u16_be(s) == ip.a);
    assert(u16_be(s.skip(2)) == ip.b);
    assert(u16_be(s.skip(4)) == ip.c);
    assert(u16_be(s.skip(6)) == ip.d);
    assert(u16_be(s.skip(8)) == ip.e);
    assert(u16_be(s.skip(10)) == ip.f);
    assert(u16_be(s.skip(12)) == ip.g);
    assert(u16_be(s.skip(14)) == ip.h);
}

pub proof fn lemma_take_addr(addr: Addr, tail: Seq<u8>)
    ensures
        take_addr(family_of(Some(addr)), addr_bytes(Some(addr)) + tail) == Ok::<
            (Addr, Seq<u8>),
            SerialError,
        >((addr, tail)),
{
    reveal(take_ipv4_slot);
    reveal(take_ipv6_slot);
    match addr {
        Addr::v4addr(ip) => {
            lemma_concat_assoc(ipv4_bytes(ip), zeros(120), tail);
            lemma_take_ipv4(ip, zeros(120) + tail);
            lemma_take_bytes(zeros(120), tail);
        },
        Addr::v6addr(ip) => {
            lemma_concat_assoc(ipv6_bytes(ip), zeros(108), tail);
            lemma_take_ipv6(ip, zeros(108) + tail);
            lemma_take_bytes(zeros(108), tail);
        },
    }
}

/// The four bytes of an IPv4 address.
pub fn read_v4ip<'a>(input: &'a [u8]) -> (r: Result<(Ipv4Address, &'a [u8]), SerialError>)
    ensures
        decoded(r) == take_ipv4(input@),
{
    proof {
        reveal(take_ipv4);
        reveal(take_u8);
    }
    let (a, rest1) = le_u8(input)?;
    let (b, rest2) = le_u8(rest1)?;
    let (c, rest3) = le_u8(rest2)?;
    let (d, rest) = le_u8(rest3)?;
    assert(rest@ =~= input@.skip(4));
    Ok((Ipv4Address::new(a, b, c, d), rest))
}

/// The eight groups of an IPv6 address.
pub fn read_v6ip<'a>(input: &'a [u8]) -> (r: Result<(Ipv6Address, &'a [u8]), SerialError>)
    ensures
        decoded(r) == take_ipv6(input@),
{
    proof {
        reveal(take_ipv6);
        reveal(take_u16_be);
    }
    let (a, rest1) = be_u16(input)?;
    let (b, rest2) = be_u16(rest1)?;
    let (c, rest3) = be_u16(rest2)?;
    let (d, rest4) = be_u16(rest3)?;
    let (e, rest5) = be_u16(rest4)?;
    let (f, rest6) = be_u16(rest5)?;
    let (g, rest7) = be_u16(rest6)?;
    let (h, rest) = be_u16(rest7)?;
    proof {
        assert(rest2@ =~= input@.skip(4));
        assert(rest3@ =~= input@.skip(6));
        assert(rest4@ =~= input@.skip(8));
        assert(rest5@ =~= input@.skip(10));
        assert(rest6@ =~= input@.skip(12));
        assert(rest7@ =~= input@.skip(14));
        assert(rest@ =~= input@.skip(16));
    }
    Ok((Ipv6Address::new(a, b, c, d, e, f, g, h), rest))
}

/// An IPv4 address and the 120 bytes that fill its slot.
pub fn parse_ipv4<'a>(input: &'a [u8]) -> (r: Result<(Ipv4Address, &'a [u8]), SerialError>)
    ensures
        decoded(r) == take_ipv4_slot(input@),
{
    proof {
        reveal(take_ipv4_slot);
    }
    let (ip, rest) = read_v4ip(input)?;
    let (_, rest) = take(rest, 120)?;
    Ok((ip, rest))
}

/// An IPv6 address and the 108 bytes that fill its slot.
pub fn parse_ipv6<'a>(input: &'a [u8]) -> (r: Result<(Ipv6Address, &'a [u8]), SerialError>)
    ensures
        decoded(r) == take_ipv6_slot(input@),
{
    proof {
        reveal(take_ipv6_slot);
    }
    let (ip, rest) = read_v6ip(input)?;
    let (_, rest) = take(rest, 108)?;
    Ok((ip, rest))
}

pub fn put_ipv4(buf: &mut Vec<u8>, ip: Ipv4Address)
    ensures
        final(buf)@ == old(buf)@ + ipv4_bytes(ip),
{
    put_u8(buf, ip.a);
    put_u8(buf, ip.b);
    put_u8(buf, ip.c);
    put_u8(buf, ip.d);
    assert(buf@ =~= old(buf)@ + ipv4_bytes(ip));
}

pub fn put_ipv6(buf: &mut Vec<u8>, ip: Ipv6Address)
    ensures
        final(buf)@ == old(buf)@ + ipv6_bytes(ip),
{
    put_u16_be(buf, ip.a);
    put_u16_be(buf, ip.b);
    put_u16_be(buf, ip.c);
    put_u16_be(buf, ip.d);
    put_u16_be(buf, ip.e);
    put_u16_be(buf, ip.f);
    put_u16_be(buf, ip.g);
    put_u16_be(buf, ip.h);
    assert(buf@ =~= old(buf)@ + ipv6_bytes(ip));
}

impl<'a> CephPrimitive<'a> for EntityAddr {
    open spec fn min_size() -> nat {
        136
    }

    open spec fn spec_read(input: Seq<u8>) -> Taken<EntityAddr> {
        if input.len() < 136 {
            Err(SerialError::Incomplete)
        } else {
            match take_u32_le(input) {
                Err(e) => Err(e),
                Ok((_, s1)) => match take_u32_le(s1) {
                    Err(e) => Err(e),
                    Ok((nonce, s2)) => match take_u16_be(s2) {
                        Err(e) => Err(e),
                        Ok((family, s3)) => match take_u16_be(s3) {
                            Err(e) => Err(e),
                            Ok((port, s4)) => match take_addr(family, s4) {
                                Err(e) => Err(e),
                                Ok((addr, s5)) => Ok(
                                    (EntityAddr { port, nonce, addr: Some(addr) }, s5),
                                ),
                            },
                        },
                    },
                },
            }
        }
    }

    open spec fn spec_write(v: EntityAddr) -> Seq<u8> {
        u32_le_bytes(0) + u32_le_bytes(v.nonce) + u16_be_bytes(family_of(v.addr)) + u16_be_bytes(
            v.port,
        ) + addr_bytes(v.addr)
    }

    proof fn law_short_input(input: Seq<u8>) {
    }

    proof fn law_consumes(input: Seq<u8>) {
        broadcast use group_behind;

        reveal(take_ipv4);
        reveal(take_ipv6);
        reveal(take_ipv4_slot);
        reveal(take_ipv6_slot);
        let hint = take_u32_le(input);
        let nonce = take_u32_le(rest(hint));
        let family = take_u16_be(rest(nonce));
        let port = take_u16_be(rest(family));
        let addr = take_addr(value(family), rest(port));
        if Self::spec_read(input) is Ok {
            lemma_behind_trans(rest(nonce), rest(hint), input, 4, 4);
            lemma_behind_trans(rest(family), rest(nonce), input, 2, 8);
            lemma_behind_trans(rest(port), rest(family), input, 2, 10);
            assert(behind(rest(addr), rest(port), 124)) by {
                reveal(take_bytes);
                let s = rest(port);
                if value(family) == FAMILY_IPV4 {
                    assert(rest(addr) == s.skip(4).skip(120));
                    assert(s.skip(4).skip(120) =~= s.skip(124));
                } else {
                    assert(rest(addr) == s.skip(16).skip(108));
                    assert(s.skip(16).skip(108) =~= s.skip(124));
                }
                assert(s.skip(124) =~= s.skip(s.len() - rest(addr).len()));
            }
            lemma_behind_trans(rest(addr), rest(port), input, 124, 12);
        }
    }

    proof fn law_size(v: EntityAddr) {
        broadcast use group_take;
    }

    fn read_from_wire(input: &'a [u8]) -> (r: Result<(Self, &'a [u8]), SerialError>) {
        if input.len() < 136 {
            return Err(SerialError::Incomplete);
        }
        let (_, rest) = le_u32(input)?;
        let (nonce, rest) = le_u32(rest)?;
        let (family, rest) = be_u16(rest)?;
        let (port, rest) = be_u16(rest)?;
        if family == FAMILY_IPV4 {
            let (ip, rest) = parse_ipv4(rest)?;
            Ok((EntityAddr { port, nonce, addr: Some(Addr::v4addr(ip)) }, rest))
        } else if family == FAMILY_IPV6 {
            let (ip, rest) = parse_ipv6(rest)?;
            Ok((EntityAddr { port, nonce, addr: Some(Addr::v6addr(ip)) }, rest))
        } else {
            Err(
                SerialError::InvalidEnumValue {
                    field: WireField::AddressFamily,
                    code: family as u64,
                },
            )
        }
    }

    fn write_to_wire(&self) -> (r: Result<Vec<u8>, SerialError>) {
        let mut buffer: Vec<u8> = Vec::new();
        put_u32_le(&mut buffer, 0);
        put_u32_le(&mut buffer, self.nonce);
        match self.addr {
            Some(Addr::v4addr(ip)) => {
                put_u16_be(&mut buffer, FAMILY_IPV4);
                put_u16_be(&mut buffer, self.port);
                let ghost head = buffer@;
                put_ipv4(&mut buffer, ip);
                put_zeros(&mut buffer, 120);
                proof {
                    lemma_concat_assoc(head, ipv4_bytes(ip), zeros(120));
                }
            },
            Some(Addr::v6addr(ip)) => {
                put_u16_be(&mut buffer, FAMILY_IPV6);
                put_u16_be(&mut buffer, self.port);
                let ghost head = buffer@;
                put_ipv6(&mut buffer, ip);
                put_zeros(&mut buffer, 108);
                proof {
                    lemma_concat_assoc(head, ipv6_bytes(ip), zeros(108));
                }
            },
            None => {
                put_u16_be(&mut buffer, FAMILY_NONE);
                put_u16_be(&mut buffer, self.port);
                put_zeros(&mut buffer, 124);
            },
        }
        assert(buffer@ =~= Self::spec_write(self@));
        Ok(buffer)
    }
}

impl<'a> RoundTrip<'a> for EntityAddr {
    open spec fn valid(v: EntityAddr) -> bool {
        v.addr is Some
    }

    proof fn law_round_trip(v: EntityAddr, tail: Seq<u8>) {
        broadcast use group_take;

        let t4 = addr_bytes(v.addr) + tail;
        let t3 = u16_be_bytes(v.port) + t4;
        let t2 = u16_be_bytes(family_of(v.addr)) + t3;
        let t1 = u32_le_bytes(v.nonce) + t2;
        let p2 = u32_le_bytes(0) + u32_le_bytes(v.nonce);
        let p3 = p2 + u16_be_bytes(family_of(v.addr));
        let p4 = p3 + u16_be_bytes(v.port);
        lemma_concat_assoc(p4, addr_bytes(v.addr), tail);
        lemma_concat_assoc(p3, u16_be_bytes(v.port), t4);
        lemma_concat_assoc(p2, u16_be_bytes(family_of(v.addr)), t3);
        lemma_concat_assoc(u32_le_bytes(0), u32_le_bytes(v.nonce), t2);
        lemma_take_addr(v.addr.unwrap(), tail);
    }
}

impl EntityAddr {
    /// The bytes of an IPv4 endpoint: eight bytes of hint and nonce, and a slot of 128
    /// bytes that starts with the family 2 and the port, holds the four bytes of the
    /// address behind them, and ends in 120 zeros.
    pub proof fn law_ipv4_layout(v: EntityAddr)
        requires
            v.addr matches Some(Addr::v4addr(_)),
        ensures
            Self::spec_write(v).len() == 136,
            Self::spec_write(v).skip(8).len() == 128,
            Self::spec_write(v).subrange(8, 10) == seq![0u8, 2u8],
            Self::spec_write(v).subrange(10, 12) == u16_be_bytes(v.port),
            v.addr matches Some(Addr::v4addr(ip)) && Self::spec_write(v).subrange(12, 16)
                == ipv4_bytes(ip),
            Self::spec_write(v).subrange(16, 136) == zeros(120),
    {
        let head = u32_le_bytes(0) + u32_le_bytes(v.nonce);
        let family = u16_be_bytes(FAMILY_IPV4);
        let port = u16_be_bytes(v.port);
        let ip = ipv4_bytes(v.addr->Some_0->v4addr_0);
        let pad = zeros(120);
        broadcast use group_take;

        assert(family =~= seq![0u8, 2u8]) by {
            reveal(u16_be_bytes);
        }
        lemma_concat_assoc(head + family, port, ip + pad);
        lemma_concat_middle(head, family, port + (ip + pad));
        lemma_concat_middle(head + family, port, ip + pad);
        lemma_concat_assoc(head + family + port, ip, pad);
        lemma_concat_middle(head + family + port, ip, pad);
        lemma_concat_middle(head + family + port + ip, pad, Seq::empty());
        assert(head + family + port + ip + pad + Seq::empty() =~= head + family + port + ip + pad);
    }

    /// The bytes of an IPv6 endpoint: eight bytes of hint and nonce, and a slot of 128
    /// bytes that starts with the family 10 and the port, holds the sixteen bytes of the
    /// address behind them, and ends in 108 zeros.
    pub proof fn law_ipv6_layout(v: EntityAddr)
        requires
            v.addr matches Some(Addr::v6addr(_)),
        ensures
            Self::spec_write(v).len() == 136,
            Self::spec_write(v).skip(8).len() == 128,
            Self::spec_write(v).subrange(8, 10) == seq![0u8, 10u8],
            Self::spec_write(v).subrange(10, 12) == u16_be_bytes(v.port),
            v.addr matches Some(Addr::v6addr(ip)) && Self::spec_write(v).subrange(12, 28)
                == ipv6_bytes(ip),
            Self::spec_write(v).subrange(28, 136) == zeros(108),
    {
        let head = u32_le_bytes(0) + u32_le_bytes(v.nonce);
        let family = u16_be_bytes(FAMILY_IPV6);
        let port = u16_be_bytes(v.port);
        let ip = ipv6_bytes(v.addr->Some_0->v6addr_0);
        let pad = zeros(108);
        broadcast use group_take;

        assert(family =~= seq![0u8, 10u8]) by {
            reveal(u16_be_bytes);
        }
        lemma_concat_assoc(head + family, port, ip + pad);
        lemma_concat_middle(head, family, port + (ip + pad));
        lemma_concat_middle(head + family, port, ip + pad);
        lemma_concat_assoc(head + family + port, ip, pad);
        lemma_concat_middle(head + family + port, ip, pad);
        lemma_concat_middle(head + family + port + ip, pad, Seq::empty());
        assert(head + family + port + ip + pad + Seq::empty() =~= head + family + port + ip + pad);
    }
}

} // verus!
