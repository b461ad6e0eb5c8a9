//! The headers in front of the protocol in a captured frame: where the addresses and the
//! ports of the two peers stand, and where the bytes of the protocol begin. The frame is
//! taken to have headers of the usual length.

use vstd::prelude::*;
use vstd::slice::slice_subrange;
use crate::addr::{read_v4ip, read_v6ip, take_ipv4, take_ipv6, Ipv4Address, Ipv6Address};
use crate::bytes::{be_u16, take};
use crate::error::{SerialError, WireField};
use crate::wire::{decoded, take_bytes, take_u16_be, Taken};

verus! {

/// The ether type of a frame that carries IPv4.
pub const ETHERTYPE_IPV4: u16 = 0x0800;

/// The ether type of a frame that carries IPv6.
pub const ETHERTYPE_IPV6: u16 = 0x86DD;

/// The two ends of the connection that a captured frame belongs to.
#[derive(Debug, Clone, Copy, PartialEq, Eq)]
pub struct PacketHeader {
    pub src_port: u16,
    pub dst_port: u16,
    pub src_v4addr: Option<Ipv4Address>,
    pub dst_v4addr: Option<Ipv4Address>,
    pub src_v6addr: Option<Ipv6Address>,
    pub dst_v6addr: Option<Ipv6Address>,
}

impl View for PacketHeader {
    type V = PacketHeader;

    open spec fn view(&self) -> PacketHeader {
        *self
    }
}

/// What stands behind the first `n` bytes, and nothing where there are fewer.
pub open spec fn skip_up_to(s: Seq<u8>, n: nat) -> Seq<u8> {
    if s.len() >= n {
        s.skip(n as int)
    } else {
        Seq::empty()
    }
}

/// The ends of an IPv4 connection, from the bytes behind the ether type: twelve bytes of
/// the IP header, the two addresses, the two ports, and 28 bytes to the payload.
pub open spec fn frame_v4(s: Seq<u8>) -> Taken<PacketHeader> {
    match take_bytes(s, 12) {
        Err(e) => Err(e),
        Ok((_, s1)) => match take_ipv4(s1) {
            Err(e) => Err(e),
            Ok((src, s2)) => match take_ipv4(s2) {
                Err(e) => Err(e),
                Ok((dst, s3)) => match take_u16_be(s3) {
                    Err(e) => Err(e),
                    Ok((src_port, s4)) => match take_u16_be(s4) {
                        Err(e) => Err(e),
                        Ok((dst_port, s5)) => Ok(
                            (
                                PacketHeader {
                                    src_port,
                                    dst_port,
                                    src_v4addr: Some(src),
                                    dst_v4addr: Some(dst),
                                    src_v6addr: None,
                                    dst_v6addr: None,
                                },
                                skip_up_to(s5, 28),
                            ),
                        ),
                    },
                },
            },
        },
    }
}

/// The ends of an IPv6 connection, from the bytes behind the ether type: the two
/// addresses, the two ports, and 160 bytes to the payload.
pub open spec fn frame_v6(s: Seq<u8>) -> Taken<PacketHeader> {
    match take_ipv6(s) {
        Err(e) => Err(e),
        Ok((src, s1)) => match take_ipv6(s1) {
            Err(e) => Err(e),
            Ok((dst, s2)) => match take_u16_be(s2) {
                Err(e) => Err(e),
                Ok((src_port, s3)) => match take_u16_be(s3) {
                    Err(e) => Err(e),
                    Ok((dst_port, s4)) => Ok(
                        (
                            PacketHeader {
                                src_port,
                                dst_port,
                                src_v4addr: None,
                                dst_v4addr: None,
                                src_v6addr: Some(src),
                                dst_v6addr: Some(dst),
                            },
                            skip_up_to(s4, 160),
                        ),
                    ),
                },
            },
        },
    }
}

/// The ends of the connection of a frame, and the payload: twelve bytes of hardware
/// addresses, the ether type in two bytes, big-endian, and what the ether type announces.
pub open spec fn frame(input: Seq<u8>) -> Taken<PacketHeader> {
    match take_bytes(input, 12) {
        Err(e) => Err(e),
        Ok((_, s1)) => match take_u16_be(s1) {
            Err(e) => Err(e),
            Ok((ethertype, s2)) => if ethertype == ETHERTYPE_IPV4 {
                frame_v4(s2)
            } else if ethertype == ETHERTYPE_IPV6 {
                frame_v6(s2)
            } else {
                Err(
                    SerialError::InvalidEnumValue {
                        field: WireField::EtherType,
                        code: ethertype as u64,
                    },
                )
            },
        },
    }
}

/// What stands behind the first `n` bytes, and nothing where there are fewer.
pub fn skip_to<'a>(input: &'a [u8], n: usize) -> (r: &'a [u8])
    ensures
        r@ == skip_up_to(input@, n as nat),
{
    if input.len() >= n {
        slice_subrange(input, n, input.len())
    } else {
        let end = slice_subrange(input, input.len(), input.len());
        assert(end@ =~= Seq::<u8>::empty());
        end
    }
}

/// Reads the ends of the connection from a captured frame, and hands back the payload.
pub fn parse_etherframe<'a>(input: &'a [u8]) -> (r: Result<(PacketHeader, &'a [u8]), SerialError>)
    ensures
        decoded(r) == frame(input@),
{
    let (_, rest) = take(input, 12)?;
    let (ethertype, rest) = be_u16(rest)?;
    if ethertype == ETHERTYPE_IPV4 {
        let (_, rest) = take(rest, 12)?;
        let (src_ip, rest) = read_v4ip(rest)?;
        let (dst_ip, rest) = read_v4ip(rest)?;
        let (src_port, rest) = be_u16(rest)?;
        let (dst_port, rest) = be_u16(rest)?;
        Ok(
            (
                PacketHeader {
                    src_port,
                    dst_port,
                    src_v4addr: Some(src_ip),
                    dst_v4addr: Some(dst_ip),
                    src_v6addr: None,
                    dst_v6addr: None,
                },
                skip_to(rest, 28),
            ),
        )
    } else if ethertype == ETHERTYPE_IPV6 {
        let (src_ip, rest) = read_v6ip(rest)?;
        let (dst_ip, rest) = read_v6ip(rest)?;
        let (src_port, rest) = be_u16(rest)?;
        let (dst_port, rest) = be_u16(rest)?;
        Ok(
            (
                PacketHeader {
                    src_port,
                    dst_port,
                    src_v4addr: None,
                    dst_v4addr: None,
                    src_v6addr: Some(src_ip),
                    dst_v6addr: Some(dst_ip),
                },
                skip_to(rest, 160),
            ),
        )
    } else {
        Err(SerialError::InvalidEnumValue { field: WireField::EtherType, code: ethertype as u64 })
    }
}

/// In an IPv4 frame of at least 66 bytes the payload starts at byte 66.
pub proof fn law_v4_payload(input: Seq<u8>)
    requires
        input.len() >= 66,
        input[12] == 0x08,
        input[13] == 0x00,
    ensures
        frame(input) matches Ok((header, payload)) && payload == input.skip(66)
            && header.src_v4addr is Some && header.dst_v4addr is Some,
{
    reveal(take_bytes);
    reveal(take_u16_be);
    reveal(take_ipv4);
    let s1 = input.skip(12);
    let s2 = s1.skip(2);
    let s3 = s2.skip(12);
    let s4 = s3.skip(4);
    let s5 = s4.skip(4);
    let s6 = s5.skip(2);
    let s7 = s6.skip(2);
    assert(s7.skip(28) =~= input.skip(66));
}

} // verus!
