//! The dissector: what one captured buffer holds, told by its first byte. A buffer is
//! taken by itself, with nothing remembered of the buffers before it.

use vstd::prelude::*;
use vstd::slice::slice_subrange;
use vstd::utf8::{decode_utf8, valid_utf8};
use crate::addr::EntityAddr;
use crate::bytes::take_as_str;
use crate::enums::CephMsg;
use crate::envelope::{CephMsgrMsg, CephMsgrMsgView};
use crate::error::{SerialError, WireField};
use crate::handshake::{CephMsgConnectReply, CephMsgConnectReplyView};
use crate::handshake::{CephMsgKeepAlive, CephMsgKeepAlive2, CephMsgKeepAlive2Ack, CephMsgTagAck};
use crate::header::CephMsgHeader;
use crate::primitive::CephPrimitive;
use crate::wire::{decoded, take_text};

verus! {

/// The first byte of a banner: the ASCII question mark.
pub const BANNER_TAG: u8 = 63;

/// The bytes of the token behind the first byte of a banner.
pub const BANNER_LEN: usize = 8;

/// A part of the wire format that a failure can be laid to.
#[derive(Debug, Clone, Copy, PartialEq, Eq, Structural)]
pub enum Structure {
    Tag,
    Banner,
    Address,
    ConnectReply,
    Ack,
    KeepAlive,
    KeepAlive2,
    KeepAlive2Ack,
    Envelope,
    Header,
    Front,
}

/// A failure of the dissector: what went wrong, in which structure, and at which byte of
/// the buffer that structure starts.
#[derive(Debug, PartialEq, Eq)]
pub struct DissectError {
    pub structure: Structure,
    pub offset: usize,
    pub error: SerialError,
}

/// What a buffer holds.
#[derive(Debug, PartialEq, Eq)]
pub enum Dissected<'a> {
    /// The token of a banner, as text.
    Banner(&'a str),
    /// An endpoint, where a buffer that starts with a zero byte holds one.
    Address(EntityAddr),
    ConnectReply(CephMsgConnectReply),
    Ack(CephMsgTagAck),
    KeepAlive(CephMsgKeepAlive),
    KeepAlive2(CephMsgKeepAlive2),
    KeepAlive2Ack(CephMsgKeepAlive2Ack),
    /// A message in its envelope.
    Envelope(CephMsgrMsg<'a>),
    /// A tag that nothing is decoded behind.
    Tag(CephMsg),
}

/// A value of `Dissected` as mathematics.
pub enum DissectedView {
    Banner(Seq<char>),
    Address(EntityAddr),
    ConnectReply(CephMsgConnectReplyView),
    Ack(CephMsgTagAck),
    KeepAlive(CephMsgKeepAlive),
    KeepAlive2(CephMsgKeepAlive2),
    KeepAlive2Ack(CephMsgKeepAlive2Ack),
    Envelope(CephMsgrMsgView),
    Tag(CephMsg),
}

impl<'a> View for Dissected<'a> {
    type V = DissectedView;

    open spec fn view(&self) -> DissectedView {
        match self {
            Dissected::Banner(text) => DissectedView::Banner(text@),
            Dissected::Address(addr) => DissectedView::Address(*addr),
            Dissected::ConnectReply(reply) => DissectedView::ConnectReply(reply@),
            Dissected::Ack(ack) => DissectedView::Ack(*ack),
            Dissected::KeepAlive(keep) => DissectedView::KeepAlive(*keep),
            Dissected::KeepAlive2(keep) => DissectedView::KeepAlive2(*keep),
            Dissected::KeepAlive2Ack(keep) => DissectedView::KeepAlive2Ack(*keep),
            Dissected::Envelope(msg) => DissectedView::Envelope(msg@),
            Dissected::Tag(tag) => DissectedView::Tag(*tag),
        }
    }
}

/// What the dissector makes of a buffer: what it holds and the bytes behind that, or the
/// failure.
pub type Found = Result<(DissectedView, Seq<u8>), DissectError>;

/// The failure of a structure that starts at the given byte.
pub open spec fn failure(structure: Structure, offset: usize, error: SerialError) -> DissectError {
    DissectError { structure, offset, error }
}

/// Where an envelope that cannot be decoded fails: in the envelope as a whole where the
/// buffer is shorter than tag and header, in the header where that cannot be decoded,
/// and in the front segment else.
pub open spec fn envelope_site(input: Seq<u8>) -> (Structure, usize) {
    if input.len() < 54 {
        (Structure::Envelope, 0)
    } else if CephMsgHeader::spec_read(input.skip(1)) is Err {
        (Structure::Header, 1)
    } else {
        (Structure::Front, 54)
    }
}

/// What a buffer holds whose first byte is the given tag.
pub open spec fn dissect_tagged(tag: CephMsg, input: Seq<u8>) -> Found {
    match tag {
        CephMsg::Msg => match CephMsgrMsg::spec_read(input) {
            Ok((msg, rest)) => Ok((DissectedView::Envelope(msg), rest)),
            Err(e) => Err(failure(envelope_site(input).0, envelope_site(input).1, e)),
        },
        CephMsg::Ack => match CephMsgTagAck::spec_read(input) {
            Ok((ack, rest)) => Ok((DissectedView::Ack(ack), rest)),
            Err(e) => Err(failure(Structure::Ack, 0, e)),
        },
        CephMsg::KeepAlive => match CephMsgKeepAlive::spec_read(input) {
            Ok((keep, rest)) => Ok((DissectedView::KeepAlive(keep), rest)),
            Err(e) => Err(failure(Structure::KeepAlive, 0, e)),
        },
        CephMsg::KeepAlive2 => match CephMsgKeepAlive2::spec_read(input) {
            Ok((keep, rest)) => Ok((DissectedView::KeepAlive2(keep), rest)),
            Err(e) => Err(failure(Structure::KeepAlive2, 0, e)),
        },
        CephMsg::KeepAlive2Ack => match CephMsgKeepAlive2Ack::spec_read(input) {
            Ok((keep, rest)) => Ok((DissectedView::KeepAlive2Ack(keep), rest)),
            Err(e) => Err(failure(Structure::KeepAlive2Ack, 0, e)),
        },
        CephMsg::Close | CephMsg::Sequence | CephMsg::Unknown => Ok(
            (DissectedView::Tag(tag), input.skip(1)),
        ),
        _ => match CephMsgConnectReply::spec_read(input) {
            Ok((reply, rest)) => Ok((DissectedView::ConnectReply(reply), rest)),
            Err(e) => Err(failure(Structure::ConnectReply, 0, e)),
        },
    }
}

/// What a buffer holds. The first byte decides: the question mark announces a banner, a
/// zero byte may be the start of an endpoint, and any other byte is a control tag. The
/// byte is never read as the type of a message.
pub open spec fn dissect(input: Seq<u8>) -> Found {
    if input.len() == 0 {
        Err(failure(Structure::Tag, 0, SerialError::Incomplete))
    } else if input[0] == BANNER_TAG {
        match take_text(input.skip(1), BANNER_LEN as nat) {
            Ok((text, rest)) => Ok((DissectedView::Banner(text), rest)),
            Err(e) => Err(failure(Structure::Banner, 0, e)),
        }
    } else if input[0] == 0 {
        match EntityAddr::spec_read(input) {
            Ok((addr, rest)) => Ok((DissectedView::Address(addr), rest)),
            Err(e) => Err(failure(Structure::Address, 0, e)),
        }
    } else {
        match CephMsg::spec_from_code(input[0] as int) {
            Some(tag) => dissect_tagged(tag, input),
            None => Err(
                failure(
                    Structure::Tag,
                    0,
                    SerialError::InvalidEnumValue { field: WireField::Tag, code: input[0] as u64 },
                ),
            ),
        }
    }
}

/// The token of a banner, from the bytes behind its first byte.
pub fn check_for_connect<'a>(input: &'a [u8]) -> (r: Result<(&'a str, &'a [u8]), SerialError>)
    ensures
        decoded(r) == take_text(input@, BANNER_LEN as nat),
{
    take_as_str(input, BANNER_LEN)
}

/// The endpoint that a buffer may start with.
pub fn dissect_new<'a>(input: &'a [u8]) -> (r: Result<(EntityAddr, &'a [u8]), SerialError>)
    ensures
        decoded(r) == EntityAddr::spec_read(input@),
{
    EntityAddr::read_from_wire(input)
}

/// Where an envelope that could not be decoded fails.
fn envelope_failure(input: &[u8], error: SerialError) -> (r: DissectError)
    ensures
        r == failure(envelope_site(input@).0, envelope_site(input@).1, error),
{
    if input.len() < 54 {
        DissectError { structure: Structure::Envelope, offset: 0, error }
    } else {
        match CephMsgHeader::read_from_wire(slice_subrange(input, 1, input.len())) {
            Err(_) => DissectError { structure: Structure::Header, offset: 1, error },
            Ok(_) => DissectError { structure: Structure::Front, offset: 54, error },
        }
    }
}

/// Tells what one captured buffer holds, and hands back the bytes behind it.
pub fn dissect_msgr<'a>(input: &'a [u8]) -> (r: Result<(Dissected<'a>, &'a [u8]), DissectError>)
    ensures
        match r {
            Ok((found, rest)) => dissect(input@) == Ok::<(DissectedView, Seq<u8>), DissectError>(
                (found@, rest@),
            ),
            Err(e) => dissect(input@) == Err::<(DissectedView, Seq<u8>), DissectError>(e),
        },
{
    if input.len() == 0 {
        return Err(
            DissectError { structure: Structure::Tag, offset: 0, error: SerialError::Incomplete },
        );
    }
    let first = input[0];
    if first == BANNER_TAG {
        return match check_for_connect(slice_subrange(input, 1, input.len())) {
            Ok((text, rest)) => Ok((Dissected::Banner(text), rest)),
            Err(error) => Err(DissectError { structure: Structure::Banner, offset: 0, error }),
        };
    }
    if first == 0 {
        return match dissect_new(input) {
            Ok((addr, rest)) => Ok((Dissected::Address(addr), rest)),
            Err(error) => Err(DissectError { structure: Structure::Address, offset: 0, error }),
        };
    }
    let tag = match CephMsg::from_u8(first) {
        Some(tag) => tag,
        None => {
            return Err(
                DissectError {
                    structure: Structure::Tag,
                    offset: 0,
                    error: SerialError::InvalidEnumValue {
                        field: WireField::Tag,
                        code: first as u64,
                    },
                },
            );
        },
    };
    match tag {
        CephMsg::Msg => match CephMsgrMsg::read_from_wire(input) {
            Ok((msg, rest)) => Ok((Dissected::Envelope(msg), rest)),
            Err(error) => Err(envelope_failure(input, error)),
        },
        CephMsg::Ack => match CephMsgTagAck::read_from_wire(input) {
            Ok((ack, rest)) => Ok((Dissected::Ack(ack), rest)),
            Err(error) => Err(DissectError { structure: Structure::Ack, offset: 0, error }),
        },
        CephMsg::KeepAlive => match CephMsgKeepAlive::read_from_wire(input) {
            Ok((keep, rest)) => Ok((Dissected::KeepAlive(keep), rest)),
            Err(error) => Err(DissectError { structure: Structure::KeepAlive, offset: 0, error }),
        },
        CephMsg::KeepAlive2 => match CephMsgKeepAlive2::read_from_wire(input) {
            Ok((keep, rest)) => Ok((Dissected::KeepAlive2(keep), rest)),
            Err(error) => Err(DissectError { structure: Structure::KeepAlive2, offset: 0, error }),
        },
        CephMsg::KeepAlive2Ack => match CephMsgKeepAlive2Ack::read_from_wire(input) {
            Ok((keep, rest)) => Ok((Dissected::KeepAlive2Ack(keep), rest)),
            Err(error) => Err(
                DissectError { structure: Structure::KeepAlive2Ack, offset: 0, error },
            ),
        },
        CephMsg::Close | CephMsg::Sequence | CephMsg::Unknown => Ok(
            (Dissected::Tag(tag), slice_subrange(input, 1, input.len())),
        ),
        _ => match CephMsgConnectReply::read_from_wire(input) {
            Ok((reply, rest)) => Ok((Dissected::ConnectReply(reply), rest)),
            Err(error) => Err(
                DissectError { structure: Structure::ConnectReply, offset: 0, error },
            ),
        },
    }
}

/// A buffer of the question mark and eight bytes of text holds a banner with that text,
/// and the dissector takes exactly these nine bytes.
pub proof fn law_banner(input: Seq<u8>)
    requires
        input.len() >= 9,
        input[0] == BANNER_TAG,
        valid_utf8(input.subrange(1, 9)),
    ensures
        dissect(input) == Ok::<(DissectedView, Seq<u8>), DissectError>(
            (DissectedView::Banner(decode_utf8(input.subrange(1, 9))), input.skip(9)),
        ),
{
    reveal(take_text);
    assert(input.skip(1).take(8) =~= input.subrange(1, 9));
    assert(input.skip(1).skip(8) =~= input.skip(9));
}

} // verus!
