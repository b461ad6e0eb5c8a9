//! What two peers exchange before and between messages: the connect request and its
//! reply, keepalives and acknowledgements.

use vstd::prelude::*;
use crate::bytes::{le_u32, le_u64, le_u8, put_bytes, put_u32_le, put_u64_le, put_u8};
use crate::enums::{auth_protocol_bytes, entity_u32_bytes, protocol_bytes, tag_bytes};
use crate::enums::{parse_protocol, put_auth_protocol, put_entity_u32, put_protocol, put_tag};
use crate::enums::{read_entity_u32, read_protocol, read_tag};
use crate::enums::{take_auth_protocol, take_entity_u32, take_protocol, take_tag};
use crate::enums::{CephAuthProtocol, CephEntity, CephMsg, Protocol};
use crate::error::WireField;
use crate::features::{features_bytes, put_features, read_features, take_features, CephFeatures};
use crate::utime::Utime;
use crate::wire::{take_u32_le, take_u64_le, take_u8, u32_le_bytes, u64_le_bytes};
use crate::error::SerialError;
use crate::primitive::{CephPrimitive, RoundTrip};
use crate::enums::{group_behind_code, group_take_code};
use crate::features::{group_behind_flags, group_take_flags};
use crate::wire::{failed, group_behind, group_take, lemma_behind_trans, lemma_concat_assoc};
use crate::wire::{rest, value, Taken};

verus! {


/// Whether a tag is one of those by which a server answers a connect request.
pub open spec fn is_reply_tag(tag: CephMsg) -> bool {
    tag == CephMsg::Ready || tag == CephMsg::Reset || tag == CephMsg::Wait || tag
        == CephMsg::RetrySession || tag == CephMsg::RetryGlobal || tag
        == CephMsg::BadProtocolVersion || tag == CephMsg::BadAuthorizer || tag
        == CephMsg::InsufficientFeatures
}

/// Whether a tag is one of those by which a server answers a connect request.
pub fn reply_tag(tag: CephMsg) -> (r: bool)
    ensures
        r == is_reply_tag(tag),
{
    match tag {
        CephMsg::Ready
        | CephMsg::Reset
        | CephMsg::Wait
        | CephMsg::RetrySession
        | CephMsg::RetryGlobal
        | CephMsg::BadProtocolVersion
        | CephMsg::BadAuthorizer
        | CephMsg::InsufficientFeatures => true,
        _ => false,
    }
}

/// What a client sends to open a session.
/// The authorizer is written behind the fixed part, and left where it is when that part is read.
#[derive(Debug, PartialEq, Eq)]
pub struct CephMsgConnect {
    /// The capabilities that the client offers.
    pub features: CephFeatures,
    /// The role of the client.
    pub host_type: CephEntity,
    pub global_seq: u32,
    pub connect_seq: u32,
    pub protocol_version: Protocol,
    pub authorizer_protocol: CephAuthProtocol,
    /// The length of the authorizer.
    pub authorizer_len: u32,
    pub flags: u8,
    pub authorizer: Vec<u8>,
}

/// A value of `CephMsgConnect` as mathematics.
pub struct CephMsgConnectView {
    pub features: CephFeatures,
    pub host_type: CephEntity,
    pub global_seq: u32,
    pub connect_seq: u32,
    pub protocol_version: Protocol,
    pub authorizer_protocol: CephAuthProtocol,
    pub authorizer_len: u32,
    pub flags: u8,
    pub authorizer: Seq<u8>,
}

impl View for CephMsgConnect {
    type V = CephMsgConnectView;

    open spec fn view(&self) -> CephMsgConnectView {
        CephMsgConnectView {
            features: self.features,
            host_type: self.host_type,
            global_seq: self.global_seq,
            connect_seq: self.connect_seq,
            protocol_version: self.protocol_version,
            authorizer_protocol: self.authorizer_protocol,
            authorizer_len: self.authorizer_len,
            flags: self.flags,
            authorizer: self.authorizer@,
        }
    }
}

impl<'a> CephPrimitive<'a> for CephMsgConnect {
    open spec fn min_size() -> nat {
        33
    }

    open spec fn spec_read(input: Seq<u8>) -> Taken<CephMsgConnectView> {
        let features = take_features(input);
        let host_type = take_entity_u32(rest(features));
        let global_seq = take_u32_le(rest(host_type));
        let connect_seq = take_u32_le(rest(global_seq));
        let protocol_version = take_protocol(rest(connect_seq));
        let authorizer_protocol = take_auth_protocol(rest(protocol_version));
        let authorizer_len = take_u32_le(rest(authorizer_protocol));
        let flags = take_u8(rest(authorizer_len));
        if input.len() < 33 {
            Err(SerialError::Incomplete)
        } else if features is Err {
            failed(features)
        } else if host_type is Err {
            failed(host_type)
        } else if global_seq is Err {
            failed(global_seq)
        } else if connect_seq is Err {
            failed(connect_seq)
        } else if protocol_version is Err {
            failed(protocol_version)
        } else if authorizer_protocol is Err {
            failed(authorizer_protocol)
        } else if authorizer_len is Err {
            failed(authorizer_len)
        } else if flags is Err {
            failed(flags)
        } else {
            Ok(
                (
                    CephMsgConnectView {
                        features: value(features),
                        host_type: value(host_type),
                        global_seq: value(global_seq),
                        connect_seq: value(connect_seq),
                        protocol_version: value(protocol_version),
                        authorizer_protocol: value(authorizer_protocol),
                        authorizer_len: value(authorizer_len),
                        flags: value(flags),
                        authorizer: Seq::empty(),
                    },
                    rest(flags),
                ),
            )
        }
    }

    open spec fn spec_write(v: CephMsgConnectView) -> Seq<u8> {
        features_bytes(v.features) + entity_u32_bytes(v.host_type) + u32_le_bytes(v.global_seq)
            + u32_le_bytes(v.connect_seq) + protocol_bytes(v.protocol_version)
            + auth_protocol_bytes(v.authorizer_protocol) + u32_le_bytes(v.authorizer_len)
            + seq![v.flags] + v.authorizer
    }

    proof fn law_short_input(input: Seq<u8>) {
    }

    proof fn law_size(v: CephMsgConnectView) {
        broadcast use group_take;
    }

    proof fn law_consumes(input: Seq<u8>) {
        broadcast use group_behind, group_behind_code, group_behind_flags;

        let features = take_features(input);
        let host_type = take_entity_u32(rest(features));
        let global_seq = take_u32_le(rest(host_type));
        let connect_seq = take_u32_le(rest(global_seq));
        let protocol_version = take_protocol(rest(connect_seq));
        let authorizer_protocol = take_auth_protocol(rest(protocol_version));
        let authorizer_len = take_u32_le(rest(authorizer_protocol));
        let flags = take_u8(rest(authorizer_len));
        if Self::spec_read(input) is Ok {
            lemma_behind_trans(rest(host_type), rest(features), input, 4, 8);
            lemma_behind_trans(rest(global_seq), rest(host_type), input, 4, 12);
            lemma_behind_trans(rest(connect_seq), rest(global_seq), input, 4, 16);
            lemma_behind_trans(rest(protocol_version), rest(connect_seq), input, 4, 20);
            lemma_behind_trans(rest(authorizer_protocol), rest(protocol_version), input, 4, 24);
            lemma_behind_trans(rest(authorizer_len), rest(authorizer_protocol), input, 4, 28);
            lemma_behind_trans(rest(flags), rest(authorizer_len), input, 1, 32);
        }
    }

    fn read_from_wire(input: &'a [u8]) -> (r: Result<(Self, &'a [u8]), SerialError>) {
        if input.len() < 33 {
            return Err(SerialError::Incomplete);
        }
        let (features, rest) = read_features(input)?;
        let (host_type, rest) = read_entity_u32(rest)?;
        let (global_seq, rest) = le_u32(rest)?;
        let (connect_seq, rest) = le_u32(rest)?;
        let (protocol_version, rest) = read_protocol(rest)?;
        let (authorizer_protocol, rest) = parse_protocol(rest)?;
        let (authorizer_len, rest) = le_u32(rest)?;
        let (flags, rest) = le_u8(rest)?;
        Ok(
            (
                CephMsgConnect {
                    features,
                    host_type,
                    global_seq,
                    connect_seq,
                    protocol_version,
                    authorizer_protocol,
                    authorizer_len,
                    flags,
                    authorizer: Vec::new(),
                },
                rest,
            ),
        )
    }

    fn write_to_wire(&self) -> (r: Result<Vec<u8>, SerialError>) {
        let mut buffer: Vec<u8> = Vec::new();
        put_features(&mut buffer, self.features);
        put_entity_u32(&mut buffer, self.host_type);
        put_u32_le(&mut buffer, self.global_seq);
        put_u32_le(&mut buffer, self.connect_seq);
        put_protocol(&mut buffer, self.protocol_version);
        put_auth_protocol(&mut buffer, self.authorizer_protocol);
        put_u32_le(&mut buffer, self.authorizer_len);
        put_u8(&mut buffer, self.flags);
        put_bytes(&mut buffer, self.authorizer.as_slice());
        assert(buffer@ =~= Self::spec_write(self@));
        Ok(buffer)
    }
}

impl<'a> RoundTrip<'a> for CephMsgConnect {
    open spec fn valid(v: CephMsgConnectView) -> bool {
        v.authorizer.len() == 0
    }

    proof fn law_round_trip(v: CephMsgConnectView, tail: Seq<u8>) {
        broadcast use group_take, group_take_code, group_take_flags;

        let t8 = v.authorizer + tail;
        let t7 = seq![v.flags] + t8;
        let t6 = u32_le_bytes(v.authorizer_len) + t7;
        let t5 = auth_protocol_bytes(v.authorizer_protocol) + t6;
        let t4 = protocol_bytes(v.protocol_version) + t5;
        let t3 = u32_le_bytes(v.connect_seq) + t4;
        let t2 = u32_le_bytes(v.global_seq) + t3;
        let t1 = entity_u32_bytes(v.host_type) + t2;
        let p2 = features_bytes(v.features) + entity_u32_bytes(v.host_type);
        let p3 = p2 + u32_le_bytes(v.global_seq);
        let p4 = p3 + u32_le_bytes(v.connect_seq);
        let p5 = p4 + protocol_bytes(v.protocol_version);
        let p6 = p5 + auth_protocol_bytes(v.authorizer_protocol);
        let p7 = p6 + u32_le_bytes(v.authorizer_len);
        let p8 = p7 + seq![v.flags];
        lemma_concat_assoc(p8, v.authorizer, tail);
        lemma_concat_assoc(p7, seq![v.flags], t8);
        lemma_concat_assoc(p6, u32_le_bytes(v.authorizer_len), t7);
        lemma_concat_assoc(p5, auth_protocol_bytes(v.authorizer_protocol), t6);
        lemma_concat_assoc(p4, protocol_bytes(v.protocol_version), t5);
        lemma_concat_assoc(p3, u32_le_bytes(v.connect_seq), t4);
        lemma_concat_assoc(p2, u32_le_bytes(v.global_seq), t3);
        lemma_concat_assoc(features_bytes(v.features), entity_u32_bytes(v.host_type), t2);
        assert(v.authorizer =~= Seq::<u8>::empty());
        assert(v.authorizer + tail =~= tail);
    }
}

/// What a server answers to a client that opens a session.
/// The authorizer is written behind the fixed part, and left where it is when that part is read.
#[derive(Debug, PartialEq, Eq)]
pub struct CephMsgConnectReply {
    /// How the server takes the request: one of the tags that answer one.
    pub tag: CephMsg,
    /// The capabilities that the server offers.
    pub features: CephFeatures,
    pub global_seq: u32,
    pub connect_seq: u32,
    pub protocol_version: Protocol,
    /// The length of the authorizer.
    pub authorizer_len: u32,
    pub flags: u8,
    pub authorizer: Vec<u8>,
}

/// A value of `CephMsgConnectReply` as mathematics.
pub struct CephMsgConnectReplyView {
    pub tag: CephMsg,
    pub features: CephFeatures,
    pub global_seq: u32,
    pub connect_seq: u32,
    pub protocol_version: Protocol,
    pub authorizer_len: u32,
    pub flags: u8,
    pub authorizer: Seq<u8>,
}

impl View for CephMsgConnectReply {
    type V = CephMsgConnectReplyView;

    open spec fn view(&self) -> CephMsgConnectReplyView {
        CephMsgConnectReplyView {
            tag: self.tag,
            features: self.features,
            global_seq: self.global_seq,
            connect_seq: self.connect_seq,
            protocol_version: self.protocol_version,
            authorizer_len: self.authorizer_len,
            flags: self.flags,
            authorizer: self.authorizer@,
        }
    }
}

impl<'a> CephPrimitive<'a> for CephMsgConnectReply {
    open spec fn min_size() -> nat {
        26
    }

    open spec fn spec_read(input: Seq<u8>) -> Taken<CephMsgConnectReplyView> {
        let tag = take_tag(input);
        let features = take_features(rest(tag));
        let global_seq = take_u32_le(rest(features));
        let connect_seq = take_u32_le(rest(global_seq));
        let protocol_version = take_protocol(rest(connect_seq));
        let authorizer_len = take_u32_le(rest(protocol_version));
        let flags = take_u8(rest(authorizer_len));
        if input.len() < 26 {
            Err(SerialError::Incomplete)
        } else if tag is Err {
            failed(tag)
        } else if !is_reply_tag(value(tag)) {
            Err(
                SerialError::InvalidEnumValue {
                    field: WireField::Tag,
                    code: value(tag).spec_code() as u64,
                },
            )
        } else if features is Err {
            failed(features)
        } else if global_seq is Err {
            failed(global_seq)
        } else if connect_seq is Err {
            failed(connect_seq)
        } else if protocol_version is Err {
            failed(protocol_version)
        } else if authorizer_len is Err {
            failed(authorizer_len)
        } else if flags is Err {
            failed(flags)
        } else {
            Ok(
                (
                    CephMsgConnectReplyView {
                        tag: value(tag),
                        features: value(features),
                        global_seq: value(global_seq),
                        connect_seq: value(connect_seq),
                        protocol_version: value(protocol_version),
                        authorizer_len: value(authorizer_len),
                        flags: value(flags),
                        authorizer: Seq::empty(),
                    },
                    rest(flags),
                ),
            )
        }
    }

    open spec fn spec_write(v: CephMsgConnectReplyView) -> Seq<u8> {
        tag_bytes(v.tag) + features_bytes(v.features) + u32_le_bytes(v.global_seq)
            + u32_le_bytes(v.connect_seq) + protocol_bytes(v.protocol_version)
            + u32_le_bytes(v.authorizer_len) + seq![v.flags] + v.authorizer
    }

    proof fn law_short_input(input: Seq<u8>) {
    }

    proof fn law_size(v: CephMsgConnectReplyView) {
        broadcast use group_take;
    }

    proof fn law_consumes(input: Seq<u8>) {
        broadcast use group_behind, group_behind_code, group_behind_flags;

        let tag = take_tag(input);
        let features = take_features(rest(tag));
        let global_seq = take_u32_le(rest(features));
        let connect_seq = take_u32_le(rest(global_seq));
        let protocol_version = take_protocol(rest(connect_seq));
        let authorizer_len = take_u32_le(rest(protocol_version));
        let flags = take_u8(rest(authorizer_len));
        if Self::spec_read(input) is Ok {
            lemma_behind_trans(rest(features), rest(tag), input, 8, 1);
            lemma_behind_trans(rest(global_seq), rest(features), input, 4, 9);
            lemma_behind_trans(rest(connect_seq), rest(global_seq), input, 4, 13);
            lemma_behind_trans(rest(protocol_version), rest(connect_seq), input, 4, 17);
            lemma_behind_trans(rest(authorizer_len), rest(protocol_version), input, 4, 21);
            lemma_behind_trans(rest(flags), rest(authorizer_len), input, 1, 25);
        }
    }

    fn read_from_wire(input: &'a [u8]) -> (r: Result<(Self, &'a [u8]), SerialError>) {
        if input.len() < 26 {
            return Err(SerialError::Incomplete);
        }
        let (tag, rest) = read_tag(input)?;
        if !reply_tag(tag) {
            return Err(
                SerialError::InvalidEnumValue {
                    field: WireField::Tag,
                    code: tag.code() as u64,
                },
            );
        }
        let (features, rest) = read_features(rest)?;
        let (global_seq, rest) = le_u32(rest)?;
        let (connect_seq, rest) = le_u32(rest)?;
        let (protocol_version, rest) = read_protocol(rest)?;
        let (authorizer_len, rest) = le_u32(rest)?;
        let (flags, rest) = le_u8(rest)?;
        Ok(
            (
                CephMsgConnectReply {
                    tag,
                    features,
                    global_seq,
                    connect_seq,
                    protocol_version,
                    authorizer_len,
                    flags,
                    authorizer: Vec::new(),
                },
                rest,
            ),
        )
    }

    fn write_to_wire(&self) -> (r: Result<Vec<u8>, SerialError>) {
        let mut buffer: Vec<u8> = Vec::new();
        put_tag(&mut buffer, self.tag);
        put_features(&mut buffer, self.features);
        put_u32_le(&mut buffer, self.global_seq);
        put_u32_le(&mut buffer, self.connect_seq);
        put_protocol(&mut buffer, self.protocol_version);
        put_u32_le(&mut buffer, self.authorizer_len);
        put_u8(&mut buffer, self.flags);
        put_bytes(&mut buffer, self.authorizer.as_slice());
        assert(buffer@ =~= Self::spec_write(self@));
        Ok(buffer)
    }
}

impl<'a> RoundTrip<'a> for CephMsgConnectReply {
    open spec fn valid(v: CephMsgConnectReplyView) -> bool {
        &&& is_reply_tag(v.tag)
        &&& v.authorizer.len() == 0
    }

    proof fn law_round_trip(v: CephMsgConnectReplyView, tail: Seq<u8>) {
        broadcast use group_take, group_take_code, group_take_flags;

        let t7 = v.authorizer + tail;
        let t6 = seq![v.flags] + t7;
        let t5 = u32_le_bytes(v.authorizer_len) + t6;
        let t4 = protocol_bytes(v.protocol_version) + t5;
        let t3 = u32_le_bytes(v.connect_seq) + t4;
        let t2 = u32_le_bytes(v.global_seq) + t3;
        let t1 = features_bytes(v.features) + t2;
        let p2 = tag_bytes(v.tag) + features_bytes(v.features);
        let p3 = p2 + u32_le_bytes(v.global_seq);
        let p4 = p3 + u32_le_bytes(v.connect_seq);
        let p5 = p4 + protocol_bytes(v.protocol_version);
        let p6 = p5 + u32_le_bytes(v.authorizer_len);
        let p7 = p6 + seq![v.flags];
        lemma_concat_assoc(p7, v.authorizer, tail);
        lemma_concat_assoc(p6, seq![v.flags], t7);
        lemma_concat_assoc(p5, u32_le_bytes(v.authorizer_len), t6);
        lemma_concat_assoc(p4, protocol_bytes(v.protocol_version), t5);
        lemma_concat_assoc(p3, u32_le_bytes(v.connect_seq), t4);
        lemma_concat_assoc(p2, u32_le_bytes(v.global_seq), t3);
        lemma_concat_assoc(tag_bytes(v.tag), features_bytes(v.features), t2);
        assert(v.authorizer =~= Seq::<u8>::empty());
        assert(v.authorizer + tail =~= tail);
    }
}

/// The acknowledgement of a message.
#[derive(Debug, Clone, Copy, PartialEq, Eq)]
pub struct CephMsgTagAck {
    pub tag: CephMsg,
    /// The sequence number of the message that is acknowledged.
    pub seq: u64,
}

impl View for CephMsgTagAck {
    type V = CephMsgTagAck;

    open spec fn view(&self) -> CephMsgTagAck {
        *self
    }
}

impl<'a> CephPrimitive<'a> for CephMsgTagAck {
    open spec fn min_size() -> nat {
        9
    }

    open spec fn spec_read(input: Seq<u8>) -> Taken<CephMsgTagAck> {
        let tag = take_tag(input);
        let seq = take_u64_le(rest(tag));
        if input.len() < 9 {
            Err(SerialError::Incomplete)
        } else if tag is Err {
            failed(tag)
        } else if seq is Err {
            failed(seq)
        } else {
            Ok(
                (
                    CephMsgTagAck {
                        tag: value(tag),
                        seq: value(seq),
                    },
                    rest(seq),
                ),
            )
        }
    }

    open spec fn spec_write(v: CephMsgTagAck) -> Seq<u8> {
        tag_bytes(v.tag) + u64_le_bytes(v.seq)
    }

    proof fn law_short_input(input: Seq<u8>) {
    }

    proof fn law_size(v: CephMsgTagAck) {
        broadcast use group_take;
    }

    proof fn law_consumes(input: Seq<u8>) {
        broadcast use group_behind, group_behind_code;

        let tag = take_tag(input);
        let seq = take_u64_le(rest(tag));
        if Self::spec_read(input) is Ok {
            lemma_behind_trans(rest(seq), rest(tag), input, 8, 1);
        }
    }

    fn read_from_wire(input: &'a [u8]) -> (r: Result<(Self, &'a [u8]), SerialError>) {
        if input.len() < 9 {
            return Err(SerialError::Incomplete);
        }
        let (tag, rest) = read_tag(input)?;
        let (seq, rest) = le_u64(rest)?;
        Ok((CephMsgTagAck { tag, seq }, rest))
    }

    fn write_to_wire(&self) -> (r: Result<Vec<u8>, SerialError>) {
        let mut buffer: Vec<u8> = Vec::new();
        put_tag(&mut buffer, self.tag);
        put_u64_le(&mut buffer, self.seq);
        assert(buffer@ =~= Self::spec_write(self@));
        Ok(buffer)
    }
}

impl<'a> RoundTrip<'a> for CephMsgTagAck {
    open spec fn valid(v: CephMsgTagAck) -> bool {
        true
    }

    proof fn law_round_trip(v: CephMsgTagAck, tail: Seq<u8>) {
        broadcast use group_take, group_take_code;

        let t1 = u64_le_bytes(v.seq) + tail;
        lemma_concat_assoc(tag_bytes(v.tag), u64_le_bytes(v.seq), tail);
    }
}

/// A keepalive: the tag and one byte that means nothing.
#[derive(Debug, Clone, Copy, PartialEq, Eq)]
pub struct CephMsgKeepAlive {
    pub tag: CephMsg,
    pub data: u8,
}

impl View for CephMsgKeepAlive {
    type V = CephMsgKeepAlive;

    open spec fn view(&self) -> CephMsgKeepAlive {
        *self
    }
}

impl<'a> CephPrimitive<'a> for CephMsgKeepAlive {
    open spec fn min_size() -> nat {
        2
    }

    open spec fn spec_read(input: Seq<u8>) -> Taken<CephMsgKeepAlive> {
        let tag = take_tag(input);
        let data = take_u8(rest(tag));
        if input.len() < 2 {
            Err(SerialError::Incomplete)
        } else if tag is Err {
            failed(tag)
        } else if data is Err {
            failed(data)
        } else {
            Ok(
                (
                    CephMsgKeepAlive {
                        tag: value(tag),
                        data: value(data),
                    },
                    rest(data),
                ),
            )
        }
    }

    open spec fn spec_write(v: CephMsgKeepAlive) -> Seq<u8> {
        tag_bytes(v.tag) + seq![v.data]
    }

    proof fn law_short_input(input: Seq<u8>) {
    }

    proof fn law_size(v: CephMsgKeepAlive) {
        broadcast use group_take;
    }

    proof fn law_consumes(input: Seq<u8>) {
        broadcast use group_behind, group_behind_code;

        let tag = take_tag(input);
        let data = take_u8(rest(tag));
        if Self::spec_read(input) is Ok {
            lemma_behind_trans(rest(data), rest(tag), input, 1, 1);
        }
    }

    fn read_from_wire(input: &'a [u8]) -> (r: Result<(Self, &'a [u8]), SerialError>) {
        if input.len() < 2 {
            return Err(SerialError::Incomplete);
        }
        let (tag, rest) = read_tag(input)?;
        let (data, rest) = le_u8(rest)?;
        Ok((CephMsgKeepAlive { tag, data }, rest))
    }

    fn write_to_wire(&self) -> (r: Result<Vec<u8>, SerialError>) {
        let mut buffer: Vec<u8> = Vec::new();
        put_tag(&mut buffer, self.tag);
        put_u8(&mut buffer, self.data);
        assert(buffer@ =~= Self::spec_write(self@));
        Ok(buffer)
    }
}

impl<'a> RoundTrip<'a> for CephMsgKeepAlive {
    open spec fn valid(v: CephMsgKeepAlive) -> bool {
        true
    }

    proof fn law_round_trip(v: CephMsgKeepAlive, tail: Seq<u8>) {
        broadcast use group_take, group_take_code;

        let t1 = seq![v.data] + tail;
        lemma_concat_assoc(tag_bytes(v.tag), seq![v.data], tail);
    }
}

/// A keepalive with the time at which it was sent.
#[derive(Debug, Clone, Copy, PartialEq, Eq)]
pub struct CephMsgKeepAlive2 {
    pub tag: CephMsg,
    pub timestamp: Utime,
}

impl View for CephMsgKeepAlive2 {
    type V = CephMsgKeepAlive2;

    open spec fn view(&self) -> CephMsgKeepAlive2 {
        *self
    }
}

impl<'a> CephPrimitive<'a> for CephMsgKeepAlive2 {
    open spec fn min_size() -> nat {
        9
    }

    open spec fn spec_read(input: Seq<u8>) -> Taken<CephMsgKeepAlive2> {
        let tag = take_tag(input);
        let timestamp = Utime::spec_read(rest(tag));
        if input.len() < 9 {
            Err(SerialError::Incomplete)
        } else if tag is Err {
            failed(tag)
        } else if timestamp is Err {
            failed(timestamp)
        } else {
            Ok(
                (
                    CephMsgKeepAlive2 {
                        tag: value(tag),
                        timestamp: value(timestamp),
                    },
                    rest(timestamp),
                ),
            )
        }
    }

    open spec fn spec_write(v: CephMsgKeepAlive2) -> Seq<u8> {
        tag_bytes(v.tag) + Utime::spec_write(v.timestamp)
    }

    proof fn law_short_input(input: Seq<u8>) {
    }

    proof fn law_size(v: CephMsgKeepAlive2) {
        broadcast use group_take;

        Utime::law_size(v.timestamp);
    }

    proof fn law_consumes(input: Seq<u8>) {
        broadcast use group_behind, group_behind_code;

        let tag = take_tag(input);
        let timestamp = Utime::spec_read(rest(tag));
        if Self::spec_read(input) is Ok {
            Utime::law_consumes(rest(tag));
            lemma_behind_trans(rest(timestamp), rest(tag), input, 8, 1);
        }
    }

    fn read_from_wire(input: &'a [u8]) -> (r: Result<(Self, &'a [u8]), SerialError>) {
        if input.len() < 9 {
            return Err(SerialError::Incomplete);
        }
        let (tag, rest) = read_tag(input)?;
        let (timestamp, rest) = Utime::read_from_wire(rest)?;
        Ok((CephMsgKeepAlive2 { tag, timestamp }, rest))
    }

    fn write_to_wire(&self) -> (r: Result<Vec<u8>, SerialError>) {
        let mut buffer: Vec<u8> = Vec::new();
        put_tag(&mut buffer, self.tag);
        let mut timestamp = self.timestamp.write_to_wire()?;
        buffer.append(&mut timestamp);
        assert(buffer@ =~= Self::spec_write(self@));
        Ok(buffer)
    }
}

impl<'a> RoundTrip<'a> for CephMsgKeepAlive2 {
    open spec fn valid(v: CephMsgKeepAlive2) -> bool {
        Utime::valid(v.timestamp)
    }

    proof fn law_round_trip(v: CephMsgKeepAlive2, tail: Seq<u8>) {
        broadcast use group_take, group_take_code;

        let t1 = Utime::spec_write(v.timestamp) + tail;
        lemma_concat_assoc(tag_bytes(v.tag), Utime::spec_write(v.timestamp), tail);
        Utime::law_size(v.timestamp);
        Utime::law_round_trip(v.timestamp, tail);
    }
}

/// The reply to a keepalive, with the time that the keepalive held.
#[derive(Debug, Clone, Copy, PartialEq, Eq)]
pub struct CephMsgKeepAlive2Ack {
    pub tag: CephMsg,
    pub timestamp: Utime,
}

impl View for CephMsgKeepAlive2Ack {
    type V = CephMsgKeepAlive2Ack;

    open spec fn view(&self) -> CephMsgKeepAlive2Ack {
        *self
    }
}

impl<'a> CephPrimitive<'a> for CephMsgKeepAlive2Ack {
    open spec fn min_size() -> nat {
        9
    }

    open spec fn spec_read(input: Seq<u8>) -> Taken<CephMsgKeepAlive2Ack> {
        let tag = take_tag(input);
        let timestamp = Utime::spec_read(rest(tag));
        if input.len() < 9 {
            Err(SerialError::Incomplete)
        } else if tag is Err {
            failed(tag)
        } else if timestamp is Err {
            failed(timestamp)
        } else {
            Ok(
                (
                    CephMsgKeepAlive2Ack {
                        tag: value(tag),
                        timestamp: value(timestamp),
                    },
                    rest(timestamp),
                ),
            )
        }
    }

    open spec fn spec_write(v: CephMsgKeepAlive2Ack) -> Seq<u8> {
        tag_bytes(v.tag) + Utime::spec_write(v.timestamp)
    }

    proof fn law_short_input(input: Seq<u8>) {
    }

    proof fn law_size(v: CephMsgKeepAlive2Ack) {
        broadcast use group_take;

        Utime::law_size(v.timestamp);
    }

    proof fn law_consumes(input: Seq<u8>) {
        broadcast use group_behind, group_behind_code;

        let tag = take_tag(input);
        let timestamp = Utime::spec_read(rest(tag));
        if Self::spec_read(input) is Ok {
            Utime::law_consumes(rest(tag));
            lemma_behind_trans(rest(timestamp), rest(tag), input, 8, 1);
        }
    }

    fn read_from_wire(input: &'a [u8]) -> (r: Result<(Self, &'a [u8]), SerialError>) {
        if input.len() < 9 {
            return Err(SerialError::Incomplete);
        }
        let (tag, rest) = read_tag(input)?;
        let (timestamp, rest) = Utime::read_from_wire(rest)?;
        Ok((CephMsgKeepAlive2Ack { tag, timestamp }, rest))
    }

    fn write_to_wire(&self) -> (r: Result<Vec<u8>, SerialError>) {
        let mut buffer: Vec<u8> = Vec::new();
        put_tag(&mut buffer, self.tag);
        let mut timestamp = self.timestamp.write_to_wire()?;
        buffer.append(&mut timestamp);
        assert(buffer@ =~= Self::spec_write(self@));
        Ok(buffer)
    }
}

impl<'a> RoundTrip<'a> for CephMsgKeepAlive2Ack {
    open spec fn valid(v: CephMsgKeepAlive2Ack) -> bool {
        Utime::valid(v.timestamp)
    }

    proof fn law_round_trip(v: CephMsgKeepAlive2Ack, tail: Seq<u8>) {
        broadcast use group_take, group_take_code;

        let t1 = Utime::spec_write(v.timestamp) + tail;
        lemma_concat_assoc(tag_bytes(v.tag), Utime::spec_write(v.timestamp), tail);
        Utime::law_size(v.timestamp);
        Utime::law_round_trip(v.timestamp, tail);
    }
}

impl CephMsgTagAck {
    /// The acknowledgement of the message with this sequence number.
    pub fn new(sequence_number: u64) -> (r: CephMsgTagAck)
        ensures
            r == (CephMsgTagAck { tag: CephMsg::Ack, seq: sequence_number }),
    {
        CephMsgTagAck { tag: CephMsg::Ack, seq: sequence_number }
    }
}

impl CephMsgKeepAlive {
    pub fn new() -> (r: CephMsgKeepAlive)
        ensures
            r == (CephMsgKeepAlive { tag: CephMsg::KeepAlive, data: 0 }),
    {
        CephMsgKeepAlive { tag: CephMsg::KeepAlive, data: 0 }
    }
}

impl CephMsgKeepAlive2 {
    /// A keepalive that holds the given time.
    pub fn at(timestamp: Utime) -> (r: CephMsgKeepAlive2)
        ensures
            r == (CephMsgKeepAlive2 { tag: CephMsg::KeepAlive2, timestamp }),
    {
        CephMsgKeepAlive2 { tag: CephMsg::KeepAlive2, timestamp }
    }

    /// A keepalive that holds the present moment, by the clock of this machine.
    pub fn new() -> (r: CephMsgKeepAlive2)
        ensures
            r.tag == CephMsg::KeepAlive2,
            r.timestamp.tv_nsec < 1_000_000_000,
    {
        CephMsgKeepAlive2::at(Utime::new())
    }
}

impl CephMsgKeepAlive2Ack {
    /// A reply that holds the given time.
    pub fn at(timestamp: Utime) -> (r: CephMsgKeepAlive2Ack)
        ensures
            r == (CephMsgKeepAlive2Ack { tag: CephMsg::KeepAlive2Ack, timestamp }),
    {
        CephMsgKeepAlive2Ack { tag: CephMsg::KeepAlive2Ack, timestamp }
    }

    /// A reply that holds the present moment, by the clock of this machine.
    pub fn new() -> (r: CephMsgKeepAlive2Ack)
        ensures
            r.tag == CephMsg::KeepAlive2Ack,
            r.timestamp.tv_nsec < 1_000_000_000,
    {
        CephMsgKeepAlive2Ack::at(Utime::new())
    }
}

} // verus!
