//! The messages by which a session is authenticated.

use vstd::prelude::*;
use vstd::utf8::encode_utf8;
use crate::bytes::{le_i32, le_u32, le_u64, le_u8, parse_bytes, parse_str};
use crate::bytes::{put_blob, put_i32_le, put_str, put_u32_le, put_u64_le, put_u8};
use crate::enums::{auth_protocol_bytes, entity_bytes, parse_protocol, put_auth_protocol};
use crate::enums::{put_entity};
use crate::enums::{read_entity, take_auth_protocol, take_entity, CephAuthProtocol, CephEntity};
use crate::list::{lemma_behind_take_protocols, lemma_take_protocols, parse_protocols};
use crate::list::{protocols_bytes, put_protocols, take_protocols};
use crate::mon::PaxosMessage;
use crate::wire::{blob_bytes, i32_le_bytes, str_bytes, u32_le_bytes, u64_le_bytes};
use crate::wire::{lemma_take_blob, lemma_take_str};
use crate::wire::{take_blob, take_i32_le, take_str, take_u32_le, take_u64_le, take_u8};
use crate::error::SerialError;
use crate::primitive::{CephPrimitive, RoundTrip};
use crate::enums::{group_behind_code, group_take_code};
use crate::wire::{failed, group_behind, group_take, lemma_behind_trans, lemma_concat_assoc};
use crate::wire::{rest, value, Taken};

verus! {

/// The name of an entity: its role, and its own name behind the length of that.
#[derive(Debug, PartialEq, Eq)]
pub struct CephEntityName<'a> {
    pub entity_type: CephEntity,
    pub id: &'a str,
}

/// A value of `CephEntityName` as mathematics.
pub struct CephEntityNameView {
    pub entity_type: CephEntity,
    pub id: Seq<char>,
}

impl<'a> View for CephEntityName<'a> {
    type V = CephEntityNameView;

    open spec fn view(&self) -> CephEntityNameView {
        CephEntityNameView {
            entity_type: self.entity_type,
            id: self.id@,
        }
    }
}

impl<'a> CephPrimitive<'a> for CephEntityName<'a> {
    open spec fn min_size() -> nat {
        5
    }

    open spec fn spec_read(input: Seq<u8>) -> Taken<CephEntityNameView> {
        let entity_type = take_entity(input);
        let id = take_str(rest(entity_type));
        if input.len() < 5 {
            Err(SerialError::Incomplete)
        } else if entity_type is Err {
            failed(entity_type)
        } else if id is Err {
            failed(id)
        } else {
            Ok(
                (
                    CephEntityNameView {
                        entity_type: value(entity_type),
                        id: value(id),
                    },
                    rest(id),
                ),
            )
        }
    }

    open spec fn spec_write(v: CephEntityNameView) -> Seq<u8> {
        entity_bytes(v.entity_type) + str_bytes(v.id)
    }

    proof fn law_short_input(input: Seq<u8>) {
    }

    proof fn law_size(v: CephEntityNameView) {
        broadcast use group_take;
    }

    proof fn law_consumes(input: Seq<u8>) {
        broadcast use group_behind, group_behind_code;

        let entity_type = take_entity(input);
        let id = take_str(rest(entity_type));
        if Self::spec_read(input) is Ok {
            lemma_behind_trans(rest(id), rest(entity_type), input, 4, 1);
        }
    }

    fn read_from_wire(input: &'a [u8]) -> (r: Result<(Self, &'a [u8]), SerialError>) {
        if input.len() < 5 {
            return Err(SerialError::Incomplete);
        }
        let (entity_type, rest) = read_entity(input)?;
        let (id, rest) = parse_str(rest)?;
        Ok((CephEntityName { entity_type, id }, rest))
    }

    fn write_to_wire(&self) -> (r: Result<Vec<u8>, SerialError>) {
        let mut buffer: Vec<u8> = Vec::new();
        put_entity(&mut buffer, self.entity_type);
        put_str(&mut buffer, self.id);
        assert(buffer@ =~= Self::spec_write(self@));
        Ok(buffer)
    }
}

impl<'a> RoundTrip<'a> for CephEntityName<'a> {
    open spec fn valid(v: CephEntityNameView) -> bool {
        encode_utf8(v.id).len() <= u32::MAX
    }

    proof fn law_round_trip(v: CephEntityNameView, tail: Seq<u8>) {
        broadcast use group_take, group_take_code;

        let t1 = str_bytes(v.id) + tail;
        lemma_concat_assoc(entity_bytes(v.entity_type), str_bytes(v.id), tail);
        lemma_take_str(v.id, tail);
    }
}

/// A step of an authentication protocol.
#[derive(Debug, PartialEq, Eq)]
pub struct CephAuthOperation<'a> {
    pub protocol: CephAuthProtocol,
    /// What the protocol carries, behind its length.
    pub auth_data: &'a [u8],
    /// The epoch of the monitor map.
    pub monmap_epoch: u32,
}

/// A value of `CephAuthOperation` as mathematics.
pub struct CephAuthOperationView {
    pub protocol: CephAuthProtocol,
    pub auth_data: Seq<u8>,
    pub monmap_epoch: u32,
}

impl<'a> View for CephAuthOperation<'a> {
    type V = CephAuthOperationView;

    open spec fn view(&self) -> CephAuthOperationView {
        CephAuthOperationView {
            protocol: self.protocol,
            auth_data: self.auth_data@,
            monmap_epoch: self.monmap_epoch,
        }
    }
}

impl<'a> CephPrimitive<'a> for CephAuthOperation<'a> {
    open spec fn min_size() -> nat {
        12
    }

    open spec fn spec_read(input: Seq<u8>) -> Taken<CephAuthOperationView> {
        let protocol = take_auth_protocol(input);
        let auth_data = take_blob(rest(protocol));
        let monmap_epoch = take_u32_le(rest(auth_data));
        if input.len() < 12 {
            Err(SerialError::Incomplete)
        } else if protocol is Err {
            failed(protocol)
        } else if auth_data is Err {
            failed(auth_data)
        } else if monmap_epoch is Err {
            failed(monmap_epoch)
        } else {
            Ok(
                (
                    CephAuthOperationView {
                        protocol: value(protocol),
                        auth_data: value(auth_data),
                        monmap_epoch: value(monmap_epoch),
                    },
                    rest(monmap_epoch),
                ),
            )
        }
    }

    open spec fn spec_write(v: CephAuthOperationView) -> Seq<u8> {
        auth_protocol_bytes(v.protocol) + blob_bytes(v.auth_data) + u32_le_bytes(v.monmap_epoch)
    }

    proof fn law_short_input(input: Seq<u8>) {
    }

    proof fn law_size(v: CephAuthOperationView) {
        broadcast use group_take;
    }

    proof fn law_consumes(input: Seq<u8>) {
        broadcast use group_behind, group_behind_code;

        let protocol = take_auth_protocol(input);
        let auth_data = take_blob(rest(protocol));
        let monmap_epoch = take_u32_le(rest(auth_data));
        if Self::spec_read(input) is Ok {
            lemma_behind_trans(rest(auth_data), rest(protocol), input, 4, 4);
            lemma_behind_trans(rest(monmap_epoch), rest(auth_data), input, 4, 8);
        }
    }

    fn read_from_wire(input: &'a [u8]) -> (r: Result<(Self, &'a [u8]), SerialError>) {
        if input.len() < 12 {
            return Err(SerialError::Incomplete);
        }
        let (protocol, rest) = parse_protocol(input)?;
        let (auth_data, rest) = parse_bytes(rest)?;
        let (monmap_epoch, rest) = le_u32(rest)?;
        Ok((CephAuthOperation { protocol, auth_data, monmap_epoch }, rest))
    }

    fn write_to_wire(&self) -> (r: Result<Vec<u8>, SerialError>) {
        let mut buffer: Vec<u8> = Vec::new();
        put_auth_protocol(&mut buffer, self.protocol);
        put_blob(&mut buffer, self.auth_data);
        put_u32_le(&mut buffer, self.monmap_epoch);
        assert(buffer@ =~= Self::spec_write(self@));
        Ok(buffer)
    }
}

impl<'a> RoundTrip<'a> for CephAuthOperation<'a> {
    open spec fn valid(v: CephAuthOperationView) -> bool {
        v.auth_data.len() <= u32::MAX
    }

    proof fn law_round_trip(v: CephAuthOperationView, tail: Seq<u8>) {
        broadcast use group_take, group_take_code;

        let t2 = u32_le_bytes(v.monmap_epoch) + tail;
        let t1 = blob_bytes(v.auth_data) + t2;
        let p2 = auth_protocol_bytes(v.protocol) + blob_bytes(v.auth_data);
        lemma_concat_assoc(p2, u32_le_bytes(v.monmap_epoch), tail);
        lemma_concat_assoc(auth_protocol_bytes(v.protocol), blob_bytes(v.auth_data), t2);
        lemma_take_blob(v.auth_data, t2);
    }
}

/// The reply to an authentication request.
#[derive(Debug, PartialEq, Eq)]
pub struct CephAuthOperationReply<'a> {
    pub protocol: CephAuthProtocol,
    /// The result code.
    pub result: i32,
    pub global_id: u64,
    /// What the result says, behind its length.
    pub result_msg: &'a str,
    /// What the protocol carries, behind its length.
    pub result_buffer: &'a [u8],
}

/// A value of `CephAuthOperationReply` as mathematics.
pub struct CephAuthOperationReplyView {
    pub protocol: CephAuthProtocol,
    pub result: i32,
    pub global_id: u64,
    pub result_msg: Seq<char>,
    pub result_buffer: Seq<u8>,
}

impl<'a> View for CephAuthOperationReply<'a> {
    type V = CephAuthOperationReplyView;

    open spec fn view(&self) -> CephAuthOperationReplyView {
        CephAuthOperationReplyView {
            protocol: self.protocol,
            result: self.result,
            global_id: self.global_id,
            result_msg: self.result_msg@,
            result_buffer: self.result_buffer@,
        }
    }
}

impl<'a> CephPrimitive<'a> for CephAuthOperationReply<'a> {
    open spec fn min_size() -> nat {
        24
    }

    open spec fn spec_read(input: Seq<u8>) -> Taken<CephAuthOperationReplyView> {
        let protocol = take_auth_protocol(input);
        let result = take_i32_le(rest(protocol));
        let global_id = take_u64_le(rest(result));
        let result_msg = take_str(rest(global_id));
        let result_buffer = take_blob(rest(result_msg));
        if input.len() < 24 {
            Err(SerialError::Incomplete)
        } else if protocol is Err {
            failed(protocol)
        } else if result is Err {
            failed(result)
        } else if global_id is Err {
            failed(global_id)
        } else if result_msg is Err {
            failed(result_msg)
        } else if result_buffer is Err {
            failed(result_buffer)
        } else {
            Ok(
                (
                    CephAuthOperationReplyView {
                        protocol: value(protocol),
                        result: value(result),
                        global_id: value(global_id),
                        result_msg: value(result_msg),
                        result_buffer: value(result_buffer),
                    },
                    rest(result_buffer),
                ),
            )
        }
    }

    open spec fn spec_write(v: CephAuthOperationReplyView) -> Seq<u8> {
        auth_protocol_bytes(v.protocol) + i32_le_bytes(v.result) + u64_le_bytes(v.global_id)
            + str_bytes(v.result_msg) + blob_bytes(v.result_buffer)
    }

    proof fn law_short_input(input: Seq<u8>) {
    }

    proof fn law_size(v: CephAuthOperationReplyView) {
        broadcast use group_take;
    }

    proof fn law_consumes(input: Seq<u8>) {
        broadcast use group_behind, group_behind_code;

        let protocol = take_auth_protocol(input);
        let result = take_i32_le(rest(protocol));
        let global_id = take_u64_le(rest(result));
        let result_msg = take_str(rest(global_id));
        let result_buffer = take_blob(rest(result_msg));
        if Self::spec_read(input) is Ok {
            lemma_behind_trans(rest(result), rest(protocol), input, 4, 4);
            lemma_behind_trans(rest(global_id), rest(result), input, 8, 8);
            lemma_behind_trans(rest(result_msg), rest(global_id), input, 4, 16);
            lemma_behind_trans(rest(result_buffer), rest(result_msg), input, 4, 20);
        }
    }

    fn read_from_wire(input: &'a [u8]) -> (r: Result<(Self, &'a [u8]), SerialError>) {
        if input.len() < 24 {
            return Err(SerialError::Incomplete);
        }
        let (protocol, rest) = parse_protocol(input)?;
        let (result, rest) = le_i32(rest)?;
        let (global_id, rest) = le_u64(rest)?;
        let (result_msg, rest) = parse_str(rest)?;
        let (result_buffer, rest) = parse_bytes(rest)?;
        Ok(
            (
                CephAuthOperationReply {
                    protocol,
                    result,
                    global_id,
                    result_msg,
                    result_buffer,
                },
                rest,
            ),
        )
    }

    fn write_to_wire(&self) -> (r: Result<Vec<u8>, SerialError>) {
        let mut buffer: Vec<u8> = Vec::new();
        put_auth_protocol(&mut buffer, self.protocol);
        put_i32_le(&mut buffer, self.result);
        put_u64_le(&mut buffer, self.global_id);
        put_str(&mut buffer, self.result_msg);
        put_blob(&mut buffer, self.result_buffer);
        assert(buffer@ =~= Self::spec_write(self@));
        Ok(buffer)
    }
}

impl<'a> RoundTrip<'a> for CephAuthOperationReply<'a> {
    open spec fn valid(v: CephAuthOperationReplyView) -> bool {
        &&& encode_utf8(v.result_msg).len() <= u32::MAX
        &&& v.result_buffer.len() <= u32::MAX
    }

    proof fn law_round_trip(v: CephAuthOperationReplyView, tail: Seq<u8>) {
        broadcast use group_take, group_take_code;

        let t4 = blob_bytes(v.result_buffer) + tail;
        let t3 = str_bytes(v.result_msg) + t4;
        let t2 = u64_le_bytes(v.global_id) + t3;
        let t1 = i32_le_bytes(v.result) + t2;
        let p2 = auth_protocol_bytes(v.protocol) + i32_le_bytes(v.result);
        let p3 = p2 + u64_le_bytes(v.global_id);
        let p4 = p3 + str_bytes(v.result_msg);
        lemma_concat_assoc(p4, blob_bytes(v.result_buffer), tail);
        lemma_concat_assoc(p3, str_bytes(v.result_msg), t4);
        lemma_concat_assoc(p2, u64_le_bytes(v.global_id), t3);
        lemma_concat_assoc(auth_protocol_bytes(v.protocol), i32_le_bytes(v.result), t2);
        lemma_take_str(v.result_msg, t4);
        lemma_take_blob(v.result_buffer, tail);
    }
}

/// The request that opens an authentication.
/// Four bytes behind the protocol are reserved: they are skipped when read and written as zero.
#[derive(Debug, PartialEq, Eq)]
pub struct AuthMessage<'a> {
    pub paxos_msg: PaxosMessage,
    pub protocol: CephAuthProtocol,
    pub encoding_version: u8,
    /// The protocols that the sender can speak, behind their count.
    pub supported_protocols: Vec<CephAuthProtocol>,
    pub entity_name: CephEntityName<'a>,
    pub global_id: u64,
    pub map_epoch: u32,
}

/// A value of `AuthMessage` as mathematics.
pub struct AuthMessageView {
    pub paxos_msg: PaxosMessage,
    pub protocol: CephAuthProtocol,
    pub encoding_version: u8,
    pub supported_protocols: Seq<CephAuthProtocol>,
    pub entity_name: CephEntityNameView,
    pub global_id: u64,
    pub map_epoch: u32,
}

impl<'a> View for AuthMessage<'a> {
    type V = AuthMessageView;

    open spec fn view(&self) -> AuthMessageView {
        AuthMessageView {
            paxos_msg: self.paxos_msg@,
            protocol: self.protocol,
            encoding_version: self.encoding_version,
            supported_protocols: self.supported_protocols@,
            entity_name: self.entity_name@,
            global_id: self.global_id,
            map_epoch: self.map_epoch,
        }
    }
}

impl<'a> CephPrimitive<'a> for AuthMessage<'a> {
    open spec fn min_size() -> nat {
        48
    }

    open spec fn spec_read(input: Seq<u8>) -> Taken<AuthMessageView> {
        let paxos_msg = PaxosMessage::spec_read(input);
        let protocol = take_auth_protocol(rest(paxos_msg));
        let reserved = take_u32_le(rest(protocol));
        let encoding_version = take_u8(rest(reserved));
        let supported_protocols = take_protocols(rest(encoding_version));
        let entity_name = CephEntityName::spec_read(rest(supported_protocols));
        let global_id = take_u64_le(rest(entity_name));
        let map_epoch = take_u32_le(rest(global_id));
        if input.len() < 48 {
            Err(SerialError::Incomplete)
        } else if paxos_msg is Err {
            failed(paxos_msg)
        } else if protocol is Err {
            failed(protocol)
        } else if reserved is Err {
            failed(reserved)
        } else if encoding_version is Err {
            failed(encoding_version)
        } else if supported_protocols is Err {
            failed(supported_protocols)
        } else if entity_name is Err {
            failed(entity_name)
        } else if global_id is Err {
            failed(global_id)
        } else if map_epoch is Err {
            failed(map_epoch)
        } else {
            Ok(
                (
                    AuthMessageView {
                        paxos_msg: value(paxos_msg),
                        protocol: value(protocol),
                        encoding_version: value(encoding_version),
                        supported_protocols: value(supported_protocols),
                        entity_name: value(entity_name),
                        global_id: value(global_id),
                        map_epoch: value(map_epoch),
                    },
                    rest(map_epoch),
                ),
            )
        }
    }

    open spec fn spec_write(v: AuthMessageView) -> Seq<u8> {
        PaxosMessage::spec_write(v.paxos_msg) + auth_protocol_bytes(v.protocol) + u32_le_bytes(0)
            + seq![v.encoding_version] + protocols_bytes(v.supported_protocols)
            + CephEntityName::spec_write(v.entity_name) + u64_le_bytes(v.global_id)
            + u32_le_bytes(v.map_epoch)
    }

    proof fn law_short_input(input: Seq<u8>) {
    }

    proof fn law_size(v: AuthMessageView) {
        broadcast use group_take;

        PaxosMessage::law_size(v.paxos_msg);
        CephEntityName::law_size(v.entity_name);
    }

    proof fn law_consumes(input: Seq<u8>) {
        broadcast use group_behind, group_behind_code;

        let paxos_msg = PaxosMessage::spec_read(input);
        let protocol = take_auth_protocol(rest(paxos_msg));
        let reserved = take_u32_le(rest(protocol));
        let encoding_version = take_u8(rest(reserved));
        let supported_protocols = take_protocols(rest(encoding_version));
        let entity_name = CephEntityName::spec_read(rest(supported_protocols));
        let global_id = take_u64_le(rest(entity_name));
        let map_epoch = take_u32_le(rest(global_id));
        if Self::spec_read(input) is Ok {
            PaxosMessage::law_consumes(input);
            lemma_behind_trans(rest(protocol), rest(paxos_msg), input, 4, 18);
            lemma_behind_trans(rest(reserved), rest(protocol), input, 4, 22);
            lemma_behind_trans(rest(encoding_version), rest(reserved), input, 1, 26);
            lemma_behind_take_protocols(rest(encoding_version));
            lemma_behind_trans(rest(supported_protocols), rest(encoding_version), input, 4, 27);
            CephEntityName::law_consumes(rest(supported_protocols));
            lemma_behind_trans(rest(entity_name), rest(supported_protocols), input, 5, 31);
            lemma_behind_trans(rest(global_id), rest(entity_name), input, 8, 36);
            lemma_behind_trans(rest(map_epoch), rest(global_id), input, 4, 44);
        }
    }

    fn read_from_wire(input: &'a [u8]) -> (r: Result<(Self, &'a [u8]), SerialError>) {
        if input.len() < 48 {
            return Err(SerialError::Incomplete);
        }
        let (paxos_msg, rest) = PaxosMessage::read_from_wire(input)?;
        let (protocol, rest) = parse_protocol(rest)?;
        let (_, rest) = le_u32(rest)?;
        let (encoding_version, rest) = le_u8(rest)?;
        let (supported_protocols, rest) = parse_protocols(rest)?;
        let (entity_name, rest) = CephEntityName::read_from_wire(rest)?;
        let (global_id, rest) = le_u64(rest)?;
        let (map_epoch, rest) = le_u32(rest)?;
        Ok(
            (
                AuthMessage {
                    paxos_msg,
                    protocol,
                    encoding_version,
                    supported_protocols,
                    entity_name,
                    global_id,
                    map_epoch,
                },
                rest,
            ),
        )
    }

    fn write_to_wire(&self) -> (r: Result<Vec<u8>, SerialError>) {
        let mut buffer: Vec<u8> = Vec::new();
        let mut paxos_msg = self.paxos_msg.write_to_wire()?;
        buffer.append(&mut paxos_msg);
        put_auth_protocol(&mut buffer, self.protocol);
        put_u32_le(&mut buffer, 0);
        put_u8(&mut buffer, self.encoding_version);
        put_protocols(&mut buffer, &self.supported_protocols);
        let mut entity_name = self.entity_name.write_to_wire()?;
        buffer.append(&mut entity_name);
        put_u64_le(&mut buffer, self.global_id);
        put_u32_le(&mut buffer, self.map_epoch);
        assert(buffer@ =~= Self::spec_write(self@));
        Ok(buffer)
    }
}

impl<'a> RoundTrip<'a> for AuthMessage<'a> {
    open spec fn valid(v: AuthMessageView) -> bool {
        &&& PaxosMessage::valid(v.paxos_msg)
        &&& v.supported_protocols.len() <= u32::MAX
        &&& CephEntityName::valid(v.entity_name)
    }

    proof fn law_round_trip(v: AuthMessageView, tail: Seq<u8>) {
        broadcast use group_take, group_take_code;

        let t7 = u32_le_bytes(v.map_epoch) + tail;
        let t6 = u64_le_bytes(v.global_id) + t7;
        let t5 = CephEntityName::spec_write(v.entity_name) + t6;
        let t4 = protocols_bytes(v.supported_protocols) + t5;
        let t3 = seq![v.encoding_version] + t4;
        let t2 = u32_le_bytes(0) + t3;
        let t1 = auth_protocol_bytes(v.protocol) + t2;
        let p2 = PaxosMessage::spec_write(v.paxos_msg) + auth_protocol_bytes(v.protocol);
        let p3 = p2 + u32_le_bytes(0);
        let p4 = p3 + seq![v.encoding_version];
        let p5 = p4 + protocols_bytes(v.supported_protocols);
        let p6 = p5 + CephEntityName::spec_write(v.entity_name);
        let p7 = p6 + u64_le_bytes(v.global_id);
        lemma_concat_assoc(p7, u32_le_bytes(v.map_epoch), tail);
        lemma_concat_assoc(p6, u64_le_bytes(v.global_id), t7);
        lemma_concat_assoc(p5, CephEntityName::spec_write(v.entity_name), t6);
        lemma_concat_assoc(p4, protocols_bytes(v.supported_protocols), t5);
        lemma_concat_assoc(p3, seq![v.encoding_version], t4);
        lemma_concat_assoc(p2, u32_le_bytes(0), t3);
        lemma_concat_assoc(
            PaxosMessage::spec_write(v.paxos_msg),
            auth_protocol_bytes(v.protocol),
            t2,
        );
        PaxosMessage::law_size(v.paxos_msg);
        PaxosMessage::law_round_trip(v.paxos_msg, t1);
        lemma_take_protocols(v.supported_protocols, t5);
        CephEntityName::law_size(v.entity_name);
        CephEntityName::law_round_trip(v.entity_name, t6);
    }
}

/// The fixed part of the reply to an authentication request.
#[derive(Debug, Clone, Copy, PartialEq, Eq)]
pub struct AuthReplyMessage {
    pub protocol: CephAuthProtocol,
    pub result: i32,
    pub global_id: u64,
}

} // verus!
