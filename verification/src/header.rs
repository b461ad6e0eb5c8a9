//! The header and the footer of an envelope.

use vstd::prelude::*;
use crate::bytes::{le_u16, le_u32, le_u64, le_u8, put_u16_le, put_u32_le, put_u64_le, put_u8};
use crate::enums::{entity_bytes, msg_type_bytes, priority_bytes, take_entity, take_msg_type};
use crate::enums::{take_priority};
use crate::enums::{put_entity, put_msg_type, put_priority, read_entity, read_msg_type};
use crate::enums::{read_priority};
use crate::enums::{CephEntity, CephMsgType, CephPriority};
use crate::wire::{take_u16_le, take_u32_le, take_u64_le, take_u8, u16_le_bytes, u32_le_bytes};
use crate::wire::{u64_le_bytes};
use crate::error::SerialError;
use crate::primitive::{CephPrimitive, RoundTrip};
use crate::enums::{group_behind_code, group_take_code};
use crate::wire::{failed, group_behind, group_take, lemma_behind_trans, lemma_concat_assoc};
use crate::wire::{rest, value, Taken};

verus! {

/// Who sent a message: the role of the node and its number.
#[derive(Debug, Clone, Copy, PartialEq, Eq)]
pub struct CephSourceName {
    pub entity_type: CephEntity,
    pub num: u64,
}

impl View for CephSourceName {
    type V = CephSourceName;

    open spec fn view(&self) -> CephSourceName {
        *self
    }
}

impl<'a> CephPrimitive<'a> for CephSourceName {
    open spec fn min_size() -> nat {
        9
    }

    open spec fn spec_read(input: Seq<u8>) -> Taken<CephSourceName> {
        let entity_type = take_entity(input);
        let num = take_u64_le(rest(entity_type));
        if input.len() < 9 {
            Err(SerialError::Incomplete)
        } else if entity_type is Err {
            failed(entity_type)
        } else if num is Err {
            failed(num)
        } else {
            Ok(
                (
                    CephSourceName {
                        entity_type: value(entity_type),
                        num: value(num),
                    },
                    rest(num),
                ),
            )
        }
    }

    open spec fn spec_write(v: CephSourceName) -> Seq<u8> {
        entity_bytes(v.entity_type) + u64_le_bytes(v.num)
    }

    proof fn law_short_input(input: Seq<u8>) {
    }

    proof fn law_size(v: CephSourceName) {
        broadcast use group_take;
    }

    proof fn law_consumes(input: Seq<u8>) {
        broadcast use group_behind, group_behind_code;

        let entity_type = take_entity(input);
        let num = take_u64_le(rest(entity_type));
        if Self::spec_read(input) is Ok {
            lemma_behind_trans(rest(num), rest(entity_type), input, 8, 1);
        }
    }

    fn read_from_wire(input: &'a [u8]) -> (r: Result<(Self, &'a [u8]), SerialError>) {
        if input.len() < 9 {
            return Err(SerialError::Incomplete);
        }
        let (entity_type, rest) = read_entity(input)?;
        let (num, rest) = le_u64(rest)?;
        Ok((CephSourceName { entity_type, num }, rest))
    }

    fn write_to_wire(&self) -> (r: Result<Vec<u8>, SerialError>) {
        let mut buffer: Vec<u8> = Vec::new();
        put_entity(&mut buffer, self.entity_type);
        put_u64_le(&mut buffer, self.num);
        assert(buffer@ =~= Self::spec_write(self@));
        Ok(buffer)
    }
}

impl<'a> RoundTrip<'a> for CephSourceName {
    open spec fn valid(v: CephSourceName) -> bool {
        true
    }

    proof fn law_round_trip(v: CephSourceName, tail: Seq<u8>) {
        broadcast use group_take, group_take_code;

        let t1 = u64_le_bytes(v.num) + tail;
        lemma_concat_assoc(entity_bytes(v.entity_type), u64_le_bytes(v.num), tail);
    }
}

/// The header of an envelope.
#[derive(Debug, Clone, Copy, PartialEq, Eq)]
pub struct CephMsgHeader {
    pub sequence_num: u64,
    pub transaction_id: u64,
    pub msg_type: CephMsgType,
    pub priority: CephPriority,
    /// The version of the message encoding.
    pub version: u16,
    /// The length of the front segment.
    pub front_len: u32,
    /// The length of the middle segment.
    pub middle_len: u32,
    /// The length of the data segment.
    pub data_len: u32,
    /// How the receiver should align the data.
    pub data_off: u16,
    /// The sender.
    pub entity_name: CephSourceName,
    /// The oldest encoding version that this one is compatible with.
    pub compat_version: u16,
    /// Unused.
    pub reserved: u16,
    /// The checksum of the header. It is carried, not checked.
    pub crc: u32,
}

impl View for CephMsgHeader {
    type V = CephMsgHeader;

    open spec fn view(&self) -> CephMsgHeader {
        *self
    }
}

impl<'a> CephPrimitive<'a> for CephMsgHeader {
    open spec fn min_size() -> nat {
        53
    }

    open spec fn spec_read(input: Seq<u8>) -> Taken<CephMsgHeader> {
        let sequence_num = take_u64_le(input);
        let transaction_id = take_u64_le(rest(sequence_num));
        let msg_type = take_msg_type(rest(transaction_id));
        let priority = take_priority(rest(msg_type));
        let version = take_u16_le(rest(priority));
        let front_len = take_u32_le(rest(version));
        let middle_len = take_u32_le(rest(front_len));
        let data_len = take_u32_le(rest(middle_len));
        let data_off = take_u16_le(rest(data_len));
        let entity_name = CephSourceName::spec_read(rest(data_off));
        let compat_version = take_u16_le(rest(entity_name));
        let reserved = take_u16_le(rest(compat_version));
        let crc = take_u32_le(rest(reserved));
        if input.len() < 53 {
            Err(SerialError::Incomplete)
        } else if sequence_num is Err {
            failed(sequence_num)
        } else if transaction_id is Err {
            failed(transaction_id)
        } else if msg_type is Err {
            failed(msg_type)
        } else if priority is Err {
            failed(priority)
        } else if version is Err {
            failed(version)
        } else if front_len is Err {
            failed(front_len)
        } else if middle_len is Err {
            failed(middle_len)
        } else if data_len is Err {
            failed(data_len)
        } else if data_off is Err {
            failed(data_off)
        } else if entity_name is Err {
            failed(entity_name)
        } else if compat_version is Err {
            failed(compat_version)
        } else if reserved is Err {
            failed(reserved)
        } else if crc is Err {
            failed(crc)
        } else {
            Ok(
                (
                    CephMsgHeader {
                        sequence_num: value(sequence_num),
                        transaction_id: value(transaction_id),
                        msg_type: value(msg_type),
                        priority: value(priority),
                        version: value(version),
                        front_len: value(front_len),
                        middle_len: value(middle_len),
                        data_len: value(data_len),
                        data_off: value(data_off),
                        entity_name: value(entity_name),
                        compat_version: value(compat_version),
                        reserved: value(reserved),
                        crc: value(crc),
                    },
                    rest(crc),
                ),
            )
        }
    }

    open spec fn spec_write(v: CephMsgHeader) -> Seq<u8> {
        u64_le_bytes(v.sequence_num) + u64_le_bytes(v.transaction_id) + msg_type_bytes(v.msg_type)
            + priority_bytes(v.priority) + u16_le_bytes(v.version) + u32_le_bytes(v.front_len)
            + u32_le_bytes(v.middle_len) + u32_le_bytes(v.data_len) + u16_le_bytes(v.data_off)
            + CephSourceName::spec_write(v.entity_name) + u16_le_bytes(v.compat_version)
            + u16_le_bytes(v.reserved) + u32_le_bytes(v.crc)
    }

    proof fn law_short_input(input: Seq<u8>) {
    }

    proof fn law_size(v: CephMsgHeader) {
        broadcast use group_take;

        CephSourceName::law_size(v.entity_name);
    }

    proof fn law_consumes(input: Seq<u8>) {
        broadcast use group_behind, group_behind_code;

        let sequence_num = take_u64_le(input);
        let transaction_id = take_u64_le(rest(sequence_num));
        let msg_type = take_msg_type(rest(transaction_id));
        let priority = take_priority(rest(msg_type));
        let version = take_u16_le(rest(priority));
        let front_len = take_u32_le(rest(version));
        let middle_len = take_u32_le(rest(front_len));
        let data_len = take_u32_le(rest(middle_len));
        let data_off = take_u16_le(rest(data_len));
        let entity_name = CephSourceName::spec_read(rest(data_off));
        let compat_version = take_u16_le(rest(entity_name));
        let reserved = take_u16_le(rest(compat_version));
        let crc = take_u32_le(rest(reserved));
        if Self::spec_read(input) is Ok {
            lemma_behind_trans(rest(transaction_id), rest(sequence_num), input, 8, 8);
            lemma_behind_trans(rest(msg_type), rest(transaction_id), input, 2, 16);
            lemma_behind_trans(rest(priority), rest(msg_type), input, 2, 18);
            lemma_behind_trans(rest(version), rest(priority), input, 2, 20);
            lemma_behind_trans(rest(front_len), rest(version), input, 4, 22);
            lemma_behind_trans(rest(middle_len), rest(front_len), input, 4, 26);
            lemma_behind_trans(rest(data_len), rest(middle_len), input, 4, 30);
            lemma_behind_trans(rest(data_off), rest(data_len), input, 2, 34);
            CephSourceName::law_consumes(rest(data_off));
            lemma_behind_trans(rest(entity_name), rest(data_off), input, 9, 36);
            lemma_behind_trans(rest(compat_version), rest(entity_name), input, 2, 45);
            lemma_behind_trans(rest(reserved), rest(compat_version), input, 2, 47);
            lemma_behind_trans(rest(crc), rest(reserved), input, 4, 49);
        }
    }

    fn read_from_wire(input: &'a [u8]) -> (r: Result<(Self, &'a [u8]), SerialError>) {
        if input.len() < 53 {
            return Err(SerialError::Incomplete);
        }
        let (sequence_num, rest) = le_u64(input)?;
        let (transaction_id, rest) = le_u64(rest)?;
        let (msg_type, rest) = read_msg_type(rest)?;
        let (priority, rest) = read_priority(rest)?;
        let (version, rest) = le_u16(rest)?;
        let (front_len, rest) = le_u32(rest)?;
        let (middle_len, rest) = le_u32(rest)?;
        let (data_len, rest) = le_u32(rest)?;
        let (data_off, rest) = le_u16(rest)?;
        let (entity_name, rest) = CephSourceName::read_from_wire(rest)?;
        let (compat_version, rest) = le_u16(rest)?;
        let (reserved, rest) = le_u16(rest)?;
        let (crc, rest) = le_u32(rest)?;
        Ok(
            (
                CephMsgHeader {
                    sequence_num,
                    transaction_id,
                    msg_type,
                    priority,
                    version,
                    front_len,
                    middle_len,
                    data_len,
                    data_off,
                    entity_name,
                    compat_version,
                    reserved,
                    crc,
                },
                rest,
            ),
        )
    }

    fn write_to_wire(&self) -> (r: Result<Vec<u8>, SerialError>) {
        let mut buffer: Vec<u8> = Vec::new();
        put_u64_le(&mut buffer, self.sequence_num);
        put_u64_le(&mut buffer, self.transaction_id);
        put_msg_type(&mut buffer, self.msg_type);
        put_priority(&mut buffer, self.priority);
        put_u16_le(&mut buffer, self.version);
        put_u32_le(&mut buffer, self.front_len);
        put_u32_le(&mut buffer, self.middle_len);
        put_u32_le(&mut buffer, self.data_len);
        put_u16_le(&mut buffer, self.data_off);
        let mut entity_name = self.entity_name.write_to_wire()?;
        buffer.append(&mut entity_name);
        put_u16_le(&mut buffer, self.compat_version);
        put_u16_le(&mut buffer, self.reserved);
        put_u32_le(&mut buffer, self.crc);
        assert(buffer@ =~= Self::spec_write(self@));
        Ok(buffer)
    }
}

impl<'a> RoundTrip<'a> for CephMsgHeader {
    open spec fn valid(v: CephMsgHeader) -> bool {
        CephSourceName::valid(v.entity_name)
    }

    proof fn law_round_trip(v: CephMsgHeader, tail: Seq<u8>) {
        broadcast use group_take, group_take_code;

        let t12 = u32_le_bytes(v.crc) + tail;
        let t11 = u16_le_bytes(v.reserved) + t12;
        let t10 = u16_le_bytes(v.compat_version) + t11;
        let t9 = CephSourceName::spec_write(v.entity_name) + t10;
        let t8 = u16_le_bytes(v.data_off) + t9;
        let t7 = u32_le_bytes(v.data_len) + t8;
        let t6 = u32_le_bytes(v.middle_len) + t7;
        let t5 = u32_le_bytes(v.front_len) + t6;
        let t4 = u16_le_bytes(v.version) + t5;
        let t3 = priority_bytes(v.priority) + t4;
        let t2 = msg_type_bytes(v.msg_type) + t3;
        let t1 = u64_le_bytes(v.transaction_id) + t2;
        let p2 = u64_le_bytes(v.sequence_num) + u64_le_bytes(v.transaction_id);
        let p3 = p2 + msg_type_bytes(v.msg_type);
        let p4 = p3 + priority_bytes(v.priority);
        let p5 = p4 + u16_le_bytes(v.version);
        let p6 = p5 + u32_le_bytes(v.front_len);
        let p7 = p6 + u32_le_bytes(v.middle_len);
        let p8 = p7 + u32_le_bytes(v.data_len);
        let p9 = p8 + u16_le_bytes(v.data_off);
        let p10 = p9 + CephSourceName::spec_write(v.entity_name);
        let p11 = p10 + u16_le_bytes(v.compat_version);
        let p12 = p11 + u16_le_bytes(v.reserved);
        lemma_concat_assoc(p12, u32_le_bytes(v.crc), tail);
        lemma_concat_assoc(p11, u16_le_bytes(v.reserved), t12);
        lemma_concat_assoc(p10, u16_le_bytes(v.compat_version), t11);
        lemma_concat_assoc(p9, CephSourceName::spec_write(v.entity_name), t10);
        lemma_concat_assoc(p8, u16_le_bytes(v.data_off), t9);
        lemma_concat_assoc(p7, u32_le_bytes(v.data_len), t8);
        lemma_concat_assoc(p6, u32_le_bytes(v.middle_len), t7);
        lemma_concat_assoc(p5, u32_le_bytes(v.front_len), t6);
        lemma_concat_assoc(p4, u16_le_bytes(v.version), t5);
        lemma_concat_assoc(p3, priority_bytes(v.priority), t4);
        lemma_concat_assoc(p2, msg_type_bytes(v.msg_type), t3);
        lemma_concat_assoc(u64_le_bytes(v.sequence_num), u64_le_bytes(v.transaction_id), t2);
        CephSourceName::law_size(v.entity_name);
        CephSourceName::law_round_trip(v.entity_name, t10);
    }
}

/// The footer of an envelope. Its checksums are carried, not checked.
#[derive(Debug, Clone, Copy, PartialEq, Eq)]
pub struct CephMsgFooter {
    pub front_crc: u32,
    pub middle_crc: u32,
    pub data_crc: u32,
    pub crypto_sig: u64,
    pub flags: u8,
}

impl View for CephMsgFooter {
    type V = CephMsgFooter;

    open spec fn view(&self) -> CephMsgFooter {
        *self
    }
}

impl<'a> CephPrimitive<'a> for CephMsgFooter {
    open spec fn min_size() -> nat {
        21
    }

    open spec fn spec_read(input: Seq<u8>) -> Taken<CephMsgFooter> {
        let front_crc = take_u32_le(input);
        let middle_crc = take_u32_le(rest(front_crc));
        let data_crc = take_u32_le(rest(middle_crc));
        let crypto_sig = take_u64_le(rest(data_crc));
        let flags = take_u8(rest(crypto_sig));
        if input.len() < 21 {
            Err(SerialError::Incomplete)
        } else if front_crc is Err {
            failed(front_crc)
        } else if middle_crc is Err {
            failed(middle_crc)
        } else if data_crc is Err {
            failed(data_crc)
        } else if crypto_sig is Err {
            failed(crypto_sig)
        } else if flags is Err {
            failed(flags)
        } else {
            Ok(
                (
                    CephMsgFooter {
                        front_crc: value(front_crc),
                        middle_crc: value(middle_crc),
                        data_crc: value(data_crc),
                        crypto_sig: value(crypto_sig),
                        flags: value(flags),
                    },
                    rest(flags),
                ),
            )
        }
    }

    open spec fn spec_write(v: CephMsgFooter) -> Seq<u8> {
        u32_le_bytes(v.front_crc) + u32_le_bytes(v.middle_crc) + u32_le_bytes(v.data_crc)
            + u64_le_bytes(v.crypto_sig) + seq![v.flags]
    }

    proof fn law_short_input(input: Seq<u8>) {
    }

    proof fn law_size(v: CephMsgFooter) {
        broadcast use group_take;
    }

    proof fn law_consumes(input: Seq<u8>) {
        broadcast use group_behind;

        let front_crc = take_u32_le(input);
        let middle_crc = take_u32_le(rest(front_crc));
        let data_crc = take_u32_le(rest(middle_crc));
        let crypto_sig = take_u64_le(rest(data_crc));
        let flags = take_u8(rest(crypto_sig));
        if Self::spec_read(input) is Ok {
            lemma_behind_trans(rest(middle_crc), rest(front_crc), input, 4, 4);
            lemma_behind_trans(rest(data_crc), rest(middle_crc), input, 4, 8);
            lemma_behind_trans(rest(crypto_sig), rest(data_crc), input, 8, 12);
            lemma_behind_trans(rest(flags), rest(crypto_sig), input, 1, 20);
        }
    }

    fn read_from_wire(input: &'a [u8]) -> (r: Result<(Self, &'a [u8]), SerialError>) {
        if input.len() < 21 {
            return Err(SerialError::Incomplete);
        }
        let (front_crc, rest) = le_u32(input)?;
        let (middle_crc, rest) = le_u32(rest)?;
        let (data_crc, rest) = le_u32(rest)?;
        let (crypto_sig, rest) = le_u64(rest)?;
        let (flags, rest) = le_u8(rest)?;
        Ok((CephMsgFooter { front_crc, middle_crc, data_crc, crypto_sig, flags }, rest))
    }

    fn write_to_wire(&self) -> (r: Result<Vec<u8>, SerialError>) {
        let mut buffer: Vec<u8> = Vec::new();
        put_u32_le(&mut buffer, self.front_crc);
        put_u32_le(&mut buffer, self.middle_crc);
        put_u32_le(&mut buffer, self.data_crc);
        put_u64_le(&mut buffer, self.crypto_sig);
        put_u8(&mut buffer, self.flags);
        assert(buffer@ =~= Self::spec_write(self@));
        Ok(buffer)
    }
}

impl<'a> RoundTrip<'a> for CephMsgFooter {
    open spec fn valid(v: CephMsgFooter) -> bool {
        true
    }

    proof fn law_round_trip(v: CephMsgFooter, tail: Seq<u8>) {
        broadcast use group_take;

        let t4 = seq![v.flags] + tail;
        let t3 = u64_le_bytes(v.crypto_sig) + t4;
        let t2 = u32_le_bytes(v.data_crc) + t3;
        let t1 = u32_le_bytes(v.middle_crc) + t2;
        let p2 = u32_le_bytes(v.front_crc) + u32_le_bytes(v.middle_crc);
        let p3 = p2 + u32_le_bytes(v.data_crc);
        let p4 = p3 + u64_le_bytes(v.crypto_sig);
        lemma_concat_assoc(p4, seq![v.flags], tail);
        lemma_concat_assoc(p3, u64_le_bytes(v.crypto_sig), t4);
        lemma_concat_assoc(p2, u32_le_bytes(v.data_crc), t3);
        lemma_concat_assoc(u32_le_bytes(v.front_crc), u32_le_bytes(v.middle_crc), t2);
    }
}

} // verus!
