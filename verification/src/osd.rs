//! Operations on objects and what answers them.

use vstd::prelude::*;
use crate::bytes::{le_u16, le_u32, le_u64, le_u8, put_bytes, put_u16_le, put_u32_le, put_u64_le};
use crate::bytes::{put_u8, take};
use crate::features::{lemma_take_osd_flags, osd_flags_bytes, put_osd_flags, read_osd_flags};
use crate::features::{take_osd_flags, OsdOp};
use crate::utime::Utime;
use crate::wire::{lemma_take_bytes, take_bytes, take_u16_le, take_u32_le, take_u64_le, take_u8};
use crate::wire::{u16_le_bytes, u32_le_bytes, u64_le_bytes};
use crate::error::SerialError;
use crate::primitive::{CephPrimitive, RoundTrip};
use crate::features::{group_behind_flags, group_take_flags};
use crate::wire::{failed, group_behind, group_take, lemma_behind_trans, lemma_concat_assoc};
use crate::wire::{rest, value, Taken};

verus! {

/// The placement group that an operation is routed to.
#[derive(Debug, Clone, Copy, PartialEq, Eq)]
pub struct PlacementGroup {
    pub group_version: u8,
    pub pool: u64,
    pub seed: u32,
    pub preferred: u32,
}

impl View for PlacementGroup {
    type V = PlacementGroup;

    open spec fn view(&self) -> PlacementGroup {
        *self
    }
}

impl<'a> CephPrimitive<'a> for PlacementGroup {
    open spec fn min_size() -> nat {
        17
    }

    open spec fn spec_read(input: Seq<u8>) -> Taken<PlacementGroup> {
        let group_version = take_u8(input);
        let pool = take_u64_le(rest(group_version));
        let seed = take_u32_le(rest(pool));
        let preferred = take_u32_le(rest(seed));
        if input.len() < 17 {
            Err(SerialError::Incomplete)
        } else if group_version is Err {
            failed(group_version)
        } else if pool is Err {
            failed(pool)
        } else if seed is Err {
            failed(seed)
        } else if preferred is Err {
            failed(preferred)
        } else {
            Ok(
                (
                    PlacementGroup {
                        group_version: value(group_version),
                        pool: value(pool),
                        seed: value(seed),
                        preferred: value(preferred),
                    },
                    rest(preferred),
                ),
            )
        }
    }

    open spec fn spec_write(v: PlacementGroup) -> Seq<u8> {
        seq![v.group_version] + u64_le_bytes(v.pool) + u32_le_bytes(v.seed)
            + u32_le_bytes(v.preferred)
    }

    proof fn law_short_input(input: Seq<u8>) {
    }

    proof fn law_size(v: PlacementGroup) {
        broadcast use group_take;
    }

    proof fn law_consumes(input: Seq<u8>) {
        broadcast use group_behind;

        let group_version = take_u8(input);
        let pool = take_u64_le(rest(group_version));
        let seed = take_u32_le(rest(pool));
        let preferred = take_u32_le(rest(seed));
        if Self::spec_read(input) is Ok {
            lemma_behind_trans(rest(pool), rest(group_version), input, 8, 1);
            lemma_behind_trans(rest(seed), rest(pool), input, 4, 9);
            lemma_behind_trans(rest(preferred), rest(seed), input, 4, 13);
        }
    }

    fn read_from_wire(input: &'a [u8]) -> (r: Result<(Self, &'a [u8]), SerialError>) {
        if input.len() < 17 {
            return Err(SerialError::Incomplete);
        }
        let (group_version, rest) = le_u8(input)?;
        let (pool, rest) = le_u64(rest)?;
        let (seed, rest) = le_u32(rest)?;
        let (preferred, rest) = le_u32(rest)?;
        Ok((PlacementGroup { group_version, pool, seed, preferred }, rest))
    }

    fn write_to_wire(&self) -> (r: Result<Vec<u8>, SerialError>) {
        let mut buffer: Vec<u8> = Vec::new();
        put_u8(&mut buffer, self.group_version);
        put_u64_le(&mut buffer, self.pool);
        put_u32_le(&mut buffer, self.seed);
        put_u32_le(&mut buffer, self.preferred);
        assert(buffer@ =~= Self::spec_write(self@));
        Ok(buffer)
    }
}

impl<'a> RoundTrip<'a> for PlacementGroup {
    open spec fn valid(v: PlacementGroup) -> bool {
        true
    }

    proof fn law_round_trip(v: PlacementGroup, tail: Seq<u8>) {
        broadcast use group_take;

        let t3 = u32_le_bytes(v.preferred) + tail;
        let t2 = u32_le_bytes(v.seed) + t3;
        let t1 = u64_le_bytes(v.pool) + t2;
        let p2 = seq![v.group_version] + u64_le_bytes(v.pool);
        let p3 = p2 + u32_le_bytes(v.seed);
        lemma_concat_assoc(p3, u32_le_bytes(v.preferred), tail);
        lemma_concat_assoc(p2, u32_le_bytes(v.seed), t3);
        lemma_concat_assoc(seq![v.group_version], u64_le_bytes(v.pool), t2);
    }
}

/// One operation on an object.
#[derive(Debug, Clone, Copy, PartialEq, Eq)]
pub struct Operation {
    /// The code of the operation.
    pub operation: u16,
    pub flags: u32,
    pub offset: u64,
    pub size: u64,
    pub truncate_size: u64,
    pub truncate_seq: u32,
    pub payload_size: u32,
}

impl View for Operation {
    type V = Operation;

    open spec fn view(&self) -> Operation {
        *self
    }
}

impl<'a> CephPrimitive<'a> for Operation {
    open spec fn min_size() -> nat {
        38
    }

    open spec fn spec_read(input: Seq<u8>) -> Taken<Operation> {
        let operation = take_u16_le(input);
        let flags = take_u32_le(rest(operation));
        let offset = take_u64_le(rest(flags));
        let size = take_u64_le(rest(offset));
        let truncate_size = take_u64_le(rest(size));
        let truncate_seq = take_u32_le(rest(truncate_size));
        let payload_size = take_u32_le(rest(truncate_seq));
        if input.len() < 38 {
            Err(SerialError::Incomplete)
        } else if operation is Err {
            failed(operation)
        } else if flags is Err {
            failed(flags)
        } else if offset is Err {
            failed(offset)
        } else if size is Err {
            failed(size)
        } else if truncate_size is Err {
            failed(truncate_size)
        } else if truncate_seq is Err {
            failed(truncate_seq)
        } else if payload_size is Err {
            failed(payload_size)
        } else {
            Ok(
                (
                    Operation {
                        operation: value(operation),
                        flags: value(flags),
                        offset: value(offset),
                        size: value(size),
                        truncate_size: value(truncate_size),
                        truncate_seq: value(truncate_seq),
                        payload_size: value(payload_size),
                    },
                    rest(payload_size),
                ),
            )
        }
    }

    open spec fn spec_write(v: Operation) -> Seq<u8> {
        u16_le_bytes(v.operation) + u32_le_bytes(v.flags) + u64_le_bytes(v.offset)
            + u64_le_bytes(v.size) + u64_le_bytes(v.truncate_size) + u32_le_bytes(v.truncate_seq)
            + u32_le_bytes(v.payload_size)
    }

    proof fn law_short_input(input: Seq<u8>) {
    }

    proof fn law_size(v: Operation) {
        broadcast use group_take;
    }

    proof fn law_consumes(input: Seq<u8>) {
        broadcast use group_behind;

        let operation = take_u16_le(input);
        let flags = take_u32_le(rest(operation));
        let offset = take_u64_le(rest(flags));
        let size = take_u64_le(rest(offset));
        let truncate_size = take_u64_le(rest(size));
        let truncate_seq = take_u32_le(rest(truncate_size));
        let payload_size = take_u32_le(rest(truncate_seq));
        if Self::spec_read(input) is Ok {
            lemma_behind_trans(rest(flags), rest(operation), input, 4, 2);
            lemma_behind_trans(rest(offset), rest(flags), input, 8, 6);
            lemma_behind_trans(rest(size), rest(offset), input, 8, 14);
            lemma_behind_trans(rest(truncate_size), rest(size), input, 8, 22);
            lemma_behind_trans(rest(truncate_seq), rest(truncate_size), input, 4, 30);
            lemma_behind_trans(rest(payload_size), rest(truncate_seq), input, 4, 34);
        }
    }

    fn read_from_wire(input: &'a [u8]) -> (r: Result<(Self, &'a [u8]), SerialError>) {
        if input.len() < 38 {
            return Err(SerialError::Incomplete);
        }
        let (operation, rest) = le_u16(input)?;
        let (flags, rest) = le_u32(rest)?;
        let (offset, rest) = le_u64(rest)?;
        let (size, rest) = le_u64(rest)?;
        let (truncate_size, rest) = le_u64(rest)?;
        let (truncate_seq, rest) = le_u32(rest)?;
        let (payload_size, rest) = le_u32(rest)?;
        Ok(
            (
                Operation {
                    operation,
                    flags,
                    offset,
                    size,
                    truncate_size,
                    truncate_seq,
                    payload_size,
                },
                rest,
            ),
        )
    }

    fn write_to_wire(&self) -> (r: Result<Vec<u8>, SerialError>) {
        let mut buffer: Vec<u8> = Vec::new();
        put_u16_le(&mut buffer, self.operation);
        put_u32_le(&mut buffer, self.flags);
        put_u64_le(&mut buffer, self.offset);
        put_u64_le(&mut buffer, self.size);
        put_u64_le(&mut buffer, self.truncate_size);
        put_u32_le(&mut buffer, self.truncate_seq);
        put_u32_le(&mut buffer, self.payload_size);
        assert(buffer@ =~= Self::spec_write(self@));
        Ok(buffer)
    }
}

impl<'a> RoundTrip<'a> for Operation {
    open spec fn valid(v: Operation) -> bool {
        true
    }

    proof fn law_round_trip(v: Operation, tail: Seq<u8>) {
        broadcast use group_take;

        let t6 = u32_le_bytes(v.payload_size) + tail;
        let t5 = u32_le_bytes(v.truncate_seq) + t6;
        let t4 = u64_le_bytes(v.truncate_size) + t5;
        let t3 = u64_le_bytes(v.size) + t4;
        let t2 = u64_le_bytes(v.offset) + t3;
        let t1 = u32_le_bytes(v.flags) + t2;
        let p2 = u16_le_bytes(v.operation) + u32_le_bytes(v.flags);
        let p3 = p2 + u64_le_bytes(v.offset);
        let p4 = p3 + u64_le_bytes(v.size);
        let p5 = p4 + u64_le_bytes(v.truncate_size);
        let p6 = p5 + u32_le_bytes(v.truncate_seq);
        lemma_concat_assoc(p6, u32_le_bytes(v.payload_size), tail);
        lemma_concat_assoc(p5, u32_le_bytes(v.truncate_seq), t6);
        lemma_concat_assoc(p4, u64_le_bytes(v.truncate_size), t5);
        lemma_concat_assoc(p3, u64_le_bytes(v.size), t4);
        lemma_concat_assoc(p2, u64_le_bytes(v.offset), t3);
        lemma_concat_assoc(u16_le_bytes(v.operation), u32_le_bytes(v.flags), t2);
    }
}

/// A version of an object, and the epoch it was written in.
#[derive(Debug, Clone, Copy, PartialEq, Eq)]
pub struct ReplayVersion {
    pub version: u64,
    pub epoch: u32,
}

impl View for ReplayVersion {
    type V = ReplayVersion;

    open spec fn view(&self) -> ReplayVersion {
        *self
    }
}

impl<'a> CephPrimitive<'a> for ReplayVersion {
    open spec fn min_size() -> nat {
        12
    }

    open spec fn spec_read(input: Seq<u8>) -> Taken<ReplayVersion> {
        let version = take_u64_le(input);
        let epoch = take_u32_le(rest(version));
        if input.len() < 12 {
            Err(SerialError::Incomplete)
        } else if version is Err {
            failed(version)
        } else if epoch is Err {
            failed(epoch)
        } else {
            Ok(
                (
                    ReplayVersion {
                        version: value(version),
                        epoch: value(epoch),
                    },
                    rest(epoch),
                ),
            )
        }
    }

    open spec fn spec_write(v: ReplayVersion) -> Seq<u8> {
        u64_le_bytes(v.version) + u32_le_bytes(v.epoch)
    }

    proof fn law_short_input(input: Seq<u8>) {
    }

    proof fn law_size(v: ReplayVersion) {
        broadcast use group_take;
    }

    proof fn law_consumes(input: Seq<u8>) {
        broadcast use group_behind;

        let version = take_u64_le(input);
        let epoch = take_u32_le(rest(version));
        if Self::spec_read(input) is Ok {
            lemma_behind_trans(rest(epoch), rest(version), input, 4, 8);
        }
    }

    fn read_from_wire(input: &'a [u8]) -> (r: Result<(Self, &'a [u8]), SerialError>) {
        if input.len() < 12 {
            return Err(SerialError::Incomplete);
        }
        let (version, rest) = le_u64(input)?;
        let (epoch, rest) = le_u32(rest)?;
        Ok((ReplayVersion { version, epoch }, rest))
    }

    fn write_to_wire(&self) -> (r: Result<Vec<u8>, SerialError>) {
        let mut buffer: Vec<u8> = Vec::new();
        put_u64_le(&mut buffer, self.version);
        put_u32_le(&mut buffer, self.epoch);
        assert(buffer@ =~= Self::spec_write(self@));
        Ok(buffer)
    }
}

impl<'a> RoundTrip<'a> for ReplayVersion {
    open spec fn valid(v: ReplayVersion) -> bool {
        true
    }

    proof fn law_round_trip(v: ReplayVersion, tail: Seq<u8>) {
        broadcast use group_take;

        let t1 = u32_le_bytes(v.epoch) + tail;
        lemma_concat_assoc(u64_le_bytes(v.version), u32_le_bytes(v.epoch), tail);
    }
}

/// The name of an object: its length, and as many bytes.
#[derive(Debug, PartialEq, Eq)]
pub struct ObjectId<'a> {
    pub size: u32,
    pub data: &'a [u8],
}

/// A value of `ObjectId` as mathematics.
pub struct ObjectIdView {
    pub size: u32,
    pub data: Seq<u8>,
}

impl<'a> View for ObjectId<'a> {
    type V = ObjectIdView;

    open spec fn view(&self) -> ObjectIdView {
        ObjectIdView {
            size: self.size,
            data: self.data@,
        }
    }
}

impl<'a> CephPrimitive<'a> for ObjectId<'a> {
    open spec fn min_size() -> nat {
        4
    }

    open spec fn spec_read(input: Seq<u8>) -> Taken<ObjectIdView> {
        let size = take_u32_le(input);
        let data = take_bytes(rest(size), value(size) as nat);
        if input.len() < 4 {
            Err(SerialError::Incomplete)
        } else if size is Err {
            failed(size)
        } else if data is Err {
            failed(data)
        } else {
            Ok(
                (
                    ObjectIdView {
                        size: value(size),
                        data: value(data),
                    },
                    rest(data),
                ),
            )
        }
    }

    open spec fn spec_write(v: ObjectIdView) -> Seq<u8> {
        u32_le_bytes(v.size) + v.data
    }

    proof fn law_short_input(input: Seq<u8>) {
    }

    proof fn law_size(v: ObjectIdView) {
        broadcast use group_take;
    }

    proof fn law_consumes(input: Seq<u8>) {
        broadcast use group_behind;

        let size = take_u32_le(input);
        let data = take_bytes(rest(size), value(size) as nat);
        if Self::spec_read(input) is Ok {
            lemma_behind_trans(rest(data), rest(size), input, 0, 4);
        }
    }

    fn read_from_wire(input: &'a [u8]) -> (r: Result<(Self, &'a [u8]), SerialError>) {
        if input.len() < 4 {
            return Err(SerialError::Incomplete);
        }
        let (size, rest) = le_u32(input)?;
        let (data, rest) = take(rest, size as usize)?;
        Ok((ObjectId { size, data }, rest))
    }

    fn write_to_wire(&self) -> (r: Result<Vec<u8>, SerialError>) {
        let mut buffer: Vec<u8> = Vec::new();
        put_u32_le(&mut buffer, self.size);
        put_bytes(&mut buffer, self.data);
        assert(buffer@ =~= Self::spec_write(self@));
        Ok(buffer)
    }
}

impl<'a> RoundTrip<'a> for ObjectId<'a> {
    open spec fn valid(v: ObjectIdView) -> bool {
        v.size == v.data.len()
    }

    proof fn law_round_trip(v: ObjectIdView, tail: Seq<u8>) {
        broadcast use group_take;

        let t1 = v.data + tail;
        lemma_concat_assoc(u32_le_bytes(v.size), v.data, tail);
        lemma_take_bytes(v.data, tail);
    }
}

/// Where an object lives: its pool and its namespace.
/// Two fields of eight bytes are reserved: they are skipped when read and written as zero.
#[derive(Debug, PartialEq, Eq)]
pub struct ObjectLocator<'a> {
    pub encoding_version: u8,
    pub min_compat_version: u8,
    pub size: u32,
    pub pool: u64,
    pub namespace_size: u32,
    pub namespace_data: &'a [u8],
}

/// A value of `ObjectLocator` as mathematics.
pub struct ObjectLocatorView {
    pub encoding_version: u8,
    pub min_compat_version: u8,
    pub size: u32,
    pub pool: u64,
    pub namespace_size: u32,
    pub namespace_data: Seq<u8>,
}

impl<'a> View for ObjectLocator<'a> {
    type V = ObjectLocatorView;

    open spec fn view(&self) -> ObjectLocatorView {
        ObjectLocatorView {
            encoding_version: self.encoding_version,
            min_compat_version: self.min_compat_version,
            size: self.size,
            pool: self.pool,
            namespace_size: self.namespace_size,
            namespace_data: self.namespace_data@,
        }
    }
}

impl<'a> CephPrimitive<'a> for ObjectLocator<'a> {
    open spec fn min_size() -> nat {
        34
    }

    open spec fn spec_read(input: Seq<u8>) -> Taken<ObjectLocatorView> {
        let encoding_version = take_u8(input);
        let min_compat_version = take_u8(rest(encoding_version));
        let size = take_u32_le(rest(min_compat_version));
        let pool = take_u64_le(rest(size));
        let reserved_1 = take_u64_le(rest(pool));
        let namespace_size = take_u32_le(rest(reserved_1));
        let namespace_data = take_bytes(rest(namespace_size), value(namespace_size) as nat);
        let reserved_2 = take_u64_le(rest(namespace_data));
        if input.len() < 34 {
            Err(SerialError::Incomplete)
        } else if encoding_version is Err {
            failed(encoding_version)
        } else if min_compat_version is Err {
            failed(min_compat_version)
        } else if size is Err {
            failed(size)
        } else if pool is Err {
            failed(pool)
        } else if reserved_1 is Err {
            failed(reserved_1)
        } else if namespace_size is Err {
            failed(namespace_size)
        } else if namespace_data is Err {
            failed(namespace_data)
        } else if reserved_2 is Err {
            failed(reserved_2)
        } else {
            Ok(
                (
                    ObjectLocatorView {
                        encoding_version: value(encoding_version),
                        min_compat_version: value(min_compat_version),
                        size: value(size),
                        pool: value(pool),
                        namespace_size: value(namespace_size),
                        namespace_data: value(namespace_data),
                    },
                    rest(reserved_2),
                ),
            )
        }
    }

    open spec fn spec_write(v: ObjectLocatorView) -> Seq<u8> {
        seq![v.encoding_version] + seq![v.min_compat_version] + u32_le_bytes(v.size)
            + u64_le_bytes(v.pool) + u64_le_bytes(0) + u32_le_bytes(v.namespace_size)
            + v.namespace_data + u64_le_bytes(0)
    }

    proof fn law_short_input(input: Seq<u8>) {
    }

    proof fn law_size(v: ObjectLocatorView) {
        broadcast use group_take;
    }

    proof fn law_consumes(input: Seq<u8>) {
        broadcast use group_behind;

        let encoding_version = take_u8(input);
        let min_compat_version = take_u8(rest(encoding_version));
        let size = take_u32_le(rest(min_compat_version));
        let pool = take_u64_le(rest(size));
        let reserved_1 = take_u64_le(rest(pool));
        let namespace_size = take_u32_le(rest(reserved_1));
        let namespace_data = take_bytes(rest(namespace_size), value(namespace_size) as nat);
        let reserved_2 = take_u64_le(rest(namespace_data));
        if Self::spec_read(input) is Ok {
            lemma_behind_trans(rest(min_compat_version), rest(encoding_version), input, 1, 1);
            lemma_behind_trans(rest(size), rest(min_compat_version), input, 4, 2);
            lemma_behind_trans(rest(pool), rest(size), input, 8, 6);
            lemma_behind_trans(rest(reserved_1), rest(pool), input, 8, 14);
            lemma_behind_trans(rest(namespace_size), rest(reserved_1), input, 4, 22);
            lemma_behind_trans(rest(namespace_data), rest(namespace_size), input, 0, 26);
            lemma_behind_trans(rest(reserved_2), rest(namespace_data), input, 8, 26);
        }
    }

    fn read_from_wire(input: &'a [u8]) -> (r: Result<(Self, &'a [u8]), SerialError>) {
        if input.len() < 34 {
            return Err(SerialError::Incomplete);
        }
        let (encoding_version, rest) = le_u8(input)?;
        let (min_compat_version, rest) = le_u8(rest)?;
        let (size, rest) = le_u32(rest)?;
        let (pool, rest) = le_u64(rest)?;
        let (_, rest) = le_u64(rest)?;
        let (namespace_size, rest) = le_u32(rest)?;
        let (namespace_data, rest) = take(rest, namespace_size as usize)?;
        let (_, rest) = le_u64(rest)?;
        Ok(
            (
                ObjectLocator {
                    encoding_version,
                    min_compat_version,
                    size,
                    pool,
                    namespace_size,
                    namespace_data,
                },
                rest,
            ),
        )
    }

    fn write_to_wire(&self) -> (r: Result<Vec<u8>, SerialError>) {
        let mut buffer: Vec<u8> = Vec::new();
        put_u8(&mut buffer, self.encoding_version);
        put_u8(&mut buffer, self.min_compat_version);
        put_u32_le(&mut buffer, self.size);
        put_u64_le(&mut buffer, self.pool);
        put_u64_le(&mut buffer, 0);
        put_u32_le(&mut buffer, self.namespace_size);
        put_bytes(&mut buffer, self.namespace_data);
        put_u64_le(&mut buffer, 0);
        assert(buffer@ =~= Self::spec_write(self@));
        Ok(buffer)
    }
}

impl<'a> RoundTrip<'a> for ObjectLocator<'a> {
    open spec fn valid(v: ObjectLocatorView) -> bool {
        v.namespace_size == v.namespace_data.len()
    }

    proof fn law_round_trip(v: ObjectLocatorView, tail: Seq<u8>) {
        broadcast use group_take;

        let t7 = u64_le_bytes(0) + tail;
        let t6 = v.namespace_data + t7;
        let t5 = u32_le_bytes(v.namespace_size) + t6;
        let t4 = u64_le_bytes(0) + t5;
        let t3 = u64_le_bytes(v.pool) + t4;
        let t2 = u32_le_bytes(v.size) + t3;
        let t1 = seq![v.min_compat_version] + t2;
        let p2 = seq![v.encoding_version] + seq![v.min_compat_version];
        let p3 = p2 + u32_le_bytes(v.size);
        let p4 = p3 + u64_le_bytes(v.pool);
        let p5 = p4 + u64_le_bytes(0);
        let p6 = p5 + u32_le_bytes(v.namespace_size);
        let p7 = p6 + v.namespace_data;
        lemma_concat_assoc(p7, u64_le_bytes(0), tail);
        lemma_concat_assoc(p6, v.namespace_data, t7);
        lemma_concat_assoc(p5, u32_le_bytes(v.namespace_size), t6);
        lemma_concat_assoc(p4, u64_le_bytes(0), t5);
        lemma_concat_assoc(p3, u64_le_bytes(v.pool), t4);
        lemma_concat_assoc(p2, u32_le_bytes(v.size), t3);
        lemma_concat_assoc(seq![v.encoding_version], seq![v.min_compat_version], t2);
        lemma_take_bytes(v.namespace_data, t7);
    }
}

/// An operation that a client asks an object-storage daemon for.
/// The payload is written behind the fixed part, and left where it is when that part is read.
#[derive(Debug, PartialEq, Eq)]
pub struct CephOsdOperation<'a> {
    pub client: u32,
    pub map_epoch: u32,
    pub flags: OsdOp,
    pub modification_time: Utime,
    pub reassert_version: u64,
    pub reassert_epoch: u32,
    pub locator: ObjectLocator<'a>,
    pub placement_group: PlacementGroup,
    pub object_id: ObjectId<'a>,
    pub operation_count: u16,
    pub operation: Operation,
    pub snapshot_id: u64,
    pub snapshot_seq: u64,
    pub snapshot_count: u32,
    pub retry_attempt: u32,
    pub payload: Vec<u8>,
}

/// A value of `CephOsdOperation` as mathematics.
pub struct CephOsdOperationView {
    pub client: u32,
    pub map_epoch: u32,
    pub flags: OsdOp,
    pub modification_time: Utime,
    pub reassert_version: u64,
    pub reassert_epoch: u32,
    pub locator: ObjectLocatorView,
    pub placement_group: PlacementGroup,
    pub object_id: ObjectIdView,
    pub operation_count: u16,
    pub operation: Operation,
    pub snapshot_id: u64,
    pub snapshot_seq: u64,
    pub snapshot_count: u32,
    pub retry_attempt: u32,
    pub payload: Seq<u8>,
}

impl<'a> View for CephOsdOperation<'a> {
    type V = CephOsdOperationView;

    open spec fn view(&self) -> CephOsdOperationView {
        CephOsdOperationView {
            client: self.client,
            map_epoch: self.map_epoch,
            flags: self.flags,
            modification_time: self.modification_time@,
            reassert_version: self.reassert_version,
            reassert_epoch: self.reassert_epoch,
            locator: self.locator@,
            placement_group: self.placement_group@,
            object_id: self.object_id@,
            operation_count: self.operation_count,
            operation: self.operation@,
            snapshot_id: self.snapshot_id,
            snapshot_seq: self.snapshot_seq,
            snapshot_count: self.snapshot_count,
            retry_attempt: self.retry_attempt,
            payload: self.payload@,
        }
    }
}

impl<'a> CephPrimitive<'a> for CephOsdOperation<'a> {
    open spec fn min_size() -> nat {
        151
    }

    open spec fn spec_read(input: Seq<u8>) -> Taken<CephOsdOperationView> {
        let client = take_u32_le(input);
        let map_epoch = take_u32_le(rest(client));
        let flags = take_osd_flags(rest(map_epoch));
        let modification_time = Utime::spec_read(rest(flags));
        let reassert_version = take_u64_le(rest(modification_time));
        let reassert_epoch = take_u32_le(rest(reassert_version));
        let locator = ObjectLocator::spec_read(rest(reassert_epoch));
        let placement_group = PlacementGroup::spec_read(rest(locator));
        let object_id = ObjectId::spec_read(rest(placement_group));
        let operation_count = take_u16_le(rest(object_id));
        let operation = Operation::spec_read(rest(operation_count));
        let snapshot_id = take_u64_le(rest(operation));
        let snapshot_seq = take_u64_le(rest(snapshot_id));
        let snapshot_count = take_u32_le(rest(snapshot_seq));
        let retry_attempt = take_u32_le(rest(snapshot_count));
        if input.len() < 151 {
            Err(SerialError::Incomplete)
        } else if client is Err {
            failed(client)
        } else if map_epoch is Err {
            failed(map_epoch)
        } else if flags is Err {
            failed(flags)
        } else if modification_time is Err {
            failed(modification_time)
        } else if reassert_version is Err {
            failed(reassert_version)
        } else if reassert_epoch is Err {
            failed(reassert_epoch)
        } else if locator is Err {
            failed(locator)
        } else if placement_group is Err {
            failed(placement_group)
        } else if object_id is Err {
            failed(object_id)
        } else if operation_count is Err {
            failed(operation_count)
        } else if operation is Err {
            failed(operation)
        } else if snapshot_id is Err {
            failed(snapshot_id)
        } else if snapshot_seq is Err {
            failed(snapshot_seq)
        } else if snapshot_count is Err {
            failed(snapshot_count)
        } else if retry_attempt is Err {
            failed(retry_attempt)
        } else {
            Ok(
                (
                    CephOsdOperationView {
                        client: value(client),
                        map_epoch: value(map_epoch),
                        flags: value(flags),
                        modification_time: value(modification_time),
                        reassert_version: value(reassert_version),
                        reassert_epoch: value(reassert_epoch),
                        locator: value(locator),
                        placement_group: value(placement_group),
                        object_id: value(object_id),
                        operation_count: value(operation_count),
                        operation: value(operation),
                        snapshot_id: value(snapshot_id),
                        snapshot_seq: value(snapshot_seq),
                        snapshot_count: value(snapshot_count),
                        retry_attempt: value(retry_attempt),
                        payload: Seq::empty(),
                    },
                    rest(retry_attempt),
                ),
            )
        }
    }

    open spec fn spec_write(v: CephOsdOperationView) -> Seq<u8> {
        u32_le_bytes(v.client) + u32_le_bytes(v.map_epoch) + osd_flags_bytes(v.flags)
            + Utime::spec_write(v.modification_time) + u64_le_bytes(v.reassert_version)
            + u32_le_bytes(v.reassert_epoch) + ObjectLocator::spec_write(v.locator)
            + PlacementGroup::spec_write(v.placement_group) + ObjectId::spec_write(v.object_id)
            + u16_le_bytes(v.operation_count) + Operation::spec_write(v.operation)
            + u64_le_bytes(v.snapshot_id) + u64_le_bytes(v.snapshot_seq)
            + u32_le_bytes(v.snapshot_count) + u32_le_bytes(v.retry_attempt) + v.payload
    }

    proof fn law_short_input(input: Seq<u8>) {
    }

    proof fn law_size(v: CephOsdOperationView) {
        broadcast use group_take;

        Utime::law_size(v.modification_time);
        ObjectLocator::law_size(v.locator);
        PlacementGroup::law_size(v.placement_group);
        ObjectId::law_size(v.object_id);
        Operation::law_size(v.operation);
    }

    proof fn law_consumes(input: Seq<u8>) {
        broadcast use group_behind, group_behind_flags;

        let client = take_u32_le(input);
        let map_epoch = take_u32_le(rest(client));
        let flags = take_osd_flags(rest(map_epoch));
        let modification_time = Utime::spec_read(rest(flags));
        let reassert_version = take_u64_le(rest(modification_time));
        let reassert_epoch = take_u32_le(rest(reassert_version));
        let locator = ObjectLocator::spec_read(rest(reassert_epoch));
        let placement_group = PlacementGroup::spec_read(rest(locator));
        let object_id = ObjectId::spec_read(rest(placement_group));
        let operation_count = take_u16_le(rest(object_id));
        let operation = Operation::spec_read(rest(operation_count));
        let snapshot_id = take_u64_le(rest(operation));
        let snapshot_seq = take_u64_le(rest(snapshot_id));
        let snapshot_count = take_u32_le(rest(snapshot_seq));
        let retry_attempt = take_u32_le(rest(snapshot_count));
        if Self::spec_read(input) is Ok {
            lemma_behind_trans(rest(map_epoch), rest(client), input, 4, 4);
            lemma_behind_trans(rest(flags), rest(map_epoch), input, 4, 8);
            Utime::law_consumes(rest(flags));
            lemma_behind_trans(rest(modification_time), rest(flags), input, 8, 12);
            lemma_behind_trans(rest(reassert_version), rest(modification_time), input, 8, 20);
            lemma_behind_trans(rest(reassert_epoch), rest(reassert_version), input, 4, 28);
            ObjectLocator::law_consumes(rest(reassert_epoch));
            lemma_behind_trans(rest(locator), rest(reassert_epoch), input, 34, 32);
            PlacementGroup::law_consumes(rest(locator));
            lemma_behind_trans(rest(placement_group), rest(locator), input, 17, 66);
            ObjectId::law_consumes(rest(placement_group));
            lemma_behind_trans(rest(object_id), rest(placement_group), input, 4, 83);
            lemma_behind_trans(rest(operation_count), rest(object_id), input, 2, 87);
            Operation::law_consumes(rest(operation_count));
            lemma_behind_trans(rest(operation), rest(operation_count), input, 38, 89);
            lemma_behind_trans(rest(snapshot_id), rest(operation), input, 8, 127);
            lemma_behind_trans(rest(snapshot_seq), rest(snapshot_id), input, 8, 135);
            lemma_behind_trans(rest(snapshot_count), rest(snapshot_seq), input, 4, 143);
            lemma_behind_trans(rest(retry_attempt), rest(snapshot_count), input, 4, 147);
        }
    }

    fn read_from_wire(input: &'a [u8]) -> (r: Result<(Self, &'a [u8]), SerialError>) {
        if input.len() < 151 {
            return Err(SerialError::Incomplete);
        }
        let (client, rest) = le_u32(input)?;
        let (map_epoch, rest) = le_u32(rest)?;
        let (flags, rest) = read_osd_flags(rest)?;
        let (modification_time, rest) = Utime::read_from_wire(rest)?;
        let (reassert_version, rest) = le_u64(rest)?;
        let (reassert_epoch, rest) = le_u32(rest)?;
        let (locator, rest) = ObjectLocator::read_from_wire(rest)?;
        let (placement_group, rest) = PlacementGroup::read_from_wire(rest)?;
        let (object_id, rest) = ObjectId::read_from_wire(rest)?;
        let (operation_count, rest) = le_u16(rest)?;
        let (operation, rest) = Operation::read_from_wire(rest)?;
        let (snapshot_id, rest) = le_u64(rest)?;
        let (snapshot_seq, rest) = le_u64(rest)?;
        let (snapshot_count, rest) = le_u32(rest)?;
        let (retry_attempt, rest) = le_u32(rest)?;
        Ok(
            (
                CephOsdOperation {
                    client,
                    map_epoch,
                    flags,
                    modification_time,
                    reassert_version,
                    reassert_epoch,
                    locator,
                    placement_group,
                    object_id,
                    operation_count,
                    operation,
                    snapshot_id,
                    snapshot_seq,
                    snapshot_count,
                    retry_attempt,
                    payload: Vec::new(),
                },
                rest,
            ),
        )
    }

    fn write_to_wire(&self) -> (r: Result<Vec<u8>, SerialError>) {
        let mut buffer: Vec<u8> = Vec::new();
        put_u32_le(&mut buffer, self.client);
        put_u32_le(&mut buffer, self.map_epoch);
        put_osd_flags(&mut buffer, self.flags);
        let mut modification_time = self.modification_time.write_to_wire()?;
        buffer.append(&mut modification_time);
        put_u64_le(&mut buffer, self.reassert_version);
        put_u32_le(&mut buffer, self.reassert_epoch);
        let mut locator = self.locator.write_to_wire()?;
        buffer.append(&mut locator);
        let mut placement_group = self.placement_group.write_to_wire()?;
        buffer.append(&mut placement_group);
        let mut object_id = self.object_id.write_to_wire()?;
        buffer.append(&mut object_id);
        put_u16_le(&mut buffer, self.operation_count);
        let mut operation = self.operation.write_to_wire()?;
        buffer.append(&mut operation);
        put_u64_le(&mut buffer, self.snapshot_id);
        put_u64_le(&mut buffer, self.snapshot_seq);
        put_u32_le(&mut buffer, self.snapshot_count);
        put_u32_le(&mut buffer, self.retry_attempt);
        put_bytes(&mut buffer, self.payload.as_slice());
        assert(buffer@ =~= Self::spec_write(self@));
        Ok(buffer)
    }
}

impl<'a> RoundTrip<'a> for CephOsdOperation<'a> {
    open spec fn valid(v: CephOsdOperationView) -> bool {
        &&& OsdOp::spec_named(v.flags.bits)
        &&& Utime::valid(v.modification_time)
        &&& ObjectLocator::valid(v.locator)
        &&& PlacementGroup::valid(v.placement_group)
        &&& ObjectId::valid(v.object_id)
        &&& Operation::valid(v.operation)
        &&& v.payload.len() == 0
    }

    proof fn law_round_trip(v: CephOsdOperationView, tail: Seq<u8>) {
        broadcast use group_take, group_take_flags;

        let t15 = v.payload + tail;
        let t14 = u32_le_bytes(v.retry_attempt) + t15;
        let t13 = u32_le_bytes(v.snapshot_count) + t14;
        let t12 = u64_le_bytes(v.snapshot_seq) + t13;
        let t11 = u64_le_bytes(v.snapshot_id) + t12;
        let t10 = Operation::spec_write(v.operation) + t11;
        let t9 = u16_le_bytes(v.operation_count) + t10;
        let t8 = ObjectId::spec_write(v.object_id) + t9;
        let t7 = PlacementGroup::spec_write(v.placement_group) + t8;
        let t6 = ObjectLocator::spec_write(v.locator) + t7;
        let t5 = u32_le_bytes(v.reassert_epoch) + t6;
        let t4 = u64_le_bytes(v.reassert_version) + t5;
        let t3 = Utime::spec_write(v.modification_time) + t4;
        let t2 = osd_flags_bytes(v.flags) + t3;
        let t1 = u32_le_bytes(v.map_epoch) + t2;
        let p2 = u32_le_bytes(v.client) + u32_le_bytes(v.map_epoch);
        let p3 = p2 + osd_flags_bytes(v.flags);
        let p4 = p3 + Utime::spec_write(v.modification_time);
        let p5 = p4 + u64_le_bytes(v.reassert_version);
        let p6 = p5 + u32_le_bytes(v.reassert_epoch);
        let p7 = p6 + ObjectLocator::spec_write(v.locator);
        let p8 = p7 + PlacementGroup::spec_write(v.placement_group);
        let p9 = p8 + ObjectId::spec_write(v.object_id);
        let p10 = p9 + u16_le_bytes(v.operation_count);
        let p11 = p10 + Operation::spec_write(v.operation);
        let p12 = p11 + u64_le_bytes(v.snapshot_id);
        let p13 = p12 + u64_le_bytes(v.snapshot_seq);
        let p14 = p13 + u32_le_bytes(v.snapshot_count);
        let p15 = p14 + u32_le_bytes(v.retry_attempt);
        lemma_concat_assoc(p15, v.payload, tail);
        lemma_concat_assoc(p14, u32_le_bytes(v.retry_attempt), t15);
        lemma_concat_assoc(p13, u32_le_bytes(v.snapshot_count), t14);
        lemma_concat_assoc(p12, u64_le_bytes(v.snapshot_seq), t13);
        lemma_concat_assoc(p11, u64_le_bytes(v.snapshot_id), t12);
        lemma_concat_assoc(p10, Operation::spec_write(v.operation), t11);
        lemma_concat_assoc(p9, u16_le_bytes(v.operation_count), t10);
        lemma_concat_assoc(p8, ObjectId::spec_write(v.object_id), t9);
        lemma_concat_assoc(p7, PlacementGroup::spec_write(v.placement_group), t8);
        lemma_concat_assoc(p6, ObjectLocator::spec_write(v.locator), t7);
        lemma_concat_assoc(p5, u32_le_bytes(v.reassert_epoch), t6);
        lemma_concat_assoc(p4, u64_le_bytes(v.reassert_version), t5);
        lemma_concat_assoc(p3, Utime::spec_write(v.modification_time), t4);
        lemma_concat_assoc(p2, osd_flags_bytes(v.flags), t3);
        lemma_concat_assoc(u32_le_bytes(v.client), u32_le_bytes(v.map_epoch), t2);
        lemma_take_osd_flags(v.flags, t3);
        Utime::law_size(v.modification_time);
        Utime::law_round_trip(v.modification_time, t4);
        ObjectLocator::law_size(v.locator);
        ObjectLocator::law_round_trip(v.locator, t7);
        PlacementGroup::law_size(v.placement_group);
        PlacementGroup::law_round_trip(v.placement_group, t8);
        ObjectId::law_size(v.object_id);
        ObjectId::law_round_trip(v.object_id, t9);
        Operation::law_size(v.operation);
        Operation::law_round_trip(v.operation, t11);
        assert(v.payload =~= Seq::<u8>::empty());
        assert(v.payload + tail =~= tail);
    }
}

/// What an object-storage daemon answers to an operation.
#[derive(Debug, PartialEq, Eq)]
pub struct CephOsdOperationReply<'a> {
    pub object_id: ObjectId<'a>,
    pub placement_group: PlacementGroup,
    pub flags: OsdOp,
    pub result: u32,
    pub bad_replay_version: ReplayVersion,
    pub osd_map_epoch: u32,
    pub operation_count: u32,
    pub operation: Operation,
    pub retry_attempt: u32,
    pub operation_return_value: u32,
    pub replay_version: ReplayVersion,
    pub user_version: u64,
}

/// A value of `CephOsdOperationReply` as mathematics.
pub struct CephOsdOperationReplyView {
    pub object_id: ObjectIdView,
    pub placement_group: PlacementGroup,
    pub flags: OsdOp,
    pub result: u32,
    pub bad_replay_version: ReplayVersion,
    pub osd_map_epoch: u32,
    pub operation_count: u32,
    pub operation: Operation,
    pub retry_attempt: u32,
    pub operation_return_value: u32,
    pub replay_version: ReplayVersion,
    pub user_version: u64,
}

impl<'a> View for CephOsdOperationReply<'a> {
    type V = CephOsdOperationReplyView;

    open spec fn view(&self) -> CephOsdOperationReplyView {
        CephOsdOperationReplyView {
            object_id: self.object_id@,
            placement_group: self.placement_group@,
            flags: self.flags,
            result: self.result,
            bad_replay_version: self.bad_replay_version@,
            osd_map_epoch: self.osd_map_epoch,
            operation_count: self.operation_count,
            operation: self.operation@,
            retry_attempt: self.retry_attempt,
            operation_return_value: self.operation_return_value,
            replay_version: self.replay_version@,
            user_version: self.user_version,
        }
    }
}

impl<'a> CephPrimitive<'a> for CephOsdOperationReply<'a> {
    open spec fn min_size() -> nat {
        115
    }

    open spec fn spec_read(input: Seq<u8>) -> Taken<CephOsdOperationReplyView> {
        let object_id = ObjectId::spec_read(input);
        let placement_group = PlacementGroup::spec_read(rest(object_id));
        let flags = take_osd_flags(rest(placement_group));
        let result = take_u32_le(rest(flags));
        let bad_replay_version = ReplayVersion::spec_read(rest(result));
        let osd_map_epoch = take_u32_le(rest(bad_replay_version));
        let operation_count = take_u32_le(rest(osd_map_epoch));
        let operation = Operation::spec_read(rest(operation_count));
        let retry_attempt = take_u32_le(rest(operation));
        let operation_return_value = take_u32_le(rest(retry_attempt));
        let replay_version = ReplayVersion::spec_read(rest(operation_return_value));
        let user_version = take_u64_le(rest(replay_version));
        if input.len() < 115 {
            Err(SerialError::Incomplete)
        } else if object_id is Err {
            failed(object_id)
        } else if placement_group is Err {
            failed(placement_group)
        } else if flags is Err {
            failed(flags)
        } else if result is Err {
            failed(result)
        } else if bad_replay_version is Err {
            failed(bad_replay_version)
        } else if osd_map_epoch is Err {
            failed(osd_map_epoch)
        } else if operation_count is Err {
            failed(operation_count)
        } else if operation is Err {
            failed(operation)
        } else if retry_attempt is Err {
            failed(retry_attempt)
        } else if operation_return_value is Err {
            failed(operation_return_value)
        } else if replay_version is Err {
            failed(replay_version)
        } else if user_version is Err {
            failed(user_version)
        } else {
            Ok(
                (
                    CephOsdOperationReplyView {
                        object_id: value(object_id),
                        placement_group: value(placement_group),
                        flags: value(flags),
                        result: value(result),
                        bad_replay_version: value(bad_replay_version),
                        osd_map_epoch: value(osd_map_epoch),
                        operation_count: value(operation_count),
                        operation: value(operation),
                        retry_attempt: value(retry_attempt),
                        operation_return_value: value(operation_return_value),
                        replay_version: value(replay_version),
                        user_version: value(user_version),
                    },
                    rest(user_version),
                ),
            )
        }
    }

    open spec fn spec_write(v: CephOsdOperationReplyView) -> Seq<u8> {
        ObjectId::spec_write(v.object_id) + PlacementGroup::spec_write(v.placement_group)
            + osd_flags_bytes(v.flags) + u32_le_bytes(v.result)
            + ReplayVersion::spec_write(v.bad_replay_version) + u32_le_bytes(v.osd_map_epoch)
            + u32_le_bytes(v.operation_count) + Operation::spec_write(v.operation)
            + u32_le_bytes(v.retry_attempt) + u32_le_bytes(v.operation_return_value)
            + ReplayVersion::spec_write(v.replay_version) + u64_le_bytes(v.user_version)
    }

    proof fn law_short_input(input: Seq<u8>) {
    }

    proof fn law_size(v: CephOsdOperationReplyView) {
        broadcast use group_take;

        ObjectId::law_size(v.object_id);
        PlacementGroup::law_size(v.placement_group);
        ReplayVersion::law_size(v.bad_replay_version);
        Operation::law_size(v.operation);
        ReplayVersion::law_size(v.replay_version);
    }

    proof fn law_consumes(input: Seq<u8>) {
        broadcast use group_behind, group_behind_flags;

        let object_id = ObjectId::spec_read(input);
        let placement_group = PlacementGroup::spec_read(rest(object_id));
        let flags = take_osd_flags(rest(placement_group));
        let result = take_u32_le(rest(flags));
        let bad_replay_version = ReplayVersion::spec_read(rest(result));
        let osd_map_epoch = take_u32_le(rest(bad_replay_version));
        let operation_count = take_u32_le(rest(osd_map_epoch));
        let operation = Operation::spec_read(rest(operation_count));
        let retry_attempt = take_u32_le(rest(operation));
        let operation_return_value = take_u32_le(rest(retry_attempt));
        let replay_version = ReplayVersion::spec_read(rest(operation_return_value));
        let user_version = take_u64_le(rest(replay_version));
        if Self::spec_read(input) is Ok {
            ObjectId::law_consumes(input);
            PlacementGroup::law_consumes(rest(object_id));
            lemma_behind_trans(rest(placement_group), rest(object_id), input, 17, 4);
            lemma_behind_trans(rest(flags), rest(placement_group), input, 4, 21);
            lemma_behind_trans(rest(result), rest(flags), input, 4, 25);
            ReplayVersion::law_consumes(rest(result));
            lemma_behind_trans(rest(bad_replay_version), rest(result), input, 12, 29);
            lemma_behind_trans(rest(osd_map_epoch), rest(bad_replay_version), input, 4, 41);
            lemma_behind_trans(rest(operation_count), rest(osd_map_epoch), input, 4, 45);
            Operation::law_consumes(rest(operation_count));
            lemma_behind_trans(rest(operation), rest(operation_count), input, 38, 49);
            lemma_behind_trans(rest(retry_attempt), rest(operation), input, 4, 87);
            lemma_behind_trans(rest(operation_return_value), rest(retry_attempt), input, 4, 91);
            ReplayVersion::law_consumes(rest(operation_return_value));
            lemma_behind_trans(rest(replay_version), rest(operation_return_value), input, 12, 95);
            lemma_behind_trans(rest(user_version), rest(replay_version), input, 8, 107);
        }
    }

    fn read_from_wire(input: &'a [u8]) -> (r: Result<(Self, &'a [u8]), SerialError>) {
        if input.len() < 115 {
            return Err(SerialError::Incomplete);
        }
        let (object_id, rest) = ObjectId::read_from_wire(input)?;
        let (placement_group, rest) = PlacementGroup::read_from_wire(rest)?;
        let (flags, rest) = read_osd_flags(rest)?;
        let (result, rest) = le_u32(rest)?;
        let (bad_replay_version, rest) = ReplayVersion::read_from_wire(rest)?;
        let (osd_map_epoch, rest) = le_u32(rest)?;
        let (operation_count, rest) = le_u32(rest)?;
        let (operation, rest) = Operation::read_from_wire(rest)?;
        let (retry_attempt, rest) = le_u32(rest)?;
        let (operation_return_value, rest) = le_u32(rest)?;
        let (replay_version, rest) = ReplayVersion::read_from_wire(rest)?;
        let (user_version, rest) = le_u64(rest)?;
        Ok(
            (
                CephOsdOperationReply {
                    object_id,
                    placement_group,
                    flags,
                    result,
                    bad_replay_version,
                    osd_map_epoch,
                    operation_count,
                    operation,
                    retry_attempt,
                    operation_return_value,
                    replay_version,
                    user_version,
                },
                rest,
            ),
        )
    }

    fn write_to_wire(&self) -> (r: Result<Vec<u8>, SerialError>) {
        let mut buffer: Vec<u8> = Vec::new();
        let mut object_id = self.object_id.write_to_wire()?;
        buffer.append(&mut object_id);
        let mut placement_group = self.placement_group.write_to_wire()?;
        buffer.append(&mut placement_group);
        put_osd_flags(&mut buffer, self.flags);
        put_u32_le(&mut buffer, self.result);
        let mut bad_replay_version = self.bad_replay_version.write_to_wire()?;
        buffer.append(&mut bad_replay_version);
        put_u32_le(&mut buffer, self.osd_map_epoch);
        put_u32_le(&mut buffer, self.operation_count);
        let mut operation = self.operation.write_to_wire()?;
        buffer.append(&mut operation);
        put_u32_le(&mut buffer, self.retry_attempt);
        put_u32_le(&mut buffer, self.operation_return_value);
        let mut replay_version = self.replay_version.write_to_wire()?;
        buffer.append(&mut replay_version);
        put_u64_le(&mut buffer, self.user_version);
        assert(buffer@ =~= Self::spec_write(self@));
        Ok(buffer)
    }
}

impl<'a> RoundTrip<'a> for CephOsdOperationReply<'a> {
    open spec fn valid(v: CephOsdOperationReplyView) -> bool {
        &&& ObjectId::valid(v.object_id)
        &&& PlacementGroup::valid(v.placement_group)
        &&& OsdOp::spec_named(v.flags.bits)
        &&& ReplayVersion::valid(v.bad_replay_version)
        &&& Operation::valid(v.operation)
        &&& ReplayVersion::valid(v.replay_version)
    }

    proof fn law_round_trip(v: CephOsdOperationReplyView, tail: Seq<u8>) {
        broadcast use group_take, group_take_flags;

        let t11 = u64_le_bytes(v.user_version) + tail;
        let t10 = ReplayVersion::spec_write(v.replay_version) + t11;
        let t9 = u32_le_bytes(v.operation_return_value) + t10;
        let t8 = u32_le_bytes(v.retry_attempt) + t9;
        let t7 = Operation::spec_write(v.operation) + t8;
        let t6 = u32_le_bytes(v.operation_count) + t7;
        let t5 = u32_le_bytes(v.osd_map_epoch) + t6;
        let t4 = ReplayVersion::spec_write(v.bad_replay_version) + t5;
        let t3 = u32_le_bytes(v.result) + t4;
        let t2 = osd_flags_bytes(v.flags) + t3;
        let t1 = PlacementGroup::spec_write(v.placement_group) + t2;
        let p2 = ObjectId::spec_write(v.object_id) + PlacementGroup::spec_write(v.placement_group);
        let p3 = p2 + osd_flags_bytes(v.flags);
        let p4 = p3 + u32_le_bytes(v.result);
        let p5 = p4 + ReplayVersion::spec_write(v.bad_replay_version);
        let p6 = p5 + u32_le_bytes(v.osd_map_epoch);
        let p7 = p6 + u32_le_bytes(v.operation_count);
        let p8 = p7 + Operation::spec_write(v.operation);
        let p9 = p8 + u32_le_bytes(v.retry_attempt);
        let p10 = p9 + u32_le_bytes(v.operation_return_value);
        let p11 = p10 + ReplayVersion::spec_write(v.replay_version);
        lemma_concat_assoc(p11, u64_le_bytes(v.user_version), tail);
        lemma_concat_assoc(p10, ReplayVersion::spec_write(v.replay_version), t11);
        lemma_concat_assoc(p9, u32_le_bytes(v.operation_return_value), t10);
        lemma_concat_assoc(p8, u32_le_bytes(v.retry_attempt), t9);
        lemma_concat_assoc(p7, Operation::spec_write(v.operation), t8);
        lemma_concat_assoc(p6, u32_le_bytes(v.operation_count), t7);
        lemma_concat_assoc(p5, u32_le_bytes(v.osd_map_epoch), t6);
        lemma_concat_assoc(p4, ReplayVersion::spec_write(v.bad_replay_version), t5);
        lemma_concat_assoc(p3, u32_le_bytes(v.result), t4);
        lemma_concat_assoc(p2, osd_flags_bytes(v.flags), t3);
        lemma_concat_assoc(
            ObjectId::spec_write(v.object_id),
            PlacementGroup::spec_write(v.placement_group),
            t2,
        );
        ObjectId::law_size(v.object_id);
        ObjectId::law_round_trip(v.object_id, t1);
        PlacementGroup::law_size(v.placement_group);
        PlacementGroup::law_round_trip(v.placement_group, t2);
        lemma_take_osd_flags(v.flags, t3);
        ReplayVersion::law_size(v.bad_replay_version);
        ReplayVersion::law_round_trip(v.bad_replay_version, t5);
        Operation::law_size(v.operation);
        Operation::law_round_trip(v.operation, t8);
        ReplayVersion::law_size(v.replay_version);
        ReplayVersion::law_round_trip(v.replay_version, t11);
    }
}

/// The epochs at which an object-storage daemon changed its state.
#[derive(Debug, Clone, Copy, PartialEq, Eq)]
pub struct OsdInfo {
    pub encoding_version: u8,
    pub last_clean_being: u32,
    pub last_clean_end: u32,
    pub up_from: u32,
    pub up_through: u32,
    pub down_at: u32,
    pub lost_at: u32,
}

impl View for OsdInfo {
    type V = OsdInfo;

    open spec fn view(&self) -> OsdInfo {
        *self
    }
}

impl<'a> CephPrimitive<'a> for OsdInfo {
    open spec fn min_size() -> nat {
        25
    }

    open spec fn spec_read(input: Seq<u8>) -> Taken<OsdInfo> {
        let encoding_version = take_u8(input);
        let last_clean_being = take_u32_le(rest(encoding_version));
        let last_clean_end = take_u32_le(rest(last_clean_being));
        let up_from = take_u32_le(rest(last_clean_end));
        let up_through = take_u32_le(rest(up_from));
        let down_at = take_u32_le(rest(up_through));
        let lost_at = take_u32_le(rest(down_at));
        if input.len() < 25 {
            Err(SerialError::Incomplete)
        } else if encoding_version is Err {
            failed(encoding_version)
        } else if last_clean_being is Err {
            failed(last_clean_being)
        } else if last_clean_end is Err {
            failed(last_clean_end)
        } else if up_from is Err {
            failed(up_from)
        } else if up_through is Err {
            failed(up_through)
        } else if down_at is Err {
            failed(down_at)
        } else if lost_at is Err {
            failed(lost_at)
        } else {
            Ok(
                (
                    OsdInfo {
                        encoding_version: value(encoding_version),
                        last_clean_being: value(last_clean_being),
                        last_clean_end: value(last_clean_end),
                        up_from: value(up_from),
                        up_through: value(up_through),
                        down_at: value(down_at),
                        lost_at: value(lost_at),
                    },
                    rest(lost_at),
                ),
            )
        }
    }

    open spec fn spec_write(v: OsdInfo) -> Seq<u8> {
        seq![v.encoding_version] + u32_le_bytes(v.last_clean_being) + u32_le_bytes(v.last_clean_end)
            + u32_le_bytes(v.up_from) + u32_le_bytes(v.up_through) + u32_le_bytes(v.down_at)
            + u32_le_bytes(v.lost_at)
    }

    proof fn law_short_input(input: Seq<u8>) {
    }

    proof fn law_size(v: OsdInfo) {
        broadcast use group_take;
    }

    proof fn law_consumes(input: Seq<u8>) {
        broadcast use group_behind;

        let encoding_version = take_u8(input);
        let last_clean_being = take_u32_le(rest(encoding_version));
        let last_clean_end = take_u32_le(rest(last_clean_being));
        let up_from = take_u32_le(rest(last_clean_end));
        let up_through = take_u32_le(rest(up_from));
        let down_at = take_u32_le(rest(up_through));
        let lost_at = take_u32_le(rest(down_at));
        if Self::spec_read(input) is Ok {
            lemma_behind_trans(rest(last_clean_being), rest(encoding_version), input, 4, 1);
            lemma_behind_trans(rest(last_clean_end), rest(last_clean_being), input, 4, 5);
            lemma_behind_trans(rest(up_from), rest(last_clean_end), input, 4, 9);
            lemma_behind_trans(rest(up_through), rest(up_from), input, 4, 13);
            lemma_behind_trans(rest(down_at), rest(up_through), input, 4, 17);
            lemma_behind_trans(rest(lost_at), rest(down_at), input, 4, 21);
        }
    }

    fn read_from_wire(input: &'a [u8]) -> (r: Result<(Self, &'a [u8]), SerialError>) {
        if input.len() < 25 {
            return Err(SerialError::Incomplete);
        }
        let (encoding_version, rest) = le_u8(input)?;
        let (last_clean_being, rest) = le_u32(rest)?;
        let (last_clean_end, rest) = le_u32(rest)?;
        let (up_from, rest) = le_u32(rest)?;
        let (up_through, rest) = le_u32(rest)?;
        let (down_at, rest) = le_u32(rest)?;
        let (lost_at, rest) = le_u32(rest)?;
        Ok(
            (
                OsdInfo {
                    encoding_version,
                    last_clean_being,
                    last_clean_end,
                    up_from,
                    up_through,
                    down_at,
                    lost_at,
                },
                rest,
            ),
        )
    }

    fn write_to_wire(&self) -> (r: Result<Vec<u8>, SerialError>) {
        let mut buffer: Vec<u8> = Vec::new();
        put_u8(&mut buffer, self.encoding_version);
        put_u32_le(&mut buffer, self.last_clean_being);
        put_u32_le(&mut buffer, self.last_clean_end);
        put_u32_le(&mut buffer, self.up_from);
        put_u32_le(&mut buffer, self.up_through);
        put_u32_le(&mut buffer, self.down_at);
        put_u32_le(&mut buffer, self.lost_at);
        assert(buffer@ =~= Self::spec_write(self@));
        Ok(buffer)
    }
}

impl<'a> RoundTrip<'a> for OsdInfo {
    open spec fn valid(v: OsdInfo) -> bool {
        true
    }

    proof fn law_round_trip(v: OsdInfo, tail: Seq<u8>) {
        broadcast use group_take;

        let t6 = u32_le_bytes(v.lost_at) + tail;
        let t5 = u32_le_bytes(v.down_at) + t6;
        let t4 = u32_le_bytes(v.up_through) + t5;
        let t3 = u32_le_bytes(v.up_from) + t4;
        let t2 = u32_le_bytes(v.last_clean_end) + t3;
        let t1 = u32_le_bytes(v.last_clean_being) + t2;
        let p2 = seq![v.encoding_version] + u32_le_bytes(v.last_clean_being);
        let p3 = p2 + u32_le_bytes(v.last_clean_end);
        let p4 = p3 + u32_le_bytes(v.up_from);
        let p5 = p4 + u32_le_bytes(v.up_through);
        let p6 = p5 + u32_le_bytes(v.down_at);
        lemma_concat_assoc(p6, u32_le_bytes(v.lost_at), tail);
        lemma_concat_assoc(p5, u32_le_bytes(v.down_at), t6);
        lemma_concat_assoc(p4, u32_le_bytes(v.up_through), t5);
        lemma_concat_assoc(p3, u32_le_bytes(v.up_from), t4);
        lemma_concat_assoc(p2, u32_le_bytes(v.last_clean_end), t3);
        lemma_concat_assoc(seq![v.encoding_version], u32_le_bytes(v.last_clean_being), t2);
    }
}

/// The parameters of a hit set.
#[derive(Debug, Clone, Copy, PartialEq, Eq)]
pub struct ClientHitSetParams {
    pub encoding_version: u8,
    pub min_compat_version: u8,
    pub size: u32,
    pub hitset_type: u8,
}

impl View for ClientHitSetParams {
    type V = ClientHitSetParams;

    open spec fn view(&self) -> ClientHitSetParams {
        *self
    }
}

impl<'a> CephPrimitive<'a> for ClientHitSetParams {
    open spec fn min_size() -> nat {
        7
    }

    open spec fn spec_read(input: Seq<u8>) -> Taken<ClientHitSetParams> {
        let encoding_version = take_u8(input);
        let min_compat_version = take_u8(rest(encoding_version));
        let size = take_u32_le(rest(min_compat_version));
        let hitset_type = take_u8(rest(size));
        if input.len() < 7 {
            Err(SerialError::Incomplete)
        } else if encoding_version is Err {
            failed(encoding_version)
        } else if min_compat_version is Err {
            failed(min_compat_version)
        } else if size is Err {
            failed(size)
        } else if hitset_type is Err {
            failed(hitset_type)
        } else {
            Ok(
                (
                    ClientHitSetParams {
                        encoding_version: value(encoding_version),
                        min_compat_version: value(min_compat_version),
                        size: value(size),
                        hitset_type: value(hitset_type),
                    },
                    rest(hitset_type),
                ),
            )
        }
    }

    open spec fn spec_write(v: ClientHitSetParams) -> Seq<u8> {
        seq![v.encoding_version] + seq![v.min_compat_version] + u32_le_bytes(v.size)
            + seq![v.hitset_type]
    }

    proof fn law_short_input(input: Seq<u8>) {
    }

    proof fn law_size(v: ClientHitSetParams) {
        broadcast use group_take;
    }

    proof fn law_consumes(input: Seq<u8>) {
        broadcast use group_behind;

        let encoding_version = take_u8(input);
        let min_compat_version = take_u8(rest(encoding_version));
        let size = take_u32_le(rest(min_compat_version));
        let hitset_type = take_u8(rest(size));
        if Self::spec_read(input) is Ok {
            lemma_behind_trans(rest(min_compat_version), rest(encoding_version), input, 1, 1);
            lemma_behind_trans(rest(size), rest(min_compat_version), input, 4, 2);
            lemma_behind_trans(rest(hitset_type), rest(size), input, 1, 6);
        }
    }

    fn read_from_wire(input: &'a [u8]) -> (r: Result<(Self, &'a [u8]), SerialError>) {
        if input.len() < 7 {
            return Err(SerialError::Incomplete);
        }
        let (encoding_version, rest) = le_u8(input)?;
        let (min_compat_version, rest) = le_u8(rest)?;
        let (size, rest) = le_u32(rest)?;
        let (hitset_type, rest) = le_u8(rest)?;
        Ok((ClientHitSetParams { encoding_version, min_compat_version, size, hitset_type }, rest))
    }

    fn write_to_wire(&self) -> (r: Result<Vec<u8>, SerialError>) {
        let mut buffer: Vec<u8> = Vec::new();
        put_u8(&mut buffer, self.encoding_version);
        put_u8(&mut buffer, self.min_compat_version);
        put_u32_le(&mut buffer, self.size);
        put_u8(&mut buffer, self.hitset_type);
        assert(buffer@ =~= Self::spec_write(self@));
        Ok(buffer)
    }
}

impl<'a> RoundTrip<'a> for ClientHitSetParams {
    open spec fn valid(v: ClientHitSetParams) -> bool {
        true
    }

    proof fn law_round_trip(v: ClientHitSetParams, tail: Seq<u8>) {
        broadcast use group_take;

        let t3 = seq![v.hitset_type] + tail;
        let t2 = u32_le_bytes(v.size) + t3;
        let t1 = seq![v.min_compat_version] + t2;
        let p2 = seq![v.encoding_version] + seq![v.min_compat_version];
        let p3 = p2 + u32_le_bytes(v.size);
        lemma_concat_assoc(p3, seq![v.hitset_type], tail);
        lemma_concat_assoc(p2, u32_le_bytes(v.size), t3);
        lemma_concat_assoc(seq![v.encoding_version], seq![v.min_compat_version], t2);
    }
}

/// What a client knows of the object-storage daemons of a cluster.
#[derive(Debug, PartialEq, Eq)]
pub struct ClientOsdData<'a> {
    pub encoding_version: u8,
    pub min_compat_version: u8,
    pub size: u32,
    /// The identifier of the cluster.
    pub fsid: u128,
    pub epoch: u32,
    pub time_created: Utime,
    pub last_modified: Utime,
    pub pool_ids: Vec<&'a str>,
    pub highest_pool_id: u32,
    pub flags: u32,
    pub highest_osd_num: u32,
    pub osd_states: Vec<u8>,
    pub osd_weights: Vec<u32>,
}

/// The object-storage daemons of a cluster at one epoch.
#[derive(Debug, PartialEq, Eq)]
pub struct CephOsdMap {
    pub epoch: u32,
    pub osd_info: Vec<OsdInfo>,
}

/// The maps of object-storage daemons that a message carries.
#[derive(Debug, Clone, Copy, PartialEq, Eq)]
pub struct OsdMap {
    /// The identifier of the cluster.
    pub fsid: u128,
    pub incremental_map_count: u32,
    pub map_count: u32,
    pub oldest_map: u32,
    pub newest_map: u32,
}

} // verus!
