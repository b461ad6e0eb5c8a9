//! The flag sets of the wire format: the capabilities that two peers negotiate, and the
//! flags of an object-storage operation.

use vstd::prelude::*;
use crate::bytes::{le_u32, le_u64, put_u32_le, put_u64_le};
use crate::error::{SerialError, WireField};
use crate::wire::{decoded, take_u32_le, take_u64_le, u32_le_bytes, u64_le_bytes, Taken};
use crate::wire::{lemma_take_u32_le, lemma_take_u64_le};
use crate::wire::{behind, lemma_behind_take_u32_le, lemma_behind_take_u64_le};

verus! {

pub const CEPH_FEATURE_UID: u64 = 0x1;

pub const CEPH_FEATURE_NOSRCADDR: u64 = 0x2;

pub const CEPH_FEATURE_MONCLOCKCHECK: u64 = 0x4;

pub const CEPH_FEATURE_FLOCK: u64 = 0x8;

pub const CEPH_FEATURE_SUBSCRIBE2: u64 = 0x10;

pub const CEPH_FEATURE_MONNAME: u64 = 0x20;

pub const CEPH_FEATURE_RECONNECT_SEQ: u64 = 0x40;

pub const CEPH_FEATURE_DIRLAYOUTHASH: u64 = 0x80;

pub const CEPH_FEATURE_OBJECTLOCATOR: u64 = 0x100;

pub const CEPH_FEATURE_PGID64: u64 = 0x200;

pub const CEPH_FEATURE_INCSUBOSDMAP: u64 = 0x400;

pub const CEPH_FEATURE_PGPOOL3: u64 = 0x800;

pub const CEPH_FEATURE_OSDREPLYMUX: u64 = 0x1000;

pub const CEPH_FEATURE_OSDENC: u64 = 0x2000;

pub const CEPH_FEATURE_OMAP: u64 = 0x4000;

pub const CEPH_FEATURE_QUERY_T: u64 = 0x8000;

pub const CEPH_FEATURE_MONENC: u64 = 0x1_0000;

pub const CEPH_FEATURE_INDEP_PG_MAP: u64 = 0x2_0000;

pub const CEPH_FEATURE_CRUSH_TUNABLES: u64 = 0x4_0000;

pub const CEPH_FEATURE_CHUNKY_SCRUB: u64 = 0x8_0000;

pub const CEPH_FEATURE_MON_NULLROUTE: u64 = 0x10_0000;

pub const CEPH_FEATURE_MON_GV: u64 = 0x20_0000;

pub const CEPH_FEATURE_BACKFILL_RESERVATION: u64 = 0x40_0000;

pub const CEPH_FEATURE_MSG_AUTH: u64 = 0x80_0000;

pub const CEPH_FEATURE_RECOVERY_RESERVATION: u64 = 0x100_0000;

pub const CEPH_FEATURE_CRUSH_TUNABLES1: u64 = 0x200_0000;

pub const CEPH_FEATURE_CREATEPOOLID: u64 = 0x400_0000;

pub const CEPH_FEATURE_REPLY_CREATE_INODE: u64 = 0x800_0000;

pub const CEPH_FEATURE_OSD_HBMSGS: u64 = 0x1000_0000;

pub const CEPH_FEATURE_MDSENC: u64 = 0x2000_0000;

pub const CEPH_FEATURE_OSDHASHPSPOOL: u64 = 0x4000_0000;

pub const CEPH_FEATURE_MON_SINGLE_PAXOS: u64 = 0x8000_0000;

pub const CEPH_FEATURE_OSD_SNAPMAPPER: u64 = 0x1_0000_0000;

pub const CEPH_FEATURE_MON_SCRUB: u64 = 0x2_0000_0000;

pub const CEPH_FEATURE_OSD_PACKED_RECOVERY: u64 = 0x4_0000_0000;

pub const CEPH_FEATURE_OSD_CACHEPOOL: u64 = 0x8_0000_0000;

pub const CEPH_FEATURE_CRUSH_V2: u64 = 0x10_0000_0000;

pub const CEPH_FEATURE_EXPORT_PEER: u64 = 0x20_0000_0000;

pub const CEPH_FEATURE_OSD_ERASURE_CODES: u64 = 0x40_0000_0000;

pub const CEPH_FEATURE_OSDMAP_ENC: u64 = 0x80_0000_0000;

pub const CEPH_FEATURE_MDS_INLINE_DATA: u64 = 0x100_0000_0000;

pub const CEPH_FEATURE_CRUSH_TUNABLES3: u64 = 0x200_0000_0000;

/// Bit 41, which `CEPH_FEATURE_CRUSH_TUNABLES3` names too.
pub const CEPH_FEATURE_OSD_PRIMARY_AFFINITY: u64 = 0x200_0000_0000;

pub const CEPH_FEATURE_MSGR_KEEPALIVE2: u64 = 0x400_0000_0000;

pub const CEPH_FEATURE_OSD_POOLRESEND: u64 = 0x800_0000_0000;

pub const CEPH_FEATURE_ERASURE_CODE_PLUGINS_V2: u64 = 0x1000_0000_0000;

pub const CEPH_FEATURE_OSD_SET_ALLOC_HINT: u64 = 0x2000_0000_0000;

pub const CEPH_FEATURE_OSD_FADVISE_FLAGS: u64 = 0x4000_0000_0000;

/// Bit 46, which `CEPH_FEATURE_OSD_FADVISE_FLAGS` names too.
pub const CEPH_FEATURE_OSD_REPOP: u64 = 0x4000_0000_0000;

/// Bit 46, which `CEPH_FEATURE_OSD_FADVISE_FLAGS` names too.
pub const CEPH_FEATURE_OSD_OBJECT_DIGEST: u64 = 0x4000_0000_0000;

/// Bit 46, which `CEPH_FEATURE_OSD_FADVISE_FLAGS` names too.
pub const CEPH_FEATURE_OSD_TRANSACTION_MAY_LAYOUT: u64 = 0x4000_0000_0000;

pub const CEPH_FEATURE_MDS_QUOTA: u64 = 0x8000_0000_0000;

pub const CEPH_FEATURE_CRUSH_V4: u64 = 0x1_0000_0000_0000;

pub const CEPH_FEATURE_OSD_MIN_SIZE_RECOVERY: u64 = 0x2_0000_0000_0000;

/// Bit 49, which `CEPH_FEATURE_OSD_MIN_SIZE_RECOVERY` names too.
pub const CEPH_FEATURE_OSD_PROXY_FEATURES: u64 = 0x2_0000_0000_0000;

pub const CEPH_FEATURE_MON_METADATA: u64 = 0x4_0000_0000_0000;

pub const CEPH_FEATURE_OSD_BITWISE_HOBJ_SORT: u64 = 0x8_0000_0000_0000;

pub const CEPH_FEATURE_ERASURE_CODE_PLUGINS_V3: u64 = 0x10_0000_0000_0000;

pub const CEPH_FEATURE_OSD_PROXY_WRITE_FEATURES: u64 = 0x20_0000_0000_0000;

pub const CEPH_FEATURE_OSD_HITSET_GMT: u64 = 0x40_0000_0000_0000;

pub const CEPH_FEATURE_RESERVED2: u64 = 0x2000_0000_0000_0000;

pub const CEPH_FEATURE_RESERVED: u64 = 0x4000_0000_0000_0000;

pub const CEPH_FEATURE_RESERVED_BROKEN: u64 = 0x8000_0000_0000_0000;

/// What a client offers by default: the features of bits 0 to 39.
pub const CEPH_CLIENT_DEFAULT: u64 = 0xff_ffff_ffff;

/// Every feature that is in use: the features of bits 0 to 54.
pub const CEPH_ALL: u64 = 0x7f_ffff_ffff_ffff;

/// Every bit that has a name, the three reserved ones among them.
pub const CEPH_NAMED: u64 = 0xe07f_ffff_ffff_ffff;

/// A set of capabilities, one bit each. Several names may stand for one bit, and a bit
/// without a name is kept as it is.
#[derive(Debug, Clone, Copy, PartialEq, Eq, Structural)]
pub struct CephFeatures {
    pub bits: u64,
}

impl View for CephFeatures {
    type V = CephFeatures;

    open spec fn view(&self) -> CephFeatures {
        *self
    }
}

impl CephFeatures {
    /// Whether bit `n` is set. The bits are those from 0 to 63.
    pub open spec fn spec_is_set(self, n: u32) -> bool {
        n < 64 && (self.bits >> n) & 1 == 1
    }

    /// Whether every bit of `other` is set.
    pub open spec fn spec_contains(self, other: CephFeatures) -> bool {
        self.bits & other.bits == other.bits
    }

    /// The set without any capability.
    pub fn empty() -> (r: CephFeatures)
        ensures
            r.bits == 0,
    {
        CephFeatures { bits: 0 }
    }

    /// The set of every capability that has a name.
    pub fn all() -> (r: CephFeatures)
        ensures
            r.bits == CEPH_NAMED,
    {
        CephFeatures { bits: CEPH_NAMED }
    }

    /// The set with these bits, where each of them has a name.
    pub fn from_bits(bits: u64) -> (r: Option<CephFeatures>)
        ensures
            r == if bits & !CEPH_NAMED == 0 {
                Some(CephFeatures { bits })
            } else {
                None
            },
    {
        if bits & !CEPH_NAMED == 0 {
            Some(CephFeatures { bits })
        } else {
            None
        }
    }

    /// The set with those of these bits that have a name.
    pub fn from_bits_truncate(bits: u64) -> (r: CephFeatures)
        ensures
            r.bits == bits & CEPH_NAMED,
    {
        CephFeatures { bits: bits & CEPH_NAMED }
    }

    pub fn bits(&self) -> (r: u64)
        ensures
            r == self.bits,
    {
        self.bits
    }

    /// Whether bit `n` is set.
    pub fn is_set(&self, n: u32) -> (r: bool)
        ensures
            r == self.spec_is_set(n),
    {
        n < 64 && (self.bits >> n) & 1 == 1
    }

    pub fn contains(&self, other: CephFeatures) -> (r: bool)
        ensures
            r == self.spec_contains(other),
    {
        self.bits & other.bits == other.bits
    }

    pub fn union(self, other: CephFeatures) -> (r: CephFeatures)
        ensures
            r.bits == self.bits | other.bits,
    {
        CephFeatures { bits: self.bits | other.bits }
    }

    pub fn intersection(self, other: CephFeatures) -> (r: CephFeatures)
        ensures
            r.bits == self.bits & other.bits,
    {
        CephFeatures { bits: self.bits & other.bits }
    }

    /// A bit is set in a union where it is set in one of the two.
    pub proof fn law_union(a: CephFeatures, b: CephFeatures, n: u32)
        ensures
            (CephFeatures { bits: a.bits | b.bits }).spec_is_set(n) <==> a.spec_is_set(n)
                || b.spec_is_set(n),
    {
        let x = a.bits;
        let y = b.bits;
        if n < 64 {
            assert((((x | y) >> n) & 1 == 1) <==> ((x >> n) & 1 == 1 || (y >> n) & 1 == 1))
                by (bit_vector)
                requires
                    n < 64,
            ;
        }
    }

    /// A bit is set in an intersection where it is set in both.
    pub proof fn law_intersection(a: CephFeatures, b: CephFeatures, n: u32)
        ensures
            (CephFeatures { bits: a.bits & b.bits }).spec_is_set(n) <==> a.spec_is_set(n)
                && b.spec_is_set(n),
    {
        let x = a.bits;
        let y = b.bits;
        if n < 64 {
            assert((((x & y) >> n) & 1 == 1) <==> ((x >> n) & 1 == 1 && (y >> n) & 1 == 1))
                by (bit_vector)
                requires
                    n < 64,
            ;
        }
    }

    /// The mask of value 1 has bit 0 set and no other.
    pub proof fn law_mask_one(n: u32)
        ensures
            (CephFeatures { bits: 1 }).spec_is_set(n) <==> n == 0,
    {
        if n < 64 {
            assert((((1u64 >> n) & 1) == 1) <==> n == 0) by (bit_vector)
                requires
                    n < 64,
            ;
        }
    }

    /// The two composite masks are the unions of the named bits that they stand for.
    pub proof fn law_composites()
        ensures
            CEPH_CLIENT_DEFAULT == CEPH_FEATURE_UID
                | CEPH_FEATURE_NOSRCADDR
                | CEPH_FEATURE_MONCLOCKCHECK
                | CEPH_FEATURE_FLOCK
                | CEPH_FEATURE_SUBSCRIBE2
                | CEPH_FEATURE_MONNAME
                | CEPH_FEATURE_RECONNECT_SEQ
                | CEPH_FEATURE_DIRLAYOUTHASH
                | CEPH_FEATURE_OBJECTLOCATOR
                | CEPH_FEATURE_PGID64
                | CEPH_FEATURE_INCSUBOSDMAP
                | CEPH_FEATURE_PGPOOL3
                | CEPH_FEATURE_OSDREPLYMUX
                | CEPH_FEATURE_OSDENC
                | CEPH_FEATURE_OMAP
                | CEPH_FEATURE_QUERY_T
                | CEPH_FEATURE_MONENC
                | CEPH_FEATURE_INDEP_PG_MAP
                | CEPH_FEATURE_CRUSH_TUNABLES
                | CEPH_FEATURE_CHUNKY_SCRUB
                | CEPH_FEATURE_MON_NULLROUTE
                | CEPH_FEATURE_MON_GV
                | CEPH_FEATURE_BACKFILL_RESERVATION
                | CEPH_FEATURE_MSG_AUTH
                | CEPH_FEATURE_RECOVERY_RESERVATION
                | CEPH_FEATURE_CRUSH_TUNABLES1
                | CEPH_FEATURE_CREATEPOOLID
                | CEPH_FEATURE_REPLY_CREATE_INODE
                | CEPH_FEATURE_OSD_HBMSGS
                | CEPH_FEATURE_MDSENC
                | CEPH_FEATURE_OSDHASHPSPOOL
                | CEPH_FEATURE_MON_SINGLE_PAXOS
                | CEPH_FEATURE_OSD_SNAPMAPPER
                | CEPH_FEATURE_MON_SCRUB
                | CEPH_FEATURE_OSD_PACKED_RECOVERY
                | CEPH_FEATURE_OSD_CACHEPOOL
                | CEPH_FEATURE_CRUSH_V2
                | CEPH_FEATURE_EXPORT_PEER
                | CEPH_FEATURE_OSD_ERASURE_CODES
                | CEPH_FEATURE_OSDMAP_ENC,
            CEPH_ALL == CEPH_FEATURE_UID
                | CEPH_FEATURE_NOSRCADDR
                | CEPH_FEATURE_MONCLOCKCHECK
                | CEPH_FEATURE_FLOCK
                | CEPH_FEATURE_SUBSCRIBE2
                | CEPH_FEATURE_MONNAME
                | CEPH_FEATURE_RECONNECT_SEQ
                | CEPH_FEATURE_DIRLAYOUTHASH
                | CEPH_FEATURE_OBJECTLOCATOR
                | CEPH_FEATURE_PGID64
                | CEPH_FEATURE_INCSUBOSDMAP
                | CEPH_FEATURE_PGPOOL3
                | CEPH_FEATURE_OSDREPLYMUX
                | CEPH_FEATURE_OSDENC
                | CEPH_FEATURE_OMAP
                | CEPH_FEATURE_QUERY_T
                | CEPH_FEATURE_MONENC
                | CEPH_FEATURE_INDEP_PG_MAP
                | CEPH_FEATURE_CRUSH_TUNABLES
                | CEPH_FEATURE_CHUNKY_SCRUB
                | CEPH_FEATURE_MON_NULLROUTE
                | CEPH_FEATURE_MON_GV
                | CEPH_FEATURE_BACKFILL_RESERVATION
                | CEPH_FEATURE_MSG_AUTH
                | CEPH_FEATURE_RECOVERY_RESERVATION
                | CEPH_FEATURE_CRUSH_TUNABLES1
                | CEPH_FEATURE_CREATEPOOLID
                | CEPH_FEATURE_REPLY_CREATE_INODE
                | CEPH_FEATURE_OSD_HBMSGS
                | CEPH_FEATURE_MDSENC
                | CEPH_FEATURE_OSDHASHPSPOOL
                | CEPH_FEATURE_MON_SINGLE_PAXOS
                | CEPH_FEATURE_OSD_SNAPMAPPER
                | CEPH_FEATURE_MON_SCRUB
                | CEPH_FEATURE_OSD_PACKED_RECOVERY
                | CEPH_FEATURE_OSD_CACHEPOOL
                | CEPH_FEATURE_CRUSH_V2
                | CEPH_FEATURE_EXPORT_PEER
                | CEPH_FEATURE_OSD_ERASURE_CODES
                | CEPH_FEATURE_OSDMAP_ENC
                | CEPH_FEATURE_MDS_INLINE_DATA
                | CEPH_FEATURE_CRUSH_TUNABLES3
                | CEPH_FEATURE_OSD_PRIMARY_AFFINITY
                | CEPH_FEATURE_MSGR_KEEPALIVE2
                | CEPH_FEATURE_OSD_POOLRESEND
                | CEPH_FEATURE_ERASURE_CODE_PLUGINS_V2
                | CEPH_FEATURE_OSD_SET_ALLOC_HINT
                | CEPH_FEATURE_OSD_FADVISE_FLAGS
                | CEPH_FEATURE_OSD_REPOP
                | CEPH_FEATURE_OSD_OBJECT_DIGEST
                | CEPH_FEATURE_OSD_TRANSACTION_MAY_LAYOUT
                | CEPH_FEATURE_MDS_QUOTA
                | CEPH_FEATURE_CRUSH_V4
                | CEPH_FEATURE_OSD_MIN_SIZE_RECOVERY
                | CEPH_FEATURE_OSD_PROXY_FEATURES
                | CEPH_FEATURE_MON_METADATA
                | CEPH_FEATURE_OSD_BITWISE_HOBJ_SORT
                | CEPH_FEATURE_ERASURE_CODE_PLUGINS_V3
                | CEPH_FEATURE_OSD_PROXY_WRITE_FEATURES
                | CEPH_FEATURE_OSD_HITSET_GMT,
            CEPH_NAMED == CEPH_FEATURE_UID
                | CEPH_FEATURE_NOSRCADDR
                | CEPH_FEATURE_MONCLOCKCHECK
                | CEPH_FEATURE_FLOCK
                | CEPH_FEATURE_SUBSCRIBE2
                | CEPH_FEATURE_MONNAME
                | CEPH_FEATURE_RECONNECT_SEQ
                | CEPH_FEATURE_DIRLAYOUTHASH
                | CEPH_FEATURE_OBJECTLOCATOR
                | CEPH_FEATURE_PGID64
                | CEPH_FEATURE_INCSUBOSDMAP
                | CEPH_FEATURE_PGPOOL3
                | CEPH_FEATURE_OSDREPLYMUX
                | CEPH_FEATURE_OSDENC
                | CEPH_FEATURE_OMAP
                | CEPH_FEATURE_QUERY_T
                | CEPH_FEATURE_MONENC
                | CEPH_FEATURE_INDEP_PG_MAP
                | CEPH_FEATURE_CRUSH_TUNABLES
                | CEPH_FEATURE_CHUNKY_SCRUB
                | CEPH_FEATURE_MON_NULLROUTE
                | CEPH_FEATURE_MON_GV
                | CEPH_FEATURE_BACKFILL_RESERVATION
                | CEPH_FEATURE_MSG_AUTH
                | CEPH_FEATURE_RECOVERY_RESERVATION
                | CEPH_FEATURE_CRUSH_TUNABLES1
                | CEPH_FEATURE_CREATEPOOLID
                | CEPH_FEATURE_REPLY_CREATE_INODE
                | CEPH_FEATURE_OSD_HBMSGS
                | CEPH_FEATURE_MDSENC
                | CEPH_FEATURE_OSDHASHPSPOOL
                | CEPH_FEATURE_MON_SINGLE_PAXOS
                | CEPH_FEATURE_OSD_SNAPMAPPER
                | CEPH_FEATURE_MON_SCRUB
                | CEPH_FEATURE_OSD_PACKED_RECOVERY
                | CEPH_FEATURE_OSD_CACHEPOOL
                | CEPH_FEATURE_CRUSH_V2
                | CEPH_FEATURE_EXPORT_PEER
                | CEPH_FEATURE_OSD_ERASURE_CODES
                | CEPH_FEATURE_OSDMAP_ENC
                | CEPH_FEATURE_MDS_INLINE_DATA
                | CEPH_FEATURE_CRUSH_TUNABLES3
                | CEPH_FEATURE_OSD_PRIMARY_AFFINITY
                | CEPH_FEATURE_MSGR_KEEPALIVE2
                | CEPH_FEATURE_OSD_POOLRESEND
                | CEPH_FEATURE_ERASURE_CODE_PLUGINS_V2
                | CEPH_FEATURE_OSD_SET_ALLOC_HINT
                | CEPH_FEATURE_OSD_FADVISE_FLAGS
                | CEPH_FEATURE_OSD_REPOP
                | CEPH_FEATURE_OSD_OBJECT_DIGEST
                | CEPH_FEATURE_OSD_TRANSACTION_MAY_LAYOUT
                | CEPH_FEATURE_MDS_QUOTA
                | CEPH_FEATURE_CRUSH_V4
                | CEPH_FEATURE_OSD_MIN_SIZE_RECOVERY
                | CEPH_FEATURE_OSD_PROXY_FEATURES
                | CEPH_FEATURE_MON_METADATA
                | CEPH_FEATURE_OSD_BITWISE_HOBJ_SORT
                | CEPH_FEATURE_ERASURE_CODE_PLUGINS_V3
                | CEPH_FEATURE_OSD_PROXY_WRITE_FEATURES
                | CEPH_FEATURE_OSD_HITSET_GMT
                | CEPH_FEATURE_RESERVED2
                | CEPH_FEATURE_RESERVED
                | CEPH_FEATURE_RESERVED_BROKEN,
    {
        assert(CEPH_CLIENT_DEFAULT == CEPH_FEATURE_UID
            | CEPH_FEATURE_NOSRCADDR
            | CEPH_FEATURE_MONCLOCKCHECK
            | CEPH_FEATURE_FLOCK
            | CEPH_FEATURE_SUBSCRIBE2
            | CEPH_FEATURE_MONNAME
            | CEPH_FEATURE_RECONNECT_SEQ
            | CEPH_FEATURE_DIRLAYOUTHASH
            | CEPH_FEATURE_OBJECTLOCATOR
            | CEPH_FEATURE_PGID64
            | CEPH_FEATURE_INCSUBOSDMAP
            | CEPH_FEATURE_PGPOOL3
            | CEPH_FEATURE_OSDREPLYMUX
            | CEPH_FEATURE_OSDENC
            | CEPH_FEATURE_OMAP
            | CEPH_FEATURE_QUERY_T
            | CEPH_FEATURE_MONENC
            | CEPH_FEATURE_INDEP_PG_MAP
            | CEPH_FEATURE_CRUSH_TUNABLES
            | CEPH_FEATURE_CHUNKY_SCRUB
            | CEPH_FEATURE_MON_NULLROUTE
            | CEPH_FEATURE_MON_GV
            | CEPH_FEATURE_BACKFILL_RESERVATION
            | CEPH_FEATURE_MSG_AUTH
            | CEPH_FEATURE_RECOVERY_RESERVATION
            | CEPH_FEATURE_CRUSH_TUNABLES1
            | CEPH_FEATURE_CREATEPOOLID
            | CEPH_FEATURE_REPLY_CREATE_INODE
            | CEPH_FEATURE_OSD_HBMSGS
            | CEPH_FEATURE_MDSENC
            | CEPH_FEATURE_OSDHASHPSPOOL
            | CEPH_FEATURE_MON_SINGLE_PAXOS
            | CEPH_FEATURE_OSD_SNAPMAPPER
            | CEPH_FEATURE_MON_SCRUB
            | CEPH_FEATURE_OSD_PACKED_RECOVERY
            | CEPH_FEATURE_OSD_CACHEPOOL
            | CEPH_FEATURE_CRUSH_V2
            | CEPH_FEATURE_EXPORT_PEER
            | CEPH_FEATURE_OSD_ERASURE_CODES
            | CEPH_FEATURE_OSDMAP_ENC) by (bit_vector);
        assert(CEPH_ALL == CEPH_FEATURE_UID
            | CEPH_FEATURE_NOSRCADDR
            | CEPH_FEATURE_MONCLOCKCHECK
            | CEPH_FEATURE_FLOCK
            | CEPH_FEATURE_SUBSCRIBE2
            | CEPH_FEATURE_MONNAME
            | CEPH_FEATURE_RECONNECT_SEQ
            | CEPH_FEATURE_DIRLAYOUTHASH
            | CEPH_FEATURE_OBJECTLOCATOR
            | CEPH_FEATURE_PGID64
            | CEPH_FEATURE_INCSUBOSDMAP
            | CEPH_FEATURE_PGPOOL3
            | CEPH_FEATURE_OSDREPLYMUX
            | CEPH_FEATURE_OSDENC
            | CEPH_FEATURE_OMAP
            | CEPH_FEATURE_QUERY_T
            | CEPH_FEATURE_MONENC
            | CEPH_FEATURE_INDEP_PG_MAP
            | CEPH_FEATURE_CRUSH_TUNABLES
            | CEPH_FEATURE_CHUNKY_SCRUB
            | CEPH_FEATURE_MON_NULLROUTE
            | CEPH_FEATURE_MON_GV
            | CEPH_FEATURE_BACKFILL_RESERVATION
            | CEPH_FEATURE_MSG_AUTH
            | CEPH_FEATURE_RECOVERY_RESERVATION
            | CEPH_FEATURE_CRUSH_TUNABLES1
            | CEPH_FEATURE_CREATEPOOLID
            | CEPH_FEATURE_REPLY_CREATE_INODE
            | CEPH_FEATURE_OSD_HBMSGS
            | CEPH_FEATURE_MDSENC
            | CEPH_FEATURE_OSDHASHPSPOOL
            | CEPH_FEATURE_MON_SINGLE_PAXOS
            | CEPH_FEATURE_OSD_SNAPMAPPER
            | CEPH_FEATURE_MON_SCRUB
            | CEPH_FEATURE_OSD_PACKED_RECOVERY
            | CEPH_FEATURE_OSD_CACHEPOOL
            | CEPH_FEATURE_CRUSH_V2
            | CEPH_FEATURE_EXPORT_PEER
            | CEPH_FEATURE_OSD_ERASURE_CODES
            | CEPH_FEATURE_OSDMAP_ENC
            | CEPH_FEATURE_MDS_INLINE_DATA
            | CEPH_FEATURE_CRUSH_TUNABLES3
            | CEPH_FEATURE_OSD_PRIMARY_AFFINITY
            | CEPH_FEATURE_MSGR_KEEPALIVE2
            | CEPH_FEATURE_OSD_POOLRESEND
            | CEPH_FEATURE_ERASURE_CODE_PLUGINS_V2
            | CEPH_FEATURE_OSD_SET_ALLOC_HINT
            | CEPH_FEATURE_OSD_FADVISE_FLAGS
            | CEPH_FEATURE_OSD_REPOP
            | CEPH_FEATURE_OSD_OBJECT_DIGEST
            | CEPH_FEATURE_OSD_TRANSACTION_MAY_LAYOUT
            | CEPH_FEATURE_MDS_QUOTA
            | CEPH_FEATURE_CRUSH_V4
            | CEPH_FEATURE_OSD_MIN_SIZE_RECOVERY
            | CEPH_FEATURE_OSD_PROXY_FEATURES
            | CEPH_FEATURE_MON_METADATA
            | CEPH_FEATURE_OSD_BITWISE_HOBJ_SORT
            | CEPH_FEATURE_ERASURE_CODE_PLUGINS_V3
            | CEPH_FEATURE_OSD_PROXY_WRITE_FEATURES
            | CEPH_FEATURE_OSD_HITSET_GMT) by (bit_vector);
        assert(CEPH_NAMED == CEPH_FEATURE_UID
            | CEPH_FEATURE_NOSRCADDR
            | CEPH_FEATURE_MONCLOCKCHECK
            | CEPH_FEATURE_FLOCK
            | CEPH_FEATURE_SUBSCRIBE2
            | CEPH_FEATURE_MONNAME
            | CEPH_FEATURE_RECONNECT_SEQ
            | CEPH_FEATURE_DIRLAYOUTHASH
            | CEPH_FEATURE_OBJECTLOCATOR
            | CEPH_FEATURE_PGID64
            | CEPH_FEATURE_INCSUBOSDMAP
            | CEPH_FEATURE_PGPOOL3
            | CEPH_FEATURE_OSDREPLYMUX
            | CEPH_FEATURE_OSDENC
            | CEPH_FEATURE_OMAP
            | CEPH_FEATURE_QUERY_T
            | CEPH_FEATURE_MONENC
            | CEPH_FEATURE_INDEP_PG_MAP
            | CEPH_FEATURE_CRUSH_TUNABLES
            | CEPH_FEATURE_CHUNKY_SCRUB
            | CEPH_FEATURE_MON_NULLROUTE
            | CEPH_FEATURE_MON_GV
            | CEPH_FEATURE_BACKFILL_RESERVATION
            | CEPH_FEATURE_MSG_AUTH
            | CEPH_FEATURE_RECOVERY_RESERVATION
            | CEPH_FEATURE_CRUSH_TUNABLES1
            | CEPH_FEATURE_CREATEPOOLID
            | CEPH_FEATURE_REPLY_CREATE_INODE
            | CEPH_FEATURE_OSD_HBMSGS
            | CEPH_FEATURE_MDSENC
            | CEPH_FEATURE_OSDHASHPSPOOL
            | CEPH_FEATURE_MON_SINGLE_PAXOS
            | CEPH_FEATURE_OSD_SNAPMAPPER
            | CEPH_FEATURE_MON_SCRUB
            | CEPH_FEATURE_OSD_PACKED_RECOVERY
            | CEPH_FEATURE_OSD_CACHEPOOL
            | CEPH_FEATURE_CRUSH_V2
            | CEPH_FEATURE_EXPORT_PEER
            | CEPH_FEATURE_OSD_ERASURE_CODES
            | CEPH_FEATURE_OSDMAP_ENC
            | CEPH_FEATURE_MDS_INLINE_DATA
            | CEPH_FEATURE_CRUSH_TUNABLES3
            | CEPH_FEATURE_OSD_PRIMARY_AFFINITY
            | CEPH_FEATURE_MSGR_KEEPALIVE2
            | CEPH_FEATURE_OSD_POOLRESEND
            | CEPH_FEATURE_ERASURE_CODE_PLUGINS_V2
            | CEPH_FEATURE_OSD_SET_ALLOC_HINT
            | CEPH_FEATURE_OSD_FADVISE_FLAGS
            | CEPH_FEATURE_OSD_REPOP
            | CEPH_FEATURE_OSD_OBJECT_DIGEST
            | CEPH_FEATURE_OSD_TRANSACTION_MAY_LAYOUT
            | CEPH_FEATURE_MDS_QUOTA
            | CEPH_FEATURE_CRUSH_V4
            | CEPH_FEATURE_OSD_MIN_SIZE_RECOVERY
            | CEPH_FEATURE_OSD_PROXY_FEATURES
            | CEPH_FEATURE_MON_METADATA
            | CEPH_FEATURE_OSD_BITWISE_HOBJ_SORT
            | CEPH_FEATURE_ERASURE_CODE_PLUGINS_V3
            | CEPH_FEATURE_OSD_PROXY_WRITE_FEATURES
            | CEPH_FEATURE_OSD_HITSET_GMT
            | CEPH_FEATURE_RESERVED2
            | CEPH_FEATURE_RESERVED
            | CEPH_FEATURE_RESERVED_BROKEN) by (bit_vector);
    }
}

/// The capability mask on the wire: eight bytes, little-endian, taken as they are.
#[verifier::opaque]
pub open spec fn take_features(s: Seq<u8>) -> Taken<CephFeatures> {
    match take_u64_le(s) {
        Err(e) => Err(e),
        Ok((bits, s1)) => Ok((CephFeatures { bits }, s1)),
    }
}

pub open spec fn features_bytes(f: CephFeatures) -> Seq<u8> {
    u64_le_bytes(f.bits)
}

pub broadcast proof fn lemma_take_features(f: CephFeatures, tail: Seq<u8>)
    ensures
        #[trigger] take_features(features_bytes(f) + tail) == Ok::<
            (CephFeatures, Seq<u8>),
            SerialError,
        >((f, tail)),
{
    reveal(take_features);
    lemma_take_u64_le(f.bits, tail);
}

pub broadcast proof fn lemma_behind_take_features(s: Seq<u8>)
    ensures
        #[trigger] take_features(s) matches Ok((_, r)) ==> behind(r, s, 8),
{
    reveal(take_features);
    lemma_behind_take_u64_le(s);
}

pub fn read_features<'a>(input: &'a [u8]) -> (r: Result<(CephFeatures, &'a [u8]), SerialError>)
    ensures
        decoded(r) == take_features(input@),
{
    proof {
        reveal(take_features);
    }
    let (bits, rest) = le_u64(input)?;
    Ok((CephFeatures { bits }, rest))
}

pub fn put_features(buf: &mut Vec<u8>, f: CephFeatures)
    ensures
        final(buf)@ == old(buf)@ + features_bytes(f),
{
    put_u64_le(buf, f.bits);
}

/// Wants, or is, an acknowledgement.
pub const CEPH_OSD_FLAG_ACK: u32 = 0x1;

/// Wants, or is, an acknowledgement once in non-volatile memory.
pub const CEPH_OSD_FLAG_ONNVRAM: u32 = 0x2;

/// Wants, or is, an acknowledgement once on disk.
pub const CEPH_OSD_FLAG_ACK_ONDISK: u32 = 0x4;

/// A resend.
pub const CEPH_OSD_FLAG_RETRY: u32 = 0x8;

/// The operation may read.
pub const CEPH_OSD_FLAG_READ: u32 = 0x10;

/// The operation may write.
pub const CEPH_OSD_FLAG_WRITE: u32 = 0x20;

/// Fail where the snapshot context is out of order.
pub const CEPH_OSD_FLAG_ORDERSNAP: u32 = 0x40;

/// Deprecated: the message carries peer statistics.
pub const CEPH_OSD_FLAG_PEERSTAT_OLD: u32 = 0x80;

pub const CEPH_OSD_FLAG_BALANCE_READS: u32 = 0x100;

/// Execute the operation in parallel.
pub const CEPH_OSD_FLAG_PARALLELEXEC: u32 = 0x200;

/// An operation on a placement group, without an object.
pub const CEPH_OSD_FLAG_PGOP: u32 = 0x400;

/// The operation may execute.
pub const CEPH_OSD_FLAG_EXEC: u32 = 0x800;

/// Deprecated: the operation may execute, publicly.
pub const CEPH_OSD_FLAG_EXEC_PUBLIC: u32 = 0x1000;

/// Read from a nearby replica, if there is one.
pub const CEPH_OSD_FLAG_LOCALIZE_READS: u32 = 0x2000;

/// Order with respect to concurrent reads.
pub const CEPH_OSD_FLAG_RWORDERED: u32 = 0x4000;

/// Pass by the cache logic.
pub const CEPH_OSD_FLAG_IGNORE_CACHE: u32 = 0x8000;

/// Take no read-write locks.
pub const CEPH_OSD_FLAG_SKIPRWLOCKS: u32 = 0x1_0000;

/// Pass by the pool overlay.
pub const CEPH_OSD_FLAG_IGNORE_OVERLAY: u32 = 0x2_0000;

/// Part of a flush.
pub const CEPH_OSD_FLAG_FLUSH: u32 = 0x4_0000;

/// Map a snapshot directly to its clone.
pub const CEPH_OSD_FLAG_MAP_SNAP_CLONE: u32 = 0x8_0000;

/// Use the snapshot context given.
pub const CEPH_OSD_FLAG_ENFORCE_SNAPC: u32 = 0x10_0000;

/// The operation has been redirected.
pub const CEPH_OSD_FLAG_REDIRECTED: u32 = 0x20_0000;

/// The redirect bit is authoritative.
pub const CEPH_OSD_FLAG_KNOWN_REDIR: u32 = 0x40_0000;

/// Every flag of an object-storage operation that has a name.
pub const CEPH_OSD_FLAG_NAMED: u32 = 0x7f_ffff;

/// The flags of an object-storage operation. A bit without a name is refused.
#[derive(Debug, Clone, Copy, PartialEq, Eq, Structural)]
pub struct OsdOp {
    pub bits: u32,
}

impl View for OsdOp {
    type V = OsdOp;

    open spec fn view(&self) -> OsdOp {
        *self
    }
}

impl OsdOp {
    /// Whether each of these bits has a name.
    pub open spec fn spec_named(bits: u32) -> bool {
        bits & !CEPH_OSD_FLAG_NAMED == 0
    }

    /// Whether every bit of `other` is set.
    pub open spec fn spec_contains(self, other: OsdOp) -> bool {
        self.bits & other.bits == other.bits
    }

    /// The set without any flag.
    pub fn empty() -> (r: OsdOp)
        ensures
            r.bits == 0,
    {
        OsdOp { bits: 0 }
    }

    /// The set of every flag that has a name.
    pub fn all() -> (r: OsdOp)
        ensures
            r.bits == CEPH_OSD_FLAG_NAMED,
    {
        OsdOp { bits: CEPH_OSD_FLAG_NAMED }
    }

    /// The set with these bits, where each of them has a name.
    pub fn from_bits(bits: u32) -> (r: Option<OsdOp>)
        ensures
            r == if OsdOp::spec_named(bits) {
                Some(OsdOp { bits })
            } else {
                None
            },
    {
        if bits & !CEPH_OSD_FLAG_NAMED == 0 {
            Some(OsdOp { bits })
        } else {
            None
        }
    }

    pub fn bits(&self) -> (r: u32)
        ensures
            r == self.bits,
    {
        self.bits
    }

    pub fn contains(&self, other: OsdOp) -> (r: bool)
        ensures
            r == self.spec_contains(other),
    {
        self.bits & other.bits == other.bits
    }

    pub fn union(self, other: OsdOp) -> (r: OsdOp)
        ensures
            r.bits == self.bits | other.bits,
    {
        OsdOp { bits: self.bits | other.bits }
    }

    pub fn intersection(self, other: OsdOp) -> (r: OsdOp)
        ensures
            r.bits == self.bits & other.bits,
    {
        OsdOp { bits: self.bits & other.bits }
    }

    /// The named flags are the bits 0 to 22, so a set of them is a number below 2^23.
    pub proof fn law_named(bits: u32)
        ensures
            OsdOp::spec_named(bits) <==> bits < 0x80_0000,
    {
        assert((bits & !0x7f_ffffu32 == 0) <==> bits < 0x80_0000u32) by (bit_vector);
    }
}

/// The flags on the wire: four bytes, little-endian, each set bit with a name.
#[verifier::opaque]
pub open spec fn take_osd_flags(s: Seq<u8>) -> Taken<OsdOp> {
    match take_u32_le(s) {
        Err(e) => Err(e),
        Ok((bits, s1)) => if OsdOp::spec_named(bits) {
            Ok((OsdOp { bits }, s1))
        } else {
            Err(SerialError::InvalidEnumValue { field: WireField::OsdFlags, code: bits as u64 })
        },
    }
}

pub open spec fn osd_flags_bytes(f: OsdOp) -> Seq<u8> {
    u32_le_bytes(f.bits)
}

pub broadcast proof fn lemma_take_osd_flags(f: OsdOp, tail: Seq<u8>)
    requires
        OsdOp::spec_named(f.bits),
    ensures
        #[trigger] take_osd_flags(osd_flags_bytes(f) + tail) == Ok::<(OsdOp, Seq<u8>), SerialError>(
            (f, tail),
        ),
{
    reveal(take_osd_flags);
    lemma_take_u32_le(f.bits, tail);
}

pub broadcast proof fn lemma_behind_take_osd_flags(s: Seq<u8>)
    ensures
        #[trigger] take_osd_flags(s) matches Ok((_, r)) ==> behind(r, s, 4),
{
    reveal(take_osd_flags);
    lemma_behind_take_u32_le(s);
}

pub fn read_osd_flags<'a>(input: &'a [u8]) -> (r: Result<(OsdOp, &'a [u8]), SerialError>)
    ensures
        decoded(r) == take_osd_flags(input@),
{
    proof {
        reveal(take_osd_flags);
    }
    let (bits, rest) = le_u32(input)?;
    match OsdOp::from_bits(bits) {
        Some(flags) => Ok((flags, rest)),
        None => Err(
            SerialError::InvalidEnumValue {
                field: WireField::OsdFlags,
                code: bits as u64,
            },
        ),
    }
}

pub fn put_osd_flags(buf: &mut Vec<u8>, f: OsdOp)
    ensures
        final(buf)@ == old(buf)@ + osd_flags_bytes(f),
{
    put_u32_le(buf, f.bits);
}

/// The steps of this module, each leaving what stood behind the bytes that it took.
pub broadcast group group_behind_flags {
    lemma_behind_take_features,
    lemma_behind_take_osd_flags,
}

/// The steps of this module, each undoing the bytes of its value.
pub broadcast group group_take_flags {
    lemma_take_features,
    lemma_take_osd_flags,
}

} // verus!
