use decode_ceph::enums::{parse_protocol, read_entity, read_entity_u32, read_msg_type};
use decode_ceph::enums::{read_priority, read_protocol, read_tag};
use decode_ceph::enums::{CephAuthProtocol, CephEntity, CephMsg, CephMsgType};
use decode_ceph::enums::{CephPriority, Protocol};
use decode_ceph::error::{SerialError, WireField};
use decode_ceph::features::{read_features, read_osd_flags, CephFeatures, OsdOp};
use decode_ceph::features::{CEPH_ALL, CEPH_CLIENT_DEFAULT, CEPH_FEATURE_CRUSH_TUNABLES3};
use decode_ceph::features::{CEPH_FEATURE_NOSRCADDR, CEPH_FEATURE_OSD_HITSET_GMT};
use decode_ceph::features::{CEPH_FEATURE_OSD_PRIMARY_AFFINITY, CEPH_FEATURE_RESERVED_BROKEN};
use decode_ceph::features::{CEPH_FEATURE_UID, CEPH_NAMED, CEPH_OSD_FLAG_ACK_ONDISK};
use decode_ceph::features::{CEPH_OSD_FLAG_KNOWN_REDIR, CEPH_OSD_FLAG_NAMED, CEPH_OSD_FLAG_WRITE};

#[test]
fn tags_have_their_codes() {
    let all = [
        (CephMsg::Ready, 1u8),
        (CephMsg::Reset, 2),
        (CephMsg::Wait, 3),
        (CephMsg::RetrySession, 4),
        (CephMsg::RetryGlobal, 5),
        (CephMsg::Close, 6),
        (CephMsg::Msg, 7),
        (CephMsg::Ack, 8),
        (CephMsg::KeepAlive, 9),
        (CephMsg::BadProtocolVersion, 10),
        (CephMsg::BadAuthorizer, 11),
        (CephMsg::InsufficientFeatures, 12),
        (CephMsg::Sequence, 13),
        (CephMsg::KeepAlive2, 14),
        (CephMsg::KeepAlive2Ack, 15),
        (CephMsg::Unknown, 20),
    ];
    for (tag, code) in all {
        assert_eq!(tag.code(), code);
        assert_eq!(CephMsg::from_u8(code), Some(tag));
    }
    assert_eq!(CephMsg::from_u8(0), None);
    assert_eq!(CephMsg::from_u8(16), None);
    assert_eq!(CephMsg::from_u8(63), None);
    assert_eq!(CephMsg::from_u8(255), None);
}

#[test]
fn every_code_names_at_most_the_variant_that_has_it() {
    for code in 0..=u16::MAX {
        if let Some(t) = CephMsgType::from_u16(code) {
            assert_eq!(t.code(), code);
        }
        if let Some(p) = CephPriority::from_u16(code) {
            assert_eq!(p.code(), code);
        }
    }
    for code in 0..=u8::MAX {
        if let Some(t) = CephMsg::from_u8(code) {
            assert_eq!(t.code(), code);
        }
        if let Some(e) = CephEntity::from_u8(code) {
            assert_eq!(e.code(), code);
        }
    }
}

#[test]
fn message_types_have_their_codes() {
    assert_eq!(CephMsgType::from_u16(42), Some(CephMsgType::MsgOsdOp));
    assert_eq!(CephMsgType::from_u16(18), Some(CephMsgType::MsgAuthReply));
    assert_eq!(CephMsgType::from_u16(17), Some(CephMsgType::MsgAuth));
    assert_eq!(CephMsgType::from_u16(1), Some(CephMsgType::MsgCrcData));
    assert_eq!(CephMsgType::from_u16(2), Some(CephMsgType::MsgCrcHeader));
    assert_eq!(CephMsgType::from_u16(150), Some(CephMsgType::MsgOsdRecoveryReserve));
    assert_eq!(CephMsgType::from_u16(0x600), Some(CephMsgType::MsgTimecheck));
    assert_eq!(CephMsgType::from_u16(0x607), Some(CephMsgType::MsgNop));
    assert_eq!(CephMsgType::MsgMonCommand.code(), 50);
    assert_eq!(CephMsgType::MsgOsdSubopReply.code(), 77);
    assert_eq!(CephMsgType::from_u16(0), None);
    assert_eq!(CephMsgType::from_u16(3), None);
    assert_eq!(CephMsgType::from_u16(45), None);
    assert_eq!(CephMsgType::from_u16(0x603), None);
    assert_eq!((0..=u16::MAX).filter(|c| CephMsgType::from_u16(*c).is_some()).count(), 77);
}

#[test]
fn tag_and_message_type_are_told_apart() {
    // the number 7 is the tag of a message and the type of a metadata request
    assert_eq!(CephMsg::from_u8(7), Some(CephMsg::Msg));
    assert_eq!(CephMsgType::from_u16(7), Some(CephMsgType::MsgMonMetadata));
    // the number 8 is a tag and no message type
    assert_eq!(CephMsg::from_u8(8), Some(CephMsg::Ack));
    assert_eq!(CephMsgType::from_u16(8), None);
}

#[test]
fn small_enums_have_their_codes() {
    assert_eq!(CephEntity::from_u8(1), Some(CephEntity::Mon));
    assert_eq!(CephEntity::from_u8(2), Some(CephEntity::Mds));
    assert_eq!(CephEntity::from_u8(4), Some(CephEntity::Osd));
    assert_eq!(CephEntity::from_u8(8), Some(CephEntity::Client));
    assert_eq!(CephEntity::from_u8(20), Some(CephEntity::Auth));
    assert_eq!(CephEntity::from_u8(255), Some(CephEntity::Any));
    assert_eq!(CephEntity::from_u8(3), None);
    assert_eq!(CephEntity::from_u32(8), Some(CephEntity::Client));
    assert_eq!(CephEntity::from_u32(0x108), None);
    assert_eq!(CephEntity::Auth.code(), 20);
    assert_eq!(Protocol::from_u32(24), Some(Protocol::OsdProtocol));
    assert_eq!(Protocol::from_u32(32), Some(Protocol::MdsProtocol));
    assert_eq!(Protocol::from_u32(15), Some(Protocol::MonProtocol));
    assert_eq!(Protocol::from_u32(0), None);
    assert_eq!(Protocol::MonProtocol.code(), 15);
    assert_eq!(CephAuthProtocol::from_u32(0), Some(CephAuthProtocol::CephAuthUnknown));
    assert_eq!(CephAuthProtocol::from_u32(1), Some(CephAuthProtocol::CephAuthNone));
    assert_eq!(CephAuthProtocol::from_u32(2), Some(CephAuthProtocol::CephAuthCephx));
    assert_eq!(CephAuthProtocol::from_u32(3), None);
    assert_eq!(CephPriority::from_u16(64), Some(CephPriority::Low));
    assert_eq!(CephPriority::from_u16(127), Some(CephPriority::Default));
    assert_eq!(CephPriority::from_u16(196), Some(CephPriority::High));
    assert_eq!(CephPriority::from_u16(255), Some(CephPriority::Highest));
    assert_eq!(CephPriority::from_u16(63), None);
    assert_eq!(CephPriority::High.code(), 196);
}

#[test]
fn an_unknown_code_is_reported_with_its_field() {
    let empty: &[u8] = &[];
    assert_eq!(read_tag(&[8]), Ok((CephMsg::Ack, empty)));
    assert_eq!(
        read_tag(&[99]),
        Err(SerialError::InvalidEnumValue { field: WireField::Tag, code: 99 })
    );
    assert_eq!(read_tag(&[]), Err(SerialError::Incomplete));
    assert_eq!(read_msg_type(&[42, 0]), Ok((CephMsgType::MsgOsdOp, empty)));
    assert_eq!(
        read_msg_type(&[0x34, 0x12]),
        Err(SerialError::InvalidEnumValue { field: WireField::MessageType, code: 0x1234 })
    );
    assert_eq!(read_msg_type(&[42]), Err(SerialError::Incomplete));
    assert_eq!(
        read_priority(&[63, 0]),
        Err(SerialError::InvalidEnumValue { field: WireField::Priority, code: 63 })
    );
    assert_eq!(
        read_entity(&[3]),
        Err(SerialError::InvalidEnumValue { field: WireField::EntityRole, code: 3 })
    );
    assert_eq!(read_entity_u32(&[8, 0, 0, 0]), Ok((CephEntity::Client, empty)));
    assert_eq!(
        read_entity_u32(&[8, 1, 0, 0]),
        Err(SerialError::InvalidEnumValue { field: WireField::EntityRole, code: 0x108 })
    );
    assert_eq!(
        read_protocol(&[16, 0, 0, 0]),
        Err(SerialError::InvalidEnumValue { field: WireField::ProtocolVersion, code: 16 })
    );
    assert_eq!(
        parse_protocol(&[3, 0, 0, 0]),
        Err(SerialError::InvalidEnumValue { field: WireField::AuthProtocol, code: 3 })
    );
    assert_eq!(parse_protocol(&[2, 0, 0, 0]), Ok((CephAuthProtocol::CephAuthCephx, empty)));
}

#[test]
fn capability_mask_of_one_has_bit_zero_alone() {
    let empty: &[u8] = &[];
    let (mask, rest) = read_features(&[0x01, 0, 0, 0, 0, 0, 0, 0]).unwrap();
    assert_eq!(rest, empty);
    assert_eq!(mask, CephFeatures { bits: 1 });
    assert!(mask.is_set(0));
    for n in 1..64 {
        assert!(!mask.is_set(n));
    }
    assert!(mask.contains(CephFeatures { bits: CEPH_FEATURE_UID }));
    assert!(!mask.contains(CephFeatures { bits: CEPH_FEATURE_NOSRCADDR }));
}

#[test]
fn capability_mask_keeps_bits_without_a_name() {
    let empty: &[u8] = &[];
    let bytes = [0x00, 0x00, 0x00, 0x00, 0x00, 0x00, 0x80, 0x1f];
    let (mask, rest) = read_features(&bytes).unwrap();
    assert_eq!(rest, empty);
    assert_eq!(mask.bits(), 0x1f80_0000_0000_0000);
    assert_eq!(CephFeatures::from_bits(mask.bits()), None);
    assert_eq!(read_features(&bytes[..7]), Err(SerialError::Incomplete));
}

#[test]
fn composite_masks() {
    assert_eq!(CEPH_CLIENT_DEFAULT, (1u64 << 40) - 1);
    assert_eq!(CEPH_ALL, (1u64 << 55) - 1);
    assert_eq!(CEPH_NAMED, ((1u64 << 55) - 1) | (7u64 << 61));
    assert_eq!(CEPH_FEATURE_OSD_HITSET_GMT, 1u64 << 54);
    assert_eq!(CEPH_FEATURE_RESERVED_BROKEN, 1u64 << 63);
    // two names of one bit
    assert_eq!(CEPH_FEATURE_CRUSH_TUNABLES3, CEPH_FEATURE_OSD_PRIMARY_AFFINITY);
    assert_eq!(CephFeatures::all().bits(), CEPH_NAMED);
    assert_eq!(CephFeatures::empty().bits(), 0);
}

#[test]
fn capability_sets_combine() {
    let a = CephFeatures { bits: 0b0110 };
    let b = CephFeatures { bits: 0b1100 };
    assert_eq!(a.union(b), CephFeatures { bits: 0b1110 });
    assert_eq!(a.intersection(b), CephFeatures { bits: 0b0100 });
    assert!(a.union(b).contains(a));
    assert!(!a.contains(b));
    assert!(a.is_set(1) && a.is_set(2) && !a.is_set(0) && !a.is_set(3));
    assert!(CephFeatures { bits: 1u64 << 63 }.is_set(63));
    assert_eq!(CephFeatures::from_bits(CEPH_ALL), Some(CephFeatures { bits: CEPH_ALL }));
    assert_eq!(CephFeatures::from_bits(1u64 << 55), None);
    assert_eq!(CephFeatures::from_bits_truncate(u64::MAX), CephFeatures { bits: CEPH_NAMED });
}

#[test]
fn osd_flags_refuse_a_bit_without_a_name() {
    let empty: &[u8] = &[];
    assert_eq!(CEPH_OSD_FLAG_NAMED, 0x007f_ffff);
    assert_eq!(
        read_osd_flags(&[0x24, 0, 0, 0]),
        Ok((OsdOp { bits: CEPH_OSD_FLAG_ACK_ONDISK | CEPH_OSD_FLAG_WRITE }, empty))
    );
    assert_eq!(
        read_osd_flags(&[0x00, 0x00, 0x80, 0x00]),
        Err(SerialError::InvalidEnumValue { field: WireField::OsdFlags, code: 0x0080_0000 })
    );
    assert_eq!(read_osd_flags(&[0x24, 0, 0]), Err(SerialError::Incomplete));
    assert_eq!(OsdOp::from_bits(CEPH_OSD_FLAG_KNOWN_REDIR), Some(OsdOp { bits: 0x40_0000 }));
    assert_eq!(OsdOp::from_bits(0x80_0000), None);
    assert_eq!(OsdOp::all().bits(), 0x7f_ffff);
    assert_eq!(OsdOp::empty().bits(), 0);
    let rw = OsdOp { bits: 0x30 };
    assert!(rw.contains(OsdOp { bits: CEPH_OSD_FLAG_WRITE }));
    assert_eq!(rw.union(OsdOp { bits: 1 }).bits(), 0x31);
    assert_eq!(rw.intersection(OsdOp { bits: 0x21 }).bits(), 0x20);
}
