use decode_ceph::enums::{CephEntity, CephMsgType, CephPriority};
use decode_ceph::error::{SerialError, WireField};
use decode_ceph::header::{CephMsgFooter, CephMsgHeader, CephSourceName};
use decode_ceph::primitive::CephPrimitive;

fn header_bytes(msg_type: u16) -> Vec<u8> {
    let mut bytes = vec![
        0x02, 0, 0, 0, 0, 0, 0, 0, // sequence number
        0x03, 0, 0, 0, 0, 0, 0, 0, // transaction
    ];
    bytes.extend_from_slice(&msg_type.to_le_bytes());
    bytes.extend_from_slice(&[
        0x7f, 0x00, // priority
        0x04, 0x00, // version
        0x99, 0x00, 0x00, 0x00, // front
        0x01, 0x00, 0x00, 0x00, // middle
        0x0c, 0x00, 0x00, 0x00, // data
        0x05, 0x00, // data offset
        0x08, // role of the sender
        0x9a, 0x11, 0x00, 0x00, 0x00, 0x00, 0x00, 0x00, // number of the sender
        0x03, 0x00, // compat version
        0x00, 0x00, // reserved
        0x54, 0x3b, 0x7e, 0x6a, // checksum
    ]);
    bytes
}

fn a_header(msg_type: CephMsgType) -> CephMsgHeader {
    CephMsgHeader {
        sequence_num: 2,
        transaction_id: 3,
        msg_type,
        priority: CephPriority::Default,
        version: 4,
        front_len: 0x99,
        middle_len: 1,
        data_len: 12,
        data_off: 5,
        entity_name: CephSourceName { entity_type: CephEntity::Client, num: 0x119a },
        compat_version: 3,
        reserved: 0,
        crc: 0x6a7e3b54,
    }
}

#[test]
fn header_takes_53_bytes() {
    let mut bytes = header_bytes(42);
    assert_eq!(bytes.len(), 53);
    bytes.push(0xaa);
    // 54 well-formed bytes: the header, and one byte left
    assert_eq!(
        CephMsgHeader::read_from_wire(&bytes),
        Ok((a_header(CephMsgType::MsgOsdOp), &bytes[53..]))
    );
}

#[test]
fn header_message_types() {
    let (header, _) = CephMsgHeader::read_from_wire(&header_bytes(42)).unwrap();
    assert_eq!(header.msg_type, CephMsgType::MsgOsdOp);
    let (header, _) = CephMsgHeader::read_from_wire(&header_bytes(18)).unwrap();
    assert_eq!(header.msg_type, CephMsgType::MsgAuthReply);
    assert_eq!(
        CephMsgHeader::read_from_wire(&header_bytes(0x9999)),
        Err(SerialError::InvalidEnumValue { field: WireField::MessageType, code: 0x9999 })
    );
    assert_eq!(
        CephMsgHeader::read_from_wire(&header_bytes(8)),
        Err(SerialError::InvalidEnumValue { field: WireField::MessageType, code: 8 })
    );
}

#[test]
fn header_unknown_priority_and_role() {
    let mut bytes = header_bytes(42);
    bytes[18] = 0x3f;
    assert_eq!(
        CephMsgHeader::read_from_wire(&bytes),
        Err(SerialError::InvalidEnumValue { field: WireField::Priority, code: 0x3f })
    );
    bytes[18] = 0x7f;
    bytes[36] = 0x07;
    assert_eq!(
        CephMsgHeader::read_from_wire(&bytes),
        Err(SerialError::InvalidEnumValue { field: WireField::EntityRole, code: 7 })
    );
}

#[test]
fn header_that_is_cut_short() {
    let bytes = header_bytes(0x9999);
    for n in 0..53 {
        // incomplete, though the type names nothing
        assert_eq!(CephMsgHeader::read_from_wire(&bytes[..n]), Err(SerialError::Incomplete));
    }
}

#[test]
fn header_round_trip() {
    let header = a_header(CephMsgType::MsgMonCommand);
    let bytes = header.write_to_wire().unwrap();
    assert_eq!(bytes, header_bytes(50));
    let empty: &[u8] = &[];
    assert_eq!(CephMsgHeader::read_from_wire(&bytes), Ok((header, empty)));
}

#[test]
fn source_name_bytes() {
    let name = CephSourceName { entity_type: CephEntity::Osd, num: u64::MAX };
    let bytes = name.write_to_wire().unwrap();
    assert_eq!(bytes, vec![4, 0xff, 0xff, 0xff, 0xff, 0xff, 0xff, 0xff, 0xff]);
    let empty: &[u8] = &[];
    assert_eq!(CephSourceName::read_from_wire(&bytes), Ok((name, empty)));
    assert_eq!(CephSourceName::read_from_wire(&bytes[..8]), Err(SerialError::Incomplete));
}

#[test]
fn footer_round_trip() {
    let footer = CephMsgFooter {
        front_crc: 0xf61270ed,
        middle_crc: 0,
        data_crc: 0xd50c4481,
        crypto_sig: 0x6cd05a8e17ace101,
        flags: 5,
    };
    let bytes = footer.write_to_wire().unwrap();
    assert_eq!(
        bytes,
        vec![
            0xed, 0x70, 0x12, 0xf6, 0x00, 0x00, 0x00, 0x00, 0x81, 0x44, 0x0c, 0xd5, 0x01, 0xe1,
            0xac, 0x17, 0x8e, 0x5a, 0xd0, 0x6c, 0x05
        ]
    );
    let empty: &[u8] = &[];
    assert_eq!(CephMsgFooter::read_from_wire(&bytes), Ok((footer, empty)));
    assert_eq!(CephMsgFooter::read_from_wire(&bytes[..20]), Err(SerialError::Incomplete));
}
