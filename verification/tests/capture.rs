use decode_ceph::addr::Ipv4Address;
use decode_ceph::dissect::{check_for_connect, dissect_msgr, dissect_new};
use decode_ceph::dissect::{DissectError, Dissected, Structure};
use decode_ceph::enums::{CephEntity, CephMsg, CephMsgType, CephPriority};
use decode_ceph::envelope::{dissect_msg_op, read_footer, CephMsgrMsg};
use decode_ceph::error::{SerialError, WireField};
use decode_ceph::features::OsdOp;
use decode_ceph::frame::{parse_etherframe, skip_to, PacketHeader};
use decode_ceph::handshake::{CephMsgKeepAlive2, CephMsgTagAck};
use decode_ceph::header::{CephMsgFooter, CephMsgHeader, CephSourceName};
use decode_ceph::message::{decodes, read_messages_from_wire, write_message_to_wire, Message};
use decode_ceph::mon::PaxosMessage;
use decode_ceph::osd::{CephOsdOperation, ObjectId, ObjectLocator, Operation, PlacementGroup};
use decode_ceph::primitive::CephPrimitive;
use decode_ceph::utime::Utime;

/// A captured frame: a client writes twelve bytes to the object `hw`.
fn write_frame() -> Vec<u8> {
    vec![
        0x00, 0x16, 0x3e, 0x4c, 0x7b, 0xa0, // destination MAC
        0x00, 0x16, 0x3e, 0x53, 0x4e, 0xf2, // source MAC
        0x08, 0x00, // ether type
        0x45, 0x00, 0x01, 0x24, 0x52, 0xf6, 0x40, 0x00, 0x40, 0x06, 0xcb, 0xeb, //
        0x0a, 0x00, 0x03, 0x63, // source address
        0x0a, 0x00, 0x03, 0x90, // destination address
        0xea, 0x6d, // source port
        0x1a, 0x90, // destination port
        0x38, 0xdc, 0xc2, 0x31, 0x66, 0xd4, 0x41, 0xae, 0x80, 0x18, 0x00, 0xf5, 0x1c, 0x09,
        0x00, 0x00, 0x01, 0x01, 0x08, 0x0a, 0x00, 0x05, 0x24, 0x07, 0x00, 0x05, 0x14, 0x27,
        // the protocol starts at byte 66
        0x07, 0x02, 0x00, 0x00, 0x00, 0x00, 0x00, 0x00, 0x00, 0x03, 0x00, 0x00, 0x00, 0x00,
        0x00, 0x00, 0x00, 0x2a, 0x00, 0x3f, 0x00, 0x04, 0x00, 0x99, 0x00, 0x00, 0x00, 0x00,
        0x00, 0x00, 0x00, 0x0c, 0x00, 0x00, 0x00, 0x00, 0x00, 0x08, 0x9a, 0x11, 0x00, 0x00,
        0x00, 0x00, 0x00, 0x00, 0x03, 0x00, 0x00, 0x00, 0x54, 0x3b, 0x7e, 0x6a,
        // the operation
        0x00, 0x00, 0x00, 0x00, 0x5a, 0x00, 0x00, 0x00, 0x24, 0x00, 0x00, 0x00, 0x14, 0x7e,
        0xf3, 0x55, 0xf0, 0x88, 0x81, 0x32, 0x00, 0x00, 0x00, 0x00, 0x00, 0x00, 0x00, 0x00,
        0x00, 0x00, 0x00, 0x00, 0x06, 0x03, 0x1c, 0x00, 0x00, 0x00, 0x00, 0x00, 0x00, 0x00,
        0x00, 0x00, 0x00, 0x00, 0xff, 0xff, 0xff, 0xff, 0x00, 0x00, 0x00, 0x00, 0x00, 0x00,
        0x00, 0x00, 0xff, 0xff, 0xff, 0xff, 0xff, 0xff, 0xff, 0xff, 0x01, 0x00, 0x00, 0x00,
        0x00, 0x00, 0x00, 0x00, 0x00, 0x8f, 0x8d, 0x49, 0x97, 0xff, 0xff, 0xff, 0xff, 0x02,
        0x00, 0x00, 0x00, 0x68, 0x77, 0x01, 0x00, 0x02, 0x22, 0x00, 0x00, 0x00, 0x00, 0x00,
        0x00, 0x00, 0x00, 0x00, 0x00, 0x00, 0x00, 0x0c, 0x00, 0x00, 0x00, 0x00, 0x00, 0x00,
        0x00, 0x00, 0x00, 0x00, 0x00, 0x00, 0x00, 0x00, 0x00, 0x00, 0x00, 0x00, 0x00, 0x0c,
        0x00, 0x00, 0x00, 0xfe, 0xff, 0xff, 0xff, 0xff, 0xff, 0xff, 0xff, 0x00, 0x00, 0x00,
        0x00, 0x00, 0x00, 0x00, 0x00, 0x00, 0x00, 0x00, 0x00, 0x00, 0x00, 0x00, 0x00,
        // the data
        0x48, 0x65, 0x6c, 0x6c, 0x6f, 0x20, 0x57, 0x6f, 0x72, 0x6c, 0x64, 0x21,
        // the footer
        0xed, 0x70, 0x12, 0xf6, 0x00, 0x00, 0x00, 0x00, 0x81, 0x44, 0x0c, 0xd5, 0x01, 0xe1,
        0xac, 0x17, 0x8e, 0x5a, 0xd0, 0x6c, 0x05,
    ]
}

/// The payload of the frame, with a priority that has a name.
fn write_payload() -> Vec<u8> {
    let mut payload = write_frame()[66..].to_vec();
    payload[19] = 0x7f;
    payload
}

/// The front segment of the frame as it is written: the reserved fields of the locator
/// are zero.
fn written_front() -> Vec<u8> {
    let mut front = write_payload()[54..207].to_vec();
    for i in (46..54).chain(58..66) {
        front[i] = 0;
    }
    front
}

fn write_header() -> CephMsgHeader {
    CephMsgHeader {
        sequence_num: 2,
        transaction_id: 3,
        msg_type: CephMsgType::MsgOsdOp,
        priority: CephPriority::Default,
        version: 4,
        front_len: 153,
        middle_len: 0,
        data_len: 12,
        data_off: 0,
        entity_name: CephSourceName { entity_type: CephEntity::Client, num: 0x119a },
        compat_version: 3,
        reserved: 0,
        crc: 0x6a7e3b54,
    }
}

fn write_operation() -> CephOsdOperation<'static> {
    CephOsdOperation {
        client: 0,
        map_epoch: 90,
        flags: OsdOp { bits: 0x24 },
        modification_time: Utime { tv_sec: 0x55f37e14, tv_nsec: 0x328188f0 },
        reassert_version: 0,
        reassert_epoch: 0,
        locator: ObjectLocator {
            encoding_version: 6,
            min_compat_version: 3,
            size: 28,
            pool: 0,
            namespace_size: 0,
            namespace_data: &[],
        },
        placement_group: PlacementGroup {
            group_version: 1,
            pool: 0,
            seed: 0x97498d8f,
            preferred: 0xffff_ffff,
        },
        object_id: ObjectId { size: 2, data: b"hw" },
        operation_count: 1,
        operation: Operation {
            operation: 0x2202,
            flags: 0,
            offset: 0,
            size: 12,
            truncate_size: 0,
            truncate_seq: 0,
            payload_size: 12,
        },
        snapshot_id: 0xffff_ffff_ffff_fffe,
        snapshot_seq: 0,
        snapshot_count: 0,
        retry_attempt: 0,
        payload: vec![],
    }
}

fn write_footer() -> CephMsgFooter {
    CephMsgFooter {
        front_crc: 0xf61270ed,
        middle_crc: 0,
        data_crc: 0xd50c4481,
        crypto_sig: 0x6cd05a8e17ace101,
        flags: 5,
    }
}

#[test]
fn test_packet_parsing() {
    let v4_packet2: Vec<u8> = write_frame();
    let _v4_packet: Vec<u8> = vec![
        0, 22, 62, 76, 123, 160, // Dst Mac
        0, 22, 62, 83, 78, 242, // Src mac
        8, 0, // Ethertype
        69, 0, // IP header Packet
        0, 235, 160, 122, 64, 0, 64, 6, 251, 204, // New position
        10, 0, 3, 99, // src ip
        10, 0, 3, 144, // dst ip
        173, 186, 26, 133, 86, 2, 236, 160, 131, 235, 201, 242, 128, 24, 11, 227, 27, 208, 0, 0,
        1, 1, 8, 10, 4, 202, 237, 131, 4, 202, 237, 87, 7, 67, 255, 1, 0, 0, 0, 0, 0, 0, 0, 0,
        0, 0, 0, 0, 0, 1, 6, 196, 0, 1, 0, 108, 0, 0, 0, 0, 0, 0, 0, 0, 0, 0, 0, 0, 0, 1, 0, 0,
        0, 0, 0, 0, 0, 0, 1, 0, 0, 0, 232, 89, 107, 135, 0, 0, 0, 0, 0, 0, 0, 0, 0, 0, 0, 0, 1,
        0, 0, 0, 1, 0, 0, 0, 3, 1, 82, 0, 0, 0, 0, 176, 158, 40,
    ];
    let (packer_header, payload) = parse_etherframe(&v4_packet2).unwrap();
    assert_eq!(packer_header.src_port, 60013);
    assert_eq!(packer_header.dst_port, 6800);
    assert_eq!(packer_header.src_v4addr, Some(Ipv4Address::new(10, 0, 3, 99)));
    assert_eq!(packer_header.dst_v4addr, Some(Ipv4Address::new(10, 0, 3, 144)));
    let result = dissect_msgr(payload);
    println!("Result: {:?}", result);
    // the priority of this message is 63, which has no name
    assert_eq!(
        result,
        Err(DissectError {
            structure: Structure::Header,
            offset: 1,
            error: SerialError::InvalidEnumValue { field: WireField::Priority, code: 63 },
        })
    );
}

#[test]
fn frame_of_ipv4() {
    let frame = write_frame();
    assert_eq!(frame.len(), 306);
    let (header, payload) = parse_etherframe(&frame).unwrap();
    assert_eq!(
        header,
        PacketHeader {
            src_port: 0xea6d,
            dst_port: 0x1a90,
            src_v4addr: Some(Ipv4Address::new(10, 0, 3, 99)),
            dst_v4addr: Some(Ipv4Address::new(10, 0, 3, 144)),
            src_v6addr: None,
            dst_v6addr: None,
        }
    );
    assert_eq!(payload, &frame[66..]);
    // the headers without a payload
    let (_, payload) = parse_etherframe(&frame[..66]).unwrap();
    assert!(payload.is_empty());
    let (_, payload) = parse_etherframe(&frame[..50]).unwrap();
    assert!(payload.is_empty());
    let (_, payload) = parse_etherframe(&frame[..38]).unwrap();
    assert!(payload.is_empty());
    assert_eq!(parse_etherframe(&frame[..37]), Err(SerialError::Incomplete));
    assert_eq!(parse_etherframe(&frame[..13]), Err(SerialError::Incomplete));
    assert_eq!(parse_etherframe(&frame[..5]), Err(SerialError::Incomplete));
}

#[test]
fn frame_of_ipv6() {
    let mut frame = vec![0u8; 220];
    frame[12] = 0x86;
    frame[13] = 0xdd;
    frame[15] = 1; // source
    frame[45] = 2; // destination
    frame[46] = 0x1a;
    frame[47] = 0x85;
    frame[49] = 9;
    frame[210] = 0x3f;
    let (header, payload) = parse_etherframe(&frame).unwrap();
    assert_eq!(header.src_port, 0x1a85);
    assert_eq!(header.dst_port, 9);
    assert_eq!(header.src_v4addr, None);
    assert_eq!(header.dst_v4addr, None);
    assert_eq!(header.src_v6addr.unwrap().a, 1);
    assert_eq!(header.dst_v6addr.unwrap().h, 2);
    assert_eq!(payload, &frame[210..]);
    assert_eq!(parse_etherframe(&frame[..49]), Err(SerialError::Incomplete));
}

#[test]
fn frame_of_an_unknown_ether_type() {
    let mut frame = write_frame();
    frame[12] = 0x08;
    frame[13] = 0x06;
    assert_eq!(
        parse_etherframe(&frame),
        Err(SerialError::InvalidEnumValue { field: WireField::EtherType, code: 0x0806 })
    );
}

#[test]
fn skipping_stops_at_the_end() {
    let bytes = [1u8, 2, 3];
    assert_eq!(skip_to(&bytes, 2), &[3]);
    assert_eq!(skip_to(&bytes, 3), &[] as &[u8]);
    assert_eq!(skip_to(&bytes, 4), &[] as &[u8]);
    assert_eq!(skip_to(&bytes, 0), &bytes);
}

#[test]
fn envelope_of_a_write() {
    let payload = write_payload();
    assert_eq!(payload.len(), 240);
    let (envelope, rest) = CephMsgrMsg::read_from_wire(&payload).unwrap();
    assert!(rest.is_empty());
    assert_eq!(envelope.tag, CephMsg::Msg);
    assert_eq!(envelope.header, write_header());
    assert_eq!(envelope.msg, vec![Message::OsdOp(write_operation())]);
    assert_eq!(envelope.footer, Some(write_footer()));
    // the dissector gives the same
    let (found, rest) = dissect_msgr(&payload).unwrap();
    assert!(rest.is_empty());
    assert_eq!(found, Dissected::Envelope(envelope));
}

#[test]
fn envelope_without_its_footer() {
    let payload = write_payload();
    // the capture ends inside the footer
    let (envelope, rest) = CephMsgrMsg::read_from_wire(&payload[..239]).unwrap();
    assert!(rest.is_empty());
    assert_eq!(envelope.footer, None);
    assert_eq!(envelope.msg, vec![Message::OsdOp(write_operation())]);
    // the capture ends with the front segment
    let (envelope, rest) = CephMsgrMsg::read_from_wire(&payload[..54 + 153]).unwrap();
    assert!(rest.is_empty());
    assert_eq!(envelope.footer, None);
    assert_eq!(envelope.msg.len(), 1);
}

#[test]
fn envelope_with_bytes_behind_its_footer() {
    let mut payload = write_payload();
    payload.extend_from_slice(&[0x08, 1, 2]);
    let (envelope, rest) = CephMsgrMsg::read_from_wire(&payload).unwrap();
    assert_eq!(rest, &[0x08, 1, 2]);
    assert_eq!(envelope.footer, Some(write_footer()));
}

#[test]
fn envelope_whose_front_segment_is_cut_short() {
    let payload = write_payload();
    for n in 54..(54 + 153) {
        assert_eq!(CephMsgrMsg::read_from_wire(&payload[..n]), Err(SerialError::Incomplete));
    }
    assert_eq!(
        dissect_msgr(&payload[..100]),
        Err(DissectError {
            structure: Structure::Front,
            offset: 54,
            error: SerialError::Incomplete,
        })
    );
    let header = write_header();
    assert_eq!(dissect_msg_op(&header, &payload[54..206]), Err(SerialError::Incomplete));
    assert_eq!(dissect_msg_op(&header, &[]), Err(SerialError::Incomplete));
    assert_eq!(
        dissect_msg_op(&header, &payload[54..207]),
        Ok(vec![Message::OsdOp(write_operation())])
    );
}

#[test]
fn envelope_that_is_cut_short() {
    let payload = write_payload();
    for n in 0..54 {
        assert_eq!(CephMsgrMsg::read_from_wire(&payload[..n]), Err(SerialError::Incomplete));
    }
    assert_eq!(
        dissect_msgr(&payload[..53]),
        Err(DissectError {
            structure: Structure::Envelope,
            offset: 0,
            error: SerialError::Incomplete
        })
    );
}

#[test]
fn envelope_needs_the_tag_of_a_message() {
    let mut payload = write_payload();
    payload[0] = 0x08;
    assert_eq!(
        CephMsgrMsg::read_from_wire(&payload),
        Err(SerialError::InvalidEnumValue { field: WireField::Tag, code: 8 })
    );
    payload[0] = 0x2a;
    assert_eq!(
        CephMsgrMsg::read_from_wire(&payload),
        Err(SerialError::InvalidEnumValue { field: WireField::Tag, code: 0x2a })
    );
}

#[test]
fn envelope_whose_segment_declares_less_than_the_body_needs() {
    let mut payload = write_payload();
    // the front segment is said to hold 100 bytes; the operation needs 153
    payload[23] = 100;
    assert_eq!(CephMsgrMsg::read_from_wire(&payload), Err(SerialError::Incomplete));
}

#[test]
fn envelope_of_a_type_without_a_decoder() {
    let mut payload = write_payload();
    // a ping
    payload[17] = 70;
    let (envelope, rest) = CephMsgrMsg::read_from_wire(&payload).unwrap();
    assert!(rest.is_empty());
    assert_eq!(envelope.header.msg_type, CephMsgType::MsgOsdPing);
    assert_eq!(envelope.msg, vec![Message::Nop]);
    assert_eq!(envelope.footer, Some(write_footer()));
    // and no failure where the segment is cut short
    let (envelope, rest) = CephMsgrMsg::read_from_wire(&payload[..60]).unwrap();
    assert!(rest.is_empty());
    assert_eq!(envelope.msg, vec![Message::Nop]);
    assert_eq!(envelope.footer, None);
    // a paxos message has a structure, and no decoder
    payload[17] = 40;
    let (envelope, _) = CephMsgrMsg::read_from_wire(&payload).unwrap();
    assert_eq!(envelope.msg, vec![Message::Nop]);
}

#[test]
fn envelope_round_trip() {
    let mut header = write_header();
    header.data_len = 0;
    let envelope =
        CephMsgrMsg::new(header, vec![Message::OsdOp(write_operation())], write_footer());
    assert_eq!(envelope.tag, CephMsg::Msg);
    let bytes = envelope.write_to_wire().unwrap();
    assert_eq!(bytes.len(), 54 + 153 + 21);
    let payload = write_payload();
    assert_eq!(&bytes[..23], &payload[..23]);
    assert_eq!(&bytes[54..207], &written_front()[..]);
    assert_eq!(&bytes[207..], &payload[219..]);
    let empty: &[u8] = &[];
    assert_eq!(CephMsgrMsg::read_from_wire(&bytes), Ok((envelope, empty)));
}

#[test]
fn envelope_without_footer_writes_none() {
    let mut header = write_header();
    header.msg_type = CephMsgType::MsgOsdPing;
    header.front_len = 0;
    header.data_len = 0;
    let envelope = CephMsgrMsg { tag: CephMsg::Msg, header, msg: vec![Message::Nop], footer: None };
    let bytes = envelope.write_to_wire().unwrap();
    assert_eq!(bytes.len(), 54);
    let empty: &[u8] = &[];
    assert_eq!(CephMsgrMsg::read_from_wire(&bytes), Ok((envelope, empty)));
}

#[test]
fn footer_is_read_where_the_buffer_holds_it() {
    let payload = write_payload();
    let header = write_header();
    let (footer, rest) = read_footer(&header, &payload[54..]);
    assert_eq!(footer, Some(write_footer()));
    assert!(rest.is_empty());
    let (footer, rest) = read_footer(&header, &payload[54..239]);
    assert_eq!(footer, None);
    assert!(rest.is_empty());
    let mut big = header;
    big.front_len = u32::MAX;
    big.middle_len = u32::MAX;
    big.data_len = u32::MAX;
    let (footer, rest) = read_footer(&big, &payload[54..]);
    assert_eq!(footer, None);
    assert!(rest.is_empty());
}

#[test]
fn bodies_by_type() {
    let payload = write_payload();
    let front = &payload[54..207];
    assert!(decodes(&CephMsgType::MsgOsdOp));
    assert!(decodes(&CephMsgType::MsgAuth));
    assert!(decodes(&CephMsgType::MsgAuthReply));
    assert!(decodes(&CephMsgType::MsgOsdOpReply));
    assert!(decodes(&CephMsgType::MsgOsdSubop));
    assert!(decodes(&CephMsgType::MsgOsdSubopReply));
    assert!(decodes(&CephMsgType::MsgMonCommand));
    assert!(!decodes(&CephMsgType::MsgPaxos));
    assert!(!decodes(&CephMsgType::MsgNop));
    let empty: &[u8] = &[];
    assert_eq!(
        read_messages_from_wire(front, &CephMsgType::MsgOsdOp),
        Ok((vec![Message::OsdOp(write_operation())], empty))
    );
    assert_eq!(
        read_messages_from_wire(front, &CephMsgType::MsgOsdSubop),
        Ok((vec![Message::OsdSubop(write_operation())], empty))
    );
    // a type without a decoder leaves the buffer whole
    assert_eq!(
        read_messages_from_wire(front, &CephMsgType::MsgOsdPing),
        Ok((vec![Message::Nop], front))
    );
    assert_eq!(read_messages_from_wire(&[], &CephMsgType::MsgLog), Ok((vec![Message::Nop], empty)));
    assert_eq!(
        read_messages_from_wire(&front[..152], &CephMsgType::MsgOsdOp),
        Err(SerialError::Incomplete)
    );
}

#[test]
fn bodies_write_what_they_hold() {
    assert_eq!(write_message_to_wire(&Message::OsdOp(write_operation())).unwrap(), written_front());
    assert_eq!(
        write_message_to_wire(&Message::OsdSubop(write_operation())).unwrap(),
        written_front()
    );
    let paxos = PaxosMessage { version: 1, mon: -1, mon_tid: 2 };
    assert_eq!(
        write_message_to_wire(&Message::Paxos(paxos)).unwrap(),
        vec![1, 0, 0, 0, 0, 0, 0, 0, 0xff, 0xff, 2, 0, 0, 0, 0, 0, 0, 0]
    );
    assert_eq!(write_message_to_wire(&Message::Nop), Ok(vec![]));
    assert_eq!(write_message_to_wire(&Message::OsdPing), Ok(vec![]));
}

#[test]
fn banner() {
    let bytes = b"?eph v027rest";
    let (found, rest) = dissect_msgr(bytes).unwrap();
    assert_eq!(found, Dissected::Banner("eph v027"));
    // the tag and the eight bytes are taken, and no more
    assert_eq!(rest, b"rest");
    assert_eq!(rest.len(), bytes.len() - 9);
    assert_eq!(check_for_connect(&bytes[1..]), Ok(("eph v027", &bytes[9..])));
    assert_eq!(
        dissect_msgr(&bytes[..8]),
        Err(DissectError {
            structure: Structure::Banner,
            offset: 0,
            error: SerialError::Incomplete,
        })
    );
    let broken = [0x3f, b'a', b'b', 0xff, b'd', b'e', b'f', b'g', b'h'];
    assert_eq!(
        dissect_msgr(&broken),
        Err(DissectError {
            structure: Structure::Banner,
            offset: 0,
            error: SerialError::InvalidText,
        })
    );
}

#[test]
fn ack_by_its_tag() {
    let bytes = [0x08, 0x01, 0x00, 0x00, 0x00, 0x00, 0x00, 0x00, 0x00];
    let (found, rest) = dissect_msgr(&bytes).unwrap();
    assert!(rest.is_empty());
    match found {
        Dissected::Ack(ack) => assert_eq!(ack.seq, 1),
        other => panic!("{:?}", other),
    }
    assert_eq!(
        dissect_msgr(&bytes[..8]),
        Err(DissectError { structure: Structure::Ack, offset: 0, error: SerialError::Incomplete })
    );
    assert_eq!(dissect_msgr(&bytes).unwrap().0, Dissected::Ack(CephMsgTagAck::new(1)));
}

#[test]
fn keep_alives_by_their_tags() {
    let mut bytes = vec![0x0e];
    bytes.extend_from_slice(&1446579261u32.to_le_bytes());
    bytes.extend_from_slice(&40813000u32.to_le_bytes());
    let timestamp = Utime { tv_sec: 1446579261, tv_nsec: 40813000 };
    let (found, rest) = dissect_msgr(&bytes).unwrap();
    assert!(rest.is_empty());
    assert_eq!(
        found,
        Dissected::KeepAlive2(CephMsgKeepAlive2 { tag: CephMsg::KeepAlive2, timestamp })
    );
    bytes[0] = 0x0f;
    match dissect_msgr(&bytes).unwrap().0 {
        Dissected::KeepAlive2Ack(keep) => assert_eq!(keep.timestamp, timestamp),
        other => panic!("{:?}", other),
    }
    match dissect_msgr(&[0x09, 0x00]).unwrap().0 {
        Dissected::KeepAlive(keep) => assert_eq!(keep.data, 0),
        other => panic!("{:?}", other),
    }
    assert_eq!(
        dissect_msgr(&[0x09]),
        Err(DissectError {
            structure: Structure::KeepAlive,
            offset: 0,
            error: SerialError::Incomplete
        })
    );
    assert_eq!(
        dissect_msgr(&[0x0e, 1, 2]),
        Err(DissectError {
            structure: Structure::KeepAlive2,
            offset: 0,
            error: SerialError::Incomplete
        })
    );
    assert_eq!(
        dissect_msgr(&[0x0f, 1, 2]),
        Err(DissectError {
            structure: Structure::KeepAlive2Ack,
            offset: 0,
            error: SerialError::Incomplete
        })
    );
}

#[test]
fn connect_reply_by_its_tag() {
    let bytes = vec![
        0x01, 0xff, 0xff, 0xff, 0xff, 0xff, 0x2f, 0x00, 0x00, 0x08, 0x00, 0x00, 0x00, 0x01, 0x00,
        0x00, 0x00, 0x0f, 0x00, 0x00, 0x00, 0x00, 0x00, 0x00, 0x00, 0x01,
    ];
    match dissect_msgr(&bytes).unwrap().0 {
        Dissected::ConnectReply(reply) => {
            assert_eq!(reply.tag, CephMsg::Ready);
            assert_eq!(reply.global_seq, 8);
        },
        other => panic!("{:?}", other),
    }
    let mut refused = bytes.clone();
    refused[0] = 0x0c;
    refused[17] = 0x10;
    assert_eq!(
        dissect_msgr(&refused),
        Err(DissectError {
            structure: Structure::ConnectReply,
            offset: 0,
            error: SerialError::InvalidEnumValue { field: WireField::ProtocolVersion, code: 16 },
        })
    );
}

#[test]
fn tags_without_a_structure() {
    for (code, tag) in [(6u8, CephMsg::Close), (13, CephMsg::Sequence), (20, CephMsg::Unknown)] {
        let bytes = [code, 0xaa, 0xbb];
        assert_eq!(dissect_msgr(&bytes), Ok((Dissected::Tag(tag), &bytes[1..])));
    }
}

#[test]
fn first_byte_that_is_no_tag() {
    assert_eq!(
        dissect_msgr(&[]),
        Err(DissectError { structure: Structure::Tag, offset: 0, error: SerialError::Incomplete })
    );
    // 42 is the type of an operation, and no tag
    for code in [16u8, 19, 21, 42, 62, 64, 255] {
        assert_eq!(
            dissect_msgr(&[code, 0, 0, 0, 0, 0, 0, 0, 0]),
            Err(DissectError {
                structure: Structure::Tag,
                offset: 0,
                error: SerialError::InvalidEnumValue { field: WireField::Tag, code: code as u64 },
            })
        );
    }
}

#[test]
fn a_zero_byte_may_start_an_endpoint() {
    let mut bytes = vec![0u8; 137];
    bytes[4] = 0x64;
    bytes[9] = 0x02;
    bytes[12] = 10;
    bytes[15] = 1;
    bytes[136] = 0x77;
    let (found, rest) = dissect_msgr(&bytes).unwrap();
    assert_eq!(rest, &[0x77]);
    match found {
        Dissected::Address(addr) => {
            assert_eq!(addr.nonce, 100);
            assert_eq!(addr.port, 0);
        },
        other => panic!("{:?}", other),
    }
    assert_eq!(dissect_new(&bytes).unwrap().0.nonce, 100);
    // the attempt fails, and says so
    assert_eq!(
        dissect_msgr(&bytes[..20]),
        Err(DissectError {
            structure: Structure::Address,
            offset: 0,
            error: SerialError::Incomplete,
        })
    );
    bytes[9] = 0x07;
    assert_eq!(
        dissect_msgr(&bytes),
        Err(DissectError {
            structure: Structure::Address,
            offset: 0,
            error: SerialError::InvalidEnumValue { field: WireField::AddressFamily, code: 7 },
        })
    );
}
