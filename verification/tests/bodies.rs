use decode_ceph::addr::{Addr, EntityAddr, Ipv4Address};
use decode_ceph::auth::{AuthMessage, CephAuthOperation, CephAuthOperationReply, CephEntityName};
use decode_ceph::enums::{CephAuthProtocol, CephEntity, CephMsgType, CephPriority};
use decode_ceph::envelope::CephMsgrMsg;
use decode_ceph::error::{SerialError, WireField};
use decode_ceph::features::OsdOp;
use decode_ceph::header::CephMsgHeader;
use decode_ceph::list::{parse_protocols, parse_strs, put_protocols, put_strs};
use decode_ceph::message::{read_messages_from_wire, Message};
use decode_ceph::mon::{identifier, parse_fsid, parse_monitors, parse_subscriptions, put_fsid};
use decode_ceph::mon::{MonCommand, MonMap, Monitor, MonitorSubscribe, PaxosMessage, Subscription};
use decode_ceph::osd::{CephOsdOperation, CephOsdOperationReply, ClientHitSetParams, ObjectId};
use decode_ceph::osd::{ObjectLocator, Operation, OsdInfo, PlacementGroup, ReplayVersion};
use decode_ceph::primitive::CephPrimitive;
use decode_ceph::sink::{banner, sent};
use decode_ceph::utime::Utime;

#[test]
fn test_auth_reply() {
    let bytes = vec![
        0x02, 0x00, 0x00, 0x00, 0x00, 0x00, 0x00, 0x00, 0x2e, 0x11, 0x00, 0x00, 0x00, 0x00, 0x00,
        0x00, 0x09, 0x00, 0x00, 0x00, 0x01, 0xfb, 0x82, 0x78, 0xa0, 0x16, 0xcb, 0x40, 0x5e, 0x00,
        0x00, 0x00, 0x00,
    ];
    let _x: &[u8] = &[];
    // the nine bytes behind the length are no text
    let result = CephAuthOperationReply::read_from_wire(&bytes);
    assert_eq!(result, Err(SerialError::InvalidText));
}

#[test]
fn test_decode_cephx() {
    //Client msg to the server
    let auth_packet: Vec<u8> = vec![
        0x07, //CephMsg
        0x01, //Ready
        0x00, 0x00, 0x00, 0x00, 0x00, 0x00, 0x00, 0x00, 0x00, 0x00, 0x00, 0x00, 0x00, 0x00, 0x00,
        0x11, 0x00, 0x7f, 0x00, 0x01, 0x00, 0x3c, 0x00, 0x00, 0x00, 0x00, 0x00, 0x00, 0x00, 0x00,
        0x00, 0x00, 0x00, 0x00, 0x00, 0x08, 0xff, 0xff, 0xff, 0xff, 0xff, 0xff, 0xff, 0xff, 0x01,
        0x00, 0x00, 0x00, 0x69, 0x4b, 0xab, 0xe2, 0x00, 0x00, 0x00, 0x00, 0x00, 0x00, 0x00, 0x00,
        0xff, 0xff, 0x00, 0x00, 0x00, 0x00, 0x00, 0x00, 0x00, 0x00, 0x00, 0x00, 0x00, 0x00, 0x1e,
        0x00, 0x00, 0x00, 0x01, 0x01, 0x00, 0x00, 0x00, 0x02, 0x00, 0x00, 0x00, 0x08, 0x00, 0x00,
        0x00, 0x05, 0x00, 0x00, 0x00, 0x61, 0x64, 0x6d, 0x69, 0x6e, 0x00, 0x00, 0x00, 0x00, 0x00,
        0x00, 0x00, 0x00, 0x00, 0x00, 0x00, 0x00, 0xc5, 0x48, 0x27, 0x28, 0x00, 0x00, 0x00, 0x00,
        0x00, 0x00, 0x00, 0x00, 0x00, 0x00, 0x00, 0x00, 0x00, 0x00, 0x00, 0x00, 0x01,
    ];
    let msg = CephMsgrMsg::read_from_wire(&auth_packet);
    println!("{:?}", msg);
    // the header is read
    let (header, front) = CephMsgHeader::read_from_wire(&auth_packet[1..]).unwrap();
    assert_eq!(header.sequence_num, 1);
    assert_eq!(header.msg_type, CephMsgType::MsgAuth);
    assert_eq!(header.priority, CephPriority::Default);
    assert_eq!(header.front_len, 60);
    assert_eq!(header.entity_name.entity_type, CephEntity::Client);
    assert_eq!(header.entity_name.num, 18446744073709551615);
    assert_eq!(front.len(), 60 + 21);
    // this capture holds the role of the entity in four bytes, where the layout has one:
    // the three bytes behind it are read as part of a length that the segment cannot hold
    assert_eq!(msg, Err(SerialError::Incomplete));
}

#[test]
fn test_monmap() {
    let mut bytes = vec![
        0x03, 0x03, 0x0b, 0x02, 0x00, 0x00, 0xec, 0xbb, 0x89, 0x60, 0x0e, 0x21, 0x11, 0xe2, 0xb4,
        0x95, 0x83, 0xa8, 0x8f, 0x44, 0xdb, 0x01, 0x01, 0x00, 0x00, 0x00, 0x03, 0x00, 0x00, 0x00,
        0x15, 0x00, 0x00, 0x00, 0x63, 0x68, 0x72, 0x69, 0x73, 0x2d, 0x6c, 0x6f, 0x63, 0x61, 0x6c,
        0x2d, 0x6d, 0x61, 0x63, 0x68, 0x69, 0x6e, 0x65, 0x2d, 0x34, 0x00, 0x00, 0x00, 0x00, 0x00,
        0x00, 0x00, 0x00, 0x00, 0x02, 0x1a, 0x85, 0x0a, 0x00, 0x03, 0xf4,
    ];
    bytes.extend_from_slice(&[0u8; 120]);
    bytes.extend_from_slice(&[
        0x15, 0x00, 0x00, 0x00, 0x63, 0x68, 0x72, 0x69, 0x73, 0x2d, 0x6c, 0x6f, 0x63, 0x61, 0x6c,
        0x2d, 0x6d, 0x61, 0x63, 0x68, 0x69, 0x6e, 0x65, 0x2d, 0x35, 0x00, 0x00, 0x00, 0x00, 0x00,
        0x00, 0x00, 0x00, 0x00, 0x02, 0x1a, 0x85, 0x0a, 0x00, 0x03, 0x11,
    ]);
    bytes.extend_from_slice(&[0u8; 120]);
    bytes.extend_from_slice(&[
        0x15, 0x00, 0x00, 0x00, 0x63, 0x68, 0x72, 0x69, 0x73, 0x2d, 0x6c, 0x6f, 0x63, 0x61, 0x6c,
        0x2d, 0x6d, 0x61, 0x63, 0x68, 0x69, 0x6e, 0x65, 0x2d, 0x36, 0x00, 0x00, 0x00, 0x00, 0x00,
        0x00, 0x00, 0x00, 0x00, 0x02, 0x1a, 0x85, 0x0a, 0x00, 0x03, 0x55,
    ]);
    bytes.extend_from_slice(&[0u8; 120]);
    assert_eq!(bytes.len(), 513);
    let result = MonMap::read_from_wire(&bytes);
    println!("MonMap: {:?}", result);
    // this capture holds the identifier as sixteen bytes, where the layout has a text
    // behind its length: the first four of them are read as a length that the buffer
    // cannot hold
    assert_eq!(result, Err(SerialError::Incomplete));
    // the monitors of the capture are read one by one
    let (first, rest) = Monitor::read_from_wire(&bytes[30..]).unwrap();
    assert_eq!(
        first,
        Monitor {
            name: "chris-local-machine-4",
            entity_addr: EntityAddr {
                port: 6789,
                nonce: 0,
                addr: Some(Addr::v4addr(Ipv4Address::new(10, 0, 3, 244))),
            },
        }
    );
    let (second, rest) = Monitor::read_from_wire(rest).unwrap();
    assert_eq!(second.name, "chris-local-machine-5");
    let (third, rest) = Monitor::read_from_wire(rest).unwrap();
    assert_eq!(third.entity_addr.addr, Some(Addr::v4addr(Ipv4Address::new(10, 0, 3, 85))));
    assert!(rest.is_empty());
}

const FSID: u128 = 0xecbb8960_0e21_11e2_b495_83a88f44db01;
const FSID_TEXT: &str = "ecbb8960-0e21-11e2-b495-83a88f44db01";

#[test]
fn identifier_as_text() {
    let mut bytes = vec![36, 0, 0, 0];
    bytes.extend_from_slice(FSID_TEXT.as_bytes());
    bytes.push(0x99);
    assert_eq!(parse_fsid(&bytes), Ok((FSID, &bytes[40..])));
    let mut written = Vec::new();
    put_fsid(&mut written, FSID);
    assert_eq!(written, &bytes[..40]);
    // without hyphens
    let mut simple = vec![32, 0, 0, 0];
    simple.extend_from_slice(b"ecbb89600e2111e2b49583a88f44db01");
    let empty: &[u8] = &[];
    assert_eq!(parse_fsid(&simple), Ok((FSID, empty)));
}

#[test]
fn identifier_that_is_none() {
    let mut bytes = vec![36, 0, 0, 0];
    bytes.extend_from_slice(b"ecbb8960-0e21-11e2-b495-83a88f44dbzz");
    assert_eq!(parse_fsid(&bytes), Err(SerialError::InvalidIdentifier));
    assert_eq!(parse_fsid(&[0, 0, 0, 0]), Err(SerialError::InvalidIdentifier));
    assert_eq!(parse_fsid(&[3, 0, 0, 0, b'a', b'b', b'c']), Err(SerialError::InvalidIdentifier));
    assert_eq!(parse_fsid(&[2, 0, 0, 0, 0xff, 0xff]), Err(SerialError::InvalidText));
    assert_eq!(parse_fsid(&[9, 0, 0, 0, b'a']), Err(SerialError::Incomplete));
    assert_eq!(identifier(None), Err(SerialError::InvalidIdentifier));
    assert_eq!(identifier(Some(7)), Ok(7));
}

fn a_monitor(name: &'static str, last: u8) -> Monitor<'static> {
    Monitor {
        name,
        entity_addr: EntityAddr {
            port: 6789,
            nonce: 0,
            addr: Some(Addr::v4addr(Ipv4Address::new(10, 0, 3, last))),
        },
    }
}

#[test]
fn monitor_map_round_trip() {
    let map = MonMap {
        encoding_version: 3,
        min_version: 3,
        fsid: FSID,
        epoch: 1,
        monitors: vec![a_monitor("a", 244), a_monitor("bc", 17)],
    };
    let bytes = map.write_to_wire().unwrap();
    let mut expected = vec![3, 3, 0, 0, 0, 0, 36, 0, 0, 0];
    expected.extend_from_slice(FSID_TEXT.as_bytes());
    expected.extend_from_slice(&[1, 0, 0, 0]);
    expected.extend_from_slice(&[0, 1, 0, 0]); // 128 for each monitor
    expected.extend_from_slice(&map.monitors[0].write_to_wire().unwrap());
    expected.extend_from_slice(&map.monitors[1].write_to_wire().unwrap());
    assert_eq!(bytes, expected);
    let empty: &[u8] = &[];
    assert_eq!(MonMap::read_from_wire(&bytes), Ok((map, empty)));
}

#[test]
fn monitor_map_counts_128_for_each_monitor() {
    let one = a_monitor("a", 1).write_to_wire().unwrap();
    let mut bytes = vec![255, 0, 0, 0];
    bytes.extend_from_slice(&one);
    bytes.extend_from_slice(&one);
    // 255 counts one monitor
    let (monitors, rest) = parse_monitors(&bytes).unwrap();
    assert_eq!(monitors, vec![a_monitor("a", 1)]);
    assert_eq!(rest, &one[..]);
    bytes[0] = 127;
    let (monitors, rest) = parse_monitors(&bytes).unwrap();
    assert!(monitors.is_empty());
    assert_eq!(rest.len(), 2 * one.len());
    bytes[1] = 1;
    let (monitors, rest) = parse_monitors(&bytes).unwrap();
    assert_eq!(monitors.len(), 2);
    assert!(rest.is_empty());
    bytes[1] = 2;
    assert_eq!(parse_monitors(&bytes), Err(SerialError::Incomplete));
}

#[test]
fn monitor_map_that_is_cut_short() {
    assert_eq!(
        MonMap::read_from_wire(&[3, 3, 0, 0, 0, 0, 0, 0, 0, 0, 1, 0, 0, 0, 0, 0, 0]),
        Err(SerialError::Incomplete)
    );
    // long enough, and the text of no length is no identifier
    assert_eq!(
        MonMap::read_from_wire(&[3, 3, 0, 0, 0, 0, 0, 0, 0, 0, 1, 0, 0, 0, 0, 0, 0, 0]),
        Err(SerialError::InvalidIdentifier)
    );
}

#[test]
fn monitor_round_trip() {
    let monitor = a_monitor("chris-local-machine-4", 244);
    let bytes = monitor.write_to_wire().unwrap();
    assert_eq!(bytes.len(), 4 + 21 + 136);
    assert_eq!(&bytes[..6], &[21, 0, 0, 0, b'c', b'h']);
    let empty: &[u8] = &[];
    assert_eq!(Monitor::read_from_wire(&bytes), Ok((monitor, empty)));
    assert_eq!(Monitor::read_from_wire(&bytes[..139]), Err(SerialError::Incomplete));
    assert_eq!(Monitor::read_from_wire(&bytes[..160]), Err(SerialError::Incomplete));
}

#[test]
fn paxos_bytes() {
    let paxos = PaxosMessage { version: 0x0102, mon: -2, mon_tid: 3 };
    let bytes = paxos.write_to_wire().unwrap();
    assert_eq!(bytes, vec![2, 1, 0, 0, 0, 0, 0, 0, 0xfe, 0xff, 3, 0, 0, 0, 0, 0, 0, 0]);
    let empty: &[u8] = &[];
    assert_eq!(PaxosMessage::read_from_wire(&bytes), Ok((paxos, empty)));
    assert_eq!(PaxosMessage::read_from_wire(&bytes[..17]), Err(SerialError::Incomplete));
}

#[test]
fn monitor_command_round_trip() {
    let command = MonCommand {
        paxos: PaxosMessage { version: 0, mon: -1, mon_tid: 0 },
        fsid: FSID,
        arguments: vec!["{\"prefix\": \"status\"}", "", "\u{e9}"],
    };
    let bytes = command.write_to_wire().unwrap();
    let mut expected = vec![0, 0, 0, 0, 0, 0, 0, 0, 0xff, 0xff, 0, 0, 0, 0, 0, 0, 0, 0];
    // the identifier in sixteen bytes
    expected.extend_from_slice(&[
        0xec, 0xbb, 0x89, 0x60, 0x0e, 0x21, 0x11, 0xe2, 0xb4, 0x95, 0x83, 0xa8, 0x8f, 0x44, 0xdb,
        0x01,
    ]);
    expected.extend_from_slice(&[3, 0, 0, 0]);
    expected.extend_from_slice(&[20, 0, 0, 0]);
    expected.extend_from_slice(b"{\"prefix\": \"status\"}");
    expected.extend_from_slice(&[0, 0, 0, 0]);
    expected.extend_from_slice(&[2, 0, 0, 0, 0xc3, 0xa9]);
    assert_eq!(bytes, expected);
    let empty: &[u8] = &[];
    assert_eq!(MonCommand::read_from_wire(&bytes), Ok((command, empty)));
    match read_messages_from_wire(&bytes, &CephMsgType::MsgMonCommand).unwrap().0.pop() {
        Some(Message::MonCommand(back)) => assert_eq!(back.arguments.len(), 3),
        other => panic!("{:?}", other),
    }
}

#[test]
fn monitor_command_failures() {
    assert_eq!(MonCommand::read_from_wire(&[0; 37]), Err(SerialError::Incomplete));
    let mut bytes = vec![0u8; 38];
    let empty: &[u8] = &[];
    assert_eq!(MonCommand::read_from_wire(&bytes).unwrap().1, empty);
    bytes[34] = 2;
    assert_eq!(MonCommand::read_from_wire(&bytes), Err(SerialError::Incomplete));
    bytes.extend_from_slice(&[1, 0, 0, 0, 0x80]);
    assert_eq!(MonCommand::read_from_wire(&bytes), Err(SerialError::InvalidText));
}

#[test]
fn lists_of_texts() {
    let bytes = [2, 0, 0, 0, 1, 0, 0, 0, b'a', 2, 0, 0, 0, b'b', b'c', 0xee];
    assert_eq!(parse_strs(&bytes), Ok((vec!["a", "bc"], &bytes[15..])));
    assert_eq!(parse_strs(&bytes[..14]), Err(SerialError::Incomplete));
    assert_eq!(parse_strs(&bytes[..3]), Err(SerialError::Incomplete));
    let empty: &[u8] = &[];
    assert_eq!(parse_strs(&[0, 0, 0, 0]), Ok((vec![], empty)));
    assert_eq!(parse_strs(&[0xff, 0xff, 0xff, 0xff]), Err(SerialError::Incomplete));
    let mut written = vec![7u8];
    put_strs(&mut written, &vec!["a", "bc"]);
    assert_eq!(&written[1..], &bytes[..15]);
}

#[test]
fn lists_of_protocols() {
    let bytes = [3, 0, 0, 0, 2, 0, 0, 0, 0, 0, 0, 0, 1, 0, 0, 0, 0xee];
    let all = vec![
        CephAuthProtocol::CephAuthCephx,
        CephAuthProtocol::CephAuthUnknown,
        CephAuthProtocol::CephAuthNone,
    ];
    assert_eq!(parse_protocols(&bytes), Ok((all.clone(), &bytes[16..])));
    assert_eq!(parse_protocols(&bytes[..15]), Err(SerialError::Incomplete));
    let mut written = Vec::new();
    put_protocols(&mut written, &all);
    assert_eq!(written, &bytes[..16]);
    assert_eq!(
        parse_protocols(&[2, 0, 0, 0, 2, 0, 0, 0, 5, 0, 0, 0]),
        Err(SerialError::InvalidEnumValue { field: WireField::AuthProtocol, code: 5 })
    );
}

#[test]
fn subscriptions_round_trip() {
    let subscribe = MonitorSubscribe {
        subscriptions: vec![
            Subscription { name: "monmap", start_time: 1, flags: 0 },
            Subscription { name: "osdmap", start_time: 0x0203, flags: 1 },
        ],
    };
    let bytes = subscribe.write_to_wire().unwrap();
    let mut expected = vec![2, 0, 0, 0];
    expected.extend_from_slice(&[6, 0, 0, 0]);
    expected.extend_from_slice(b"monmap");
    expected.extend_from_slice(&[1, 0, 0, 0, 0, 0, 0, 0, 0]);
    expected.extend_from_slice(&[6, 0, 0, 0]);
    expected.extend_from_slice(b"osdmap");
    expected.extend_from_slice(&[3, 2, 0, 0, 0, 0, 0, 0, 1]);
    assert_eq!(bytes, expected);
    let empty: &[u8] = &[];
    assert_eq!(MonitorSubscribe::read_from_wire(&bytes), Ok((subscribe, empty)));
    assert_eq!(
        MonitorSubscribe::read_from_wire(&bytes[..bytes.len() - 1]),
        Err(SerialError::Incomplete)
    );
    assert_eq!(MonitorSubscribe::read_from_wire(&[1, 0, 0]), Err(SerialError::Incomplete));
    let (items, rest) = parse_subscriptions(&bytes).unwrap();
    assert_eq!(items.len(), 2);
    assert!(rest.is_empty());
    assert_eq!(Subscription::read_from_wire(&bytes[4..]).unwrap().0.name, "monmap");
    assert_eq!(Subscription::read_from_wire(&bytes[4..16]), Err(SerialError::Incomplete));
}

fn an_auth_message() -> AuthMessage<'static> {
    AuthMessage {
        paxos_msg: PaxosMessage { version: 0, mon: -1, mon_tid: 0 },
        protocol: CephAuthProtocol::CephAuthUnknown,
        encoding_version: 1,
        supported_protocols: vec![CephAuthProtocol::CephAuthCephx],
        entity_name: CephEntityName { entity_type: CephEntity::Client, id: "admin" },
        global_id: 0,
        map_epoch: 0,
    }
}

#[test]
fn auth_message_round_trip() {
    let message = an_auth_message();
    let bytes = message.write_to_wire().unwrap();
    assert_eq!(
        bytes,
        vec![
            0, 0, 0, 0, 0, 0, 0, 0, 0xff, 0xff, 0, 0, 0, 0, 0, 0, 0, 0, // paxos
            0, 0, 0, 0, // protocol
            0, 0, 0, 0, // reserved
            1, // encoding version
            1, 0, 0, 0, 2, 0, 0, 0, // the protocols
            8, 5, 0, 0, 0, b'a', b'd', b'm', b'i', b'n', // the name
            0, 0, 0, 0, 0, 0, 0, 0, // global id
            0, 0, 0, 0, // epoch
        ]
    );
    let empty: &[u8] = &[];
    assert_eq!(AuthMessage::read_from_wire(&bytes), Ok((message, empty)));
    assert_eq!(
        read_messages_from_wire(&bytes, &CephMsgType::MsgAuth),
        Ok((vec![Message::Auth(an_auth_message())], empty))
    );
}

#[test]
fn auth_message_skips_the_reserved_bytes() {
    let mut bytes = an_auth_message().write_to_wire().unwrap();
    bytes[22] = 0x1e;
    let empty: &[u8] = &[];
    assert_eq!(AuthMessage::read_from_wire(&bytes), Ok((an_auth_message(), empty)));
}

#[test]
fn auth_message_failures() {
    let bytes = an_auth_message().write_to_wire().unwrap();
    assert_eq!(bytes.len(), 57);
    for n in 0..57 {
        assert_eq!(AuthMessage::read_from_wire(&bytes[..n]), Err(SerialError::Incomplete));
    }
    let mut broken = bytes.clone();
    broken[18] = 7;
    assert_eq!(
        AuthMessage::read_from_wire(&broken),
        Err(SerialError::InvalidEnumValue { field: WireField::AuthProtocol, code: 7 })
    );
    // shorter than any such message: incomplete, though the protocol has no name
    assert_eq!(AuthMessage::read_from_wire(&broken[..47]), Err(SerialError::Incomplete));
    let mut broken = bytes.clone();
    broken[35] = 9;
    assert_eq!(
        AuthMessage::read_from_wire(&broken),
        Err(SerialError::InvalidEnumValue { field: WireField::EntityRole, code: 9 })
    );
    let mut broken = bytes.clone();
    broken[40] = 0xff;
    assert_eq!(AuthMessage::read_from_wire(&broken), Err(SerialError::InvalidText));
}

#[test]
fn entity_name_round_trip() {
    let name = CephEntityName { entity_type: CephEntity::Osd, id: "12" };
    let bytes = name.write_to_wire().unwrap();
    assert_eq!(bytes, vec![4, 2, 0, 0, 0, b'1', b'2']);
    let empty: &[u8] = &[];
    assert_eq!(CephEntityName::read_from_wire(&bytes), Ok((name, empty)));
    assert_eq!(CephEntityName::read_from_wire(&bytes[..4]), Err(SerialError::Incomplete));
}

#[test]
fn auth_reply_round_trip() {
    let reply = CephAuthOperationReply {
        protocol: CephAuthProtocol::CephAuthCephx,
        result: -13,
        global_id: 0x112e,
        result_msg: "denied",
        result_buffer: &[1, 0xfb, 0x82],
    };
    let bytes = reply.write_to_wire().unwrap();
    assert_eq!(
        bytes,
        vec![
            2, 0, 0, 0, 0xf3, 0xff, 0xff, 0xff, 0x2e, 0x11, 0, 0, 0, 0, 0, 0, 6, 0, 0, 0, b'd',
            b'e', b'n', b'i', b'e', b'd', 3, 0, 0, 0, 1, 0xfb, 0x82
        ]
    );
    let empty: &[u8] = &[];
    assert_eq!(CephAuthOperationReply::read_from_wire(&bytes), Ok((reply, empty)));
    assert_eq!(CephAuthOperationReply::read_from_wire(&bytes[..32]), Err(SerialError::Incomplete));
    assert_eq!(CephAuthOperationReply::read_from_wire(&bytes[..23]), Err(SerialError::Incomplete));
    match read_messages_from_wire(&bytes, &CephMsgType::MsgAuthReply).unwrap().0.pop() {
        Some(Message::AuthReply(back)) => assert_eq!(back.result, -13),
        other => panic!("{:?}", other),
    }
}

#[test]
fn auth_operation_round_trip() {
    let operation = CephAuthOperation {
        protocol: CephAuthProtocol::CephAuthNone,
        auth_data: &[9, 8],
        monmap_epoch: 5,
    };
    let bytes = operation.write_to_wire().unwrap();
    assert_eq!(bytes, vec![1, 0, 0, 0, 2, 0, 0, 0, 9, 8, 5, 0, 0, 0]);
    let empty: &[u8] = &[];
    assert_eq!(CephAuthOperation::read_from_wire(&bytes), Ok((operation, empty)));
    assert_eq!(CephAuthOperation::read_from_wire(&bytes[..11]), Err(SerialError::Incomplete));
}

#[test]
fn small_osd_structures() {
    let empty: &[u8] = &[];
    let group = PlacementGroup { group_version: 1, pool: 2, seed: 3, preferred: u32::MAX };
    let bytes = group.write_to_wire().unwrap();
    assert_eq!(bytes, vec![1, 2, 0, 0, 0, 0, 0, 0, 0, 3, 0, 0, 0, 0xff, 0xff, 0xff, 0xff]);
    assert_eq!(PlacementGroup::read_from_wire(&bytes), Ok((group, empty)));
    assert_eq!(PlacementGroup::read_from_wire(&bytes[..16]), Err(SerialError::Incomplete));

    let version = ReplayVersion { version: 0x0102, epoch: 7 };
    let bytes = version.write_to_wire().unwrap();
    assert_eq!(bytes, vec![2, 1, 0, 0, 0, 0, 0, 0, 7, 0, 0, 0]);
    assert_eq!(ReplayVersion::read_from_wire(&bytes), Ok((version, empty)));
    assert_eq!(ReplayVersion::read_from_wire(&bytes[..11]), Err(SerialError::Incomplete));

    let operation = Operation {
        operation: 0x2202,
        flags: 1,
        offset: 2,
        size: 3,
        truncate_size: 4,
        truncate_seq: 5,
        payload_size: 6,
    };
    let bytes = operation.write_to_wire().unwrap();
    assert_eq!(
        bytes,
        vec![
            2, 0x22, 1, 0, 0, 0, 2, 0, 0, 0, 0, 0, 0, 0, 3, 0, 0, 0, 0, 0, 0, 0, 4, 0, 0, 0, 0,
            0, 0, 0, 5, 0, 0, 0, 6, 0, 0, 0
        ]
    );
    assert_eq!(Operation::read_from_wire(&bytes), Ok((operation, empty)));
    assert_eq!(Operation::read_from_wire(&bytes[..37]), Err(SerialError::Incomplete));

    let info = OsdInfo {
        encoding_version: 1,
        last_clean_being: 2,
        last_clean_end: 3,
        up_from: 4,
        up_through: 5,
        down_at: 6,
        lost_at: 7,
    };
    let bytes = info.write_to_wire().unwrap();
    assert_eq!(bytes.len(), 25);
    assert_eq!(&bytes[..9], &[1, 2, 0, 0, 0, 3, 0, 0, 0]);
    assert_eq!(OsdInfo::read_from_wire(&bytes), Ok((info, empty)));
    assert_eq!(OsdInfo::read_from_wire(&bytes[..24]), Err(SerialError::Incomplete));

    let params =
        ClientHitSetParams { encoding_version: 1, min_compat_version: 2, size: 3, hitset_type: 4 };
    let bytes = params.write_to_wire().unwrap();
    assert_eq!(bytes, vec![1, 2, 3, 0, 0, 0, 4]);
    assert_eq!(ClientHitSetParams::read_from_wire(&bytes), Ok((params, empty)));
    assert_eq!(ClientHitSetParams::read_from_wire(&bytes[..6]), Err(SerialError::Incomplete));
}

#[test]
fn object_id_and_locator() {
    let empty: &[u8] = &[];
    let id = ObjectId { size: 2, data: b"hw" };
    let bytes = id.write_to_wire().unwrap();
    assert_eq!(bytes, vec![2, 0, 0, 0, b'h', b'w']);
    assert_eq!(ObjectId::read_from_wire(&bytes), Ok((id, empty)));
    assert_eq!(ObjectId::read_from_wire(&bytes[..5]), Err(SerialError::Incomplete));
    assert_eq!(ObjectId::read_from_wire(&bytes[..3]), Err(SerialError::Incomplete));

    let locator = ObjectLocator {
        encoding_version: 6,
        min_compat_version: 3,
        size: 30,
        pool: 1,
        namespace_size: 2,
        namespace_data: b"ns",
    };
    let bytes = locator.write_to_wire().unwrap();
    assert_eq!(
        bytes,
        vec![
            6, 3, 30, 0, 0, 0, // versions and size
            1, 0, 0, 0, 0, 0, 0, 0, // pool
            0, 0, 0, 0, 0, 0, 0, 0, // reserved
            2, 0, 0, 0, b'n', b's', // namespace
            0, 0, 0, 0, 0, 0, 0, 0, // reserved
        ]
    );
    assert_eq!(ObjectLocator::read_from_wire(&bytes), Ok((locator, empty)));
    // what the reserved fields hold does not matter
    let mut other = bytes.clone();
    other[14] = 0xff;
    other[35] = 0xff;
    assert_eq!(ObjectLocator::read_from_wire(&other).unwrap().0.namespace_data, b"ns");
    assert_eq!(ObjectLocator::read_from_wire(&bytes[..35]), Err(SerialError::Incomplete));
    assert_eq!(ObjectLocator::read_from_wire(&bytes[..33]), Err(SerialError::Incomplete));
}

fn a_reply() -> CephOsdOperationReply<'static> {
    CephOsdOperationReply {
        object_id: ObjectId { size: 2, data: b"hw" },
        placement_group: PlacementGroup { group_version: 1, pool: 0, seed: 9, preferred: u32::MAX },
        flags: OsdOp { bits: 0x25 },
        result: 0,
        bad_replay_version: ReplayVersion { version: 0, epoch: 0 },
        osd_map_epoch: 90,
        operation_count: 1,
        operation: Operation {
            operation: 0x2202,
            flags: 0,
            offset: 0,
            size: 12,
            truncate_size: 0,
            truncate_seq: 0,
            payload_size: 0,
        },
        retry_attempt: 0,
        operation_return_value: 0,
        replay_version: ReplayVersion { version: 4, epoch: 90 },
        user_version: 4,
    }
}

#[test]
fn osd_reply_round_trip() {
    let reply = a_reply();
    let bytes = reply.write_to_wire().unwrap();
    assert_eq!(bytes.len(), 117);
    assert_eq!(&bytes[..6], &[2, 0, 0, 0, b'h', b'w']);
    // flags, and the result behind them
    assert_eq!(&bytes[23..31], &[0x25, 0, 0, 0, 0, 0, 0, 0]);
    assert_eq!(&bytes[109..], &[4, 0, 0, 0, 0, 0, 0, 0]);
    let empty: &[u8] = &[];
    assert_eq!(CephOsdOperationReply::read_from_wire(&bytes), Ok((reply, empty)));
    assert_eq!(
        read_messages_from_wire(&bytes, &CephMsgType::MsgOsdOpReply),
        Ok((vec![Message::OsdOpRepl(a_reply())], empty))
    );
    assert_eq!(
        read_messages_from_wire(&bytes, &CephMsgType::MsgOsdSubopReply),
        Ok((vec![Message::OsdSubopReply(a_reply())], empty))
    );
    for n in 0..117 {
        assert_eq!(
            CephOsdOperationReply::read_from_wire(&bytes[..n]),
            Err(SerialError::Incomplete)
        );
    }
    let mut broken = bytes.clone();
    broken[26] = 0x80;
    assert_eq!(
        CephOsdOperationReply::read_from_wire(&broken),
        Err(SerialError::InvalidEnumValue { field: WireField::OsdFlags, code: 0x8000_0025 })
    );
}

#[test]
fn osd_operation_writes_its_payload_behind() {
    let operation = CephOsdOperation {
        client: 1,
        map_epoch: 2,
        flags: OsdOp { bits: 0x20 },
        modification_time: Utime { tv_sec: 3, tv_nsec: 4 },
        reassert_version: 5,
        reassert_epoch: 6,
        locator: ObjectLocator {
            encoding_version: 6,
            min_compat_version: 3,
            size: 28,
            pool: 7,
            namespace_size: 0,
            namespace_data: &[],
        },
        placement_group: PlacementGroup { group_version: 1, pool: 7, seed: 8, preferred: 9 },
        object_id: ObjectId { size: 1, data: b"o" },
        operation_count: 1,
        operation: Operation {
            operation: 0x2202,
            flags: 0,
            offset: 0,
            size: 2,
            truncate_size: 0,
            truncate_seq: 0,
            payload_size: 2,
        },
        snapshot_id: 10,
        snapshot_seq: 11,
        snapshot_count: 0,
        retry_attempt: 12,
        payload: vec![0xaa, 0xbb],
    };
    let bytes = operation.write_to_wire().unwrap();
    assert_eq!(bytes.len(), 151 + 1 + 2);
    assert_eq!(&bytes[..12], &[1, 0, 0, 0, 2, 0, 0, 0, 0x20, 0, 0, 0]);
    assert_eq!(&bytes[152..], &[0xaa, 0xbb]);
    let (back, rest) = CephOsdOperation::read_from_wire(&bytes).unwrap();
    assert_eq!(rest, &[0xaa, 0xbb]);
    assert!(back.payload.is_empty());
    assert_eq!(back.retry_attempt, 12);
    assert_eq!(back.object_id, operation.object_id);
    let mut broken = bytes.clone();
    broken[10] = 0x80;
    assert_eq!(
        CephOsdOperation::read_from_wire(&broken),
        Err(SerialError::InvalidEnumValue { field: WireField::OsdFlags, code: 0x0080_0020 })
    );
    assert_eq!(CephOsdOperation::read_from_wire(&broken[..150]), Err(SerialError::Incomplete));
}

#[test]
fn the_banner_and_what_a_stream_took() {
    assert_eq!(banner(), b"ceph v027");
    assert_eq!(sent(9, "Unable to send banner"), Ok(9));
    assert_eq!(sent(1, "x"), Ok(1));
    assert_eq!(
        sent(0, "Unable to send banner"),
        Err(SerialError::IoError("Unable to send banner".to_string()))
    );
    assert_eq!(SerialError::new("x".to_string()), SerialError::IoError("x".to_string()));
}
