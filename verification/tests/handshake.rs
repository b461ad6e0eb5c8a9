use decode_ceph::enums::{CephAuthProtocol, CephEntity, CephMsg, Protocol};
use decode_ceph::error::{SerialError, WireField};
use decode_ceph::features::{CephFeatures, CEPH_CLIENT_DEFAULT};
use decode_ceph::handshake::{reply_tag, CephMsgConnect, CephMsgConnectReply, CephMsgKeepAlive};
use decode_ceph::handshake::{CephMsgKeepAlive2, CephMsgKeepAlive2Ack, CephMsgTagAck};
use decode_ceph::primitive::CephPrimitive;
use decode_ceph::utime::Utime;

#[test]
fn test_connect_reply() {}

#[test]
fn test_ceph_connect_reply() {
    let bytes = vec![
        0x01, 0xff, 0xff, 0xff, 0xff, 0xff, 0x2f, 0x00, 0x00, 0x08, 0x00, 0x00, 0x00, 0x01, 0x00,
        0x00, 0x00, 0x0f, 0x00, 0x00, 0x00, 0x00, 0x00, 0x00, 0x00, 0x01,
    ];
    let result = CephMsgConnectReply::read_from_wire(&bytes);
    println!("CephMsgConnectReply parse result: {:?}", result);
    let x: &[u8] = &[];
    let expected_result = CephMsgConnectReply {
        tag: CephMsg::Ready,
        features: CephFeatures { bits: 0x0000_2fff_ffff_ffff },
        global_seq: 8,
        connect_seq: 1,
        protocol_version: Protocol::MonProtocol,
        authorizer_len: 0,
        flags: 1,
        authorizer: vec![],
    };
    assert_eq!(Ok((expected_result, x)), result);
}

#[test]
fn test_msg_ack() {
    let bytes = vec![0x08, 0x01, 0x00, 0x00, 0x00, 0x00, 0x00, 0x00, 0x00];
    let x: &[u8] = &[];
    let expected_result = CephMsgTagAck { tag: CephMsg::Ack, seq: 1 };
    let result = CephMsgTagAck::read_from_wire(&bytes);
    println!("CephMsgTagAck parse result: {:?}", result);
    assert_eq!(Ok((expected_result, x)), result);
}

#[test]
fn test_keep_alive2() {
    let bytes = vec![0x0e, 0x3d, 0x0c, 0x39, 0x56, 0xc8, 0xc1, 0x6e, 0x02];
    let x: &[u8] = &[];
    let expected_result = CephMsgKeepAlive2 {
        tag: CephMsg::KeepAlive2,
        timestamp: Utime { tv_sec: 1446579261, tv_nsec: 40813000 },
    };
    let result = CephMsgKeepAlive2::read_from_wire(&bytes);
    println!("CephMsgKeepAlive2 parse result: {:?}", result);
    assert_eq!(Ok((expected_result, x)), result);
}

#[test]
fn test_keep_alive2_ack() {
    let bytes = vec![0x0f, 0x3d, 0x0c, 0x39, 0x56, 0xc8, 0xc1, 0x6e, 0x02];
    let x: &[u8] = &[];
    let expected_result = CephMsgKeepAlive2Ack {
        tag: CephMsg::KeepAlive2Ack,
        timestamp: Utime { tv_sec: 1446579261, tv_nsec: 40813000 },
    };
    let result = CephMsgKeepAlive2Ack::read_from_wire(&bytes);
    println!("CephMsgKeepAlive2Ack parse result: {:?}", result);
    assert_eq!(Ok((expected_result, x)), result);
}

#[test]
fn fixed_structures_shorter_than_their_size_are_incomplete() {
    // the prefix holds a tag that names nothing, and still the buffer is incomplete
    assert_eq!(
        CephMsgTagAck::read_from_wire(&[0x63, 1, 0, 0, 0, 0, 0, 0]),
        Err(SerialError::Incomplete)
    );
    assert_eq!(CephMsgTagAck::read_from_wire(&[]), Err(SerialError::Incomplete));
    assert_eq!(CephMsgKeepAlive::read_from_wire(&[9]), Err(SerialError::Incomplete));
    assert_eq!(
        CephMsgKeepAlive2::read_from_wire(&[0x0e, 0, 0, 0, 0, 0, 0, 0]),
        Err(SerialError::Incomplete)
    );
    assert_eq!(CephMsgKeepAlive2Ack::read_from_wire(&[0x0f; 8]), Err(SerialError::Incomplete));
    assert_eq!(Utime::read_from_wire(&[0; 7]), Err(SerialError::Incomplete));
    assert_eq!(CephMsgConnect::read_from_wire(&[0xff; 32]), Err(SerialError::Incomplete));
    assert_eq!(CephMsgConnectReply::read_from_wire(&[0xff; 25]), Err(SerialError::Incomplete));
}

#[test]
fn a_tag_that_names_nothing_fails_a_whole_structure() {
    assert_eq!(
        CephMsgTagAck::read_from_wire(&[0x63, 1, 0, 0, 0, 0, 0, 0, 0]),
        Err(SerialError::InvalidEnumValue { field: WireField::Tag, code: 0x63 })
    );
}

#[test]
fn keep_alive_is_tag_and_one_byte() {
    let bytes = [9u8, 0x55, 0x77];
    assert_eq!(
        CephMsgKeepAlive::read_from_wire(&bytes),
        Ok((CephMsgKeepAlive { tag: CephMsg::KeepAlive, data: 0x55 }, &bytes[2..]))
    );
    assert_eq!(CephMsgKeepAlive::new(), CephMsgKeepAlive { tag: CephMsg::KeepAlive, data: 0 });
    assert_eq!(CephMsgKeepAlive::new().write_to_wire(), Ok(vec![9, 0]));
}

#[test]
fn ack_round_trip() {
    let ack = CephMsgTagAck::new(0x0102_0304_0506_0708);
    assert_eq!(ack, CephMsgTagAck { tag: CephMsg::Ack, seq: 0x0102_0304_0506_0708 });
    let bytes = ack.write_to_wire().unwrap();
    assert_eq!(bytes, vec![8, 8, 7, 6, 5, 4, 3, 2, 1]);
    let empty: &[u8] = &[];
    assert_eq!(CephMsgTagAck::read_from_wire(&bytes), Ok((ack, empty)));
}

#[test]
fn keep_alive2_round_trip() {
    let keep = CephMsgKeepAlive2::at(Utime { tv_sec: 1446579261, tv_nsec: 40813000 });
    let bytes = keep.write_to_wire().unwrap();
    assert_eq!(bytes, vec![0x0e, 0x3d, 0x0c, 0x39, 0x56, 0xc8, 0xc1, 0x6e, 0x02]);
    let reply = CephMsgKeepAlive2Ack::at(keep.timestamp);
    assert_eq!(reply.write_to_wire().unwrap()[0], 0x0f);
    let empty: &[u8] = &[];
    assert_eq!(CephMsgKeepAlive2::read_from_wire(&bytes), Ok((keep, empty)));
}

#[test]
fn the_clock_gives_a_point_in_time() {
    let now = Utime::new();
    assert!(now.tv_nsec < 1_000_000_000);
    // later than the first of January 2020
    assert!(now.tv_sec > 1_577_836_800);
    let keep = CephMsgKeepAlive2::new();
    assert_eq!(keep.tag, CephMsg::KeepAlive2);
    assert!(keep.timestamp.tv_nsec < 1_000_000_000);
    assert!(keep.timestamp.tv_sec >= now.tv_sec);
    let reply = CephMsgKeepAlive2Ack::new();
    assert_eq!(reply.tag, CephMsg::KeepAlive2Ack);
    assert!(reply.timestamp.tv_nsec < 1_000_000_000);
}

#[test]
fn a_clock_reading_is_cut_to_32_bits() {
    assert_eq!(
        Utime::from_timespec(1446579261, 40813000),
        Utime { tv_sec: 1446579261, tv_nsec: 40813000 }
    );
    assert_eq!(Utime::from_timespec(0x1_0000_0005, 7), Utime { tv_sec: 5, tv_nsec: 7 });
    assert_eq!(Utime::from_timespec(-1, 0), Utime { tv_sec: u32::MAX, tv_nsec: 0 });
}

#[test]
fn utime_bytes() {
    let t = Utime { tv_sec: 1, tv_nsec: 0x0a0b0c0d };
    assert_eq!(t.write_to_wire(), Ok(vec![1, 0, 0, 0, 0x0d, 0x0c, 0x0b, 0x0a]));
}

fn a_connect() -> CephMsgConnect {
    CephMsgConnect {
        features: CephFeatures { bits: CEPH_CLIENT_DEFAULT },
        host_type: CephEntity::Client,
        global_seq: 1,
        connect_seq: 0,
        protocol_version: Protocol::MonProtocol,
        authorizer_protocol: CephAuthProtocol::CephAuthUnknown,
        authorizer_len: 0,
        flags: 1,
        authorizer: Vec::new(),
    }
}

#[test]
fn connect_request_bytes_and_round_trip() {
    let connect = a_connect();
    let bytes = connect.write_to_wire().unwrap();
    assert_eq!(
        bytes,
        vec![
            0xff, 0xff, 0xff, 0xff, 0xff, 0x00, 0x00, 0x00, // features
            8, 0, 0, 0, // role
            1, 0, 0, 0, // global sequence
            0, 0, 0, 0, // connect sequence
            15, 0, 0, 0, // protocol version
            0, 0, 0, 0, // authentication protocol
            0, 0, 0, 0, // length of the authorizer
            1, // flags
        ]
    );
    let empty: &[u8] = &[];
    assert_eq!(CephMsgConnect::read_from_wire(&bytes), Ok((connect, empty)));
}

#[test]
fn connect_request_reads_the_authentication_protocol_from_its_own_field() {
    let mut connect = a_connect();
    connect.authorizer_protocol = CephAuthProtocol::CephAuthCephx;
    connect.protocol_version = Protocol::OsdProtocol;
    let bytes = connect.write_to_wire().unwrap();
    let (back, _) = CephMsgConnect::read_from_wire(&bytes).unwrap();
    assert_eq!(back.authorizer_protocol, CephAuthProtocol::CephAuthCephx);
    assert_eq!(back.protocol_version, Protocol::OsdProtocol);
}

#[test]
fn connect_request_leaves_the_authorizer_in_the_buffer() {
    let mut connect = a_connect();
    connect.authorizer_len = 3;
    connect.authorizer = vec![0xa, 0xb, 0xc];
    let bytes = connect.write_to_wire().unwrap();
    assert_eq!(bytes.len(), 36);
    let (back, rest) = CephMsgConnect::read_from_wire(&bytes).unwrap();
    assert_eq!(rest, &[0xa, 0xb, 0xc]);
    assert_eq!(back.authorizer_len, 3);
    assert!(back.authorizer.is_empty());
}

#[test]
fn connect_request_unknown_codes() {
    let mut bytes = a_connect().write_to_wire().unwrap();
    bytes[8] = 3;
    assert_eq!(
        CephMsgConnect::read_from_wire(&bytes),
        Err(SerialError::InvalidEnumValue { field: WireField::EntityRole, code: 3 })
    );
    bytes[8] = 8;
    bytes[20] = 16;
    assert_eq!(
        CephMsgConnect::read_from_wire(&bytes),
        Err(SerialError::InvalidEnumValue { field: WireField::ProtocolVersion, code: 16 })
    );
    bytes[20] = 15;
    bytes[24] = 9;
    assert_eq!(
        CephMsgConnect::read_from_wire(&bytes),
        Err(SerialError::InvalidEnumValue { field: WireField::AuthProtocol, code: 9 })
    );
    // the capability mask is taken as it is
    bytes[24] = 1;
    bytes[7] = 0xff;
    let (back, _) = CephMsgConnect::read_from_wire(&bytes).unwrap();
    assert_eq!(back.features.bits, 0xff00_00ff_ffff_ffff);
}

#[test]
fn connect_reply_takes_only_the_tags_that_answer() {
    let reply = CephMsgConnectReply {
        tag: CephMsg::RetryGlobal,
        features: CephFeatures { bits: 0x10 },
        global_seq: 0x0102,
        connect_seq: 3,
        protocol_version: Protocol::MdsProtocol,
        authorizer_len: 0,
        flags: 0,
        authorizer: vec![],
    };
    let mut bytes = reply.write_to_wire().unwrap();
    assert_eq!(
        bytes,
        vec![5, 0x10, 0, 0, 0, 0, 0, 0, 0, 2, 1, 0, 0, 3, 0, 0, 0, 32, 0, 0, 0, 0, 0, 0, 0, 0]
    );
    let empty: &[u8] = &[];
    assert_eq!(CephMsgConnectReply::read_from_wire(&bytes), Ok((reply, empty)));
    for code in [1u8, 2, 3, 4, 5, 10, 11, 12] {
        bytes[0] = code;
        assert!(reply_tag(CephMsg::from_u8(code).unwrap()));
        assert_eq!(CephMsgConnectReply::read_from_wire(&bytes).unwrap().0.tag.code(), code);
    }
    for code in [6u8, 7, 8, 9, 13, 14, 15, 20] {
        bytes[0] = code;
        assert!(!reply_tag(CephMsg::from_u8(code).unwrap()));
        assert_eq!(
            CephMsgConnectReply::read_from_wire(&bytes),
            Err(SerialError::InvalidEnumValue { field: WireField::Tag, code: code as u64 })
        );
    }
    bytes[0] = 0;
    assert_eq!(
        CephMsgConnectReply::read_from_wire(&bytes),
        Err(SerialError::InvalidEnumValue { field: WireField::Tag, code: 0 })
    );
}
