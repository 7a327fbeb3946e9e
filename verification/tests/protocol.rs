use clipsync::json::JsonDoc;
use clipsync::lan::protocol::{
    beacon_from_document, decode_beacon, decode_peer_message, encode_beacon, encode_peer_message,
    frame, frame_length, has_magic, msg_type_name, peer_message_from_document, peer_message_json,
    DiscoveryBeacon, FrameError, PeerMessage, DEFAULT_DISCOVERY_PORT, DEFAULT_TCP_PORT,
    DISCOVERY_MAGIC, MAX_FRAME_SIZE,
};

fn beacon() -> DiscoveryBeacon {
    DiscoveryBeacon {
        device_id: "id-1".to_string(),
        device_name: "Desk \"A\"".to_string(),
        tcp_port: 52742,
        seq: 7,
    }
}

#[test]
fn constants_are_the_documented_ones() {
    assert_eq!(&DISCOVERY_MAGIC, b"RSCV_LAN");
    assert_eq!(DEFAULT_DISCOVERY_PORT, 52741);
    assert_eq!(DEFAULT_TCP_PORT, 52742);
    assert_eq!(MAX_FRAME_SIZE, 16 * 1024 * 1024);
}

#[test]
fn frame_length_reads_big_endian() {
    assert_eq!(frame_length([0, 0, 1, 2]), Ok(258));
    assert_eq!(frame_length([0, 0, 0, 0]), Ok(0));
    assert_eq!(frame_length([0, 1, 0, 0]), Ok(65536));
}

#[test]
fn frame_length_accepts_the_limit() {
    assert_eq!(frame_length([1, 0, 0, 0]), Ok(MAX_FRAME_SIZE));
}

#[test]
fn frame_length_refuses_over_the_limit() {
    assert_eq!(frame_length([1, 0, 0, 1]), Err(FrameError::TooLarge { length: 16777217 }));
    assert_eq!(frame_length([255, 255, 255, 255]), Err(FrameError::TooLarge { length: u32::MAX }));
}

#[test]
fn beacon_datagram_is_magic_then_json() {
    let datagram = encode_beacon(&beacon());
    let mut expected = b"RSCV_LAN".to_vec();
    expected.extend_from_slice(
        br#"{"device_id":"id-1","device_name":"Desk \"A\"","tcp_port":52742,"seq":7}"#,
    );
    assert_eq!(datagram, expected);
}

#[test]
fn beacon_is_read_back() {
    let datagram = encode_beacon(&beacon());
    assert_eq!(decode_beacon(&datagram), Some(beacon()));
}

#[test]
fn beacon_with_extreme_values_is_read_back() {
    let b = DiscoveryBeacon {
        device_id: String::new(),
        device_name: "\u{540d}\u{524d}".to_string(),
        tcp_port: 65535,
        seq: u64::MAX,
    };
    assert_eq!(decode_beacon(&encode_beacon(&b)), Some(b));
}

#[test]
fn foreign_datagrams_are_dropped() {
    assert_eq!(decode_beacon(b""), None);
    assert_eq!(decode_beacon(b"RSCV_LAN"), None);
    assert_eq!(decode_beacon(b"RSCV_LA"), None);
    assert_eq!(decode_beacon(br#"XXXX_LAN{"device_id":"a","device_name":"b","tcp_port":1,"seq":0}"#), None);
    assert_eq!(decode_beacon(br#"RSCV_LAM{"device_id":"a","device_name":"b","tcp_port":1,"seq":0}"#), None);
    assert_eq!(decode_beacon(b"RSCV_LAN{not json"), None);
}

#[test]
fn beacon_fields_must_be_there_in_their_type() {
    assert_eq!(decode_beacon(br#"RSCV_LAN{"device_id":"a","device_name":"b","tcp_port":1}"#), None);
    assert_eq!(decode_beacon(br#"RSCV_LAN{"device_id":"a","device_name":"b","tcp_port":65536,"seq":0}"#), None);
    assert_eq!(decode_beacon(br#"RSCV_LAN{"device_id":"a","device_name":"b","tcp_port":-1,"seq":0}"#), None);
    assert_eq!(decode_beacon(br#"RSCV_LAN{"device_id":1,"device_name":"b","tcp_port":1,"seq":0}"#), None);
    assert_eq!(decode_beacon(br#"RSCV_LAN{"device_id":"a","device_name":"b","tcp_port":1,"seq":"0"}"#), None);
    assert_eq!(
        decode_beacon(br#"RSCV_LAN{"device_id":"a","device_name":"b","tcp_port":1,"seq":0,"extra":true}"#),
        Some(DiscoveryBeacon {
            device_id: "a".to_string(),
            device_name: "b".to_string(),
            tcp_port: 1,
            seq: 0,
        })
    );
}

#[test]
fn magic_is_checked_byte_by_byte() {
    assert!(has_magic(b"RSCV_LAN"));
    assert!(has_magic(b"RSCV_LAN and more"));
    assert!(!has_magic(b"RSCV_LA"));
    assert!(!has_magic(b"rscv_lan"));
    assert!(!has_magic(b"RSCV_LAX"));
}

#[test]
fn beacon_from_a_parsed_document() {
    let doc = JsonDoc::parse(br#"{"device_id":"a","device_name":"b","tcp_port":80,"seq":3}"#).unwrap();
    assert_eq!(
        beacon_from_document(&doc),
        Some(DiscoveryBeacon {
            device_id: "a".to_string(),
            device_name: "b".to_string(),
            tcp_port: 80,
            seq: 3,
        })
    );
    let doc = JsonDoc::parse(br#"["a","b",80,3]"#).unwrap();
    assert_eq!(beacon_from_document(&doc), None);
}

#[test]
fn peer_messages_have_their_json() {
    assert_eq!(
        peer_message_json(&PeerMessage::Hello { device_id: "i".to_string(), device_name: "n".to_string() }),
        r#"{"type":"Hello","device_id":"i","device_name":"n"}"#
    );
    assert_eq!(
        peer_message_json(&PeerMessage::Welcome { device_id: "i".to_string(), device_name: "n".to_string() }),
        r#"{"type":"Welcome","device_id":"i","device_name":"n"}"#
    );
    assert_eq!(peer_message_json(&PeerMessage::Ping { ts: 1700000000123 }), r#"{"type":"Ping","ts":1700000000123}"#);
    assert_eq!(peer_message_json(&PeerMessage::Pong { ts: 0 }), r#"{"type":"Pong","ts":0}"#);
    assert_eq!(
        peer_message_json(&PeerMessage::Clipboard {
            content_type: "text/plain".to_string(),
            data: "x\ty".to_string(),
        }),
        r#"{"type":"Clipboard","content_type":"text/plain","data":"x\ty"}"#
    );
}

#[test]
fn frame_is_length_then_body() {
    let frame = encode_peer_message(&PeerMessage::Ping { ts: 5 }).unwrap();
    let body = br#"{"type":"Ping","ts":5}"#;
    assert_eq!(&frame[..4], &[0, 0, 0, body.len() as u8]);
    assert_eq!(&frame[4..], body);
    assert_eq!(frame_length([frame[0], frame[1], frame[2], frame[3]]), Ok(body.len() as u32));
}

#[test]
fn frame_of_a_long_body_spells_its_length() {
    let body = vec![b'x'; 70000];
    let framed = frame(body.clone()).unwrap();
    assert_eq!(&framed[..4], &[0, 1, 17, 112]);
    assert_eq!(&framed[4..], &body[..]);
    assert_eq!(frame(Vec::new()), Some(vec![0, 0, 0, 0]));
}

#[test]
fn frame_refuses_a_body_over_the_limit() {
    assert!(frame(vec![0u8; MAX_FRAME_SIZE as usize]).is_some());
    assert_eq!(frame(vec![0u8; MAX_FRAME_SIZE as usize + 1]), None);
    let too_long = PeerMessage::Clipboard {
        content_type: "text/plain".to_string(),
        data: "a".repeat(MAX_FRAME_SIZE as usize),
    };
    assert_eq!(encode_peer_message(&too_long), None);
}

#[test]
fn every_peer_message_is_read_back() {
    let messages = vec![
        PeerMessage::Hello { device_id: "id".to_string(), device_name: "na\"me".to_string() },
        PeerMessage::Welcome { device_id: "id2".to_string(), device_name: "".to_string() },
        PeerMessage::Ping { ts: u64::MAX },
        PeerMessage::Pong { ts: 42 },
        PeerMessage::Clipboard { content_type: "image/png".to_string(), data: "aGk=".to_string() },
    ];
    for msg in messages {
        let frame = encode_peer_message(&msg).unwrap();
        let len = frame_length([frame[0], frame[1], frame[2], frame[3]]).unwrap() as usize;
        assert_eq!(len, frame.len() - 4);
        assert_eq!(decode_peer_message(&frame[4..]), Some(msg));
    }
}

#[test]
fn peer_message_needs_tag_and_fields() {
    assert_eq!(decode_peer_message(b"{}"), None);
    assert_eq!(decode_peer_message(br#"{"type":"Ping"}"#), None);
    assert_eq!(decode_peer_message(br#"{"type":"Ping","ts":-1}"#), None);
    assert_eq!(decode_peer_message(br#"{"type":"ping","ts":1}"#), None);
    assert_eq!(decode_peer_message(br#"{"type":"Hello","device_id":"a"}"#), None);
    assert_eq!(decode_peer_message(br#"{"type":"Clipboard","content_type":"text/plain"}"#), None);
    assert_eq!(decode_peer_message(br#"{"type":"Bye"}"#), None);
    assert_eq!(decode_peer_message(b"garbage"), None);
    assert_eq!(
        decode_peer_message(br#"{"ts":9,"type":"Pong"}"#),
        Some(PeerMessage::Pong { ts: 9 })
    );
}

#[test]
fn peer_message_from_a_parsed_document() {
    let doc = JsonDoc::parse(br#"{"type":"Welcome","device_id":"h","device_name":"host","psk":"later"}"#).unwrap();
    assert_eq!(
        peer_message_from_document(&doc),
        Some(PeerMessage::Welcome { device_id: "h".to_string(), device_name: "host".to_string() })
    );
}

#[test]
fn variants_have_their_names() {
    assert_eq!(msg_type_name(&PeerMessage::Hello { device_id: String::new(), device_name: String::new() }), "Hello");
    assert_eq!(msg_type_name(&PeerMessage::Welcome { device_id: String::new(), device_name: String::new() }), "Welcome");
    assert_eq!(msg_type_name(&PeerMessage::Ping { ts: 0 }), "Ping");
    assert_eq!(msg_type_name(&PeerMessage::Pong { ts: 0 }), "Pong");
    assert_eq!(
        msg_type_name(&PeerMessage::Clipboard { content_type: String::new(), data: String::new() }),
        "Clipboard"
    );
}
