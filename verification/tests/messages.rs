use multicast_discovery::message::{
    CodecError, DiscoveryMessage, MessageType, WireFields,
};

fn sample() -> DiscoveryMessage {
    DiscoveryMessage {
        message_type: MessageType::Announcement,
        peer_id: 12345,
        network_name: "test_network".to_string(),
        network_secret_digest: Some([1u8; 32]),
        listeners: vec!["tcp://192.168.1.100:8080".to_string()],
        hostname: "test_host".to_string(),
        instance_id: "test_instance".to_string(),
        version: "1.0.0".to_string(),
        timestamp: 1234567890,
    }
}

fn small(message_type: MessageType) -> DiscoveryMessage {
    DiscoveryMessage {
        message_type,
        peer_id: 0x01020304,
        network_name: "n\u{e9}".to_string(),
        network_secret_digest: None,
        listeners: vec!["a".to_string(), "".to_string()],
        hostname: "h".to_string(),
        instance_id: "".to_string(),
        version: "v".to_string(),
        timestamp: 0x0102,
    }
}

fn small_bytes(tag: u8) -> Vec<u8> {
    let mut b: Vec<u8> = vec![tag, 0, 0, 0];
    b.extend_from_slice(&[4, 3, 2, 1]);
    b.extend_from_slice(&[3, 0, 0, 0, 0, 0, 0, 0, b'n', 0xc3, 0xa9]);
    b.push(0);
    b.extend_from_slice(&[2, 0, 0, 0, 0, 0, 0, 0]);
    b.extend_from_slice(&[1, 0, 0, 0, 0, 0, 0, 0, b'a']);
    b.extend_from_slice(&[0, 0, 0, 0, 0, 0, 0, 0]);
    b.extend_from_slice(&[1, 0, 0, 0, 0, 0, 0, 0, b'h']);
    b.extend_from_slice(&[0, 0, 0, 0, 0, 0, 0, 0]);
    b.extend_from_slice(&[1, 0, 0, 0, 0, 0, 0, 0, b'v']);
    b.extend_from_slice(&[2, 1, 0, 0, 0, 0, 0, 0]);
    b
}

fn assert_same(a: &DiscoveryMessage, b: &DiscoveryMessage) {
    assert_eq!(a.message_type, b.message_type);
    assert_eq!(a.peer_id, b.peer_id);
    assert_eq!(a.network_name, b.network_name);
    assert_eq!(a.network_secret_digest, b.network_secret_digest);
    assert_eq!(a.listeners, b.listeners);
    assert_eq!(a.hostname, b.hostname);
    assert_eq!(a.instance_id, b.instance_id);
    assert_eq!(a.version, b.version);
    assert_eq!(a.timestamp, b.timestamp);
}

#[test]
fn test_multicast_discovery_message_serialization() {
    let message = sample();
    let serialized = message.encode().unwrap();
    let deserialized = DiscoveryMessage::decode(&serialized).unwrap();
    assert_eq!(message.peer_id, deserialized.peer_id);
    assert_eq!(message.network_name, deserialized.network_name);
    assert_eq!(message.listeners, deserialized.listeners);
}

#[test]
fn every_field_survives_the_wire() {
    for t in [MessageType::Announcement, MessageType::Query, MessageType::Response] {
        let mut message = sample();
        message.message_type = t;
        let bytes = message.encode().unwrap();
        assert_same(&message, &DiscoveryMessage::decode(&bytes).unwrap());
    }
}

#[test]
fn the_layout_is_exact() {
    assert_eq!(small(MessageType::Announcement).encode().unwrap(), small_bytes(0));
    assert_eq!(small(MessageType::Query).encode().unwrap(), small_bytes(1));
    assert_eq!(small(MessageType::Response).encode().unwrap(), small_bytes(2));
}

#[test]
fn a_digest_follows_its_flag_without_a_length() {
    let bytes = sample().encode().unwrap();
    let at = 4 + 4 + 8 + "test_network".len();
    assert_eq!(bytes[at], 1);
    assert_eq!(&bytes[at + 1..at + 33], &[1u8; 32]);
    assert_eq!(&bytes[at + 33..at + 41], &[1, 0, 0, 0, 0, 0, 0, 0]);
}

#[test]
fn bytes_after_a_message_are_left_alone() {
    let message = small(MessageType::Query);
    let mut bytes = message.encode().unwrap();
    bytes.extend_from_slice(&[0xff; 7]);
    assert_same(&message, &DiscoveryMessage::decode(&bytes).unwrap());
}

#[test]
fn every_truncation_is_refused() {
    let bytes = sample().encode().unwrap();
    for n in 0..bytes.len() {
        assert_eq!(DiscoveryMessage::decode(&bytes[..n]).err(), Some(CodecError::Deserialize));
    }
}

#[test]
fn an_unknown_type_is_refused() {
    let mut bytes = small_bytes(0);
    bytes[0] = 3;
    assert_eq!(DiscoveryMessage::decode(&bytes).err(), Some(CodecError::Deserialize));
    bytes[0] = 0;
    bytes[3] = 1;
    assert_eq!(DiscoveryMessage::decode(&bytes).err(), Some(CodecError::Deserialize));
}

#[test]
fn a_bad_option_flag_is_refused() {
    let mut bytes = small_bytes(0);
    let at = 4 + 4 + 8 + 3;
    assert_eq!(bytes[at], 0);
    bytes[at] = 2;
    assert_eq!(DiscoveryMessage::decode(&bytes).err(), Some(CodecError::Deserialize));
}

#[test]
fn text_that_is_not_utf8_is_refused() {
    let mut bytes = small_bytes(0);
    bytes[4 + 4 + 8] = 0xff;
    assert_eq!(DiscoveryMessage::decode(&bytes).err(), Some(CodecError::Deserialize));
}

#[test]
fn a_length_beyond_the_datagram_is_refused() {
    let mut bytes = small_bytes(0);
    bytes[8 + 7] = 0xff;
    assert_eq!(DiscoveryMessage::decode(&bytes).err(), Some(CodecError::Deserialize));
    let mut bytes = small_bytes(0);
    bytes[8 + 8 + 3 + 1 + 7] = 0x7f;
    assert_eq!(DiscoveryMessage::decode(&bytes).err(), Some(CodecError::Deserialize));
}

#[test]
fn types_and_numbers_match() {
    assert_eq!(MessageType::Announcement.tag(), 0);
    assert_eq!(MessageType::Query.tag(), 1);
    assert_eq!(MessageType::Response.tag(), 2);
    assert_eq!(MessageType::from_tag(1), Some(MessageType::Query));
    assert_eq!(MessageType::from_tag(3), None);
}

#[test]
fn fields_become_a_message_where_the_number_is_known() {
    let fields = |tag: u32| WireFields {
        tag,
        peer_id: 9,
        network_name: "n".to_string(),
        network_secret_digest: None,
        listeners: vec![],
        hostname: "h".to_string(),
        instance_id: "i".to_string(),
        version: "v".to_string(),
        timestamp: 4,
    };
    let message = fields(2).into_message().unwrap();
    assert_eq!(message.message_type, MessageType::Response);
    assert_eq!(message.peer_id, 9);
    assert_eq!(message.timestamp, 4);
    assert!(fields(7).into_message().is_none());
}
