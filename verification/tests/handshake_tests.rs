use rust_clip::handshake::{
    read_payload, write_payload, HandshakeError, HandshakeManager, HandshakePayload,
};
use rust_clip::identity::RingIdentity;
use rust_clip::packet::{PacketType, WirePacket};

const PHRASE: &str =
    "abandon abandon abandon abandon abandon abandon abandon abandon abandon abandon abandon about";

fn hex(bytes: &[u8]) -> String {
    bytes.iter().map(|b| format!("{:02x}", b)).collect()
}

fn hello(from: &RingIdentity, name: &str) -> WirePacket {
    let manager = HandshakeManager::new(from.clone());
    let payload = HandshakePayload { device_name: name.to_string(), public_key: from.public_key };
    WirePacket::new(
        hex(&from.public_key),
        PacketType::Hello,
        &write_payload(&payload),
        &manager.session_key(),
        &from.identity_key,
    )
    .unwrap()
}

#[test]
fn handshake_key_is_derived_from_the_identity_key() {
    let manager = HandshakeManager::new(RingIdentity::from_mnemonic(PHRASE).unwrap());
    assert_eq!(
        hex(&manager.session_key()),
        "8dee5e8d0497d68850a9fb1144ca67df0830f0b5f2d6213ef49bce9f3058f2ec"
    );
}

#[test]
fn hello_of_a_member_is_let_through() {
    let ring = RingIdentity::from_mnemonic(PHRASE).unwrap();
    let twin = RingIdentity::from_mnemonic(PHRASE).unwrap();
    let manager = HandshakeManager::new(ring);
    let packet = hello(&twin, "Twin Laptop");
    let payload = manager.open_hello(&packet).unwrap().unwrap();
    assert_eq!(payload.device_name, "Twin Laptop");
    assert_eq!(payload.public_key, twin.public_key);
    assert_eq!(manager.handle_packet(packet), Ok(()));
}

#[test]
fn hello_of_a_stranger_is_turned_away() {
    let manager = HandshakeManager::new(RingIdentity::from_mnemonic(PHRASE).unwrap());
    let stranger = RingIdentity::create_new().unwrap();
    let packet = hello(&stranger, "Stranger");
    assert_eq!(manager.open_hello(&packet), Err(HandshakeError::Unauthorized));
    assert_eq!(manager.handle_packet(packet), Err(HandshakeError::Unauthorized));
}

#[test]
fn altered_hello_is_turned_away_and_other_types_are_passed_over() {
    let ring = RingIdentity::from_mnemonic(PHRASE).unwrap();
    let manager = HandshakeManager::new(ring.clone());
    let mut packet = hello(&ring, "Laptop");
    packet.payload[0] ^= 1;
    assert_eq!(manager.handle_packet(packet), Err(HandshakeError::Unauthorized));
    // a packet of another type is not looked into, whoever made it
    let stranger = RingIdentity::create_new().unwrap();
    let other = WirePacket::new(
        "x".to_string(),
        PacketType::ClipboardText,
        b"anything",
        &[0u8; 32],
        &stranger.identity_key,
    )
    .unwrap();
    assert_eq!(manager.handle_packet(other), Ok(()));
}

#[test]
fn hello_that_carries_no_payload_opens_to_nothing() {
    let ring = RingIdentity::from_mnemonic(PHRASE).unwrap();
    let manager = HandshakeManager::new(ring.clone());
    let packet = WirePacket::new(
        "x".to_string(),
        PacketType::Hello,
        b"short",
        &manager.session_key(),
        &ring.identity_key,
    )
    .unwrap();
    assert_eq!(manager.open_hello(&packet), Ok(None));
    assert_eq!(manager.handle_packet(packet), Ok(()));
}

#[test]
fn payload_layout_and_round_trip() {
    let payload = HandshakePayload { device_name: "ab".to_string(), public_key: [7u8; 32] };
    let bytes = write_payload(&payload);
    let mut expected = vec![2, 0, 0, 0, 0, 0, 0, 0, b'a', b'b'];
    expected.extend_from_slice(&[7u8; 32]);
    assert_eq!(bytes, expected);
    assert_eq!(bytes, bincode::serialize(&("ab".to_string(), [7u8; 32])).unwrap());
    assert_eq!(read_payload(&bytes), Some(payload));
    let unicode = HandshakePayload { device_name: "Büro 🖥".to_string(), public_key: [1u8; 32] };
    assert_eq!(read_payload(&write_payload(&unicode)), Some(unicode));
}

#[test]
fn payload_that_is_malformed_is_refused() {
    assert_eq!(read_payload(&[]), None);
    assert_eq!(read_payload(&[0u8; 39]), None);
    assert_eq!(
        read_payload(&[0u8; 40]),
        Some(HandshakePayload { device_name: String::new(), public_key: [0u8; 32] })
    );
    let mut too_long = vec![0u8; 40];
    too_long[0] = 1;
    assert_eq!(read_payload(&too_long), None);
    let mut huge = vec![0u8; 48];
    huge[..8].copy_from_slice(&u64::MAX.to_le_bytes());
    assert_eq!(read_payload(&huge), None);
    let mut not_text = vec![0u8; 41];
    not_text[0] = 1;
    not_text[8] = 0xFF;
    assert_eq!(read_payload(&not_text), None);
}
