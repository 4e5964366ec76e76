use rust_clip::discovery::{
    announcement, clean_property, sanitize_device_name, select_address, withdrawn_device_id,
    LocalPresence, PeerDirectory, PresenceRecord, Resolution, SERVICE_TYPE, TCP_PORT,
};
use rust_clip::events::{IpAddress, PeerInfo, SocketAddress};

fn record(fullname: &str, ring: &str, name: &str, device_id: &str, addresses: Vec<IpAddress>) -> PresenceRecord {
    PresenceRecord {
        fullname: fullname.to_string(),
        ring_id: Some(format!("ring_id={}", ring)),
        device_name: Some(format!("device_name={}", name)),
        device_id: Some(format!("device_id={}", device_id)),
        addresses,
        port: 5566,
    }
}

fn chars(s: &str) -> Vec<char> {
    s.chars().collect()
}

#[test]
fn test_sanitize_device_name() {
    assert_eq!(sanitize_device_name("My Device 123!"), "MyDevice123");
    assert_eq!(sanitize_device_name("iPad (Federico)"), "iPadFederico");
    assert_eq!(sanitize_device_name("Clean-Name"), "Clean-Name");
    assert_eq!(sanitize_device_name("Under_Score"), "Under_Score");
}

#[test]
fn test_peer_map_insertion() {
    let mut peer_map = PeerDirectory::new();

    let peer_info = PeerInfo {
        name: "TestDevice".to_string(),
        ip: SocketAddress { ip: IpAddress::v4(127, 0, 0, 1), port: 8080 },
        device_id: "device_unique_id".to_string(),
        last_seen: 1_700_000_000,
    };

    peer_map.insert(peer_info.clone());

    assert!(peer_map.contains_key("device_unique_id"));
    assert_eq!(peer_map.get("device_unique_id").unwrap().name, "TestDevice");
}

#[test]
fn sanitize_keeps_letters_and_digits_of_any_script() {
    assert_eq!(sanitize_device_name(""), "");
    assert_eq!(sanitize_device_name(" .!?()"), "");
    assert_eq!(sanitize_device_name("Büro-PC №1"), "Büro-PC1");
    assert_eq!(sanitize_device_name("a_b-c d"), "a_b-cd");
}

#[test]
fn directory_is_a_map_by_device_id() {
    let mut directory = PeerDirectory::new();
    assert_eq!(directory.len(), 0);
    assert!(directory.get("a").is_none());
    let peer = |id: &str, name: &str| PeerInfo {
        name: name.to_string(),
        ip: SocketAddress { ip: IpAddress::v4(10, 0, 0, 1), port: 1 },
        device_id: id.to_string(),
        last_seen: 0,
    };
    assert!(directory.insert(peer("a", "first")).is_none());
    assert!(directory.insert(peer("b", "second")).is_none());
    let replaced = directory.insert(peer("a", "third")).unwrap();
    assert_eq!(replaced.name, "first");
    assert_eq!(directory.len(), 2);
    assert_eq!(directory.get("a").unwrap().name, "third");
    let mut names: Vec<String> = directory.peers().into_iter().map(|p| p.name).collect();
    names.sort();
    assert_eq!(names, vec!["second".to_string(), "third".to_string()]);
    assert_eq!(directory.remove("a").unwrap().name, "third");
    assert!(directory.remove("a").is_none());
    assert!(!directory.contains_key("a"));
    assert_eq!(directory.len(), 1);
    directory.clear();
    assert_eq!(directory.len(), 0);
    assert!(directory.peers().is_empty());
}

#[test]
fn ipv4_is_preferred_wherever_it_stands() {
    let v4 = IpAddress::v4(192, 168, 1, 20);
    let other_v4 = IpAddress::v4(10, 0, 0, 2);
    let v6 = IpAddress::V6(0xfe80_0000_0000_0000_0000_0000_0000_0001);
    let other_v6 = IpAddress::V6(1);
    assert_eq!(select_address(&[]), None);
    assert_eq!(select_address(&[v6]), Some(v6));
    assert_eq!(select_address(&[v6, other_v6]), Some(v6));
    assert_eq!(select_address(&[v4, v6]), Some(v4));
    assert_eq!(select_address(&[v6, v4]), Some(v4));
    assert_eq!(select_address(&[v6, other_v6, other_v4, v4]), Some(other_v4));
    assert_eq!(IpAddress::v4(192, 168, 1, 20), IpAddress::V4(0xC0A8_0114));
    assert!(v4.is_ipv4());
    assert!(!v6.is_ipv4());
}

#[test]
fn property_text_is_cleaned_of_quotes_and_key() {
    let clean = |shown: &str, key: &str| -> String {
        clean_property(&chars(shown), key).into_iter().collect()
    };
    assert_eq!(clean("ring_id=abc", "ring_id"), "abc");
    assert_eq!(clean("\"ring_id=abc\"", "ring_id"), "abc");
    assert_eq!(clean("ring_id=\"a\"b\"", "ring_id"), "ab");
    assert_eq!(clean("abc", "ring_id"), "abc");
    assert_eq!(clean("device_name=My Mac", "device_name"), "My Mac");
    assert_eq!(clean("device_name=", "device_name"), "");
    assert_eq!(clean("xring_id=ring_id=y", "ring_id"), "xy");
    assert_eq!(clean("ring_id=abc", "device_id"), "ring_id=abc");
}

#[test]
fn presence_record_of_a_device() {
    let a = announcement("token", "dev42", "Kitchen Laptop");
    assert_eq!(a.service_type, SERVICE_TYPE);
    assert_eq!(a.service_type, "_rustclip._tcp.local.");
    assert_eq!(a.instance_name, "rustclip-dev42");
    assert_eq!(a.host_name, "rustclip-dev42.local.");
    assert_eq!(a.port, TCP_PORT);
    assert_eq!(a.port, 5566);
    assert_eq!(a.version, "1.0");
    assert_eq!(a.ring_id, "token");
    assert_eq!(a.device_name, "Kitchen Laptop");
    assert_eq!(a.device_id, "dev42");
    let local = LocalPresence::new("dev42", "token");
    assert_eq!(local.instance_name, "rustclip-dev42");
    assert_eq!(local.discovery_id, "token");
}

#[test]
fn member_is_added_then_known_then_updated() {
    let local = LocalPresence::new("me", "ring");
    let mut directory = PeerDirectory::new();
    let first = record(
        "rustclip-peer1._rustclip._tcp.local.",
        "ring",
        "Peer One",
        "peer1",
        vec![IpAddress::v4(192, 168, 1, 5)],
    );
    assert_eq!(directory.on_resolved(&local, &first, 100), Resolution::Added);
    assert!(Resolution::Added.directory_changed());
    let entry = directory.get("peer1").unwrap();
    assert_eq!(entry.name, "Peer One");
    assert_eq!(entry.device_id, "peer1");
    assert_eq!(entry.ip, SocketAddress { ip: IpAddress::v4(192, 168, 1, 5), port: 5566 });
    assert_eq!(entry.last_seen, 100);

    // the same record again changes nothing, not even the time
    assert_eq!(directory.on_resolved(&local, &first, 200), Resolution::Known);
    assert!(!Resolution::Known.directory_changed());
    assert_eq!(directory.get("peer1").unwrap().last_seen, 100);

    let renamed = record(
        "rustclip-peer1._rustclip._tcp.local.",
        "ring",
        "Peer Uno",
        "peer1",
        vec![IpAddress::v4(192, 168, 1, 5)],
    );
    assert_eq!(directory.on_resolved(&local, &renamed, 300), Resolution::Updated);
    assert_eq!(directory.get("peer1").unwrap().name, "Peer Uno");
    assert_eq!(directory.get("peer1").unwrap().last_seen, 300);
    assert_eq!(directory.len(), 1);
}

#[test]
fn two_records_of_one_device_leave_one_entry_with_the_latest_address() {
    let local = LocalPresence::new("me", "ring");
    let mut directory = PeerDirectory::new();
    let at_home = record("rustclip-peer1.a.", "ring", "Peer", "peer1", vec![IpAddress::v4(192, 168, 1, 5)]);
    let moved = record("rustclip-peer1.b.", "ring", "Peer", "peer1", vec![IpAddress::v4(10, 0, 0, 9)]);
    assert_eq!(directory.on_resolved(&local, &at_home, 1), Resolution::Added);
    assert_eq!(directory.on_resolved(&local, &moved, 2), Resolution::Updated);
    assert_eq!(directory.len(), 1);
    assert_eq!(directory.peers().len(), 1);
    assert_eq!(
        directory.get("peer1").unwrap().ip,
        SocketAddress { ip: IpAddress::v4(10, 0, 0, 9), port: 5566 }
    );
}

#[test]
fn resolved_peer_with_both_kinds_of_address_is_reached_over_ipv4() {
    let local = LocalPresence::new("me", "ring");
    let mut directory = PeerDirectory::new();
    let both = record(
        "rustclip-peer1.x.",
        "ring",
        "Peer",
        "peer1",
        vec![IpAddress::V6(0xfe80 << 112 | 7), IpAddress::v4(192, 168, 1, 5)],
    );
    assert_eq!(directory.on_resolved(&local, &both, 1), Resolution::Added);
    assert!(directory.get("peer1").unwrap().ip.ip.is_ipv4());
    let only_v6 = record("rustclip-peer2.x.", "ring", "Peer", "peer2", vec![IpAddress::V6(9)]);
    assert_eq!(directory.on_resolved(&local, &only_v6, 1), Resolution::Added);
    assert_eq!(directory.get("peer2").unwrap().ip.ip, IpAddress::V6(9));
}

#[test]
fn device_of_another_ring_never_appears() {
    let local = LocalPresence::new("me", "ring-of-a-and-b");
    let mut directory = PeerDirectory::new();
    let stranger = record(
        "rustclip-devc.x.",
        "ring-of-c",
        "C",
        "devc",
        vec![IpAddress::v4(192, 168, 1, 7)],
    );
    for now in 0..5 {
        assert_eq!(directory.on_resolved(&local, &stranger, now), Resolution::Stranger);
    }
    assert_eq!(directory.len(), 0);
    let mut no_token = record("rustclip-devd.x.", "", "D", "devd", vec![IpAddress::v4(1, 1, 1, 1)]);
    no_token.ring_id = None;
    assert_eq!(directory.on_resolved(&local, &no_token, 0), Resolution::Stranger);
    assert_eq!(directory.len(), 0);
}

#[test]
fn own_record_and_record_without_address_are_passed_over() {
    let local = LocalPresence::new("me", "ring");
    let mut directory = PeerDirectory::new();
    let own = record("rustclip-me._rustclip._tcp.local.", "ring", "Me", "me", vec![IpAddress::v4(1, 2, 3, 4)]);
    assert_eq!(directory.on_resolved(&local, &own, 0), Resolution::Own);
    let nowhere = record("rustclip-peer1.x.", "ring", "Peer", "peer1", vec![]);
    assert_eq!(directory.on_resolved(&local, &nowhere, 0), Resolution::Unreachable);
    assert_eq!(directory.len(), 0);
}

#[test]
fn record_details_fall_back_and_tokens_are_trimmed() {
    let local = LocalPresence::new("me", "ring");
    let mut directory = PeerDirectory::new();
    let bare = PresenceRecord {
        fullname: "rustclip-peer9._rustclip._tcp.local.".to_string(),
        ring_id: Some("  \"ring_id=ring\" \n".to_string()),
        device_name: None,
        device_id: None,
        addresses: vec![IpAddress::v4(1, 2, 3, 4)],
        port: 7,
    };
    assert_eq!(directory.on_resolved(&local, &bare, 0), Resolution::Added);
    let entry = directory.get("rustclip-peer9._rustclip._tcp.local.").unwrap();
    assert_eq!(entry.name, "Unknown");
    assert_eq!(entry.ip.port, 7);
}

#[test]
fn withdrawn_record_names_its_device() {
    assert_eq!(
        withdrawn_device_id("rustclip-peer1._rustclip._tcp.local."),
        Some("peer1".to_string())
    );
    assert_eq!(withdrawn_device_id("rustclip-peer1"), Some("peer1".to_string()));
    assert_eq!(withdrawn_device_id("x.rustclip-ab.rustclip-cd.e"), Some("ab".to_string()));
    assert_eq!(withdrawn_device_id("rustclip-"), Some(String::new()));
    assert_eq!(withdrawn_device_id("rustclip"), None);
    assert_eq!(withdrawn_device_id(""), None);
    assert_eq!(withdrawn_device_id("printer._ipp._tcp.local."), None);
}

#[test]
fn withdrawal_and_failed_send_take_the_peer_out() {
    let local = LocalPresence::new("me", "ring");
    let mut directory = PeerDirectory::new();
    for id in ["peer-a", "peer-b", "peer-c"] {
        let r = record(&format!("rustclip-{}.x.", id), "ring", "Peer", id, vec![IpAddress::v4(1, 2, 3, 4)]);
        assert_eq!(directory.on_resolved(&local, &r, 0), Resolution::Added);
    }
    assert!(directory.on_removed("rustclip-peer-b._rustclip._tcp.local."));
    assert!(!directory.on_removed("rustclip-peer-b._rustclip._tcp.local."));
    assert!(!directory.on_removed("something-else.local."));
    assert!(directory.on_send_failed("peer-c"));
    assert!(!directory.on_send_failed("peer-c"));
    assert!(!directory.on_send_failed("nobody"));
    assert_eq!(directory.len(), 1);
    assert!(directory.contains_key("peer-a"));
}

#[test]
fn sanitizing_keeps_of_ascii_the_letters_digits_hyphen_and_underscore() {
    for code in 0u32..128 {
        let c = char::from_u32(code).unwrap();
        let kept = c.is_ascii_digit() || c.is_ascii_uppercase() || c.is_ascii_lowercase() || c == '-' || c == '_';
        let expected = if kept { c.to_string() } else { String::new() };
        assert_eq!(sanitize_device_name(&c.to_string()), expected);
    }
    assert_eq!(sanitize_device_name("é日٣€→ x"), "é日٣x");
    assert_eq!(sanitize_device_name(""), "");
}
