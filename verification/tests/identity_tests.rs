use rust_clip::identity::{IdentityError, RingIdentity};

const PHRASE: &str =
    "abandon abandon abandon abandon abandon abandon abandon abandon abandon abandon abandon about";

fn hex(bytes: &[u8]) -> String {
    bytes.iter().map(|b| format!("{:02x}", b)).collect()
}

#[test]
fn identity_is_derived_from_the_phrase_under_separate_contexts() {
    let id = RingIdentity::from_mnemonic(PHRASE).unwrap();
    assert_eq!(id.mnemonic, PHRASE);
    assert_eq!(
        hex(&id.identity_key),
        "ab7ff308d6d4203d98ea4a50d39e381b90208900d1941b8b93f94f63d0dcabcd"
    );
    assert_eq!(
        hex(&id.public_key),
        "3aa291fc8d9ccfd469c465ddd3cf89457406e26079985f584ff909a935f2c378"
    );
    assert_eq!(
        hex(&id.root_secret),
        "045e4ab8254b56527a06fd4995d13e9211cef87d0e0a13c2f4fc6fcbf6424e1d"
    );
    assert_eq!(
        hex(&id.shared_secret),
        "bb128f5d0a81f147204eb1e80d32f4b7dfe386f8f793a4788e866e0d8a9b17c2"
    );
    assert_eq!(
        hex(&id.ring_id),
        "66c228f9a7231552b4a40f5208f67499d1c2a646f210a0419a537ecee5160773"
    );
    assert_eq!(
        id.discovery_id,
        "66c228f9a7231552b4a40f5208f67499d1c2a646f210a0419a537ecee5160773"
    );
    assert_eq!(id.get_ble_magic_bytes(), [0x66, 0xc2, 0x28, 0xf9]);
}

#[test]
fn same_phrase_gives_the_same_identity() {
    let a = RingIdentity::from_mnemonic(PHRASE).unwrap();
    let b = RingIdentity::from_mnemonic(PHRASE).unwrap();
    let c = a.clone();
    for other in [&b, &c] {
        assert_eq!(a.mnemonic, other.mnemonic);
        assert_eq!(a.identity_key, other.identity_key);
        assert_eq!(a.public_key, other.public_key);
        assert_eq!(a.shared_secret, other.shared_secret);
        assert_eq!(a.ring_id, other.ring_id);
        assert_eq!(a.discovery_id, other.discovery_id);
        assert_eq!(a.root_secret, other.root_secret);
    }
}

#[test]
fn different_phrases_give_different_rings() {
    let a = RingIdentity::from_mnemonic(PHRASE).unwrap();
    let b = RingIdentity::from_mnemonic(
        "legal winner thank year wave sausage worth useful legal winner thank yellow",
    )
    .unwrap();
    assert_ne!(a.shared_secret, b.shared_secret);
    assert_ne!(a.discovery_id, b.discovery_id);
    assert_ne!(a.public_key, b.public_key);
}

#[test]
fn phrase_that_is_not_valid_is_refused() {
    for phrase in [
        "",
        "hello",
        "abandon abandon abandon",
        // right words, wrong checksum
        "abandon abandon abandon abandon abandon abandon abandon abandon abandon abandon abandon abandon",
        // a word that is none
        "abandon abandon abandon abandon abandon abandon abandon abandon abandon abandon abandon xyzzy",
    ] {
        match RingIdentity::from_mnemonic(phrase) {
            Err(e) => assert_eq!(e, IdentityError::InvalidPhrase),
            Ok(_) => panic!("accepted {:?}", phrase),
        }
    }
}

#[test]
fn new_identity_is_restored_from_its_own_phrase() {
    let made = RingIdentity::create_new().unwrap();
    assert_eq!(made.mnemonic.split(' ').count(), 24);
    let again = RingIdentity::from_mnemonic(&made.mnemonic).unwrap();
    assert_eq!(made.identity_key, again.identity_key);
    assert_eq!(made.public_key, again.public_key);
    assert_eq!(made.shared_secret, again.shared_secret);
    assert_eq!(made.discovery_id, again.discovery_id);
    assert_eq!(made.root_secret, again.root_secret);
    let other = RingIdentity::create_new().unwrap();
    assert_ne!(made.mnemonic, other.mnemonic);
}

#[test]
fn signature_is_accepted_under_the_public_key_only_for_the_message() {
    let id = RingIdentity::from_mnemonic(PHRASE).unwrap();
    let signature = id.sign(b"message");
    assert_eq!(
        hex(&signature),
        "5b54e884a1ffa70eef63c27f5b959248d7987e29d420f1902aee12be43578e8fc6afb9c74d0d062e047e65602e37e0e0f377ddff37da50075d2ccd0f8c634303"
    );
    assert_eq!(RingIdentity::verify(&id.public_key, b"message", &signature), Ok(()));
    assert_eq!(
        RingIdentity::verify(&id.public_key, b"massage", &signature),
        Err(IdentityError::InvalidSignature)
    );
    let mut altered = signature;
    altered[10] ^= 1;
    assert_eq!(
        RingIdentity::verify(&id.public_key, b"message", &altered),
        Err(IdentityError::InvalidSignature)
    );
    let other = RingIdentity::create_new().unwrap();
    assert_eq!(
        RingIdentity::verify(&other.public_key, b"message", &signature),
        Err(IdentityError::InvalidSignature)
    );
    // bytes that are no point of the curve are no key
    let mut no_key = [0xFFu8; 32];
    no_key[0] = 0xEE;
    assert_eq!(
        RingIdentity::verify(&no_key, b"message", &signature),
        Err(IdentityError::InvalidSignature)
    );
}

#[test]
fn rotating_id_of_a_window() {
    let id = RingIdentity::from_mnemonic(PHRASE).unwrap();
    // day 3, hour 5
    assert_eq!(id.rotating_id_for(5 + 3 * 24), "2d0fea6f-f30c-588b-64a7-204b2dbe4509");
    assert_eq!(id.rotating_id_for(77), id.rotating_id_for(77));
    assert_ne!(id.rotating_id_for(77), id.rotating_id_for(78));
    let now = id.get_rotating_id().unwrap();
    assert_eq!(now.len(), 36);
    assert!((24..=31 * 24 + 23).any(|w| id.rotating_id_for(w) == now));
}

#[test]
fn rotating_id_of_a_clock_reading() {
    let id = RingIdentity::from_mnemonic(PHRASE).unwrap();
    // 2023-11-14 22:13:20 UTC: day 14, hour 22
    assert_eq!(id.rotating_id_at(1_700_000_000), Some(id.rotating_id_for(22 + 14 * 24)));
    // 1970-01-01 00:00:00 UTC: day 1, hour 0
    assert_eq!(id.rotating_id_at(0), Some(id.rotating_id_for(24)));
    // 1970-01-03 05:00:00 UTC: day 3, hour 5
    assert_eq!(
        id.rotating_id_at(2 * 86_400 + 5 * 3_600).unwrap(),
        "2d0fea6f-f30c-588b-64a7-204b2dbe4509"
    );
    // one hour on, another id; within the hour, the same
    assert_ne!(id.rotating_id_at(1_700_000_000), id.rotating_id_at(1_700_000_000 + 3_600));
    assert_eq!(id.rotating_id_at(1_700_000_000), id.rotating_id_at(1_700_000_000 + 60));
    // a month on (31 days from 1 January), the id of 1 February is that of 1 January
    assert_eq!(id.rotating_id_at(31 * 86_400), id.rotating_id_at(0));
    // beyond the calendar there is none
    assert_eq!(id.rotating_id_at(u64::MAX), None);
    assert_eq!(id.rotating_id_at(1 << 62), None);
}

#[test]
fn rings_of_two_phrases_have_different_tokens_and_secrets() {
    let a = RingIdentity::from_mnemonic(PHRASE).unwrap();
    let c = RingIdentity::from_mnemonic(
        "legal winner thank year wave sausage worth useful legal winner thank yellow",
    )
    .unwrap();
    assert_ne!(a.ring_id, c.ring_id);
    assert_ne!(a.discovery_id, c.discovery_id);
    assert_ne!(a.shared_secret, c.shared_secret);
    assert_ne!(a.public_key, c.public_key);
}

#[test]
fn device_id_and_machine_key_come_from_the_machine_alone() {
    assert_eq!(RingIdentity::get_derived_device_id("machine-1234"), "8a4cd2091c097125");
    assert_ne!(
        RingIdentity::get_derived_device_id("machine-1234"),
        RingIdentity::get_derived_device_id("machine-1235")
    );
    assert_eq!(
        hex(&RingIdentity::get_machine_key("machine-1234")),
        "7790003ad766d6283b4c4f953b0e14769bcabfdebcd8870cd6ddf6ca5e3eb58d"
    );
}

#[test]
fn stored_identity_is_nonce_then_sealed_record() {
    let key = RingIdentity::get_machine_key("machine-1234");
    let record = b"{\"mnemonic\":\"abandon about\"}";
    let nonce = [4u8; 12];
    let file = RingIdentity::seal_store(record, &key, &nonce).unwrap();
    assert_eq!(file.len(), 12 + record.len() + 16);
    assert_eq!(&file[..12], &nonce[..]);
    assert_ne!(&file[12..12 + record.len()], &record[..]);
    assert_eq!(RingIdentity::open_store(&file, &key), Ok(record.to_vec()));
    assert_eq!(RingIdentity::seal_store(record, &key, &nonce).unwrap(), file);
    assert_ne!(RingIdentity::seal_store(record, &key, &[5u8; 12]).unwrap(), file);
}

#[test]
fn stored_identity_of_another_machine_or_damaged_is_corrupt() {
    let key = RingIdentity::get_machine_key("machine-1234");
    let other = RingIdentity::get_machine_key("machine-9999");
    let file = RingIdentity::seal_store(b"record", &key, &[1u8; 12]).unwrap();
    assert_eq!(RingIdentity::open_store(&file, &other), Err(IdentityError::IdentityCorrupt));
    assert_eq!(RingIdentity::open_store(&[], &key), Err(IdentityError::IdentityCorrupt));
    assert_eq!(RingIdentity::open_store(&file[..11], &key), Err(IdentityError::IdentityCorrupt));
    assert_eq!(RingIdentity::open_store(&file[..12], &key), Err(IdentityError::IdentityCorrupt));
    for at in 0..file.len() {
        let mut damaged = file.clone();
        damaged[at] ^= 0x80;
        assert_eq!(RingIdentity::open_store(&damaged, &key), Err(IdentityError::IdentityCorrupt));
    }
}
