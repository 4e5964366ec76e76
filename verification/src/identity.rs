//! The identity of a ring member, derived from a secret phrase.
//!
//! The phrase encodes 256 bits of entropy. From the entropy come, each under a
//! context of its own, the signing key, the root secret, the shared secret
//! that seals clipboard content, and the ring id that members recognise each
//! other by. The same phrase gives the same identity on every machine; what
//! tells machines apart is the device id, which knows nothing of the phrase.

use crate::bytes::{be_bytes, copy_range, push_all, push_be, take_array};
use crate::clock::{unix_time, utc_day_and_hour, utc_day_and_hour_of};
use crate::primitives::{aes256gcm_opened, aes256gcm_sealed, aes_gcm_open, aes_gcm_seal};
use crate::primitives::{aes_gcm_takes, bip39_entropy, ed25519_accepts, ed25519_public};
use crate::primitives::{ed25519_public_key, ed25519_sign, ed25519_signature, ed25519_verify};
use crate::primitives::{entropy_phrase, hkdf_sha256, hkdf_sha256_key, hmac_sha256};
use crate::primitives::{hmac_sha256_tag, phrase_entropy, random_array, sha256, sha256_digest};
use crate::text::{hex_encode, hex_text, lemma_hex_text_injective, uuid_hyphenated, uuid_text};
use vstd::prelude::*;
use vstd::string::*;

verus! {

/// Salt of every derivation from the phrase's entropy.
pub const KDF_SALT: &'static str = "rust-clip-salt-v1";

/// Context of the Ed25519 signing key.
pub const IDENTITY_KEY_CONTEXT: &'static str = "ed25519_identity_key";

/// Context of the root secret, from which rotating ids are made.
pub const ROOT_SECRET_CONTEXT: &'static str = "root_secret_v1";

/// Context of the shared secret, under which clipboard content is sealed.
pub const SHARED_SECRET_CONTEXT: &'static str = "shared_secret_v1";

/// Context of the ring id, which is public.
pub const RING_ID_CONTEXT: &'static str = "ring_id_v1";

/// What is authenticated, before the time window, in a rotating id.
pub const ROTATION_CONTEXT: &'static str = "discovery_id_rotation";

/// Context of the key that seals the stored identity to one machine.
pub const STORAGE_KEY_CONTEXT: &'static str = "rustclip_storage_key_v2";

/// Length of the nonce at the head of a stored identity.
pub const STORE_NONCE_LEN: usize = 12;

/// How many bytes of the machine fingerprint's digest make the device id.
pub const DEVICE_ID_BYTES: usize = 8;

/// Why an identity was not made, not stored or not read back.
#[derive(Clone, Copy, Debug, PartialEq, Eq, Structural)]
pub enum IdentityError {
    /// The phrase has a wrong word count, an unknown word or a bad checksum.
    InvalidPhrase,
    /// The stored identity is too short or does not open under this machine's
    /// key: another machine wrote it, or it was damaged.
    IdentityCorrupt,
    /// The signature is not accepted for this message under this key.
    InvalidSignature,
    /// The record is longer than the cipher seals.
    RecordTooLarge,
}

/// A member's identity.
#[derive(Debug)]
pub struct RingIdentity {
    /// The secret phrase. It never leaves the device.
    pub mnemonic: String,
    /// Ed25519 secret key.
    pub identity_key: [u8; 32],
    /// Ed25519 public key of `identity_key`.
    pub public_key: [u8; 32],
    /// Symmetric key of the ring.
    pub shared_secret: [u8; 32],
    /// Public bytes that name the ring.
    pub ring_id: [u8; 32],
    /// `ring_id` in hexadecimal: the token that members advertise.
    pub discovery_id: String,
    /// Secret from which rotating ids are made.
    pub root_secret: [u8; 32],
}

/// An identity as plain values.
pub struct RingIdentityView {
    pub mnemonic: Seq<char>,
    pub identity_key: Seq<u8>,
    pub public_key: Seq<u8>,
    pub shared_secret: Seq<u8>,
    pub ring_id: Seq<u8>,
    pub discovery_id: Seq<char>,
    pub root_secret: Seq<u8>,
}

impl View for RingIdentity {
    type V = RingIdentityView;

    open spec fn view(&self) -> RingIdentityView {
        RingIdentityView {
            mnemonic: self.mnemonic@,
            identity_key: self.identity_key@,
            public_key: self.public_key@,
            shared_secret: self.shared_secret@,
            ring_id: self.ring_id@,
            discovery_id: self.discovery_id@,
            root_secret: self.root_secret@,
        }
    }
}

impl Clone for RingIdentity {
    fn clone(&self) -> (r: Self)
        ensures
            r@ == self@,
    {
        RingIdentity {
            mnemonic: self.mnemonic.clone(),
            identity_key: self.identity_key,
            public_key: self.public_key,
            shared_secret: self.shared_secret,
            ring_id: self.ring_id,
            discovery_id: self.discovery_id.clone(),
            root_secret: self.root_secret,
        }
    }
}

/// The key derived from `entropy` under `context`.
pub open spec fn derived_key(entropy: Seq<u8>, context: &str) -> Seq<u8> {
    hkdf_sha256_key(KDF_SALT.spec_bytes(), entropy, context.spec_bytes())
}

/// The identity that `entropy` gives, with the phrase it came from.
pub open spec fn derived_identity(phrase: Seq<char>, entropy: Seq<u8>) -> RingIdentityView {
    RingIdentityView {
        mnemonic: phrase,
        identity_key: derived_key(entropy, IDENTITY_KEY_CONTEXT),
        public_key: ed25519_public(derived_key(entropy, IDENTITY_KEY_CONTEXT)),
        shared_secret: derived_key(entropy, SHARED_SECRET_CONTEXT),
        ring_id: derived_key(entropy, RING_ID_CONTEXT),
        discovery_id: hex_text(derived_key(entropy, RING_ID_CONTEXT)),
        root_secret: derived_key(entropy, ROOT_SECRET_CONTEXT),
    }
}

/// Two identities advertise one token exactly where their ring ids are equal:
/// the token tells apart whatever the key derivation tells apart.
pub proof fn lemma_tokens_differ_as_ring_ids(
    phrase: Seq<char>,
    entropy: Seq<u8>,
    other_phrase: Seq<char>,
    other_entropy: Seq<u8>,
)
    ensures
        derived_identity(phrase, entropy).discovery_id == derived_identity(
            other_phrase,
            other_entropy,
        ).discovery_id <==> derived_identity(phrase, entropy).ring_id == derived_identity(
            other_phrase,
            other_entropy,
        ).ring_id,
{
    let own = derived_identity(phrase, entropy);
    let other = derived_identity(other_phrase, other_entropy);
    if own.discovery_id == other.discovery_id {
        lemma_hex_text_injective(own.ring_id, other.ring_id);
    }
}

/// What restoring from `phrase` gives.
pub open spec fn restored(phrase: Seq<char>) -> Result<RingIdentityView, IdentityError> {
    match bip39_entropy(phrase) {
        Some(entropy) => Ok(derived_identity(phrase, entropy)),
        None => Err(IdentityError::InvalidPhrase),
    }
}

/// The number of the hour within the month: the window of a rotating id.
pub open spec fn rotation_window(day: u32, hour: u32) -> u64 {
    (hour + day * 24) as u64
}

/// The rotating id of the hour in which the clock reads `now` seconds since
/// 1970, or nothing where the calendar does not reach that far.
pub open spec fn rotating_id_when(root_secret: Seq<u8>, now: u64) -> Option<Seq<char>> {
    match utc_day_and_hour_of(now) {
        Some(at) => Some(rotating_id(root_secret, rotation_window(at.0, at.1))),
        None => None,
    }
}

/// The rotating id of the window: the first 16 bytes of the tag, under the
/// root secret, of the rotation context followed by the window on eight
/// big-endian bytes, written as a UUID.
pub open spec fn rotating_id(root_secret: Seq<u8>, window: u64) -> Seq<char> {
    uuid_text(
        hmac_sha256_tag(root_secret, ROTATION_CONTEXT.spec_bytes() + be_bytes(window as nat, 8))
            .subrange(0, 16),
    )
}

/// The device id of the machine with this fingerprint: the first eight bytes
/// of the fingerprint's digest, in hexadecimal.
pub open spec fn device_id_of(machine_id: Seq<char>) -> Seq<char> {
    hex_text(sha256_digest(vstd::utf8::encode_utf8(machine_id)).subrange(0, DEVICE_ID_BYTES as int))
}

/// The key that seals the stored identity on the machine with this fingerprint.
/// The salt is 32 zero bytes, which is what key derivation without a salt uses.
pub open spec fn storage_key_of(machine_id: Seq<char>) -> Seq<u8> {
    hkdf_sha256_key(
        Seq::new(32, |i: int| 0u8),
        vstd::utf8::encode_utf8(machine_id),
        STORAGE_KEY_CONTEXT.spec_bytes(),
    )
}

/// The stored form of `record`: the nonce, then the record sealed under `key`.
pub open spec fn sealed_store(key: Seq<u8>, nonce: Seq<u8>, record: Seq<u8>) -> Option<Seq<u8>> {
    match aes256gcm_sealed(key, nonce, record) {
        Some(sealed) => Some(nonce + sealed),
        None => None,
    }
}

/// The record that a stored identity holds, read with `key`.
pub open spec fn opened_store(key: Seq<u8>, file: Seq<u8>) -> Result<Seq<u8>, IdentityError> {
    if file.len() < STORE_NONCE_LEN {
        Err(IdentityError::IdentityCorrupt)
    } else {
        match aes256gcm_opened(
            key,
            file.subrange(0, STORE_NONCE_LEN as int),
            file.subrange(STORE_NONCE_LEN as int, file.len() as int),
        ) {
            Some(record) => Ok(record),
            None => Err(IdentityError::IdentityCorrupt),
        }
    }
}

impl RingIdentity {
    /// Whether the fields are what the phrase gives.
    pub open spec fn well_formed(&self) -> bool {
        restored(self.mnemonic@) == Ok::<_, IdentityError>(self@)
    }

    /// The identity of `entropy`, with the phrase that encodes it.
    pub fn from_entropy(phrase: &str, entropy: &[u8]) -> (r: Self)
        ensures
            r@ == derived_identity(phrase@, entropy@),
    {
        let salt = KDF_SALT.as_bytes();
        let identity_key = hkdf_sha256(salt, entropy, IDENTITY_KEY_CONTEXT.as_bytes());
        let public_key = ed25519_public_key(&identity_key);
        let root_secret = hkdf_sha256(salt, entropy, ROOT_SECRET_CONTEXT.as_bytes());
        let shared_secret = hkdf_sha256(salt, entropy, SHARED_SECRET_CONTEXT.as_bytes());
        let ring_id = hkdf_sha256(salt, entropy, RING_ID_CONTEXT.as_bytes());
        let discovery_id = hex_encode(ring_id.as_slice());
        RingIdentity {
            mnemonic: phrase.to_owned(),
            identity_key,
            public_key,
            shared_secret,
            ring_id,
            discovery_id,
            root_secret,
        }
    }

    /// Restores the identity from its secret phrase.
    ///
    /// Fails with `InvalidPhrase` exactly where the phrase encodes no entropy.
    /// The same phrase gives the same identity every time.
    pub fn from_mnemonic(phrase: &str) -> (r: Result<Self, IdentityError>)
        ensures
            match restored(phrase@) {
                Ok(identity) => r matches Ok(got) && got@ == identity,
                Err(e) => r matches Err(got) && got == e,
            },
            r matches Ok(got) ==> got.well_formed(),
    {
        match phrase_entropy(phrase) {
            None => Err(IdentityError::InvalidPhrase),
            Some(entropy) => Ok(RingIdentity::from_entropy(phrase, entropy.as_slice())),
        }
    }

    /// Makes a new identity from 256 random bits. Storing it is the caller's
    /// part.
    pub fn create_new() -> (r: Result<Self, IdentityError>)
        ensures
            r matches Ok(made) && made.well_formed(),
    {
        let entropy: [u8; 32] = random_array::<32>();
        match entropy_phrase(&entropy) {
            None => Err(IdentityError::InvalidPhrase),
            Some(phrase) => Ok(RingIdentity::from_entropy(phrase.as_str(), entropy.as_slice())),
        }
    }

    /// The rotating id of the window given.
    pub fn rotating_id_for(&self, window: u64) -> (r: String)
        ensures
            r@ == rotating_id(self.root_secret@, window),
    {
        let mut message: Vec<u8> = Vec::new();
        push_all(&mut message, ROTATION_CONTEXT.as_bytes());
        push_be(&mut message, window, 8);
        let tag = hmac_sha256(self.root_secret.as_slice(), message.as_slice());
        let head: [u8; 16] = take_array::<16>(tag.as_slice(), 0);
        uuid_hyphenated(head)
    }

    /// The rotating id of the hour in which the clock reads `now` seconds
    /// since 1970, or nothing where the calendar does not reach that far. The
    /// id changes every hour, and comes round again after a month.
    pub fn rotating_id_at(&self, now: u64) -> (r: Option<String>)
        ensures
            match rotating_id_when(self.root_secret@, now) {
                Some(expected) => r matches Some(id) && id@ == expected,
                None => r is None,
            },
    {
        match utc_day_and_hour(now) {
            None => None,
            Some(at) => {
                let window: u64 = at.1 as u64 + at.0 as u64 * 24;
                Some(self.rotating_id_for(window))
            },
        }
    }

    /// The rotating id of the current hour: what `rotating_id_at` gives for
    /// the reading of the clock, and nothing where the clock stands before
    /// 1970. An id that comes out is that of a day of the month and an hour
    /// of the day.
    pub fn get_rotating_id(&self) -> (r: Option<String>)
        ensures
            r matches Some(id) ==> exists|now: u64| #[trigger]
                rotating_id_when(self.root_secret@, now) == Some(id@),
            r matches Some(id) ==> exists|day: u32, hour: u32|
                1 <= day <= 31 && hour < 24 && id@ == #[trigger] rotating_id(
                    self.root_secret@,
                    rotation_window(day, hour),
                ),
    {
        match unix_time() {
            None => None,
            Some(now) => match utc_day_and_hour(now) {
                None => None,
                Some(at) => {
                    let window: u64 = at.1 as u64 + at.0 as u64 * 24;
                    let id = self.rotating_id_for(window);
                    proof {
                        assert(rotating_id_when(self.root_secret@, now) == Some(id@));
                        assert(id@ == rotating_id(self.root_secret@, rotation_window(at.0, at.1)));
                    }
                    Some(id)
                },
            },
        }
    }

    /// Signs `message` with the identity's key. Under a well-formed identity's
    /// public key the signature is accepted.
    pub fn sign(&self, message: &[u8]) -> (r: [u8; 64])
        ensures
            r@ == ed25519_signature(self.identity_key@, message@),
            self.well_formed() ==> ed25519_accepts(self.public_key@, message@, r@),
    {
        ed25519_sign(&self.identity_key, message)
    }

    /// Checks `signature` for `message` under `public_key`.
    pub fn verify(public_key: &[u8; 32], message: &[u8], signature: &[u8; 64]) -> (r: Result<
        (),
        IdentityError,
    >)
        ensures
            r is Ok <==> ed25519_accepts(public_key@, message@, signature@),
            r matches Err(e) ==> e == IdentityError::InvalidSignature,
    {
        if ed25519_verify(public_key, message, signature) {
            Ok(())
        } else {
            Err(IdentityError::InvalidSignature)
        }
    }

    /// The four bytes by which members recognise the ring on the radio.
    pub fn get_ble_magic_bytes(&self) -> (r: [u8; 4])
        ensures
            r@ == self.ring_id@.subrange(0, 4),
    {
        take_array::<4>(self.ring_id.as_slice(), 0)
    }

    /// The id of the device with this machine fingerprint. Two machines with
    /// one phrase have one ring id and two device ids.
    pub fn get_derived_device_id(machine_id: &str) -> (r: String)
        ensures
            r@ == device_id_of(machine_id@),
    {
        let digest = sha256(machine_id.as_bytes());
        let head = copy_range(digest.as_slice(), 0, DEVICE_ID_BYTES);
        hex_encode(head.as_slice())
    }

    /// The key that seals the stored identity on this machine.
    pub fn get_machine_key(machine_id: &str) -> (r: [u8; 32])
        ensures
            r@ == storage_key_of(machine_id@),
    {
        let salt: [u8; 32] = [0u8; 32];
        proof {
            assert(salt@ =~= Seq::new(32, |i: int| 0u8));
        }
        hkdf_sha256(salt.as_slice(), machine_id.as_bytes(), STORAGE_KEY_CONTEXT.as_bytes())
    }

    /// Seals `record` for storage on this machine: the nonce, then the record
    /// under `key`.
    ///
    /// Fails only for a record longer than the cipher takes. What comes out is
    /// read back, with the same key, as `record`.
    pub fn seal_store(record: &[u8], key: &[u8; 32], nonce: &[u8; 12]) -> (r: Result<
        Vec<u8>,
        IdentityError,
    >)
        ensures
            match sealed_store(key@, nonce@, record@) {
                Some(file) => r matches Ok(made) && made@ == file,
                None => r matches Err(e) && e == IdentityError::RecordTooLarge,
            },
            r is Ok <==> aes_gcm_takes(record@.len()),
            r matches Ok(made) ==> (opened_store(key@, made@) matches Ok(back) && back == record@),
    {
        match aes_gcm_seal(key, nonce, record) {
            None => Err(IdentityError::RecordTooLarge),
            Some(sealed) => {
                let mut file: Vec<u8> = Vec::new();
                push_all(&mut file, nonce.as_slice());
                push_all(&mut file, sealed.as_slice());
                proof {
                    assert(file@.subrange(0, STORE_NONCE_LEN as int) =~= nonce@);
                    assert(file@.subrange(STORE_NONCE_LEN as int, file@.len() as int) =~= sealed@);
                }
                Ok(file)
            },
        }
    }

    /// Reads a stored identity with this machine's key.
    ///
    /// `IdentityCorrupt` where the file is shorter than a nonce or does not open
    /// under `key`; else the record.
    pub fn open_store(file: &[u8], key: &[u8; 32]) -> (r: Result<Vec<u8>, IdentityError>)
        ensures
            match opened_store(key@, file@) {
                Ok(record) => r matches Ok(got) && got@ == record,
                Err(e) => r matches Err(got) && got == e,
            },
    {
        if file.len() < STORE_NONCE_LEN {
            return Err(IdentityError::IdentityCorrupt);
        }
        let nonce: [u8; 12] = take_array::<12>(file, 0);
        let sealed = copy_range(file, STORE_NONCE_LEN, file.len());
        match aes_gcm_open(key, &nonce, sealed.as_slice()) {
            None => Err(IdentityError::IdentityCorrupt),
            Some(record) => Ok(record),
        }
    }
}

} // verus!
