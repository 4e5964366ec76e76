//! The cryptographic primitives the ring is built on, each behind one function
//! whose contract is taken on trust from the crate that implements it.
//!
//! What a primitive computes is not restated here. Each gets a name, a spec
//! function without a body, and the contracts of this crate speak of those
//! names. Beside a name stand only the few facts that callers rest on.

use aes_gcm::Aes256Gcm;
use bip39::{Language, Mnemonic};
use chacha20poly1305::aead::{Aead, KeyInit};
use chacha20poly1305::{ChaCha20Poly1305, XChaCha20Poly1305};
use ed25519_dalek::{Signature, Signer, SigningKey, Verifier, VerifyingKey};
use hkdf::Hkdf;
use hmac::{Hmac, Mac};
use rand::RngCore;
use sha2::{Digest, Sha256};
use vstd::prelude::*;

verus! {

/// Length of the tag that each of the three ciphers appends.
pub const TAG_LEN: usize = 16;

/// The bytes of an optional byte string.
pub open spec fn bytes_of(v: Option<Vec<u8>>) -> Option<Seq<u8>> {
    match v {
        Some(b) => Some(b@),
        None => None,
    }
}

/// The characters of an optional string.
pub open spec fn chars_of(v: Option<String>) -> Option<Seq<char>> {
    match v {
        Some(s) => Some(s@),
        None => None,
    }
}

/// The SHA-256 digest of `data`.
pub uninterp spec fn sha256_digest(data: Seq<u8>) -> Seq<u8>;

/// SHA-256 by `sha2::Sha256`: one `update` with `data`, then `finalize`.
/// Claimed: the result is the digest of `data`, on 32 bytes.
#[verifier::external_body]
pub(crate) fn sha256(data: &[u8]) -> (r: [u8; 32])
    ensures
        r@ == sha256_digest(data@),
{
    let mut hasher = Sha256::new();
    hasher.update(data);
    hasher.finalize().into()
}

/// The HMAC-SHA256 tag of `message` under `key`.
pub uninterp spec fn hmac_sha256_tag(key: Seq<u8>, message: Seq<u8>) -> Seq<u8>;

/// HMAC-SHA256 by `hmac::Hmac<Sha256>`: `new_from_slice`, which takes a key of
/// any length, one `update`, then `finalize`.
/// Claimed: the result is the tag of `message` under `key`, on 32 bytes.
#[verifier::external_body]
pub(crate) fn hmac_sha256(key: &[u8], message: &[u8]) -> (r: [u8; 32])
    ensures
        r@ == hmac_sha256_tag(key@, message@),
{
    let mut mac = <Hmac<Sha256> as Mac>::new_from_slice(key).expect("HMAC takes a key of any length");
    mac.update(message);
    mac.finalize().into_bytes().into()
}

/// The first 32 bytes of HKDF-SHA256 output for `salt`, input key `ikm` and
/// context `info`.
pub uninterp spec fn hkdf_sha256_key(salt: Seq<u8>, ikm: Seq<u8>, info: Seq<u8>) -> Seq<u8>;

/// HKDF-SHA256 by `hkdf::Hkdf<Sha256>`: `new` with the salt given, then
/// `expand` into 32 bytes, a length that `expand` never refuses.
/// Claimed: the result is the key derived from the three inputs.
#[verifier::external_body]
pub(crate) fn hkdf_sha256(salt: &[u8], ikm: &[u8], info: &[u8]) -> (r: [u8; 32])
    ensures
        r@ == hkdf_sha256_key(salt@, ikm@, info@),
{
    let mut okm = [0u8; 32];
    Hkdf::<Sha256>::new(Some(salt), ikm).expand(info, &mut okm).expect("32 bytes is a valid length");
    okm
}

/// Whether a plaintext of `len` bytes is within what ChaCha20-Poly1305 seals:
/// fewer than 2^32 - 1 blocks of 64 bytes.
pub open spec fn chacha_takes(len: nat) -> bool {
    len / 64 < 0xFFFF_FFFF
}

/// Whether a plaintext of `len` bytes and `more` is within what
/// ChaCha20-Poly1305 seals.
pub fn chacha_can_take(len: usize, more: u8) -> (r: bool)
    ensures
        r == chacha_takes((len + more) as nat),
{
    let total: u128 = len as u128 + more as u128;
    total / 64 < 0xFFFF_FFFF
}

/// Whether a plaintext of `len` bytes is within what AES-GCM seals: 2^36 bytes.
pub open spec fn aes_gcm_takes(len: nat) -> bool {
    len <= 0x10_0000_0000
}

/// What XChaCha20-Poly1305 makes of `plaintext` under `key` and `nonce`, with
/// no associated data: ciphertext and tag, or nothing for a plaintext too long.
pub uninterp spec fn xchacha20poly1305_sealed(
    key: Seq<u8>,
    nonce: Seq<u8>,
    plaintext: Seq<u8>,
) -> Option<Seq<u8>>;

/// What XChaCha20-Poly1305 recovers from `sealed` under `key` and `nonce`, with
/// no associated data: the plaintext, or nothing where the tag does not match.
pub uninterp spec fn xchacha20poly1305_opened(
    key: Seq<u8>,
    nonce: Seq<u8>,
    sealed: Seq<u8>,
) -> Option<Seq<u8>>;

/// `encrypt` of `chacha20poly1305::XChaCha20Poly1305`.
/// Claimed: it fails exactly on a plaintext of 2^32 - 1 blocks or more; what it
/// returns is 16 bytes longer than the plaintext, and `decrypt` under the same
/// key and nonce gives the plaintext back.
#[verifier::external_body]
pub(crate) fn xchacha_seal(key: &[u8; 32], nonce: &[u8; 24], plaintext: &[u8]) -> (r: Option<
    Vec<u8>,
>)
    ensures
        bytes_of(r) == xchacha20poly1305_sealed(key@, nonce@, plaintext@),
        r is Some <==> chacha_takes(plaintext@.len()),
        r matches Some(c) ==> c@.len() == plaintext@.len() + TAG_LEN && xchacha20poly1305_opened(
            key@,
            nonce@,
            c@,
        ) == Some(plaintext@),
{
    XChaCha20Poly1305::new(key.into()).encrypt(nonce.into(), plaintext).ok()
}

/// `decrypt` of `chacha20poly1305::XChaCha20Poly1305`.
/// Claimed: the result is a function of key, nonce and sealed bytes.
#[verifier::external_body]
pub(crate) fn xchacha_open(key: &[u8; 32], nonce: &[u8; 24], sealed: &[u8]) -> (r: Option<Vec<u8>>)
    ensures
        bytes_of(r) == xchacha20poly1305_opened(key@, nonce@, sealed@),
{
    XChaCha20Poly1305::new(key.into()).decrypt(nonce.into(), sealed).ok()
}

/// What ChaCha20-Poly1305 makes of `plaintext` under `key` and `nonce`, with no
/// associated data.
pub uninterp spec fn chacha20poly1305_sealed(
    key: Seq<u8>,
    nonce: Seq<u8>,
    plaintext: Seq<u8>,
) -> Option<Seq<u8>>;

/// What ChaCha20-Poly1305 recovers from `sealed` under `key` and `nonce`, with
/// no associated data.
pub uninterp spec fn chacha20poly1305_opened(
    key: Seq<u8>,
    nonce: Seq<u8>,
    sealed: Seq<u8>,
) -> Option<Seq<u8>>;

/// `encrypt` of `chacha20poly1305::ChaCha20Poly1305`.
/// Claimed: as for the extended-nonce cipher, with a nonce of 12 bytes.
#[verifier::external_body]
pub(crate) fn chacha_seal(key: &[u8; 32], nonce: &[u8; 12], plaintext: &[u8]) -> (r: Option<
    Vec<u8>,
>)
    ensures
        bytes_of(r) == chacha20poly1305_sealed(key@, nonce@, plaintext@),
        r is Some <==> chacha_takes(plaintext@.len()),
        r matches Some(c) ==> c@.len() == plaintext@.len() + TAG_LEN && chacha20poly1305_opened(
            key@,
            nonce@,
            c@,
        ) == Some(plaintext@),
{
    ChaCha20Poly1305::new(key.into()).encrypt(nonce.into(), plaintext).ok()
}

/// `decrypt` of `chacha20poly1305::ChaCha20Poly1305`.
/// Claimed: as for the extended-nonce cipher.
#[verifier::external_body]
pub(crate) fn chacha_open(key: &[u8; 32], nonce: &[u8; 12], sealed: &[u8]) -> (r: Option<Vec<u8>>)
    ensures
        bytes_of(r) == chacha20poly1305_opened(key@, nonce@, sealed@),
{
    ChaCha20Poly1305::new(key.into()).decrypt(nonce.into(), sealed).ok()
}

/// What AES-256-GCM makes of `plaintext` under `key` and `nonce`, with no
/// associated data.
pub uninterp spec fn aes256gcm_sealed(key: Seq<u8>, nonce: Seq<u8>, plaintext: Seq<u8>) -> Option<
    Seq<u8>,
>;

/// What AES-256-GCM recovers from `sealed` under `key` and `nonce`, with no
/// associated data.
pub uninterp spec fn aes256gcm_opened(key: Seq<u8>, nonce: Seq<u8>, sealed: Seq<u8>) -> Option<
    Seq<u8>,
>;

/// `encrypt` of `aes_gcm::Aes256Gcm`.
/// Claimed: it fails exactly on a plaintext of more than 2^36 bytes; what it
/// returns is 16 bytes longer than the plaintext, and `decrypt` under the same
/// key and nonce gives the plaintext back.
#[verifier::external_body]
pub(crate) fn aes_gcm_seal(key: &[u8; 32], nonce: &[u8; 12], plaintext: &[u8]) -> (r: Option<
    Vec<u8>,
>)
    ensures
        bytes_of(r) == aes256gcm_sealed(key@, nonce@, plaintext@),
        r is Some <==> aes_gcm_takes(plaintext@.len()),
        r matches Some(c) ==> c@.len() == plaintext@.len() + TAG_LEN && aes256gcm_opened(
            key@,
            nonce@,
            c@,
        ) == Some(plaintext@),
{
    Aes256Gcm::new(key.into()).encrypt(nonce.into(), plaintext).ok()
}

/// `decrypt` of `aes_gcm::Aes256Gcm`.
/// Claimed: the result is a function of key, nonce and sealed bytes.
#[verifier::external_body]
pub(crate) fn aes_gcm_open(key: &[u8; 32], nonce: &[u8; 12], sealed: &[u8]) -> (r: Option<Vec<u8>>)
    ensures
        bytes_of(r) == aes256gcm_opened(key@, nonce@, sealed@),
{
    Aes256Gcm::new(key.into()).decrypt(nonce.into(), sealed).ok()
}

/// The Ed25519 public key that belongs to the secret key `secret`.
pub uninterp spec fn ed25519_public(secret: Seq<u8>) -> Seq<u8>;

/// The Ed25519 signature of `message` under the secret key `secret`.
pub uninterp spec fn ed25519_signature(secret: Seq<u8>, message: Seq<u8>) -> Seq<u8>;

/// Whether Ed25519 verification accepts `signature` for `message` under the
/// public key `public`. Bytes that are no public key accept nothing.
pub uninterp spec fn ed25519_accepts(public: Seq<u8>, message: Seq<u8>, signature: Seq<u8>) -> bool;

/// `SigningKey::from_bytes`, `verifying_key` and `to_bytes` of `ed25519_dalek`.
/// Claimed: the result is the public key of `secret`.
#[verifier::external_body]
pub(crate) fn ed25519_public_key(secret: &[u8; 32]) -> (r: [u8; 32])
    ensures
        r@ == ed25519_public(secret@),
{
    SigningKey::from_bytes(secret).verifying_key().to_bytes()
}

/// `sign` of `ed25519_dalek::SigningKey`.
/// Claimed: signing is a function of key and message, and the signature is
/// accepted under the public key of that secret key.
#[verifier::external_body]
pub(crate) fn ed25519_sign(secret: &[u8; 32], message: &[u8]) -> (r: [u8; 64])
    ensures
        r@ == ed25519_signature(secret@, message@),
        ed25519_accepts(ed25519_public(secret@), message@, r@),
{
    SigningKey::from_bytes(secret).sign(message).to_bytes()
}

/// `VerifyingKey::from_bytes` and `verify` of `ed25519_dalek`.
/// Claimed: the answer is a function of the three byte strings.
#[verifier::external_body]
pub(crate) fn ed25519_verify(public: &[u8; 32], message: &[u8], signature: &[u8; 64]) -> (r: bool)
    ensures
        r == ed25519_accepts(public@, message@, signature@),
{
    match VerifyingKey::from_bytes(public) {
        Ok(key) => key.verify(message, &Signature::from_bytes(signature)).is_ok(),
        Err(_) => false,
    }
}

/// The entropy that the English secret phrase `phrase` encodes, or nothing
/// where the phrase has a wrong word count, an unknown word or a bad checksum.
pub uninterp spec fn bip39_entropy(phrase: Seq<char>) -> Option<Seq<u8>>;

/// The English secret phrase that encodes `entropy`, or nothing where the
/// entropy has a length that no phrase encodes.
pub uninterp spec fn bip39_phrase(entropy: Seq<u8>) -> Option<Seq<char>>;

/// `Mnemonic::parse_in_normalized` and `to_entropy` of `bip39`, in English.
/// Claimed: the result is a function of the phrase.
#[verifier::external_body]
pub(crate) fn phrase_entropy(phrase: &str) -> (r: Option<Vec<u8>>)
    ensures
        bytes_of(r) == bip39_entropy(phrase@),
{
    match Mnemonic::parse_in_normalized(Language::English, phrase) {
        Ok(mnemonic) => Some(mnemonic.to_entropy()),
        Err(_) => None,
    }
}

/// `Mnemonic::from_entropy_in` and its `Display` of `bip39`, in English.
/// Claimed: 32 bytes always have a phrase, and parsing the phrase gives the
/// entropy back.
#[verifier::external_body]
pub(crate) fn entropy_phrase(entropy: &[u8; 32]) -> (r: Option<String>)
    ensures
        chars_of(r) == bip39_phrase(entropy@),
        r is Some,
        r matches Some(p) ==> bip39_entropy(p@) == Some(entropy@),
{
    match Mnemonic::from_entropy_in(Language::English, entropy) {
        Ok(mnemonic) => Some(mnemonic.to_string()),
        Err(_) => None,
    }
}

/// `fill_bytes` of `rand::thread_rng()`. Nothing is claimed of the bytes.
#[verifier::external_body]
pub(crate) fn random_array<const N: usize>() -> [u8; N] {
    let mut out = [0u8; N];
    rand::thread_rng().fill_bytes(&mut out);
    out
}

} // verus!
