//! The secure channel: payloads sealed under the ring's shared secret, each
//! with the time of sealing inside, so that an old packet is not taken twice.
//!
//! A packet is the 24-byte nonce followed by what XChaCha20-Poly1305 makes of
//! the inner envelope. The envelope is the timestamp on eight little-endian
//! bytes, the payload's length on eight more, and the payload.

use crate::bytes::{copy_range, le_bytes, le_value, push_all, push_le, read_le, take_array};
use crate::bytes::{lemma_le_bytes_len, lemma_le_value_of_bytes, lemma_pow256_values};
use crate::clock::unix_time;
use crate::primitives::{chacha_can_take, chacha_takes, random_array, xchacha_open, xchacha_seal};
use crate::primitives::{xchacha20poly1305_opened, xchacha20poly1305_sealed, TAG_LEN};
use vstd::prelude::*;

verus! {

/// Length of the nonce at the head of every packet.
pub const NONCE_LEN: usize = 24;

/// Bytes of an envelope before its payload: the timestamp and the length of
/// the payload, eight bytes each.
pub const ENVELOPE_HEADER_LEN: u8 = 16;

/// How many seconds into the past a packet's timestamp may lie.
pub const REPLAY_WINDOW_SECONDS: u64 = 60;

/// How many seconds into the future a packet's timestamp may lie.
pub const CLOCK_SKEW_SECONDS: u64 = 5;

/// Why a packet was not sealed or not opened. Each failure concerns one packet:
/// the caller drops it and goes on.
#[derive(Clone, Copy, Debug, PartialEq, Eq, Structural)]
pub enum ChannelError {
    /// The packet is shorter than a nonce, or what it held is no envelope.
    MalformedPacket,
    /// The tag does not match: a wrong key, or a packet that was altered.
    AuthenticationFailure,
    /// The timestamp lies outside the window around the receiver's clock.
    ReplayRejected,
    /// The payload is longer than the cipher seals.
    PayloadTooLarge,
    /// The system clock stands before 1970.
    ClockUnavailable,
}

/// The inner envelope of `data` sealed at `timestamp`.
pub open spec fn envelope_bytes(timestamp: u64, data: Seq<u8>) -> Seq<u8> {
    le_bytes(timestamp as nat, 8) + le_bytes(data.len(), 8) + data
}

/// Timestamp and payload of an envelope, or nothing where `bytes` is shorter
/// than its header or than the payload that the header announces. What follows
/// the payload is not looked at.
pub open spec fn envelope_parsed(bytes: Seq<u8>) -> Option<(u64, Seq<u8>)> {
    if bytes.len() >= 16 && le_value(bytes.subrange(8, 16)) <= bytes.len() - 16 {
        Some(
            (
                le_value(bytes.subrange(0, 8)) as u64,
                bytes.subrange(16, 16 + le_value(bytes.subrange(8, 16)) as int),
            ),
        )
    } else {
        None
    }
}

/// Whether a packet sealed at `timestamp` is taken by a receiver whose clock
/// shows `now`: not more than 60 seconds old, not more than 5 seconds ahead.
pub open spec fn fresh(timestamp: u64, now: u64) -> bool {
    now - REPLAY_WINDOW_SECONDS <= timestamp <= now + CLOCK_SKEW_SECONDS
}

/// The packet for `data` sealed at `timestamp` under `key` with `nonce`.
pub open spec fn sealed_packet(key: Seq<u8>, nonce: Seq<u8>, timestamp: u64, data: Seq<u8>) -> Option<
    Seq<u8>,
> {
    match xchacha20poly1305_sealed(key, nonce, envelope_bytes(timestamp, data)) {
        Some(sealed) => Some(nonce + sealed),
        None => None,
    }
}

/// Timestamp and payload of `packet` under `key`, before the clock is asked.
pub open spec fn opened_envelope(key: Seq<u8>, packet: Seq<u8>) -> Result<
    (u64, Seq<u8>),
    ChannelError,
> {
    if packet.len() < NONCE_LEN {
        Err(ChannelError::MalformedPacket)
    } else {
        match xchacha20poly1305_opened(
            key,
            packet.subrange(0, NONCE_LEN as int),
            packet.subrange(NONCE_LEN as int, packet.len() as int),
        ) {
            None => Err(ChannelError::AuthenticationFailure),
            Some(plain) => match envelope_parsed(plain) {
                None => Err(ChannelError::MalformedPacket),
                Some(inner) => Ok(inner),
            },
        }
    }
}

/// What a receiver whose clock shows `now` makes of `packet` under `key`.
pub open spec fn opened_packet(key: Seq<u8>, packet: Seq<u8>, now: u64) -> Result<
    Seq<u8>,
    ChannelError,
> {
    match opened_envelope(key, packet) {
        Err(e) => Err(e),
        Ok(inner) => if fresh(inner.0, now) {
            Ok(inner.1)
        } else {
            Err(ChannelError::ReplayRejected)
        },
    }
}

/// What a receiver whose clock shows `now` makes of a well-formed packet that
/// holds `data` sealed at `timestamp`.
pub open spec fn received(timestamp: u64, now: u64, data: Seq<u8>) -> Result<Seq<u8>, ChannelError> {
    if fresh(timestamp, now) {
        Ok(data)
    } else {
        Err(ChannelError::ReplayRejected)
    }
}

/// The bytes of a result that holds a byte string.
pub open spec fn outcome(r: Result<Vec<u8>, ChannelError>) -> Result<Seq<u8>, ChannelError> {
    match r {
        Ok(v) => Ok(v@),
        Err(e) => Err(e),
    }
}

/// An envelope parses to the timestamp and the payload it was made of.
pub proof fn lemma_envelope_parses(timestamp: u64, data: Seq<u8>)
    requires
        data.len() <= u64::MAX,
    ensures
        envelope_parsed(envelope_bytes(timestamp, data)) == Some((timestamp, data)),
        envelope_bytes(timestamp, data).len() == data.len() + ENVELOPE_HEADER_LEN,
{
    let head = le_bytes(timestamp as nat, 8);
    let size = le_bytes(data.len(), 8);
    let all = envelope_bytes(timestamp, data);
    lemma_le_bytes_len(timestamp as nat, 8);
    lemma_le_bytes_len(data.len(), 8);
    lemma_pow256_values();
    lemma_le_value_of_bytes(timestamp as nat, 8);
    lemma_le_value_of_bytes(data.len(), 8);
    assert(all.subrange(0, 8) =~= head);
    assert(all.subrange(8, 16) =~= size);
}

/// A packet sealed at `timestamp` opens to its payload for a receiver whose
/// clock is within the window, and is rejected as a replay for every other,
/// given that the cipher opens what it sealed.
pub proof fn lemma_sealed_packet_opens(
    key: Seq<u8>,
    nonce: Seq<u8>,
    timestamp: u64,
    data: Seq<u8>,
    packet: Seq<u8>,
    now: u64,
)
    requires
        nonce.len() == NONCE_LEN,
        data.len() <= u64::MAX,
        sealed_packet(key, nonce, timestamp, data) == Some(packet),
        xchacha20poly1305_opened(key, nonce, packet.subrange(NONCE_LEN as int, packet.len() as int))
            == Some(envelope_bytes(timestamp, data)),
    ensures
        opened_packet(key, packet, now) == received(timestamp, now, data),
{
    lemma_envelope_parses(timestamp, data);
    assert(packet.subrange(0, NONCE_LEN as int) =~= nonce);
}

/// A packet that the cipher refuses under `key` is an authentication failure
/// for every receiver with that key, whatever its clock shows, and nothing of
/// what it holds comes out. Whether the cipher refuses a packet that was
/// sealed under another key is the cipher's matter: it is no theorem, and is
/// not stated here.
pub proof fn lemma_refused_packet_fails_authentication(key: Seq<u8>, packet: Seq<u8>, now: u64)
    requires
        packet.len() >= NONCE_LEN,
        xchacha20poly1305_opened(
            key,
            packet.subrange(0, NONCE_LEN as int),
            packet.subrange(NONCE_LEN as int, packet.len() as int),
        ) is None,
    ensures
        opened_packet(key, packet, now) == Err::<Seq<u8>, ChannelError>(
            ChannelError::AuthenticationFailure,
        ),
{
}

/// The ring's shared secret, ready to seal and open packets.
pub struct CryptoLayer {
    key: [u8; 32],
}

impl CryptoLayer {
    /// The shared secret this layer seals under.
    pub closed spec fn key(&self) -> Seq<u8> {
        self.key@
    }

    /// A layer that seals and opens under this shared secret.
    pub fn new(shared_secret: &[u8; 32]) -> (r: Self)
        ensures
            r.key() == shared_secret@,
    {
        CryptoLayer { key: *shared_secret }
    }

    /// Seals `data` with the time `now` inside, under the nonce given.
    ///
    /// Sealing fails only for a payload that, with its 16 bytes of envelope
    /// header, is longer than the cipher takes. The packet that comes out opens
    /// to `data` for every receiver whose clock is within the window around
    /// `now`, and is rejected as a replay by every other.
    pub fn encrypt_at(&self, data: &[u8], now: u64, nonce: &[u8; 24]) -> (r: Result<
        Vec<u8>,
        ChannelError,
    >)
        ensures
            match sealed_packet(self.key(), nonce@, now, data@) {
                Some(packet) => r matches Ok(made) && made@ == packet,
                None => r matches Err(e) && e == ChannelError::PayloadTooLarge,
            },
            r is Ok <==> chacha_takes((data@.len() + ENVELOPE_HEADER_LEN) as nat),
            r matches Ok(packet) ==> packet@.len() == data@.len() + ENVELOPE_HEADER_LEN + NONCE_LEN + TAG_LEN,
            r matches Ok(packet) ==> forall|later: u64|
                #[trigger] opened_packet(self.key(), packet@, later) == received(now, later, data@),
    {
        let envelope = write_envelope(now, data);
        let size: usize = data.len();
        proof {
            assert(data@.len() == size);
            lemma_envelope_parses(now, data@);
        }
        match xchacha_seal(&self.key, nonce, envelope.as_slice()) {
            None => Err(ChannelError::PayloadTooLarge),
            Some(sealed) => {
                let mut packet: Vec<u8> = Vec::new();
                push_all(&mut packet, nonce.as_slice());
                push_all(&mut packet, sealed.as_slice());
                proof {
                    assert(packet@.subrange(NONCE_LEN as int, packet@.len() as int) =~= sealed@);
                    assert forall|later: u64|
                        #[trigger] opened_packet(self.key(), packet@, later) == received(
                            now,
                            later,
                            data@,
                        ) by {
                        lemma_sealed_packet_opens(
                            self.key(),
                            nonce@,
                            now,
                            data@,
                            packet@,
                            later,
                        );
                    }
                }
                Ok(packet)
            },
        }
    }

    /// Seals `data` with the current time inside, under a fresh random nonce.
    ///
    /// A payload that is too long for the cipher is refused, whatever the
    /// clock says. For the rest the packet is one that `encrypt_at` makes for
    /// some time and some nonce, or sealing fails where the clock stands
    /// before 1970.
    pub fn encrypt(&self, data: &[u8]) -> (r: Result<Vec<u8>, ChannelError>)
        ensures
            !chacha_takes((data@.len() + ENVELOPE_HEADER_LEN) as nat) ==> r == Err::<
                Vec<u8>,
                ChannelError,
            >(ChannelError::PayloadTooLarge),
            chacha_takes((data@.len() + ENVELOPE_HEADER_LEN) as nat) ==> match r {
                Ok(packet) => packet@.len() == data@.len() + ENVELOPE_HEADER_LEN + NONCE_LEN
                    + TAG_LEN && exists|now: u64, nonce: Seq<u8>|
                    nonce.len() == NONCE_LEN && #[trigger] sealed_packet(
                        self.key(),
                        nonce,
                        now,
                        data@,
                    ) == Some(packet@),
                Err(e) => e == ChannelError::ClockUnavailable,
            },
    {
        if !chacha_can_take(data.len(), ENVELOPE_HEADER_LEN) {
            return Err(ChannelError::PayloadTooLarge);
        }
        match unix_time() {
            None => Err(ChannelError::ClockUnavailable),
            Some(now) => {
                let nonce: [u8; 24] = random_array::<24>();
                self.encrypt_at(data, now, &nonce)
            },
        }
    }

    /// Timestamp and payload of `packet`, with the tag checked and the clock
    /// not yet asked.
    pub fn open_envelope(&self, packet: &[u8]) -> (r: Result<(u64, Vec<u8>), ChannelError>)
        ensures
            match opened_envelope(self.key(), packet@) {
                Ok(inner) => r matches Ok(got) && got.0 == inner.0 && got.1@ == inner.1,
                Err(e) => r matches Err(got) && got == e,
            },
    {
        if packet.len() < NONCE_LEN {
            return Err(ChannelError::MalformedPacket);
        }
        let nonce: [u8; 24] = take_array::<24>(packet, 0);
        let sealed = copy_range(packet, NONCE_LEN, packet.len());
        match xchacha_open(&self.key, &nonce, sealed.as_slice()) {
            None => Err(ChannelError::AuthenticationFailure),
            Some(plain) => match read_envelope(plain.as_slice()) {
                None => Err(ChannelError::MalformedPacket),
                Some(inner) => Ok(inner),
            },
        }
    }

    /// Opens `packet` for a receiver whose clock shows `now`.
    ///
    /// `MalformedPacket` for a packet shorter than a nonce, then
    /// `AuthenticationFailure` where the tag does not match, then
    /// `MalformedPacket` where the plaintext is no envelope, then
    /// `ReplayRejected` where the timestamp is outside the window; else the
    /// payload.
    pub fn decrypt_at(&self, packet: &[u8], now: u64) -> (r: Result<Vec<u8>, ChannelError>)
        ensures
            outcome(r) == opened_packet(self.key(), packet@, now),
    {
        match self.open_envelope(packet) {
            Err(e) => Err(e),
            Ok(inner) => {
                if is_fresh(inner.0, now) {
                    Ok(inner.1)
                } else {
                    Err(ChannelError::ReplayRejected)
                }
            },
        }
    }

    /// Opens `packet` against the system clock.
    ///
    /// A packet that is malformed or fails authentication is refused as by
    /// `decrypt_at`, whatever the clock says. For the rest the result is that of
    /// `decrypt_at` for the time that the clock gave, or `ClockUnavailable`
    /// where it stands before 1970.
    pub fn decrypt(&self, packet: &[u8]) -> (r: Result<Vec<u8>, ChannelError>)
        ensures
            match opened_envelope(self.key(), packet@) {
                Err(e) => r matches Err(got) && got == e,
                Ok(inner) => (r matches Err(got) && got == ChannelError::ClockUnavailable)
                    || exists|now: u64| outcome(r) == #[trigger] opened_packet(
                        self.key(),
                        packet@,
                        now,
                    ),
            },
    {
        match self.open_envelope(packet) {
            Err(e) => Err(e),
            Ok(inner) => match unix_time() {
                None => Err(ChannelError::ClockUnavailable),
                Some(now) => {
                    let r = if is_fresh(inner.0, now) {
                        Ok(inner.1)
                    } else {
                        Err(ChannelError::ReplayRejected)
                    };
                    proof {
                        assert(outcome(r) == opened_packet(self.key(), packet@, now));
                    }
                    r
                },
            },
        }
    }
}

/// Whether `timestamp` is within the window around `now`.
pub fn is_fresh(timestamp: u64, now: u64) -> (r: bool)
    ensures
        r == fresh(timestamp, now),
{
    let oldest: u64 = now.saturating_sub(REPLAY_WINDOW_SECONDS);
    let newest: u64 = now.saturating_add(CLOCK_SKEW_SECONDS);
    oldest <= timestamp && timestamp <= newest
}

/// Writes the inner envelope of `data` sealed at `timestamp`.
pub fn write_envelope(timestamp: u64, data: &[u8]) -> (r: Vec<u8>)
    ensures
        r@ == envelope_bytes(timestamp, data@),
{
    let mut out: Vec<u8> = Vec::new();
    push_le(&mut out, timestamp, 8);
    push_le(&mut out, data.len() as u64, 8);
    push_all(&mut out, data);
    out
}

/// Reads an inner envelope.
pub fn read_envelope(bytes: &[u8]) -> (r: Option<(u64, Vec<u8>)>)
    ensures
        match envelope_parsed(bytes@) {
            Some(inner) => r matches Some(got) && got.0 == inner.0 && got.1@ == inner.1,
            None => r is None,
        },
{
    if bytes.len() < 16 {
        return None;
    }
    let timestamp: u64 = read_le(bytes, 0, 8);
    let size: u64 = read_le(bytes, 8, 8);
    if size > (bytes.len() - 16) as u64 {
        return None;
    }
    let data = copy_range(bytes, 16, 16 + size as usize);
    Some((timestamp, data))
}

} // verus!
