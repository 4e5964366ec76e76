//! The wire envelope of the radio path: a header that travels in the clear, a
//! body sealed under the session key, and a signature over both.
//!
//! The signature binds sender, type and time without the body being opened;
//! the seal keeps the body private. A packet is opened only after its
//! signature has been accepted.

use crate::bytes::{le_bytes, push_all, push_le};
use crate::clock::unix_time;
use crate::primitives::{chacha_open, chacha_seal, ed25519_sign, ed25519_verify, random_array};
use crate::primitives::{chacha20poly1305_opened, chacha20poly1305_sealed, chacha_can_take, chacha_takes};
use crate::primitives::{ed25519_accepts, ed25519_public, ed25519_signature};
use vstd::prelude::*;
use vstd::string::*;

verus! {

/// What a packet carries.
#[derive(Clone, Copy, Debug, PartialEq, Eq, Structural)]
pub enum PacketType {
    Hello,
    ClipboardText,
    FileChunk,
    Ack,
}

impl PacketType {
    /// The number a type is written as in a header.
    pub open spec fn index(self) -> nat {
        match self {
            PacketType::Hello => 0,
            PacketType::ClipboardText => 1,
            PacketType::FileChunk => 2,
            PacketType::Ack => 3,
        }
    }

    /// The number this type is written as in a header.
    pub fn wire_index(self) -> (r: u32)
        ensures
            r == self.index(),
    {
        match self {
            PacketType::Hello => 0,
            PacketType::ClipboardText => 1,
            PacketType::FileChunk => 2,
            PacketType::Ack => 3,
        }
    }
}

/// The header of a packet: readable by anyone, signed by the sender.
#[derive(Debug)]
pub struct PacketHeader {
    /// The sender's public key, as text.
    pub sender_id: String,
    pub packet_type: PacketType,
    /// Seconds since 1970 at which the packet was built.
    pub timestamp: u64,
    /// The nonce under which the body is sealed.
    pub nonce: [u8; 12],
}

/// A header as plain values.
pub struct PacketHeaderView {
    pub sender_id: Seq<char>,
    pub packet_type: PacketType,
    pub timestamp: u64,
    pub nonce: Seq<u8>,
}

impl View for PacketHeader {
    type V = PacketHeaderView;

    open spec fn view(&self) -> PacketHeaderView {
        PacketHeaderView {
            sender_id: self.sender_id@,
            packet_type: self.packet_type,
            timestamp: self.timestamp,
            nonce: self.nonce@,
        }
    }
}

impl Clone for PacketHeader {
    fn clone(&self) -> (r: Self)
        ensures
            r@ == self@,
    {
        PacketHeader {
            sender_id: self.sender_id.clone(),
            packet_type: self.packet_type,
            timestamp: self.timestamp,
            nonce: self.nonce,
        }
    }
}

/// What goes over the wire.
#[derive(Debug)]
pub struct WirePacket {
    pub header: PacketHeader,
    /// The body, sealed.
    pub payload: Vec<u8>,
    /// Ed25519 signature over the header's bytes followed by the sealed body.
    pub signature: [u8; 64],
}

/// A packet as plain values.
pub struct WirePacketView {
    pub header: PacketHeaderView,
    pub payload: Seq<u8>,
    pub signature: Seq<u8>,
}

impl View for WirePacket {
    type V = WirePacketView;

    open spec fn view(&self) -> WirePacketView {
        WirePacketView { header: self.header@, payload: self.payload@, signature: self.signature@ }
    }
}

/// Why a packet was not built or not opened.
#[derive(Clone, Copy, Debug, PartialEq, Eq, Structural)]
pub enum PacketError {
    /// The body is longer than the cipher seals.
    EncryptionFailed,
    /// The signature is not the sender's over this header and body.
    InvalidSignature,
    /// The signature holds, but the body does not open under the session key.
    DecryptionFailed,
    /// The clock stands before 1970: there is no time to put into a header.
    ClockUnavailable,
}

/// The bytes of a header that are signed: the sender's id as its length on
/// eight little-endian bytes and its UTF-8 bytes, the type on four bytes, the
/// timestamp on eight, and the twelve bytes of the nonce.
pub open spec fn header_bytes(header: PacketHeaderView) -> Seq<u8> {
    le_bytes(vstd::utf8::encode_utf8(header.sender_id).len(), 8) + vstd::utf8::encode_utf8(
        header.sender_id,
    ) + le_bytes(header.packet_type.index(), 4) + le_bytes(header.timestamp as nat, 8)
        + header.nonce
}

/// What the signature of a packet covers.
pub open spec fn signed_bytes(header: PacketHeaderView, sealed: Seq<u8>) -> Seq<u8> {
    header_bytes(header) + sealed
}

/// The packet that a sender builds, or nothing where the body is too long.
pub open spec fn built_packet(
    header: PacketHeaderView,
    body: Seq<u8>,
    session_key: Seq<u8>,
    signing_key: Seq<u8>,
) -> Option<WirePacketView> {
    match chacha20poly1305_sealed(session_key, header.nonce, body) {
        None => None,
        Some(sealed) => Some(
            WirePacketView {
                header: header,
                payload: sealed,
                signature: ed25519_signature(signing_key, signed_bytes(header, sealed)),
            },
        ),
    }
}

/// What a receiver makes of a packet: the signature is checked first, and only
/// a packet whose signature holds is opened.
pub open spec fn opened_wire(packet: WirePacketView, session_key: Seq<u8>, verify_key: Seq<u8>) -> Result<
    (PacketHeaderView, Seq<u8>),
    PacketError,
> {
    if !ed25519_accepts(verify_key, signed_bytes(packet.header, packet.payload), packet.signature) {
        Err(PacketError::InvalidSignature)
    } else {
        match chacha20poly1305_opened(session_key, packet.header.nonce, packet.payload) {
            None => Err(PacketError::DecryptionFailed),
            Some(body) => Ok((packet.header, body)),
        }
    }
}

/// Whether a receiver with these keys gets the packet's own header and `body`
/// out of it.
pub open spec fn opens_to(
    packet: WirePacketView,
    session_key: Seq<u8>,
    verify_key: Seq<u8>,
    body: Seq<u8>,
) -> bool {
    opened_wire(packet, session_key, verify_key) == Ok::<_, PacketError>((packet.header, body))
}

/// Writes the signed bytes of a header.
pub fn write_header(header: &PacketHeader) -> (r: Vec<u8>)
    ensures
        r@ == header_bytes(header@),
{
    let mut out: Vec<u8> = Vec::new();
    let id = header.sender_id.as_str().as_bytes();
    push_le(&mut out, id.len() as u64, 8);
    push_all(&mut out, id);
    push_le(&mut out, header.packet_type.wire_index() as u64, 4);
    push_le(&mut out, header.timestamp, 8);
    push_all(&mut out, header.nonce.as_slice());
    out
}

impl WirePacket {
    /// Builds the packet for `payload_plain` with the time and nonce given.
    ///
    /// The body is sealed under `session_key` with `nonce`; the signature, under
    /// `signing_key`, covers the header's bytes and the sealed body. Building
    /// fails only for a body longer than the cipher takes. The packet opens,
    /// under the same session key and the public key of `signing_key`, to its
    /// own header and to `payload_plain`.
    pub fn build(
        sender_id: String,
        packet_type: PacketType,
        payload_plain: &[u8],
        session_key: &[u8; 32],
        signing_key: &[u8; 32],
        timestamp: u64,
        nonce: [u8; 12],
    ) -> (r: Result<WirePacket, PacketError>)
        ensures
            match built_packet(
                (PacketHeaderView { sender_id: sender_id@, packet_type, timestamp, nonce: nonce@ }),
                payload_plain@,
                session_key@,
                signing_key@,
            ) {
                Some(packet) => r matches Ok(made) && made@ == packet,
                None => r matches Err(e) && e == PacketError::EncryptionFailed,
            },
            r is Ok <==> chacha_takes(payload_plain@.len()),
            r matches Ok(made) ==> opens_to(
                made@,
                session_key@,
                ed25519_public(signing_key@),
                payload_plain@,
            ),
    {
        match chacha_seal(session_key, &nonce, payload_plain) {
            None => Err(PacketError::EncryptionFailed),
            Some(sealed) => {
                let header = PacketHeader { sender_id, packet_type, timestamp, nonce };
                let mut signed = write_header(&header);
                push_all(&mut signed, sealed.as_slice());
                let signature = ed25519_sign(signing_key, signed.as_slice());
                Ok(WirePacket { header, payload: sealed, signature })
            },
        }
    }

    /// Builds the packet for `payload_plain` at the current time, under a fresh
    /// random nonce.
    ///
    /// A body that is longer than the cipher takes is refused, whatever the
    /// clock says. For the rest the packet is one that `build` makes for some
    /// time and some nonce, or building fails where the clock stands before
    /// 1970.
    pub fn new(
        sender_id: String,
        packet_type: PacketType,
        payload_plain: &[u8],
        session_key: &[u8; 32],
        signing_key: &[u8; 32],
    ) -> (r: Result<WirePacket, PacketError>)
        ensures
            !chacha_takes(payload_plain@.len()) ==> (r matches Err(e) && e
                == PacketError::EncryptionFailed),
            chacha_takes(payload_plain@.len()) ==> match r {
                Ok(made) => {
                    &&& made@.header.sender_id == sender_id@
                    &&& made@.header.packet_type == packet_type
                    &&& built_packet(made@.header, payload_plain@, session_key@, signing_key@)
                        == Some(made@)
                    &&& opens_to(made@, session_key@, ed25519_public(signing_key@), payload_plain@)
                },
                Err(e) => e == PacketError::ClockUnavailable,
            },
    {
        if !chacha_can_take(payload_plain.len(), 0) {
            return Err(PacketError::EncryptionFailed);
        }
        match unix_time() {
            None => Err(PacketError::ClockUnavailable),
            Some(timestamp) => {
                let nonce: [u8; 12] = random_array::<12>();
                WirePacket::build(
                    sender_id,
                    packet_type,
                    payload_plain,
                    session_key,
                    signing_key,
                    timestamp,
                    nonce,
                )
            },
        }
    }

    /// Checks the signature against `verify_key`, then opens the body under
    /// `session_key`.
    ///
    /// `InvalidSignature` where the signature is not accepted for this header
    /// and sealed body; else `DecryptionFailed` where the body does not open;
    /// else the header and the body in the clear.
    pub fn open(&self, session_key: &[u8; 32], verify_key: &[u8; 32]) -> (r: Result<
        (PacketHeader, Vec<u8>),
        PacketError,
    >)
        ensures
            match opened_wire(self@, session_key@, verify_key@) {
                Ok(expected) => r matches Ok(got) && got.0@ == expected.0 && got.1@ == expected.1,
                Err(e) => r matches Err(got) && got == e,
            },
    {
        let mut signed = write_header(&self.header);
        push_all(&mut signed, self.payload.as_slice());
        if !ed25519_verify(verify_key, signed.as_slice(), &self.signature) {
            return Err(PacketError::InvalidSignature);
        }
        match chacha_open(session_key, &self.header.nonce, self.payload.as_slice()) {
            None => Err(PacketError::DecryptionFailed),
            Some(body) => Ok((self.header.clone(), body)),
        }
    }
}

} // verus!
