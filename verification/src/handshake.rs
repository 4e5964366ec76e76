//! The first packet between two members on the radio: a `Hello`, sealed under
//! a key that only members of the ring can derive, and signed with the ring's
//! identity key.

use crate::bytes::{copy_range, le_bytes, le_value, push_all, push_le, read_le, take_array};
use crate::bytes::{lemma_le_bytes_len, lemma_le_value_of_bytes, lemma_pow256_values};
use crate::identity::RingIdentity;
use crate::packet::{opened_wire, PacketType, WirePacket};
use crate::primitives::{hkdf_sha256, hkdf_sha256_key};
use crate::text::utf8_string;
use vstd::prelude::*;
use vstd::string::*;
use vstd::utf8::{decode_utf8, encode_utf8, valid_utf8};

verus! {

/// Context of the key under which a `Hello` is sealed.
pub const HANDSHAKE_CONTEXT: &'static str = "initial_handshake_v1";

/// What a `Hello` carries.
#[derive(Debug, PartialEq, Eq)]
pub struct HandshakePayload {
    pub device_name: String,
    pub public_key: [u8; 32],
}

/// What a `Hello` carries, as plain values.
pub struct HandshakePayloadView {
    pub device_name: Seq<char>,
    pub public_key: Seq<u8>,
}

impl View for HandshakePayload {
    type V = HandshakePayloadView;

    open spec fn view(&self) -> HandshakePayloadView {
        HandshakePayloadView { device_name: self.device_name@, public_key: self.public_key@ }
    }
}

/// Why a packet was turned away.
#[derive(Clone, Copy, Debug, PartialEq, Eq, Structural)]
pub enum HandshakeError {
    /// The `Hello` is not signed by the ring, or does not open under its key.
    Unauthorized,
}

/// The key under which the members of a ring seal their `Hello`: derived from
/// the ring's identity key, with a salt of 32 zero bytes.
pub open spec fn handshake_key(identity_key: Seq<u8>) -> Seq<u8> {
    hkdf_sha256_key(Seq::new(32, |i: int| 0u8), identity_key, HANDSHAKE_CONTEXT.spec_bytes())
}

/// The bytes of a payload: the name as its length on eight little-endian
/// bytes and its UTF-8 bytes, then the 32 bytes of the key.
pub open spec fn payload_bytes(payload: HandshakePayloadView) -> Seq<u8> {
    le_bytes(encode_utf8(payload.device_name).len(), 8) + encode_utf8(payload.device_name)
        + payload.public_key
}

/// The payload that `bytes` holds, or nothing where they are too few or the
/// name is no UTF-8. What follows the key is not looked at.
pub open spec fn payload_parsed(bytes: Seq<u8>) -> Option<HandshakePayloadView> {
    if bytes.len() < 8 || le_value(bytes.subrange(0, 8)) + 40 > bytes.len() {
        None
    } else {
        let size = le_value(bytes.subrange(0, 8)) as int;
        let name = bytes.subrange(8, 8 + size);
        if valid_utf8(name) {
            Some(
                HandshakePayloadView {
                    device_name: decode_utf8(name),
                    public_key: bytes.subrange(8 + size, 40 + size),
                },
            )
        } else {
            None
        }
    }
}

/// A payload that was written is read back as it was.
pub proof fn lemma_payload_parses(payload: HandshakePayloadView)
    requires
        payload.public_key.len() == 32,
        encode_utf8(payload.device_name).len() <= u64::MAX,
    ensures
        payload_parsed(payload_bytes(payload)) == Some(payload),
{
    broadcast use vstd::utf8::encode_utf8_valid_utf8, vstd::utf8::encode_utf8_decode_utf8;

    let name = encode_utf8(payload.device_name);
    let all = payload_bytes(payload);
    lemma_pow256_values();
    lemma_le_bytes_len(name.len(), 8);
    lemma_le_value_of_bytes(name.len(), 8);
    assert(all.subrange(0, 8) =~= le_bytes(name.len(), 8));
    assert(all.subrange(8, 8 + name.len() as int) =~= name);
    assert(all.subrange(8 + name.len() as int, 40 + name.len() as int) =~= payload.public_key);
}

/// Writes a payload.
pub fn write_payload(payload: &HandshakePayload) -> (r: Vec<u8>)
    ensures
        r@ == payload_bytes(payload@),
{
    let mut out: Vec<u8> = Vec::new();
    let name = payload.device_name.as_str().as_bytes();
    push_le(&mut out, name.len() as u64, 8);
    push_all(&mut out, name);
    push_all(&mut out, payload.public_key.as_slice());
    out
}

/// Reads a payload.
pub fn read_payload(bytes: &[u8]) -> (r: Option<HandshakePayload>)
    ensures
        match payload_parsed(bytes@) {
            Some(payload) => r matches Some(got) && got@ == payload,
            None => r is None,
        },
{
    if bytes.len() < 40 {
        return None;
    }
    let size: u64 = read_le(bytes, 0, 8);
    if size > (bytes.len() - 40) as u64 {
        return None;
    }
    let at: usize = 8 + size as usize;
    let name = copy_range(bytes, 8, at);
    let public_key: [u8; 32] = take_array::<32>(bytes, at);
    match utf8_string(name) {
        Some(device_name) => Some(HandshakePayload { device_name, public_key }),
        None => None,
    }
}

/// Takes in the handshake packets of other members.
pub struct HandshakeManager {
    identity: RingIdentity,
}

impl HandshakeManager {
    /// The identity that this manager answers for.
    pub closed spec fn identity(&self) -> crate::identity::RingIdentityView {
        self.identity@
    }

    /// A manager that answers for this identity.
    pub fn new(identity: RingIdentity) -> (r: Self)
        ensures
            r.identity() == identity@,
    {
        HandshakeManager { identity }
    }

    /// The key under which this ring seals its `Hello`.
    pub fn session_key(&self) -> (r: [u8; 32])
        ensures
            r@ == handshake_key(self.identity().identity_key),
    {
        let salt: [u8; 32] = [0u8; 32];
        proof {
            assert(salt@ =~= Seq::new(32, |i: int| 0u8));
        }
        hkdf_sha256(
            salt.as_slice(),
            self.identity.identity_key.as_slice(),
            HANDSHAKE_CONTEXT.as_bytes(),
        )
    }

    /// Opens a `Hello` and reads what it carries.
    ///
    /// `Unauthorized` where the packet is not signed by the ring's identity key
    /// or does not open under the ring's handshake key. Else the payload, or
    /// nothing where what the packet carries is no payload.
    pub fn open_hello(&self, packet: &WirePacket) -> (r: Result<
        Option<HandshakePayload>,
        HandshakeError,
    >)
        ensures
            match opened_wire(
                packet@,
                handshake_key(self.identity().identity_key),
                self.identity().public_key,
            ) {
                Err(e) => r matches Err(got) && got == HandshakeError::Unauthorized,
                Ok(opened) => match payload_parsed(opened.1) {
                    Some(payload) => r matches Ok(Some(got)) && got@ == payload,
                    None => r matches Ok(None),
                },
            },
    {
        let key = self.session_key();
        match packet.open(&key, &self.identity.public_key) {
            Err(e) => Err(HandshakeError::Unauthorized),
            Ok(opened) => Ok(read_payload(opened.1.as_slice())),
        }
    }

    /// Takes in a packet. A `Hello` is let through only if it is the ring's;
    /// packets of other types are passed over.
    pub fn handle_packet(&self, packet: WirePacket) -> (r: Result<(), HandshakeError>)
        ensures
            r is Ok <==> (packet@.header.packet_type != PacketType::Hello || opened_wire(
                packet@,
                handshake_key(self.identity().identity_key),
                self.identity().public_key,
            ) is Ok),
            r matches Err(e) ==> e == HandshakeError::Unauthorized,
    {
        match packet.header.packet_type {
            PacketType::Hello => match self.open_hello(&packet) {
                Ok(payload) => Ok(()),
                Err(e) => Err(e),
            },
            _ => Ok(()),
        }
    }
}

} // verus!
