//! What the transports have in common: who a peer is and how it is reached.

use crate::events::SocketAddress;
use vstd::prelude::*;

verus! {

/// The identity of a peer on a transport: its public key, as text.
#[derive(Debug, Clone, PartialEq, Eq, Hash)]
pub struct PeerId(pub String);

/// How a peer is reached.
#[derive(Clone, Copy, Debug, PartialEq, Eq, Structural)]
pub enum TransportType {
    Mdns,
    Ble,
    TcpDirect,
}

/// A peer as a transport knows it.
#[derive(Debug, Clone)]
pub struct Peer {
    pub id: PeerId,
    pub name: String,
    pub transport_type: TransportType,
    /// Where the peer listens, for transports that have addresses.
    pub address: Option<SocketAddress>,
    pub is_active: bool,
    /// Seconds since 1970 at which the peer was last heard of.
    pub last_seen: u64,
}

} // verus!
