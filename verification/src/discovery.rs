//! The peer directory: which members of the ring are on the network, and where.
//!
//! A device advertises a presence record and resolves the records of others.
//! A record is admitted only if it carries the ring's discovery token; what is
//! admitted is kept under the peer's device id, so a peer that changes its
//! address or its name keeps its one entry.

use crate::events::{IpAddress, PeerInfo, PeerInfoView, SocketAddress};
use crate::text::{chars_of_str, find_text, has_text, remove_text, string_of_chars, trim_text};
use crate::text::{char_is_alphanumeric, hex_text, lemma_hex_text_injective, push_char};
use crate::text::{contains_text, is_alphanumeric, position_of, trimmed, without};
use dashmap::DashMap;
use vstd::prelude::*;
use vstd::string::*;

verus! {

/// The service type under which members advertise.
pub const SERVICE_TYPE: &'static str = "_rustclip._tcp.local.";

/// The port on which every member listens.
pub const TCP_PORT: u16 = 5566;

/// The protocol version that a record carries.
pub const PROTOCOL_VERSION: &'static str = "1.0";

/// What an instance name starts with; the device id follows.
pub const INSTANCE_PREFIX: &'static str = "rustclip-";

/// The name of a peer whose record carries none.
pub const UNKNOWN_NAME: &'static str = "Unknown";

/// `dashmap::DashMap`, of which nothing is seen but through the functions
/// below.
#[verifier::external_type_specification]
#[verifier::external_body]
#[verifier::reject_recursive_types(K)]
#[verifier::reject_recursive_types(V)]
#[verifier::reject_recursive_types(S)]
pub struct ExDashMap<K, V, S>(DashMap<K, V, S>);

/// The concurrent table that holds the directory.
pub type PeerMap = DashMap<String, PeerInfo>;

/// What a table holds: each key with the peer stored under it.
pub uninterp spec fn peer_entries(table: DashMap<String, PeerInfo>) -> Map<Seq<char>, PeerInfoView>;

/// The table with nothing in it.
pub open spec fn no_entries() -> Map<Seq<char>, PeerInfoView> {
    Map::empty()
}

/// `DashMap::new`.
/// Claimed: the table is empty.
#[verifier::external_body]
pub(crate) fn table_new() -> (r: DashMap<String, PeerInfo>)
    ensures
        peer_entries(r) == no_entries(),
{
    DashMap::new()
}

/// `DashMap::insert`, on a table that nobody else holds.
/// Claimed: the value stands under the key afterwards, nothing else changes,
/// what stood there before is returned, and the call does not unwind.
#[verifier::external_body]
pub(crate) fn table_insert(table: &mut DashMap<String, PeerInfo>, key: String, value: PeerInfo) -> (r:
    Option<PeerInfo>)
    ensures
        peer_entries(*final(table)) == peer_entries(*old(table)).insert(key@, value@),
        match r {
            Some(before) => peer_entries(*old(table)).contains_key(key@) && before@ == peer_entries(
                *old(table),
            )[key@],
            None => !peer_entries(*old(table)).contains_key(key@),
        },
    no_unwind
{
    table.insert(key, value)
}

/// `DashMap::remove`, on a table that nobody else holds.
/// Claimed: nothing stands under the key afterwards, nothing else changes,
/// what stood there before is returned, and the call does not unwind.
#[verifier::external_body]
pub(crate) fn table_remove(table: &mut DashMap<String, PeerInfo>, key: &str) -> (r: Option<PeerInfo>)
    ensures
        peer_entries(*final(table)) == peer_entries(*old(table)).remove(key@),
        match r {
            Some(before) => peer_entries(*old(table)).contains_key(key@) && before@ == peer_entries(
                *old(table),
            )[key@],
            None => !peer_entries(*old(table)).contains_key(key@),
        },
    no_unwind
{
    match table.remove(key) {
        Some(pair) => Some(pair.1),
        None => None,
    }
}

/// `DashMap::clear`, on a table that nobody else holds.
/// Claimed: the table is empty afterwards, and the call does not unwind.
#[verifier::external_body]
pub(crate) fn table_clear(table: &mut DashMap<String, PeerInfo>)
    ensures
        peer_entries(*final(table)) == no_entries(),
    no_unwind
{
    table.clear()
}

/// `DashMap::get`, with the value copied out.
/// Claimed: the copy is what stands under the key, and nothing comes out where
/// nothing stands there.
#[verifier::external_body]
pub(crate) fn table_get(table: &DashMap<String, PeerInfo>, key: &str) -> (r: Option<PeerInfo>)
    ensures
        match r {
            Some(found) => peer_entries(*table).contains_key(key@) && found@ == peer_entries(
                *table,
            )[key@],
            None => !peer_entries(*table).contains_key(key@),
        },
{
    match table.get(key) {
        Some(entry) => Some(entry.value().clone()),
        None => None,
    }
}

/// `DashMap::contains_key`.
/// Claimed: the answer is whether something stands under the key.
#[verifier::external_body]
pub(crate) fn table_contains_key(table: &DashMap<String, PeerInfo>, key: &str) -> (r: bool)
    ensures
        r == peer_entries(*table).contains_key(key@),
{
    table.contains_key(key)
}

/// `DashMap::len`.
/// Claimed: the number of keys.
#[verifier::external_body]
pub(crate) fn table_len(table: &DashMap<String, PeerInfo>) -> (r: usize)
    ensures
        r == peer_entries(*table).dom().len(),
{
    table.len()
}

/// `DashMap::iter`, with each key and value copied out.
/// Claimed: every key of the table comes out once, with the value that stands
/// under it, in an order that nothing is said of.
#[verifier::external_body]
pub(crate) fn table_pairs(table: &DashMap<String, PeerInfo>) -> (r: Vec<(String, PeerInfo)>)
    ensures
        forall|i: int|
            0 <= i < r@.len() ==> peer_entries(*table).contains_key(#[trigger] r@[i].0@)
                && peer_entries(*table)[r@[i].0@] == r@[i].1@,
        forall|i: int, j: int| 0 <= i < j < r@.len() ==> r@[i].0@ != r@[j].0@,
        forall|key: Seq<char>| #[trigger]
            peer_entries(*table).contains_key(key) ==> exists|i: int|
                0 <= i < r@.len() && r@[i].0@ == key,
{
    table.iter().map(|entry| (entry.key().clone(), entry.value().clone())).collect()
}

/// The directory of peers, keyed by device id.
pub struct PeerDirectory {
    table: DashMap<String, PeerInfo>,
}

impl View for PeerDirectory {
    type V = Map<Seq<char>, PeerInfoView>;

    closed spec fn view(&self) -> Map<Seq<char>, PeerInfoView> {
        peer_entries(self.table)
    }
}

/// Whether every peer of `peers` stands under its own device id.
pub open spec fn keyed_by_device_id(peers: Map<Seq<char>, PeerInfoView>) -> bool {
    forall|id: Seq<char>| peers.contains_key(id) ==> (#[trigger] peers[id]).device_id == id
}

impl PeerDirectory {
    #[verifier::type_invariant]
    spec fn table_keyed_by_device_id(self) -> bool {
        keyed_by_device_id(peer_entries(self.table))
    }

    /// Every peer stands under its own device id. This holds of every
    /// directory.
    pub open spec fn well_formed(&self) -> bool {
        keyed_by_device_id(self@)
    }

    /// A directory with no peer in it.
    pub fn new() -> (r: Self)
        ensures
            r@ == no_entries(),
            r.well_formed(),
    {
        PeerDirectory { table: table_new() }
    }

    /// Puts `peer` under its device id, in place of what stood there.
    pub fn insert(&mut self, peer: PeerInfo) -> (r: Option<PeerInfo>)
        ensures
            final(self)@ == old(self)@.insert(peer@.device_id, peer@),
            final(self).well_formed(),
            match r {
                Some(before) => old(self)@.contains_key(peer@.device_id) && before@ == old(
                    self,
                )@[peer@.device_id],
                None => !old(self)@.contains_key(peer@.device_id),
            },
    {
        proof {
            use_type_invariant(&*self);
        }
        let key = peer.device_id.clone();
        table_insert(&mut self.table, key, peer)
    }

    /// Takes out the peer with this device id.
    pub fn remove(&mut self, device_id: &str) -> (r: Option<PeerInfo>)
        ensures
            final(self)@ == old(self)@.remove(device_id@),
            final(self).well_formed(),
            match r {
                Some(before) => old(self)@.contains_key(device_id@) && before@ == old(
                    self,
                )@[device_id@],
                None => !old(self)@.contains_key(device_id@),
            },
    {
        proof {
            use_type_invariant(&*self);
        }
        table_remove(&mut self.table, device_id)
    }

    /// Takes out every peer: the directory starts again with the services.
    pub fn clear(&mut self)
        ensures
            final(self)@ == no_entries(),
            final(self).well_formed(),
    {
        table_clear(&mut self.table)
    }

    /// The peer with this device id.
    pub fn get(&self, device_id: &str) -> (r: Option<PeerInfo>)
        ensures
            match r {
                Some(found) => self@.contains_key(device_id@) && found@ == self@[device_id@],
                None => !self@.contains_key(device_id@),
            },
    {
        table_get(&self.table, device_id)
    }

    /// Whether a peer with this device id is known.
    pub fn contains_key(&self, device_id: &str) -> (r: bool)
        ensures
            r == self@.contains_key(device_id@),
    {
        table_contains_key(&self.table, device_id)
    }

    /// How many peers are known.
    pub fn len(&self) -> (r: usize)
        ensures
            r == self@.dom().len(),
    {
        table_len(&self.table)
    }

    /// All peers, each once, in no particular order.
    pub fn peers(&self) -> (r: Vec<PeerInfo>)
        ensures
            forall|i: int|
                0 <= i < r@.len() ==> self@.contains_key(#[trigger] r@[i]@.device_id) && self@[r@[i]@.device_id]
                    == r@[i]@,
            forall|i: int, j: int| 0 <= i < j < r@.len() ==> r@[i]@.device_id != r@[j]@.device_id,
            forall|id: Seq<char>| #[trigger]
                self@.contains_key(id) ==> exists|i: int| 0 <= i < r@.len() && r@[i]@.device_id == id,
    {
        proof {
            use_type_invariant(self);
        }
        let pairs = table_pairs(&self.table);
        let mut out: Vec<PeerInfo> = Vec::new();
        let mut i: usize = 0;
        while i < pairs.len()
            invariant
                i <= pairs.len(),
                out@.len() == i,
                self.well_formed(),
                forall|key: Seq<char>| #[trigger]
                    self@.contains_key(key) ==> exists|k: int|
                        0 <= k < pairs@.len() && pairs@[k].0@ == key,
                forall|k: int|
                    0 <= k < pairs@.len() ==> self@.contains_key(#[trigger] pairs@[k].0@)
                        && self@[pairs@[k].0@] == pairs@[k].1@,
                forall|k: int| 0 <= k < i ==> (#[trigger] out@[k])@ == pairs@[k].1@,
            decreases pairs.len() - i,
        {
            out.push(pairs[i].1.clone());
            i = i + 1;
        }
        proof {
            assert(forall|k: int|
                0 <= k < out@.len() ==> (#[trigger] out@[k])@.device_id == pairs@[k].0@);
            assert forall|id: Seq<char>| #[trigger] self@.contains_key(id) implies exists|i: int|
                0 <= i < out@.len() && out@[i]@.device_id == id by {
                let k = choose|k: int| 0 <= k < pairs@.len() && pairs@[k].0@ == id;
                assert(out@[k]@.device_id == pairs@[k].0@);
            }
        }
        out
    }
}

/// What this device knows of itself when it resolves the records of others.
#[derive(Debug)]
pub struct LocalPresence {
    /// The instance name under which this device advertises.
    pub instance_name: String,
    /// The discovery token of the ring this device belongs to.
    pub discovery_id: String,
}

/// The presence record that a device publishes.
#[derive(Debug)]
pub struct Announcement {
    pub service_type: String,
    pub instance_name: String,
    pub host_name: String,
    pub port: u16,
    pub version: String,
    pub ring_id: String,
    pub device_name: String,
    pub device_id: String,
}

/// A presence record that was resolved on the network, as it was received:
/// each property as the text `key=value` that it is shown as, or nothing where
/// the record has no such property, and the addresses in the order in which
/// the record gave them.
#[derive(Debug)]
pub struct PresenceRecord {
    pub fullname: String,
    pub ring_id: Option<String>,
    pub device_name: Option<String>,
    pub device_id: Option<String>,
    pub addresses: Vec<IpAddress>,
    pub port: u16,
}

/// A resolved record as plain values.
pub struct PresenceRecordView {
    pub fullname: Seq<char>,
    pub ring_id: Option<Seq<char>>,
    pub device_name: Option<Seq<char>>,
    pub device_id: Option<Seq<char>>,
    pub addresses: Seq<IpAddress>,
    pub port: u16,
}

impl View for PresenceRecord {
    type V = PresenceRecordView;

    open spec fn view(&self) -> PresenceRecordView {
        PresenceRecordView {
            fullname: self.fullname@,
            ring_id: crate::primitives::chars_of(self.ring_id),
            device_name: crate::primitives::chars_of(self.device_name),
            device_id: crate::primitives::chars_of(self.device_id),
            addresses: self.addresses@,
            port: self.port,
        }
    }
}

/// What a resolved record did to the directory.
#[derive(Clone, Copy, Debug, PartialEq, Eq, Structural)]
pub enum Resolution {
    /// The record is this device's own.
    Own,
    /// The record carries no discovery token, or that of another ring.
    Stranger,
    /// The record is a member's, but offers no address.
    Unreachable,
    /// The peer was known, with this address and this name.
    Known,
    /// The peer was known, and its address or its name has changed.
    Updated,
    /// The peer is new.
    Added,
}

impl Resolution {
    /// Whether the directory is other than it was.
    pub open spec fn changed(self) -> bool {
        self is Updated || self is Added
    }

    /// Whether the directory is other than it was.
    pub fn directory_changed(self) -> (r: bool)
        ensures
            r == self.changed(),
    {
        match self {
            Resolution::Updated => true,
            Resolution::Added => true,
            _ => false,
        }
    }
}

/// What is kept of a device name: letters, digits, hyphens and underscores.
pub open spec fn kept_in_name(c: char) -> bool {
    is_alphanumeric(c) || c == '-' || c == '_'
}

/// The first IPv4 address among `addresses`.
pub open spec fn first_ipv4(addresses: Seq<IpAddress>) -> Option<IpAddress>
    decreases addresses.len(),
{
    if addresses.len() == 0 {
        None
    } else if addresses[0] is V4 {
        Some(addresses[0])
    } else {
        first_ipv4(addresses.drop_first())
    }
}

/// The address at which a peer is reached: the first IPv4 address that its
/// record offers, or the first address of any kind where it offers no IPv4.
pub open spec fn preferred_address(addresses: Seq<IpAddress>) -> Option<IpAddress> {
    match first_ipv4(addresses) {
        Some(address) => Some(address),
        None => if addresses.len() > 0 {
            Some(addresses[0])
        } else {
            None
        },
    }
}

/// The value of a property shown as `shown`: the text without double quotes
/// and without the key and equals sign that it is shown with.
pub open spec fn property_value(shown: Seq<char>, key: Seq<char>) -> Seq<char> {
    without(without(shown, seq!['"']), key + seq!['='])
}

/// The discovery token that a record carries.
pub open spec fn record_token(record: PresenceRecordView) -> Option<Seq<char>> {
    match record.ring_id {
        Some(shown) => Some(property_value(trimmed(shown), "ring_id"@)),
        None => None,
    }
}

/// The name that a record gives its device, or `Unknown` where it gives none.
pub open spec fn record_name(record: PresenceRecordView) -> Seq<char> {
    match record.device_name {
        Some(shown) => property_value(shown, "device_name"@),
        None => UNKNOWN_NAME@,
    }
}

/// The device id under which a record's peer is kept: the one the record
/// carries, or the record's full name where it carries none.
pub open spec fn record_device_id(record: PresenceRecordView) -> Seq<char> {
    match record.device_id {
        Some(shown) => property_value(shown, "device_id"@),
        None => record.fullname,
    }
}

/// Whether a record is admitted by a device: it is not the device's own, and
/// it carries the token of the device's ring.
pub open spec fn admitted(instance_name: Seq<char>, discovery_id: Seq<char>, record: PresenceRecordView) -> bool {
    !contains_text(record.fullname, instance_name) && record_token(record) == Some(discovery_id)
}

/// The peer that an admitted record with an address stands for.
pub open spec fn record_peer(record: PresenceRecordView, now: u64) -> Option<PeerInfoView> {
    match preferred_address(record.addresses) {
        Some(address) => Some(
            PeerInfoView {
                name: record_name(record),
                ip: SocketAddress { ip: address, port: record.port },
                device_id: record_device_id(record),
                last_seen: now,
            },
        ),
        None => None,
    }
}

/// What resolving `record` at time `now` says of a directory that holds
/// `peers`.
pub open spec fn resolution(
    peers: Map<Seq<char>, PeerInfoView>,
    instance_name: Seq<char>,
    discovery_id: Seq<char>,
    record: PresenceRecordView,
    now: u64,
) -> Resolution {
    if contains_text(record.fullname, instance_name) {
        Resolution::Own
    } else if record_token(record) != Some(discovery_id) {
        Resolution::Stranger
    } else {
        match record_peer(record, now) {
            None => Resolution::Unreachable,
            Some(peer) => if !peers.contains_key(peer.device_id) {
                Resolution::Added
            } else if peers[peer.device_id].ip != peer.ip || peers[peer.device_id].name
                != peer.name {
                Resolution::Updated
            } else {
                Resolution::Known
            },
        }
    }
}

/// What a directory that holds `peers` holds after `record` was resolved at
/// time `now`: a new or changed peer is put under its device id, and nothing
/// else is touched.
pub open spec fn resolved_into(
    peers: Map<Seq<char>, PeerInfoView>,
    instance_name: Seq<char>,
    discovery_id: Seq<char>,
    record: PresenceRecordView,
    now: u64,
) -> Map<Seq<char>, PeerInfoView> {
    if resolution(peers, instance_name, discovery_id, record, now).changed() {
        peers.insert(record_device_id(record), record_peer(record, now)->0)
    } else {
        peers
    }
}

/// The device id that the full name of a withdrawn record names: what stands
/// between the first `rustclip-` and the next dot, or the end.
pub open spec fn withdrawn_id(fullname: Seq<char>) -> Option<Seq<char>> {
    match position_of(fullname, INSTANCE_PREFIX@, 0) {
        None => None,
        Some(at) => {
            let rest = fullname.subrange(at + INSTANCE_PREFIX@.len(), fullname.len() as int);
            match position_of(rest, seq!['.'], 0) {
                Some(end) => Some(rest.subrange(0, end)),
                None => Some(rest),
            }
        },
    }
}

/// What a directory that holds `peers` holds after the record named
/// `fullname` was withdrawn.
pub open spec fn withdrawn_from(peers: Map<Seq<char>, PeerInfoView>, fullname: Seq<char>) -> Map<
    Seq<char>,
    PeerInfoView,
> {
    match withdrawn_id(fullname) {
        Some(id) => peers.remove(id),
        None => peers,
    }
}

/// A record that offers an IPv4 address is reached over IPv4, at the first
/// such address it offers, whatever else it offers and in whatever order. A
/// record with no IPv4 address is reached at the first address it offers, and
/// only a record with no address is not reached at all.
pub proof fn lemma_ipv4_is_preferred(addresses: Seq<IpAddress>)
    ensures
        (exists|i: int| 0 <= i < addresses.len() && addresses[i] is V4) ==> exists|i: int|
            0 <= i < addresses.len() && addresses[i] is V4 && preferred_address(addresses) == Some(
                addresses[i],
            ) && forall|j: int| 0 <= j < i ==> !(addresses[j] is V4),
        (forall|i: int| 0 <= i < addresses.len() ==> !(addresses[i] is V4)) && addresses.len() > 0
            ==> preferred_address(addresses) == Some(addresses[0]),
        preferred_address(addresses) is None <==> addresses.len() == 0,
    decreases addresses.len(),
{
    if addresses.len() > 0 && !(addresses[0] is V4) {
        let rest = addresses.drop_first();
        lemma_ipv4_is_preferred(rest);
        if exists|i: int| 0 <= i < addresses.len() && addresses[i] is V4 {
            let i = choose|i: int| 0 <= i < addresses.len() && addresses[i] is V4;
            assert(rest[i - 1] is V4);
            let k = choose|k: int|
                0 <= k < rest.len() && rest[k] is V4 && preferred_address(rest) == Some(rest[k])
                    && forall|j: int| 0 <= j < k ==> !(rest[j] is V4);
            assert forall|j: int| 0 <= j < k + 1 implies !(addresses[j] is V4) by {
                if j > 0 {
                    assert(rest[j - 1] == addresses[j]);
                }
            }
        } else {
            assert(forall|i: int| 0 <= i < rest.len() ==> !(rest[i] is V4));
            lemma_no_ipv4(rest);
        }
    }
}

proof fn lemma_no_ipv4(addresses: Seq<IpAddress>)
    requires
        forall|i: int| 0 <= i < addresses.len() ==> !(addresses[i] is V4),
    ensures
        first_ipv4(addresses) is None,
    decreases addresses.len(),
{
    if addresses.len() > 0 {
        let rest = addresses.drop_first();
        assert(forall|i: int| 0 <= i < rest.len() ==> !(rest[i] is V4));
        lemma_no_ipv4(rest);
    }
}

/// Two records of one device, resolved one after the other, leave one entry
/// for the device, and it holds what the second record says: the later
/// address, the later name. What the directory held of other devices is as it
/// was.
pub proof fn lemma_upsert_keeps_one_entry(
    peers: Map<Seq<char>, PeerInfoView>,
    instance_name: Seq<char>,
    discovery_id: Seq<char>,
    first: PresenceRecordView,
    second: PresenceRecordView,
    earlier: u64,
    later: u64,
)
    requires
        keyed_by_device_id(peers),
        admitted(instance_name, discovery_id, first),
        admitted(instance_name, discovery_id, second),
        record_device_id(first) == record_device_id(second),
        record_peer(first, earlier) is Some,
        record_peer(second, later) is Some,
    ensures
        ({
            let once = resolved_into(peers, instance_name, discovery_id, first, earlier);
            let twice = resolved_into(once, instance_name, discovery_id, second, later);
            let id = record_device_id(second);
            &&& twice.dom() == peers.dom().insert(id)
            &&& twice[id].ip == record_peer(second, later)->0.ip
            &&& twice[id].name == record_peer(second, later)->0.name
            &&& twice[id].device_id == id
            &&& forall|other: Seq<char>| other != id && peers.contains_key(other) ==> twice[other] == peers[other]
            &&& peers == no_entries() ==> twice.dom() == set![id]
        }),
{
}

/// A device of another ring is not seen: whatever its record says, and however
/// often it is resolved, the directory is as it was.
pub proof fn lemma_stranger_is_invisible(
    peers: Map<Seq<char>, PeerInfoView>,
    instance_name: Seq<char>,
    discovery_id: Seq<char>,
    record: PresenceRecordView,
    now: u64,
)
    requires
        record_token(record) != Some(discovery_id),
    ensures
        resolved_into(peers, instance_name, discovery_id, record, now) == peers,
{
}

/// A device of a ring with another ring id is not seen, whatever else its
/// record says: the tokens that the two rings advertise differ.
pub proof fn lemma_other_ring_is_invisible(
    peers: Map<Seq<char>, PeerInfoView>,
    instance_name: Seq<char>,
    ring_id: Seq<u8>,
    other_ring_id: Seq<u8>,
    record: PresenceRecordView,
    now: u64,
)
    requires
        ring_id != other_ring_id,
        record_token(record) == Some(hex_text(other_ring_id)),
    ensures
        resolved_into(peers, instance_name, hex_text(ring_id), record, now) == peers,
{
    if hex_text(ring_id) == hex_text(other_ring_id) {
        lemma_hex_text_injective(ring_id, other_ring_id);
    }
    lemma_stranger_is_invisible(peers, instance_name, hex_text(ring_id), record, now);
}

/// Resolving keeps every peer under its own device id.
pub proof fn lemma_resolve_keeps_keys(
    peers: Map<Seq<char>, PeerInfoView>,
    instance_name: Seq<char>,
    discovery_id: Seq<char>,
    record: PresenceRecordView,
    now: u64,
)
    requires
        keyed_by_device_id(peers),
    ensures
        keyed_by_device_id(resolved_into(peers, instance_name, discovery_id, record, now)),
{
}

/// A device name with only what is kept of it.
pub open spec fn sanitized(name: Seq<char>) -> Seq<char> {
    name.filter(|c: char| kept_in_name(c))
}

/// Takes out of a device name whatever is no letter, digit, hyphen or
/// underscore, and keeps the rest in its order.
pub fn sanitize_device_name(name: &str) -> (r: String)
    ensures
        r@ == sanitized(name@),
{
    let chars = chars_of_str(name);
    let mut out = String::new();
    let mut i: usize = 0;
    proof {
        reveal(Seq::filter);
    }
    while i < chars.len()
        invariant
            i <= chars.len(),
            chars@ == name@,
            out@ == sanitized(chars@.take(i as int)),
        decreases chars.len() - i,
    {
        let c = chars[i];
        let keep = char_is_alphanumeric(c) || c == '-' || c == '_';
        proof {
            reveal(Seq::filter);
            let longer = chars@.take(i + 1);
            assert(longer.drop_last() =~= chars@.take(i as int));
        }
        if keep {
            push_char(&mut out, c);
        }
        i = i + 1;
    }
    proof {
        assert(chars@.take(chars@.len() as int) =~= chars@);
    }
    out
}

/// The address at which to reach a peer that offers `addresses`.
pub fn select_address(addresses: &[IpAddress]) -> (r: Option<IpAddress>)
    ensures
        r == preferred_address(addresses@),
{
    let mut i: usize = 0;
    proof {
        assert(addresses@.subrange(0, addresses@.len() as int) =~= addresses@);
    }
    while i < addresses.len()
        invariant
            i <= addresses.len(),
            first_ipv4(addresses@.subrange(i as int, addresses@.len() as int)) == first_ipv4(
                addresses@,
            ),
        decreases addresses.len() - i,
    {
        if addresses[i].is_ipv4() {
            return Some(addresses[i]);
        }
        proof {
            assert(addresses@.subrange(i as int, addresses@.len() as int).drop_first()
                =~= addresses@.subrange(i + 1, addresses@.len() as int));
        }
        i = i + 1;
    }
    if addresses.len() > 0 {
        Some(addresses[0])
    } else {
        None
    }
}

/// The value of a property shown as `shown` under `key`.
pub fn clean_property(shown: &[char], key: &str) -> (r: Vec<char>)
    ensures
        r@ == property_value(shown@, key@),
{
    let mut quote: Vec<char> = Vec::new();
    quote.push('"');
    let mut shown_key = chars_of_str(key);
    shown_key.push('=');
    proof {
        assert(shown_key@ =~= key@ + seq!['=']);
    }
    let unquoted = remove_text(shown, quote.as_slice());
    remove_text(unquoted.as_slice(), shown_key.as_slice())
}

/// The discovery token that a record carries.
pub fn token_of(record: &PresenceRecord) -> (r: Option<String>)
    ensures
        crate::primitives::chars_of(r) == record_token(record@),
{
    match &record.ring_id {
        None => None,
        Some(shown) => {
            let chars = chars_of_str(shown.as_str());
            let trimmed = trim_text(chars.as_slice());
            let value = clean_property(trimmed.as_slice(), "ring_id");
            Some(string_of_chars(value.as_slice()))
        },
    }
}

/// The name that a record gives its device.
pub fn name_of(record: &PresenceRecord) -> (r: String)
    ensures
        r@ == record_name(record@),
{
    match &record.device_name {
        None => UNKNOWN_NAME.to_owned(),
        Some(shown) => {
            let chars = chars_of_str(shown.as_str());
            let value = clean_property(chars.as_slice(), "device_name");
            string_of_chars(value.as_slice())
        },
    }
}

/// The device id under which a record's peer is kept.
pub fn device_id_of_record(record: &PresenceRecord) -> (r: String)
    ensures
        r@ == record_device_id(record@),
{
    match &record.device_id {
        None => record.fullname.clone(),
        Some(shown) => {
            let chars = chars_of_str(shown.as_str());
            let value = clean_property(chars.as_slice(), "device_id");
            string_of_chars(value.as_slice())
        },
    }
}

/// The instance name under which the device with this id advertises.
pub open spec fn instance_name_of(device_id: Seq<char>) -> Seq<char> {
    INSTANCE_PREFIX@ + device_id
}

impl LocalPresence {
    /// What the device with this id, in the ring with this token, knows of
    /// itself.
    pub fn new(device_id: &str, discovery_id: &str) -> (r: Self)
        ensures
            r.instance_name@ == instance_name_of(device_id@),
            r.discovery_id@ == discovery_id@,
    {
        let mut instance_name = INSTANCE_PREFIX.to_owned();
        instance_name.append(device_id);
        LocalPresence { instance_name, discovery_id: discovery_id.to_owned() }
    }
}

/// The presence record of the device with this id and this name, in the ring
/// with this token: advertised under an instance name made of the device id,
/// with the protocol version, the token, the name and the id as properties.
pub fn announcement(discovery_id: &str, device_id: &str, device_name: &str) -> (r: Announcement)
    ensures
        r.service_type@ == SERVICE_TYPE@,
        r.instance_name@ == instance_name_of(device_id@),
        r.host_name@ == instance_name_of(device_id@) + ".local."@,
        r.port == TCP_PORT,
        r.version@ == PROTOCOL_VERSION@,
        r.ring_id@ == discovery_id@,
        r.device_name@ == device_name@,
        r.device_id@ == device_id@,
{
    let mut instance_name = INSTANCE_PREFIX.to_owned();
    instance_name.append(device_id);
    let mut host_name = instance_name.clone();
    host_name.append(".local.");
    Announcement {
        service_type: SERVICE_TYPE.to_owned(),
        instance_name,
        host_name,
        port: TCP_PORT,
        version: PROTOCOL_VERSION.to_owned(),
        ring_id: discovery_id.to_owned(),
        device_name: device_name.to_owned(),
        device_id: device_id.to_owned(),
    }
}

/// The device id that the full name of a withdrawn record names.
pub fn withdrawn_device_id(fullname: &str) -> (r: Option<String>)
    ensures
        crate::primitives::chars_of(r) == withdrawn_id(fullname@),
{
    let chars = chars_of_str(fullname);
    let prefix = chars_of_str(INSTANCE_PREFIX);
    match find_text(chars.as_slice(), prefix.as_slice(), 0) {
        None => None,
        Some(at) => {
            let total: usize = chars.len();
            proof {
                assert(at + prefix@.len() <= total);
            }
            let start: usize = at + prefix.len();
            let mut rest: Vec<char> = Vec::new();
            let mut i: usize = start;
            while i < chars.len()
                invariant
                    start <= i <= chars.len(),
                    rest@ == chars@.subrange(start as int, i as int),
                decreases chars.len() - i,
            {
                rest.push(chars[i]);
                i = i + 1;
            }
            let mut dot: Vec<char> = Vec::new();
            dot.push('.');
            match find_text(rest.as_slice(), dot.as_slice(), 0) {
                None => Some(string_of_chars(rest.as_slice())),
                Some(end) => {
                    let mut id: Vec<char> = Vec::new();
                    let mut k: usize = 0;
                    while k < end
                        invariant
                            k <= end <= rest.len(),
                            id@ == rest@.subrange(0, k as int),
                        decreases end - k,
                    {
                        id.push(rest[k]);
                        k = k + 1;
                    }
                    Some(string_of_chars(id.as_slice()))
                },
            }
        },
    }
}

impl PeerDirectory {
    /// Takes in a presence record that was resolved at time `now`.
    ///
    /// The device's own record and the records of strangers are passed over,
    /// and so is a member's record that offers no address. A member that is
    /// new is added; one that is known is replaced where its address or its
    /// name has changed, and left as it is where neither has. The result says
    /// which it was; where it says that the directory changed, the change is to
    /// be made known.
    pub fn on_resolved(&mut self, local: &LocalPresence, record: &PresenceRecord, now: u64) -> (r:
        Resolution)
        ensures
            r == resolution(old(self)@, local.instance_name@, local.discovery_id@, record@, now),
            final(self)@ == resolved_into(
                old(self)@,
                local.instance_name@,
                local.discovery_id@,
                record@,
                now,
            ),
            final(self).well_formed(),
    {
        proof {
            use_type_invariant(&*self);
        }
        let fullname = chars_of_str(record.fullname.as_str());
        let own = chars_of_str(local.instance_name.as_str());
        if has_text(fullname.as_slice(), own.as_slice()) {
            return Resolution::Own;
        }
        let member = match token_of(record) {
            Some(token) => token == local.discovery_id,
            None => false,
        };
        if !member {
            return Resolution::Stranger;
        }
        let address = match select_address(record.addresses.as_slice()) {
            Some(address) => address,
            None => {
                return Resolution::Unreachable;
            },
        };
        let peer = PeerInfo {
            name: name_of(record),
            ip: SocketAddress { ip: address, port: record.port },
            device_id: device_id_of_record(record),
            last_seen: now,
        };
        let r = match self.get(peer.device_id.as_str()) {
            None => Resolution::Added,
            Some(known) => if known.ip != peer.ip || known.name != peer.name {
                Resolution::Updated
            } else {
                Resolution::Known
            },
        };
        if r.directory_changed() {
            self.insert(peer);
        }
        r
    }

    /// Takes out the peer whose presence record, named `fullname`, was
    /// withdrawn. Says whether the directory changed.
    pub fn on_removed(&mut self, fullname: &str) -> (r: bool)
        ensures
            final(self)@ == withdrawn_from(old(self)@, fullname@),
            r == (withdrawn_id(fullname@) matches Some(id) && old(self)@.contains_key(id)),
            final(self).well_formed(),
    {
        proof {
            use_type_invariant(&*self);
        }
        match withdrawn_device_id(fullname) {
            None => false,
            Some(id) => {
                self.remove(id.as_str()).is_some()
            },
        }
    }

    /// Takes out the peer with this device id, to which content could not be
    /// sent: a peer that went away without withdrawing its record. Says whether
    /// the directory changed.
    pub fn on_send_failed(&mut self, device_id: &str) -> (r: bool)
        ensures
            final(self)@ == old(self)@.remove(device_id@),
            r == old(self)@.contains_key(device_id@),
            final(self).well_formed(),
    {
        self.remove(device_id).is_some()
    }
}

} // verus!
