//! The synchronisation engine: what the monitor sends and what the listener
//! writes.
//!
//! Two roles share the clipboard of the machine. The monitor reads it on a
//! timer and sends what is new. The listener takes frames from peers and
//! writes what they hold. Each decision is a step from the engine's state and
//! an event to the next state and an action; reading the clipboard, writing
//! it, waiting and sending are the caller's part.
//!
//! The fingerprint of everything that was sent or received is remembered, so
//! that content which a peer sent is not sent back. While the listener writes,
//! and for a settle delay after, the engine is busy and the monitor stands by.

use crate::clipboard::{encode_to_png, frame, hash_data, read_content};
use crate::clipboard::{content_bytes, content_parsed, fingerprint, fingerprinted_bytes, framed};
use crate::clipboard::{image_file, png_decode, png_decoded, write_content};
use crate::clipboard::{ClipContent, ClipContentView, ClipboardData, ClipboardDataView};
use crate::clipboard::MAX_PACKET_SIZE;
use crate::crypto::{opened_packet, sealed_packet, ChannelError, CryptoLayer};
use crate::crypto::{ENVELOPE_HEADER_LEN, NONCE_LEN};
use crate::primitives::{chacha_can_take, chacha_takes};
use crate::discovery::PeerDirectory;
use crate::events::SocketAddress;
use vstd::hash_map::StringHashMap;
use vstd::prelude::*;
use vstd::string::*;
use vstd::utf8::encode_utf8;

verus! {

/// Milliseconds between two readings of the clipboard by the monitor.
pub const POLL_INTERVAL_MS: u64 = 500;

/// Milliseconds that the listener waits, busy, before it writes.
pub const WRITE_DELAY_MS: u64 = 100;

/// Milliseconds that the engine stays busy after a write: the settle window,
/// after which the engine is told that the clipboard has settled.
pub const SETTLE_DELAY_MS: u64 = 500;

/// Milliseconds after which an attempt to reach a peer counts as failed.
pub const CONNECT_TIMEOUT_MS: u64 = 5_000;

/// The fingerprints of what was sent or received. Nothing is ever taken out.
pub struct RecentHashes {
    seen: StringHashMap<()>,
}

impl View for RecentHashes {
    type V = Set<Seq<char>>;

    closed spec fn view(&self) -> Set<Seq<char>> {
        self.seen@.dom()
    }
}

impl RecentHashes {
    /// A set with nothing in it.
    pub fn new() -> (r: Self)
        ensures
            r@ == Set::<Seq<char>>::empty(),
    {
        let r = RecentHashes { seen: StringHashMap::new() };
        r
    }

    /// Whether this fingerprint is in the set.
    pub fn contains(&self, hash: &str) -> (r: bool)
        ensures
            r == self@.contains(hash@),
    {
        self.seen.contains_key(hash)
    }

    /// Puts a fingerprint into the set.
    pub fn insert(&mut self, hash: String)
        ensures
            final(self)@ == old(self)@.insert(hash@),
    {
        self.seen.insert(hash, ());
    }
}

/// Why a frame from a peer was dropped.
#[derive(Clone, Copy, Debug, PartialEq, Eq, Structural)]
pub enum DropReason {
    /// The packet did not open.
    Channel(ChannelError),
    /// The packet opened, and what it held is no content.
    MalformedContent,
}

/// What the listener does with a frame.
#[derive(Debug, PartialEq, Eq)]
pub enum Inbound {
    /// Nothing: the frame is dropped, and the engine is as it was.
    Dropped(DropReason),
    /// Wait, write this to the clipboard, wait for it to settle, then tell the
    /// engine that it has settled.
    Write(ClipboardData),
    /// The content is an image that cannot be read: there is nothing to write,
    /// and the engine is to be told, after the same waits, that it has settled.
    Settle,
}

/// What the listener does with a frame, as plain values.
pub enum InboundView {
    Dropped(DropReason),
    Write(ClipboardDataView),
    Settle,
}

impl View for Inbound {
    type V = InboundView;

    open spec fn view(&self) -> InboundView {
        match self {
            Inbound::Dropped(reason) => InboundView::Dropped(*reason),
            Inbound::Write(data) => InboundView::Write(data@),
            Inbound::Settle => InboundView::Settle,
        }
    }
}

/// Why content was not made ready for sending.
#[derive(Clone, Copy, Debug, PartialEq, Eq, Structural)]
pub enum SendError {
    /// The packet was not sealed.
    Channel(ChannelError),
    /// The sealed packet is longer than a frame may be.
    FrameTooLarge,
}

/// The state of the engine, as plain values.
pub struct EngineView {
    /// The ring's shared secret.
    pub key: Seq<u8>,
    /// Fingerprints of what was sent or received.
    pub recent: Set<Seq<char>>,
    /// Fingerprint of the text that the monitor saw last, or empty.
    pub last_text: Seq<char>,
    /// Fingerprint of the image that the monitor saw last, or empty.
    pub last_image: Seq<char>,
    /// Whether the monitor has looked at the clipboard once.
    pub primed: bool,
    /// Whether the listener is writing, or has written and not yet settled.
    pub busy: bool,
    /// Whether the operator has paused the monitor.
    pub paused: bool,
}

/// The state of the engine.
pub struct SyncEngine {
    crypto: CryptoLayer,
    recent: RecentHashes,
    last_text_hash: String,
    last_image_hash: String,
    primed: bool,
    busy: bool,
    paused: bool,
}

impl View for SyncEngine {
    type V = EngineView;

    closed spec fn view(&self) -> EngineView {
        EngineView {
            key: self.crypto.key(),
            recent: self.recent@,
            last_text: self.last_text_hash@,
            last_image: self.last_image_hash@,
            primed: self.primed,
            busy: self.busy,
            paused: self.paused,
        }
    }
}

/// The state of an engine that was just started with this shared secret.
pub open spec fn started(key: Seq<u8>) -> EngineView {
    EngineView {
        key: key,
        recent: Set::empty(),
        last_text: Seq::empty(),
        last_image: Seq::empty(),
        primed: false,
        busy: false,
        paused: false,
    }
}

/// The fingerprint of clipboard content.
pub open spec fn content_fingerprint(data: ClipboardDataView) -> Seq<char> {
    fingerprint(fingerprinted_bytes(data))
}

/// Clipboard content as it is sent: text as it is, an image as a PNG file, and
/// nothing for an image that cannot be made into one.
pub open spec fn wire_content(data: ClipboardDataView) -> Option<ClipContentView> {
    match data {
        ClipboardDataView::Text(text) => Some(ClipContentView::Text(text)),
        ClipboardDataView::Image { width, height, bytes } => match image_file(width, height, bytes) {
            Some(file) => Some(ClipContentView::Image(file)),
            None => None,
        },
    }
}

/// The fingerprint that the monitor saw last for content of the kind of
/// `data`.
pub open spec fn last_seen(state: EngineView, data: ClipboardDataView) -> Seq<char> {
    match data {
        ClipboardDataView::Text(text) => state.last_text,
        ClipboardDataView::Image { width, height, bytes } => state.last_image,
    }
}

/// The state after the monitor took note of content, with fingerprint `hash`,
/// that it does not send.
pub open spec fn noted(state: EngineView, data: ClipboardDataView, hash: Seq<char>) -> EngineView {
    match data {
        ClipboardDataView::Text(text) => EngineView { last_text: hash, ..state },
        ClipboardDataView::Image { width, height, bytes } => EngineView {
            last_image: hash,
            ..state
        },
    }
}

/// The state after the monitor decided to send content with fingerprint
/// `hash`: the fingerprint is remembered as seen and as the last of its kind,
/// and the last of the other kind is forgotten.
pub open spec fn sent(state: EngineView, data: ClipboardDataView, hash: Seq<char>) -> EngineView {
    match data {
        ClipboardDataView::Text(text) => EngineView {
            last_text: hash,
            last_image: Seq::empty(),
            recent: state.recent.insert(hash),
            ..state
        },
        ClipboardDataView::Image { width, height, bytes } => EngineView {
            last_image: hash,
            last_text: Seq::empty(),
            recent: state.recent.insert(hash),
            ..state
        },
    }
}

/// One poll of the monitor: the next state, and what is sent to the peers.
///
/// Nothing happens while the monitor is paused or the engine is busy. What the
/// first poll finds is remembered and not sent. After that, content is sent
/// where its fingerprint is neither the last one of its kind nor one that was
/// sent or received before.
pub open spec fn polled(state: EngineView, reading: Option<ClipboardDataView>) -> (
    EngineView,
    Option<ClipContentView>,
) {
    if state.paused || state.busy {
        (state, None)
    } else {
        match reading {
            None => (EngineView { primed: true, ..state }, None),
            Some(data) => {
                let hash = content_fingerprint(data);
                if !state.primed {
                    (
                        EngineView {
                            primed: true,
                            recent: state.recent.insert(hash),
                            ..noted(state, data, hash)
                        },
                        None,
                    )
                } else if hash == last_seen(state, data) {
                    (state, None)
                } else if state.recent.contains(hash) {
                    (noted(state, data, hash), None)
                } else {
                    match wire_content(data) {
                        Some(content) => (sent(state, data, hash), Some(content)),
                        None => (state, None),
                    }
                }
            },
        }
    }
}

/// What a frame holds for a receiver with this key whose clock shows `now`.
pub open spec fn frame_content(key: Seq<u8>, body: Seq<u8>, now: u64) -> Result<
    ClipContentView,
    DropReason,
> {
    match opened_packet(key, body, now) {
        Err(e) => Err(DropReason::Channel(e)),
        Ok(plain) => match content_parsed(plain) {
            Some(content) => Ok(content),
            None => Err(DropReason::MalformedContent),
        },
    }
}

/// The state after the listener took in `content`, and what it writes.
///
/// The engine is busy from here on. The fingerprint of what is written is
/// remembered before it is written.
pub open spec fn applied(state: EngineView, content: ClipContentView) -> (EngineView, InboundView) {
    match content {
        ClipContentView::Text(text) => (
            EngineView {
                busy: true,
                recent: state.recent.insert(fingerprint(encode_utf8(text))),
                ..state
            },
            InboundView::Write(ClipboardDataView::Text(text)),
        ),
        ClipContentView::Image(file) => match png_decoded(file) {
            Some(image) => (
                EngineView {
                    busy: true,
                    recent: state.recent.insert(fingerprint(image.2)),
                    ..state
                },
                InboundView::Write(
                    ClipboardDataView::Image {
                        width: image.0 as usize,
                        height: image.1 as usize,
                        bytes: image.2,
                    },
                ),
            ),
            None => (EngineView { busy: true, ..state }, InboundView::Settle),
        },
    }
}

/// One frame at the listener: the next state, and what is done.
pub open spec fn listened(state: EngineView, body: Seq<u8>, now: u64) -> (EngineView, InboundView) {
    match frame_content(state.key, body, now) {
        Err(reason) => (state, InboundView::Dropped(reason)),
        Ok(content) => applied(state, content),
    }
}

/// Bytes that a packet is longer than the content it carries: the envelope's
/// header, the nonce and the tag.
pub const PACKET_OVERHEAD: usize = 56;

/// Why content cannot be sent at any time: it is longer than the cipher
/// takes, or its packet is longer than a frame may be.
pub open spec fn unsendable(content: ClipContentView) -> Option<SendError> {
    if !chacha_takes((content_bytes(content).len() + ENVELOPE_HEADER_LEN) as nat) {
        Some(SendError::Channel(ChannelError::PayloadTooLarge))
    } else if content_bytes(content).len() + PACKET_OVERHEAD > MAX_PACKET_SIZE {
        Some(SendError::FrameTooLarge)
    } else {
        None
    }
}

/// The frame that carries `content` sealed at `now` with `nonce`.
pub open spec fn sealed_frame(key: Seq<u8>, nonce: Seq<u8>, now: u64, content: ClipContentView) -> Result<
    Seq<u8>,
    SendError,
> {
    match sealed_packet(key, nonce, now, content_bytes(content)) {
        None => Err(SendError::Channel(ChannelError::PayloadTooLarge)),
        Some(packet) => if packet.len() <= MAX_PACKET_SIZE {
            Ok(framed(packet))
        } else {
            Err(SendError::FrameTooLarge)
        },
    }
}

/// Content whose fingerprint is remembered is not sent, whatever else the
/// monitor's state is.
pub proof fn lemma_seen_content_is_not_sent(state: EngineView, data: ClipboardDataView)
    requires
        state.recent.contains(content_fingerprint(data)),
    ensures
        polled(state, Some(data)).1 is None,
{
}

/// What is remembered stays remembered: neither a poll nor a frame takes a
/// fingerprint out.
pub proof fn lemma_recent_only_grows(
    state: EngineView,
    reading: Option<ClipboardDataView>,
    body: Seq<u8>,
    now: u64,
    hash: Seq<char>,
)
    requires
        state.recent.contains(hash),
    ensures
        polled(state, reading).0.recent.contains(hash),
        listened(state, body, now).0.recent.contains(hash),
{
}

/// Content that the listener has written is not sent back. Once a frame was
/// taken in and its content written, every later poll that finds that content
/// on the clipboard sends nothing, in whatever state the engine then is, as
/// long as it still remembers what it remembered then.
pub proof fn lemma_applied_content_is_not_echoed(
    state: EngineView,
    body: Seq<u8>,
    now: u64,
    written: ClipboardDataView,
    later: EngineView,
)
    requires
        listened(state, body, now).1 == InboundView::Write(written),
        listened(state, body, now).0.recent.subset_of(later.recent),
    ensures
        listened(state, body, now).0.recent.contains(content_fingerprint(written)),
        polled(later, Some(written)).1 is None,
{
}

/// While the listener writes and the clipboard settles, the monitor sends
/// nothing and takes note of nothing, whatever it would read.
pub proof fn lemma_no_send_while_settling(
    state: EngineView,
    body: Seq<u8>,
    now: u64,
    reading: Option<ClipboardDataView>,
)
    requires
        !(listened(state, body, now).1 is Dropped),
    ensures
        listened(state, body, now).0.busy,
        polled(listened(state, body, now).0, reading) == (listened(state, body, now).0, None::<
            ClipContentView,
        >),
{
}

/// The content that the clipboard offers: its text where it holds text that
/// is not empty, else its image, else nothing.
pub open spec fn offered(text: Option<Seq<char>>, image: Option<ClipboardDataView>) -> Option<
    ClipboardDataView,
> {
    match text {
        Some(chars) if chars.len() > 0 => Some(ClipboardDataView::Text(chars)),
        _ => match image {
            Some(ClipboardDataView::Image { width, height, bytes }) => Some(
                ClipboardDataView::Image { width, height, bytes },
            ),
            _ => None,
        },
    }
}

/// Picks what the monitor looks at from what the clipboard holds.
pub fn choose_content(text: Option<String>, image: Option<ClipboardData>) -> (r: Option<
    ClipboardData,
>)
    ensures
        data_view(r) == offered(
            crate::primitives::chars_of(text),
            data_view(image),
        ),
{
    match text {
        Some(chars) => {
            if !chars.as_str().is_empty() {
                return Some(ClipboardData::Text(chars));
            }
        },
        None => {},
    }
    match image {
        Some(ClipboardData::Image { width, height, bytes }) => Some(
            ClipboardData::Image { width, height, bytes },
        ),
        _ => None,
    }
}

/// The plain values of optional clipboard content.
pub open spec fn data_view(data: Option<ClipboardData>) -> Option<ClipboardDataView> {
    match data {
        Some(d) => Some(d@),
        None => None,
    }
}

/// The plain values of optional content for the wire.
pub open spec fn content_view(content: Option<ClipContent>) -> Option<ClipContentView> {
    match content {
        Some(c) => Some(c@),
        None => None,
    }
}

impl SyncEngine {
    /// An engine for the ring with this shared secret: nothing seen, not
    /// paused, not busy.
    pub fn new(shared_secret: &[u8; 32]) -> (r: Self)
        ensures
            r@ == started(shared_secret@),
    {
        SyncEngine {
            crypto: CryptoLayer::new(shared_secret),
            recent: RecentHashes::new(),
            last_text_hash: String::new(),
            last_image_hash: String::new(),
            primed: false,
            busy: false,
            paused: false,
        }
    }

    /// Pauses or resumes the monitor. The listener is not touched.
    pub fn set_paused(&mut self, paused: bool)
        ensures
            final(self)@ == (EngineView { paused: paused, ..old(self)@ }),
    {
        self.paused = paused;
    }

    /// Tells the engine that the clipboard has settled after a write.
    pub fn settle(&mut self)
        ensures
            final(self)@ == (EngineView { busy: false, ..old(self)@ }),
    {
        self.busy = false;
    }

    /// Whether the operator has paused the monitor.
    pub fn is_paused(&self) -> (r: bool)
        ensures
            r == self@.paused,
    {
        self.paused
    }

    /// Whether the listener is writing, or has written and not yet settled.
    pub fn is_busy(&self) -> (r: bool)
        ensures
            r == self@.busy,
    {
        self.busy
    }

    /// Whether a fingerprint is remembered.
    pub fn has_seen(&self, hash: &str) -> (r: bool)
        ensures
            r == self@.recent.contains(hash@),
    {
        self.recent.contains(hash)
    }

    /// Whether the monitor is to read the clipboard at this tick: not while it
    /// is paused, and not while the engine is busy.
    pub fn wants_reading(&self) -> (r: bool)
        ensures
            r == !(self@.paused || self@.busy),
    {
        !(self.paused || self.busy)
    }

    /// One poll of the monitor with what the clipboard offered.
    ///
    /// The result is what is to be sent to every peer, or nothing.
    pub fn on_reading(&mut self, reading: Option<ClipboardData>) -> (r: Option<ClipContent>)
        ensures
            (final(self)@, content_view(r)) == polled(old(self)@, data_view(reading)),
    {
        if self.paused || self.busy {
            return None;
        }
        let data = match reading {
            None => {
                self.primed = true;
                return None;
            },
            Some(data) => data,
        };
        match data {
            ClipboardData::Text(text) => {
                let hash = hash_data(text.as_str().as_bytes());
                if !self.primed {
                    self.primed = true;
                    self.recent.insert(hash.clone());
                    self.last_text_hash = hash;
                    None
                } else if hash == self.last_text_hash {
                    None
                } else if self.recent.contains(hash.as_str()) {
                    self.last_text_hash = hash;
                    None
                } else {
                    self.recent.insert(hash.clone());
                    self.last_text_hash = hash;
                    self.last_image_hash = String::new();
                    Some(ClipContent::Text(text))
                }
            },
            ClipboardData::Image { width, height, bytes } => {
                let hash = hash_data(bytes.as_slice());
                if !self.primed {
                    self.primed = true;
                    self.recent.insert(hash.clone());
                    self.last_image_hash = hash;
                    None
                } else if hash == self.last_image_hash {
                    None
                } else if self.recent.contains(hash.as_str()) {
                    self.last_image_hash = hash;
                    None
                } else {
                    match encode_to_png(width, height, bytes.as_slice()) {
                        None => None,
                        Some(file) => {
                            self.recent.insert(hash.clone());
                            self.last_image_hash = hash;
                            self.last_text_hash = String::new();
                            Some(ClipContent::Image(file))
                        },
                    }
                }
            },
        }
    }

    /// The frame that carries `content` to a peer, sealed with the time and
    /// nonce given.
    pub fn seal_at(&self, content: &ClipContent, now: u64, nonce: &[u8; 24]) -> (r: Result<
        Vec<u8>,
        SendError,
    >)
        ensures
            match sealed_frame(self@.key, nonce@, now, content@) {
                Ok(bytes) => r matches Ok(made) && made@ == bytes,
                Err(e) => r matches Err(got) && got == e,
            },
    {
        let plain = write_content(content);
        match self.crypto.encrypt_at(plain.as_slice(), now, nonce) {
            Err(e) => Err(SendError::Channel(e)),
            Ok(packet) => match frame(packet.as_slice()) {
                Ok(bytes) => Ok(bytes),
                Err(e) => Err(SendError::FrameTooLarge),
            },
        }
    }

    /// The frame that carries `content` to a peer, sealed at the current time
    /// under a fresh nonce.
    ///
    /// Content that cannot be sent is refused, whatever the clock says. For
    /// the rest the frame is one that `seal_at` makes for some time and some
    /// nonce, or sealing fails where the clock stands before 1970.
    pub fn seal(&self, content: &ClipContent) -> (r: Result<Vec<u8>, SendError>)
        ensures
            match unsendable(content@) {
                Some(e) => r == Err::<Vec<u8>, SendError>(e),
                None => match r {
                    Ok(made) => exists|now: u64, nonce: Seq<u8>|
                        nonce.len() == NONCE_LEN && #[trigger] sealed_frame(
                            self@.key,
                            nonce,
                            now,
                            content@,
                        ) == Ok::<Seq<u8>, SendError>(made@),
                    Err(e) => e == SendError::Channel(ChannelError::ClockUnavailable),
                },
            },
    {
        let plain = write_content(content);
        if !chacha_can_take(plain.len(), ENVELOPE_HEADER_LEN) {
            return Err(SendError::Channel(ChannelError::PayloadTooLarge));
        }
        if plain.len() > MAX_PACKET_SIZE - PACKET_OVERHEAD {
            return Err(SendError::FrameTooLarge);
        }
        match self.crypto.encrypt(plain.as_slice()) {
            Err(e) => Err(SendError::Channel(e)),
            Ok(packet) => match frame(packet.as_slice()) {
                Ok(bytes) => {
                    proof {
                        let (now, nonce) = choose|now: u64, nonce: Seq<u8>|
                            nonce.len() == NONCE_LEN && #[trigger] sealed_packet(
                                self@.key,
                                nonce,
                                now,
                                plain@,
                            ) == Some(packet@);
                        assert(sealed_frame(self@.key, nonce, now, content@) == Ok::<
                            Seq<u8>,
                            SendError,
                        >(bytes@));
                    }
                    Ok(bytes)
                },
                Err(e) => Err(SendError::FrameTooLarge),
            },
        }
    }

    /// One frame at the listener, for a clock that shows `now`.
    ///
    /// A frame that does not open, or that holds no content, is dropped and
    /// changes nothing. Else the engine is busy from here on, the fingerprint
    /// of what is to be written is remembered, and the result says what to
    /// write.
    pub fn on_frame_at(&mut self, body: &[u8], now: u64) -> (r: Inbound)
        ensures
            (final(self)@, r@) == listened(old(self)@, body@, now),
    {
        let plain = match self.crypto.decrypt_at(body, now) {
            Err(e) => {
                return Inbound::Dropped(DropReason::Channel(e));
            },
            Ok(plain) => plain,
        };
        self.take_in(plain.as_slice())
    }

    /// One frame at the listener, against the system clock.
    ///
    /// A frame that is malformed or fails authentication is dropped for that
    /// reason, whatever the clock says. For the rest the engine does what
    /// `on_frame_at` does for the time that the clock gave, or drops the frame
    /// where the clock stands before 1970.
    pub fn on_frame(&mut self, body: &[u8]) -> (r: Inbound)
        ensures
            crate::crypto::opened_envelope(old(self)@.key, body@) matches Err(e) ==> (final(self)@
                == old(self)@ && r@ == InboundView::Dropped(DropReason::Channel(e))),
            (final(self)@ == old(self)@ && r@ == InboundView::Dropped(
                DropReason::Channel(ChannelError::ClockUnavailable),
            )) || exists|now: u64| (final(self)@, r@) == #[trigger] listened(old(self)@, body@, now),
    {
        let plain = match self.crypto.decrypt(body) {
            Err(e) => {
                proof {
                    if e != ChannelError::ClockUnavailable {
                        if crate::crypto::opened_envelope(self@.key, body@) is Err {
                            assert((self@, InboundView::Dropped(DropReason::Channel(e)))
                                == listened(self@, body@, 0));
                        } else {
                            let now = choose|now: u64|
                                crate::crypto::outcome(Err(e)) == #[trigger] opened_packet(
                                    self@.key,
                                    body@,
                                    now,
                                );
                            assert((self@, InboundView::Dropped(DropReason::Channel(e)))
                                == listened(self@, body@, now));
                        }
                    }
                }
                return Inbound::Dropped(DropReason::Channel(e));
            },
            Ok(plain) => plain,
        };
        let ghost now = choose|now: u64|
            crate::crypto::outcome(Ok(plain)) == #[trigger] opened_packet(self@.key, body@, now);
        let r = self.take_in(plain.as_slice());
        proof {
            assert((self@, r@) == listened(old(self)@, body@, now));
        }
        r
    }

    /// Takes in what a packet held.
    fn take_in(&mut self, plain: &[u8]) -> (r: Inbound)
        ensures
            match content_parsed(plain@) {
                Some(content) => (final(self)@, r@) == applied(old(self)@, content),
                None => final(self)@ == old(self)@ && r@ == InboundView::Dropped(
                    DropReason::MalformedContent,
                ),
            },
    {
        match read_content(plain) {
            None => Inbound::Dropped(DropReason::MalformedContent),
            Some(ClipContent::Text(text)) => {
                self.busy = true;
                self.recent.insert(hash_data(text.as_str().as_bytes()));
                Inbound::Write(ClipboardData::Text(text))
            },
            Some(ClipContent::Image(file)) => {
                self.busy = true;
                match png_decode(file.as_slice()) {
                    None => Inbound::Settle,
                    Some(image) => {
                        self.recent.insert(hash_data(image.2.as_slice()));
                        Inbound::Write(
                            ClipboardData::Image {
                                width: image.0 as usize,
                                height: image.1 as usize,
                                bytes: image.2,
                            },
                        )
                    },
                }
            },
        }
    }
}

/// Where a frame goes: every peer of the directory, each once, with the device
/// id under which a failed attempt is reported.
pub fn targets(directory: &PeerDirectory) -> (r: Vec<(String, SocketAddress)>)
    ensures
        forall|i: int|
            0 <= i < r@.len() ==> directory@.contains_key(#[trigger] r@[i].0@) && directory@[r@[i].0@].ip
                == r@[i].1,
        forall|i: int, j: int| 0 <= i < j < r@.len() ==> r@[i].0@ != r@[j].0@,
        forall|id: Seq<char>| #[trigger]
            directory@.contains_key(id) ==> exists|i: int| 0 <= i < r@.len() && r@[i].0@ == id,
{
    let peers = directory.peers();
    let mut out: Vec<(String, SocketAddress)> = Vec::new();
    let mut i: usize = 0;
    while i < peers.len()
        invariant
            i <= peers.len(),
            out@.len() == i,
            forall|k: int| 0 <= k < i ==> (#[trigger] out@[k]).0@ == peers@[k]@.device_id && out@[k].1
                == peers@[k]@.ip,
        decreases peers.len() - i,
    {
        out.push((peers[i].device_id.clone(), peers[i].ip));
        i = i + 1;
    }
    proof {
        assert forall|id: Seq<char>| #[trigger] directory@.contains_key(id) implies exists|i: int|
            0 <= i < out@.len() && out@[i].0@ == id by {
            let k = choose|k: int| 0 <= k < peers@.len() && peers@[k]@.device_id == id;
            assert(out@[k].0@ == id);
        }
        assert(forall|a: int|
            0 <= a < out@.len() ==> directory@.contains_key(#[trigger] out@[a].0@)
                && directory@[out@[a].0@].ip == out@[a].1);
    }
    out
}

} // verus!
