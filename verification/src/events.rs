//! What the services tell the interface, and what the interface asks of them.

use crate::clock::{time_of_day_text, unix_time, utc_clock_text, utc_day_and_hour_of};
use crate::config::AppConfig;
use crate::identity::RingIdentity;
use vstd::prelude::*;
use vstd::string::*;

verus! {

/// How much a log line matters.
#[derive(Clone, Copy, Debug, PartialEq, Eq, Structural)]
pub enum LogLevel {
    Info,
    Success,
    Warn,
    Error,
}

/// One line of the log.
#[derive(Debug)]
pub struct LogEntry {
    /// Time of day, in UTC, at which the line was made; empty where the clock
    /// gave none.
    pub timestamp: String,
    pub level: LogLevel,
    pub message: String,
}

impl Clone for LogEntry {
    fn clone(&self) -> (r: Self)
        ensures
            r.timestamp@ == self.timestamp@,
            r.level == self.level,
            r.message@ == self.message@,
    {
        LogEntry {
            timestamp: self.timestamp.clone(),
            level: self.level,
            message: self.message.clone(),
        }
    }
}

/// The stamp of a line made at clock reading `now`: the time of day in UTC,
/// or nothing where the clock gave no reading or one that the calendar does
/// not reach.
pub open spec fn stamp_of(now: Option<u64>) -> Seq<char> {
    match now {
        Some(secs) => if utc_day_and_hour_of(secs) is Some {
            time_of_day_text(secs)
        } else {
            Seq::empty()
        },
        None => Seq::empty(),
    }
}

impl LogEntry {
    /// An informational line, stamped with the time of day that the clock
    /// shows: a line that `timed` makes for some reading.
    pub fn new(msg: &str) -> (r: Self)
        ensures
            r.level == LogLevel::Info,
            r.message@ == msg@,
            exists|now: Option<u64>| r.timestamp@ == #[trigger] stamp_of(now),
    {
        LogEntry::timed(unix_time(), LogLevel::Info, msg)
    }

    /// A line made when the clock read `now`, or gave no reading.
    pub fn timed(now: Option<u64>, level: LogLevel, msg: &str) -> (r: Self)
        ensures
            r.timestamp@ == stamp_of(now),
            r.level == level,
            r.message@ == msg@,
    {
        let stamp = match now {
            Some(secs) => match utc_clock_text(secs) {
                Some(text) => text,
                None => String::new(),
            },
            None => String::new(),
        };
        LogEntry::stamped(stamp, level, msg)
    }

    /// A line with the stamp and level given.
    pub fn stamped(timestamp: String, level: LogLevel, msg: &str) -> (r: Self)
        ensures
            r.timestamp@ == timestamp@,
            r.level == level,
            r.message@ == msg@,
    {
        LogEntry { timestamp, level, message: msg.to_owned() }
    }
}

/// An address on the network: IPv4 as its 32 bits, IPv6 as its 128.
#[derive(Clone, Copy, Debug, PartialEq, Eq, Structural)]
pub enum IpAddress {
    V4(u32),
    V6(u128),
}

impl IpAddress {
    /// Whether this is an IPv4 address.
    pub open spec fn spec_is_ipv4(self) -> bool {
        self is V4
    }

    /// Whether this is an IPv4 address.
    #[verifier::when_used_as_spec(spec_is_ipv4)]
    pub fn is_ipv4(self) -> (r: bool)
        ensures
            r == (self is V4),
    {
        match self {
            IpAddress::V4(_) => true,
            IpAddress::V6(_) => false,
        }
    }

    /// The IPv4 address `a.b.c.d`.
    pub fn v4(a: u8, b: u8, c: u8, d: u8) -> (r: Self)
        ensures
            r == IpAddress::V4((a as u32 * 0x100_0000 + b as u32 * 0x1_0000 + c as u32 * 0x100 + d as u32) as u32),
    {
        IpAddress::V4(a as u32 * 0x100_0000 + b as u32 * 0x1_0000 + c as u32 * 0x100 + d as u32)
    }
}

/// An address and a port.
#[derive(Clone, Copy, Debug, PartialEq, Eq, Structural)]
pub struct SocketAddress {
    pub ip: IpAddress,
    pub port: u16,
}

/// What the directory knows of a peer.
#[derive(Debug)]
pub struct PeerInfo {
    /// The name the peer shows.
    pub name: String,
    /// Where content for the peer is sent.
    pub ip: SocketAddress,
    /// What the directory is keyed by.
    pub device_id: String,
    /// Seconds since 1970 at which the peer was last resolved.
    pub last_seen: u64,
}

/// A peer as plain values.
pub struct PeerInfoView {
    pub name: Seq<char>,
    pub ip: SocketAddress,
    pub device_id: Seq<char>,
    pub last_seen: u64,
}

impl View for PeerInfo {
    type V = PeerInfoView;

    open spec fn view(&self) -> PeerInfoView {
        PeerInfoView {
            name: self.name@,
            ip: self.ip,
            device_id: self.device_id@,
            last_seen: self.last_seen,
        }
    }
}

impl Clone for PeerInfo {
    fn clone(&self) -> (r: Self)
        ensures
            r@ == self@,
    {
        PeerInfo {
            name: self.name.clone(),
            ip: self.ip,
            device_id: self.device_id.clone(),
            last_seen: self.last_seen,
        }
    }
}

/// What the services report.
#[derive(Debug)]
pub enum CoreEvent {
    Log(LogEntry),
    /// The directory changed: here is all of it.
    PeersUpdated(Vec<PeerInfo>),
    IdentityLoaded(RingIdentity),
    ServiceStateChanged { running: bool },
    /// A request to show a notification.
    Notify { title: String, body: String },
}

/// What the interface asks for.
#[derive(Debug)]
pub enum UiCommand {
    SetPaused(bool),
    UpdateConfig(AppConfig),
    JoinRing(String),
    GenerateNewIdentity,
    Quit,
}

} // verus!
