//! Clipboard synchronisation for a ring of trusted devices.
//!
//! A ring is the set of devices that share one secret phrase. This crate holds
//! the rules of the ring: how keys are derived from the phrase, how packets are
//! sealed and opened, how peers are admitted to the directory, and how the
//! monitor and the listener decide what to send and what to write.

pub mod backend;
pub mod bytes;
pub mod clipboard;
pub mod clock;
pub mod config;
pub mod crypto;
pub mod discovery;
pub mod events;
pub mod handshake;
pub mod identity;
pub mod packet;
pub mod primitives;
pub mod radio;
pub mod sync;
pub mod text;
pub mod transport;
