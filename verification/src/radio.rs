//! The radio, as far as this crate decides anything about it: the states a
//! peripheral goes through before it advertises, how a member is recognised in
//! what others advertise, and how a read request is answered.
//!
//! The radio stack of the operating system calls back when something has
//! happened. Each callback is an event here, and the answer says what to ask
//! of the stack next.

use crate::bytes::copy_range;
use crate::text::{hex_encode, hex_text};
use vstd::prelude::*;
use vstd::string::*;

verus! {

/// What the advertised name of a member starts with; the ring's four magic
/// bytes follow in hexadecimal.
pub const LOCAL_NAME_PREFIX: &'static str = "RustClip-";

/// How many bytes of advertised data name the ring.
pub const MAGIC_LEN: usize = 4;

/// Where the peripheral stands.
#[derive(Clone, Copy, Debug, PartialEq, Eq, Structural)]
pub enum RadioState {
    /// The radio is off, or not yet known to be on.
    Off,
    /// The radio is on, and the service is not yet registered.
    On,
    /// The service is registered, and is not yet advertised.
    ServiceRegistered,
    /// The service is advertised.
    Advertising,
}

/// What the radio stack reports.
#[derive(Clone, Copy, Debug, PartialEq, Eq, Structural)]
pub enum RadioEvent {
    /// The radio was switched on or off.
    PowerChanged { on: bool },
    /// The service was registered, or could not be.
    ServiceAdded { ok: bool },
    /// Advertising has started, or could not.
    AdvertisingStarted { ok: bool },
}

/// What to ask of the radio stack.
#[derive(Clone, Copy, Debug, PartialEq, Eq, Structural)]
pub enum RadioAction {
    Nothing,
    RegisterService,
    StartAdvertising,
}

/// The state after an event, and what to ask for.
///
/// Switching off leads to `Off` from anywhere. Each other step is taken only
/// from the state before it: the service is registered once the radio is on,
/// and advertised once it is registered. An event that comes out of turn, or
/// reports a failure, changes nothing.
pub open spec fn stepped(state: RadioState, event: RadioEvent) -> (RadioState, RadioAction) {
    match event {
        RadioEvent::PowerChanged { on } => if !on {
            (RadioState::Off, RadioAction::Nothing)
        } else if state is Off {
            (RadioState::On, RadioAction::RegisterService)
        } else {
            (state, RadioAction::Nothing)
        },
        RadioEvent::ServiceAdded { ok } => if ok && state is On {
            (RadioState::ServiceRegistered, RadioAction::StartAdvertising)
        } else {
            (state, RadioAction::Nothing)
        },
        RadioEvent::AdvertisingStarted { ok } => if ok && state is ServiceRegistered {
            (RadioState::Advertising, RadioAction::Nothing)
        } else {
            (state, RadioAction::Nothing)
        },
    }
}

/// Takes an event of the radio stack.
pub fn step(state: RadioState, event: RadioEvent) -> (r: (RadioState, RadioAction))
    ensures
        r == stepped(state, event),
{
    match event {
        RadioEvent::PowerChanged { on } => {
            if !on {
                (RadioState::Off, RadioAction::Nothing)
            } else {
                match state {
                    RadioState::Off => (RadioState::On, RadioAction::RegisterService),
                    _ => (state, RadioAction::Nothing),
                }
            }
        },
        RadioEvent::ServiceAdded { ok } => {
            match state {
                RadioState::On => if ok {
                    (RadioState::ServiceRegistered, RadioAction::StartAdvertising)
                } else {
                    (state, RadioAction::Nothing)
                },
                _ => (state, RadioAction::Nothing),
            }
        },
        RadioEvent::AdvertisingStarted { ok } => {
            match state {
                RadioState::ServiceRegistered => if ok {
                    (RadioState::Advertising, RadioAction::Nothing)
                } else {
                    (state, RadioAction::Nothing)
                },
                _ => (state, RadioAction::Nothing),
            }
        },
    }
}

/// How far a state is from `Off`.
pub open spec fn rank(state: RadioState) -> int {
    match state {
        RadioState::Off => 0,
        RadioState::On => 1,
        RadioState::ServiceRegistered => 2,
        RadioState::Advertising => 3,
    }
}

/// No state is skipped: an event moves the peripheral one state on, leaves it
/// where it is, or switches it off. The service is asked to be registered
/// exactly on the step to `On`, and advertising is asked for exactly on the
/// step to `ServiceRegistered`.
pub proof fn lemma_states_come_in_order(state: RadioState, event: RadioEvent)
    ensures
        ({
            let next = stepped(state, event);
            &&& next.0 is Off || rank(next.0) == rank(state) || rank(next.0) == rank(state) + 1
            &&& next.1 is RegisterService <==> state is Off && next.0 is On
            &&& next.1 is StartAdvertising <==> state is On && next.0 is ServiceRegistered
        }),
{
}

/// The name under which the ring with these magic bytes is advertised.
pub open spec fn local_name_of(magic: Seq<u8>) -> Seq<char> {
    LOCAL_NAME_PREFIX@ + hex_text(magic)
}

/// The name under which the ring with these magic bytes is advertised.
pub fn local_name(magic: &[u8; 4]) -> (r: String)
    ensures
        r@ == local_name_of(magic@),
{
    let mut name = LOCAL_NAME_PREFIX.to_owned();
    let digits = hex_encode(magic.as_slice());
    name.append(digits.as_str());
    name
}

/// Whether advertised data is that of the ring with these magic bytes: it is
/// where the data starts with them.
pub fn carries_magic(data: &[u8], magic: &[u8; 4]) -> (r: bool)
    ensures
        r == (data@.len() >= MAGIC_LEN && data@.subrange(0, MAGIC_LEN as int) == magic@),
{
    if data.len() < MAGIC_LEN {
        return false;
    }
    let mut i: usize = 0;
    while i < MAGIC_LEN
        invariant
            i <= MAGIC_LEN,
            data.len() >= MAGIC_LEN,
            forall|j: int| 0 <= j < i ==> data@[j] == magic@[j],
        decreases MAGIC_LEN - i,
    {
        if data[i] != magic[i] {
            return false;
        }
        i = i + 1;
    }
    proof {
        assert(data@.subrange(0, MAGIC_LEN as int) =~= magic@);
    }
    true
}

/// The answer to a request to read a value from `offset` on.
#[derive(Debug, PartialEq, Eq)]
pub enum ReadReply {
    /// The offset lies behind the end of the value.
    InvalidOffset,
    /// The value from the offset on.
    Value(Vec<u8>),
}

/// Answers a request to read `value` from `offset` on. An offset behind the
/// end of the value is refused; one at the end reads nothing.
pub fn read_reply(value: &[u8], offset: usize) -> (r: ReadReply)
    ensures
        offset > value@.len() ==> r is InvalidOffset,
        offset <= value@.len() ==> (r matches ReadReply::Value(rest) && rest@ == value@.subrange(
            offset as int,
            value@.len() as int,
        )),
{
    if offset > value.len() {
        ReadReply::InvalidOffset
    } else {
        ReadReply::Value(copy_range(value, offset, value.len()))
    }
}

} // verus!
