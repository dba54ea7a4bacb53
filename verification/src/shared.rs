//! Core value types shared by every component: the transform vector, the
//! movement action, the per-peer state record, the worker job message, and
//! the active-mode sum type.
//!
//! The engine's vectors are three 32-bit floats. This crate never interprets
//! them arithmetically: each component is carried as its raw IEEE-754 bit
//! pattern in a `u32`, which moves across the wire byte-for-byte. The caller
//! converts at the boundary (`f32::to_bits` / `f32::from_bits`).

use vstd::prelude::*;

use crate::client::PlayerMirrorClient;
use crate::server::PlayerMirrorServer;

verus! {

/// Size of the fixed receive buffer for a full snapshot array.
pub const VEC_PACKET_SIZE: usize = 512;

/// Size of the fixed receive buffer for a single state record.
pub const SINGLE_PACKET_SIZE: usize = 32;

/// A three-component vector, each component the raw bit pattern of a 32-bit
/// IEEE-754 float. Equality is bitwise.
#[derive(Clone, Copy, Debug, PartialEq, Eq, Structural)]
pub struct SerializableVector3 {
    pub x: u32,
    pub y: u32,
    pub z: u32,
}

impl SerializableVector3 {
    /// The all-zero vector: the bit pattern of `(0.0, 0.0, 0.0)`.
    pub open spec fn spec_zero() -> SerializableVector3 {
        SerializableVector3 { x: 0, y: 0, z: 0 }
    }

    pub fn zero() -> (v: SerializableVector3)
        ensures
            v == SerializableVector3::spec_zero(),
    {
        SerializableVector3 { x: 0, y: 0, z: 0 }
    }
}

/// The discrete movement action a peer is performing, chosen by the driver
/// each tick and replicated verbatim.
#[derive(Clone, Copy, Debug, PartialEq, Eq, Structural)]
pub enum Action {
    Crouch,
    Run,
    Stand,
    Jump,
    WallrunRight,
    WallrunLeft,
    WallrunFront,
    WallrunBack,
}

/// The wire discriminant of an action: its position in the declaration,
/// `Crouch = 0` through `WallrunBack = 7`.
pub open spec fn action_code(a: Action) -> u32 {
    match a {
        Action::Crouch => 0,
        Action::Run => 1,
        Action::Stand => 2,
        Action::Jump => 3,
        Action::WallrunRight => 4,
        Action::WallrunLeft => 5,
        Action::WallrunFront => 6,
        Action::WallrunBack => 7,
    }
}

/// The action a wire discriminant stands for. Codes outside the defined
/// range fall back to `Stand` instead of being rejected.
pub open spec fn action_from_code(c: u32) -> Action {
    if c == 0 {
        Action::Crouch
    } else if c == 1 {
        Action::Run
    } else if c == 2 {
        Action::Stand
    } else if c == 3 {
        Action::Jump
    } else if c == 4 {
        Action::WallrunRight
    } else if c == 5 {
        Action::WallrunLeft
    } else if c == 6 {
        Action::WallrunFront
    } else if c == 7 {
        Action::WallrunBack
    } else {
        Action::Stand
    }
}

impl Action {
    /// Executable form of [`action_code`].
    pub fn code(&self) -> (c: u32)
        ensures
            c == action_code(*self),
    {
        match self {
            Action::Crouch => 0,
            Action::Run => 1,
            Action::Stand => 2,
            Action::Jump => 3,
            Action::WallrunRight => 4,
            Action::WallrunLeft => 5,
            Action::WallrunFront => 6,
            Action::WallrunBack => 7,
        }
    }

    /// Executable form of [`action_from_code`].
    pub fn from_code(c: u32) -> (a: Action)
        ensures
            a == action_from_code(c),
    {
        if c == 0 {
            Action::Crouch
        } else if c == 1 {
            Action::Run
        } else if c == 2 {
            Action::Stand
        } else if c == 3 {
            Action::Jump
        } else if c == 4 {
            Action::WallrunRight
        } else if c == 5 {
            Action::WallrunLeft
        } else if c == 6 {
            Action::WallrunFront
        } else if c == 7 {
            Action::WallrunBack
        } else {
            Action::Stand
        }
    }
}

/// What a signed driver-supplied code means: the defined range maps to its
/// action, anything else falls back to `Stand`.
pub open spec fn action_from_i32(v: i32) -> Action {
    if 0 <= v <= 7 {
        action_from_code(v as u32)
    } else {
        Action::Stand
    }
}

impl From<i32> for Action {
    /// Validates a driver-supplied action code at the boundary: codes in the
    /// defined range map to their action, all others default to `Stand`.
    fn from(v: i32) -> (a: Action)
        ensures
            a == action_from_i32(v),
    {
        if 0 <= v && v <= 7 {
            Action::from_code(v as u32)
        } else {
            Action::Stand
        }
    }
}

impl vstd::std_specs::convert::FromSpecImpl<i32> for Action {
    open spec fn obeys_from_spec() -> bool {
        true
    }

    open spec fn from_spec(v: i32) -> Action {
        action_from_i32(v)
    }
}

/// The state of one peer for one tick: position, view direction, action.
/// The all-default record doubles as the sentinel for "no data yet".
#[derive(Clone, Copy, Debug, PartialEq, Eq, Structural)]
pub struct PlayerInfo {
    pub position: SerializableVector3,
    pub viewangle: SerializableVector3,
    pub action: Action,
}

impl PlayerInfo {
    /// The sentinel record: origin position, zero view angle, `Stand`.
    pub open spec fn spec_default() -> PlayerInfo {
        PlayerInfo {
            position: SerializableVector3::spec_zero(),
            viewangle: SerializableVector3::spec_zero(),
            action: Action::Stand,
        }
    }

    pub fn new(position: SerializableVector3, viewangle: SerializableVector3, action: Action) -> (
        p: PlayerInfo)
        ensures
            p == (PlayerInfo { position, viewangle, action }),
    {
        PlayerInfo { position, viewangle, action }
    }

    pub fn get_position(&self) -> (v: SerializableVector3)
        ensures
            v == self.position,
    {
        self.position
    }

    pub fn get_viewangle(&self) -> (v: SerializableVector3)
        ensures
            v == self.viewangle,
    {
        self.viewangle
    }
}

impl Default for PlayerInfo {
    fn default() -> (p: PlayerInfo)
        ensures
            p == PlayerInfo::spec_default(),
    {
        PlayerInfo {
            position: SerializableVector3::zero(),
            viewangle: SerializableVector3::zero(),
            action: Action::Stand,
        }
    }
}

/// Why a driver-facing call was rejected.
#[derive(Clone, Copy, Debug, PartialEq, Eq, Structural)]
pub enum MirrorError {
    /// No session is active: nothing to enqueue the record for.
    NotConnected,
}

/// A job sent to a connection worker. `S` is whatever stands for one live
/// connection (the unverified shell instantiates it with its socket type).
///
/// `Work` hands a new connection to an idle worker; `EndJob` asks the loop
/// serving the current connection to stop and return to idle; `Death` asks
/// the worker itself to terminate.
pub enum WorkerMessage<S> {
    Work(S),
    Death,
    EndJob,
}

/// The mode this process is in: hub (listening, aggregating) or upstream
/// (a single outgoing connection). Exactly one is active at a time.
pub enum MirroringType {
    Server(PlayerMirrorServer),
    Client(PlayerMirrorClient),
}

} // verus!
