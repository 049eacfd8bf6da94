//! Worker roles: why a worker exists, with the small embedded parameters
//! needed to rebuild its behaviour after a full state reset.
//!
//! A role is the unit of durable identity: mobile workers carry their role,
//! encoded as a short text token (see `codec`), in their external display
//! name, so the tag and payload must survive an encode/decode round trip.

use vstd::prelude::*;

use crate::grid::Pos;

verus! {

/// A named region of the world, carried as its packed numeric form.
#[derive(PartialEq, Eq, Structural, Clone, Copy, Hash, Debug)]
pub struct RoomId {
    pub raw: u16,
}

/// Repairs and constructs in its home region, up to a repair watermark.
#[derive(PartialEq, Eq, Structural, Clone, Copy, Hash, Debug)]
pub struct Builder {
    pub home_room: RoomId,
    /// Maximum hits to repair structures to.
    pub repair_watermark: u32,
}

/// Feeds the region's controller; `id` distinguishes the Nth upgrader.
#[derive(PartialEq, Eq, Structural, Clone, Copy, Hash, Debug)]
pub struct Upgrader {
    pub home_room: RoomId,
    pub id: u8,
}

/// Moves energy from piles and buffers into spenders; the Nth hauler.
#[derive(PartialEq, Eq, Structural, Clone, Copy, Hash, Debug)]
pub struct Hauler {
    pub home_room: RoomId,
    pub id: u8,
}

/// Parks beside one fixed resource node and harvests it forever.
#[derive(PartialEq, Eq, Structural, Clone, Copy, Hash, Debug)]
pub struct SourceHarvester {
    pub source_position: Pos,
}

/// Early-game generalist that does whatever the colony needs; the Nth one.
#[derive(PartialEq, Eq, Structural, Clone, Copy, Hash, Debug)]
pub struct Startup {
    pub home_room: RoomId,
    pub id: u8,
}

/// A stationary spawning structure acting as a worker.
#[derive(PartialEq, Eq, Structural, Clone, Copy, Hash, Debug)]
pub struct Spawn {
    pub room: RoomId,
}

/// A stationary defensive structure acting as a worker.
#[derive(PartialEq, Eq, Structural, Clone, Copy, Hash, Debug)]
pub struct Tower {
    pub room: RoomId,
}

/// Sentinel role for a live worker whose persisted identity failed to
/// decode; it is kept visible but permanently idle, and excluded from the
/// active-role bookkeeping.
#[derive(PartialEq, Eq, Structural, Clone, Copy, Hash, Debug)]
pub struct Invalid {}

/// Transient role for an agent that exists but is still materializing and
/// cannot yet act on its own.
#[derive(PartialEq, Eq, Structural, Clone, Copy, Hash, Debug)]
pub struct SpawningCreep {}

/// Every kind of worker role, as a closed sum; behaviour is dispatched by
/// exhaustive matching.
#[derive(PartialEq, Eq, Structural, Clone, Copy, Hash, Debug)]
pub enum WorkerRole {
    Builder(Builder),
    Upgrader(Upgrader),
    Hauler(Hauler),
    SourceHarvester(SourceHarvester),
    Startup(Startup),
    Spawn(Spawn),
    Tower(Tower),
    Invalid(Invalid),
    SpawningCreep(SpawningCreep),
}

/// Roles bound to stationary structures cannot move; every other role can.
pub open spec fn spec_can_move(r: WorkerRole) -> bool {
    match r {
        WorkerRole::Spawn(_) => false,
        WorkerRole::Tower(_) => false,
        _ => true,
    }
}

impl WorkerRole {
    /// Whether a worker of this role is mobile at all.
    pub fn can_move(&self) -> (r: bool)
        ensures
            r == spec_can_move(*self),
    {
        match self {
            WorkerRole::Spawn(_) => false,
            WorkerRole::Tower(_) => false,
            _ => true,
        }
    }
}

} // verus!
