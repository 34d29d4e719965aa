//! The data model: actor records built once per tick from a plain-value
//! picture of the external entity graph, and the shared bone/hull metadata
//! referenced by each record.

use vstd::prelude::*;
use vstd::string::StringExecFns;
use crate::geom::{world_ok, WorldPos};

verus! {

/// The weapon an actor currently holds.
#[derive(Clone, Copy, Debug, PartialEq, Eq, Structural)]
pub enum WeaponKind {
    Knife,
    Pistol,
    Smg,
    Rifle,
    Shotgun,
    Sniper,
    Grenade,
    Unknown,
}

impl WeaponKind {
    pub open spec fn spec_display_name(self) -> Seq<char> {
        match self {
            WeaponKind::Knife => "Knife"@,
            WeaponKind::Pistol => "Pistol"@,
            WeaponKind::Smg => "SMG"@,
            WeaponKind::Rifle => "Rifle"@,
            WeaponKind::Shotgun => "Shotgun"@,
            WeaponKind::Sniper => "Sniper"@,
            WeaponKind::Grenade => "Grenade"@,
            WeaponKind::Unknown => "Unknown"@,
        }
    }

    pub fn display_name(&self) -> (r: String)
        ensures
            r@ == self.spec_display_name(),
    {
        match self {
            WeaponKind::Knife => String::from_str("Knife"),
            WeaponKind::Pistol => String::from_str("Pistol"),
            WeaponKind::Smg => String::from_str("SMG"),
            WeaponKind::Rifle => String::from_str("Rifle"),
            WeaponKind::Shotgun => String::from_str("Shotgun"),
            WeaponKind::Sniper => String::from_str("Sniper"),
            WeaponKind::Grenade => String::from_str("Grenade"),
            WeaponKind::Unknown => String::from_str("Unknown"),
        }
    }
}

/// Per-actor attributes resolved from the entity graph.
#[derive(Clone, Debug, PartialEq)]
pub struct PawnInfo {
    pub position: WorldPos,
    pub team_id: u8,
    /// Health points; an actor with health at or below zero is dead and is
    /// filtered out before storage.
    pub player_health: i64,
    pub player_name: Option<String>,
    pub weapon: WeaponKind,
    pub player_has_defuser: bool,
    /// Remaining flash effect, in milliseconds; positive means flashed.
    pub player_flashtime: i64,
}

/// Per-actor skeleton state: world-space bone positions aligned by index to
/// the referenced model's bone table.
#[derive(Clone, Debug, PartialEq)]
pub struct PawnModelInfo {
    /// Opaque reference into the model metadata store.
    pub model_id: u64,
    pub bone_states: Vec<WorldPos>,
}

/// One render-ready record of the per-tick snapshot.
#[derive(Clone, Debug, PartialEq)]
pub struct PlayerESPInfo {
    pub pawn_info: PawnInfo,
    pub pawn_model: PawnModelInfo,
}

/// Set in a bone's flags when the bone belongs to a hitbox; only such bones
/// are drawn as skeleton segments.
pub const BONE_FLAG_HITBOX: u32 = 1;

/// One row of a model's bone table.
#[derive(Clone, Debug, PartialEq)]
pub struct Bone {
    pub name: String,
    pub flags: u32,
    /// Index of the parent bone in the same table; the root has none.
    pub parent: Option<usize>,
}

/// Shared bone and bounding-hull metadata for one model.
#[derive(Clone, Debug, PartialEq)]
pub struct ModelInfo {
    pub vhull_min: WorldPos,
    pub vhull_max: WorldPos,
    pub bones: Vec<Bone>,
}

pub open spec fn model_ok(m: ModelInfo) -> bool {
    &&& world_ok(m.vhull_min)
    &&& world_ok(m.vhull_max)
}

pub open spec fn record_ok(r: PlayerESPInfo) -> bool {
    &&& world_ok(r.pawn_info.position)
    &&& 0 <= r.pawn_info.player_health
    &&& forall|i: int| 0 <= i < r.pawn_model.bone_states@.len() ==> world_ok(
        #[trigger] r.pawn_model.bone_states@[i],
    )
}

/// An actor's life state as reported by the entity graph.
#[derive(Clone, Copy, Debug, PartialEq, Eq, Structural)]
pub enum PawnState {
    Alive,
    Dead,
}

/// The runtime class resolved for an entity; only player pawns are tracked.
#[derive(Clone, Copy, Debug, PartialEq, Eq, Structural)]
pub enum EntityClass {
    PlayerPawn,
    Other,
}

/// One entity of the external graph, as sampled for this tick. A set
/// `read_fault` stands for a transient read error hit while resolving the
/// entity, which aborts the whole tick's snapshot build.
#[derive(Clone, Debug)]
pub struct GraphEntity {
    pub entity_index: u64,
    /// The resolved runtime class; absent when class resolution found no
    /// known class for the entity.
    pub class: Option<EntityClass>,
    pub pawn_state: PawnState,
    pub read_fault: bool,
    pub pawn_info: PawnInfo,
    pub pawn_model: PawnModelInfo,
}

/// The per-tick picture of the external entity graph.
#[derive(Clone, Debug)]
pub struct EntityGraph {
    pub entities: Vec<GraphEntity>,
}

/// An error surfaced to the caller of a tick: a transient read failure.
#[derive(Clone, Copy, Debug, PartialEq, Eq, Structural)]
pub enum EspError {
    /// Resolving an entity of the graph failed; the whole snapshot build of
    /// this tick is aborted.
    EntityRead { entity_index: u64 },
    /// The model metadata store has no entry for a referenced model; the
    /// render pass is aborted.
    ModelRead { model_id: u64 },
}

} // verus!
