//! Identifiers and the semantic events the core hands to presentation layers.
use vstd::prelude::*;

use crate::geometry::Vec3;

verus! {

/// Identifies a physics body (the character, a platform, a trampoline surface).
#[derive(Clone, Copy, Debug, PartialEq, Eq, Structural)]
pub struct BodyId {
    pub id: u64,
}

/// The two acrobatic maneuvers.
#[derive(Clone, Copy, Debug, PartialEq, Eq, Structural)]
pub enum FlipType {
    Front,
    Dive,
}

/// Emitted when a jump takes effect.
#[derive(Clone, Copy, Debug, PartialEq, Eq, Structural)]
pub struct PlayerJumpEvent {
    pub entity: BodyId,
}

/// Emitted when the character touches ground after being airborne.
#[derive(Clone, Copy, Debug, PartialEq, Eq, Structural)]
pub struct PlayerLandEvent {
    pub entity: BodyId,
}

/// Emitted when a front flip or dive roll begins.
#[derive(Clone, Copy, Debug, PartialEq, Eq, Structural)]
pub struct PlayerFlipEvent {
    pub entity: BodyId,
    pub flip_type: FlipType,
}

/// Emitted once when the character drops below the fall threshold.
#[derive(Clone, Copy, Debug, PartialEq, Eq, Structural)]
pub struct PlayerFallEvent {
    pub entity: BodyId,
    pub position: Vec3,
}

/// Emitted when the character is put back at the spawn point.
#[derive(Clone, Copy, Debug, PartialEq, Eq, Structural)]
pub struct PlayerSpawnEvent {
    pub position: Vec3,
}

/// Emitted when the character bounces off a trampoline.
#[derive(Clone, Copy, Debug, PartialEq, Eq, Structural)]
pub struct TrampolineBounceEvent {
    pub player_entity: BodyId,
    pub bounce_force: i64,
    pub platform_entity: BodyId,
}

/// Any event the core emits, in the order it occurred. `Flipped` also
/// tells the animation layer which maneuver animation to play; that layer
/// reports its end back through `Player::animation_finished`.
#[derive(Clone, Copy, Debug, PartialEq, Eq, Structural)]
pub enum GameplayEvent {
    Jumped(PlayerJumpEvent),
    Flipped(PlayerFlipEvent),
    Landed(PlayerLandEvent),
    Bounced(TrampolineBounceEvent),
    Fell(PlayerFallEvent),
    Spawned(PlayerSpawnEvent),
}

/// The one-element sequence holding `e`, or the empty one.
pub open spec fn optional_event(e: Option<GameplayEvent>) -> Seq<GameplayEvent> {
    match e {
        Some(x) => seq![x],
        None => Seq::empty(),
    }
}

} // verus!
