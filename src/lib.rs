//! Gameplay core of a 3D platformer: the character's motion state machine,
//! ground probing, trampoline bounces and the fall / respawn sequence.
//!
//! All quantities are fixed-point integers: lengths and speeds are in
//! thousandths of a world unit (per second), times are in milliseconds.
//! The physics engine, rendering and input devices stay outside: the core
//! takes their readings as plain values and returns its decisions.

pub mod bounce;
pub mod character;
pub mod controller;
pub mod events;
pub mod fall;
pub mod geometry;
pub mod hitbox;
pub mod input;
pub mod laws;
pub mod probe;
pub mod trampoline;

pub use bounce::{
    BounceCooldown, BounceState, CollisionEvent, CollisionKind, Platform, PlatformType, SurfaceTag,
};
pub use character::{Character, TickOutput};
pub use controller::{Locomotion, Maneuver, Player};
pub use events::{
    BodyId, FlipType, GameplayEvent, PlayerFallEvent, PlayerFlipEvent, PlayerJumpEvent,
    PlayerLandEvent, PlayerSpawnEvent, TrampolineBounceEvent,
};
pub use fall::{FallSequence, FallStep};
pub use geometry::Vec3;
pub use hitbox::{hitbox_change, HitboxChange, HitboxShape};
pub use input::{intents_from_controls, ControlState, PlayerIntent};
pub use probe::{ground_probe, is_supported, RayQuery};
pub use trampoline::{TrampolineAnimation, TrampolinePose};
