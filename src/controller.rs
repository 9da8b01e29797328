//! The character's motion state machine: horizontal movement with friction,
//! jumping, front flips and dive rolls, grounding, falling and respawning.
use vstd::prelude::*;

use crate::bounce::BOUNCE_FORCE;
use crate::events::{
    BodyId, FlipType, PlayerFallEvent, PlayerFlipEvent, PlayerJumpEvent, PlayerLandEvent,
    PlayerSpawnEvent,
};
use crate::geometry::{scale_ratio, scale_toward_zero, Vec3, UNIT};
use crate::hitbox::{required_hitbox, HitboxShape};

verus! {

/// Walking speed of a freshly spawned character.
pub const PLAYER_SPEED: i64 = 5000;

/// Largest walking speed a well-formed character may have.
pub const MAX_SPEED: i64 = 1_000_000;

/// Vertical speed set by a jump.
pub const JUMP_SPEED: i64 = 8000;

/// Horizontal impulse direction locked in by a front flip.
pub const FRONT_FLIP_IMPULSE: i64 = 500;

/// Horizontal impulse direction locked in by a dive roll.
pub const DIVE_ROLL_IMPULSE: i64 = 400;

/// Percentage of horizontal speed kept per idle tick on the ground.
pub const GROUND_FRICTION_PERCENT: i64 = 7;

/// Percentage of horizontal speed kept per idle tick in the air.
pub const AIR_FRICTION_PERCENT: i64 = 95;

/// Horizontal speed above which a moving character counts as walking.
pub const WALK_SPEED_THRESHOLD: i64 = 100;

/// Height below which the character has fallen out of the world.
pub const FALL_THRESHOLD: i64 = -10_000;

/// Height of the spawn point; its other coordinates are zero.
pub const SPAWN_HEIGHT: i64 = 7000;

/// The acrobatic maneuver in progress, if any.
#[derive(Clone, Copy, Debug, PartialEq, Eq, Structural)]
pub enum Maneuver {
    /// No maneuver: the character follows input.
    Free,
    FrontFlip,
    DiveRoll,
}

/// The locomotion state shown to presentation layers.
#[derive(Clone, Copy, Debug, PartialEq, Eq, Structural)]
pub enum Locomotion {
    Idle,
    Walking,
    Airborne,
    FrontFlipping,
    DiveRolling,
}

impl Maneuver {
    pub open spec fn is_acrobatic(self) -> bool {
        self != Maneuver::Free
    }
}

/// The maneuver started by a flip request of the given kind.
pub open spec fn maneuver_of(kind: FlipType) -> Maneuver {
    match kind {
        FlipType::Front => Maneuver::FrontFlip,
        FlipType::Dive => Maneuver::DiveRoll,
    }
}

/// Size of the horizontal impulse direction of a maneuver.
pub open spec fn impulse_of(kind: FlipType) -> int {
    match kind {
        FlipType::Front => FRONT_FLIP_IMPULSE as int,
        FlipType::Dive => DIVE_ROLL_IMPULSE as int,
    }
}

/// The fixed spawn point.
pub open spec fn spawn_point() -> Vec3 {
    Vec3 { x: 0, y: SPAWN_HEIGHT, z: 0 }
}

/// Horizontal speed after one idle tick of friction.
pub open spec fn friction_decay(vx: int, grounded: bool) -> int {
    if grounded {
        scale_toward_zero(vx, GROUND_FRICTION_PERCENT as int, 100)
    } else {
        scale_toward_zero(vx, AIR_FRICTION_PERCENT as int, 100)
    }
}

/// Horizontal speed imposed while a maneuver runs: the locked direction
/// times the walking speed times 1.5 (front flip) or 2 (dive roll).
pub open spec fn maneuver_speed(maneuver: Maneuver, direction_x: int, speed: int) -> int {
    match maneuver {
        Maneuver::FrontFlip => scale_toward_zero(direction_x * speed, 3, 2 * UNIT as int),
        _ => scale_toward_zero(direction_x * speed, 2, UNIT as int),
    }
}

/// The state of one controlled character.
#[derive(Clone, Copy, Debug, PartialEq, Eq, Structural)]
pub struct Player {
    /// The character's physics body.
    pub entity: BodyId,
    /// Walking speed.
    pub speed: i64,
    /// Whether the last move request asked for motion.
    pub is_moving: bool,
    /// Whether the ground probe found support on the last tick.
    pub is_grounded: bool,
    pub facing_left: bool,
    pub maneuver: Maneuver,
    /// Horizontal direction locked in when the current maneuver began.
    pub flip_direction: Vec3,
    /// Latched when the character falls out of the world, cleared by respawn.
    pub has_fallen: bool,
    /// The collision shape in place.
    pub hitbox: HitboxShape,
    pub position: Vec3,
    pub linear_velocity: Vec3,
    pub angular_velocity: Vec3,
}

impl Player {
    /// The character's invariant: a bounded speed, a bounded locked
    /// direction, and a collision shape that matches the maneuver.
    pub open spec fn wf(self) -> bool {
        &&& 0 <= self.speed <= MAX_SPEED
        &&& -UNIT <= self.flip_direction.x <= UNIT
        &&& self.hitbox == required_hitbox(self.maneuver == Maneuver::DiveRoll)
    }

    pub open spec fn spec_locomotion(self) -> Locomotion {
        match self.maneuver {
            Maneuver::FrontFlip => Locomotion::FrontFlipping,
            Maneuver::DiveRoll => Locomotion::DiveRolling,
            Maneuver::Free => if !self.is_grounded {
                Locomotion::Airborne
            } else if self.is_moving && (self.linear_velocity.x > WALK_SPEED_THRESHOLD
                || self.linear_velocity.x < -WALK_SPEED_THRESHOLD) {
                Locomotion::Walking
            } else {
                Locomotion::Idle
            },
        }
    }

    /// The state after a move request; `direction` is -1, 0 or 1.
    pub open spec fn after_move(self, direction: int) -> Player {
        if self.maneuver.is_acrobatic() {
            self
        } else {
            let vx = if direction == 0 {
                friction_decay(self.linear_velocity.x as int, self.is_grounded)
            } else {
                direction * self.speed
            };
            Player {
                is_moving: direction != 0,
                facing_left: if direction < 0 {
                    true
                } else if direction > 0 {
                    false
                } else {
                    self.facing_left
                },
                linear_velocity: Vec3 { x: vx as i64, ..self.linear_velocity },
                ..self
            }
        }
    }

    /// The state after a jump request.
    pub open spec fn after_jump(self) -> Player {
        if self.is_grounded {
            Player { linear_velocity: Vec3 { y: JUMP_SPEED, ..self.linear_velocity }, ..self }
        } else {
            self
        }
    }

    /// Whether a flip request takes effect.
    pub open spec fn flip_allowed(self) -> bool {
        self.is_grounded && !self.maneuver.is_acrobatic()
    }

    /// The state after a flip request of the given kind.
    pub open spec fn after_flip(self, kind: FlipType) -> Player {
        if self.flip_allowed() {
            let m = impulse_of(kind);
            Player {
                maneuver: maneuver_of(kind),
                flip_direction: Vec3 {
                    x: (if self.facing_left { -m } else { m }) as i64,
                    y: 0,
                    z: 0,
                },
                hitbox: required_hitbox(kind == FlipType::Dive),
                ..self
            }
        } else {
            self
        }
    }

    /// The state after a tick in which the ground probe answered `supported`.
    pub open spec fn after_tick(self, supported: bool) -> Player {
        let vx = if self.maneuver.is_acrobatic() {
            maneuver_speed(self.maneuver, self.flip_direction.x as int, self.speed as int) as i64
        } else {
            self.linear_velocity.x
        };
        Player {
            is_grounded: supported,
            linear_velocity: Vec3 { x: vx, ..self.linear_velocity },
            ..self
        }
    }

    /// The state after the running maneuver is over.
    pub open spec fn after_end_acrobatic(self) -> Player {
        Player { maneuver: Maneuver::Free, hitbox: HitboxShape::Standard, ..self }
    }

    /// Whether a fall check at the current position reports a fall.
    pub open spec fn fall_fires(self) -> bool {
        self.position.y < FALL_THRESHOLD && !self.has_fallen
    }

    /// The state after a fall check.
    pub open spec fn after_fall_check(self) -> Player {
        if self.fall_fires() {
            Player { has_fallen: true, ..self }
        } else {
            self
        }
    }

    /// The state after a respawn.
    pub open spec fn after_respawn(self) -> Player {
        Player {
            position: spawn_point(),
            linear_velocity: Vec3 { x: 0, y: 0, z: 0 },
            angular_velocity: Vec3 { x: 0, y: 0, z: 0 },
            has_fallen: false,
            ..self
        }
    }

    /// The state after a trampoline bounce.
    pub open spec fn after_bounce(self) -> Player {
        Player { linear_velocity: Vec3 { y: BOUNCE_FORCE, ..self.linear_velocity }, ..self }
    }

    /// A character freshly spawned at `position`: at rest, not yet grounded,
    /// facing right, with no maneuver and the standing collision shape.
    pub open spec fn new_spec(entity: BodyId, position: Vec3) -> Player {
        Player {
            entity,
            speed: PLAYER_SPEED,
            is_moving: false,
            is_grounded: false,
            facing_left: false,
            maneuver: Maneuver::Free,
            flip_direction: Vec3 { x: 0, y: 0, z: 0 },
            has_fallen: false,
            hitbox: HitboxShape::Standard,
            position,
            linear_velocity: Vec3 { x: 0, y: 0, z: 0 },
            angular_velocity: Vec3 { x: 0, y: 0, z: 0 },
        }
    }

    /// A character freshly spawned at `position`: at rest, not yet grounded,
    /// facing right, with no maneuver and the standing collision shape.
    pub fn new(entity: BodyId, position: Vec3) -> (r: Player)
        ensures
            r == Player::new_spec(entity, position),
            r.wf(),
            r.spec_locomotion() == Locomotion::Airborne,
    {
        Player {
            entity,
            speed: PLAYER_SPEED,
            is_moving: false,
            is_grounded: false,
            facing_left: false,
            maneuver: Maneuver::Free,
            flip_direction: Vec3::zero(),
            has_fallen: false,
            hitbox: HitboxShape::Standard,
            position,
            linear_velocity: Vec3::zero(),
            angular_velocity: Vec3::zero(),
        }
    }

    /// The locomotion state: the maneuver if one runs, else airborne,
    /// walking or idle from grounding, the move request and the speed.
    pub fn locomotion(&self) -> (r: Locomotion)
        ensures
            r == self.spec_locomotion(),
    {
        match self.maneuver {
            Maneuver::FrontFlip => Locomotion::FrontFlipping,
            Maneuver::DiveRoll => Locomotion::DiveRolling,
            Maneuver::Free => if !self.is_grounded {
                Locomotion::Airborne
            } else if self.is_moving && (self.linear_velocity.x > WALK_SPEED_THRESHOLD
                || self.linear_velocity.x < -WALK_SPEED_THRESHOLD) {
                Locomotion::Walking
            } else {
                Locomotion::Idle
            },
        }
    }

    /// Handles a move request. Ignored while a maneuver runs. Otherwise a
    /// non-zero `direction` turns the character that way and sets the
    /// horizontal speed to `direction * speed`; a zero `direction` applies
    /// one tick of friction (strong on the ground, light in the air).
    pub fn apply_move_intent(&mut self, direction: i8)
        requires
            old(self).wf(),
            -1 <= direction <= 1,
        ensures
            *final(self) == old(self).after_move(direction as int),
            final(self).wf(),
    {
        if self.maneuver != Maneuver::Free {
            return;
        }
        self.is_moving = direction != 0;
        if direction < 0 {
            self.facing_left = true;
        } else if direction > 0 {
            self.facing_left = false;
        }
        if direction == 0 {
            let percent: i64 = if self.is_grounded {
                GROUND_FRICTION_PERCENT
            } else {
                AIR_FRICTION_PERCENT
            };
            self.linear_velocity.x = scale_ratio(self.linear_velocity.x, percent, 100);
        } else {
            if direction < 0 {
                assert(direction == -1);
                self.linear_velocity.x = -self.speed;
            } else {
                assert(direction == 1);
                self.linear_velocity.x = self.speed;
            }
        }
    }

    /// Handles a jump request: on the ground the vertical speed becomes
    /// the jump speed, whatever it was; in the air nothing changes.
    pub fn apply_jump_intent(&mut self) -> (r: Option<PlayerJumpEvent>)
        requires
            old(self).wf(),
        ensures
            *final(self) == old(self).after_jump(),
            final(self).wf(),
            !old(self).is_grounded ==> final(self).linear_velocity.y == old(
                self,
            ).linear_velocity.y,
            r == (if old(self).is_grounded {
                Some(PlayerJumpEvent { entity: old(self).entity })
            } else {
                None
            }),
    {
        if self.is_grounded {
            self.linear_velocity.y = JUMP_SPEED;
            Some(PlayerJumpEvent { entity: self.entity })
        } else {
            None
        }
    }

    /// Handles a flip request. It takes effect only on the ground and when
    /// no maneuver runs: the maneuver starts, its direction is locked from
    /// the current facing, and a dive roll switches to the feet hitbox.
    pub fn apply_flip_intent(&mut self, kind: FlipType) -> (r: Option<PlayerFlipEvent>)
        requires
            old(self).wf(),
        ensures
            *final(self) == old(self).after_flip(kind),
            final(self).wf(),
            r == (if old(self).flip_allowed() {
                Some(PlayerFlipEvent { entity: old(self).entity, flip_type: kind })
            } else {
                None
            }),
    {
        if !self.is_grounded || self.maneuver != Maneuver::Free {
            return None;
        }
        let magnitude: i64 = match kind {
            FlipType::Front => FRONT_FLIP_IMPULSE,
            FlipType::Dive => DIVE_ROLL_IMPULSE,
        };
        let x: i64 = if self.facing_left {
            -magnitude
        } else {
            magnitude
        };
        self.flip_direction = Vec3::new(x, 0, 0);
        match kind {
            FlipType::Front => {
                self.maneuver = Maneuver::FrontFlip;
                self.hitbox = HitboxShape::Standard;
            },
            FlipType::Dive => {
                self.maneuver = Maneuver::DiveRoll;
                self.hitbox = HitboxShape::DiveRollFeet;
            },
        }
        Some(PlayerFlipEvent { entity: self.entity, flip_type: kind })
    }

    /// One simulation tick: records the ground probe's answer and, while a
    /// maneuver runs, imposes its horizontal speed (vertical speed is left
    /// to gravity). Reports a landing when support appears.
    pub fn tick(&mut self, supported: bool) -> (r: Option<PlayerLandEvent>)
        requires
            old(self).wf(),
        ensures
            *final(self) == old(self).after_tick(supported),
            final(self).wf(),
            r == (if !old(self).is_grounded && supported {
                Some(PlayerLandEvent { entity: old(self).entity })
            } else {
                None
            }),
    {
        let was_grounded = self.is_grounded;
        self.is_grounded = supported;
        proof {
            let (fx, sp) = (self.flip_direction.x as int, self.speed as int);
            assert(-UNIT * MAX_SPEED <= fx * sp <= UNIT * MAX_SPEED) by (nonlinear_arith)
                requires -UNIT <= fx <= UNIT, 0 <= sp <= MAX_SPEED;
        }
        let product: i64 = self.flip_direction.x * self.speed;
        match self.maneuver {
            Maneuver::FrontFlip => {
                self.linear_velocity.x = scale_ratio(product, 3, 2 * UNIT);
            },
            Maneuver::DiveRoll => {
                self.linear_velocity.x = scale_ratio(product, 2, UNIT);
            },
            Maneuver::Free => {},
        }
        if !was_grounded && supported {
            Some(PlayerLandEvent { entity: self.entity })
        } else {
            None
        }
    }

    /// Ends the running maneuver (its animation has finished): back to
    /// free movement with the standing hitbox. Without a maneuver the
    /// state is left as it is.
    pub fn end_acrobatic(&mut self)
        requires
            old(self).wf(),
        ensures
            *final(self) == old(self).after_end_acrobatic(),
            final(self).wf(),
            !old(self).maneuver.is_acrobatic() ==> *final(self) == *old(self),
    {
        self.maneuver = Maneuver::Free;
        self.hitbox = HitboxShape::Standard;
    }

    /// The presentation layer reports that the animation of `kind`
    /// finished: ends that maneuver if it is the one running.
    pub fn animation_finished(&mut self, kind: FlipType)
        requires
            old(self).wf(),
        ensures
            *final(self) == (if old(self).maneuver == maneuver_of(kind) {
                old(self).after_end_acrobatic()
            } else {
                *old(self)
            }),
            final(self).wf(),
    {
        let running = match kind {
            FlipType::Front => self.maneuver == Maneuver::FrontFlip,
            FlipType::Dive => self.maneuver == Maneuver::DiveRoll,
        };
        if running {
            self.end_acrobatic();
        }
    }

    /// Edge-triggered fall detection: reports a fall the first time the
    /// character is below the threshold, then stays silent until respawn.
    pub fn check_fall(&mut self) -> (r: Option<PlayerFallEvent>)
        requires
            old(self).wf(),
        ensures
            *final(self) == old(self).after_fall_check(),
            final(self).wf(),
            r == (if old(self).fall_fires() {
                Some(PlayerFallEvent { entity: old(self).entity, position: old(self).position })
            } else {
                None
            }),
    {
        if self.position.y < FALL_THRESHOLD && !self.has_fallen {
            self.has_fallen = true;
            Some(PlayerFallEvent { entity: self.entity, position: self.position })
        } else {
            None
        }
    }

    /// Puts the character back at the spawn point at rest and clears the
    /// fall latch.
    pub fn respawn(&mut self) -> (r: PlayerSpawnEvent)
        requires
            old(self).wf(),
        ensures
            *final(self) == old(self).after_respawn(),
            final(self).wf(),
            r == (PlayerSpawnEvent { position: spawn_point() }),
    {
        let spawn = Vec3::new(0, SPAWN_HEIGHT, 0);
        self.position = spawn;
        self.linear_velocity = Vec3::zero();
        self.angular_velocity = Vec3::zero();
        self.has_fallen = false;
        PlayerSpawnEvent { position: spawn }
    }

    /// Applies a trampoline bounce: the vertical speed becomes the bounce
    /// force and the horizontal speed is kept.
    pub fn apply_bounce(&mut self)
        requires
            old(self).wf(),
        ensures
            *final(self) == old(self).after_bounce(),
            final(self).wf(),
    {
        self.linear_velocity.y = BOUNCE_FORCE;
    }

    /// Whether a front flip or dive roll is running.
    pub fn is_acrobatic(&self) -> (r: bool)
        ensures
            r == self.maneuver.is_acrobatic(),
    {
        self.maneuver != Maneuver::Free
    }
}

} // verus!
