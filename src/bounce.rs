//! Trampoline bounces. Two detection paths feed the same event: collision
//! starts between the character and a bouncy surface, and a proximity test
//! that catches contacts the physics engine misses on kinematically animated
//! surfaces. Each path has its own cooldown.
use vstd::prelude::*;

use crate::controller::Player;
use crate::events::{BodyId, TrampolineBounceEvent};
use crate::geometry::Vec3;

verus! {

/// Upward speed imparted by a bounce.
pub const BOUNCE_FORCE: i64 = 12_000;

/// Cooldown of the collision path, in milliseconds.
pub const CONTACT_COOLDOWN_MS: u64 = 200;

/// Cooldown of the proximity path, in milliseconds.
pub const PROXIMITY_COOLDOWN_MS: u64 = 300;

/// Horizontal distance from a trampoline's center within which the
/// proximity path triggers (exclusive).
pub const PROXIMITY_RADIUS: i64 = 2500;

/// Lowest height above a trampoline's center for the proximity path.
pub const PROXIMITY_MIN_HEIGHT: i64 = 500;

/// Highest height above a trampoline's center for the proximity path.
pub const PROXIMITY_MAX_HEIGHT: i64 = 1500;

/// The proximity path only triggers below this vertical speed, so that a
/// character still rising from a bounce is left alone.
pub const PROXIMITY_MAX_RISE: i64 = 1000;

/// A bounce gate: a bounce may fire only once the cooldown since the last
/// one has run out.
#[derive(Clone, Copy, Debug, PartialEq, Eq, Structural)]
pub struct BounceCooldown {
    /// Time of the last bounce, if any, in milliseconds.
    pub last_bounce_at: Option<u64>,
    /// Length of the cooldown, in milliseconds.
    pub window_ms: u64,
}

impl BounceCooldown {
    pub open spec fn wf(self) -> bool {
        self.window_ms > 0
    }

    /// Whether a bounce may fire at time `now`.
    pub open spec fn ready_at(self, now: int) -> bool {
        match self.last_bounce_at {
            None => true,
            Some(t) => now >= t + self.window_ms,
        }
    }

    /// Time left before a bounce may fire again (a full cooldown for a
    /// time that is not after the last bounce).
    pub open spec fn remaining_at(self, now: int) -> int {
        match self.last_bounce_at {
            None => 0,
            Some(t) => if now >= t + self.window_ms {
                0
            } else if now <= t {
                self.window_ms as int
            } else {
                t + self.window_ms - now
            },
        }
    }

    /// This cooldown once a bounce fired at `now`.
    pub open spec fn fired_at(self, now: u64) -> BounceCooldown {
        BounceCooldown { last_bounce_at: Some(now), ..self }
    }

    /// This cooldown once a bounce was attempted at `now`.
    pub open spec fn after_attempt(self, now: u64) -> BounceCooldown {
        if self.ready_at(now as int) {
            self.fired_at(now)
        } else {
            self
        }
    }

    /// A gate that has never fired, with the given cooldown.
    pub fn new(window_ms: u64) -> (r: BounceCooldown)
        requires
            window_ms > 0,
        ensures
            r.wf(),
            r.window_ms == window_ms,
            r.last_bounce_at.is_none(),
    {
        BounceCooldown { last_bounce_at: None, window_ms }
    }

    /// Time left before a bounce may fire again, in milliseconds.
    pub fn cooldown_remaining(&self, now: u64) -> (r: u64)
        requires
            self.wf(),
        ensures
            r == self.remaining_at(now as int),
            r == 0 <==> self.ready_at(now as int),
    {
        match self.last_bounce_at {
            None => 0,
            Some(t) => {
                let since: u64 = now.saturating_sub(t);
                if since >= self.window_ms {
                    0
                } else {
                    self.window_ms - since
                }
            },
        }
    }

    /// Fires at `now` if the cooldown has run out; reports whether it did.
    pub fn try_fire(&mut self, now: u64) -> (r: bool)
        ensures
            r == old(self).ready_at(now as int),
            *final(self) == old(self).after_attempt(now),
    {
        let ready = match self.last_bounce_at {
            None => true,
            Some(t) => now >= t && now - t >= self.window_ms,
        };
        if ready {
            self.last_bounce_at = Some(now);
        }
        ready
    }
}

/// Whether a body is a bouncy surface.
#[derive(Clone, Copy, Debug, PartialEq, Eq, Structural)]
pub enum SurfaceTag {
    Plain,
    Bouncy,
}

/// Whether two bodies started or stopped touching.
#[derive(Clone, Copy, Debug, PartialEq, Eq, Structural)]
pub enum CollisionKind {
    Started,
    Stopped,
}

/// A contact event from the physics engine, with the tag of each body.
#[derive(Clone, Copy, Debug, PartialEq, Eq, Structural)]
pub struct CollisionEvent {
    pub kind: CollisionKind,
    pub body_a: BodyId,
    pub tag_a: SurfaceTag,
    pub body_b: BodyId,
    pub tag_b: SurfaceTag,
}

/// The bouncy surface that the character starts touching in `e`, if any.
pub open spec fn bounce_surface_of(e: CollisionEvent, player: BodyId) -> Option<BodyId> {
    if e.kind != CollisionKind::Started {
        None
    } else if e.body_a == player && e.tag_b == SurfaceTag::Bouncy {
        Some(e.body_b)
    } else if e.body_b == player && e.tag_a == SurfaceTag::Bouncy {
        Some(e.body_a)
    } else {
        None
    }
}

/// The bounce event for the character and a surface.
pub open spec fn bounce_event(player: BodyId, surface: BodyId) -> TrampolineBounceEvent {
    TrampolineBounceEvent {
        player_entity: player,
        bounce_force: BOUNCE_FORCE,
        platform_entity: surface,
    }
}

/// The bouncy surface of the first event of `events` in which the
/// character starts touching one, if there is such an event.
pub open spec fn first_bounce_surface(events: Seq<CollisionEvent>, player: BodyId) -> Option<BodyId>
    decreases events.len(),
{
    if events.len() == 0 {
        None
    } else {
        match bounce_surface_of(events[0], player) {
            Some(s) => Some(s),
            None => first_bounce_surface(events.subrange(1, events.len() as int), player),
        }
    }
}

/// What the collision path reports for a tick, given its gate.
pub open spec fn contact_bounce(
    gate: BounceCooldown,
    now: u64,
    player: BodyId,
    events: Seq<CollisionEvent>,
) -> Option<TrampolineBounceEvent> {
    if gate.ready_at(now as int) {
        match first_bounce_surface(events, player) {
            Some(s) => Some(bounce_event(player, s)),
            None => None,
        }
    } else {
        None
    }
}

/// The kind of a platform.
#[derive(Clone, Copy, Debug, PartialEq, Eq, Structural)]
pub enum PlatformType {
    Ground,
    Floating,
    Small,
    SteppingStone,
    Bridge,
    Moving,
    Trampoline,
}

/// A platform of the level, as the bounce handler sees it.
#[derive(Clone, Copy, Debug, PartialEq, Eq, Structural)]
pub struct Platform {
    pub entity: BodyId,
    pub platform_type: PlatformType,
    /// Center of the platform.
    pub center: Vec3,
}

/// Whether a character at `pos` stands on the trampoline centered at
/// `center`: horizontally within the radius, and at a height above the
/// center within the accepted band.
pub open spec fn in_bounce_zone(pos: Vec3, center: Vec3) -> bool {
    let dx = pos.x - center.x;
    let dz = pos.z - center.z;
    let dy = pos.y - center.y;
    &&& dx * dx + dz * dz < PROXIMITY_RADIUS * PROXIMITY_RADIUS
    &&& PROXIMITY_MIN_HEIGHT <= dy <= PROXIMITY_MAX_HEIGHT
}

/// Whether the proximity path sees `player` on platform `p`.
pub open spec fn proximity_qualifies(player: Player, p: Platform) -> bool {
    &&& p.platform_type == PlatformType::Trampoline
    &&& player.is_grounded
    &&& player.linear_velocity.y < PROXIMITY_MAX_RISE
    &&& in_bounce_zone(player.position, p.center)
}

/// The first platform of `platforms` on which the proximity path sees the
/// character, if there is one.
pub open spec fn first_proximity_platform(platforms: Seq<Platform>, player: Player) -> Option<Platform>
    decreases platforms.len(),
{
    if platforms.len() == 0 {
        None
    } else if proximity_qualifies(player, platforms[0]) {
        Some(platforms[0])
    } else {
        first_proximity_platform(platforms.subrange(1, platforms.len() as int), player)
    }
}

/// What the proximity path reports for a tick, given its gate.
pub open spec fn proximity_bounce(
    gate: BounceCooldown,
    now: u64,
    player: Player,
    platforms: Seq<Platform>,
) -> Option<TrampolineBounceEvent> {
    if gate.ready_at(now as int) {
        match first_proximity_platform(platforms, player) {
            Some(p) => Some(bounce_event(player.entity, p.entity)),
            None => None,
        }
    } else {
        None
    }
}

/// A gate after a tick in which its path reported `r`.
pub open spec fn gate_after(gate: BounceCooldown, now: u64, r: Option<TrampolineBounceEvent>) -> BounceCooldown {
    if r.is_some() {
        gate.fired_at(now)
    } else {
        gate
    }
}

/// The surface that the character starts touching in `event`, if it is a
/// bouncy one.
pub fn bounce_surface(event: &CollisionEvent, player: BodyId) -> (r: Option<BodyId>)
    ensures
        r == bounce_surface_of(*event, player),
{
    match event.kind {
        CollisionKind::Stopped => None,
        CollisionKind::Started => {
            if event.body_a == player && event.tag_b == SurfaceTag::Bouncy {
                Some(event.body_b)
            } else if event.body_b == player && event.tag_a == SurfaceTag::Bouncy {
                Some(event.body_a)
            } else {
                None
            }
        },
    }
}

/// Whether a character at `pos` is in the bounce zone of the trampoline
/// centered at `center`.
pub fn is_in_bounce_zone(pos: Vec3, center: Vec3) -> (r: bool)
    ensures
        r == in_bounce_zone(pos, center),
{
    let dx: i128 = pos.x as i128 - center.x as i128;
    let dz: i128 = pos.z as i128 - center.z as i128;
    let dy: i128 = pos.y as i128 - center.y as i128;
    let radius: i128 = PROXIMITY_RADIUS as i128;
    let height_ok = PROXIMITY_MIN_HEIGHT as i128 <= dy && dy <= PROXIMITY_MAX_HEIGHT as i128;
    if dx <= -radius || dx >= radius || dz <= -radius || dz >= radius {
        proof {
            let (x, z, rr) = (dx as int, dz as int, radius as int);
            assert(x * x + z * z >= rr * rr) by (nonlinear_arith)
                requires rr > 0, x <= -rr || x >= rr || z <= -rr || z >= rr;
        }
        return false;
    }
    proof {
        let (x, z, rr) = (dx as int, dz as int, radius as int);
        assert(0 <= x * x < rr * rr) by (nonlinear_arith)
            requires -rr < x < rr;
        assert(0 <= z * z < rr * rr) by (nonlinear_arith)
            requires -rr < z < rr;
    }
    dx * dx + dz * dz < radius * radius && height_ok
}

/// The two bounce gates of one character.
#[derive(Clone, Copy, Debug, PartialEq, Eq, Structural)]
pub struct BounceState {
    /// Gate of the collision path.
    pub contact: BounceCooldown,
    /// Gate of the proximity path.
    pub proximity: BounceCooldown,
}

impl BounceState {
    pub open spec fn wf(self) -> bool {
        self.contact.wf() && self.proximity.wf()
    }

    /// Gates that have never fired, with the standard cooldowns.
    pub open spec fn new_spec() -> BounceState {
        BounceState {
            contact: BounceCooldown { last_bounce_at: None, window_ms: CONTACT_COOLDOWN_MS },
            proximity: BounceCooldown { last_bounce_at: None, window_ms: PROXIMITY_COOLDOWN_MS },
        }
    }

    /// Gates that have never fired, with the standard cooldowns.
    pub fn new() -> (r: BounceState)
        ensures
            r == BounceState::new_spec(),
            r.wf(),
    {
        BounceState {
            contact: BounceCooldown::new(CONTACT_COOLDOWN_MS),
            proximity: BounceCooldown::new(PROXIMITY_COOLDOWN_MS),
        }
    }

    /// The collision path. The first event of the tick in which the
    /// character starts touching a bouncy surface fires a bounce on that
    /// surface if the collision cooldown has run out; later events of the
    /// same tick are then inside the cooldown.
    pub fn handle_collisions(
        &mut self,
        now: u64,
        player: BodyId,
        events: &Vec<CollisionEvent>,
    ) -> (r: Option<TrampolineBounceEvent>)
        requires
            old(self).wf(),
        ensures
            final(self).wf(),
            final(self).proximity == old(self).proximity,
            r == contact_bounce(old(self).contact, now, player, events@),
            final(self).contact == gate_after(old(self).contact, now, r),
    {
        let mut i: usize = 0;
        assert(events@.subrange(0, events.len() as int) =~= events@);
        while i < events.len()
            invariant
                0 <= i <= events.len(),
                *self == *old(self),
                self.wf(),
                first_bounce_surface(events@, player) == first_bounce_surface(
                    events@.subrange(i as int, events.len() as int),
                    player,
                ),
            decreases events.len() - i,
        {
            let ghost rest = events@.subrange(i as int, events.len() as int);
            assert(rest[0] == events@[i as int]);
            match bounce_surface(&events[i], player) {
                Some(surface) => {
                    if self.contact.try_fire(now) {
                        return Some(
                            TrampolineBounceEvent {
                                player_entity: player,
                                bounce_force: BOUNCE_FORCE,
                                platform_entity: surface,
                            },
                        );
                    } else {
                        return None;
                    }
                },
                None => {
                    assert(rest.subrange(1, rest.len() as int) =~= events@.subrange(
                        i + 1,
                        events.len() as int,
                    ));
                },
            }
            i = i + 1;
        }
        assert(events@.subrange(i as int, events.len() as int).len() == 0);
        None
    }

    /// The proximity path. The first trampoline in `platforms` on which the
    /// grounded, not rising character stands fires a bounce if the
    /// proximity cooldown has run out.
    pub fn handle_proximity(
        &mut self,
        now: u64,
        player: &Player,
        platforms: &Vec<Platform>,
    ) -> (r: Option<TrampolineBounceEvent>)
        requires
            old(self).wf(),
        ensures
            final(self).wf(),
            final(self).contact == old(self).contact,
            r == proximity_bounce(old(self).proximity, now, *player, platforms@),
            final(self).proximity == gate_after(old(self).proximity, now, r),
    {
        let mut i: usize = 0;
        assert(platforms@.subrange(0, platforms.len() as int) =~= platforms@);
        while i < platforms.len()
            invariant
                0 <= i <= platforms.len(),
                *self == *old(self),
                self.wf(),
                first_proximity_platform(platforms@, *player) == first_proximity_platform(
                    platforms@.subrange(i as int, platforms.len() as int),
                    *player,
                ),
            decreases platforms.len() - i,
        {
            let ghost rest = platforms@.subrange(i as int, platforms.len() as int);
            assert(rest[0] == platforms@[i as int]);
            let p = platforms[i];
            let qualifies = p.platform_type == PlatformType::Trampoline && player.is_grounded
                && player.linear_velocity.y < PROXIMITY_MAX_RISE && is_in_bounce_zone(
                player.position,
                p.center,
            );
            if qualifies {
                if self.proximity.try_fire(now) {
                    return Some(
                        TrampolineBounceEvent {
                            player_entity: player.entity,
                            bounce_force: BOUNCE_FORCE,
                            platform_entity: p.entity,
                        },
                    );
                } else {
                    return None;
                }
            }
            assert(rest.subrange(1, rest.len() as int) =~= platforms@.subrange(
                i + 1,
                platforms.len() as int,
            ));
            i = i + 1;
        }
        assert(platforms@.subrange(i as int, platforms.len() as int).len() == 0);
        None
    }
}

} // verus!
