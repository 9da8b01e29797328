//! One controlled character and the fixed order in which a simulation tick
//! updates it: intents, ground probe and maneuver speed, bounces, falling
//! and respawning.
use vstd::prelude::*;

use crate::bounce::{
    contact_bounce, gate_after, proximity_bounce, BounceState, CollisionEvent, Platform,
};
use crate::controller::{spawn_point, Player, SPAWN_HEIGHT};
use crate::events::{
    optional_event, BodyId, GameplayEvent, PlayerFallEvent, PlayerFlipEvent, PlayerJumpEvent,
    PlayerLandEvent, PlayerSpawnEvent,
};
use crate::fall::FallSequence;
use crate::geometry::Vec3;
use crate::input::PlayerIntent;

verus! {

/// The state after one intent.
pub open spec fn after_intent(p: Player, i: PlayerIntent) -> Player {
    match i {
        PlayerIntent::Move(d) => p.after_move(d as int),
        PlayerIntent::Jump => p.after_jump(),
        PlayerIntent::Flip(k) => p.after_flip(k),
    }
}

/// The event one intent emits.
pub open spec fn intent_event(p: Player, i: PlayerIntent) -> Option<GameplayEvent> {
    match i {
        PlayerIntent::Move(_) => None,
        PlayerIntent::Jump => if p.is_grounded {
            Some(GameplayEvent::Jumped(PlayerJumpEvent { entity: p.entity }))
        } else {
            None
        },
        PlayerIntent::Flip(k) => if p.flip_allowed() {
            Some(GameplayEvent::Flipped(PlayerFlipEvent { entity: p.entity, flip_type: k }))
        } else {
            None
        },
    }
}

/// Whether every move intent of `s` has a direction of -1, 0 or 1.
pub open spec fn valid_intents(s: Seq<PlayerIntent>) -> bool {
    forall|i: int|
        0 <= i < s.len() ==> match #[trigger] s[i] {
            PlayerIntent::Move(d) => -1 <= d <= 1,
            _ => true,
        }
}

/// The state after the intents of `s`, in order.
pub open spec fn after_intents(p: Player, s: Seq<PlayerIntent>) -> Player
    decreases s.len(),
{
    if s.len() == 0 {
        p
    } else {
        after_intent(after_intents(p, s.drop_last()), s.last())
    }
}

/// The events the intents of `s` emit, in order.
pub open spec fn intent_events(p: Player, s: Seq<PlayerIntent>) -> Seq<GameplayEvent>
    decreases s.len(),
{
    if s.len() == 0 {
        Seq::empty()
    } else {
        intent_events(p, s.drop_last()) + optional_event(
            intent_event(after_intents(p, s.drop_last()), s.last()),
        )
    }
}

/// What a tick reports besides the new state.
pub struct TickOutput {
    /// The events of the tick, in order.
    pub events: Vec<GameplayEvent>,
    /// A fall sequence began this tick (its visual effect should appear).
    pub fall_started: bool,
    /// The fall sequence ended this tick (its visual effect should go).
    pub fall_complete: bool,
}

/// A controlled character with its bounce gates and fall sequence.
#[derive(Clone, Copy, Debug, PartialEq, Eq, Structural)]
pub struct Character {
    pub player: Player,
    pub bounce: BounceState,
    pub fall: FallSequence,
}

impl Character {
    pub open spec fn wf(self) -> bool {
        self.player.wf() && self.bounce.wf()
    }

    /// The motion stage of a tick: the intents in order, then the ground
    /// probe's answer with the maneuver's horizontal speed.
    pub open spec fn motion_result(self, intents: Seq<PlayerIntent>, supported: bool) -> (Character, Seq<GameplayEvent>) {
        let p1 = after_intents(self.player, intents);
        let landed = if !p1.is_grounded && supported {
            Some(GameplayEvent::Landed(PlayerLandEvent { entity: p1.entity }))
        } else {
            None
        };
        (
            Character { player: p1.after_tick(supported), ..self },
            intent_events(self.player, intents) + optional_event(landed),
        )
    }

    /// The bounce stage of a tick: the collision path, then the proximity
    /// path; each bounce sets the character's vertical speed.
    pub open spec fn bounce_result(
        self,
        now: u64,
        collisions: Seq<CollisionEvent>,
        platforms: Seq<Platform>,
    ) -> (Character, Seq<GameplayEvent>) {
        let p = self.player;
        let c = contact_bounce(self.bounce.contact, now, p.entity, collisions);
        let p1 = if c.is_some() { p.after_bounce() } else { p };
        let x = proximity_bounce(self.bounce.proximity, now, p1, platforms);
        let p2 = if x.is_some() { p1.after_bounce() } else { p1 };
        (
            Character {
                player: p2,
                bounce: BounceState {
                    contact: gate_after(self.bounce.contact, now, c),
                    proximity: gate_after(self.bounce.proximity, now, x),
                },
                ..self
            },
            optional_event(
                match c {
                    Some(b) => Some(GameplayEvent::Bounced(b)),
                    None => None,
                },
            ) + optional_event(
                match x {
                    Some(b) => Some(GameplayEvent::Bounced(b)),
                    None => None,
                },
            ),
        )
    }

    /// The fall stage of a tick: fall detection, which starts the fall
    /// sequence, then the sequence's step, which may respawn the character.
    /// Also reports whether a sequence began and whether one ended.
    pub open spec fn fall_result(self, now: u64) -> (Character, Seq<GameplayEvent>, bool, bool) {
        let p = self.player;
        let fell = p.fall_fires();
        let p1 = p.after_fall_check();
        let f1 = if fell {
            FallSequence { started_at: Some(now), respawned: false }
        } else {
            self.fall
        };
        let st = f1.step_at(now);
        let p2 = if st.respawn { p1.after_respawn() } else { p1 };
        (
            Character { player: p2, fall: f1.after_step(now), ..self },
            optional_event(
                if fell {
                    Some(GameplayEvent::Fell(PlayerFallEvent { entity: p.entity, position: p.position }))
                } else {
                    None
                },
            ) + optional_event(
                if st.respawn {
                    Some(GameplayEvent::Spawned(PlayerSpawnEvent { position: spawn_point() }))
                } else {
                    None
                },
            ),
            fell,
            st.complete,
        )
    }

    /// The outcome of a tick: the new state, its events, whether a fall
    /// sequence began and whether one ended.
    pub open spec fn step_result(
        self,
        now: u64,
        intents: Seq<PlayerIntent>,
        supported: bool,
        collisions: Seq<CollisionEvent>,
        platforms: Seq<Platform>,
    ) -> (Character, Seq<GameplayEvent>, bool, bool) {
        let (c1, e1) = self.motion_result(intents, supported);
        let (c2, e2) = c1.bounce_result(now, collisions, platforms);
        let (c3, e3, started, complete) = c2.fall_result(now);
        (c3, e1 + e2 + e3, started, complete)
    }

    /// A freshly spawned character with gates that have never fired and
    /// no fall sequence.
    pub fn new(entity: BodyId, position: Vec3) -> (r: Character)
        ensures
            r.wf(),
            r.player == Player::new_spec(entity, position),
            r.bounce == BounceState::new_spec(),
            r.fall == (FallSequence { started_at: None, respawned: false }),
    {
        Character {
            player: Player::new(entity, position),
            bounce: BounceState::new(),
            fall: FallSequence::new(),
        }
    }

    /// Spawns a character at the spawn point: at rest, airborne, with the
    /// standing shape, gates that have never fired and no fall sequence.
    /// Returns it with the spawn event at that point.
    pub fn spawn(entity: BodyId) -> (r: (Character, PlayerSpawnEvent))
        ensures
            r.0.wf(),
            r.0.player == Player::new_spec(entity, spawn_point()),
            r.0.bounce == BounceState::new_spec(),
            r.0.fall == (FallSequence { started_at: None, respawned: false }),
            r.1 == (PlayerSpawnEvent { position: spawn_point() }),
    {
        let position = Vec3::new(0, SPAWN_HEIGHT, 0);
        (Character::new(entity, position), PlayerSpawnEvent { position })
    }

    /// Applies the intents of a tick in order, collecting their events.
    pub fn apply_intents(&mut self, intents: &Vec<PlayerIntent>) -> (r: Vec<GameplayEvent>)
        requires
            old(self).wf(),
            valid_intents(intents@),
        ensures
            final(self).wf(),
            final(self).player == after_intents(old(self).player, intents@),
            final(self).bounce == old(self).bounce,
            final(self).fall == old(self).fall,
            r@ == intent_events(old(self).player, intents@),
    {
        let mut events: Vec<GameplayEvent> = Vec::new();
        let mut i: usize = 0;
        assert(intents@.subrange(0, 0) =~= Seq::<PlayerIntent>::empty());
        while i < intents.len()
            invariant
                0 <= i <= intents.len(),
                valid_intents(intents@),
                self.wf(),
                self.bounce == old(self).bounce,
                self.fall == old(self).fall,
                self.player == after_intents(old(self).player, intents@.subrange(0, i as int)),
                events@ == intent_events(old(self).player, intents@.subrange(0, i as int)),
            decreases intents.len() - i,
        {
            let ghost before = intents@.subrange(0, i as int);
            let ghost upto = intents@.subrange(0, i as int + 1);
            assert(upto.drop_last() =~= before);
            assert(upto.last() == intents@[i as int]);
            let emitted: Option<GameplayEvent> = match intents[i] {
                PlayerIntent::Move(d) => {
                    self.player.apply_move_intent(d);
                    None
                },
                PlayerIntent::Jump => match self.player.apply_jump_intent() {
                    Some(e) => Some(GameplayEvent::Jumped(e)),
                    None => None,
                },
                PlayerIntent::Flip(k) => match self.player.apply_flip_intent(k) {
                    Some(e) => Some(GameplayEvent::Flipped(e)),
                    None => None,
                },
            };
            match emitted {
                Some(e) => events.push(e),
                None => {},
            }
            assert(events@ =~= intent_events(old(self).player, upto));
            i = i + 1;
        }
        assert(intents@.subrange(0, intents.len() as int) =~= intents@);
        events
    }

    /// The motion stage of a tick; its events are appended to `events`.
    pub fn run_motion(
        &mut self,
        intents: &Vec<PlayerIntent>,
        supported: bool,
        events: &mut Vec<GameplayEvent>,
    )
        requires
            old(self).wf(),
            valid_intents(intents@),
        ensures
            final(self).wf(),
            *final(self) == old(self).motion_result(intents@, supported).0,
            final(events)@ == old(events)@ + old(self).motion_result(intents@, supported).1,
    {
        let mut emitted = self.apply_intents(intents);
        match self.player.tick(supported) {
            Some(e) => emitted.push(GameplayEvent::Landed(e)),
            None => {},
        }
        events.append(&mut emitted);
    }

    /// The bounce stage of a tick; its events are appended to `events`.
    pub fn run_bounces(
        &mut self,
        now: u64,
        collisions: &Vec<CollisionEvent>,
        platforms: &Vec<Platform>,
        events: &mut Vec<GameplayEvent>,
    )
        requires
            old(self).wf(),
        ensures
            final(self).wf(),
            *final(self) == old(self).bounce_result(now, collisions@, platforms@).0,
            final(events)@ == old(events)@ + old(self).bounce_result(now, collisions@, platforms@).1,
    {
        let ghost e0 = events@;
        let entity = self.player.entity;
        let contact = self.bounce.handle_collisions(now, entity, collisions);
        match contact {
            Some(b) => {
                self.player.apply_bounce();
                events.push(GameplayEvent::Bounced(b));
            },
            None => {},
        }
        let ghost e1 = events@;
        let snapshot = self.player;
        let near = self.bounce.handle_proximity(now, &snapshot, platforms);
        match near {
            Some(b) => {
                self.player.apply_bounce();
                events.push(GameplayEvent::Bounced(b));
            },
            None => {},
        }
        proof {
            let expected = old(self).bounce_result(now, collisions@, platforms@).1;
            assert(events@ =~= e0 + expected);
        }
    }

    /// The fall stage of a tick; its events are appended to `events`.
    /// Returns whether a fall sequence began and whether one ended.
    pub fn run_fall(&mut self, now: u64, events: &mut Vec<GameplayEvent>) -> (r: (bool, bool))
        requires
            old(self).wf(),
        ensures
            final(self).wf(),
            *final(self) == old(self).fall_result(now).0,
            final(events)@ == old(events)@ + old(self).fall_result(now).1,
            r == (old(self).fall_result(now).2, old(self).fall_result(now).3),
    {
        let ghost e0 = events@;
        let fell = match self.player.check_fall() {
            Some(e) => {
                events.push(GameplayEvent::Fell(e));
                self.fall.begin(now);
                true
            },
            None => false,
        };
        let st = self.fall.advance(now);
        if st.respawn {
            let e = self.player.respawn();
            events.push(GameplayEvent::Spawned(e));
        }
        proof {
            let expected = old(self).fall_result(now).1;
            assert(events@ =~= e0 + expected);
        }
        (fell, st.complete)
    }

    /// One simulation tick at time `now`, in this order: the intents, the
    /// ground probe's answer `supported` with the maneuver's horizontal
    /// speed, the collision bounce path, the proximity bounce path, fall
    /// detection (which starts the fall sequence), and the fall sequence's
    /// step (which may respawn the character).
    pub fn step(
        &mut self,
        now: u64,
        intents: &Vec<PlayerIntent>,
        supported: bool,
        collisions: &Vec<CollisionEvent>,
        platforms: &Vec<Platform>,
    ) -> (r: TickOutput)
        requires
            old(self).wf(),
            valid_intents(intents@),
        ensures
            final(self).wf(),
            (*final(self), r.events@, r.fall_started, r.fall_complete) == old(self).step_result(
                now,
                intents@,
                supported,
                collisions@,
                platforms@,
            ),
    {
        let mut events: Vec<GameplayEvent> = Vec::new();
        self.run_motion(intents, supported, &mut events);
        self.run_bounces(now, collisions, platforms, &mut events);
        let (started, complete) = self.run_fall(now, &mut events);
        proof {
            let (c1, e1) = old(self).motion_result(intents@, supported);
            let (c2, e2) = c1.bounce_result(now, collisions@, platforms@);
            let (c3, e3, s3, d3) = c2.fall_result(now);
            assert(events@ =~= e1 + e2 + e3);
        }
        TickOutput { events, fall_started: started, fall_complete: complete }
    }
}

} // verus!
