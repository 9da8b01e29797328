use sidequest::probe::PROBE_DISTANCE;
use sidequest::{
    ground_probe, intents_from_controls, is_supported, BodyId, Character, CollisionEvent,
    CollisionKind, ControlState, FlipType, GameplayEvent, Maneuver, Platform, PlatformType,
    PlayerFallEvent, PlayerFlipEvent, PlayerIntent, PlayerJumpEvent, PlayerLandEvent,
    PlayerSpawnEvent, RayQuery, SurfaceTag, TrampolineBounceEvent, Vec3,
};

const PLAYER: BodyId = BodyId { id: 1 };
const TRAMPOLINE: BodyId = BodyId { id: 50 };

fn no_controls() -> ControlState {
    ControlState {
        left_held: false,
        right_held: false,
        jump_pressed: false,
        front_flip_pressed: false,
        dive_roll_pressed: false,
    }
}

#[test]
fn controls_become_ordered_intents() {
    let mut c = no_controls();
    assert_eq!(intents_from_controls(&c), vec![PlayerIntent::Move(0)]);
    c.left_held = true;
    c.jump_pressed = true;
    c.front_flip_pressed = true;
    c.dive_roll_pressed = true;
    assert_eq!(
        intents_from_controls(&c),
        vec![
            PlayerIntent::Move(-1),
            PlayerIntent::Jump,
            PlayerIntent::Flip(FlipType::Front),
            PlayerIntent::Flip(FlipType::Dive),
        ]
    );
    c.right_held = true;
    assert_eq!(intents_from_controls(&c)[0], PlayerIntent::Move(0));
    c.left_held = false;
    assert_eq!(intents_from_controls(&c)[0], PlayerIntent::Move(1));
}

#[test]
fn ground_probe_points_down_within_reach() {
    let q = ground_probe(Vec3::new(1, 2, 3), PLAYER);
    assert_eq!(
        q,
        RayQuery {
            origin: Vec3::new(1, 2, 3),
            direction: Vec3::new(0, -1000, 0),
            max_distance: 1000,
            exclude: PLAYER,
        }
    );
    assert_eq!(PROBE_DISTANCE, 1000);
    assert!(is_supported(Some(0)));
    assert!(is_supported(Some(1000)));
    assert!(!is_supported(Some(1001)));
    assert!(!is_supported(Some(-1)));
    assert!(!is_supported(None));
}

#[test]
fn tick_jump_from_rest() {
    let mut c = Character::new(PLAYER, Vec3::new(0, 1000, 0));
    let out = c.step(0, &vec![], true, &vec![], &vec![]);
    assert_eq!(out.events, vec![GameplayEvent::Landed(PlayerLandEvent { entity: PLAYER })]);
    let mut controls = no_controls();
    controls.jump_pressed = true;
    let out = c.step(16, &intents_from_controls(&controls), true, &vec![], &vec![]);
    assert_eq!(out.events, vec![GameplayEvent::Jumped(PlayerJumpEvent { entity: PLAYER })]);
    assert_eq!(c.player.linear_velocity.y, 8000);
}

#[test]
fn tick_front_and_dive_same_tick() {
    let mut c = Character::new(PLAYER, Vec3::new(0, 1000, 0));
    c.step(0, &vec![], true, &vec![], &vec![]);
    let intents = vec![PlayerIntent::Flip(FlipType::Front), PlayerIntent::Flip(FlipType::Dive)];
    let out = c.step(16, &intents, true, &vec![], &vec![]);
    assert_eq!(
        out.events,
        vec![GameplayEvent::Flipped(PlayerFlipEvent { entity: PLAYER, flip_type: FlipType::Front })]
    );
    assert_eq!(c.player.maneuver, Maneuver::FrontFlip);
    assert_eq!(c.player.linear_velocity.x, 3750);
}

#[test]
fn tick_idle_friction_on_ground() {
    let mut c = Character::new(PLAYER, Vec3::new(0, 1000, 0));
    c.step(0, &vec![], true, &vec![], &vec![]);
    c.player.linear_velocity.x = 5000;
    c.step(16, &intents_from_controls(&no_controls()), true, &vec![], &vec![]);
    assert_eq!(c.player.linear_velocity.x, 350);
}

#[test]
fn tick_fall_and_respawn_scenario() {
    let mut c = Character::new(PLAYER, Vec3::new(0, 7000, 0));
    c.player.position = Vec3::new(40, -10_001, 0);
    c.player.linear_velocity = Vec3::new(0, -15_000, 0);
    let out = c.step(5000, &vec![], false, &vec![], &vec![]);
    assert_eq!(
        out.events,
        vec![GameplayEvent::Fell(PlayerFallEvent { entity: PLAYER, position: Vec3::new(40, -10_001, 0) })]
    );
    assert!(out.fall_started);
    assert!(!out.fall_complete);
    let mut spawned = 0;
    let mut fell = 0;
    let mut t: u64 = 5000;
    while t < 5000 + 1275 {
        t += 25;
        if c.player.has_fallen {
            c.player.position.y -= 500;
        }
        let out = c.step(t, &vec![], false, &vec![], &vec![]);
        for e in out.events.iter() {
            match e {
                GameplayEvent::Spawned(s) => {
                    assert_eq!(*s, PlayerSpawnEvent { position: Vec3::new(0, 7000, 0) });
                    spawned += 1;
                }
                GameplayEvent::Fell(_) => fell += 1,
                _ => {}
            }
        }
    }
    assert_eq!(fell, 0);
    assert_eq!(spawned, 1);
    assert_eq!(c.player.position, Vec3::new(0, 7000, 0));
    assert_eq!(c.player.linear_velocity, Vec3::zero());
    assert_eq!(c.player.angular_velocity, Vec3::zero());
    assert!(!c.player.has_fallen);
    assert_eq!(c.fall.progress_permille(t), 850);
    let out = c.step(6500, &vec![], false, &vec![], &vec![]);
    assert!(out.events.is_empty());
    assert!(out.fall_complete);
}

#[test]
fn tick_contact_bounce_scenario() {
    let mut c = Character::new(PLAYER, Vec3::new(6000, 1800, 0));
    c.step(0, &vec![], true, &vec![], &vec![]);
    let hit = vec![CollisionEvent {
        kind: CollisionKind::Started,
        body_a: TRAMPOLINE,
        tag_a: SurfaceTag::Bouncy,
        body_b: PLAYER,
        tag_b: SurfaceTag::Plain,
    }];
    let bounce = GameplayEvent::Bounced(TrampolineBounceEvent {
        player_entity: PLAYER,
        bounce_force: 12_000,
        platform_entity: TRAMPOLINE,
    });
    let out = c.step(1000, &vec![], true, &hit, &vec![]);
    assert_eq!(out.events, vec![bounce]);
    assert_eq!(c.player.linear_velocity.y, 12_000);
    let out = c.step(1100, &vec![], true, &hit, &vec![]);
    assert!(out.events.is_empty());
    let out = c.step(1350, &vec![], true, &hit, &vec![]);
    assert_eq!(out.events, vec![bounce]);
}

#[test]
fn tick_proximity_bounce_once_per_cooldown() {
    let mut c = Character::new(PLAYER, Vec3::new(6000, 2000, 0));
    let level = vec![Platform {
        entity: TRAMPOLINE,
        platform_type: PlatformType::Trampoline,
        center: Vec3::new(6000, 1000, 0),
    }];
    let mut bounces = 0;
    let mut t: u64 = 0;
    while t <= 1000 {
        c.player.linear_velocity.y = 0;
        let out = c.step(t, &vec![], true, &vec![], &level);
        bounces += out.events.iter().filter(|e| matches!(e, GameplayEvent::Bounced(_))).count();
        t += 50;
    }
    // Bounces at 0, 300, 600 and 900 ms.
    assert_eq!(bounces, 4);
}

#[test]
fn spawn_places_character_at_spawn_point_and_reports_it() {
    let (c, e) = Character::spawn(PLAYER);
    assert_eq!(e, PlayerSpawnEvent { position: Vec3::new(0, 7000, 0) });
    assert_eq!(c.player.position, Vec3::new(0, 7000, 0));
    assert_eq!(c.player.linear_velocity, Vec3::zero());
    assert_eq!(c.player.angular_velocity, Vec3::zero());
    assert_eq!(c.player.speed, 5000);
    assert!(!c.player.is_grounded);
    assert!(!c.player.is_moving);
    assert!(!c.player.facing_left);
    assert!(!c.player.has_fallen);
    assert_eq!(c.player.maneuver, Maneuver::Free);
    assert_eq!(c.player.hitbox, sidequest::HitboxShape::Standard);
    assert!(!c.fall.is_active());
}
