use sidequest::controller::{
    AIR_FRICTION_PERCENT, DIVE_ROLL_IMPULSE, FALL_THRESHOLD, FRONT_FLIP_IMPULSE,
    GROUND_FRICTION_PERCENT, JUMP_SPEED, PLAYER_SPEED, SPAWN_HEIGHT,
};
use sidequest::{
    BodyId, FlipType, HitboxShape, Locomotion, Maneuver, Player, PlayerFallEvent,
    PlayerFlipEvent, PlayerJumpEvent, PlayerLandEvent, PlayerSpawnEvent, Vec3,
};

fn grounded_player() -> Player {
    let mut p = Player::new(BodyId { id: 1 }, Vec3::new(0, 1000, 0));
    assert_eq!(p.tick(true), Some(PlayerLandEvent { entity: BodyId { id: 1 } }));
    p
}

#[test]
fn new_player_is_airborne_at_rest() {
    let p = Player::new(BodyId { id: 3 }, Vec3::new(0, SPAWN_HEIGHT, 0));
    assert_eq!(p.speed, PLAYER_SPEED);
    assert!(!p.is_grounded);
    assert_eq!(p.maneuver, Maneuver::Free);
    assert_eq!(p.hitbox, HitboxShape::Standard);
    assert_eq!(p.linear_velocity, Vec3::zero());
    assert_eq!(p.locomotion(), Locomotion::Airborne);
}

#[test]
fn jump_from_rest_sets_jump_speed() {
    let mut p = grounded_player();
    let e = p.apply_jump_intent();
    assert_eq!(e, Some(PlayerJumpEvent { entity: BodyId { id: 1 } }));
    assert_eq!(p.linear_velocity.y, 8000);
    assert_eq!(JUMP_SPEED, 8000);
}

#[test]
fn jump_overwrites_vertical_speed() {
    let mut p = grounded_player();
    p.linear_velocity.y = -3000;
    p.apply_jump_intent();
    assert_eq!(p.linear_velocity.y, 8000);
}

#[test]
fn jump_in_the_air_changes_nothing() {
    let mut p = Player::new(BodyId { id: 1 }, Vec3::new(0, 5000, 0));
    p.linear_velocity.y = -2500;
    let before = p;
    assert_eq!(p.apply_jump_intent(), None);
    assert_eq!(p, before);
    assert_eq!(p.linear_velocity.y, -2500);
}

#[test]
fn move_right_and_left() {
    let mut p = grounded_player();
    p.apply_move_intent(1);
    assert_eq!(p.linear_velocity.x, 5000);
    assert!(!p.facing_left);
    assert!(p.is_moving);
    assert_eq!(p.locomotion(), Locomotion::Walking);
    p.apply_move_intent(-1);
    assert_eq!(p.linear_velocity.x, -5000);
    assert!(p.facing_left);
}

#[test]
fn idle_move_on_ground_applies_strong_friction() {
    let mut p = grounded_player();
    p.linear_velocity.x = 5000;
    p.apply_move_intent(0);
    assert_eq!(p.linear_velocity.x, 350);
    assert_eq!(GROUND_FRICTION_PERCENT, 7);
    assert!(!p.is_moving);
    assert_eq!(p.locomotion(), Locomotion::Idle);
}

#[test]
fn idle_move_in_air_applies_light_friction() {
    let mut p = Player::new(BodyId { id: 1 }, Vec3::new(0, 5000, 0));
    p.linear_velocity.x = 5000;
    p.apply_move_intent(0);
    assert_eq!(p.linear_velocity.x, 4750);
    assert_eq!(AIR_FRICTION_PERCENT, 95);
}

#[test]
fn friction_rounds_toward_zero_for_negative_speed() {
    let mut p = grounded_player();
    p.linear_velocity.x = -1001;
    p.apply_move_intent(0);
    assert_eq!(p.linear_velocity.x, -70);
}

#[test]
fn idle_move_keeps_facing() {
    let mut p = grounded_player();
    p.apply_move_intent(-1);
    p.apply_move_intent(0);
    assert!(p.facing_left);
}

#[test]
fn dive_roll_facing_right_locks_direction_and_hitbox() {
    let mut p = grounded_player();
    let e = p.apply_flip_intent(FlipType::Dive);
    assert_eq!(e, Some(PlayerFlipEvent { entity: BodyId { id: 1 }, flip_type: FlipType::Dive }));
    assert_eq!(p.flip_direction, Vec3::new(DIVE_ROLL_IMPULSE, 0, 0));
    assert_eq!(p.flip_direction, Vec3::new(400, 0, 0));
    assert_eq!(p.maneuver, Maneuver::DiveRoll);
    assert_eq!(p.locomotion(), Locomotion::DiveRolling);
    assert_eq!(p.hitbox, HitboxShape::DiveRollFeet);
}

#[test]
fn front_flip_facing_left_locks_negative_direction() {
    let mut p = grounded_player();
    p.apply_move_intent(-1);
    p.apply_flip_intent(FlipType::Front);
    assert_eq!(p.flip_direction, Vec3::new(-FRONT_FLIP_IMPULSE, 0, 0));
    assert_eq!(p.maneuver, Maneuver::FrontFlip);
    assert_eq!(p.hitbox, HitboxShape::Standard);
}

#[test]
fn front_then_dive_in_one_tick_keeps_front_flip() {
    let mut p = grounded_player();
    assert!(p.apply_flip_intent(FlipType::Front).is_some());
    let after_front = p;
    assert_eq!(p.apply_flip_intent(FlipType::Dive), None);
    assert_eq!(p, after_front);
    assert_eq!(p.maneuver, Maneuver::FrontFlip);
    assert_eq!(p.hitbox, HitboxShape::Standard);
}

#[test]
fn flip_in_the_air_is_ignored() {
    let mut p = Player::new(BodyId { id: 1 }, Vec3::new(0, 5000, 0));
    let before = p;
    assert_eq!(p.apply_flip_intent(FlipType::Front), None);
    assert_eq!(p, before);
}

#[test]
fn maneuver_ignores_move_input() {
    let mut p = grounded_player();
    p.apply_flip_intent(FlipType::Front);
    let before = p;
    p.apply_move_intent(-1);
    assert_eq!(p, before);
}

#[test]
fn tick_imposes_front_flip_speed() {
    let mut p = grounded_player();
    p.apply_flip_intent(FlipType::Front);
    p.linear_velocity.y = 1234;
    assert_eq!(p.tick(false), None);
    assert_eq!(p.linear_velocity.x, 3750);
    assert_eq!(p.linear_velocity.y, 1234);
    assert!(!p.is_grounded);
    assert_eq!(p.locomotion(), Locomotion::FrontFlipping);
}

#[test]
fn tick_imposes_dive_roll_speed() {
    let mut p = grounded_player();
    p.apply_move_intent(-1);
    p.apply_flip_intent(FlipType::Dive);
    p.tick(true);
    assert_eq!(p.linear_velocity.x, -4000);
}

#[test]
fn maneuver_speed_persists_until_ended() {
    let mut p = grounded_player();
    p.apply_flip_intent(FlipType::Front);
    for _ in 0..100 {
        p.tick(true);
        p.linear_velocity.x = 0;
    }
    p.tick(true);
    assert_eq!(p.linear_velocity.x, 3750);
    p.end_acrobatic();
    p.linear_velocity.x = 0;
    p.tick(true);
    assert_eq!(p.linear_velocity.x, 0);
}

#[test]
fn tick_reports_landing_once() {
    let mut p = Player::new(BodyId { id: 9 }, Vec3::new(0, 5000, 0));
    assert_eq!(p.tick(false), None);
    assert_eq!(p.tick(true), Some(PlayerLandEvent { entity: BodyId { id: 9 } }));
    assert_eq!(p.tick(true), None);
}

#[test]
fn end_acrobatic_restores_standard_hitbox() {
    let mut p = grounded_player();
    p.apply_flip_intent(FlipType::Dive);
    p.end_acrobatic();
    assert_eq!(p.maneuver, Maneuver::Free);
    assert_eq!(p.hitbox, HitboxShape::Standard);
    assert_eq!(p.locomotion(), Locomotion::Idle);
    p.apply_flip_intent(FlipType::Dive);
    p.tick(false);
    p.end_acrobatic();
    assert_eq!(p.locomotion(), Locomotion::Airborne);
}

#[test]
fn end_acrobatic_without_maneuver_is_a_no_op() {
    let mut p = grounded_player();
    p.apply_move_intent(1);
    let before = p;
    p.end_acrobatic();
    assert_eq!(p, before);
    p.end_acrobatic();
    assert_eq!(p, before);
}

#[test]
fn animation_finished_ends_only_the_matching_maneuver() {
    let mut p = grounded_player();
    p.apply_flip_intent(FlipType::Dive);
    p.animation_finished(FlipType::Front);
    assert_eq!(p.maneuver, Maneuver::DiveRoll);
    p.animation_finished(FlipType::Dive);
    assert_eq!(p.maneuver, Maneuver::Free);
    assert_eq!(p.hitbox, HitboxShape::Standard);
}

#[test]
fn fall_fires_once_below_threshold() {
    let mut p = Player::new(BodyId { id: 2 }, Vec3::new(0, -9999, 0));
    assert_eq!(p.check_fall(), None);
    p.position.y = FALL_THRESHOLD - 1;
    let pos = p.position;
    assert_eq!(p.check_fall(), Some(PlayerFallEvent { entity: BodyId { id: 2 }, position: pos }));
    assert!(p.has_fallen);
    p.position.y = -20_000;
    assert_eq!(p.check_fall(), None);
    p.position.y = 0;
    assert_eq!(p.check_fall(), None);
    p.position.y = -20_000;
    assert_eq!(p.check_fall(), None);
}

#[test]
fn fall_exactly_at_threshold_does_not_fire() {
    let mut p = Player::new(BodyId { id: 2 }, Vec3::new(0, FALL_THRESHOLD, 0));
    assert_eq!(p.check_fall(), None);
}

#[test]
fn respawn_resets_position_speed_and_latch() {
    let mut p = Player::new(BodyId { id: 2 }, Vec3::new(3, -12_000, 4));
    p.linear_velocity = Vec3::new(100, -9000, 5);
    p.angular_velocity = Vec3::new(1, 2, 3);
    assert!(p.check_fall().is_some());
    let e = p.respawn();
    assert_eq!(e, PlayerSpawnEvent { position: Vec3::new(0, 7000, 0) });
    assert_eq!(p.position, Vec3::new(0, 7000, 0));
    assert_eq!(p.linear_velocity, Vec3::zero());
    assert_eq!(p.angular_velocity, Vec3::zero());
    assert!(!p.has_fallen);
    p.position.y = -12_000;
    assert!(p.check_fall().is_some());
}

#[test]
fn bounce_sets_vertical_speed_and_keeps_horizontal() {
    let mut p = grounded_player();
    p.linear_velocity = Vec3::new(2500, -400, 0);
    p.apply_bounce();
    assert_eq!(p.linear_velocity, Vec3::new(2500, 12_000, 0));
}
