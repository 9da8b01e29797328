//! Laws that relate several steps of the core.
use vstd::prelude::*;

use crate::bounce::{
    contact_bounce, gate_after, proximity_bounce, BounceCooldown, BounceState, CollisionEvent,
    Platform, CONTACT_COOLDOWN_MS, PROXIMITY_COOLDOWN_MS,
};
use crate::character::{after_intents, Character};
use crate::input::PlayerIntent;
use crate::controller::{
    friction_decay, Maneuver, Player, FALL_THRESHOLD, FRONT_FLIP_IMPULSE, JUMP_SPEED,
};
use crate::events::{BodyId, FlipType, TrampolineBounceEvent};
use crate::geometry::Vec3;
use crate::hitbox::HitboxShape;

verus! {

/// A front flip request followed at once by a dive roll request, from the
/// ground and with no maneuver running, leaves exactly one maneuver
/// running: the front flip, asked for first. The dive roll request changes
/// nothing, so the standing hitbox stays.
pub proof fn front_flip_then_dive_keeps_front_flip(p: Player)
    requires
        p.wf(),
        p.is_grounded,
        !p.maneuver.is_acrobatic(),
    ensures
        p.after_flip(FlipType::Front).after_flip(FlipType::Dive) == p.after_flip(FlipType::Front),
        p.after_flip(FlipType::Front).after_flip(FlipType::Dive).maneuver == Maneuver::FrontFlip,
        p.after_flip(FlipType::Front).after_flip(FlipType::Dive).hitbox == HitboxShape::Standard,
        p.after_flip(FlipType::Front).after_flip(FlipType::Dive).wf(),
{
}

/// Whether `times` never decreases.
pub open spec fn nondecreasing(times: Seq<u64>) -> bool {
    forall|a: int, b: int| 0 <= a <= b < times.len() ==> times[a] <= times[b]
}

/// A run of the collision path: `gates[k + 1]` is what the cooldown holds after the
/// `k`-th tick, at time `times[k]` with the collision events `batches[k]`.
pub open spec fn is_contact_run(
    gates: Seq<BounceCooldown>,
    times: Seq<u64>,
    player: BodyId,
    batches: Seq<Seq<CollisionEvent>>,
) -> bool {
    &&& gates.len() == times.len() + 1
    &&& batches.len() == times.len()
    &&& forall|k: int|
        0 <= k < times.len() ==> gates[k + 1] == gate_after(
            gates[k],
            times[k],
            #[trigger] contact_bounce(gates[k], times[k], player, batches[k]),
        )
}

/// A run of the proximity path: `gates[k + 1]` is what the cooldown holds after the
/// `k`-th tick, at time `times[k]`, with the character in state
/// `players[k]` and the platforms `levels[k]`.
pub open spec fn is_proximity_run(
    gates: Seq<BounceCooldown>,
    times: Seq<u64>,
    players: Seq<Player>,
    levels: Seq<Seq<Platform>>,
) -> bool {
    &&& gates.len() == times.len() + 1
    &&& players.len() == times.len()
    &&& levels.len() == times.len()
    &&& forall|k: int|
        0 <= k < times.len() ==> gates[k + 1] == gate_after(
            gates[k],
            times[k],
            #[trigger] proximity_bounce(gates[k], times[k], players[k], levels[k]),
        )
}

/// A run of a gate in which each tick either fires (only when ready) or
/// leaves it alone.
pub open spec fn is_gate_run(
    gates: Seq<BounceCooldown>,
    times: Seq<u64>,
    results: Seq<Option<TrampolineBounceEvent>>,
) -> bool {
    &&& gates.len() == times.len() + 1
    &&& results.len() == times.len()
    &&& forall|k: int|
        0 <= k < times.len() ==> {
            &&& gates[k + 1] == gate_after(gates[k], times[k], #[trigger] results[k])
            &&& results[k].is_some() ==> gates[k].ready_at(times[k] as int)
        }
}

proof fn lemma_window_kept(
    gates: Seq<BounceCooldown>,
    times: Seq<u64>,
    results: Seq<Option<TrampolineBounceEvent>>,
    k: int,
)
    requires
        is_gate_run(gates, times, results),
        0 <= k <= times.len(),
    ensures
        gates[k].window_ms == gates[0].window_ms,
    decreases k,
{
    if k > 0 {
        lemma_window_kept(gates, times, results, k - 1);
        assert(gates[k] == gate_after(gates[k - 1], times[k - 1], results[k - 1]));
    }
}

proof fn lemma_last_bounce_after(
    gates: Seq<BounceCooldown>,
    times: Seq<u64>,
    results: Seq<Option<TrampolineBounceEvent>>,
    i: int,
    k: int,
)
    requires
        is_gate_run(gates, times, results),
        nondecreasing(times),
        0 <= i < k <= times.len(),
        results[i].is_some(),
    ensures
        gates[k].last_bounce_at.is_some(),
        gates[k].last_bounce_at.unwrap() >= times[i],
    decreases k,
{
    assert(gates[k] == gate_after(gates[k - 1], times[k - 1], results[k - 1]));
    if k > i + 1 {
        lemma_last_bounce_after(gates, times, results, i, k - 1);
    }
}

proof fn lemma_gate_run_spaced(
    gates: Seq<BounceCooldown>,
    times: Seq<u64>,
    results: Seq<Option<TrampolineBounceEvent>>,
    i: int,
    j: int,
)
    requires
        is_gate_run(gates, times, results),
        nondecreasing(times),
        0 <= i < j < times.len(),
        results[i].is_some(),
        results[j].is_some(),
    ensures
        times[j] >= times[i] + gates[0].window_ms,
{
    lemma_last_bounce_after(gates, times, results, i, j);
    lemma_window_kept(gates, times, results, j);
    assert(results[j].is_some() ==> gates[j].ready_at(times[j] as int));
}

/// Two bounces of the collision path, at non-decreasing times, are at
/// least its cooldown apart (the cooldown the run starts with: 200 ms for
/// a new character), however many bouncy contacts come between.
pub proof fn contact_bounces_are_spaced(
    gates: Seq<BounceCooldown>,
    times: Seq<u64>,
    player: BodyId,
    batches: Seq<Seq<CollisionEvent>>,
    i: int,
    j: int,
)
    requires
        is_contact_run(gates, times, player, batches),
        nondecreasing(times),
        0 <= i < j < times.len(),
        contact_bounce(gates[i], times[i], player, batches[i]).is_some(),
        contact_bounce(gates[j], times[j], player, batches[j]).is_some(),
    ensures
        times[j] >= times[i] + gates[0].window_ms,
{
    let results = Seq::new(
        times.len(),
        |k: int| contact_bounce(gates[k], times[k], player, batches[k]),
    );
    assert forall|k: int| 0 <= k < times.len() implies {
        &&& gates[k + 1] == gate_after(gates[k], times[k], #[trigger] results[k])
        &&& results[k].is_some() ==> gates[k].ready_at(times[k] as int)
    } by {
        assert(gates[k + 1] == gate_after(
            gates[k],
            times[k],
            contact_bounce(gates[k], times[k], player, batches[k]),
        ));
    }
    lemma_gate_run_spaced(gates, times, results, i, j);
}

/// Two bounces of the proximity path, at non-decreasing times, are at
/// least its cooldown apart (the cooldown the run starts with: 300 ms for
/// a new character), however long the character stays on the trampoline.
pub proof fn proximity_bounces_are_spaced(
    gates: Seq<BounceCooldown>,
    times: Seq<u64>,
    players: Seq<Player>,
    levels: Seq<Seq<Platform>>,
    i: int,
    j: int,
)
    requires
        is_proximity_run(gates, times, players, levels),
        nondecreasing(times),
        0 <= i < j < times.len(),
        proximity_bounce(gates[i], times[i], players[i], levels[i]).is_some(),
        proximity_bounce(gates[j], times[j], players[j], levels[j]).is_some(),
    ensures
        times[j] >= times[i] + gates[0].window_ms,
{
    let results = Seq::new(
        times.len(),
        |k: int| proximity_bounce(gates[k], times[k], players[k], levels[k]),
    );
    assert forall|k: int| 0 <= k < times.len() implies {
        &&& gates[k + 1] == gate_after(gates[k], times[k], #[trigger] results[k])
        &&& results[k].is_some() ==> gates[k].ready_at(times[k] as int)
    } by {
        assert(gates[k + 1] == gate_after(
            gates[k],
            times[k],
            proximity_bounce(gates[k], times[k], players[k], levels[k]),
        ));
    }
    lemma_gate_run_spaced(gates, times, results, i, j);
}

/// For a new character, two bounces of the collision path at
/// non-decreasing times are at least 200 ms apart.
pub proof fn new_contact_bounces_are_spaced(
    gates: Seq<BounceCooldown>,
    times: Seq<u64>,
    player: BodyId,
    batches: Seq<Seq<CollisionEvent>>,
    i: int,
    j: int,
)
    requires
        gates.len() > 0,
        gates[0] == BounceState::new_spec().contact,
        is_contact_run(gates, times, player, batches),
        nondecreasing(times),
        0 <= i < j < times.len(),
        contact_bounce(gates[i], times[i], player, batches[i]).is_some(),
        contact_bounce(gates[j], times[j], player, batches[j]).is_some(),
    ensures
        times[j] >= times[i] + CONTACT_COOLDOWN_MS,
{
    contact_bounces_are_spaced(gates, times, player, batches, i, j);
}

/// For a new character, two bounces of the proximity path at
/// non-decreasing times are at least 300 ms apart.
pub proof fn new_proximity_bounces_are_spaced(
    gates: Seq<BounceCooldown>,
    times: Seq<u64>,
    players: Seq<Player>,
    levels: Seq<Seq<Platform>>,
    i: int,
    j: int,
)
    requires
        gates.len() > 0,
        gates[0] == BounceState::new_spec().proximity,
        is_proximity_run(gates, times, players, levels),
        nondecreasing(times),
        0 <= i < j < times.len(),
        proximity_bounce(gates[i], times[i], players[i], levels[i]).is_some(),
        proximity_bounce(gates[j], times[j], players[j], levels[j]).is_some(),
    ensures
        times[j] >= times[i] + PROXIMITY_COOLDOWN_MS,
{
    proximity_bounces_are_spaced(gates, times, players, levels, i, j);
}

/// Intents never change grounding, and an airborne character's vertical
/// speed stays what it was whatever intents it receives.
pub proof fn intents_keep_grounding(p: Player, intents: Seq<PlayerIntent>)
    ensures
        after_intents(p, intents).is_grounded == p.is_grounded,
        !p.is_grounded ==> after_intents(p, intents).linear_velocity.y == p.linear_velocity.y,
    decreases intents.len(),
{
    if intents.len() > 0 {
        intents_keep_grounding(p, intents.drop_last());
    }
}

/// A jump request while airborne does nothing in a whole motion stage:
/// the intents are applied before this tick's ground probe, so the
/// vertical speed after the stage is the one before it, whatever the
/// intents and the probe's answer.
pub proof fn airborne_motion_keeps_vertical_speed(
    c: Character,
    intents: Seq<PlayerIntent>,
    supported: bool,
)
    requires
        !c.player.is_grounded,
    ensures
        c.motion_result(intents, supported).0.player.linear_velocity.y == c.player.linear_velocity.y,
{
    intents_keep_grounding(c.player, intents);
}

/// A tick with no horizontal input, for a character that stood on the
/// ground when the tick began and runs no maneuver, applies the ground
/// friction to its horizontal speed (5.0 becomes 0.35).
pub proof fn grounded_idle_tick_applies_ground_friction(c: Character, supported: bool)
    requires
        c.wf(),
        c.player.is_grounded,
        !c.player.maneuver.is_acrobatic(),
    ensures
        c.motion_result(seq![PlayerIntent::Move(0)], supported).0.player.linear_velocity.x
            == friction_decay(c.player.linear_velocity.x as int, true),
        !c.motion_result(seq![PlayerIntent::Move(0)], supported).0.player.is_moving,
{
    let s = seq![PlayerIntent::Move(0)];
    assert(s.drop_last() =~= Seq::<PlayerIntent>::empty());
}

/// A jump request in a tick that begins on the ground, with no horizontal
/// input, sets the vertical speed to the jump speed.
pub proof fn grounded_tick_jump_sets_jump_speed(c: Character, supported: bool)
    requires
        c.wf(),
        c.player.is_grounded,
    ensures
        c.motion_result(seq![PlayerIntent::Move(0), PlayerIntent::Jump], supported).0.player.linear_velocity.y
            == JUMP_SPEED,
{
    let s = seq![PlayerIntent::Move(0), PlayerIntent::Jump];
    let one = seq![PlayerIntent::Move(0)];
    assert(s.drop_last() =~= one);
    assert(one.drop_last() =~= Seq::<PlayerIntent>::empty());
    assert(after_intents(c.player, one.drop_last()) == c.player);
    assert(one.last() == PlayerIntent::Move(0));
    let p1 = after_intents(c.player, one);
    assert(p1 == c.player.after_move(0));
    assert(p1.is_grounded);
    assert(s.last() == PlayerIntent::Jump);
    assert(after_intents(c.player, s) == p1.after_jump());
}

/// Front flip and dive roll requests in one tick that begins on the
/// ground with no maneuver running start the front flip only, with its
/// direction locked from the facing.
pub proof fn grounded_tick_front_flip_wins(c: Character, supported: bool)
    requires
        c.wf(),
        c.player.is_grounded,
        !c.player.maneuver.is_acrobatic(),
    ensures
        ({
            let p = c.motion_result(
                seq![PlayerIntent::Flip(FlipType::Front), PlayerIntent::Flip(FlipType::Dive)],
                supported,
            ).0.player;
            &&& p.maneuver == Maneuver::FrontFlip
            &&& p.hitbox == HitboxShape::Standard
            &&& p.flip_direction == Vec3 {
                x: (if c.player.facing_left { -FRONT_FLIP_IMPULSE } else { FRONT_FLIP_IMPULSE as int }) as i64,
                y: 0,
                z: 0,
            }
        }),
{
    let s = seq![PlayerIntent::Flip(FlipType::Front), PlayerIntent::Flip(FlipType::Dive)];
    let one = seq![PlayerIntent::Flip(FlipType::Front)];
    assert(s.drop_last() =~= one);
    assert(one.drop_last() =~= Seq::<PlayerIntent>::empty());
    assert(after_intents(c.player, one.drop_last()) == c.player);
    assert(one.last() == PlayerIntent::Flip(FlipType::Front));
    let p1 = after_intents(c.player, one);
    assert(p1 == c.player.after_flip(FlipType::Front));
    assert(s.last() == PlayerIntent::Flip(FlipType::Dive));
    assert(after_intents(c.player, s) == p1.after_flip(FlipType::Dive));
    assert(after_intents(c.player, s) == p1);
}

/// The character moved (by physics) to height `y`.
pub open spec fn at_height(p: Player, y: i64) -> Player {
    Player { position: Vec3 { y, ..p.position }, ..p }
}

/// The character after fall checks at the heights of `ys`, in order, with
/// no respawn between them.
pub open spec fn after_fall_checks(p: Player, ys: Seq<i64>) -> Player
    decreases ys.len(),
{
    if ys.len() == 0 {
        p
    } else {
        at_height(after_fall_checks(p, ys.drop_last()), ys.last()).after_fall_check()
    }
}

/// How many fall events the fall checks at the heights of `ys` report.
pub open spec fn fall_event_count(p: Player, ys: Seq<i64>) -> nat
    decreases ys.len(),
{
    if ys.len() == 0 {
        0
    } else {
        fall_event_count(p, ys.drop_last()) + if at_height(
            after_fall_checks(p, ys.drop_last()),
            ys.last(),
        ).fall_fires() {
            1nat
        } else {
            0nat
        }
    }
}

/// Whether some height of `ys` is below the fall threshold.
pub open spec fn crosses_threshold(ys: Seq<i64>) -> bool {
    exists|k: int| 0 <= k < ys.len() && #[trigger] ys[k] < FALL_THRESHOLD
}

/// The fall latch: between two respawns the fall event fires exactly once
/// if the character is ever below the threshold, and never otherwise; a
/// latched character reports no fall until it respawns, and a respawn
/// clears the latch.
pub proof fn fall_fires_once_per_crossing(p: Player, ys: Seq<i64>)
    ensures
        fall_event_count(p, ys) == (if !p.has_fallen && crosses_threshold(ys) {
            1nat
        } else {
            0nat
        }),
        after_fall_checks(p, ys).has_fallen == (p.has_fallen || crosses_threshold(ys)),
        !p.after_respawn().has_fallen,
    decreases ys.len(),
{
    if ys.len() > 0 {
        let prefix = ys.drop_last();
        fall_fires_once_per_crossing(p, prefix);
        if crosses_threshold(prefix) {
            let k = choose|k: int| 0 <= k < prefix.len() && #[trigger] prefix[k] < FALL_THRESHOLD;
            assert(ys[k] == prefix[k]);
        }
        if ys.last() < FALL_THRESHOLD {
            assert(ys[ys.len() - 1] < FALL_THRESHOLD);
        }
        if crosses_threshold(ys) && !crosses_threshold(prefix) {
            let k = choose|k: int| 0 <= k < ys.len() && #[trigger] ys[k] < FALL_THRESHOLD;
            if k < ys.len() - 1 {
                assert(prefix[k] == ys[k]);
            }
        }
    }
}

} // verus!
