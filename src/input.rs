//! Turning the state of the controls into intents for the motion state
//! machine.
use vstd::prelude::*;

use crate::events::FlipType;

verus! {

/// A request from the player.
#[derive(Clone, Copy, Debug, PartialEq, Eq, Structural)]
pub enum PlayerIntent {
    /// Horizontal input: -1 (left), 0 (none) or 1 (right).
    Move(i8),
    Jump,
    Flip(FlipType),
}

/// The controls as read on one tick: held keys and keys pressed this tick.
#[derive(Clone, Copy, Debug, PartialEq, Eq, Structural)]
pub struct ControlState {
    pub left_held: bool,
    pub right_held: bool,
    pub jump_pressed: bool,
    pub front_flip_pressed: bool,
    pub dive_roll_pressed: bool,
}

/// Horizontal input: left and right cancel out.
pub open spec fn move_direction(c: ControlState) -> int {
    (if c.right_held { 1int } else { 0 }) - (if c.left_held { 1int } else { 0 })
}

/// The intents of a tick, in the order they are applied: the move
/// (always, so that friction applies when no direction is held), then a
/// jump, a front flip and a dive roll for the keys pressed this tick.
pub open spec fn intents_of(c: ControlState) -> Seq<PlayerIntent> {
    seq![PlayerIntent::Move(move_direction(c) as i8)]
        + (if c.jump_pressed { seq![PlayerIntent::Jump] } else { Seq::empty() })
        + (if c.front_flip_pressed { seq![PlayerIntent::Flip(FlipType::Front)] } else { Seq::empty() })
        + (if c.dive_roll_pressed { seq![PlayerIntent::Flip(FlipType::Dive)] } else { Seq::empty() })
}

/// The intents for one tick of controls.
pub fn intents_from_controls(c: &ControlState) -> (r: Vec<PlayerIntent>)
    ensures
        r@ == intents_of(*c),
        forall|i: int|
            0 <= i < r.len() ==> match #[trigger] r@[i] {
                PlayerIntent::Move(d) => -1 <= d <= 1,
                _ => true,
            },
{
    let mut direction: i8 = 0;
    if c.left_held {
        direction = direction - 1;
    }
    if c.right_held {
        direction = direction + 1;
    }
    let mut r: Vec<PlayerIntent> = Vec::new();
    r.push(PlayerIntent::Move(direction));
    if c.jump_pressed {
        r.push(PlayerIntent::Jump);
    }
    if c.front_flip_pressed {
        r.push(PlayerIntent::Flip(FlipType::Front));
    }
    if c.dive_roll_pressed {
        r.push(PlayerIntent::Flip(FlipType::Dive));
    }
    assert(r@ =~= intents_of(*c));
    r
}

} // verus!
