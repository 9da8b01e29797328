//! The collision-shape switch between the standing capsule and the small
//! feet-level capsule used while dive-rolling.
use vstd::prelude::*;

verus! {

/// Which collision shape is active on the character.
#[derive(Clone, Copy, Debug, PartialEq, Eq, Structural)]
pub enum HitboxShape {
    /// The standing capsule.
    Standard,
    /// A negligible main shape plus a small capsule at the feet.
    DiveRollFeet,
}

/// A change the physics layer has to make to the character's colliders.
#[derive(Clone, Copy, Debug, PartialEq, Eq, Structural)]
pub enum HitboxChange {
    /// Shrink the main shape and attach the feet capsule.
    ActivateFeet,
    /// Remove the feet capsule and restore the standing capsule.
    RestoreStandard,
}

/// The shape that goes with a dive-rolling flag.
pub open spec fn required_hitbox(dive_rolling: bool) -> HitboxShape {
    if dive_rolling {
        HitboxShape::DiveRollFeet
    } else {
        HitboxShape::Standard
    }
}

/// The shape that is in place after `change` is applied to `current`.
pub open spec fn after_change(current: HitboxShape, change: Option<HitboxChange>) -> HitboxShape {
    match change {
        Some(HitboxChange::ActivateFeet) => HitboxShape::DiveRollFeet,
        Some(HitboxChange::RestoreStandard) => HitboxShape::Standard,
        None => current,
    }
}

/// The collider change needed so that the shape in place matches the
/// character's state; `None` when it already does, so that calling this
/// again after applying its answer causes no further churn.
pub fn hitbox_change(dive_rolling: bool, feet_active: bool) -> (r: Option<HitboxChange>)
    ensures
        dive_rolling && !feet_active ==> r == Some(HitboxChange::ActivateFeet),
        !dive_rolling && feet_active ==> r == Some(HitboxChange::RestoreStandard),
        dive_rolling == feet_active ==> r.is_none(),
        after_change(
            if feet_active { HitboxShape::DiveRollFeet } else { HitboxShape::Standard },
            r,
        ) == required_hitbox(dive_rolling),
{
    if dive_rolling && !feet_active {
        Some(HitboxChange::ActivateFeet)
    } else if !dive_rolling && feet_active {
        Some(HitboxChange::RestoreStandard)
    } else {
        None
    }
}

} // verus!
