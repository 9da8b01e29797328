//! The ground probe: a short downward ray from the character that decides
//! whether it stands on something.
use vstd::prelude::*;

use crate::events::BodyId;
use crate::geometry::{Vec3, UNIT};

verus! {

/// Reach of the ground probe below the character's origin.
pub const PROBE_DISTANCE: i64 = 1000;

/// A ray query for the physics engine.
#[derive(Clone, Copy, Debug, PartialEq, Eq, Structural)]
pub struct RayQuery {
    pub origin: Vec3,
    /// Unit direction, in thousandths.
    pub direction: Vec3,
    pub max_distance: i64,
    /// The body that the ray ignores (the character's own).
    pub exclude: BodyId,
}

/// The ground probe for a character at `position`: straight down from
/// its origin, up to the probe distance, ignoring its own body.
pub fn ground_probe(position: Vec3, body: BodyId) -> (r: RayQuery)
    ensures
        r == (RayQuery {
            origin: position,
            direction: Vec3 { x: 0, y: (-UNIT) as i64, z: 0 },
            max_distance: PROBE_DISTANCE,
            exclude: body,
        }),
{
    RayQuery {
        origin: position,
        direction: Vec3::new(0, -UNIT, 0),
        max_distance: PROBE_DISTANCE,
        exclude: body,
    }
}

/// Whether the probe's answer means support: a hit at a distance within
/// the probe's reach. No hit is a valid reading: the character is airborne.
pub fn is_supported(hit_distance: Option<i64>) -> (r: bool)
    ensures
        r == (match hit_distance {
            Some(d) => 0 <= d <= PROBE_DISTANCE,
            None => false,
        }),
{
    match hit_distance {
        Some(d) => 0 <= d && d <= PROBE_DISTANCE,
        None => false,
    }
}

} // verus!
