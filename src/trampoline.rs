//! The squash-and-stretch animation a trampoline plays after a bounce: an
//! eased compression over the first half of a fixed time, then an eased
//! expansion with a slight overshoot, driven by elapsed time alone.
use vstd::prelude::*;

verus! {

/// Length of the animation, in milliseconds.
pub const TRAMPOLINE_ANIMATION_MS: u64 = 300;

/// Largest animation length a well-formed animation may have.
pub const MAX_ANIMATION_MS: u64 = 1_000_000_000;

/// Default compression at the deepest point, in thousandths of the height.
pub const TRAMPOLINE_COMPRESSION: i64 = 300;

/// Largest compression a well-formed animation may have.
pub const MAX_COMPRESSION: i64 = 900;

/// Largest rest scale a well-formed animation may have.
pub const MAX_REST_SCALE: i64 = 1_000_000_000;

/// How far the surface sinks when fully squashed, in thousandths of a
/// world unit per unit of compression.
pub const SINK_DEPTH: i64 = 200;

/// Eased curve in thousandths, for a progress `p` in thousandths:
/// quadratic ease-in over the first half, quadratic ease-out over the
/// second.
pub open spec fn bounce_curve(p: int) -> int {
    if p < 500 {
        let t = 2 * p;
        t * t / 1000
    } else {
        let t = 2 * (p - 500);
        1000 - (1000 - t) * (1000 - t) / 1000
    }
}

/// Height factor in thousandths at progress `p` for compression `c`:
/// compressing in the first half, expanding with an overshoot of up to a
/// tenth of the compression in the second.
pub open spec fn compression_factor(p: int, c: int) -> int {
    let b = bounce_curve(p);
    if p < 500 {
        1000 - b * c / 1000
    } else {
        let overshoot = 1000 + (1000 - b) / 10;
        1000 - (1000 - b) * c * overshoot / 1_000_000
    }
}

/// Position and vertical scale of a trampoline's surface.
#[derive(Clone, Copy, Debug, PartialEq, Eq, Structural)]
pub struct TrampolinePose {
    /// Height of the surface.
    pub y: i64,
    /// Vertical scale, in thousandths.
    pub scale_y: i64,
}

/// The pose at height factor `f` for a surface resting at `rest_y` with
/// vertical scale `rest_scale`.
pub open spec fn pose_at(rest_y: int, rest_scale: int, f: int) -> TrampolinePose {
    TrampolinePose {
        y: (rest_y - (1000 - f) * SINK_DEPTH / 1000) as i64,
        scale_y: (rest_scale * f / 1000) as i64,
    }
}

/// The animation state of one trampoline.
#[derive(Clone, Copy, Debug, PartialEq, Eq, Structural)]
pub struct TrampolineAnimation {
    pub is_animating: bool,
    /// Time since the animation was triggered, in milliseconds.
    pub animation_time: u64,
    /// Length of the animation, in milliseconds.
    pub animation_duration: u64,
    /// Compression at the deepest point, in thousandths.
    pub compression_amount: i64,
    /// Height of the surface at rest.
    pub rest_y: i64,
    /// Vertical scale of the surface at rest, in thousandths.
    pub rest_scale_y: i64,
}

impl TrampolineAnimation {
    pub open spec fn wf(self) -> bool {
        &&& 0 < self.animation_duration <= MAX_ANIMATION_MS
        &&& 0 <= self.compression_amount <= MAX_COMPRESSION
        &&& 0 <= self.rest_scale_y <= MAX_REST_SCALE
        &&& self.rest_y >= i64::MIN + 1000
        &&& self.is_animating ==> self.animation_time < self.animation_duration
    }

    /// The surface at rest.
    pub open spec fn rest_pose(self) -> TrampolinePose {
        TrampolinePose { y: self.rest_y, scale_y: self.rest_scale_y }
    }

    /// Progress in thousandths after `time` milliseconds.
    pub open spec fn progress_at(self, time: int) -> int {
        time * 1000 / (self.animation_duration as int)
    }

    /// An idle animation for a surface at rest at height `rest_y` with
    /// vertical scale `rest_scale_y`, with the standard length and depth.
    pub fn new(rest_y: i64, rest_scale_y: i64) -> (r: TrampolineAnimation)
        requires
            0 <= rest_scale_y <= MAX_REST_SCALE,
            rest_y >= i64::MIN + 1000,
        ensures
            r.wf(),
            !r.is_animating,
            r.animation_time == 0,
            r.animation_duration == TRAMPOLINE_ANIMATION_MS,
            r.compression_amount == TRAMPOLINE_COMPRESSION,
            r.rest_y == rest_y,
            r.rest_scale_y == rest_scale_y,
    {
        TrampolineAnimation {
            is_animating: false,
            animation_time: 0,
            animation_duration: TRAMPOLINE_ANIMATION_MS,
            compression_amount: TRAMPOLINE_COMPRESSION,
            rest_y,
            rest_scale_y,
        }
    }

    /// Starts (or restarts) the animation after a bounce.
    pub fn trigger(&mut self)
        requires
            old(self).wf(),
        ensures
            final(self).wf(),
            *final(self) == (TrampolineAnimation {
                is_animating: true,
                animation_time: 0,
                ..*old(self)
            }),
    {
        self.is_animating = true;
        self.animation_time = 0;
    }

    /// Advances the animation by `dt` milliseconds and returns the pose to
    /// show: `None` when idle (the surface is left alone), the rest pose
    /// when the animation ends, and otherwise the pose on the curve.
    pub fn advance(&mut self, dt: u64) -> (r: Option<TrampolinePose>)
        requires
            old(self).wf(),
        ensures
            final(self).wf(),
            !old(self).is_animating ==> r.is_none() && *final(self) == *old(self),
            old(self).is_animating ==> {
                let time = old(self).animation_time + dt;
                if time >= old(self).animation_duration {
                    &&& r == Some(old(self).rest_pose())
                    &&& *final(self) == (TrampolineAnimation {
                        is_animating: false,
                        animation_time: 0,
                        ..*old(self)
                    })
                } else {
                    &&& r == Some(
                        pose_at(
                            old(self).rest_y as int,
                            old(self).rest_scale_y as int,
                            compression_factor(
                                old(self).progress_at(time),
                                old(self).compression_amount as int,
                            ),
                        ),
                    )
                    &&& *final(self) == (TrampolineAnimation {
                        animation_time: time as u64,
                        ..*old(self)
                    })
                }
            },
    {
        if !self.is_animating {
            return None;
        }
        let time: u64 = self.animation_time.saturating_add(dt);
        if time >= self.animation_duration {
            self.is_animating = false;
            self.animation_time = 0;
            return Some(TrampolinePose { y: self.rest_y, scale_y: self.rest_scale_y });
        }
        self.animation_time = time;
        proof {
            let (ti, di) = (time as int, self.animation_duration as int);
            assert(0 <= ti * 1000 <= MAX_ANIMATION_MS * 1000) by (nonlinear_arith)
                requires 0 <= ti < di <= MAX_ANIMATION_MS;
            assert(ti * 1000 / di < 1000) by (nonlinear_arith)
                requires 0 <= ti < di;
        }
        let progress: i64 = (time * 1000 / self.animation_duration) as i64;
        let factor = height_factor(progress, self.compression_amount);
        let sink: i64 = (1000 - factor) * SINK_DEPTH / 1000;
        proof {
            let (rs, f) = (self.rest_scale_y as int, factor as int);
            assert(0 <= rs * f <= MAX_REST_SCALE * 1000) by (nonlinear_arith)
                requires 0 <= rs <= MAX_REST_SCALE, 0 <= f <= 1000;
        }
        Some(TrampolinePose { y: self.rest_y - sink, scale_y: self.rest_scale_y * factor / 1000 })
    }
}

/// The height factor, in thousandths, at progress `p` (thousandths) for
/// compression `c` (thousandths).
pub fn height_factor(p: i64, c: i64) -> (r: i64)
    requires
        0 <= p < 1000,
        0 <= c <= MAX_COMPRESSION,
    ensures
        r == compression_factor(p as int, c as int),
        10 <= r <= 1000,
{
    if p < 500 {
        let t: i64 = 2 * p;
        proof {
            let ti = t as int;
            assert(0 <= ti * ti <= 1_000_000) by (nonlinear_arith)
                requires 0 <= ti <= 1000;
        }
        let b: i64 = t * t / 1000;
        proof {
            let (bi, ci) = (b as int, c as int);
            assert(0 <= bi * ci <= 1000 * MAX_COMPRESSION) by (nonlinear_arith)
                requires 0 <= bi <= 1000, 0 <= ci <= MAX_COMPRESSION;
        }
        1000 - b * c / 1000
    } else {
        let t: i64 = 2 * (p - 500);
        let rest: i64 = 1000 - t;
        proof {
            let ri = rest as int;
            assert(0 <= ri * ri <= 1_000_000) by (nonlinear_arith)
                requires 0 <= ri <= 1000;
        }
        let b: i64 = 1000 - rest * rest / 1000;
        let left: i64 = 1000 - b;
        let overshoot: i64 = 1000 + left / 10;
        proof {
            let (li, ci, oi) = (left as int, c as int, overshoot as int);
            assert(0 <= li * ci <= 1000 * MAX_COMPRESSION) by (nonlinear_arith)
                requires 0 <= li <= 1000, 0 <= ci <= MAX_COMPRESSION;
            assert(0 <= (li * ci) * oi <= 1000 * MAX_COMPRESSION * 1100) by (nonlinear_arith)
                requires 0 <= li * ci <= 1000 * MAX_COMPRESSION, 1000 <= oi <= 1100;
            assert(li * ci * oi == (li * ci) * oi) by (nonlinear_arith);
        }
        1000 - left * c * overshoot / 1_000_000
    }
}

} // verus!
