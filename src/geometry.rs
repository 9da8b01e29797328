//! Fixed-point vectors and scaling helpers.
use vstd::prelude::*;

verus! {

/// One world unit, in the fixed-point scale used throughout the crate.
pub const UNIT: i64 = 1000;

/// A 3D vector whose components are thousandths of a world unit.
#[derive(Clone, Copy, Debug, PartialEq, Eq, Structural)]
pub struct Vec3 {
    pub x: i64,
    pub y: i64,
    pub z: i64,
}

impl Vec3 {
    pub open spec fn spec_new(x: i64, y: i64, z: i64) -> Vec3 {
        Vec3 { x, y, z }
    }

    pub fn new(x: i64, y: i64, z: i64) -> (r: Vec3)
        ensures
            r == Vec3::spec_new(x, y, z),
    {
        Vec3 { x, y, z }
    }

    pub fn zero() -> (r: Vec3)
        ensures
            r == Vec3::spec_new(0, 0, 0),
    {
        Vec3 { x: 0, y: 0, z: 0 }
    }
}

/// `v * num / den`, rounded toward zero.
pub open spec fn scale_toward_zero(v: int, num: int, den: int) -> int {
    if v >= 0 {
        (v * num) / den
    } else {
        -(((-v) * num) / den)
    }
}

/// Scales `v` by the ratio `num / den` (at most one), rounding toward zero.
pub fn scale_ratio(v: i64, num: i64, den: i64) -> (r: i64)
    requires
        0 <= num <= den,
        0 < den,
    ensures
        r == scale_toward_zero(v as int, num as int, den as int),
{
    let wide: i128 = v as i128;
    let n: i128 = num as i128;
    let d: i128 = den as i128;
    let mag: i128 = if wide >= 0 { wide } else { -wide };
    proof {
        let (m, ni, di) = (mag as int, n as int, d as int);
        assert(0 <= m * ni <= m * di) by (nonlinear_arith)
            requires 0 <= m, 0 <= ni <= di;
        assert(m * di <= (i64::MAX as int + 1) * di) by (nonlinear_arith)
            requires 0 <= m <= i64::MAX + 1, 0 < di;
        assert((i64::MAX as int + 1) * di <= (i64::MAX as int + 1) * (i64::MAX as int)) by (nonlinear_arith)
            requires 0 < di <= i64::MAX;
        assert((m * ni) / di <= m) by (nonlinear_arith)
            requires 0 <= m, 0 <= m * ni <= m * di, 0 < di;
    }
    let q: i128 = (mag * n) / d;
    if wide >= 0 {
        q as i64
    } else {
        (-q) as i64
    }
}

} // verus!
