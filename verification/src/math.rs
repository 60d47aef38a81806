//! Fixed-point scalars and 2D vectors.
//!
//! Every scalar of the simulation (world coordinate, angle in radians, speed)
//! is an `i64` holding the value times [`SCALE`]. All engine arithmetic on
//! these scalars is exact integer arithmetic.

use vstd::prelude::*;

verus! {

/// Number of fixed-point units in one world unit (or one radian).
pub const SCALE: i64 = 1_000_000;

/// Largest speed (fixed-point units per tick) a velocity may carry; keeps the
/// per-tick displacement computation inside `i64`.
pub const MAX_SPEED: i64 = 1_000_000_000;

/// Positions with both coordinates at most `POS_LIMIT` in magnitude can be
/// advanced by one tick without leaving `i64`.
pub const POS_LIMIT: i64 = 1_000_000_000_000_000_000;

/// A 2D point or vector in world coordinates, in fixed-point units.
#[derive(Clone, Copy, Debug, PartialEq, Eq, Structural)]
pub struct Vec2i {
    pub x: i64,
    pub y: i64,
}

/// Mathematical model of a [`Vec2i`]: the same point over unbounded integers.
pub struct Vec2V {
    pub x: int,
    pub y: int,
}

impl View for Vec2i {
    type V = Vec2V;

    open spec fn view(&self) -> Vec2V {
        Vec2V { x: self.x as int, y: self.y as int }
    }
}

/// `c * s / SCALE` rounded toward zero: the contribution of one unit-vector
/// component `c` (at most `SCALE` in magnitude) scaled by a speed `s`.
pub open spec fn spec_scaled(c: int, s: int) -> int {
    if c >= 0 {
        (c * s) / (SCALE as int)
    } else {
        -(((-c) * s) / (SCALE as int))
    }
}

/// The scaled component never exceeds the speed in magnitude.
pub proof fn lemma_scaled_bounded(c: int, s: int)
    requires
        -SCALE <= c <= SCALE,
        0 <= s <= MAX_SPEED,
    ensures
        -s <= spec_scaled(c, s) <= s,
{
    if c >= 0 {
        assert(c * s <= SCALE * s) by (nonlinear_arith)
            requires 0 <= c <= SCALE && 0 <= s;
        assert(0 <= c * s) by (nonlinear_arith)
            requires 0 <= c && 0 <= s;
        assert(SCALE * s / (SCALE as int) == s) by (nonlinear_arith)
            requires 0 <= s;
        assert(c * s / (SCALE as int) <= SCALE * s / (SCALE as int)) by (nonlinear_arith)
            requires 0 <= c * s <= SCALE * s;
    } else {
        assert((-c) * s <= SCALE * s) by (nonlinear_arith)
            requires 0 <= -c <= SCALE && 0 <= s;
        assert(0 <= (-c) * s) by (nonlinear_arith)
            requires 0 <= -c && 0 <= s;
        assert(SCALE * s / (SCALE as int) == s) by (nonlinear_arith)
            requires 0 <= s;
        assert((-c) * s / (SCALE as int) <= SCALE * s / (SCALE as int)) by (nonlinear_arith)
            requires 0 <= (-c) * s <= SCALE * s;
    }
}

/// Computes [`spec_scaled`] on fixed-point values.
pub fn scaled(c: i64, s: i64) -> (r: i64)
    requires
        -SCALE <= c <= SCALE,
        0 <= s <= MAX_SPEED,
    ensures
        r == spec_scaled(c as int, s as int),
        -s <= r <= s,
{
    proof {
        lemma_scaled_bounded(c as int, s as int);
        assert(c * s <= SCALE * MAX_SPEED) by (nonlinear_arith)
            requires -SCALE <= c <= SCALE && 0 <= s <= MAX_SPEED;
        assert(-(SCALE * MAX_SPEED) <= c * s) by (nonlinear_arith)
            requires -SCALE <= c <= SCALE && 0 <= s <= MAX_SPEED;
    }
    if c >= 0 {
        (c * s) / SCALE
    } else {
        -(((-c) * s) / SCALE)
    }
}

} // verus!
