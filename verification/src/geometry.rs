//! Plain integer 2-D vectors and the coordinate bounds the simulation works in.

use vstd::prelude::*;

verus! {

/// Largest magnitude any coordinate handed to the collision engine may have.
/// Keeping every coordinate within this range keeps every squared distance
/// inside `i64`.
pub const RANGE_LIMIT: i64 = 1_000_000_000;

/// Largest magnitude an entity position may have in a valid game state.
pub const POS_LIMIT: i64 = 100_000_000;

/// Largest width or height an entity extent or the viewport may have.
pub const EXTENT_LIMIT: i64 = 1_000_000;

/// Largest magnitude a velocity component may have in a valid game state.
pub const VEL_LIMIT: i64 = 1_000;

/// A two-dimensional vector in integer playfield units.
#[derive(Clone, Copy, PartialEq, Eq, Structural, Debug)]
pub struct Vec2 {
    pub x: i64,
    pub y: i64,
}

/// The mathematical clamp of `v` to the interval `[lo, hi]` (for `lo <= hi`).
pub open spec fn clamped(v: int, lo: int, hi: int) -> int {
    if v < lo {
        lo
    } else if v > hi {
        hi
    } else {
        v
    }
}

/// The sign of `d`: -1, 0 or +1.
pub open spec fn sign(d: int) -> int {
    if d < 0 {
        -1
    } else if d > 0 {
        1
    } else {
        0
    }
}

/// Both components lie within `limit` in magnitude.
pub open spec fn within(v: Vec2, limit: int) -> bool {
    &&& -limit <= v.x <= limit
    &&& -limit <= v.y <= limit
}

/// Both components are non-negative and at most `limit`: the shape of a
/// well-formed extent.
pub open spec fn extent_within(v: Vec2, limit: int) -> bool {
    &&& 0 <= v.x <= limit
    &&& 0 <= v.y <= limit
}

impl Vec2 {
    pub fn new(x: i64, y: i64) -> (v: Vec2)
        ensures
            v.x == x,
            v.y == y,
    {
        Vec2 { x, y }
    }

    /// One value for both components.
    pub fn splat(s: i64) -> (v: Vec2)
        ensures
            v.x == s,
            v.y == s,
    {
        Vec2 { x: s, y: s }
    }
}

/// Clamps `v` to `[lo, hi]`.
pub fn clamp_i64(v: i64, lo: i64, hi: i64) -> (r: i64)
    requires
        lo <= hi,
    ensures
        r == clamped(v as int, lo as int, hi as int),
{
    if v < lo {
        lo
    } else if v > hi {
        hi
    } else {
        v
    }
}

/// The absolute value of `v`.
pub fn abs_i64(v: i64) -> (r: i64)
    requires
        v != i64::MIN,
    ensures
        r == vstd::math::abs(v as int),
{
    if v < 0 {
        -v
    } else {
        v
    }
}

} // verus!
