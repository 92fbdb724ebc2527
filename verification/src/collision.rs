//! Circle-versus-box intersection and struck-side classification.
//!
//! The test is the standard one: clamp the circle's centre into the box to
//! find the closest point, and intersect exactly when the squared distance
//! from the centre to that point is at most the squared radius. On a hit the
//! struck axis is the one along which the separation offset is larger, with
//! ties going to the vertical side.

use vstd::prelude::*;
use vstd::math::abs;
use crate::geometry::{Vec2, clamped, within, extent_within, clamp_i64, abs_i64, RANGE_LIMIT,
    EXTENT_LIMIT};

verus! {

/// Which pair of faces the ball struck: the left/right faces (horizontal
/// offset dominates) or the top/bottom faces (vertical offset dominates or
/// ties).
#[derive(Clone, Copy, PartialEq, Eq, Structural, Debug)]
pub enum Collision {
    Horizontal,
    Vertical,
}

/// A circle given by centre and radius.
#[derive(Clone, Copy, PartialEq, Eq, Structural, Debug)]
pub struct BoundingCircle {
    pub center: Vec2,
    pub radius: i64,
}

/// An axis-aligned box given by its two extreme corners.
#[derive(Clone, Copy, PartialEq, Eq, Structural, Debug)]
pub struct Aabb {
    pub min: Vec2,
    pub max: Vec2,
}

/// The corners are ordered, so the box is non-empty (possibly degenerate).
pub open spec fn aabb_wf(b: Aabb) -> bool {
    &&& b.min.x <= b.max.x
    &&& b.min.y <= b.max.y
}

/// Horizontal separation: the circle centre's x minus the x of the box's
/// closest point to the centre.
pub open spec fn offset_x(c: BoundingCircle, b: Aabb) -> int {
    c.center.x - clamped(c.center.x as int, b.min.x as int, b.max.x as int)
}

/// Vertical separation: the circle centre's y minus the y of the box's
/// closest point to the centre.
pub open spec fn offset_y(c: BoundingCircle, b: Aabb) -> int {
    c.center.y - clamped(c.center.y as int, b.min.y as int, b.max.y as int)
}

/// Squared distance from the circle's centre to the box's closest point.
pub open spec fn dist_sq(c: BoundingCircle, b: Aabb) -> int {
    offset_x(c, b) * offset_x(c, b) + offset_y(c, b) * offset_y(c, b)
}

/// The circle and the box overlap.
pub open spec fn intersects(c: BoundingCircle, b: Aabb) -> bool {
    dist_sq(c, b) <= c.radius * c.radius
}

/// The side classification of an intersecting pair: the larger separation
/// component wins, and a tie counts as vertical.
pub open spec fn struck_side(c: BoundingCircle, b: Aabb) -> Collision {
    if abs(offset_x(c, b)) > abs(offset_y(c, b)) {
        Collision::Horizontal
    } else {
        Collision::Vertical
    }
}

/// The full collision test: `None` when the shapes do not overlap, otherwise
/// the struck side.
pub open spec fn collision_side(c: BoundingCircle, b: Aabb) -> Option<Collision> {
    if intersects(c, b) {
        Some(struck_side(c, b))
    } else {
        None
    }
}

impl Aabb {
    /// The box centred at `center` with the given half-extents.
    pub fn new(center: Vec2, half_size: Vec2) -> (b: Aabb)
        requires
            within(center, 2 * EXTENT_LIMIT + crate::geometry::POS_LIMIT),
            extent_within(half_size, EXTENT_LIMIT as int),
        ensures
            b.min.x == center.x - half_size.x,
            b.min.y == center.y - half_size.y,
            b.max.x == center.x + half_size.x,
            b.max.y == center.y + half_size.y,
            aabb_wf(b),
            within(b.min, RANGE_LIMIT as int),
            within(b.max, RANGE_LIMIT as int),
    {
        Aabb {
            min: Vec2 { x: center.x - half_size.x, y: center.y - half_size.y },
            max: Vec2 { x: center.x + half_size.x, y: center.y + half_size.y },
        }
    }
}

/// The square of a value bounded by `b` is bounded by `b * b`.
proof fn lemma_square_bound(x: int, b: int)
    requires
        0 <= b,
        -b <= x <= b,
    ensures
        0 <= x * x <= b * b,
{
    assert(0 <= x * x <= b * b) by (nonlinear_arith)
        requires
            0 <= b,
            -b <= x <= b,
    ;
}

/// Whether the ball overlaps the wall and, if it does, which side it struck.
///
/// `None` comes back exactly when the squared centre-to-closest-point
/// distance exceeds the squared radius; on an overlap the side with the
/// larger separation offset is reported, a tie counting as vertical. A
/// degenerate circle or box degrades to a point distance check.
pub fn collide_with_side(ball: &BoundingCircle, wall: &Aabb) -> (r: Option<Collision>)
    requires
        within(ball.center, RANGE_LIMIT as int),
        0 <= ball.radius <= RANGE_LIMIT,
        within(wall.min, RANGE_LIMIT as int),
        within(wall.max, RANGE_LIMIT as int),
        aabb_wf(*wall),
    ensures
        r == collision_side(*ball, *wall),
        (r is None) <==> dist_sq(*ball, *wall) > ball.radius * ball.radius,
        intersects(*ball, *wall) && abs(offset_x(*ball, *wall)) == abs(offset_y(*ball, *wall))
            ==> r == Some(Collision::Vertical),
{
    let closest_x = clamp_i64(ball.center.x, wall.min.x, wall.max.x);
    let closest_y = clamp_i64(ball.center.y, wall.min.y, wall.max.y);
    let dx = ball.center.x - closest_x;
    let dy = ball.center.y - closest_y;
    proof {
        lemma_square_bound(dx as int, 2 * RANGE_LIMIT);
        lemma_square_bound(dy as int, 2 * RANGE_LIMIT);
        lemma_square_bound(ball.radius as int, RANGE_LIMIT as int);
    }
    let dist = dx * dx + dy * dy;
    if dist > ball.radius * ball.radius {
        return None;
    }
    let off_x = abs_i64(dx);
    let off_y = abs_i64(dy);
    if off_x > off_y {
        Some(Collision::Horizontal)
    } else {
        Some(Collision::Vertical)
    }
}

} // verus!
