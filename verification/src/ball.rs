//! The ball: its record, its motion step, and its bounce response.

use vstd::prelude::*;
use vstd::math::abs;
use crate::geometry::{Vec2, within, POS_LIMIT, VEL_LIMIT, RANGE_LIMIT};
use crate::collision::{Aabb, BoundingCircle, Collision, collision_side, aabb_wf,
    collide_with_side};

verus! {

/// Playfield units the ball advances per velocity unit each tick.
pub const BALL_SPEED: i64 = 5;

/// The ball's radius, and both components of its extent.
pub const BALL_SIZE: i64 = 5;

/// The ball entity: centre position, velocity, and extent. The collision
/// radius is the x component of the extent.
#[derive(Clone, Copy, PartialEq, Eq, Structural, Debug)]
pub struct Ball {
    pub position: Vec2,
    pub velocity: Vec2,
    pub shape: Vec2,
}

/// The ball's bounding circle: its centre with the x extent as radius.
pub open spec fn circle_of(b: Ball) -> BoundingCircle {
    BoundingCircle { center: b.position, radius: b.shape.x }
}

/// A position one integration step later: `p + v * speed` on each axis.
pub open spec fn stepped(p: Vec2, v: Vec2, speed: int) -> Vec2 {
    Vec2 { x: (p.x + v.x * speed) as i64, y: (p.y + v.y * speed) as i64 }
}

/// The velocity after one bounce: the struck axis's component is negated and
/// the other kept.
pub open spec fn bounced(v: Vec2, side: Collision) -> Vec2 {
    match side {
        Collision::Horizontal => Vec2 { x: (-(v.x as int)) as i64, y: v.y },
        Collision::Vertical => Vec2 { x: v.x, y: (-(v.y as int)) as i64 },
    }
}

/// The velocity after bouncing off each of the first `n` obstacles in turn,
/// every intersecting obstacle applying its response independently.
pub open spec fn velocity_after_prefix(c: BoundingCircle, v: Vec2, obs: Seq<Aabb>, n: int) -> Vec2
    decreases n,
{
    if n <= 0 {
        v
    } else {
        let prev = velocity_after_prefix(c, v, obs, n - 1);
        match collision_side(c, obs[n - 1]) {
            Some(side) => bounced(prev, side),
            None => prev,
        }
    }
}

/// The velocity after bouncing off every obstacle of the sequence in turn.
pub open spec fn velocity_after_collisions(c: BoundingCircle, v: Vec2, obs: Seq<Aabb>) -> Vec2 {
    velocity_after_prefix(c, v, obs, obs.len() as int)
}

/// The squared speed of a velocity.
pub open spec fn speed_sq(v: Vec2) -> int {
    v.x * v.x + v.y * v.y
}

/// An obstacle the collision engine accepts: ordered corners within the
/// coordinate range.
pub open spec fn obstacle_ok(b: Aabb) -> bool {
    &&& aabb_wf(b)
    &&& within(b.min, RANGE_LIMIT as int)
    &&& within(b.max, RANGE_LIMIT as int)
}

impl Ball {
    /// A fresh ball at the playfield centre with the given velocity and the
    /// fixed ball extent.
    pub fn new(vx: i64, vy: i64) -> (b: Ball)
        ensures
            b.position == (Vec2 { x: 0, y: 0 }),
            b.velocity == (Vec2 { x: vx, y: vy }),
            b.shape == (Vec2 { x: BALL_SIZE, y: BALL_SIZE }),
    {
        Ball { position: Vec2::new(0, 0), velocity: Vec2::new(vx, vy), shape: Vec2::splat(
            BALL_SIZE) }
    }

    /// The ball's bounding circle.
    pub fn bounding_circle(&self) -> (c: BoundingCircle)
        ensures
            c == circle_of(*self),
    {
        BoundingCircle { center: self.position, radius: self.shape.x }
    }
}

/// Advances the ball by one tick: `position += velocity * BALL_SPEED`.
/// Velocity and extent are untouched.
pub fn move_ball(ball: &mut Ball)
    requires
        within(old(ball).position, POS_LIMIT as int),
        within(old(ball).velocity, VEL_LIMIT as int),
    ensures
        final(ball).position == stepped(old(ball).position, old(ball).velocity,
            BALL_SPEED as int),
        final(ball).velocity == old(ball).velocity,
        final(ball).shape == old(ball).shape,
{
    ball.position.x = ball.position.x + ball.velocity.x * BALL_SPEED;
    ball.position.y = ball.position.y + ball.velocity.y * BALL_SPEED;
}

/// Each bounce keeps the magnitude of both velocity components, so any run of
/// bounces does.
pub proof fn lemma_collisions_preserve_magnitude(
    c: BoundingCircle,
    v: Vec2,
    obs: Seq<Aabb>,
    n: int,
)
    requires
        0 <= n <= obs.len(),
        v.x > i64::MIN,
        v.y > i64::MIN,
    ensures
        abs(velocity_after_prefix(c, v, obs, n).x as int) == abs(v.x as int),
        abs(velocity_after_prefix(c, v, obs, n).y as int) == abs(v.y as int),
    decreases n,
{
    if n > 0 {
        lemma_collisions_preserve_magnitude(c, v, obs, n - 1);
        let prev = velocity_after_prefix(c, v, obs, n - 1);
        assert(prev.x > i64::MIN && prev.y > i64::MIN);
    }
}

/// Two values of one magnitude have one square.
proof fn lemma_same_abs_same_square(a: int, b: int)
    requires
        abs(a) == abs(b),
    ensures
        a * a == b * b,
{
    assert(a == b || a == -b);
    assert(a == -b ==> a * a == b * b) by (nonlinear_arith);
}

/// A run of bounces keeps the squared speed: the energy-preserving bounce.
pub proof fn lemma_collisions_preserve_speed(c: BoundingCircle, v: Vec2, obs: Seq<Aabb>)
    requires
        v.x > i64::MIN,
        v.y > i64::MIN,
    ensures
        speed_sq(velocity_after_collisions(c, v, obs)) == speed_sq(v),
{
    let w = velocity_after_collisions(c, v, obs);
    lemma_collisions_preserve_magnitude(c, v, obs, obs.len() as int);
    lemma_same_abs_same_square(w.x as int, v.x as int);
    lemma_same_abs_same_square(w.y as int, v.y as int);
}

/// Bounces the ball off every obstacle it currently overlaps, applying each
/// response independently: the struck axis's velocity component is negated,
/// so a ball touching two perpendicular obstacles flips on both axes in one
/// tick. Position and extent are untouched, and the speed is preserved.
pub fn handle_collisions(ball: &mut Ball, obstacles: &Vec<Aabb>)
    requires
        within(old(ball).position, RANGE_LIMIT as int),
        within(old(ball).velocity, VEL_LIMIT as int),
        0 <= old(ball).shape.x <= RANGE_LIMIT,
        forall|i: int| 0 <= i < obstacles@.len() ==> obstacle_ok(obstacles@[i]),
    ensures
        final(ball).velocity == velocity_after_collisions(circle_of(*old(ball)),
            old(ball).velocity, obstacles@),
        final(ball).position == old(ball).position,
        final(ball).shape == old(ball).shape,
        within(final(ball).velocity, VEL_LIMIT as int),
        speed_sq(final(ball).velocity) == speed_sq(old(ball).velocity),
{
    let circle = ball.bounding_circle();
    let mut i: usize = 0;
    while i < obstacles.len()
        invariant
            0 <= i <= obstacles@.len(),
            circle == circle_of(*old(ball)),
            within(circle.center, RANGE_LIMIT as int),
            0 <= circle.radius <= RANGE_LIMIT,
            forall|k: int| 0 <= k < obstacles@.len() ==> obstacle_ok(obstacles@[k]),
            ball.position == old(ball).position,
            ball.shape == old(ball).shape,
            ball.velocity == velocity_after_prefix(circle, old(ball).velocity, obstacles@,
                i as int),
            within(ball.velocity, VEL_LIMIT as int),
        decreases obstacles@.len() - i,
    {
        match collide_with_side(&circle, &obstacles[i]) {
            Some(Collision::Horizontal) => {
                ball.velocity.x = -ball.velocity.x;
            },
            Some(Collision::Vertical) => {
                ball.velocity.y = -ball.velocity.y;
            },
            None => {},
        }
        i = i + 1;
    }
    proof {
        lemma_collisions_preserve_speed(circle_of(*old(ball)), old(ball).velocity, obstacles@);
    }
}

} // verus!
