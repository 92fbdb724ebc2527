//! The two paddles: input- and tracking-driven velocity, and the clamped
//! motion step that keeps them out of the boundary strips.

use vstd::prelude::*;
use vstd::math::abs;
use crate::geometry::{Vec2, sign, within, POS_LIMIT, VEL_LIMIT, EXTENT_LIMIT, RANGE_LIMIT,
    abs_i64};
use crate::gutter::GUTTER_HEIGHT;

verus! {

/// Playfield units a paddle advances per velocity unit each tick.
pub const PADDLE_SPEED: i64 = 4;

/// Horizontal extent of a paddle.
pub const PADDLE_WIDTH: i64 = 10;

/// Vertical extent of a paddle.
pub const PADDLE_HEIGHT: i64 = 50;

/// Distance of each paddle's centre from its own goal line.
pub const PADDLE_PADDING: i64 = 50;

/// A paddle entity: centre position, velocity, and extent.
#[derive(Clone, Copy, PartialEq, Eq, Structural, Debug)]
pub struct Paddle {
    pub position: Vec2,
    pub velocity: Vec2,
    pub shape: Vec2,
}

/// The vertical input axis a pair of key states gives: up minus down, one of
/// -1, 0 or +1.
pub open spec fn input_axis(up_pressed: bool, down_pressed: bool) -> int {
    (up_pressed as int) - (down_pressed as int)
}

/// The largest distance from the horizontal centreline at which a tentative
/// paddle position is still accepted.
pub open spec fn clamp_limit(window_height: int) -> int {
    window_height / 2 - GUTTER_HEIGHT - PADDLE_HEIGHT as int / 2
}

/// The paddle one tick later: the tentative position `position + velocity *
/// PADDLE_SPEED` is written back only when its distance from the centreline
/// stays strictly under the clamp limit; otherwise the paddle stops where it
/// was for this tick.
pub open spec fn paddle_moved(p: Paddle, window_height: int) -> Paddle {
    let nx = (p.position.x + p.velocity.x * PADDLE_SPEED) as i64;
    let ny = (p.position.y + p.velocity.y * PADDLE_SPEED) as i64;
    if abs(ny as int) < clamp_limit(window_height) {
        Paddle { position: Vec2 { x: nx, y: ny }, velocity: p.velocity, shape: p.shape }
    } else {
        p
    }
}

impl Paddle {
    /// A motionless paddle centred at `(x, y)` with the fixed paddle extent.
    pub fn new(x: i64, y: i64) -> (p: Paddle)
        ensures
            p.position == (Vec2 { x: x, y: y }),
            p.velocity == (Vec2 { x: 0, y: 0 }),
            p.shape == (Vec2 { x: PADDLE_WIDTH, y: PADDLE_HEIGHT }),
    {
        Paddle {
            position: Vec2::new(x, y),
            velocity: Vec2::new(0, 0),
            shape: Vec2::new(PADDLE_WIDTH, PADDLE_HEIGHT),
        }
    }

    /// The right-side paddle, the player's: one padding in from the right
    /// goal line, on the centreline.
    pub fn player(window_width: i64) -> (p: Paddle)
        requires
            0 <= window_width <= EXTENT_LIMIT,
        ensures
            p == Paddle::new_spec(window_width as int / 2 - PADDLE_PADDING, 0),
    {
        Paddle::new(window_width / 2 - PADDLE_PADDING, 0)
    }

    /// The left-side paddle, the tracking opponent's: one padding in from the
    /// left goal line, on the centreline.
    pub fn ai(window_width: i64) -> (p: Paddle)
        requires
            0 <= window_width <= EXTENT_LIMIT,
        ensures
            p == Paddle::new_spec(-(window_width as int / 2) + PADDLE_PADDING, 0),
    {
        Paddle::new(-(window_width / 2) + PADDLE_PADDING, 0)
    }

    /// The paddle `Paddle::new` builds, as a value.
    pub open spec fn new_spec(x: int, y: int) -> Paddle {
        Paddle {
            position: Vec2 { x: x as i64, y: y as i64 },
            velocity: Vec2 { x: 0, y: 0 },
            shape: Vec2 { x: PADDLE_WIDTH, y: PADDLE_HEIGHT },
        }
    }
}

/// Sets the player paddle's vertical velocity from the key states: up minus
/// down. Nothing else changes.
pub fn handle_player_input(paddle: &mut Paddle, up_pressed: bool, down_pressed: bool)
    ensures
        final(paddle).velocity.y == input_axis(up_pressed, down_pressed),
        final(paddle).velocity.x == old(paddle).velocity.x,
        final(paddle).position == old(paddle).position,
        final(paddle).shape == old(paddle).shape,
{
    let up: i64 = if up_pressed {
        1
    } else {
        0
    };
    let down: i64 = if down_pressed {
        1
    } else {
        0
    };
    paddle.velocity.y = up - down;
}

/// Sets the tracking paddle's vertical velocity to the sign of the ball's
/// vertical offset from it: constant-speed tracking, -1, 0 or +1, never a
/// magnitude proportional to the distance. Nothing else changes.
pub fn move_ai(ai: &mut Paddle, ball_position: Vec2)
    requires
        within(old(ai).position, RANGE_LIMIT as int),
        within(ball_position, RANGE_LIMIT as int),
    ensures
        final(ai).velocity.y == sign(ball_position.y - old(ai).position.y),
        final(ai).velocity.x == old(ai).velocity.x,
        final(ai).position == old(ai).position,
        final(ai).shape == old(ai).shape,
{
    let d = ball_position.y - ai.position.y;
    ai.velocity.y = if d < 0 {
        -1
    } else if d > 0 {
        1
    } else {
        0
    };
}

/// Advances one paddle by one tick under the bounds clamp: the move is taken
/// only when the tentative position keeps the paddle strictly clear of the
/// boundary strips, else the paddle keeps its old position. A paddle whose
/// distance from the centreline is within the clamp limit stays within it.
pub fn move_paddle(paddle: &mut Paddle, window_height: i64)
    requires
        0 <= window_height <= EXTENT_LIMIT,
        within(old(paddle).position, POS_LIMIT as int),
        within(old(paddle).velocity, VEL_LIMIT as int),
    ensures
        *final(paddle) == paddle_moved(*old(paddle), window_height as int),
        abs(old(paddle).position.y as int) <= clamp_limit(window_height as int) ==> abs(
            final(paddle).position.y as int) <= clamp_limit(window_height as int),
{
    let nx = paddle.position.x + paddle.velocity.x * PADDLE_SPEED;
    let ny = paddle.position.y + paddle.velocity.y * PADDLE_SPEED;
    let limit = window_height / 2 - GUTTER_HEIGHT - PADDLE_HEIGHT / 2;
    if abs_i64(ny) < limit {
        paddle.position.x = nx;
        paddle.position.y = ny;
    }
}

/// Advances both paddles by one tick under the bounds clamp.
pub fn move_paddles(player: &mut Paddle, ai: &mut Paddle, window_height: i64)
    requires
        0 <= window_height <= EXTENT_LIMIT,
        within(old(player).position, POS_LIMIT as int),
        within(old(player).velocity, VEL_LIMIT as int),
        within(old(ai).position, POS_LIMIT as int),
        within(old(ai).velocity, VEL_LIMIT as int),
    ensures
        *final(player) == paddle_moved(*old(player), window_height as int),
        *final(ai) == paddle_moved(*old(ai), window_height as int),
{
    move_paddle(player, window_height);
    move_paddle(ai, window_height);
}

} // verus!
