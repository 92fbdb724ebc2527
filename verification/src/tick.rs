//! The whole game state and the fixed per-tick stage order.
//!
//! One tick runs: input axis to the player paddle's velocity; tracking rule
//! to the opponent paddle's velocity (from the ball's current position);
//! clamped paddle motion; ball motion; bounce response against the boundary
//! strips and both paddles; goal-line detection on the moved ball; and, on a
//! scoring event, both the tally update and the serve reset, each exactly
//! once. The stage order is load-bearing and encoded here once.

use vstd::prelude::*;
use vstd::math::abs;
use crate::ball::{Ball, BALL_SPEED, circle_of, stepped, velocity_after_collisions, move_ball,
    handle_collisions, obstacle_ok};
use crate::collision::Aabb;
use crate::geometry::{Vec2, sign, within, extent_within, POS_LIMIT, VEL_LIMIT, EXTENT_LIMIT};
use crate::gutter::Gutter;
use crate::paddle::{Paddle, paddle_moved, input_axis, clamp_limit,
    handle_player_input, move_ai, move_paddles};
use crate::score::{Score, Scorer, scoring_event, tallied, ball_reset, detect_scoring,
    update_score, reset_ball};

verus! {

/// The viewport size, in playfield units, sampled once at startup.
#[derive(Clone, Copy, PartialEq, Eq, Structural, Debug)]
pub struct Window {
    pub width: i64,
    pub height: i64,
}

/// Everything the simulation owns: the one ball (optional, so a tick before
/// it is spawned is a silent no-op for the systems that need it), the two
/// paddles, the two static boundary strips, the tally and the viewport size.
#[derive(Clone, Copy, Debug)]
pub struct GameState {
    pub ball: Option<Ball>,
    pub player: Paddle,
    pub ai: Paddle,
    pub top_gutter: Gutter,
    pub bottom_gutter: Gutter,
    pub score: Score,
    pub window: Window,
}

/// The ball's coordinates are small enough for a tick's arithmetic.
pub open spec fn valid_ball(b: Ball) -> bool {
    &&& within(b.position, POS_LIMIT as int)
    &&& within(b.velocity, VEL_LIMIT as int)
    &&& extent_within(b.shape, EXTENT_LIMIT as int)
}

/// The paddle's coordinates are small enough for a tick's arithmetic, and it
/// only ever moves vertically.
pub open spec fn valid_paddle(p: Paddle) -> bool {
    &&& within(p.position, POS_LIMIT as int)
    &&& within(p.velocity, VEL_LIMIT as int)
    &&& p.velocity.x == 0
    &&& extent_within(p.shape, EXTENT_LIMIT as int)
}

/// The strip's coordinates are small enough for a tick's arithmetic.
pub open spec fn valid_gutter(g: Gutter) -> bool {
    &&& within(g.position, POS_LIMIT as int)
    &&& extent_within(g.shape, EXTENT_LIMIT as int)
}

/// The viewport is non-negative and bounded.
pub open spec fn valid_window(w: Window) -> bool {
    &&& 0 <= w.width <= EXTENT_LIMIT
    &&& 0 <= w.height <= EXTENT_LIMIT
}

/// Every entity of the state is within the bounds one tick's arithmetic
/// needs.
pub open spec fn valid_state(s: GameState) -> bool {
    &&& match s.ball {
        Some(b) => valid_ball(b),
        None => true,
    }
    &&& valid_paddle(s.player)
    &&& valid_paddle(s.ai)
    &&& valid_gutter(s.top_gutter)
    &&& valid_gutter(s.bottom_gutter)
    &&& valid_window(s.window)
}

/// The axis-aligned box of an obstacle: centred on its position with half its
/// extent on each side.
pub open spec fn obstacle_box(position: Vec2, shape: Vec2) -> Aabb {
    Aabb {
        min: Vec2 {
            x: (position.x - shape.x as int / 2) as i64,
            y: (position.y - shape.y as int / 2) as i64,
        },
        max: Vec2 {
            x: (position.x + shape.x as int / 2) as i64,
            y: (position.y + shape.y as int / 2) as i64,
        },
    }
}

/// Everything the ball bounces off: both boundary strips, then both paddles.
pub open spec fn obstacles_of(s: GameState) -> Seq<Aabb> {
    seq![
        obstacle_box(s.top_gutter.position, s.top_gutter.shape),
        obstacle_box(s.bottom_gutter.position, s.bottom_gutter.shape),
        obstacle_box(s.player.position, s.player.shape),
        obstacle_box(s.ai.position, s.ai.shape),
    ]
}

/// The state after the paddle stages of one tick: the player's velocity from
/// the input axis, the opponent's from the tracking rule (reading the ball's
/// position before it moves), then clamped paddle motion. This is what the
/// ball bounces off.
pub open spec fn tick_moves_paddles_only(
    s: GameState,
    up_pressed: bool,
    down_pressed: bool,
) -> GameState {
    let player1 = Paddle {
        position: s.player.position,
        velocity: Vec2 { x: s.player.velocity.x, y: input_axis(up_pressed, down_pressed) as i64 },
        shape: s.player.shape,
    };
    let ai1 = match s.ball {
        Some(b) => Paddle {
            position: s.ai.position,
            velocity: Vec2 {
                x: s.ai.velocity.x,
                y: sign(b.position.y - s.ai.position.y) as i64,
            },
            shape: s.ai.shape,
        },
        None => s.ai,
    };
    GameState {
        ball: s.ball,
        player: paddle_moved(player1, s.window.height as int),
        ai: paddle_moved(ai1, s.window.height as int),
        top_gutter: s.top_gutter,
        bottom_gutter: s.bottom_gutter,
        score: s.score,
        window: s.window,
    }
}

/// The state after the motion stages of one tick: the paddle stages, then
/// ball motion and the bounce response against the post-move obstacles.
/// Scoring has not yet been applied. Without a ball, the ball systems and the
/// tracking rule skip their work.
pub open spec fn tick_moves(s: GameState, up_pressed: bool, down_pressed: bool) -> GameState {
    let s2 = tick_moves_paddles_only(s, up_pressed, down_pressed);
    match s.ball {
        Some(b) => {
            let moved = Ball {
                position: stepped(b.position, b.velocity, BALL_SPEED as int),
                velocity: b.velocity,
                shape: b.shape,
            };
            let bounced = Ball {
                position: moved.position,
                velocity: velocity_after_collisions(circle_of(moved), moved.velocity,
                    obstacles_of(s2)),
                shape: moved.shape,
            };
            GameState {
                ball: Some(bounced),
                player: s2.player,
                ai: s2.ai,
                top_gutter: s2.top_gutter,
                bottom_gutter: s2.bottom_gutter,
                score: s2.score,
                window: s2.window,
            }
        },
        None => s2,
    }
}

/// The scoring event one tick emits: which goal line, if any, the moved ball
/// sits behind. Without a ball there is never an event.
pub open spec fn tick_event(s: GameState, up_pressed: bool, down_pressed: bool) -> Option<
    Scorer,
> {
    let m = tick_moves(s, up_pressed, down_pressed);
    match m.ball {
        Some(b) => scoring_event(b.position.x as int, m.window.width as int),
        None => None,
    }
}

/// The state after a scoring event is applied to it: the scorer's tally grows
/// and the ball is reset to the serve, both exactly once; with no event the
/// state is untouched.
pub open spec fn apply_event(s: GameState, event: Option<Scorer>) -> GameState {
    match event {
        Some(scorer) => GameState {
            ball: match s.ball {
                Some(b) => Some(ball_reset(b, scorer)),
                None => s.ball,
            },
            player: s.player,
            ai: s.ai,
            top_gutter: s.top_gutter,
            bottom_gutter: s.bottom_gutter,
            score: tallied(s.score, scorer),
            window: s.window,
        },
        None => s,
    }
}

/// The whole tick: the motion stages, then the scoring event they emit,
/// applied.
pub open spec fn spec_tick(s: GameState, up_pressed: bool, down_pressed: bool) -> GameState {
    apply_event(tick_moves(s, up_pressed, down_pressed), tick_event(s, up_pressed, down_pressed))
}

impl GameState {
    /// The state at simulation start for a viewport of the given size: the
    /// ball serving up-right from the centre, each paddle one padding in from
    /// its goal line, the strips flush with the viewport's edges, and a zero
    /// tally.
    pub fn new(window_width: i64, window_height: i64) -> (s: GameState)
        requires
            0 <= window_width <= EXTENT_LIMIT,
            0 <= window_height <= EXTENT_LIMIT,
        ensures
            valid_state(s),
            s.ball == Some(Ball { position: Vec2 { x: 0, y: 0 }, velocity: Vec2 { x: 1, y: 1 },
                shape: Vec2 { x: crate::ball::BALL_SIZE, y: crate::ball::BALL_SIZE } }),
            s.player == Paddle::new_spec(window_width as int / 2 - crate::paddle::PADDLE_PADDING,
                0),
            s.ai == Paddle::new_spec(-(window_width as int / 2) + crate::paddle::PADDLE_PADDING,
                0),
            s.top_gutter.position.x == 0,
            s.top_gutter.position.y == window_height as int / 2
                - crate::gutter::GUTTER_HEIGHT as int / 2,
            s.bottom_gutter.position.x == 0,
            s.bottom_gutter.position.y == -(window_height as int / 2)
                + crate::gutter::GUTTER_HEIGHT as int / 2,
            s.top_gutter.shape == (Vec2 { x: window_width, y: crate::gutter::GUTTER_HEIGHT }),
            s.bottom_gutter.shape == s.top_gutter.shape,
            s.score == (Score { player: 0, ai: 0 }),
            s.window == (Window { width: window_width, height: window_height }),
    {
        GameState {
            ball: Some(Ball::new(1, 1)),
            player: Paddle::player(window_width),
            ai: Paddle::ai(window_width),
            top_gutter: Gutter::top(window_width, window_height),
            bottom_gutter: Gutter::bottom(window_width, window_height),
            score: Score::new(),
            window: Window { width: window_width, height: window_height },
        }
    }
}

/// Both components lie within `limit` in magnitude.
fn vec2_within(v: &Vec2, limit: i64) -> (b: bool)
    requires
        0 <= limit,
    ensures
        b == within(*v, limit as int),
{
    -limit <= v.x && v.x <= limit && -limit <= v.y && v.y <= limit
}

/// Both components are non-negative and at most `limit`.
fn vec2_extent_within(v: &Vec2, limit: i64) -> (b: bool)
    ensures
        b == extent_within(*v, limit as int),
{
    0 <= v.x && v.x <= limit && 0 <= v.y && v.y <= limit
}

/// Decides `valid_state`, so an unverified host can test it before every
/// tick.
pub fn state_is_valid(s: &GameState) -> (b: bool)
    ensures
        b == valid_state(*s),
{
    let ball_ok = match &s.ball {
        Some(b) => vec2_within(&b.position, POS_LIMIT) && vec2_within(&b.velocity, VEL_LIMIT)
            && vec2_extent_within(&b.shape, EXTENT_LIMIT),
        None => true,
    };
    ball_ok && vec2_within(&s.player.position, POS_LIMIT) && vec2_within(&s.player.velocity,
        VEL_LIMIT) && s.player.velocity.x == 0 && vec2_extent_within(&s.player.shape,
        EXTENT_LIMIT) && vec2_within(&s.ai.position, POS_LIMIT) && vec2_within(&s.ai.velocity,
        VEL_LIMIT) && s.ai.velocity.x == 0 && vec2_extent_within(&s.ai.shape, EXTENT_LIMIT)
        && vec2_within(&s.top_gutter.position, POS_LIMIT) && vec2_extent_within(
        &s.top_gutter.shape, EXTENT_LIMIT) && vec2_within(&s.bottom_gutter.position, POS_LIMIT)
        && vec2_extent_within(&s.bottom_gutter.shape, EXTENT_LIMIT) && 0 <= s.window.width
        && s.window.width <= EXTENT_LIMIT && 0 <= s.window.height && s.window.height
        <= EXTENT_LIMIT
}

/// The boxes the ball can bounce off, in the fixed order: top strip, bottom
/// strip, player paddle, opponent paddle.
pub fn obstacle_boxes(state: &GameState) -> (obs: Vec<Aabb>)
    requires
        valid_paddle(state.player),
        valid_paddle(state.ai),
        valid_gutter(state.top_gutter),
        valid_gutter(state.bottom_gutter),
    ensures
        obs@ == obstacles_of(*state),
        forall|i: int| 0 <= i < obs@.len() ==> obstacle_ok(obs@[i]),
{
    let mut obs: Vec<Aabb> = Vec::new();
    obs.push(box_for(state.top_gutter.position, state.top_gutter.shape));
    obs.push(box_for(state.bottom_gutter.position, state.bottom_gutter.shape));
    obs.push(box_for(state.player.position, state.player.shape));
    obs.push(box_for(state.ai.position, state.ai.shape));
    proof {
        assert(obs@ =~= obstacles_of(*state));
    }
    obs
}

/// One obstacle's box.
fn box_for(position: Vec2, shape: Vec2) -> (b: Aabb)
    requires
        within(position, POS_LIMIT as int),
        extent_within(shape, EXTENT_LIMIT as int),
    ensures
        b == obstacle_box(position, shape),
        obstacle_ok(b),
{
    Aabb::new(position, Vec2 { x: shape.x / 2, y: shape.y / 2 })
}

/// Runs one tick in the fixed stage order and reports the scoring event, if
/// any, so the host can refresh its scoreboard. The new state is exactly
/// `spec_tick` of the old; the tally never decreases; and a paddle that was
/// within the bounds clamp stays within it.
pub fn tick(state: &mut GameState, up_pressed: bool, down_pressed: bool) -> (scored: Option<
    Scorer,
>)
    requires
        valid_state(*old(state)),
    ensures
        *final(state) == spec_tick(*old(state), up_pressed, down_pressed),
        scored == tick_event(*old(state), up_pressed, down_pressed),
        final(state).score.player >= old(state).score.player,
        final(state).score.ai >= old(state).score.ai,
        abs(old(state).player.position.y as int) <= clamp_limit(old(state).window.height as int)
            ==> abs(final(state).player.position.y as int) <= clamp_limit(
            old(state).window.height as int),
        abs(old(state).ai.position.y as int) <= clamp_limit(old(state).window.height as int)
            ==> abs(final(state).ai.position.y as int) <= clamp_limit(
            old(state).window.height as int),
{
    let ghost s0 = *old(state);
    let mut player = state.player;
    handle_player_input(&mut player, up_pressed, down_pressed);
    let mut ai = state.ai;
    match &state.ball {
        Some(b) => move_ai(&mut ai, b.position),
        None => {},
    }
    move_paddles(&mut player, &mut ai, state.window.height);
    state.player = player;
    state.ai = ai;
    let ghost s2 = tick_moves_paddles_only(s0, up_pressed, down_pressed);
    proof {
        assert(state.player == s2.player);
        assert(state.ai == s2.ai);
    }
    let mut event: Option<Scorer> = None;
    let ball_opt = state.ball;
    match ball_opt {
        Some(mut b) => {
            move_ball(&mut b);
            let obstacles = obstacle_boxes(state);
            proof {
                assert(obstacles@ == obstacles_of(s2));
            }
            handle_collisions(&mut b, &obstacles);
            event = detect_scoring(&b, state.window.width);
            match event {
                Some(scorer) => {
                    update_score(&mut state.score, scorer);
                    reset_ball(&mut b, scorer);
                },
                None => {},
            }
            state.ball = Some(b);
        },
        None => {},
    }
    proof {
        assert(event == tick_event(s0, up_pressed, down_pressed));
        assert(*state == spec_tick(s0, up_pressed, down_pressed));
    }
    event
}

/// A ball with no horizontal velocity that sits between the goal lines never
/// scores: the tick emits no event and leaves the tally untouched, whatever
/// the input, and the state it yields satisfies the same hypotheses again, so
/// repeated ticks leave the tally unchanged indefinitely.
pub proof fn lemma_parallel_ball_never_scores(
    s: GameState,
    up_pressed: bool,
    down_pressed: bool,
)
    requires
        s.ball matches Some(b) && b.velocity.x == 0 && b.velocity.y > i64::MIN && abs(
            b.position.x as int) <= s.window.width as int / 2,
    ensures
        tick_event(s, up_pressed, down_pressed) is None,
        spec_tick(s, up_pressed, down_pressed).score == s.score,
        spec_tick(s, up_pressed, down_pressed).window == s.window,
        spec_tick(s, up_pressed, down_pressed).ball matches Some(b2) && b2.velocity.x == 0
            && b2.velocity.y > i64::MIN && abs(b2.position.x as int) <= s.window.width as int / 2,
{
    match s.ball {
        Some(b) => {
            let moved = Ball {
                position: stepped(b.position, b.velocity, BALL_SPEED as int),
                velocity: b.velocity,
                shape: b.shape,
            };
            assert(moved.position.x == b.position.x);
            let obs = obstacles_of(tick_moves_paddles_only(s, up_pressed, down_pressed));
            crate::ball::lemma_collisions_preserve_magnitude(circle_of(moved), moved.velocity,
                obs, obs.len() as int);
        },
        None => {},
    }
}

/// A tick never lowers either side's tally.
pub proof fn lemma_tick_tally_monotonic(s: GameState, up_pressed: bool, down_pressed: bool)
    ensures
        spec_tick(s, up_pressed, down_pressed).score.player >= s.score.player,
        spec_tick(s, up_pressed, down_pressed).score.ai >= s.score.ai,
{
}

/// A paddle within the clamp band of its viewport is still within it after
/// any tick, and the viewport itself never changes: once clamped, always
/// clamped.
pub proof fn lemma_paddles_stay_clamped(s: GameState, up_pressed: bool, down_pressed: bool)
    ensures
        spec_tick(s, up_pressed, down_pressed).window == s.window,
        abs(s.player.position.y as int) <= clamp_limit(s.window.height as int) ==> abs(
            spec_tick(s, up_pressed, down_pressed).player.position.y as int) <= clamp_limit(
            s.window.height as int),
        abs(s.ai.position.y as int) <= clamp_limit(s.window.height as int) ==> abs(
            spec_tick(s, up_pressed, down_pressed).ai.position.y as int) <= clamp_limit(
            s.window.height as int),
{
}

/// The state after `n` ticks with no input at all.
pub open spec fn ticked_n(s: GameState, n: nat) -> GameState
    decreases n,
{
    if n == 0 {
        s
    } else {
        spec_tick(ticked_n(s, (n - 1) as nat), false, false)
    }
}

/// Any number of no-input ticks of a state whose ball travels parallel to the
/// goal lines between them leaves the tally exactly as it started.
pub proof fn lemma_parallel_ball_tally_constant(s: GameState, n: nat)
    requires
        s.ball matches Some(b) && b.velocity.x == 0 && b.velocity.y > i64::MIN && abs(
            b.position.x as int) <= s.window.width as int / 2,
    ensures
        ticked_n(s, n).score == s.score,
        ticked_n(s, n).ball matches Some(b2) && b2.velocity.x == 0 && b2.velocity.y > i64::MIN
            && abs(b2.position.x as int) <= ticked_n(s, n).window.width as int / 2,
        ticked_n(s, n).window == s.window,
    decreases n,
{
    if n > 0 {
        lemma_parallel_ball_tally_constant(s, (n - 1) as nat);
        lemma_parallel_ball_never_scores(ticked_n(s, (n - 1) as nat), false, false);
    }
}

/// A tick keeps the state valid, provided the ball is not within one step of
/// the coordinate bound on its free axis: a host that checks this before each
/// tick can run the simulation forever.
pub proof fn lemma_tick_preserves_validity(s: GameState, up_pressed: bool, down_pressed: bool)
    requires
        valid_state(s),
        s.ball matches Some(b) ==> abs(b.position.y as int) <= POS_LIMIT - VEL_LIMIT * BALL_SPEED,
    ensures
        valid_state(spec_tick(s, up_pressed, down_pressed)),
{
    match s.ball {
        Some(b) => {
            let moved = Ball {
                position: stepped(b.position, b.velocity, BALL_SPEED as int),
                velocity: b.velocity,
                shape: b.shape,
            };
            let obs = obstacles_of(tick_moves_paddles_only(s, up_pressed, down_pressed));
            crate::ball::lemma_collisions_preserve_magnitude(circle_of(moved), moved.velocity,
                obs, obs.len() as int);
        },
        None => {},
    }
}

} // verus!
