use pong::ball::{Ball, handle_collisions, move_ball};
use pong::collision::Aabb;
use pong::geometry::Vec2;
use pong::gutter::Gutter;
use pong::paddle::{Paddle, handle_player_input, move_ai, move_paddle};
use pong::score::{Score, Scorer, detect_scoring, reset_ball, update_score};

fn ball_at(x: i64, y: i64, vx: i64, vy: i64) -> Ball {
    Ball { position: Vec2 { x, y }, velocity: Vec2 { x: vx, y: vy }, shape: Vec2 { x: 5, y: 5 } }
}

#[test]
fn ball_moves_by_velocity_times_speed() {
    let mut b = ball_at(10, -3, 1, -2);
    move_ball(&mut b);
    assert_eq!(b.position, Vec2 { x: 15, y: -13 });
    assert_eq!(b.velocity, Vec2 { x: 1, y: -2 });
}

#[test]
fn fresh_ball_sits_at_centre() {
    let b = Ball::new(1, 1);
    assert_eq!(b.position, Vec2 { x: 0, y: 0 });
    assert_eq!(b.velocity, Vec2 { x: 1, y: 1 });
    assert_eq!(b.shape, Vec2 { x: 5, y: 5 });
}

#[test]
fn bounce_negates_struck_axis_only() {
    // One box to the right: a horizontal hit, so only the x component flips.
    let mut b = ball_at(0, 0, 3, 4);
    let obstacles = vec![Aabb::new(Vec2 { x: 6, y: 0 }, Vec2 { x: 2, y: 2 })];
    handle_collisions(&mut b, &obstacles);
    assert_eq!(b.velocity, Vec2 { x: -3, y: 4 });
    assert_eq!(b.position, Vec2 { x: 0, y: 0 });
}

#[test]
fn simultaneous_perpendicular_hits_flip_both_axes() {
    // A box to the right (horizontal hit) and one above (vertical hit): both
    // responses apply in the same tick, and 3*3 + 4*4 is preserved.
    let mut b = ball_at(0, 0, 3, 4);
    let obstacles = vec![
        Aabb::new(Vec2 { x: 6, y: 0 }, Vec2 { x: 2, y: 2 }),
        Aabb::new(Vec2 { x: 0, y: 6 }, Vec2 { x: 2, y: 2 }),
    ];
    handle_collisions(&mut b, &obstacles);
    assert_eq!(b.velocity, Vec2 { x: -3, y: -4 });
    let speed = b.velocity.x * b.velocity.x + b.velocity.y * b.velocity.y;
    assert_eq!(speed, 25);
}

#[test]
fn clear_ball_keeps_its_velocity() {
    let mut b = ball_at(0, 0, 3, 4);
    let obstacles = vec![Aabb::new(Vec2 { x: 50, y: 0 }, Vec2 { x: 2, y: 2 })];
    handle_collisions(&mut b, &obstacles);
    assert_eq!(b.velocity, Vec2 { x: 3, y: 4 });
}

#[test]
fn input_axis_is_up_minus_down() {
    let mut p = Paddle::new(450, 0);
    handle_player_input(&mut p, true, false);
    assert_eq!(p.velocity.y, 1);
    handle_player_input(&mut p, false, true);
    assert_eq!(p.velocity.y, -1);
    handle_player_input(&mut p, true, true);
    assert_eq!(p.velocity.y, 0);
    handle_player_input(&mut p, false, false);
    assert_eq!(p.velocity.y, 0);
}

#[test]
fn tracking_paddle_steps_toward_ball() {
    // Paddle above the ball moves down; level with it, it stops; below it,
    // it moves up. Always by exactly one unit.
    let mut p = Paddle::new(-450, 10);
    move_ai(&mut p, Vec2 { x: 0, y: 3 });
    assert_eq!(p.velocity.y, -1);
    move_ai(&mut p, Vec2 { x: 0, y: 10 });
    assert_eq!(p.velocity.y, 0);
    move_ai(&mut p, Vec2 { x: 0, y: 12 });
    assert_eq!(p.velocity.y, 1);
}

#[test]
fn paddle_moves_while_clear_of_the_strips() {
    // Viewport height 800: the clamp limit is 400 - 96 - 25 = 279.
    let mut p = Paddle::new(450, 0);
    p.velocity.y = 1;
    move_paddle(&mut p, 800);
    assert_eq!(p.position, Vec2 { x: 450, y: 4 });
}

#[test]
fn paddle_stops_short_at_the_strip() {
    // From 276 the tentative 280 is past the limit 279, so the paddle keeps
    // 276 rather than clamping to the exact bound.
    let mut p = Paddle::new(450, 276);
    p.velocity.y = 1;
    move_paddle(&mut p, 800);
    assert_eq!(p.position.y, 276);
    // A tentative position exactly at the limit is refused too: the test is
    // strict.
    let mut q = Paddle::new(450, 275);
    q.velocity.y = 1;
    move_paddle(&mut q, 800);
    assert_eq!(q.position.y, 275);
}

#[test]
fn paddle_placement_is_one_padding_from_each_goal() {
    let player = Paddle::player(1000);
    let ai = Paddle::ai(1000);
    assert_eq!(player.position, Vec2 { x: 450, y: 0 });
    assert_eq!(ai.position, Vec2 { x: -450, y: 0 });
    assert_eq!(player.shape, Vec2 { x: 10, y: 50 });
}

#[test]
fn gutters_sit_flush_with_the_viewport_edges() {
    let top = Gutter::top(1000, 800);
    let bottom = Gutter::bottom(1000, 800);
    assert_eq!(top.position, Vec2 { x: 0, y: 352 });
    assert_eq!(bottom.position, Vec2 { x: 0, y: -352 });
    assert_eq!(top.shape, Vec2 { x: 1000, y: 96 });
    assert_eq!(bottom.shape, Vec2 { x: 1000, y: 96 });
}

#[test]
fn detection_uses_the_goal_lines() {
    assert_eq!(detect_scoring(&ball_at(501, 0, 0, 0), 1000), Some(Scorer::Ai));
    assert_eq!(detect_scoring(&ball_at(-501, 0, 0, 0), 1000), Some(Scorer::Player));
    assert_eq!(detect_scoring(&ball_at(500, 0, 0, 0), 1000), None);
    assert_eq!(detect_scoring(&ball_at(-500, 0, 0, 0), 1000), None);
}

#[test]
fn tally_credits_one_side_only() {
    let mut s = Score::new();
    update_score(&mut s, Scorer::Ai);
    assert_eq!((s.player, s.ai), (0, 1));
    update_score(&mut s, Scorer::Player);
    assert_eq!((s.player, s.ai), (1, 1));
    update_score(&mut s, Scorer::Player);
    assert_eq!((s.player, s.ai), (2, 1));
}

#[test]
fn tally_saturates_instead_of_overflowing() {
    let mut s = Score { player: u64::MAX, ai: 0 };
    update_score(&mut s, Scorer::Player);
    assert_eq!(s.player, u64::MAX);
    assert_eq!(s.ai, 0);
}

#[test]
fn serve_goes_toward_the_loser() {
    let mut b = ball_at(501, 77, 2, -3);
    reset_ball(&mut b, Scorer::Ai);
    assert_eq!(b.position, Vec2 { x: 0, y: 0 });
    assert_eq!(b.velocity, Vec2 { x: 1, y: 1 });
    let mut c = ball_at(-501, 77, -2, 3);
    reset_ball(&mut c, Scorer::Player);
    assert_eq!(c.position, Vec2 { x: 0, y: 0 });
    assert_eq!(c.velocity, Vec2 { x: -1, y: 1 });
}
