//! Goal-line crossing detection, the score tally, and the serve reset.

use vstd::prelude::*;
use crate::ball::Ball;
use crate::geometry::{Vec2, EXTENT_LIMIT};

verus! {

/// The side credited with a point: the tracking opponent defends the left
/// goal line, the player the right one.
#[derive(Clone, Copy, PartialEq, Eq, Structural, Debug)]
pub enum Scorer {
    Ai,
    Player,
}

/// The running tally. It only ever grows, and only the scoring machinery
/// touches it.
#[derive(Clone, Copy, PartialEq, Eq, Structural, Debug)]
pub struct Score {
    pub player: u64,
    pub ai: u64,
}

impl Score {
    /// A fresh, zeroed tally.
    pub fn new() -> (s: Score)
        ensures
            s.player == 0,
            s.ai == 0,
    {
        Score { player: 0, ai: 0 }
    }
}

/// The scoring event a ball position gives: past the right goal line the
/// left side (the tracking opponent) scores, past the left goal line the
/// right side (the player) scores, and inside the playfield nobody does.
pub open spec fn scoring_event(ball_x: int, window_width: int) -> Option<Scorer> {
    if ball_x > window_width / 2 {
        Some(Scorer::Ai)
    } else if ball_x < -(window_width / 2) {
        Some(Scorer::Player)
    } else {
        None
    }
}

/// The tally after crediting `scorer` with one point. The count saturates at
/// the top of `u64`, which play can never reach, rather than overflow.
pub open spec fn tallied(s: Score, scorer: Scorer) -> Score {
    match scorer {
        Scorer::Ai => Score {
            player: s.player,
            ai: if s.ai < u64::MAX {
                (s.ai + 1) as u64
            } else {
                s.ai
            },
        },
        Scorer::Player => Score {
            player: if s.player < u64::MAX {
                (s.player + 1) as u64
            } else {
                s.player
            },
            ai: s.ai,
        },
    }
}

/// The serve direction points toward the side that was just scored against:
/// a point for the left side serves rightward, a point for the right side
/// serves leftward, always with the fixed upward component.
pub open spec fn serve_velocity(scorer: Scorer) -> Vec2 {
    match scorer {
        Scorer::Ai => Vec2 { x: 1, y: 1 },
        Scorer::Player => Vec2 { x: -1i64, y: 1 },
    }
}

/// The ball after a serve reset: back at the playfield centre with the serve
/// velocity for the given scorer; the extent is kept.
pub open spec fn ball_reset(b: Ball, scorer: Scorer) -> Ball {
    Ball { position: Vec2 { x: 0, y: 0 }, velocity: serve_velocity(scorer), shape: b.shape }
}

/// Reports which side, if any, the ball's current position scores for. At
/// most one event is possible per tick.
pub fn detect_scoring(ball: &Ball, window_width: i64) -> (r: Option<Scorer>)
    requires
        0 <= window_width <= EXTENT_LIMIT,
    ensures
        r == scoring_event(ball.position.x as int, window_width as int),
{
    let half = window_width / 2;
    if ball.position.x > half {
        Some(Scorer::Ai)
    } else if ball.position.x < -half {
        Some(Scorer::Player)
    } else {
        None
    }
}

/// Credits the scorer with one point. The other side's count, and everything
/// else, is untouched; the tally never decreases.
pub fn update_score(score: &mut Score, scorer: Scorer)
    ensures
        *final(score) == tallied(*old(score), scorer),
        final(score).player >= old(score).player,
        final(score).ai >= old(score).ai,
{
    match scorer {
        Scorer::Ai => {
            if score.ai < u64::MAX {
                score.ai = score.ai + 1;
            }
        },
        Scorer::Player => {
            if score.player < u64::MAX {
                score.player = score.player + 1;
            }
        },
    }
}

/// Puts the ball back at the playfield centre and gives it the serve
/// velocity for the given scorer: toward the side that just lost the point.
pub fn reset_ball(ball: &mut Ball, scorer: Scorer)
    ensures
        *final(ball) == ball_reset(*old(ball), scorer),
{
    ball.position.x = 0;
    ball.position.y = 0;
    match scorer {
        Scorer::Ai => {
            ball.velocity.x = 1;
        },
        Scorer::Player => {
            ball.velocity.x = -1;
        },
    }
    ball.velocity.y = 1;
}

} // verus!
