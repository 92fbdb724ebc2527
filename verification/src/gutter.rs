//! The static top and bottom boundary strips of the playfield.

use vstd::prelude::*;
use crate::geometry::{Vec2, EXTENT_LIMIT};

verus! {

/// Vertical thickness of each boundary strip.
pub const GUTTER_HEIGHT: i64 = 96;

/// One boundary strip: a static box that the ball bounces off and that
/// paddles may never enter. It never moves.
#[derive(Clone, Copy, PartialEq, Eq, Structural, Debug)]
pub struct Gutter {
    pub position: Vec2,
    pub shape: Vec2,
}

impl Gutter {
    /// A strip of width `w` and the fixed gutter height, centred at `(x, y)`.
    pub fn new(x: i64, y: i64, w: i64) -> (g: Gutter)
        ensures
            g.position == (Vec2 { x: x, y: y }),
            g.shape == (Vec2 { x: w, y: GUTTER_HEIGHT }),
    {
        Gutter { position: Vec2::new(x, y), shape: Vec2::new(w, GUTTER_HEIGHT) }
    }

    /// The top strip for a viewport of the given size: as wide as the
    /// viewport, flush with its upper edge.
    pub fn top(window_width: i64, window_height: i64) -> (g: Gutter)
        requires
            0 <= window_width <= EXTENT_LIMIT,
            0 <= window_height <= EXTENT_LIMIT,
        ensures
            g.position.x == 0,
            g.position.y == window_height as int / 2 - GUTTER_HEIGHT as int / 2,
            g.shape == (Vec2 { x: window_width, y: GUTTER_HEIGHT }),
    {
        Gutter::new(0, window_height / 2 - GUTTER_HEIGHT / 2, window_width)
    }

    /// The bottom strip for a viewport of the given size: as wide as the
    /// viewport, flush with its lower edge.
    pub fn bottom(window_width: i64, window_height: i64) -> (g: Gutter)
        requires
            0 <= window_width <= EXTENT_LIMIT,
            0 <= window_height <= EXTENT_LIMIT,
        ensures
            g.position.x == 0,
            g.position.y == -(window_height as int / 2) + GUTTER_HEIGHT as int / 2,
            g.shape == (Vec2 { x: window_width, y: GUTTER_HEIGHT }),
    {
        Gutter::new(0, -(window_height / 2) + GUTTER_HEIGHT / 2, window_width)
    }
}

} // verus!
