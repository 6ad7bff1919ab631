//! Entity state: the ball, the paddle, the bricks, the score/stage pair,
//! and the per-tick inputs the simulation core consumes.

use vstd::prelude::*;
use crate::geometry::{Aabb, Vec2i};
use crate::params::{
    BALL_HALF, BRICK_HALF_HEIGHT, BRICK_HALF_WIDTH, GRID_COUNT, PADDLE_HALF_HEIGHT,
    PADDLE_HALF_WIDTH, PADDLE_Y, POS_LIMIT, STAGE_LIMIT, VEL_LIMIT, WINDOW_LIMIT,
};

verus! {

/// A live brick: its center and a cosmetic hue in degrees.
#[derive(Clone, Copy, Debug, PartialEq, Eq, Structural)]
pub struct Brick {
    pub pos: Vec2i,
    pub hue: u32,
}

impl Brick {
    /// Position in range, hue a degree below a full turn.
    pub open spec fn wf(self) -> bool {
        &&& self.pos.bounded(POS_LIMIT as int)
        &&& self.hue < 360
    }

    /// The brick's bounding box: fixed 135 by 40 unit extent.
    pub open spec fn spec_bbox(self) -> Aabb {
        Aabb {
            center: self.pos,
            half: Vec2i { x: BRICK_HALF_WIDTH, y: BRICK_HALF_HEIGHT },
        }
    }

    /// Builds [`Brick::spec_bbox`].
    pub fn bbox(&self) -> (b: Aabb)
        ensures
            b == self.spec_bbox(),
    {
        Aabb {
            center: self.pos,
            half: Vec2i { x: BRICK_HALF_WIDTH, y: BRICK_HALF_HEIGHT },
        }
    }
}

/// The boolean input snapshot for one tick: the two steering actions.
#[derive(Clone, Copy, Debug, PartialEq, Eq, Structural)]
pub struct Input {
    pub left: bool,
    pub right: bool,
}

/// The play field's half-extents in micro-units, supplied each tick by
/// the host.
#[derive(Clone, Copy, Debug, PartialEq, Eq, Structural)]
pub struct Field {
    pub half_width: i64,
    pub half_height: i64,
}

impl Field {
    /// A usable field: at least as wide as the paddle, at least as tall
    /// as the ball, within the coordinate budget.
    pub open spec fn wf(self) -> bool {
        &&& PADDLE_HALF_WIDTH <= self.half_width <= WINDOW_LIMIT
        &&& BALL_HALF <= self.half_height <= WINDOW_LIMIT
    }
}

/// The ball's bounding box at a position: fixed 20 by 20 unit extent.
pub open spec fn spec_ball_box(pos: Vec2i) -> Aabb {
    Aabb {
        center: pos,
        half: Vec2i { x: BALL_HALF, y: BALL_HALF },
    }
}

/// The whole mutable simulation state: one ball, one paddle, the live
/// bricks, and the score/stage counters.
#[derive(Clone, Debug)]
pub struct GameState {
    pub score: u32,
    pub stage: u32,
    pub ball_pos: Vec2i,
    pub ball_vel: Vec2i,
    pub paddle_x: i64,
    pub bricks: Vec<Brick>,
}

impl GameState {
    /// The part of well-formedness that holds at every point of a tick:
    /// stage at least 1 and within its limit, velocity and paddle within
    /// theirs, at most a full grid of bricks, each well formed. The
    /// ball's position is bounded separately ([`GameState::wf`]): between
    /// integration and the fall-through check it may range further below
    /// the field.
    pub open spec fn wf_core(self) -> bool {
        &&& 1 <= self.stage <= STAGE_LIMIT
        &&& self.ball_vel.bounded(VEL_LIMIT as int)
        &&& -POS_LIMIT <= self.paddle_x <= POS_LIMIT
        &&& self.bricks@.len() <= GRID_COUNT
        &&& forall|i: int| 0 <= i < self.bricks@.len() ==> (#[trigger] self.bricks@[i]).wf()
    }

    /// The state the arithmetic is sized for: [`GameState::wf_core`] with
    /// the ball's position within its limit.
    pub open spec fn wf(self) -> bool {
        &&& self.wf_core()
        &&& self.ball_pos.bounded(POS_LIMIT as int)
    }

    /// The ball's bounding box: fixed 20 by 20 unit extent.
    pub open spec fn spec_ball_bbox(self) -> Aabb {
        spec_ball_box(self.ball_pos)
    }

    /// Builds [`GameState::spec_ball_bbox`].
    pub fn ball_bbox(&self) -> (b: Aabb)
        ensures
            b == self.spec_ball_bbox(),
    {
        Aabb {
            center: self.ball_pos,
            half: Vec2i { x: BALL_HALF, y: BALL_HALF },
        }
    }

    /// The paddle's bounding box: fixed 150 by 10 unit extent at its
    /// fixed height.
    pub open spec fn spec_paddle_bbox(self) -> Aabb {
        Aabb {
            center: Vec2i { x: self.paddle_x, y: PADDLE_Y },
            half: Vec2i { x: PADDLE_HALF_WIDTH, y: PADDLE_HALF_HEIGHT },
        }
    }

    /// Builds [`GameState::spec_paddle_bbox`].
    pub fn paddle_bbox(&self) -> (b: Aabb)
        ensures
            b == self.spec_paddle_bbox(),
    {
        Aabb {
            center: Vec2i { x: self.paddle_x, y: PADDLE_Y },
            half: Vec2i { x: PADDLE_HALF_WIDTH, y: PADDLE_HALF_HEIGHT },
        }
    }
}

} // verus!
