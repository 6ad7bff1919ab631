//! Wall bounce: reflect the ball's velocity off the left, right and top
//! field edges. The bottom edge is a scoring boundary, not a wall.

use vstd::prelude::*;
use crate::entities::{Field, GameState};
use crate::geometry::Vec2i;
use crate::params::BALL_HALF;

verus! {

/// The ball's extent reaches or passes the left or right field edge.
pub open spec fn touches_side(pos: Vec2i, field: Field) -> bool {
    pos.x >= field.half_width - BALL_HALF || pos.x <= -(field.half_width - BALL_HALF)
}

/// The ball's extent reaches or passes the top field edge.
pub open spec fn touches_top(pos: Vec2i, field: Field) -> bool {
    pos.y >= field.half_height - BALL_HALF
}

/// Velocity after the wall check: x negated exactly when a side edge is
/// touched, y negated exactly when the top edge is touched.
pub open spec fn spec_wall_bounce(pos: Vec2i, vel: Vec2i, field: Field) -> Vec2i {
    Vec2i {
        x: (if touches_side(pos, field) { -(vel.x as int) } else { vel.x as int }) as i64,
        y: (if touches_top(pos, field) { -(vel.y as int) } else { vel.y as int }) as i64,
    }
}

impl GameState {
    /// Reflects the velocity off any field edge the ball touches or
    /// exceeds: the x sign flips iff a side edge is reached, the y sign
    /// flips iff the top edge is reached, and a ball clear of every edge
    /// keeps its velocity exactly. Nothing else changes.
    pub fn collide_ball_with_walls(&mut self, field: Field)
        requires
            old(self).wf_core(),
            field.wf(),
        ensures
            final(self).ball_vel == spec_wall_bounce(
                old(self).ball_pos, old(self).ball_vel, field),
            *final(self) == (GameState { ball_vel: final(self).ball_vel, ..*old(self) }),
            final(self).ball_vel.bounded(crate::params::VEL_LIMIT as int),
    {
        let bound_x: i64 = field.half_width - BALL_HALF;
        let bound_y: i64 = field.half_height - BALL_HALF;
        let mut vel = self.ball_vel;
        if self.ball_pos.x >= bound_x || self.ball_pos.x <= -bound_x {
            vel.x = -vel.x;
        }
        if self.ball_pos.y >= bound_y {
            vel.y = -vel.y;
        }
        self.ball_vel = vel;
    }
}

} // verus!
