//! Motion integration: advance the ball by `velocity * dt` and clamp it
//! into the play field (both horizontal edges and the top edge; the
//! bottom stays open so fall-through can be detected).

use vstd::prelude::*;
use crate::entities::{Field, GameState};
use crate::geometry::{spec_clamp, clamp_i64, Vec2i};
use crate::params::{BALL_HALF, DT_LIMIT};

verus! {

/// One integration step: `pos + vel * dt`, then x clamped to the field
/// (less the ball's half-extent) on both sides and y clamped against the
/// top edge only.
pub open spec fn spec_integrate(pos: Vec2i, vel: Vec2i, dt: int, field: Field) -> Vec2i {
    let moved_x = pos.x + vel.x * dt;
    let moved_y = pos.y + vel.y * dt;
    let bound_x = field.half_width - BALL_HALF;
    let bound_y = field.half_height - BALL_HALF;
    Vec2i {
        x: spec_clamp(moved_x, -bound_x, bound_x) as i64,
        y: (if moved_y > bound_y { bound_y as int } else { moved_y }) as i64,
    }
}

impl GameState {
    /// Advances the ball one step: afterwards its position is exactly
    /// `old position + velocity * dt` componentwise, except where the
    /// field clamp bound it, and its x always lies within the field.
    /// Velocity, paddle, bricks, score and stage are untouched.
    pub fn apply_velocity(&mut self, dt: u32, field: Field)
        requires
            old(self).wf(),
            field.wf(),
            dt <= DT_LIMIT,
        ensures
            final(self).ball_pos == spec_integrate(
                old(self).ball_pos, old(self).ball_vel, dt as int, field),
            -(field.half_width - BALL_HALF) <= final(self).ball_pos.x
                <= field.half_width - BALL_HALF,
            final(self).ball_pos.y <= field.half_height - BALL_HALF,
            final(self).ball_pos.y >= old(self).ball_pos.y + old(self).ball_vel.y * dt
                || final(self).ball_pos.y == field.half_height - BALL_HALF,
            *final(self) == (GameState { ball_pos: final(self).ball_pos, ..*old(self) }),
    {
        proof {
            assert(self.ball_vel.x * dt <= 2_000_000_000i64 * 1_000_000i64
                && self.ball_vel.x * dt >= -(2_000_000_000i64 * 1_000_000i64)
                && self.ball_vel.y * dt <= 2_000_000_000i64 * 1_000_000i64
                && self.ball_vel.y * dt >= -(2_000_000_000i64 * 1_000_000i64))
                by (nonlinear_arith)
                requires
                    -2_000_000_000 <= self.ball_vel.x <= 2_000_000_000,
                    -2_000_000_000 <= self.ball_vel.y <= 2_000_000_000,
                    0 <= dt <= 1_000_000;
        }
        let moved_x: i64 = self.ball_pos.x + self.ball_vel.x * (dt as i64);
        let moved_y: i64 = self.ball_pos.y + self.ball_vel.y * (dt as i64);
        let bound_x: i64 = field.half_width - BALL_HALF;
        let bound_y: i64 = field.half_height - BALL_HALF;
        let new_y: i64 = if moved_y > bound_y { bound_y } else { moved_y };
        self.ball_pos = Vec2i { x: clamp_i64(moved_x, -bound_x, bound_x), y: new_y };
    }
}

} // verus!
