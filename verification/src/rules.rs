//! The stage/score state machine and paddle movement: player input moves
//! the paddle, a ball past the bottom edge costs score and respawns the
//! ball, and an exhausted brick grid advances the stage.

use vstd::prelude::*;
use vstd::arithmetic::div_mod::{lemma_div_is_ordered, lemma_div_multiples_vanish};
use vstd::arithmetic::mul::lemma_mul_inequality;
use crate::entities::{Brick, Field, GameState, Input};
use crate::geometry::{clamp_i64, spec_clamp, Vec2i};
use crate::numeric::{isqrt, spec_isqrt};
use crate::params::{
    spec_ball_speed, spec_paddle_speed, ball_speed, paddle_speed, BRICK_STEP_X, BRICK_STEP_Y,
    DT_LIMIT, GRID_COLS, GRID_COUNT, GRID_LEFT_X, GRID_TOP_OFFSET, PADDLE_HALF_WIDTH,
    SPAWN_X, SPAWN_Y, STAGE_LIMIT, VEL_LIMIT,
};

verus! {

/// Relies on `rand::random_range`: a uniform value within the given
/// range, here a cosmetic hue below 360 degrees.
#[verifier::external_body]
fn random_hue() -> (h: u32)
    ensures
        h < 360,
{
    rand::random_range(0u32..360)
}

/// Paddle x after one tick of input: the held directions each shift it by
/// `paddle speed * dt`, then it is clamped so the whole paddle stays
/// within the field.
pub open spec fn spec_move_paddle(x: int, stage: int, dt: int, input: Input, field: Field) -> int {
    let step = spec_paddle_speed(stage) * dt;
    let moved = x - (if input.left { step } else { 0 }) + (if input.right { step } else { 0 });
    spec_clamp(moved, -(field.half_width - PADDLE_HALF_WIDTH),
        field.half_width - PADDLE_HALF_WIDTH)
}

/// Score after a fall-through: `stage * stage` is deducted, saturating
/// at zero.
pub open spec fn spec_fall_score(score: int, stage: int) -> int {
    if score >= stage * stage { score - stage * stage } else { 0 }
}

/// What the fall-through check does: a ball at or below the bottom edge
/// returns to the spawn point with its velocity inverted and the score
/// penalized by [`spec_fall_score`]; otherwise nothing changes.
pub open spec fn spec_fall_state(s: GameState, field: Field) -> GameState {
    if s.ball_pos.y <= -field.half_height {
        GameState {
            ball_pos: Vec2i { x: SPAWN_X, y: SPAWN_Y },
            ball_vel: Vec2i { x: (-(s.ball_vel.x as int)) as i64, y: (-(s.ball_vel.y as int)) as i64 },
            score: spec_fall_score(s.score as int, s.stage as int) as u32,
            ..s
        }
    } else {
        s
    }
}

/// Velocity rescaled to the given magnitude: each component becomes
/// `|component| * speed / m` (rounded toward zero) with its sign kept,
/// where `m` is the integer length of the old velocity. A zero velocity
/// has no direction and stays zero.
pub open spec fn spec_rescale(v: Vec2i, speed: int) -> Vec2i {
    let m = spec_isqrt(v.x * v.x + v.y * v.y);
    if m == 0 {
        v
    } else {
        let ax = if v.x >= 0 { v.x as int } else { -(v.x as int) };
        let ay = if v.y >= 0 { v.y as int } else { -(v.y as int) };
        let nx = ax * speed / m;
        let ny = ay * speed / m;
        Vec2i {
            x: (if v.x >= 0 { nx } else { -nx }) as i64,
            y: (if v.y >= 0 { ny } else { -ny }) as i64,
        }
    }
}

/// Center of grid slot `k` (row-major, 8 per row): columns 140 units
/// apart from x = -490, rows 45 units apart starting two brick heights
/// under the top edge.
pub open spec fn spec_grid_pos(k: int, field: Field) -> Vec2i {
    Vec2i {
        x: (GRID_LEFT_X + BRICK_STEP_X * (k % 8)) as i64,
        y: (field.half_height - GRID_TOP_OFFSET - BRICK_STEP_Y * (k / 8)) as i64,
    }
}

/// A full fresh grid: 48 bricks, one per slot, hues cosmetic.
pub open spec fn is_fresh_grid(bricks: Seq<Brick>, field: Field) -> bool {
    &&& bricks.len() == GRID_COUNT
    &&& forall|k: int| 0 <= k < bricks.len()
        ==> (#[trigger] bricks[k]).pos == spec_grid_pos(k, field) && bricks[k].hue < 360
}

/// Spawns the full 8 by 6 brick grid for the current field, with random
/// hues.
pub fn respawn_grid(field: Field) -> (bricks: Vec<Brick>)
    requires
        field.wf(),
    ensures
        is_fresh_grid(bricks@, field),
        forall|k: int| 0 <= k < bricks@.len() ==> (#[trigger] bricks@[k]).wf(),
{
    let mut bricks: Vec<Brick> = Vec::new();
    let mut k: usize = 0;
    while k < GRID_COUNT
        invariant
            k <= GRID_COUNT,
            bricks@.len() == k,
            field.wf(),
            forall|i: int| 0 <= i < k
                ==> (#[trigger] bricks@[i]).pos == spec_grid_pos(i, field)
                    && bricks@[i].hue < 360 && bricks@[i].wf(),
        decreases GRID_COUNT - k,
    {
        let col: i64 = (k % GRID_COLS) as i64;
        let row: i64 = (k / GRID_COLS) as i64;
        let pos = Vec2i {
            x: GRID_LEFT_X + BRICK_STEP_X * col,
            y: field.half_height - GRID_TOP_OFFSET - BRICK_STEP_Y * row,
        };
        bricks.push(Brick { pos, hue: random_hue() });
        k = k + 1;
    }
    bricks
}

/// What a stage-clear check does: with no brick left, the stage advances
/// by exactly one, the ball returns to the spawn point with its velocity
/// rescaled to the new stage's speed, and a full fresh grid stands;
/// otherwise nothing changes. Score and paddle are never touched.
pub open spec fn reset_rel(pre: GameState, post: GameState, field: Field) -> bool {
    if pre.bricks@.len() == 0 {
        &&& post.stage == pre.stage + 1
        &&& post.ball_pos == (Vec2i { x: SPAWN_X, y: SPAWN_Y })
        &&& post.ball_vel == spec_rescale(pre.ball_vel, spec_ball_speed(pre.stage + 1))
        &&& is_fresh_grid(post.bricks@, field)
        &&& post.score == pre.score
        &&& post.paddle_x == pre.paddle_x
    } else {
        post == pre
    }
}

/// Rescales `v` to magnitude `speed` as [`spec_rescale`] says; the
/// result's components stay within `speed`, or equal `v` when it is zero.
fn rescale_velocity(v: Vec2i, speed: i64) -> (r: Vec2i)
    requires
        v.bounded(VEL_LIMIT as int),
        0 < speed <= 1_999_000_000,
    ensures
        r == spec_rescale(v, speed as int),
        r.bounded(VEL_LIMIT as int),
{
    let ax: u64 = (if v.x >= 0 { v.x } else { -v.x }) as u64;
    let ay: u64 = (if v.y >= 0 { v.y } else { -v.y }) as u64;
    proof {
        assert(ax * ax + ay * ay <= 8_000_000_000_000_000_000
            && ax * ax == v.x * v.x && ay * ay == v.y * v.y)
            by (nonlinear_arith)
            requires
                ax == (if v.x >= 0 { v.x as int } else { -(v.x as int) }),
                ay == (if v.y >= 0 { v.y as int } else { -(v.y as int) }),
                0 <= ax <= 2_000_000_000,
                0 <= ay <= 2_000_000_000;
    }
    let n: u64 = ax * ax + ay * ay;
    let m: u64 = isqrt(n);
    if m == 0 {
        v
    } else {
        proof {
            lemma_component_within_norm(ax as int, n as int, m as int);
            lemma_component_within_norm(ay as int, n as int, m as int);
            lemma_rescale_bound(ax as int, speed as int, m as int);
            lemma_rescale_bound(ay as int, speed as int, m as int);
        }
        let nx: u64 = ax * (speed as u64) / m;
        let ny: u64 = ay * (speed as u64) / m;
        Vec2i {
            x: if v.x >= 0 { nx as i64 } else { -(nx as i64) },
            y: if v.y >= 0 { ny as i64 } else { -(ny as i64) },
        }
    }
}

/// A component of a vector is at most the vector's integer length.
proof fn lemma_component_within_norm(a: int, n: int, m: int)
    requires
        0 <= a,
        a * a <= n,
        0 <= m,
        n < (m + 1) * (m + 1),
    ensures
        a <= m,
{
    assert(a <= m) by (nonlinear_arith)
        requires 0 <= a && a * a <= n && 0 <= m && n < (m + 1) * (m + 1);
}

/// `a * speed / m` stays within `speed` when `a <= m`, and the product
/// fits the machine word.
proof fn lemma_rescale_bound(a: int, speed: int, m: int)
    requires
        0 <= a <= m,
        0 < m,
        0 < speed <= 1_999_000_000,
        a <= 2_000_000_000,
    ensures
        0 <= a * speed <= 4_000_000_000_000_000_000,
        0 <= a * speed / m <= speed,
{
    lemma_mul_inequality(a, m, speed);
    assert(0 <= a * speed <= 4_000_000_000_000_000_000) by (nonlinear_arith)
        requires 0 <= a <= 2_000_000_000 && 0 < speed <= 1_999_000_000;
    lemma_div_is_ordered(a * speed, m * speed, m);
    assert(m * speed == speed * m);
    lemma_div_multiples_vanish(speed, m);
    vstd::arithmetic::div_mod::lemma_div_pos_is_pos(a * speed, m);
}

impl GameState {
    /// The starting state: score 0, stage 1, paddle centered, ball at the
    /// spawn point moving diagonally up at stage 1's speed, a full grid.
    pub fn new(field: Field) -> (s: GameState)
        requires
            field.wf(),
        ensures
            s.score == 0,
            s.stage == 1,
            s.paddle_x == 0,
            s.ball_pos == (Vec2i { x: SPAWN_X, y: SPAWN_Y }),
            s.ball_vel == spec_rescale(Vec2i { x: 1000, y: 1000 }, spec_ball_speed(1)),
            is_fresh_grid(s.bricks@, field),
            s.wf(),
    {
        let vel = rescale_velocity(Vec2i { x: 1000, y: 1000 }, ball_speed(1));
        GameState {
            score: 0,
            stage: 1,
            ball_pos: Vec2i { x: SPAWN_X, y: SPAWN_Y },
            ball_vel: vel,
            paddle_x: 0,
            bricks: respawn_grid(field),
        }
    }

    /// Moves the paddle by the held steering inputs at the stage's paddle
    /// speed and clamps it into the field, exactly as
    /// [`spec_move_paddle`] says. Nothing else changes.
    pub fn move_paddle(&mut self, dt: u32, input: Input, field: Field)
        requires
            old(self).wf(),
            field.wf(),
            dt <= DT_LIMIT,
        ensures
            final(self).paddle_x == spec_move_paddle(
                old(self).paddle_x as int, old(self).stage as int, dt as int, input, field),
            -(field.half_width - PADDLE_HALF_WIDTH) <= final(self).paddle_x
                <= field.half_width - PADDLE_HALF_WIDTH,
            *final(self) == (GameState { paddle_x: final(self).paddle_x, ..*old(self) }),
    {
        let speed: i64 = paddle_speed(self.stage);
        proof {
            assert(speed * dt <= 2_000_000_000i64 * 1_000_000i64 && speed * dt >= 0)
                by (nonlinear_arith)
                requires 0 <= speed <= 2_000_000_000 && 0 <= dt <= 1_000_000;
        }
        let step: i64 = speed * (dt as i64);
        let mut x: i64 = self.paddle_x;
        if input.left {
            x = x - step;
        }
        if input.right {
            x = x + step;
        }
        let bound: i64 = field.half_width - PADDLE_HALF_WIDTH;
        self.paddle_x = clamp_i64(x, -bound, bound);
    }

    /// The fall-through check: a ball at or below the bottom edge returns
    /// to the spawn point with its velocity inverted, and the score drops
    /// by the square of the stage, saturating at zero; a ball above the
    /// bottom edge changes nothing.
    pub fn ball_fall_through(&mut self, field: Field)
        requires
            old(self).wf_core(),
            field.wf(),
        ensures
            *final(self) == spec_fall_state(*old(self), field),
            old(self).ball_pos.y <= -field.half_height ==> (
                final(self).ball_pos == (Vec2i { x: SPAWN_X, y: SPAWN_Y })
                && final(self).ball_vel.x == -old(self).ball_vel.x
                && final(self).ball_vel.y == -old(self).ball_vel.y
                && final(self).score == spec_fall_score(
                    old(self).score as int, old(self).stage as int)),
            old(self).ball_pos.y > -field.half_height ==> *final(self) == *old(self),
            final(self).wf_core(),
    {
        if self.ball_pos.y <= -field.half_height {
            proof {
                assert(self.stage * self.stage <= 400_000_000) by (nonlinear_arith)
                    requires 0 <= self.stage <= 20_000;
            }
            let penalty: u32 = self.stage * self.stage;
            self.ball_pos = Vec2i { x: SPAWN_X, y: SPAWN_Y };
            self.ball_vel = Vec2i { x: -self.ball_vel.x, y: -self.ball_vel.y };
            self.score = if self.score >= penalty { self.score - penalty } else { 0 };
        }
    }

    /// The stage-clear check: once no brick is left, the stage advances
    /// by exactly one, the ball returns to the spawn point at the new
    /// stage's speed, and a full fresh grid is spawned — the relation
    /// [`reset_rel`]. With bricks still standing, nothing changes.
    pub fn reset_bricks(&mut self, field: Field)
        requires
            old(self).wf_core(),
            field.wf(),
            old(self).stage < STAGE_LIMIT,
        ensures
            reset_rel(*old(self), *final(self), field),
            final(self).wf_core(),
            final(self).ball_pos == old(self).ball_pos
                || final(self).ball_pos == (Vec2i { x: SPAWN_X, y: SPAWN_Y }),
            final(self).stage <= old(self).stage + 1,
    {
        if self.bricks.len() == 0 {
            self.stage = self.stage + 1;
            self.ball_pos = Vec2i { x: SPAWN_X, y: SPAWN_Y };
            self.ball_vel = rescale_velocity(self.ball_vel, ball_speed(self.stage));
            self.bricks = respawn_grid(field);
        }
    }
}

} // verus!
