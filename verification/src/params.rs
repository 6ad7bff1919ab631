//! Fixed parameters of the game and the machine limits the verified
//! arithmetic works under.
//!
//! Positions and sizes are in micro-units (one play-field unit is
//! 1_000_000), velocities in milli-units per second, elapsed time in
//! milliseconds. A displacement in micro-units is then exactly
//! `velocity * dt` with no rounding.

use vstd::prelude::*;

verus! {

/// Micro-units per play-field unit.
pub const UNIT: i64 = 1_000_000;

/// Base ball speed, milli-units per second (400 units/s).
pub const BALL_SPEED: i64 = 400_000;

/// Base paddle speed, milli-units per second (500 units/s).
pub const PADDLE_SPEED: i64 = 500_000;

/// Horizontal boost a held steering key adds to a paddle bounce,
/// milli-units per second: a third of the paddle speed, rounded down.
pub const STEER_BOOST: i64 = 166_666;

/// Ball speed gained per stage, milli-units per second: a fifth of the
/// base speed per stage.
pub const STAGE_SPEED_STEP: i64 = 80_000;

/// Paddle speed gained per stage, milli-units per second: 0.15 of the
/// base paddle speed per stage.
pub const PADDLE_STAGE_STEP: i64 = 75_000;

/// Paddle half-extents: the paddle is 150 by 10 units.
pub const PADDLE_HALF_WIDTH: i64 = 75_000_000;

/// See [`PADDLE_HALF_WIDTH`].
pub const PADDLE_HALF_HEIGHT: i64 = 5_000_000;

/// The paddle's fixed vertical position, 300 units below the center.
pub const PADDLE_Y: i64 = -300_000_000;

/// Brick half-extents: a brick is 135 by 40 units.
pub const BRICK_HALF_WIDTH: i64 = 67_500_000;

/// See [`BRICK_HALF_WIDTH`].
pub const BRICK_HALF_HEIGHT: i64 = 20_000_000;

/// The ball is a 20 by 20 unit square.
pub const BALL_HALF: i64 = 10_000_000;

/// The ball respawns at (0, -250) units.
pub const SPAWN_X: i64 = 0;

/// See [`SPAWN_X`].
pub const SPAWN_Y: i64 = -250_000_000;

/// The brick grid is 8 columns by 6 rows.
pub const GRID_COLS: usize = 8;

/// See [`GRID_COLS`].
pub const GRID_ROWS: usize = 6;

/// Bricks in a full grid.
pub const GRID_COUNT: usize = 48;

/// Horizontal pitch of the grid: brick width plus a 5 unit gap.
pub const BRICK_STEP_X: i64 = 140_000_000;

/// Vertical pitch of the grid: brick height plus a 5 unit gap.
pub const BRICK_STEP_Y: i64 = 45_000_000;

/// x of the leftmost grid column: `-(GRID_COLS - 1) * BRICK_STEP_X / 2`.
pub const GRID_LEFT_X: i64 = -490_000_000;

/// The top grid row sits two brick heights below the top field edge.
pub const GRID_TOP_OFFSET: i64 = 80_000_000;

/// Largest stage the arithmetic is sized for.
pub const STAGE_LIMIT: u32 = 20_000;

/// Largest velocity component magnitude, milli-units per second.
pub const VEL_LIMIT: i64 = 2_000_000_000;

/// Largest elapsed time per tick, milliseconds.
pub const DT_LIMIT: u32 = 1_000_000;

/// Largest half-extent of the play field, micro-units.
pub const WINDOW_LIMIT: i64 = 1_000_000_000_000;

/// Largest position component magnitude the simulation handles,
/// micro-units.
pub const POS_LIMIT: i64 = 1_000_000_000_000_000;

/// Ball speed at a stage: `BALL_SPEED * (1 + stage / 5)` exactly, in
/// milli-units per second.
pub open spec fn spec_ball_speed(stage: int) -> int {
    BALL_SPEED + STAGE_SPEED_STEP * stage
}

/// Computes [`spec_ball_speed`]; fits comfortably in `i64` for any stage
/// within [`STAGE_LIMIT`].
pub fn ball_speed(stage: u32) -> (s: i64)
    requires
        stage <= STAGE_LIMIT,
    ensures
        s == spec_ball_speed(stage as int),
        BALL_SPEED <= s <= BALL_SPEED + STAGE_SPEED_STEP * STAGE_LIMIT,
{
    BALL_SPEED + STAGE_SPEED_STEP * (stage as i64)
}

/// Paddle speed at a stage: `PADDLE_SPEED * (1 + 0.15 * stage)` exactly,
/// in milli-units per second.
pub open spec fn spec_paddle_speed(stage: int) -> int {
    PADDLE_SPEED + PADDLE_STAGE_STEP * stage
}

/// Computes [`spec_paddle_speed`].
pub fn paddle_speed(stage: u32) -> (s: i64)
    requires
        stage <= STAGE_LIMIT,
    ensures
        s == spec_paddle_speed(stage as int),
        PADDLE_SPEED <= s <= PADDLE_SPEED + PADDLE_STAGE_STEP * STAGE_LIMIT,
{
    PADDLE_SPEED + PADDLE_STAGE_STEP * (stage as i64)
}

} // verus!
