//! Paddle-angle redirection: a vertical paddle hit relaunches the ball at
//! an angle read off the contact point, up to 60 degrees off vertical,
//! at the stage's ball speed, plus an optional steering boost.

use vstd::prelude::*;
use vstd::arithmetic::div_mod::{lemma_div_is_ordered, lemma_div_multiples_vanish};
use crate::entities::Input;
use crate::geometry::Vec2i;
use crate::numeric::{sin_pm, spec_sin_pm};
use crate::params::{
    spec_ball_speed, ball_speed, PADDLE_HALF_WIDTH, POS_LIMIT, STAGE_LIMIT, STEER_BOOST,
    VEL_LIMIT,
};

verus! {

/// Angle off vertical of a paddle bounce, in milli-degrees: 60 degrees
/// per whole paddle width of offset, capped at a right angle. `off` is
/// the ball center minus the paddle center, micro-units; the result
/// carries `off`'s sign through its use below.
pub open spec fn spec_bounce_angle(off: int) -> int {
    let mag = (if off >= 0 { off } else { -off }) / (2 * PADDLE_HALF_WIDTH as int / 1000);
    if 60 * mag > 90_000 { 90_000 } else { 60 * mag }
}

/// Velocity after a vertical paddle hit: direction at
/// [`spec_bounce_angle`] off vertical (toward the side the ball hit on),
/// magnitude the stage's ball speed, then the steering boost of a held
/// input added to x. Components come from the per-mille sine, rounded
/// toward zero.
pub open spec fn spec_paddle_bounce(off: int, stage: int, input: Input) -> Vec2i {
    let phi = spec_bounce_angle(off);
    let speed = spec_ball_speed(stage);
    let vx_mag = speed * spec_sin_pm(phi) / 1000;
    let vy = speed * spec_sin_pm(90_000 - phi) / 1000;
    let vx_dir = if off >= 0 { vx_mag } else { -vx_mag };
    let vx = vx_dir - (if input.left { STEER_BOOST as int } else { 0 })
        + (if input.right { STEER_BOOST as int } else { 0 });
    Vec2i { x: vx as i64, y: vy as i64 }
}

/// Computes [`spec_paddle_bounce`] for the contact offset
/// `ball_cx - paddle_cx`; the result stays within the velocity limit.
pub fn paddle_bounce(ball_cx: i64, paddle_cx: i64, stage: u32, input: Input) -> (v: Vec2i)
    requires
        -POS_LIMIT <= ball_cx <= POS_LIMIT,
        -POS_LIMIT <= paddle_cx <= POS_LIMIT,
        1 <= stage <= STAGE_LIMIT,
    ensures
        v == spec_paddle_bounce(ball_cx - paddle_cx, stage as int, input),
        v.bounded(VEL_LIMIT as int),
{
    let off: i64 = ball_cx - paddle_cx;
    let mag: u64 = (if off >= 0 { off } else { -off }) as u64 / 150_000;
    let phi: u64 = if 60 * mag > 90_000 { 90_000 } else { 60 * mag };
    proof {
        assert(2 * PADDLE_HALF_WIDTH as int / 1000 == 150_000);
        assert(phi == spec_bounce_angle(off as int));
    }
    let s: u64 = sin_pm(phi);
    let c: u64 = sin_pm(90_000 - phi);
    let speed: u64 = ball_speed(stage) as u64;
    proof {
        lemma_scaled_component(speed as int, s as int);
        lemma_scaled_component(speed as int, c as int);
    }
    let vx_mag: u64 = speed * s / 1000;
    let vy: u64 = speed * c / 1000;
    let vx_dir: i64 = if off >= 0 { vx_mag as i64 } else { -(vx_mag as i64) };
    let mut vx: i64 = vx_dir;
    if input.left {
        vx = vx - STEER_BOOST;
    }
    if input.right {
        vx = vx + STEER_BOOST;
    }
    Vec2i { x: vx, y: vy as i64 }
}

/// A speed within the stage budget times a per-mille factor of at most
/// 1000, divided back by 1000, stays within the speed itself.
proof fn lemma_scaled_component(speed: int, s: int)
    requires
        0 <= s <= 1000,
        0 <= speed <= 1_999_000_000,
    ensures
        0 <= speed * s / 1000 <= speed,
        speed * s <= 1_999_000_000_000,
{
    assert(speed * s <= speed * 1000) by (nonlinear_arith)
        requires 0 <= s <= 1000 && speed >= 0;
    assert(speed * s >= 0) by (nonlinear_arith)
        requires s >= 0 && speed >= 0;
    lemma_div_is_ordered(speed * s, speed * 1000, 1000);
    lemma_div_multiples_vanish(speed, 1000);
}

} // verus!
