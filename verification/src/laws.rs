//! Laws of the simulation, proved from the contracts alone: wall-bounce
//! sign flips and idempotence off the edges, the effect of a single brick
//! hit, the centered paddle bounce, and the stage-clear transition.

use vstd::prelude::*;
use crate::bounce::spec_paddle_bounce;
use crate::entities::{Brick, Field, GameState, Input};
use crate::geometry::Vec2i;
use crate::params::{
    spec_ball_speed, GRID_COUNT, SPAWN_X, SPAWN_Y, STAGE_LIMIT, VEL_LIMIT,
};
use crate::rules::reset_rel;
use crate::tick::{count_hits, flip_x, flip_y, spec_brick_sweep, spec_survivors};
use crate::walls::{spec_wall_bounce, touches_side, touches_top};

verus! {

/// A ball at or past a side edge leaves with its x velocity sign flipped;
/// one at or past the top edge with its y velocity sign flipped.
pub proof fn lemma_wall_bounce_flips(pos: Vec2i, vel: Vec2i, field: Field)
    requires
        vel.bounded(VEL_LIMIT as int),
    ensures
        touches_side(pos, field) ==> spec_wall_bounce(pos, vel, field).x == -vel.x,
        touches_top(pos, field) ==> spec_wall_bounce(pos, vel, field).y == -vel.y,
        !touches_side(pos, field) ==> spec_wall_bounce(pos, vel, field).x == vel.x,
        !touches_top(pos, field) ==> spec_wall_bounce(pos, vel, field).y == vel.y,
{
}

/// The wall check is idempotent on a ball clear of every edge: one check
/// changes nothing, so any number of repeated checks changes nothing.
pub proof fn lemma_wall_bounce_off_edges(pos: Vec2i, vel: Vec2i, field: Field)
    requires
        !touches_side(pos, field),
        !touches_top(pos, field),
    ensures
        spec_wall_bounce(pos, vel, field) == vel,
        spec_wall_bounce(pos, spec_wall_bounce(pos, vel, field), field) == vel,
{
}

/// A paddle hit dead center with no steering input relaunches the ball
/// straight up, at exactly the stage's ball speed.
pub proof fn lemma_paddle_center_bounce(stage: int, input: Input)
    requires
        1 <= stage <= STAGE_LIMIT,
        !input.left,
        !input.right,
    ensures
        spec_paddle_bounce(0, stage, input)
            == (Vec2i { x: 0i64, y: spec_ball_speed(stage) as i64 }),
{
    assert(crate::numeric::spec_sin_pm(0) == 0);
    assert(4000 * 90_000int * (180_000 - 90_000) == 32_400_000_000_000);
    assert(40_500_000_000 - 90_000int * (180_000 - 90_000) == 32_400_000_000);
    assert(32_400_000_000_000int / 32_400_000_000int == 1000);
    assert(crate::numeric::spec_sin_pm(90_000) == 1000);
    let speed = spec_ball_speed(stage);
    assert(speed * 0 / 1000 == 0);
    assert(speed * 1000 / 1000 == speed) by (nonlinear_arith);
}

/// The stage-clear transition: a tick whose stage-clear check finds no
/// brick left advances the stage by exactly one, puts the ball back on
/// the spawn point, and leaves a full fresh grid of 48 bricks.
pub proof fn lemma_stage_clear(pre: GameState, post: GameState, field: Field)
    requires
        reset_rel(pre, post, field),
        pre.bricks@.len() == 0,
    ensures
        post.stage == pre.stage + 1,
        post.ball_pos == (Vec2i { x: SPAWN_X, y: SPAWN_Y }),
        post.bricks@.len() == GRID_COUNT,
        post.score == pre.score,
{
}

/// A sweep yields one hit flag per brick.
pub proof fn lemma_sweep_len(pos: Vec2i, dt: int, bricks: Seq<Brick>, vel: Vec2i)
    ensures
        spec_brick_sweep(pos, dt, bricks, vel).1.len() == bricks.len(),
    decreases bricks.len(),
{
    if bricks.len() > 0 {
        let c = crate::sweep::spec_collides(
            crate::entities::spec_ball_box(pos), bricks[0].spec_bbox(),
            crate::tick::spec_disp(vel, dt));
        let v1 = match c {
            Option::None => vel,
            Option::Some(crate::sweep::Collision::Horizontal) => flip_x(vel),
            Option::Some(crate::sweep::Collision::Vertical) => flip_y(vel),
        };
        lemma_sweep_len(pos, dt, bricks.drop_first(), v1);
    }
}

/// A sweep that hits nothing changes nothing: the velocity comes out as
/// it went in, every brick survives, and nothing is scored.
pub proof fn lemma_sweep_no_hit(pos: Vec2i, dt: int, bricks: Seq<Brick>, vel: Vec2i)
    requires
        forall|k: int| 0 <= k < bricks.len()
            ==> !#[trigger] spec_brick_sweep(pos, dt, bricks, vel).1[k],
    ensures
        spec_brick_sweep(pos, dt, bricks, vel).0 == vel,
        count_hits(spec_brick_sweep(pos, dt, bricks, vel).1) == 0,
        spec_survivors(bricks, spec_brick_sweep(pos, dt, bricks, vel).1) == bricks,
    decreases bricks.len(),
{
    let r = spec_brick_sweep(pos, dt, bricks, vel);
    lemma_sweep_len(pos, dt, bricks, vel);
    if bricks.len() == 0 {
        assert(spec_survivors(bricks, r.1) =~= bricks);
    } else {
        let c = crate::sweep::spec_collides(
            crate::entities::spec_ball_box(pos), bricks[0].spec_bbox(),
            crate::tick::spec_disp(vel, dt));
        let hit = !(c is None);
        assert(r.1[0] == hit);
        assert(!hit);
        let rest = spec_brick_sweep(pos, dt, bricks.drop_first(), vel);
        assert forall|k: int| 0 <= k < bricks.drop_first().len()
            implies !(#[trigger] rest.1[k]) by {
            assert(rest.1[k] == (seq![hit] + rest.1)[k + 1]);
            assert(!spec_brick_sweep(pos, dt, bricks, vel).1[k + 1]);
        }
        lemma_sweep_no_hit(pos, dt, bricks.drop_first(), vel);
        assert(r.1.drop_first() =~= rest.1);
        assert(spec_survivors(bricks, r.1)
            == seq![bricks[0]] + spec_survivors(bricks.drop_first(), r.1.drop_first()));
        assert(seq![bricks[0]] + bricks.drop_first() =~= bricks);
    }
}

/// A tick in which exactly one brick registers a hit removes exactly
/// that brick (the survivors are the bricks with it taken out, order
/// kept), scores exactly once, and reflects the incoming velocity on
/// exactly one axis.
pub proof fn lemma_single_brick_hit(pos: Vec2i, dt: int, bricks: Seq<Brick>, vel: Vec2i, j: int)
    requires
        0 <= j < bricks.len(),
        forall|k: int| 0 <= k < bricks.len()
            ==> (#[trigger] spec_brick_sweep(pos, dt, bricks, vel).1[k] <==> k == j),
    ensures
        count_hits(spec_brick_sweep(pos, dt, bricks, vel).1) == 1,
        spec_survivors(bricks, spec_brick_sweep(pos, dt, bricks, vel).1) == bricks.remove(j),
        spec_brick_sweep(pos, dt, bricks, vel).0 == flip_x(vel)
            || spec_brick_sweep(pos, dt, bricks, vel).0 == flip_y(vel),
    decreases bricks.len(),
{
    let r = spec_brick_sweep(pos, dt, bricks, vel);
    lemma_sweep_len(pos, dt, bricks, vel);
    let c = crate::sweep::spec_collides(
        crate::entities::spec_ball_box(pos), bricks[0].spec_bbox(),
        crate::tick::spec_disp(vel, dt));
    let hit = !(c is None);
    let v1 = match c {
        Option::None => vel,
        Option::Some(crate::sweep::Collision::Horizontal) => flip_x(vel),
        Option::Some(crate::sweep::Collision::Vertical) => flip_y(vel),
    };
    let rest = spec_brick_sweep(pos, dt, bricks.drop_first(), v1);
    lemma_sweep_len(pos, dt, bricks.drop_first(), v1);
    assert(r.1[0] == hit);
    assert(r.1.drop_first() =~= rest.1);
    if j == 0 {
        assert(hit);
        assert(v1 == flip_x(vel) || v1 == flip_y(vel));
        assert forall|k: int| 0 <= k < bricks.drop_first().len()
            implies !(#[trigger] rest.1[k]) by {
            assert(rest.1[k] == (seq![hit] + rest.1)[k + 1]);
            assert(!spec_brick_sweep(pos, dt, bricks, vel).1[k + 1]);
        }
        lemma_sweep_no_hit(pos, dt, bricks.drop_first(), v1);
        assert(count_hits(r.1) == 1) by {
            assert(count_hits(r.1) == 1 + count_hits(r.1.drop_first()));
        }
        assert(spec_survivors(bricks, r.1)
            == spec_survivors(bricks.drop_first(), r.1.drop_first()));
        assert(bricks.remove(0) =~= bricks.drop_first());
    } else {
        assert(!hit);
        assert(v1 == vel);
        assert forall|k: int| 0 <= k < bricks.drop_first().len()
            implies (#[trigger] rest.1[k] <==> k == j - 1) by {
            assert(rest.1[k] == (seq![hit] + rest.1)[k + 1]);
            assert(spec_brick_sweep(pos, dt, bricks, vel).1[k + 1] <==> k + 1 == j);
        }
        lemma_single_brick_hit(pos, dt, bricks.drop_first(), vel, j - 1);
        assert(count_hits(r.1) == count_hits(rest.1));
        assert(spec_survivors(bricks, r.1)
            == seq![bricks[0]] + spec_survivors(bricks.drop_first(), rest.1));
        assert(seq![bricks[0]] + bricks.drop_first().remove(j - 1) =~= bricks.remove(j));
    }
}

} // verus!
