//! Collision resolution against the paddle and the brick grid, and the
//! frame driver that runs one simulated tick in its fixed order.

use vstd::prelude::*;
use vstd::arithmetic::mul::lemma_mul_inequality;
use crate::bounce::{paddle_bounce, spec_paddle_bounce};
use crate::entities::{spec_ball_box, Brick, Field, GameState, Input};
use crate::geometry::Vec2i;
use crate::motion::spec_integrate;
use crate::params::{DT_LIMIT, GRID_COUNT, STAGE_LIMIT, VEL_LIMIT};
use crate::rules::{reset_rel, spec_fall_state, spec_move_paddle};
use crate::sweep::{collides, spec_collides, Collision};
use crate::walls::spec_wall_bounce;

verus! {

/// Velocity with the x component negated.
pub open spec fn flip_x(v: Vec2i) -> Vec2i {
    Vec2i { x: (-(v.x as int)) as i64, y: v.y }
}

/// Velocity with the y component negated.
pub open spec fn flip_y(v: Vec2i) -> Vec2i {
    Vec2i { x: v.x, y: (-(v.y as int)) as i64 }
}

/// The displacement of one tick: `velocity * dt`, in micro-units.
pub open spec fn spec_disp(vel: Vec2i, dt: int) -> Vec2i {
    Vec2i { x: (vel.x * dt) as i64, y: (vel.y * dt) as i64 }
}

/// Velocity after the ball is checked against the paddle: a horizontal
/// hit clips, negating x; a vertical hit relaunches the ball by the
/// paddle-angle redirection; no hit leaves it alone.
pub open spec fn spec_paddle_phase(s: GameState, dt: int, input: Input) -> Vec2i {
    match spec_collides(s.spec_ball_bbox(), s.spec_paddle_bbox(), spec_disp(s.ball_vel, dt)) {
        Option::None => s.ball_vel,
        Option::Some(Collision::Horizontal) => flip_x(s.ball_vel),
        Option::Some(Collision::Vertical) => spec_paddle_bounce(
            s.ball_pos.x - s.paddle_x, s.stage as int, input),
    }
}

/// The ball checked against each brick in order, the velocity threaded
/// through: a hit reflects the running velocity on the classified axis.
/// Yields the final velocity and one hit flag per brick.
pub open spec fn spec_brick_sweep(pos: Vec2i, dt: int, bricks: Seq<Brick>, vel: Vec2i)
    -> (Vec2i, Seq<bool>)
    decreases bricks.len(),
{
    if bricks.len() == 0 {
        (vel, Seq::<bool>::empty())
    } else {
        let c = spec_collides(spec_ball_box(pos), bricks[0].spec_bbox(), spec_disp(vel, dt));
        let hit = !(c is None);
        let v1 = match c {
            Option::None => vel,
            Option::Some(Collision::Horizontal) => flip_x(vel),
            Option::Some(Collision::Vertical) => flip_y(vel),
        };
        let rest = spec_brick_sweep(pos, dt, bricks.drop_first(), v1);
        (rest.0, seq![hit] + rest.1)
    }
}

/// How many flags are set: one point of stage-many is scored per hit.
pub open spec fn count_hits(hits: Seq<bool>) -> nat
    decreases hits.len(),
{
    if hits.len() == 0 {
        0
    } else {
        (if hits[0] { 1nat } else { 0nat }) + count_hits(hits.drop_first())
    }
}

/// The bricks that outlive the tick: those whose flag is clear, in order.
pub open spec fn spec_survivors(bricks: Seq<Brick>, hits: Seq<bool>) -> Seq<Brick>
    decreases bricks.len(),
{
    if bricks.len() == 0 {
        Seq::<Brick>::empty()
    } else {
        let rest = spec_survivors(bricks.drop_first(), hits.drop_first());
        if hits.len() > 0 && hits[0] {
            rest
        } else {
            seq![bricks[0]] + rest
        }
    }
}

/// Appending a flag adds its value to the count.
pub proof fn lemma_count_push(h: Seq<bool>, f: bool)
    ensures
        count_hits(h.push(f)) == count_hits(h) + (if f { 1int } else { 0 }),
    decreases h.len(),
{
    if h.len() == 0 {
        assert(h.push(f).drop_first() =~= Seq::<bool>::empty());
        assert(count_hits(Seq::<bool>::empty()) == 0);
        assert(h.push(f)[0] == f);
    } else {
        assert(h.push(f).drop_first() =~= h.drop_first().push(f));
        assert(h.push(f)[0] == h[0]);
        lemma_count_push(h.drop_first(), f);
    }
}

/// Appending a brick and its flag appends the brick to the survivors
/// exactly when the flag is clear.
pub proof fn lemma_survivors_push(b: Seq<Brick>, h: Seq<bool>, x: Brick, f: bool)
    requires
        b.len() == h.len(),
    ensures
        spec_survivors(b.push(x), h.push(f)) == (if f {
            spec_survivors(b, h)
        } else {
            spec_survivors(b, h).push(x)
        }),
    decreases b.len(),
{
    if b.len() == 0 {
        assert(b.push(x).drop_first() =~= Seq::<Brick>::empty());
        assert(h.push(f).drop_first() =~= Seq::<bool>::empty());
        assert(spec_survivors(Seq::<Brick>::empty(), Seq::<bool>::empty())
            == Seq::<Brick>::empty());
        assert(b.push(x)[0] == x);
        assert(h.push(f)[0] == f);
        if !f {
            assert(seq![x] + Seq::<Brick>::empty() =~= Seq::<Brick>::empty().push(x));
        }
    } else {
        assert(b.push(x).drop_first() =~= b.drop_first().push(x));
        assert(h.push(f).drop_first() =~= h.drop_first().push(f));
        assert(b.push(x)[0] == b[0]);
        assert(h.push(f)[0] == h[0]);
        lemma_survivors_push(b.drop_first(), h.drop_first(), x, f);
        if !f {
            assert(seq![b[0]] + spec_survivors(b.drop_first(), h.drop_first()).push(x)
                =~= (seq![b[0]] + spec_survivors(b.drop_first(), h.drop_first())).push(x));
        }
    }
}

/// A survivor count never exceeds the brick count.
pub proof fn lemma_survivors_len(b: Seq<Brick>, h: Seq<bool>)
    ensures
        spec_survivors(b, h).len() <= b.len(),
    decreases b.len(),
{
    if b.len() > 0 {
        lemma_survivors_len(b.drop_first(), h.drop_first());
    }
}

impl GameState {
    /// Resolves the ball against every collider — the paddle first, then
    /// each live brick in order, the velocity threaded through. Exactly
    /// the hit bricks disappear; the score grows by the stage value once
    /// per hit brick; the velocity is reflected per hit as
    /// [`spec_brick_sweep`] says, after the paddle phase
    /// ([`spec_paddle_phase`]). Position, stage and paddle do not move.
    pub fn collide_ball(&mut self, dt: u32, input: Input)
        requires
            old(self).wf(),
            dt <= DT_LIMIT,
            old(self).score + old(self).stage * old(self).bricks@.len() <= u32::MAX,
        ensures
            ({
                let v1 = spec_paddle_phase(*old(self), dt as int, input);
                let r = spec_brick_sweep(old(self).ball_pos, dt as int, old(self).bricks@, v1);
                &&& final(self).ball_vel == r.0
                &&& final(self).bricks@ == spec_survivors(old(self).bricks@, r.1)
                &&& final(self).score == old(self).score + old(self).stage * count_hits(r.1)
            }),
            final(self).ball_pos == old(self).ball_pos,
            final(self).stage == old(self).stage,
            final(self).paddle_x == old(self).paddle_x,
            final(self).wf(),
    {
        let ghost all = self.bricks@;
        let ghost start_score = self.score as int;
        let pos = self.ball_pos;
        let stage = self.stage;
        let ball_box = self.ball_bbox();

        // Paddle phase.
        let mut vel = self.ball_vel;
        proof {
            lemma_disp_fits(vel, dt as int);
        }
        let disp = Vec2i { x: vel.x * (dt as i64), y: vel.y * (dt as i64) };
        let paddle_box = self.paddle_bbox();
        match collides(&ball_box, &paddle_box, disp) {
            Option::None => {},
            Option::Some(Collision::Horizontal) => {
                vel = Vec2i { x: -vel.x, y: vel.y };
            },
            Option::Some(Collision::Vertical) => {
                vel = paddle_bounce(pos.x, self.paddle_x, stage, input);
            },
        }
        let ghost v1 = vel;
        assert(v1 == spec_paddle_phase(*old(self), dt as int, input));
        proof {
            assert(all.skip(0) =~= all);
            assert(Seq::<bool>::empty() + spec_brick_sweep(pos, dt as int, all, v1).1
                =~= spec_brick_sweep(pos, dt as int, all, v1).1);
        }

        // Brick phase: sweep in order, collect survivors.
        let mut score: u32 = self.score;
        let mut out: Vec<Brick> = Vec::new();
        let ghost hits = Seq::<bool>::empty();
        let n: usize = self.bricks.len();
        let mut i: usize = 0;
        while i < n
            invariant
                i <= n,
                n == all.len(),
                dt <= DT_LIMIT,
                ball_box == spec_ball_box(pos),
                self.bricks@ == all,
                old(self).wf(),
                all == old(self).bricks@,
                pos == old(self).ball_pos,
                stage == old(self).stage,
                start_score == old(self).score as int,
                start_score + stage * all.len() <= u32::MAX,
                vel.bounded(VEL_LIMIT as int),
                hits.len() == i,
                count_hits(hits) <= i,
                score as int == start_score + stage * count_hits(hits),
                out@ == spec_survivors(all.take(i as int), hits),
                out@.len() <= i,
                forall|k: int| 0 <= k < out@.len() ==> (#[trigger] out@[k]).wf(),
                spec_brick_sweep(pos, dt as int, all, v1)
                    == (spec_brick_sweep(pos, dt as int, all.skip(i as int), vel).0,
                        hits + spec_brick_sweep(pos, dt as int, all.skip(i as int), vel).1),
            decreases n - i,
        {
            let brick = self.bricks[i];
            proof {
                lemma_disp_fits(vel, dt as int);
                assert(all.skip(i as int)[0] == all[i as int]);
                assert(all.skip(i as int).drop_first() =~= all.skip(i as int + 1));
            }
            let bdisp = Vec2i { x: vel.x * (dt as i64), y: vel.y * (dt as i64) };
            let c = collides(&ball_box, &brick.bbox(), bdisp);
            let ghost prev_vel = vel;
            let ghost prev_hits = hits;
            let hit: bool;
            match c {
                Option::None => {
                    hit = false;
                },
                Option::Some(Collision::Horizontal) => {
                    hit = true;
                    vel = Vec2i { x: -vel.x, y: vel.y };
                },
                Option::Some(Collision::Vertical) => {
                    hit = true;
                    vel = Vec2i { x: vel.x, y: -vel.y };
                },
            }
            proof {
                hits = hits.push(hit);
                lemma_count_push(prev_hits, hit);
                assert(prev_hits + (seq![hit]
                    + spec_brick_sweep(pos, dt as int, all.skip(i as int + 1), vel).1)
                    =~= hits + spec_brick_sweep(pos, dt as int, all.skip(i as int + 1), vel).1);
            }
            if hit {
                proof {
                    assert(count_hits(hits) == count_hits(prev_hits) + 1);
                    assert(stage * count_hits(hits) == stage * count_hits(prev_hits) + stage)
                        by (nonlinear_arith)
                        requires count_hits(hits) == count_hits(prev_hits) + 1;
                    lemma_mul_inequality(count_hits(hits) as int, all.len() as int, stage as int);
                    assert(stage * count_hits(hits) == count_hits(hits) * stage)
                        by (nonlinear_arith);
                    assert(stage * all.len() == all.len() * stage) by (nonlinear_arith);
                }
                score = score + stage;
            } else {
                out.push(brick);
            }
            proof {
                lemma_survivors_push(all.take(i as int), prev_hits, all[i as int], hit);
                assert(all.take(i as int).push(all[i as int]) =~= all.take(i as int + 1));
            }
            i = i + 1;
        }
        proof {
            assert(all.skip(n as int) =~= Seq::<Brick>::empty());
            assert(hits + Seq::<bool>::empty() =~= hits);
            assert(all.take(n as int) =~= all);
        }
        self.ball_vel = vel;
        self.score = score;
        self.bricks = out;
    }
}

impl GameState {
    /// One simulated tick, in the fixed frame order: paddle movement,
    /// motion integration, wall bounce, the stage-clear check, the
    /// fall-through check, then collision resolution. Each step does
    /// exactly what its own contract says; `mid` names the state right
    /// after the stage-clear check, through which the whole tick is
    /// pinned. The stage advances by exactly one when the tick starts
    /// with no brick left, else it is kept.
    pub fn tick(&mut self, dt: u32, input: Input, field: Field) -> (mid: Ghost<GameState>)
        requires
            old(self).wf(),
            field.wf(),
            dt <= DT_LIMIT,
            old(self).stage < STAGE_LIMIT,
            old(self).score + (old(self).stage + 1) * GRID_COUNT <= u32::MAX,
        ensures
            ({
                let paddle1 = spec_move_paddle(
                    old(self).paddle_x as int, old(self).stage as int, dt as int, input, field);
                let pos2 = spec_integrate(old(self).ball_pos, old(self).ball_vel, dt as int, field);
                let vel3 = spec_wall_bounce(pos2, old(self).ball_vel, field);
                let s3 = GameState {
                    paddle_x: paddle1 as i64,
                    ball_pos: pos2,
                    ball_vel: vel3,
                    ..*old(self)
                };
                let s5 = spec_fall_state(mid@, field);
                let v6 = spec_paddle_phase(s5, dt as int, input);
                let r = spec_brick_sweep(s5.ball_pos, dt as int, s5.bricks@, v6);
                &&& reset_rel(s3, mid@, field)
                &&& final(self).ball_vel == r.0
                &&& final(self).bricks@ == spec_survivors(s5.bricks@, r.1)
                &&& final(self).score == s5.score + s5.stage * count_hits(r.1)
                &&& final(self).ball_pos == s5.ball_pos
                &&& final(self).paddle_x == s5.paddle_x
                &&& final(self).stage == s5.stage
            }),
            final(self).stage == old(self).stage
                + (if old(self).bricks@.len() == 0 { 1int } else { 0int }),
            final(self).wf(),
    {
        self.move_paddle(dt, input, field);
        assert(self.wf());
        self.apply_velocity(dt, field);
        let ghost s2 = *self;
        assert(self.wf_core());
        self.collide_ball_with_walls(field);
        let ghost s3 = *self;
        self.reset_bricks(field);
        let ghost s4 = *self;
        self.ball_fall_through(field);
        proof {
            assert(self.ball_pos.bounded(crate::params::POS_LIMIT as int));
            assert(self.wf());
            assert(self.score <= old(self).score);
            assert(self.stage <= old(self).stage + 1);
            let top_stage = old(self).stage + 1;
            let cur_stage = self.stage as int;
            let cur_len = self.bricks@.len() as int;
            assert(cur_stage * cur_len <= top_stage * (GRID_COUNT as int))
                by (nonlinear_arith)
                requires
                    cur_stage <= top_stage,
                    0 <= cur_stage,
                    0 <= cur_len <= GRID_COUNT as int,
                    GRID_COUNT == 48usize;
        }
        self.collide_ball(dt, input);
        Ghost(s4)
    }
}

/// A velocity within its limit, over a tick within its limit, displaces
/// within the coordinate budget.
proof fn lemma_disp_fits(vel: Vec2i, dt: int)
    requires
        vel.bounded(VEL_LIMIT as int),
        0 <= dt <= DT_LIMIT,
    ensures
        -2_000_000_000_000_000 <= vel.x * dt <= 2_000_000_000_000_000,
        -2_000_000_000_000_000 <= vel.y * dt <= 2_000_000_000_000_000,
{
    assert(-2_000_000_000_000_000 <= vel.x * dt <= 2_000_000_000_000_000
        && -2_000_000_000_000_000 <= vel.y * dt <= 2_000_000_000_000_000)
        by (nonlinear_arith)
        requires
            -2_000_000_000 <= vel.x <= 2_000_000_000,
            -2_000_000_000 <= vel.y <= 2_000_000_000,
            0 <= dt <= 1_000_000;
}

} // verus!
