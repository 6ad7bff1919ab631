use breakout::rules::respawn_grid;
use breakout::sweep::{collides, Collision};
use breakout::{Aabb, Brick, Field, GameState, Input, Vec2i};

// One play-field unit, in micro-units.
const U: i64 = 1_000_000;

fn field() -> Field {
    Field {
        half_width: 500 * U,
        half_height: 400 * U,
    }
}

fn no_input() -> Input {
    Input {
        left: false,
        right: false,
    }
}

fn state(ball_pos: Vec2i, ball_vel: Vec2i, bricks: Vec<Brick>) -> GameState {
    GameState {
        score: 0,
        stage: 1,
        ball_pos,
        ball_vel,
        paddle_x: 0,
        bricks,
    }
}

#[test]
fn integration_adds_velocity_times_dt() {
    let mut s = state(
        Vec2i { x: 10 * U, y: 20 * U },
        Vec2i { x: 100_000, y: -50_000 },
        vec![],
    );
    // 100 units/s for 100 ms moves 10 units.
    s.apply_velocity(100, field());
    assert_eq!(s.ball_pos, Vec2i { x: 20 * U, y: 15 * U });
    assert_eq!(s.ball_vel, Vec2i { x: 100_000, y: -50_000 });
}

#[test]
fn integration_clamps_x_and_top() {
    let mut s = state(
        Vec2i { x: 0, y: 0 },
        Vec2i { x: 5_000_000, y: 5_000_000 },
        vec![],
    );
    // 5000 units/s for 1 s overshoots the field on both axes.
    s.apply_velocity(1000, field());
    assert_eq!(s.ball_pos, Vec2i { x: 490 * U, y: 390 * U });
    // no clamp below: the ball may leave through the bottom
    let mut d = state(Vec2i { x: 0, y: 0 }, Vec2i { x: 0, y: -5_000_000 }, vec![]);
    d.apply_velocity(1000, field());
    assert_eq!(d.ball_pos, Vec2i { x: 0, y: -5000 * U });
}

#[test]
fn wall_bounce_flips_signs_at_edges() {
    let mut s = state(
        Vec2i { x: 490 * U, y: 0 },
        Vec2i { x: 300_000, y: 100_000 },
        vec![],
    );
    s.collide_ball_with_walls(field());
    assert_eq!(s.ball_vel, Vec2i { x: -300_000, y: 100_000 });

    let mut left = state(
        Vec2i { x: -495 * U, y: 0 },
        Vec2i { x: -300_000, y: 100_000 },
        vec![],
    );
    left.collide_ball_with_walls(field());
    assert_eq!(left.ball_vel, Vec2i { x: 300_000, y: 100_000 });

    let mut top = state(
        Vec2i { x: 0, y: 390 * U },
        Vec2i { x: 300_000, y: 100_000 },
        vec![],
    );
    top.collide_ball_with_walls(field());
    assert_eq!(top.ball_vel, Vec2i { x: 300_000, y: -100_000 });
}

#[test]
fn wall_bounce_off_edges_changes_nothing_repeatedly() {
    let mut s = state(
        Vec2i { x: 3 * U, y: -4 * U },
        Vec2i { x: 123_456, y: -654_321 },
        vec![],
    );
    s.collide_ball_with_walls(field());
    assert_eq!(s.ball_vel, Vec2i { x: 123_456, y: -654_321 });
    s.collide_ball_with_walls(field());
    s.collide_ball_with_walls(field());
    assert_eq!(s.ball_vel, Vec2i { x: 123_456, y: -654_321 });
    assert_eq!(s.ball_pos, Vec2i { x: 3 * U, y: -4 * U });
}

#[test]
fn collides_classifies_vertical_hit() {
    let ball = Aabb {
        center: Vec2i { x: 0, y: 60 * U },
        half: Vec2i { x: 10 * U, y: 10 * U },
    };
    let brick = Aabb {
        center: Vec2i { x: 0, y: 100 * U },
        half: Vec2i { x: 67_500_000, y: 20 * U },
    };
    // moving up by 20 units this tick reaches the brick
    let hit = collides(&ball, &brick, Vec2i { x: 0, y: 20 * U });
    assert_eq!(hit, Some(Collision::Vertical));
    // moving away: same overlap direction as the velocity, no hit
    let away = collides(&ball, &brick, Vec2i { x: 0, y: -20 * U });
    assert_eq!(away, None);
}

#[test]
fn collides_classifies_horizontal_hit() {
    let ball = Aabb {
        center: Vec2i { x: 80 * U, y: 100 * U },
        half: Vec2i { x: 10 * U, y: 10 * U },
    };
    let brick = Aabb {
        center: Vec2i { x: 0, y: 100 * U },
        half: Vec2i { x: 67_500_000, y: 20 * U },
    };
    let hit = collides(&ball, &brick, Vec2i { x: -20 * U, y: 0 });
    assert_eq!(hit, Some(Collision::Horizontal));
}

#[test]
fn collides_rejects_disjoint_sweep() {
    let ball = Aabb {
        center: Vec2i { x: 0, y: 0 },
        half: Vec2i { x: 10 * U, y: 10 * U },
    };
    let brick = Aabb {
        center: Vec2i { x: 200 * U, y: 0 },
        half: Vec2i { x: 67_500_000, y: 20 * U },
    };
    assert_eq!(collides(&ball, &brick, Vec2i { x: 50 * U, y: 0 }), None);
}

#[test]
fn brick_hit_removes_brick_scores_stage_and_flips_one_axis() {
    let brick = Brick {
        pos: Vec2i { x: 0, y: 100 * U },
        hue: 120,
    };
    let mut s = state(
        Vec2i { x: 0, y: 60 * U },
        Vec2i { x: 0, y: 200_000 },
        vec![brick],
    );
    s.stage = 3;
    s.score = 5;
    s.collide_ball(100, no_input());
    assert_eq!(s.bricks.len(), 0);
    assert_eq!(s.score, 5 + 3);
    assert_eq!(s.ball_vel, Vec2i { x: 0, y: -200_000 });
    assert_eq!(s.ball_pos, Vec2i { x: 0, y: 60 * U });
    assert_eq!(s.stage, 3);
}

#[test]
fn brick_miss_keeps_everything() {
    let brick = Brick {
        pos: Vec2i { x: 300 * U, y: 100 * U },
        hue: 0,
    };
    let mut s = state(
        Vec2i { x: 0, y: 60 * U },
        Vec2i { x: 0, y: 200_000 },
        vec![brick],
    );
    s.collide_ball(100, no_input());
    assert_eq!(s.bricks.len(), 1);
    assert_eq!(s.score, 0);
    assert_eq!(s.ball_vel, Vec2i { x: 0, y: 200_000 });
}

#[test]
fn paddle_center_bounce_goes_straight_up_at_stage_speed() {
    let mut s = state(
        Vec2i { x: 0, y: -280 * U },
        Vec2i { x: 0, y: -200_000 },
        vec![],
    );
    s.collide_ball(100, no_input());
    // stage 1: 400 * (1 + 0.2) = 480 units/s, straight up
    assert_eq!(s.ball_vel, Vec2i { x: 0, y: 480_000 });
    assert_eq!(s.score, 0);
}

#[test]
fn paddle_bounce_steering_boost() {
    let mut s = state(
        Vec2i { x: 0, y: -280 * U },
        Vec2i { x: 0, y: -200_000 },
        vec![],
    );
    s.collide_ball(
        100,
        Input {
            left: false,
            right: true,
        },
    );
    assert_eq!(s.ball_vel, Vec2i { x: 166_666, y: 480_000 });
}

#[test]
fn paddle_bounce_off_center_angles_out() {
    // contact half a paddle width right of center: 30 degrees off vertical
    let mut s = state(
        Vec2i { x: 75 * U, y: -280 * U },
        Vec2i { x: 0, y: -200_000 },
        vec![],
    );
    s.collide_ball(100, no_input());
    assert_eq!(s.ball_vel, Vec2i { x: 240_000, y: 414_720 });
}

#[test]
fn fall_through_penalizes_and_respawns() {
    let mut s = state(
        Vec2i { x: 17 * U, y: -400 * U },
        Vec2i { x: 100_000, y: -200_000 },
        vec![],
    );
    s.score = 10;
    s.stage = 1;
    s.ball_fall_through(field());
    assert_eq!(s.score, 9);
    assert_eq!(s.ball_pos, Vec2i { x: 0, y: -250 * U });
    assert_eq!(s.ball_vel, Vec2i { x: -100_000, y: 200_000 });
}

#[test]
fn fall_through_saturates_score_at_zero() {
    let mut s = state(
        Vec2i { x: 0, y: -401 * U },
        Vec2i { x: 0, y: -200_000 },
        vec![],
    );
    s.score = 5;
    s.stage = 3;
    s.ball_fall_through(field());
    assert_eq!(s.score, 0);
    assert_eq!(s.ball_pos, Vec2i { x: 0, y: -250 * U });
}

#[test]
fn fall_through_above_bottom_changes_nothing() {
    let mut s = state(
        Vec2i { x: 0, y: -399 * U },
        Vec2i { x: 0, y: -200_000 },
        vec![],
    );
    s.score = 10;
    s.ball_fall_through(field());
    assert_eq!(s.score, 10);
    assert_eq!(s.ball_pos, Vec2i { x: 0, y: -399 * U });
    assert_eq!(s.ball_vel, Vec2i { x: 0, y: -200_000 });
}

#[test]
fn stage_clear_advances_and_respawns_grid() {
    let mut s = state(
        Vec2i { x: 40 * U, y: 0 },
        Vec2i { x: 0, y: -480_000 },
        vec![],
    );
    s.score = 7;
    s.reset_bricks(field());
    assert_eq!(s.stage, 2);
    assert_eq!(s.score, 7);
    assert_eq!(s.ball_pos, Vec2i { x: 0, y: -250 * U });
    // rescaled to 400 * (1 + 2 * 0.2) = 560 units/s, direction kept
    assert_eq!(s.ball_vel, Vec2i { x: 0, y: -560_000 });
    assert_eq!(s.bricks.len(), 48);
    assert_eq!(s.bricks[0].pos, Vec2i { x: -490 * U, y: 320 * U });
    assert_eq!(s.bricks[7].pos, Vec2i { x: 490 * U, y: 320 * U });
    assert_eq!(s.bricks[47].pos, Vec2i { x: 490 * U, y: 95 * U });
    for b in &s.bricks {
        assert!(b.hue < 360);
    }
}

#[test]
fn stage_clear_leaves_standing_bricks_alone() {
    let brick = Brick {
        pos: Vec2i { x: 0, y: 100 * U },
        hue: 10,
    };
    let mut s = state(
        Vec2i { x: 40 * U, y: 0 },
        Vec2i { x: 0, y: -480_000 },
        vec![brick],
    );
    s.reset_bricks(field());
    assert_eq!(s.stage, 1);
    assert_eq!(s.bricks.len(), 1);
    assert_eq!(s.ball_pos, Vec2i { x: 40 * U, y: 0 });
}

#[test]
fn respawned_grid_has_cosmetic_hues() {
    let bricks = respawn_grid(field());
    assert_eq!(bricks.len(), 48);
    for b in &bricks {
        assert!(b.hue < 360);
    }
}

#[test]
fn new_game_starts_at_spawn() {
    let s = GameState::new(field());
    assert_eq!(s.score, 0);
    assert_eq!(s.stage, 1);
    assert_eq!(s.paddle_x, 0);
    assert_eq!(s.ball_pos, Vec2i { x: 0, y: -250 * U });
    // diagonal at stage 1 speed: 1000/1414 of 480 units/s per component
    assert_eq!(s.ball_vel, Vec2i { x: 339_462, y: 339_462 });
    assert_eq!(s.bricks.len(), 48);
}

#[test]
fn tick_free_flight_only_moves_the_ball() {
    let mut s = GameState::new(field());
    let _ = s.tick(16, no_input(), field());
    assert_eq!(s.score, 0);
    assert_eq!(s.stage, 1);
    assert_eq!(s.bricks.len(), 48);
    // 339_462 milli-units/s for 16 ms
    assert_eq!(
        s.ball_pos,
        Vec2i {
            x: 5_431_392,
            y: -250 * U + 5_431_392
        }
    );
    assert_eq!(s.ball_vel, Vec2i { x: 339_462, y: 339_462 });
}

#[test]
fn tick_with_empty_grid_advances_stage() {
    let mut s = state(Vec2i { x: 0, y: 0 }, Vec2i { x: 0, y: 480_000 }, vec![]);
    let _ = s.tick(10, no_input(), field());
    assert_eq!(s.stage, 2);
    assert_eq!(s.bricks.len(), 48);
    assert_eq!(s.score, 0);
    assert_eq!(s.ball_pos, Vec2i { x: 0, y: -250 * U });
    assert_eq!(s.ball_vel, Vec2i { x: 0, y: 560_000 });
}

#[test]
fn move_paddle_steers_and_clamps() {
    let mut s = state(Vec2i { x: 0, y: 0 }, Vec2i { x: 0, y: 100_000 }, vec![]);
    // stage 1 paddle speed: 500 * 1.15 = 575 units/s; 100 ms moves 57.5 units
    s.move_paddle(
        100,
        Input {
            left: false,
            right: true,
        },
        field(),
    );
    assert_eq!(s.paddle_x, 57_500_000);
    s.move_paddle(
        100,
        Input {
            left: true,
            right: false,
        },
        field(),
    );
    assert_eq!(s.paddle_x, 0);
    // a long press runs into the field edge: 500 - 75 units
    for _ in 0..10 {
        s.move_paddle(
            1000,
            Input {
                left: true,
                right: false,
            },
            field(),
        );
    }
    assert_eq!(s.paddle_x, -425 * U);
}
