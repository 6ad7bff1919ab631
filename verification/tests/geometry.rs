use breakout::geometry::{bounds_intersect, clamp_i64, closest_point, intersects, swept_volume};
use breakout::numeric::{isqrt, sin_pm};
use breakout::{Aabb, Vec2i};

fn boxed(cx: i64, cy: i64, hx: i64, hy: i64) -> Aabb {
    Aabb {
        center: Vec2i { x: cx, y: cy },
        half: Vec2i { x: hx, y: hy },
    }
}

#[test]
fn intersects_overlap_and_touch() {
    let a = boxed(0, 0, 10, 10);
    let b = boxed(15, 0, 10, 10);
    assert!(intersects(&a, &b));
    // touching edges count
    let c = boxed(20, 0, 10, 10);
    assert!(intersects(&a, &c));
    let d = boxed(21, 0, 10, 10);
    assert!(!intersects(&a, &d));
    // overlap on x alone is no intersection
    let e = boxed(0, 30, 10, 10);
    assert!(!intersects(&a, &e));
}

#[test]
fn clamp_behaviour() {
    assert_eq!(clamp_i64(5, -10, 10), 5);
    assert_eq!(clamp_i64(-15, -10, 10), -10);
    assert_eq!(clamp_i64(15, -10, 10), 10);
}

#[test]
fn closest_point_clamps_into_box() {
    let b = boxed(0, 0, 10, 5);
    assert_eq!(closest_point(&b, Vec2i { x: 20, y: 1 }), Vec2i { x: 10, y: 1 });
    assert_eq!(closest_point(&b, Vec2i { x: -20, y: -9 }), Vec2i { x: -10, y: -5 });
    assert_eq!(closest_point(&b, Vec2i { x: 3, y: 2 }), Vec2i { x: 3, y: 2 });
}

#[test]
fn swept_volume_covers_both_extents() {
    let b = boxed(0, 0, 10, 10);
    let s = swept_volume(&b, Vec2i { x: 30, y: -40 });
    assert_eq!(s.min, Vec2i { x: -10, y: -50 });
    assert_eq!(s.max, Vec2i { x: 40, y: 10 });
    // zero displacement keeps the box
    let z = swept_volume(&b, Vec2i { x: 0, y: 0 });
    assert_eq!(z.min, Vec2i { x: -10, y: -10 });
    assert_eq!(z.max, Vec2i { x: 10, y: 10 });
    let far = boxed(100, 0, 10, 10);
    assert!(!bounds_intersect(&z, &far));
    assert!(bounds_intersect(&swept_volume(&b, Vec2i { x: 80, y: 0 }), &far));
}

#[test]
fn sin_per_mille_fixed_points() {
    assert_eq!(sin_pm(0), 0);
    assert_eq!(sin_pm(90_000), 1000);
    assert_eq!(sin_pm(180_000), 0);
    // the rational approximation at 45 degrees
    assert_eq!(sin_pm(45_000), 705);
    // symmetry of the approximation
    assert_eq!(sin_pm(30_000), sin_pm(150_000));
}

#[test]
fn isqrt_exact_and_floor() {
    assert_eq!(isqrt(0), 0);
    assert_eq!(isqrt(1), 1);
    assert_eq!(isqrt(2), 1);
    assert_eq!(isqrt(3), 1);
    assert_eq!(isqrt(4), 2);
    assert_eq!(isqrt(2_000_000), 1414);
    assert_eq!(isqrt(8_000_000_000_000_000_000), 2_828_427_124);
}
