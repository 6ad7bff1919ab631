//! Swept collision detection: classify a collision between the moving
//! ball and a static box, for the displacement of one tick.

use vstd::prelude::*;
use crate::geometry::{
    bounds_intersect, closest_point, spec_bounds_intersect, spec_closest_point,
    spec_swept_volume, swept_volume, Aabb, Vec2i, COORD_LIMIT,
};

verus! {

/// The axis a collision is classified on.
#[derive(Clone, Copy, Debug, PartialEq, Eq, Structural)]
pub enum Collision {
    Horizontal,
    Vertical,
}

/// Collision classification. The moving box's swept volume over the
/// displacement must overlap the other box; the contact offset (from the
/// closest point of the mover to the other's center, to the mover's
/// center) picks the dominant axis; and a mover already travelling away
/// from the contact on that axis is no collision.
pub open spec fn spec_collides(object: Aabb, with: Aabb, disp: Vec2i) -> Option<Collision> {
    if !spec_bounds_intersect(spec_swept_volume(object, disp), with) {
        None
    } else {
        let cp = spec_closest_point(object, with.center);
        let off_x = object.center.x - cp.x;
        let off_y = object.center.y - cp.y;
        let abs_x = if off_x >= 0 { off_x } else { -off_x };
        let abs_y = if off_y >= 0 { off_y } else { -off_y };
        if abs_x > abs_y {
            if (disp.x >= 0) == (off_x >= 0) {
                None
            } else {
                Some(Collision::Horizontal)
            }
        } else {
            if (disp.y >= 0) == (off_y >= 0) {
                None
            } else {
                Some(Collision::Vertical)
            }
        }
    }
}

/// Classifies the collision of the moving box `object` (displaced by
/// `disp` this tick) with the static box `with`, exactly as
/// [`spec_collides`] says: `None` when the swept volumes do not meet or
/// the mover is leaving, otherwise the dominant contact axis.
pub fn collides(object: &Aabb, with: &Aabb, disp: Vec2i) -> (r: Option<Collision>)
    requires
        object.wf(),
        with.wf(),
        disp.bounded(COORD_LIMIT as int),
    ensures
        r == spec_collides(*object, *with, disp),
{
    let swept = swept_volume(object, disp);
    if !bounds_intersect(&swept, with) {
        return None;
    }
    let cp = closest_point(object, with.center);
    let off_x: i64 = object.center.x - cp.x;
    let off_y: i64 = object.center.y - cp.y;
    let abs_x: i64 = if off_x >= 0 { off_x } else { -off_x };
    let abs_y: i64 = if off_y >= 0 { off_y } else { -off_y };
    if abs_x > abs_y {
        if (disp.x >= 0) == (off_x >= 0) {
            None
        } else {
            Some(Collision::Horizontal)
        }
    } else {
        if (disp.y >= 0) == (off_y >= 0) {
            None
        } else {
            Some(Collision::Vertical)
        }
    }
}

} // verus!
