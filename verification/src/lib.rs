//! Verified simulation core of an arcade ball-and-paddle game: axis-aligned
//! geometry, motion integration, swept collision detection and response, and
//! the score/stage state machine.

pub mod bounce;
pub mod entities;
pub mod geometry;
pub mod laws;
pub mod motion;
pub mod numeric;
pub mod params;
pub mod rules;
pub mod sweep;
pub mod tick;
pub mod walls;

pub use entities::Brick;
pub use entities::Field;
pub use entities::GameState;
pub use entities::Input;
pub use geometry::Aabb;
pub use geometry::Bounds;
pub use geometry::Vec2i;
