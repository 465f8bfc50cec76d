//! Core logic of a small 2D platformer with embedded minigames: axis-aligned
//! bounding boxes, iterative collision resolution, actor physics, a textual
//! level loader, and the level/mode state machine that ties them together.
//!
//! All coordinates are integers. Boxes are stored as a center point and a
//! full width/height pair; overlap tests are carried out on doubled
//! coordinates, where every box edge is a whole number, so every result is
//! exact. Rendering, audio playback, window and file handling are left to the
//! embedding program: the library only produces sprite lists and sound-effect
//! ids and consumes plain input values.

pub mod connectwires;
pub mod game;
pub mod geom;
pub mod guy;
pub mod level;
pub mod mining;
pub mod simonsays;
pub mod resolver;
pub mod rng;
pub mod tile;

use vstd::prelude::*;

verus! {

/// Width of the world's visible area.
pub const W: i64 = 320;

/// Height of the world's visible area.
pub const H: i64 = 240;

} // verus!

pub use geom::{Aabb, Vec2};
pub use guy::Guy;
pub use tile::{SheetRegion, SpriteTile, TileKind};
