//! Tiles: a collision box, the texture coordinate it is drawn from, and the
//! collision behavior that the texture coordinate classifies.

use vstd::prelude::*;
use crate::geom::{Aabb, Vec2, MAX_CENTER, MAX_SIZE};

verus! {

/// Texture column that marks a purely decorative tile.
pub const NO_COLLISION: u16 = 9;

/// How a tile takes part in collision handling.
#[derive(Clone, Copy, PartialEq, Eq, Structural, Debug)]
pub enum TileKind {
    /// A full solid block.
    Solid,
    /// A solid half-height block aligned with the top of its cell.
    HalfTop,
    /// A solid half-height block aligned with the bottom of its cell.
    HalfBottom,
    /// Passable; only triggers level transitions.
    Door,
    /// Touching it sends the actor back to its respawn position.
    Lethal,
    /// Drawn but never collided with.
    Decorative,
}

/// Texture coordinates drawn as half-height blocks hugging the top of their
/// cell.
pub open spec fn spec_is_top_half(t: (u16, u16)) -> bool {
    ||| t == (0u16, 3u16)
    ||| t == (1u16, 3u16)
    ||| t == (2u16, 3u16)
    ||| t == (3u16, 3u16)
    ||| t == (3u16, 2u16)
    ||| t == (4u16, 2u16)
    ||| t == (5u16, 2u16)
}

/// Texture coordinates drawn as half-height blocks hugging the bottom of
/// their cell.
pub open spec fn spec_is_bottom_half(t: (u16, u16)) -> bool {
    t == (0u16, 0u16) || t == (2u16, 2u16)
}

/// Texture coordinates of tiles that kill the actor on contact.
pub open spec fn spec_is_death(t: (u16, u16)) -> bool {
    t == (0u16, 0u16) || t == (2u16, 2u16)
}

/// Texture coordinates of door tiles.
pub open spec fn spec_is_door(t: (u16, u16)) -> bool {
    ||| t == (6u16, 0u16)
    ||| t == (6u16, 1u16)
    ||| t == (6u16, 2u16)
    ||| t == (6u16, 3u16)
    ||| t == (5u16, 3u16)
    ||| t == (5u16, 4u16)
}

/// Classification of a texture coordinate, checked in the same order the
/// level loader applies: shape tables first, then doors, then the decorative
/// column, with everything else a full solid block. A bottom-half coordinate
/// that is also in the death table is lethal.
pub open spec fn spec_classify(t: (u16, u16)) -> TileKind {
    if spec_is_top_half(t) {
        if spec_is_death(t) {
            TileKind::Lethal
        } else {
            TileKind::HalfTop
        }
    } else if spec_is_bottom_half(t) {
        if spec_is_death(t) {
            TileKind::Lethal
        } else {
            TileKind::HalfBottom
        }
    } else if spec_is_door(t) {
        TileKind::Door
    } else if t.0 == NO_COLLISION {
        TileKind::Decorative
    } else {
        TileKind::Solid
    }
}

pub fn is_top_half(t: (u16, u16)) -> (r: bool)
    ensures
        r == spec_is_top_half(t),
{
    (t.1 == 3 && t.0 <= 3) || (t.1 == 2 && 3 <= t.0 && t.0 <= 5)
}

pub fn is_bottom_half(t: (u16, u16)) -> (r: bool)
    ensures
        r == spec_is_bottom_half(t),
{
    (t.0 == 0 && t.1 == 0) || (t.0 == 2 && t.1 == 2)
}

pub fn is_death(t: (u16, u16)) -> (r: bool)
    ensures
        r == spec_is_death(t),
{
    (t.0 == 0 && t.1 == 0) || (t.0 == 2 && t.1 == 2)
}

pub fn is_door(t: (u16, u16)) -> (r: bool)
    ensures
        r == spec_is_door(t),
{
    (t.0 == 6 && t.1 <= 3) || (t.0 == 5 && (t.1 == 3 || t.1 == 4))
}

/// Classifies a texture coordinate.
pub fn classify(t: (u16, u16)) -> (r: TileKind)
    ensures
        r == spec_classify(t),
{
    if is_top_half(t) {
        if is_death(t) {
            TileKind::Lethal
        } else {
            TileKind::HalfTop
        }
    } else if is_bottom_half(t) {
        if is_death(t) {
            TileKind::Lethal
        } else {
            TileKind::HalfBottom
        }
    } else if is_door(t) {
        TileKind::Door
    } else if t.0 == NO_COLLISION {
        TileKind::Decorative
    } else {
        TileKind::Solid
    }
}

/// A drawable tile: collision box, texture coordinate, and the collision
/// behavior derived from the texture coordinate at construction time.
#[derive(Clone, Copy, PartialEq, Eq, Debug)]
pub struct SpriteTile {
    pub collision: Aabb,
    pub tex_coord: (u16, u16),
    pub kind: TileKind,
}

impl SpriteTile {
    /// The tile's stored behavior agrees with its texture coordinate and its
    /// box is usable.
    pub open spec fn wf(self) -> bool {
        &&& self.collision.wf()
        &&& self.kind == spec_classify(self.tex_coord)
    }
}

/// A square tile of the given full side length, classified from its texture
/// coordinate.
#[allow(non_snake_case)]
pub fn newSpriteTile_Square(pos_x: i64, pos_y: i64, size: i64, tex_x: u16, tex_y: u16) -> (r:
    SpriteTile)
    requires
        -MAX_CENTER <= pos_x <= MAX_CENTER,
        -MAX_CENTER <= pos_y <= MAX_CENTER,
        0 < size <= MAX_SIZE,
    ensures
        r.collision == (Aabb { center: Vec2 { x: pos_x, y: pos_y }, size: Vec2 { x: size, y: size } }),
        r.tex_coord == (tex_x, tex_y),
        r.kind == spec_classify((tex_x, tex_y)),
        r.wf(),
{
    SpriteTile {
        collision: Aabb { center: Vec2 { x: pos_x, y: pos_y }, size: Vec2 { x: size, y: size } },
        tex_coord: (tex_x, tex_y),
        kind: classify((tex_x, tex_y)),
    }
}

/// A rectangular tile, classified from its texture coordinate.
#[allow(non_snake_case)]
pub fn newSpriteTile_Rect(pos_x: i64, pos_y: i64, width: i64, height: i64, tex_x: u16, tex_y: u16)
    -> (r: SpriteTile)
    requires
        -MAX_CENTER <= pos_x <= MAX_CENTER,
        -MAX_CENTER <= pos_y <= MAX_CENTER,
        0 < width <= MAX_SIZE,
        0 < height <= MAX_SIZE,
    ensures
        r.collision == (Aabb {
            center: Vec2 { x: pos_x, y: pos_y },
            size: Vec2 { x: width, y: height },
        }),
        r.tex_coord == (tex_x, tex_y),
        r.kind == spec_classify((tex_x, tex_y)),
        r.wf(),
{
    SpriteTile {
        collision: Aabb { center: Vec2 { x: pos_x, y: pos_y }, size: Vec2 { x: width, y: height } },
        tex_coord: (tex_x, tex_y),
        kind: classify((tex_x, tex_y)),
    }
}

/// A rectangular region of a sprite sheet, the texture-region selector the
/// renderer consumes.
#[derive(Clone, Copy, PartialEq, Eq, Structural, Debug)]
pub struct SheetRegion {
    pub sheet: u16,
    pub x: u16,
    pub y: u16,
    pub depth: u16,
    pub w: u16,
    pub h: u16,
}

/// The sheet region a texture coordinate selects: cell coordinates scaled by
/// the sprite size, with half-height tiles drawn from the top half of their
/// cell.
pub open spec fn spec_sheet_region(sheet_num: u16, tex: (u16, u16), depth: u16, size: u16)
    -> SheetRegion {
    SheetRegion {
        sheet: sheet_num,
        x: (tex.0 * size) as u16,
        y: (tex.1 * size) as u16,
        depth,
        w: size,
        h: if spec_is_top_half(tex) {
            size / 2
        } else {
            size
        },
    }
}

/// A sprite to draw: where, how far turned (in eighth turns), and from which
/// sheet region.
#[derive(Clone, Copy, PartialEq, Eq, Structural, Debug)]
pub struct SpriteInstance {
    pub area: Aabb,
    pub rot: i64,
    pub region: SheetRegion,
}

/// The sheet region of a tile texture coordinate: cell coordinates scaled by
/// the sprite size, with half-height tiles drawn from the top half of their
/// cell.
#[allow(non_snake_case)]
pub fn getSpriteFromSheet(sheet_num: u16, tex_coord: &(u16, u16), depth: u16, sprite_size: u16)
    -> (r: SheetRegion)
    requires
        tex_coord.0 * sprite_size <= u16::MAX,
        tex_coord.1 * sprite_size <= u16::MAX,
    ensures
        r == spec_sheet_region(sheet_num, *tex_coord, depth, sprite_size),
{
    let h = if is_top_half(*tex_coord) {
        sprite_size / 2
    } else {
        sprite_size
    };
    SheetRegion {
        sheet: sheet_num,
        x: tex_coord.0 * sprite_size,
        y: tex_coord.1 * sprite_size,
        depth,
        w: sprite_size,
        h,
    }
}

/// A sheet region given directly by pixel coordinates.
#[allow(non_snake_case)]
pub fn getSpriteFromSheet_Demo(sheet_num: u16, x: u16, y: u16, depth: u16, w: u16, h: u16) -> (r:
    SheetRegion)
    ensures
        r == (SheetRegion { sheet: sheet_num, x, y, depth, w, h }),
{
    SheetRegion { sheet: sheet_num, x, y, depth, w, h }
}

} // verus!
