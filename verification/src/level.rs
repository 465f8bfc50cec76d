//! Level loading: parses a textual tile grid into typed collision tiles and
//! the list of door tile indices.
//!
//! A level text is a sequence of `(d,d)` tokens separated by spaces,
//! newlines and parentheses, each token a single-digit texture-coordinate
//! pair. Tiles are laid out row-major from a fixed origin, wrapping after a
//! fixed column count; the texture coordinate decides the tile's shape
//! (full square, or a half-height block shifted to the top or bottom of its
//! cell) and its collision behavior.

use vstd::prelude::*;
use crate::geom::{Aabb, Vec2};
use crate::tile::{classify, spec_classify, SpriteTile, TileKind};

verus! {

/// Full side length of a grid cell in the game's own levels.
pub const LEVEL_TILE_SIZE: i64 = 32;

/// Column count of the game's own levels.
pub const LEVEL_COLUMNS: usize = 10;

/// Why a level text was rejected.
#[derive(Clone, Copy, PartialEq, Eq, Structural, Debug)]
pub enum LevelError {
    /// A token is not a `digit , digit` triple.
    Malformed,
}

/// Token separators: space, newline and parentheses.
pub open spec fn is_sep(c: u8) -> bool {
    c == 32 || c == 10 || c == 40 || c == 41
}

/// An ASCII digit.
pub open spec fn is_digit(c: u8) -> bool {
    48 <= c <= 57
}

/// The text decomposes into separators and `digit , digit` tokens.
pub open spec fn spec_tokens_ok(s: Seq<u8>) -> bool
    decreases s.len(),
{
    if s.len() == 0 {
        true
    } else if is_sep(s[0]) {
        spec_tokens_ok(s.skip(1))
    } else if s.len() >= 3 && is_digit(s[0]) && s[1] == 44 && is_digit(s[2]) && (s.len() == 3
        || is_sep(s[3])) {
        spec_tokens_ok(s.skip(3))
    } else {
        false
    }
}

/// The texture-coordinate pairs read from the text, token by token
/// (meaningful only when `spec_tokens_ok` holds).
pub open spec fn spec_coords(s: Seq<u8>) -> Seq<(u16, u16)>
    decreases s.len(),
{
    if s.len() == 0 {
        Seq::empty()
    } else if is_sep(s[0]) {
        spec_coords(s.skip(1))
    } else if s.len() >= 3 && is_digit(s[0]) && s[1] == 44 && is_digit(s[2]) && (s.len() == 3
        || is_sep(s[3])) {
        seq![(((s[0] - 48) as u16, (s[2] - 48) as u16))] + spec_coords(s.skip(3))
    } else {
        Seq::empty()
    }
}

/// Every texture coordinate a level text yields is a single digit.
pub proof fn lemma_coords_digits(s: Seq<u8>)
    requires
        spec_tokens_ok(s),
    ensures
        forall|j: int|
            0 <= j < spec_coords(s).len() ==> (#[trigger] spec_coords(s)[j]).0 <= 9 && spec_coords(
                s,
            )[j].1 <= 9,
    decreases s.len(),
{
    if s.len() == 0 {
    } else if is_sep(s[0]) {
        lemma_coords_digits(s.skip(1));
        assert forall|j: int|
            0 <= j < spec_coords(s).len() implies (#[trigger] spec_coords(s)[j]).0 <= 9
            && spec_coords(s)[j].1 <= 9 by {
            assert(spec_coords(s)[j] == spec_coords(s.skip(1))[j]);
        }
    } else {
        lemma_coords_digits(s.skip(3));
        assert(is_digit(s[0]) && is_digit(s[2]));
        assert forall|j: int|
            0 <= j < spec_coords(s).len() implies (#[trigger] spec_coords(s)[j]).0 <= 9
            && spec_coords(s)[j].1 <= 9 by {
            if j > 0 {
                assert(spec_coords(s)[j] == spec_coords(s.skip(3))[j - 1]);
            } else {
                assert(spec_coords(s)[0] == (((s[0] - 48) as u16, (s[2] - 48) as u16)));
            }
        }
    }
}

/// A well-formed text holds at least three bytes per token.
pub proof fn lemma_coords_len(s: Seq<u8>)
    requires
        spec_tokens_ok(s),
    ensures
        3 * spec_coords(s).len() <= s.len(),
    decreases s.len(),
{
    if s.len() == 0 {
    } else if is_sep(s[0]) {
        lemma_coords_len(s.skip(1));
    } else {
        lemma_coords_len(s.skip(3));
    }
}

/// The center of grid cell `j` for the given cell size and column count:
/// cells advance left to right, wrapping upward to the next row, starting
/// half a cell away from the origin.
pub open spec fn spec_cell_x(j: int, ts: int, cols: int) -> int {
    ts / 2 + (j % cols) * ts
}

pub open spec fn spec_cell_y(j: int, ts: int, cols: int) -> int {
    ts / 2 + (j / cols) * ts
}

/// The tile emitted for texture coordinate `c` in grid cell `j`: half-height
/// coordinates give a half-height box shifted a quarter cell toward the top
/// or bottom of the cell, all others a full square.
pub open spec fn spec_tile(c: (u16, u16), j: int, ts: int, cols: int) -> SpriteTile {
    let x = spec_cell_x(j, ts, cols) as i64;
    let y = spec_cell_y(j, ts, cols) as i64;
    let collision = if crate::tile::spec_is_top_half(c) {
        Aabb {
            center: Vec2 { x, y: (y + ts / 4) as i64 },
            size: Vec2 { x: ts as i64, y: (ts / 2) as i64 },
        }
    } else if crate::tile::spec_is_bottom_half(c) {
        Aabb {
            center: Vec2 { x, y: (y - ts / 4) as i64 },
            size: Vec2 { x: ts as i64, y: (ts / 2) as i64 },
        }
    } else {
        Aabb { center: Vec2 { x, y }, size: Vec2 { x: ts as i64, y: ts as i64 } }
    };
    SpriteTile { collision, tex_coord: c, kind: spec_classify(c) }
}

/// Reads the texture-coordinate pairs out of a level text, or rejects it
/// when some token is not a `digit , digit` triple.
fn parse_coords(text: &[u8]) -> (r: Result<Vec<(u16, u16)>, LevelError>)
    requires
        text@.len() <= 0x2_0000,
    ensures
        match r {
            Ok(v) => spec_tokens_ok(text@) && v@ == spec_coords(text@),
            Err(_) => !spec_tokens_ok(text@),
        },
{
    let len = text.len();
    let mut acc: Vec<(u16, u16)> = Vec::new();
    let mut i: usize = 0;
    proof {
        assert(text@.skip(0) =~= text@);
        assert(acc@ + spec_coords(text@) =~= spec_coords(text@));
    }
    while i < len
        invariant
            i <= len,
            len == text@.len(),
            len <= 0x2_0000,
            spec_tokens_ok(text@) == spec_tokens_ok(text@.skip(i as int)),
            spec_tokens_ok(text@.skip(i as int)) ==> spec_coords(text@) == acc@ + spec_coords(
                text@.skip(i as int)),
        decreases len - i,
    {
        let ghost rest = text@.skip(i as int);
        let c = text[i];
        if c == 32 || c == 10 || c == 40 || c == 41 {
            proof {
                assert(rest.skip(1) =~= text@.skip(i as int + 1));
            }
            i = i + 1;
        } else if 48 <= c && c <= 57 && i + 2 < len && text[i + 1] == 44 && 48 <= text[i + 2]
            && text[i + 2] <= 57 && (i + 3 == len || {
            let d = text[i + 3];
            d == 32 || d == 10 || d == 40 || d == 41
        }) {
            let pair = ((c - 48) as u16, (text[i + 2] - 48) as u16);
            proof {
                assert(rest.len() >= 3);
                assert(rest[0] == text@[i as int]);
                assert(rest[1] == text@[i as int + 1]);
                assert(rest[2] == text@[i as int + 2]);
                assert(rest.len() > 3 ==> rest[3] == text@[i as int + 3]);
                assert(rest.skip(3) =~= text@.skip(i as int + 3));
                assert(spec_coords(rest) == seq![pair] + spec_coords(rest.skip(3)));
                assert(acc@ + spec_coords(rest) =~= acc@.push(pair) + spec_coords(rest.skip(3)));
            }
            acc.push(pair);
            i = i + 3;
        } else {
            proof {
                assert(!spec_tokens_ok(rest));
            }
            return Err(LevelError::Malformed);
        }
    }
    proof {
        assert(text@.skip(len as int) =~= Seq::<u8>::empty());
        assert(acc@ + spec_coords(text@.skip(len as int)) =~= acc@);
    }
    Ok(acc)
}

/// Appends the tiles of a level text, laid out on a grid of `columns` cells
/// of side `tile_size`, to `collision_objects`, recording in `doors` the
/// index of every door tile. Rejects the text, leaving both vectors
/// unchanged, exactly when some token is malformed.
#[allow(non_snake_case)]
pub fn parse_level_grid(
    collision_objects: &mut Vec<SpriteTile>,
    doors: &mut Vec<u16>,
    text: &[u8],
    tile_size: i64,
    columns: usize,
) -> (r: Result<(), LevelError>)
    requires
        4 <= tile_size <= 0x1_0000,
        tile_size % 4 == 0,
        columns >= 1,
        text@.len() <= 0x2_0000,
        old(collision_objects)@.len() + text@.len() / 3 <= 0xFFFF,
    ensures
        match r {
            Ok(_) => {
                let coords = spec_coords(text@);
                let base = old(collision_objects)@.len() as int;
                &&& spec_tokens_ok(text@)
                &&& final(collision_objects)@.len() == base + coords.len()
                &&& (forall|j: int|
                    0 <= j < base ==> final(collision_objects)@[j] == old(collision_objects)@[j])
                &&& (forall|j: int|
                    0 <= j < coords.len() ==> final(collision_objects)@[base + j] == spec_tile(
                        coords[j],
                        j,
                        tile_size as int,
                        columns as int,
                    ))
                &&& final(doors)@.len() >= old(doors)@.len()
                &&& (forall|j: int|
                    0 <= j < old(doors)@.len() ==> final(doors)@[j] == old(doors)@[j])
                &&& (forall|j: int|
                    old(doors)@.len() <= j < final(doors)@.len() ==> {
                        let d = #[trigger] final(doors)@[j] as int;
                        &&& base <= d < base + coords.len()
                        &&& final(collision_objects)@[d].kind == TileKind::Door
                    })
                &&& (forall|j1: int, j2: int|
                    old(doors)@.len() <= j1 < j2 < final(doors)@.len() ==> final(doors)@[j1]
                        < final(doors)@[j2])
                &&& (forall|i: int|
                    base <= i < base + coords.len() && final(collision_objects)@[i].kind
                        == TileKind::Door ==> final(doors)@.skip(old(doors)@.len() as int).contains(
                        i as u16))
            },
            Err(_) => {
                &&& !spec_tokens_ok(text@)
                &&& final(collision_objects)@ == old(collision_objects)@
                &&& final(doors)@ == old(doors)@
            },
        },
{
    let coords = match parse_coords(text) {
        Ok(v) => v,
        Err(e) => {
            return Err(e);
        },
    };
    proof {
        lemma_coords_len(text@);
    }
    let ghost base = collision_objects@.len() as int;
    let ghost doors_base = doors@.len() as int;
    let count = coords.len();
    let mut j: usize = 0;
    while j < count
        invariant
            j <= count,
            count == spec_coords(text@).len(),
            coords@ == spec_coords(text@),
            4 <= tile_size <= 0x1_0000,
            tile_size % 4 == 0,
            columns >= 1,
            0 <= base,
            base + count <= 0xFFFF,
            collision_objects@.len() == base + j,
            forall|k: int| 0 <= k < base ==> collision_objects@[k] == old(collision_objects)@[k],
            forall|k: int|
                0 <= k < j ==> collision_objects@[base + k] == spec_tile(
                    coords@[k],
                    k,
                    tile_size as int,
                    columns as int,
                ),
            0 <= doors_base <= doors@.len(),
            forall|k: int| 0 <= k < doors_base ==> doors@[k] == old(doors)@[k],
            forall|k: int|
                doors_base <= k < doors@.len() ==> {
                    let d = #[trigger] doors@[k] as int;
                    &&& base <= d < base + j
                    &&& collision_objects@[d].kind == TileKind::Door
                },
            forall|k1: int, k2: int|
                doors_base <= k1 < k2 < doors@.len() ==> doors@[k1] < doors@[k2],
            forall|i: int|
                base <= i < base + j && collision_objects@[i].kind == TileKind::Door
                    ==> doors@.skip(doors_base).contains(i as u16),
        decreases count - j,
    {
        let c = coords[j];
        let jm = j % columns;
        let jd = j / columns;
        proof {
            vstd::arithmetic::div_mod::lemma_mod_decreases(j as nat, columns as nat);
            vstd::arithmetic::div_mod::lemma_div_nonincreasing(j as int, columns as int);
            vstd::arithmetic::div_mod::lemma_div_pos_is_pos(j as int, columns as int);
            assert(jm <= j && jd <= j);
        }
        let col = jm as i64;
        let row = jd as i64;
        proof {
            assert(col * tile_size <= j * tile_size && row * tile_size <= j * tile_size) by (
            nonlinear_arith)
                requires
                    0 <= col <= j,
                    0 <= row <= j,
                    tile_size > 0,
            ;
            assert(j * tile_size <= 0xFFFF * 0x1_0000) by (nonlinear_arith)
                requires
                    0 <= j <= 0xFFFF,
                    0 < tile_size <= 0x1_0000,
            ;
            assert(col * tile_size >= 0 && row * tile_size >= 0) by (nonlinear_arith)
                requires
                    col >= 0,
                    row >= 0,
                    tile_size > 0,
            ;
        }
        let x: i64 = tile_size / 2 + col * tile_size;
        let y: i64 = tile_size / 2 + row * tile_size;
        let quarter = tile_size / 4;
        let half = tile_size / 2;
        let tile = if crate::tile::is_top_half(c) {
            SpriteTile {
                collision: Aabb {
                    center: Vec2 { x, y: y + quarter },
                    size: Vec2 { x: tile_size, y: half },
                },
                tex_coord: c,
                kind: classify(c),
            }
        } else if crate::tile::is_bottom_half(c) {
            SpriteTile {
                collision: Aabb {
                    center: Vec2 { x, y: y - quarter },
                    size: Vec2 { x: tile_size, y: half },
                },
                tex_coord: c,
                kind: classify(c),
            }
        } else {
            SpriteTile {
                collision: Aabb { center: Vec2 { x, y }, size: Vec2 { x: tile_size, y: tile_size } },
                tex_coord: c,
                kind: classify(c),
            }
        };
        proof {
            assert(tile == spec_tile(coords@[j as int], j as int, tile_size as int, columns as int));
        }
        let ghost doors_pre = doors@;
        let is_door_tile = matches!(tile.kind, TileKind::Door);
        if is_door_tile {
            let idx = collision_objects.len() as u16;
            doors.push(idx);
        }
        collision_objects.push(tile);
        proof {
            if is_door_tile {
                assert(doors@ =~= doors_pre.push((base + j) as u16));
                assert(doors@.skip(doors_base) =~= doors_pre.skip(doors_base).push(
                    (base + j) as u16,
                ));
            } else {
                assert(doors@.skip(doors_base) =~= doors_pre.skip(doors_base));
            }
            assert forall|i: int|
                base <= i < base + j + 1 && collision_objects@[i].kind
                    == TileKind::Door implies doors@.skip(doors_base).contains(i as u16) by {
                let suffix_pre = doors_pre.skip(doors_base);
                let suffix = doors@.skip(doors_base);
                if i < base + j {
                    assert(suffix_pre.contains(i as u16));
                    let k = choose|k: int|
                        0 <= k < suffix_pre.len() && suffix_pre[k] == i as u16;
                    assert(suffix[k] == i as u16);
                } else {
                    assert(collision_objects@[i] == tile);
                    assert(suffix[suffix.len() - 1] == (base + j) as u16);
                }
            }
        }
        j = j + 1;
    }
    Ok(())
}

/// Appends the tiles and door indices of a level text using the game's own
/// grid: 32-unit cells, ten columns.
#[allow(non_snake_case)]
pub fn loadLevel(collision_objects: &mut Vec<SpriteTile>, doors: &mut Vec<u16>, text: &[u8]) -> (r:
    Result<(), LevelError>)
    requires
        text@.len() <= 0x2_0000,
        old(collision_objects)@.len() + text@.len() / 3 <= 0xFFFF,
    ensures
        match r {
            Ok(_) => {
                let coords = spec_coords(text@);
                let base = old(collision_objects)@.len() as int;
                &&& spec_tokens_ok(text@)
                &&& final(collision_objects)@.len() == base + coords.len()
                &&& (forall|j: int|
                    0 <= j < base ==> final(collision_objects)@[j] == old(collision_objects)@[j])
                &&& (forall|j: int|
                    0 <= j < coords.len() ==> final(collision_objects)@[base + j] == spec_tile(
                        coords[j],
                        j,
                        LEVEL_TILE_SIZE as int,
                        LEVEL_COLUMNS as int,
                    ))
                &&& (forall|j: int|
                    0 <= j < old(doors)@.len() ==> final(doors)@[j] == old(doors)@[j])
                &&& final(doors)@.len() >= old(doors)@.len()
                &&& (forall|j: int|
                    old(doors)@.len() <= j < final(doors)@.len() ==> {
                        let d = #[trigger] final(doors)@[j] as int;
                        &&& base <= d < base + coords.len()
                        &&& final(collision_objects)@[d].kind == TileKind::Door
                    })
                &&& (forall|i: int|
                    base <= i < base + coords.len() && final(collision_objects)@[i].kind
                        == TileKind::Door ==> final(doors)@.skip(old(doors)@.len() as int).contains(
                        i as u16))
            },
            Err(_) => {
                &&& !spec_tokens_ok(text@)
                &&& final(collision_objects)@ == old(collision_objects)@
                &&& final(doors)@ == old(doors)@
            },
        },
{
    parse_level_grid(collision_objects, doors, text, LEVEL_TILE_SIZE, LEVEL_COLUMNS)
}

} // verus!
