//! The wire-connecting minigame: a 5x5 board of white squares, a palette of
//! five colors, and ten fixed endpoints. Clicking a board square paints it in
//! the selected color; painting every square on a color's wire path records
//! it as correct, and the game is won once every path is complete.

use vstd::prelude::*;
use crate::game::{Game, GameMode, InputState};
use crate::geom::{Aabb, Vec2, MAX_CENTER};
use crate::tile::{getSpriteFromSheet, newSpriteTile_Square, spec_classify, spec_sheet_region, SpriteInstance, SpriteTile};
use crate::{H, W};

verus! {

/// Board columns and rows.
pub const BOARD_SIDE: usize = 5;

/// Grid spacing of the board.
pub const BOARD_CELL: i64 = 35;

/// Center of the leftmost board column.
pub const BOARD_X0: i64 = 90;

/// Center of the topmost board row.
pub const BOARD_Y0: i64 = 190;

/// The sum of all wire-path indices: reached exactly when every path is
/// fully painted.
pub const WIN_SUM: i64 = 164;

/// The five wire colors.
#[derive(Clone, Copy, PartialEq, Eq, Structural, Debug)]
pub enum Color {
    Pink,
    Green,
    Blue,
    Orange,
    Purple,
}

/// State of the wire-connecting minigame.
pub struct ConnectWiresState {
    /// The board squares and their rotation, in eighth-turn steps.
    pub squares: Vec<(SpriteTile, i64)>,
    /// Palette circles, wire endpoints, and every painted square.
    pub palette: Vec<(SpriteTile, i64)>,
    /// Per color, the board indices recorded as correctly painted.
    pub correct: Vec<Vec<i16>>,
    /// The selected color.
    pub color: Color,
    /// The board squares' center positions.
    pub grid: Vec<(i64, i64)>,
    /// Raised on a win; the platformer polls and clears it.
    pub completed: bool,
}

/// Palette position of each color.
pub open spec fn spec_color_index(c: Color) -> int {
    match c {
        Color::Pink => 0,
        Color::Green => 1,
        Color::Blue => 2,
        Color::Orange => 3,
        Color::Purple => 4,
    }
}

/// The color at each palette position.
pub open spec fn spec_color_at(i: int) -> Color {
    if i == 0 {
        Color::Pink
    } else if i == 1 {
        Color::Green
    } else if i == 2 {
        Color::Blue
    } else if i == 3 {
        Color::Orange
    } else {
        Color::Purple
    }
}

/// Texture coordinate a square painted in color `i` is drawn from.
pub open spec fn spec_paint_tex(i: int) -> (u16, u16) {
    if i == 0 {
        (10u16, 2u16)
    } else if i == 1 {
        (9u16, 3u16)
    } else if i == 2 {
        (11u16, 2u16)
    } else if i == 3 {
        (11u16, 3u16)
    } else {
        (10u16, 3u16)
    }
}

/// Texture coordinate of the palette circle of color `i`.
pub open spec fn spec_circle_tex(i: int) -> (u16, u16) {
    if i == 0 {
        (10u16, 4u16)
    } else if i == 1 {
        (9u16, 5u16)
    } else if i == 2 {
        (11u16, 4u16)
    } else if i == 3 {
        (11u16, 5u16)
    } else {
        (10u16, 5u16)
    }
}

/// The board indices that make up each color's wire path.
pub open spec fn spec_wire_indices(i: int) -> Seq<i16> {
    if i == 0 {
        seq![7i16]
    } else if i == 1 {
        seq![17i16, 22i16]
    } else if i == 2 {
        seq![11i16, 12i16, 13i16, 14i16, 19i16, 24i16]
    } else if i == 3 {
        seq![0i16, 1i16, 2i16, 3i16, 4i16]
    } else {
        seq![15i16]
    }
}

/// Center of board cell `k`, row-major from the top-left.
pub open spec fn spec_board_cell(k: int) -> (int, int) {
    (BOARD_X0 + (k % BOARD_SIDE as int) * BOARD_CELL, BOARD_Y0 - (k / BOARD_SIDE as int)
        * BOARD_CELL)
}

/// Center of each initial palette entry: the five color circles, then the
/// ten wire endpoints (two per color).
pub open spec fn spec_palette_center(i: int) -> Vec2 {
    if i == 0 {
        Vec2 { x: 120, y: 230 }
    } else if i == 1 {
        Vec2 { x: 140, y: 230 }
    } else if i == 2 {
        Vec2 { x: 160, y: 230 }
    } else if i == 3 {
        Vec2 { x: 180, y: 230 }
    } else if i == 4 {
        Vec2 { x: 200, y: 230 }
    } else if i == 5 {
        Vec2 { x: 125, y: 155 }
    } else if i == 6 {
        Vec2 { x: 195, y: 155 }
    } else if i == 7 {
        Vec2 { x: 125, y: 50 }
    } else if i == 8 {
        Vec2 { x: 195, y: 85 }
    } else if i == 9 {
        Vec2 { x: 125, y: 85 }
    } else if i == 10 {
        Vec2 { x: 195, y: 50 }
    } else if i == 11 {
        Vec2 { x: 90, y: 155 }
    } else if i == 12 {
        Vec2 { x: 230, y: 155 }
    } else if i == 13 {
        Vec2 { x: 90, y: 120 }
    } else {
        Vec2 { x: 90, y: 50 }
    }
}

/// Texture coordinate of each initial palette entry.
pub open spec fn spec_palette_tex(i: int) -> (u16, u16) {
    if i < 5 {
        spec_circle_tex(i)
    } else {
        spec_circle_tex((i - 5) / 2)
    }
}

impl ConnectWiresState {
    /// Shape every state this module produces keeps: the full board with its
    /// grid of positions, five correctness lists holding distinct indices of
    /// their color's wire path, and bounded boxes throughout.
    pub open spec fn wf(self) -> bool {
        &&& self.squares@.len() == 25
        &&& self.grid@.len() == 25
        &&& self.correct@.len() == 5
        &&& forall|k: int|
            0 <= k < self.squares@.len() ==> (#[trigger] self.squares@[k]).0.collision.bounded()
                && self.squares@[k].0.tex_coord.0 <= 0xFF && self.squares@[k].0.tex_coord.1 <= 0xFF
        &&& forall|k: int|
            0 <= k < self.palette@.len() ==> (#[trigger] self.palette@[k]).0.collision.bounded()
                && self.palette@[k].0.tex_coord.0 <= 0xFF && self.palette@[k].0.tex_coord.1 <= 0xFF
        &&& forall|k: int|
            0 <= k < self.grid@.len() ==> (#[trigger] self.grid@[k]) == (
            self.squares@[k].0.collision.center.x,
            self.squares@[k].0.collision.center.y,
            )
        &&& forall|ci: int|
            0 <= ci < 5 ==> {
                &&& (#[trigger] self.correct@[ci])@.no_duplicates()
                &&& forall|j: int|
                    0 <= j < self.correct@[ci]@.len() ==> spec_wire_indices(ci).contains(
                        #[trigger] self.correct@[ci]@[j],
                    )
            }
    }
}

/// Every correctness list stays within the length of its wire path.
pub proof fn lemma_correct_len(c: Seq<i16>, inds: Seq<i16>)
    requires
        c.no_duplicates(),
        forall|j: int| 0 <= j < c.len() ==> inds.contains(#[trigger] c[j]),
    ensures
        c.len() <= inds.len(),
{
    broadcast use vstd::seq_lib::seq_to_set_is_finite;
    broadcast use vstd::set::group_set_axioms;

    c.unique_seq_to_set();
    assert(c.to_set().subset_of(inds.to_set())) by {
        assert forall|x: i16| c.to_set().contains(x) implies inds.to_set().contains(x) by {
            assert(c.contains(x));
        }
    }
    vstd::set_lib::lemma_len_subset(c.to_set(), inds.to_set());
    inds.lemma_cardinality_of_set();
}

/// A grid position: the cell center `index` steps of `size` away from
/// `start`.
pub fn get_pos(start: i64, size: i64, index: i64) -> (r: i64)
    requires
        -0x1000 <= size <= 0x1000,
        -0x1000 <= index <= 0x1000,
        -MAX_CENTER <= start <= MAX_CENTER,
    ensures
        r == index * size + start,
{
    proof {
        assert(-0x100_0000 <= index * size <= 0x100_0000) by (nonlinear_arith)
            requires
                -0x1000 <= size <= 0x1000,
                -0x1000 <= index <= 0x1000,
        ;
    }
    index * size + start
}

/// Sum of each recorded-index value inside a sequence.
pub open spec fn spec_sum_inner(v: Seq<i16>) -> int
    decreases v.len(),
{
    if v.len() == 0 {
        0
    } else {
        v[0] + spec_sum_inner(v.drop_first())
    }
}

/// Sum over all the correctness lists.
pub open spec fn spec_sum_correct(vv: Seq<Vec<i16>>) -> int
    decreases vv.len(),
{
    if vv.len() == 0 {
        0
    } else {
        spec_sum_inner(vv[0]@) + spec_sum_correct(vv.drop_first())
    }
}

/// Adds up every recorded index over all the correctness lists.
pub fn sum_correct(correct: &Vec<Vec<i16>>) -> (r: i64)
    requires
        correct@.len() <= 8,
        forall|ci: int|
            0 <= ci < correct@.len() ==> (#[trigger] correct@[ci])@.len() <= 8 && forall|j: int|
                0 <= j < correct@[ci]@.len() ==> 0 <= #[trigger] correct@[ci]@[j] <= 24,
    ensures
        r == spec_sum_correct(correct@),
        0 <= r <= 64 * 24,
{
    let n = correct.len();
    let mut acc: i64 = 0;
    let mut ci: usize = 0;
    proof {
        assert(correct@.skip(0) =~= correct@);
    }
    while ci < n
        invariant
            ci <= n,
            n == correct@.len(),
            n <= 8,
            forall|c2: int|
                0 <= c2 < correct@.len() ==> (#[trigger] correct@[c2])@.len() <= 8 && forall|j: int|
                    0 <= j < correct@[c2]@.len() ==> 0 <= #[trigger] correct@[c2]@[j] <= 24,
            0 <= acc <= ci * 8 * 24,
            spec_sum_correct(correct@) == acc + spec_sum_correct(correct@.skip(ci as int)),
        decreases n - ci,
    {
        let v = &correct[ci];
        let m = v.len();
        let mut j: usize = 0;
        proof {
            let rest = correct@.skip(ci as int);
            assert(rest[0] == correct@[ci as int]);
            assert(rest.drop_first() =~= correct@.skip(ci as int + 1));
            assert(v@.skip(0) =~= v@);
        }
        while j < m
            invariant
                j <= m,
                m == v@.len(),
                m <= 8,
                ci < n,
                n <= 8,
                v == &correct[ci as int],
                forall|jj: int| 0 <= jj < v@.len() ==> 0 <= #[trigger] v@[jj] <= 24,
                0 <= acc <= (ci * 8 + j) * 24,
                spec_sum_correct(correct@) == acc + spec_sum_inner(v@.skip(j as int))
                    + spec_sum_correct(correct@.skip(ci as int + 1)),
            decreases m - j,
        {
            let ghost rest = v@.skip(j as int);
            proof {
                assert(rest[0] == v@[j as int]);
                assert(rest.drop_first() =~= v@.skip(j as int + 1));
            }
            acc = acc + v[j] as i64;
            j = j + 1;
        }
        proof {
            assert(v@.skip(m as int) =~= Seq::<i16>::empty());
        }
        ci = ci + 1;
    }
    proof {
        assert(correct@.skip(n as int) =~= Seq::<Vec<i16>>::empty());
    }
    acc
}

/// Whether the sprite sits at board position `index`, judged by the grid of
/// board centers.
pub fn index_match(sprite: &(SpriteTile, i64), state: &ConnectWiresState, index: i16) -> (r: bool)
    requires
        0 <= index < state.grid@.len(),
    ensures
        r == (state.grid@[index as int].0 == sprite.0.collision.center.x
            && sprite.0.collision.center.y == state.grid@[index as int].1),
{
    let g = state.grid[index as usize];
    g.0 == sprite.0.collision.center.x && sprite.0.collision.center.y == g.1
}

/// Whether the sprite sits on the palette row at the top of the screen.
pub fn palette_match(sprite: &(SpriteTile, i64)) -> (r: bool)
    ensures
        r == (sprite.0.collision.center.y == H - 10),
{
    sprite.0.collision.center.y == H - 10
}

/// Whether the list holds the value.
pub fn contains_i16(v: &Vec<i16>, x: i16) -> (r: bool)
    ensures
        r == v@.contains(x),
{
    let n = v.len();
    let mut i: usize = 0;
    while i < n
        invariant
            i <= n,
            n == v@.len(),
            forall|k: int| 0 <= k < i ==> v@[k] != x,
        decreases n - i,
    {
        if v[i] == x {
            return true;
        }
        i = i + 1;
    }
    false
}

/// A fresh wire-connecting game: palette and endpoints laid out, the board
/// blank, nothing recorded, pink selected.
pub fn initialize() -> (r: ConnectWiresState)
    ensures
        r.wf(),
        !r.completed,
        r.color == Color::Pink,
        r.palette@.len() == 15,
        forall|i: int|
            0 <= i < 15 ==> {
                &&& (#[trigger] r.palette@[i]).0.collision.center == spec_palette_center(i)
                &&& r.palette@[i].0.collision.size.x == (if i < 5 {
                    16i64
                } else {
                    25i64
                })
                &&& r.palette@[i].0.collision.size.y == r.palette@[i].0.collision.size.x
                &&& r.palette@[i].0.tex_coord == spec_palette_tex(i)
                &&& r.palette@[i].1 == 0
            },
        forall|k: int|
            0 <= k < 25 ==> {
                let cell = spec_board_cell(k);
                &&& (#[trigger] r.squares@[k]).0.collision.center == (Vec2 {
                    x: cell.0 as i64,
                    y: cell.1 as i64,
                })
                &&& r.squares@[k].0.collision.size == (Vec2 { x: 30, y: 30 })
                &&& r.squares@[k].0.tex_coord == (1u16, 1u16)
                &&& r.squares@[k].1 == 0
            },
        forall|ci: int| 0 <= ci < 5 ==> (#[trigger] r.correct@[ci])@.len() == 0,
{
    let mut palette: Vec<(SpriteTile, i64)> = Vec::new();
    palette.push((newSpriteTile_Square(W / 2 - 40, H - 10, 16, 10, 4), 0));
    palette.push((newSpriteTile_Square(W / 2 - 20, H - 10, 16, 9, 5), 0));
    palette.push((newSpriteTile_Square(W / 2, H - 10, 16, 11, 4), 0));
    palette.push((newSpriteTile_Square(W / 2 + 20, H - 10, 16, 11, 5), 0));
    palette.push((newSpriteTile_Square(W / 2 + 40, H - 10, 16, 10, 5), 0));

    palette.push((newSpriteTile_Square(get_pos(90, 35, 1), get_pos(190, -35, 1), 25, 10, 4), 0));
    palette.push((newSpriteTile_Square(get_pos(90, 35, 3), get_pos(190, -35, 1), 25, 10, 4), 0));
    palette.push((newSpriteTile_Square(get_pos(90, 35, 1), get_pos(190, -35, 4), 25, 9, 5), 0));
    palette.push((newSpriteTile_Square(get_pos(90, 35, 3), get_pos(190, -35, 3), 25, 9, 5), 0));
    palette.push((newSpriteTile_Square(get_pos(90, 35, 1), get_pos(190, -35, 3), 25, 11, 4), 0));
    palette.push((newSpriteTile_Square(get_pos(90, 35, 3), get_pos(190, -35, 4), 25, 11, 4), 0));
    palette.push((newSpriteTile_Square(get_pos(90, 35, 0), get_pos(190, -35, 1), 25, 11, 5), 0));
    palette.push((newSpriteTile_Square(get_pos(90, 35, 4), get_pos(190, -35, 1), 25, 11, 5), 0));
    palette.push((newSpriteTile_Square(get_pos(90, 35, 0), get_pos(190, -35, 2), 25, 10, 5), 0));
    palette.push((newSpriteTile_Square(get_pos(90, 35, 0), get_pos(190, -35, 4), 25, 10, 5), 0));

    let mut squares: Vec<(SpriteTile, i64)> = Vec::new();
    let mut grid: Vec<(i64, i64)> = Vec::new();
    let mut row: usize = 0;
    while row < BOARD_SIDE
        invariant
            row <= BOARD_SIDE,
            squares@.len() == row * BOARD_SIDE,
            grid@.len() == row * BOARD_SIDE,
            forall|k: int|
                0 <= k < squares@.len() ==> {
                    let cell = spec_board_cell(k);
                    &&& (#[trigger] squares@[k]).0.collision.center == (Vec2 {
                        x: cell.0 as i64,
                        y: cell.1 as i64,
                    })
                    &&& squares@[k].0.collision.size == (Vec2 { x: 30, y: 30 })
                    &&& squares@[k].0.tex_coord == (1u16, 1u16)
                    &&& squares@[k].1 == 0
                },
            forall|k: int|
                0 <= k < grid@.len() ==> (#[trigger] grid@[k]) == (
                squares@[k].0.collision.center.x,
                squares@[k].0.collision.center.y,
                ),
        decreases BOARD_SIDE - row,
    {
        let y: i64 = BOARD_Y0 - (row as i64) * BOARD_CELL;
        let mut col: usize = 0;
        while col < BOARD_SIDE
            invariant
                row < BOARD_SIDE,
                col <= BOARD_SIDE,
                y == BOARD_Y0 - row * BOARD_CELL,
                squares@.len() == row * BOARD_SIDE + col,
                grid@.len() == row * BOARD_SIDE + col,
                forall|k: int|
                    0 <= k < squares@.len() ==> {
                        let cell = spec_board_cell(k);
                        &&& (#[trigger] squares@[k]).0.collision.center == (Vec2 {
                            x: cell.0 as i64,
                            y: cell.1 as i64,
                        })
                        &&& squares@[k].0.collision.size == (Vec2 { x: 30, y: 30 })
                        &&& squares@[k].0.tex_coord == (1u16, 1u16)
                        &&& squares@[k].1 == 0
                    },
                forall|k: int|
                    0 <= k < grid@.len() ==> (#[trigger] grid@[k]) == (
                    squares@[k].0.collision.center.x,
                    squares@[k].0.collision.center.y,
                    ),
            decreases BOARD_SIDE - col,
        {
            let x: i64 = BOARD_X0 + (col as i64) * BOARD_CELL;
            let ghost k = squares@.len() as int;
            squares.push((newSpriteTile_Square(x, y, 30, 1, 1), 0));
            grid.push((x, y));
            proof {
                assert(k % BOARD_SIDE as int == col as int && k / BOARD_SIDE as int
                    == row as int) by (nonlinear_arith)
                    requires
                        k == row * BOARD_SIDE as int + col,
                        0 <= col < BOARD_SIDE as int,
                        0 <= row,
                        BOARD_SIDE as int == 5,
                ;
            }
            col = col + 1;
        }
        row = row + 1;
    }

    let mut correct: Vec<Vec<i16>> = Vec::new();
    let mut ci: usize = 0;
    while ci < 5
        invariant
            ci <= 5,
            correct@.len() == ci,
            forall|c2: int| 0 <= c2 < correct@.len() ==> (#[trigger] correct@[c2])@.len() == 0,
        decreases 5 - ci,
    {
        correct.push(Vec::new());
        ci = ci + 1;
    }

    ConnectWiresState { squares, palette, correct, color: Color::Pink, grid, completed: false }
}

/// Index of the first board square, from `i` on, that contains `p` and shows
/// the blank-square texture; -1 when none does.
pub open spec fn spec_first_square_hit(squares: Seq<(SpriteTile, i64)>, p: Vec2, i: int) -> int
    decreases squares.len() - i,
{
    if i < 0 || i >= squares.len() {
        -1
    } else if squares[i].0.collision.spec_contains(p.x as int, p.y as int) && squares[i].0.tex_coord
        == (1u16, 1u16) {
        i
    } else {
        spec_first_square_hit(squares, p, i + 1)
    }
}

/// The color index of a palette circle texture; -1 for any other texture.
pub open spec fn spec_circle_color(t: (u16, u16)) -> int {
    if t == (10u16, 4u16) {
        0
    } else if t == (9u16, 5u16) {
        1
    } else if t == (11u16, 4u16) {
        2
    } else if t == (11u16, 5u16) {
        3
    } else if t == (10u16, 5u16) {
        4
    } else {
        -1
    }
}

/// The color index of the first palette circle, from `i` on, that contains
/// `p` on the palette row; -1 when none does.
pub open spec fn spec_palette_pick(palette: Seq<(SpriteTile, i64)>, p: Vec2, i: int) -> int
    decreases palette.len() - i,
{
    if i < 0 || i >= palette.len() {
        -1
    } else if palette[i].0.collision.spec_contains(p.x as int, p.y as int)
        && palette[i].0.collision.center.y == H - 10 && spec_circle_color(palette[i].0.tex_coord)
        >= 0 {
        spec_circle_color(palette[i].0.tex_coord)
    } else {
        spec_palette_pick(palette, p, i + 1)
    }
}

/// The correctness list after trying to record each wire-path index in turn:
/// an index joins the list when it is not there yet and the clicked square
/// sits at that board position.
pub open spec fn spec_record_hits(
    cur: Seq<i16>,
    inds: Seq<i16>,
    sqpos: (i64, i64),
    grid: Seq<(i64, i64)>,
) -> Seq<i16>
    decreases inds.len(),
{
    if inds.len() == 0 {
        cur
    } else {
        let e = inds[0];
        let cur2 = if 0 <= e < grid.len() && !cur.contains(e) && grid[e as int].0 == sqpos.0
            && sqpos.1 == grid[e as int].1 {
            cur.push(e)
        } else {
            cur
        };
        spec_record_hits(cur2, inds.drop_first(), sqpos, grid)
    }
}

fn first_square_hit(squares: &Vec<(SpriteTile, i64)>, px: i64, py: i64) -> (r: Option<usize>)
    requires
        forall|i: int| 0 <= i < squares@.len() ==> (#[trigger] squares@[i]).0.collision.bounded(),
        -MAX_CENTER <= px <= MAX_CENTER,
        -MAX_CENTER <= py <= MAX_CENTER,
    ensures
        match r {
            Some(i) => i < squares@.len() && spec_first_square_hit(
                squares@,
                Vec2 { x: px, y: py },
                0,
            ) == i,
            None => spec_first_square_hit(squares@, Vec2 { x: px, y: py }, 0) == -1,
        },
{
    let ghost p = Vec2 { x: px, y: py };
    let n = squares.len();
    let mut i: usize = 0;
    while i < n
        invariant
            i <= n,
            n == squares@.len(),
            forall|k: int| 0 <= k < squares@.len() ==> (#[trigger] squares@[k]).0.collision.bounded(),
            -MAX_CENTER <= px <= MAX_CENTER,
            -MAX_CENTER <= py <= MAX_CENTER,
            p == (Vec2 { x: px, y: py }),
            spec_first_square_hit(squares@, p, 0) == spec_first_square_hit(squares@, p, i as int),
        decreases n - i,
    {
        let sq = &squares[i];
        if sq.0.collision.contains(px, py) && sq.0.tex_coord.0 == 1 && sq.0.tex_coord.1 == 1 {
            proof {
                assert(spec_first_square_hit(squares@, p, i as int) == i as int);
            }
            return Some(i);
        }
        proof {
            assert(spec_first_square_hit(squares@, p, i as int) == spec_first_square_hit(
                squares@,
                p,
                i as int + 1,
            ));
        }
        i = i + 1;
    }
    None
}

fn palette_pick(palette: &Vec<(SpriteTile, i64)>, px: i64, py: i64) -> (r: Option<usize>)
    requires
        forall|i: int| 0 <= i < palette@.len() ==> (#[trigger] palette@[i]).0.collision.bounded(),
        -MAX_CENTER <= px <= MAX_CENTER,
        -MAX_CENTER <= py <= MAX_CENTER,
    ensures
        match r {
            Some(ci) => ci < 5 && spec_palette_pick(palette@, Vec2 { x: px, y: py }, 0)
                == ci as int,
            None => spec_palette_pick(palette@, Vec2 { x: px, y: py }, 0) == -1,
        },
{
    let ghost p = Vec2 { x: px, y: py };
    let n = palette.len();
    let mut i: usize = 0;
    while i < n
        invariant
            i <= n,
            n == palette@.len(),
            forall|k: int| 0 <= k < palette@.len() ==> (#[trigger] palette@[k]).0.collision.bounded(),
            -MAX_CENTER <= px <= MAX_CENTER,
            -MAX_CENTER <= py <= MAX_CENTER,
            p == (Vec2 { x: px, y: py }),
            spec_palette_pick(palette@, p, 0) == spec_palette_pick(palette@, p, i as int),
        decreases n - i,
    {
        let e = &palette[i];
        if e.0.collision.contains(px, py) && e.0.collision.center.y == H - 10 {
            let t = e.0.tex_coord;
            let ci: i64 = if t.0 == 10 && t.1 == 4 {
                0
            } else if t.0 == 9 && t.1 == 5 {
                1
            } else if t.0 == 11 && t.1 == 4 {
                2
            } else if t.0 == 11 && t.1 == 5 {
                3
            } else if t.0 == 10 && t.1 == 5 {
                4
            } else {
                -1
            };
            if ci >= 0 {
                proof {
                    assert(spec_palette_pick(palette@, p, i as int) == ci as int);
                }
                return Some(ci as usize);
            }
        }
        proof {
            assert(spec_palette_pick(palette@, p, i as int) == spec_palette_pick(
                palette@,
                p,
                i as int + 1,
            ));
        }
        i = i + 1;
    }
    None
}

/// The palette index of a color.
pub fn color_index(c: Color) -> (r: usize)
    ensures
        r == spec_color_index(c),
        r < 5,
{
    match c {
        Color::Pink => 0,
        Color::Green => 1,
        Color::Blue => 2,
        Color::Orange => 3,
        Color::Purple => 4,
    }
}

/// The board indices of a color's wire path.
fn wire_indices_vec(ci: usize) -> (r: Vec<i16>)
    requires
        ci < 5,
    ensures
        r@ == spec_wire_indices(ci as int),
{
    let mut v: Vec<i16> = Vec::new();
    if ci == 0 {
        v.push(7);
        proof {
            assert(v@ =~= spec_wire_indices(0));
        }
    } else if ci == 1 {
        v.push(17);
        v.push(22);
        proof {
            assert(v@ =~= spec_wire_indices(1));
        }
    } else if ci == 2 {
        v.push(11);
        v.push(12);
        v.push(13);
        v.push(14);
        v.push(19);
        v.push(24);
        proof {
            assert(v@ =~= spec_wire_indices(2));
        }
    } else if ci == 3 {
        v.push(0);
        v.push(1);
        v.push(2);
        v.push(3);
        v.push(4);
        proof {
            assert(v@ =~= spec_wire_indices(3));
        }
    } else {
        v.push(15);
        proof {
            assert(v@ =~= spec_wire_indices(4));
        }
    }
    v
}

/// Every wire path has at most six indices, all board positions.
pub proof fn lemma_wire_bounds(ci: int)
    requires
        0 <= ci < 5,
    ensures
        spec_wire_indices(ci).len() <= 6,
        forall|j: int|
            0 <= j < spec_wire_indices(ci).len() ==> 0 <= #[trigger] spec_wire_indices(ci)[j] <= 24,
{
    if ci == 0 {
        assert(spec_wire_indices(0) =~= seq![7i16]);
    } else if ci == 1 {
        assert(spec_wire_indices(1) =~= seq![17i16, 22i16]);
    } else if ci == 2 {
        assert(spec_wire_indices(2) =~= seq![11i16, 12i16, 13i16, 14i16, 19i16, 24i16]);
    } else if ci == 3 {
        assert(spec_wire_indices(3) =~= seq![0i16, 1i16, 2i16, 3i16, 4i16]);
    } else {
        assert(spec_wire_indices(4) =~= seq![15i16]);
    }
}

/// The color selected at palette position `i`.
pub fn color_at(i: usize) -> (r: Color)
    requires
        i < 5,
    ensures
        r == spec_color_at(i as int),
{
    if i == 0 {
        Color::Pink
    } else if i == 1 {
        Color::Green
    } else if i == 2 {
        Color::Blue
    } else if i == 3 {
        Color::Orange
    } else {
        Color::Purple
    }
}

fn clone_row(v: &Vec<i16>) -> (r: Vec<i16>)
    ensures
        r@ == v@,
{
    let n = v.len();
    let mut r: Vec<i16> = Vec::new();
    let mut i: usize = 0;
    while i < n
        invariant
            i <= n,
            n == v@.len(),
            r@.len() == i,
            forall|k: int| 0 <= k < i ==> r@[k] == v@[k],
        decreases n - i,
    {
        r.push(v[i]);
        i = i + 1;
    }
    proof {
        assert(r@ =~= v@);
    }
    r
}

/// One tick of the wire-connecting game. A complete set of recorded wire
/// paths (their indices summing to the winning total) raises `completed` and
/// returns to the platformer; the cancel key abandons the game. Otherwise a
/// click on a blank board square paints it in the selected color and records
/// any wire-path index of that color sitting at the clicked position, and a
/// click on a palette circle selects that color.
#[verifier::rlimit(100)]
#[verifier::spinoff_prover]
pub fn update_connect_wires(game: &mut Game, input: &InputState)
    requires
        old(game).wf(),
        input.wf(),
    ensures
        final(game).wf(),
        final(game).guy == old(game).guy,
        final(game).level == old(game).level,
        final(game).collision_objects == old(game).collision_objects,
        final(game).doors == old(game).doors,
        final(game).simon_says == old(game).simon_says,
        final(game).mining == old(game).mining,
        final(game).connect_wires.squares == old(game).connect_wires.squares,
        final(game).connect_wires.grid == old(game).connect_wires.grid,
        ({
            let s = old(game).connect_wires;
            let t = final(game).connect_wires;
            let won = spec_sum_correct(s.correct@) == WIN_SUM;
            &&& (won ==> t.completed && final(game).mode == GameMode::Platformer && t.palette
                == s.palette && t.correct == s.correct && t.color == s.color)
            &&& (!won && input.cancel ==> final(game).mode == GameMode::Platformer && t.palette
                == s.palette && t.correct == s.correct && t.color == s.color && t.completed
                == s.completed)
            &&& (!won && !input.cancel && input.click is None ==> t == s && final(game).mode == old(
                game,
            ).mode)
            &&& (!won && !input.cancel ==> match input.click {
                Some(p) => {
                    let hit = spec_first_square_hit(s.squares@, p, 0);
                    let ci = spec_color_index(s.color);
                    let pick = spec_palette_pick(t.palette@, p, 0);
                    &&& final(game).mode == old(game).mode
                    &&& t.completed == s.completed
                    &&& (hit == -1 ==> t.palette == s.palette && t.correct == s.correct)
                    &&& (hit >= 0 ==> {
                        let sqc = s.squares@[hit].0.collision.center;
                        &&& t.palette@ == s.palette@.push(
                            (
                                SpriteTile {
                                    collision: Aabb {
                                        center: sqc,
                                        size: Vec2 { x: 30, y: 30 },
                                    },
                                    tex_coord: spec_paint_tex(ci),
                                    kind: spec_classify(spec_paint_tex(ci)),
                                },
                                0i64,
                            ),
                        )
                        &&& t.correct@.len() == 5
                        &&& t.correct@[ci]@ == spec_record_hits(
                            s.correct@[ci]@,
                            spec_wire_indices(ci),
                            (sqc.x, sqc.y),
                            s.grid@,
                        )
                        &&& (forall|c2: int|
                            0 <= c2 < 5 && c2 != ci ==> #[trigger] t.correct@[c2]
                                == s.correct@[c2])
                    })
                    &&& t.color == (if pick >= 0 {
                        spec_color_at(pick)
                    } else {
                        s.color
                    })
                },
                None => true,
            })
        }),
{
    proof {
        assert forall|ci: int|
            0 <= ci < game.connect_wires.correct@.len() implies (#[trigger] game.connect_wires.correct@[ci])@.len()
            <= 8 && forall|j: int|
            0 <= j < game.connect_wires.correct@[ci]@.len() ==> 0
                <= #[trigger] game.connect_wires.correct@[ci]@[j] <= 24 by {
            lemma_wire_bounds(ci);
            lemma_correct_len(game.connect_wires.correct@[ci]@, spec_wire_indices(ci));
            assert forall|j: int|
                0 <= j < game.connect_wires.correct@[ci]@.len() implies 0
                <= #[trigger] game.connect_wires.correct@[ci]@[j] <= 24 by {
                let e = game.connect_wires.correct@[ci]@[j];
                assert(spec_wire_indices(ci).contains(e));
                let w = choose|w: int|
                    0 <= w < spec_wire_indices(ci).len() && spec_wire_indices(ci)[w] == e;
            }
        }
    }
    let s = sum_correct(&game.connect_wires.correct);
    if s == WIN_SUM {
        game.connect_wires.completed = true;
        game.mode = GameMode::Platformer;
        return ;
    }
    if input.cancel {
        game.mode = GameMode::Platformer;
        return ;
    }
    match input.click {
        None => {},
        Some(p) => {
            match first_square_hit(&game.connect_wires.squares, p.x, p.y) {
                Some(hi) => {
                    let ci = color_index(game.connect_wires.color);
                    let sq = game.connect_wires.squares[hi];
                    let tex: (u16, u16) = if ci == 0 {
                        (10, 2)
                    } else if ci == 1 {
                        (9, 3)
                    } else if ci == 2 {
                        (11, 2)
                    } else if ci == 3 {
                        (11, 3)
                    } else {
                        (10, 3)
                    };
                    let cx = sq.0.collision.center.x;
                    let cy = sq.0.collision.center.y;
                    game.connect_wires.palette.push(
                        (newSpriteTile_Square(cx, cy, 30, tex.0, tex.1), 0),
                    );
                    let inds = wire_indices_vec(ci);
                    let mut row = clone_row(&game.connect_wires.correct[ci]);
                    let ghost orig_row = row@;
                    let ghost sqpos = (cx, cy);
                    let ghost grid_view = game.connect_wires.grid@;
                    proof {
                        lemma_wire_bounds(ci as int);
                        assert(inds@.skip(0) =~= inds@);
                    }
                    let m = inds.len();
                    let mut j: usize = 0;
                    while j < m
                        invariant
                            j <= m,
                            m == inds@.len(),
                            ci < 5,
                            inds@ == spec_wire_indices(ci as int),
                            forall|k: int|
                                0 <= k < inds@.len() ==> 0 <= #[trigger] inds@[k] <= 24,
                            grid_view == game.connect_wires.grid@,
                            grid_view.len() == 25,
                            sqpos == (sq.0.collision.center.x, sq.0.collision.center.y),
                            spec_record_hits(orig_row, spec_wire_indices(ci as int), sqpos, grid_view)
                                == spec_record_hits(row@, inds@.skip(j as int), sqpos, grid_view),
                            row@.no_duplicates(),
                            forall|k: int|
                                0 <= k < row@.len() ==> spec_wire_indices(ci as int).contains(
                                    #[trigger] row@[k],
                                ),
                            game.connect_wires.grid@.len() == 25,
                        decreases m - j,
                    {
                        let ghost rest = inds@.skip(j as int);
                        let ghost row_at_start = row@;
                        proof {
                            assert(rest[0] == inds@[j as int]);
                            assert(rest.drop_first() =~= inds@.skip(j as int + 1));
                        }
                        let e = inds[j];
                        if !contains_i16(&row, e) && index_match(&sq, &game.connect_wires, e) {
                            let ghost row_pre = row@;
                            row.push(e);
                            proof {
                                assert(row@ == row_pre.push(e));
                                assert(row@.no_duplicates()) by {
                                    assert(forall|k: int|
                                        0 <= k < row_pre.len() ==> row_pre[k] != e);
                                }
                                assert(inds@.contains(e)) by {
                                    assert(inds@[j as int] == e);
                                }
                            }
                        }
                        proof {
                            let e0 = rest[0];
                            let cur2 = if 0 <= e0 < grid_view.len() && !row_at_start.contains(e0)
                                && grid_view[e0 as int].0 == sqpos.0 && sqpos.1
                                == grid_view[e0 as int].1 {
                                row_at_start.push(e0)
                            } else {
                                row_at_start
                            };
                            assert(row@ == cur2);
                            assert(spec_record_hits(row_at_start, rest, sqpos, grid_view)
                                == spec_record_hits(cur2, rest.drop_first(), sqpos, grid_view));
                        }
                        j = j + 1;
                    }
                    proof {
                        assert(inds@.skip(m as int) =~= Seq::<i16>::empty());
                    }
                    game.connect_wires.correct.set(ci, row);
                },
                None => {},
            }
            match palette_pick(&game.connect_wires.palette, p.x, p.y) {
                Some(pi) => {
                    game.connect_wires.color = color_at(pi);
                },
                None => {},
            }
        },
    }
}

/// The sprites of one wire-connecting frame: the background, the palette
/// (latest paint first), and the board squares. In any other mode this game
/// draws nothing.
pub fn render_connect_wires(game: &Game) -> (r: Vec<SpriteInstance>)
    requires
        game.wf(),
    ensures
        game.mode != GameMode::ConnectWires ==> r@.len() == 0,
        game.mode == GameMode::ConnectWires ==> {
            let plen = game.connect_wires.palette@.len() as int;
            &&& r@.len() == 1 + plen + game.connect_wires.squares@.len()
            &&& r@[0] == (SpriteInstance {
                area: Aabb {
                    center: Vec2 { x: (W / 2) as i64, y: (H / 2) as i64 },
                    size: Vec2 { x: W, y: H },
                },
                rot: 0,
                region: spec_sheet_region(3, (131u16, 62u16), 8, 1),
            })
            &&& (forall|i: int|
                0 <= i < plen ==> r@[i + 1] == (SpriteInstance {
                    area: (#[trigger] game.connect_wires.palette@[plen - 1 - i]).0.collision,
                    rot: game.connect_wires.palette@[plen - 1 - i].1,
                    region: spec_sheet_region(
                        3,
                        game.connect_wires.palette@[plen - 1 - i].0.tex_coord,
                        1,
                        17,
                    ),
                }))
            &&& (forall|k: int|
                0 <= k < game.connect_wires.squares@.len() ==> r@[1 + plen + k]
                    == (SpriteInstance {
                    area: (#[trigger] game.connect_wires.squares@[k]).0.collision,
                    rot: game.connect_wires.squares@[k].1,
                    region: spec_sheet_region(
                        3,
                        game.connect_wires.squares@[k].0.tex_coord,
                        2,
                        17,
                    ),
                }))
        },
{
    let mut r: Vec<SpriteInstance> = Vec::new();
    if !matches!(game.mode, GameMode::ConnectWires) {
        return r;
    }
    r.push(
        SpriteInstance {
            area: Aabb { center: Vec2 { x: W / 2, y: H / 2 }, size: Vec2 { x: W, y: H } },
            rot: 0,
            region: getSpriteFromSheet(3, &(131, 62), 8, 1),
        },
    );
    let plen = game.connect_wires.palette.len();
    let mut i: usize = 0;
    while i < plen
        invariant
            i <= plen,
            plen == game.connect_wires.palette@.len(),
            game.wf(),
            game.mode == GameMode::ConnectWires,
            r@.len() == i + 1,
            r@[0] == (SpriteInstance {
                area: Aabb {
                    center: Vec2 { x: (W / 2) as i64, y: (H / 2) as i64 },
                    size: Vec2 { x: W, y: H },
                },
                rot: 0,
                region: spec_sheet_region(3, (131u16, 62u16), 8, 1),
            }),
            forall|k: int|
                0 <= k < i ==> r@[k + 1] == (SpriteInstance {
                    area: (#[trigger] game.connect_wires.palette@[plen - 1 - k]).0.collision,
                    rot: game.connect_wires.palette@[plen - 1 - k].1,
                    region: spec_sheet_region(
                        3,
                        game.connect_wires.palette@[plen - 1 - k].0.tex_coord,
                        1,
                        17,
                    ),
                }),
        decreases plen - i,
    {
        let e = game.connect_wires.palette[plen - 1 - i];
        r.push(
            SpriteInstance {
                area: e.0.collision,
                rot: e.1,
                region: getSpriteFromSheet(3, &e.0.tex_coord, 1, 17),
            },
        );
        i = i + 1;
    }
    let slen = game.connect_wires.squares.len();
    let mut k: usize = 0;
    while k < slen
        invariant
            k <= slen,
            slen == game.connect_wires.squares@.len(),
            plen == game.connect_wires.palette@.len(),
            game.wf(),
            game.mode == GameMode::ConnectWires,
            r@.len() == 1 + plen + k,
            r@[0] == (SpriteInstance {
                area: Aabb {
                    center: Vec2 { x: (W / 2) as i64, y: (H / 2) as i64 },
                    size: Vec2 { x: W, y: H },
                },
                rot: 0,
                region: spec_sheet_region(3, (131u16, 62u16), 8, 1),
            }),
            forall|j: int|
                0 <= j < plen ==> r@[j + 1] == (SpriteInstance {
                    area: (#[trigger] game.connect_wires.palette@[plen - 1 - j]).0.collision,
                    rot: game.connect_wires.palette@[plen - 1 - j].1,
                    region: spec_sheet_region(
                        3,
                        game.connect_wires.palette@[plen - 1 - j].0.tex_coord,
                        1,
                        17,
                    ),
                }),
            forall|j: int|
                0 <= j < k ==> r@[1 + plen + j] == (SpriteInstance {
                    area: (#[trigger] game.connect_wires.squares@[j]).0.collision,
                    rot: game.connect_wires.squares@[j].1,
                    region: spec_sheet_region(
                        3,
                        game.connect_wires.squares@[j].0.tex_coord,
                        2,
                        17,
                    ),
                }),
        decreases slen - k,
    {
        let e = game.connect_wires.squares[k];
        r.push(
            SpriteInstance {
                area: e.0.collision,
                rot: e.1,
                region: getSpriteFromSheet(3, &e.0.tex_coord, 2, 17),
            },
        );
        k = k + 1;
    }
    r
}

} // verus!
