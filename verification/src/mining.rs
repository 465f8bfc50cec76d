//! The mining minigame: a grid of ice blocks hides a prize; clicking a block
//! wears it down in stages, and clicking the revealed prize enough times
//! completes the game.

use vstd::prelude::*;
use crate::game::{Game, GameMode, InputState};
use crate::geom::{Aabb, Vec2};
use crate::rng::rand_upto;
use crate::tile::{getSpriteFromSheet, newSpriteTile_Square, spec_sheet_region, SpriteInstance, SpriteTile};

verus! {

/// Columns of ice blocks.
pub const MINING_COLS: usize = 13;

/// Rows of ice blocks.
pub const MINING_ROWS: usize = 9;

/// Center of the leftmost column.
pub const MINING_X0: i64 = 13;

/// Center of the topmost row.
pub const MINING_Y0: i64 = 215;

/// Grid spacing and ice block side length.
pub const MINING_CELL: i64 = 25;

/// Clicks on the hidden prize before it is revealed.
pub const PRIZE_REVEAL_HITS: usize = 3;

/// State of the mining minigame. `obstacles[0]` is the prize; the rest are
/// the ice blocks, row-major from the top-left.
pub struct MiningState {
    /// Sprites and their rotation, in eighth-turn steps.
    pub obstacles: Vec<(SpriteTile, i64)>,
    pub completed: bool,
    /// Where the prize was placed.
    pub prize: (i64, i64),
    /// Cell center positions with a hit counter.
    pub grid: Vec<(i64, i64, i32)>,
    /// Clicks the prize has taken.
    pub prize_hits: usize,
}

/// Center of mining grid cell (row, col).
pub open spec fn spec_mining_cell(row: int, col: int) -> (int, int) {
    (MINING_X0 + col * MINING_CELL, MINING_Y0 - row * MINING_CELL)
}

/// The texture coordinates the prize can be drawn from.
pub open spec fn spec_is_prize_tex(t: (u16, u16)) -> bool {
    ||| t == (12u16, 0u16)
    ||| t == (13u16, 1u16)
    ||| t == (14u16, 1u16)
    ||| t == (14u16, 2u16)
    ||| t == (14u16, 5u16)
}

impl MiningState {
    /// Shape every state this module produces keeps: the prize followed by
    /// the full grid of blocks, all boxes bounded.
    pub open spec fn wf(self) -> bool {
        &&& self.obstacles@.len() == 1 + MINING_ROWS * MINING_COLS
        &&& forall|i: int|
            0 <= i < self.obstacles@.len() ==> (#[trigger] self.obstacles@[i]).0.collision.bounded()
                && self.obstacles@[i].0.tex_coord.0 <= 0xFF && self.obstacles@[i].0.tex_coord.1
                <= 0xFF
        &&& self.grid@.len() == MINING_ROWS * MINING_COLS
        &&& self.prize_hits <= PRIZE_REVEAL_HITS + 1
    }
}

/// A fresh mining game: the prize at a random cell behind the ice, drawn
/// from a random prize texture, and the full grid of intact ice blocks.
pub fn initialize() -> (r: MiningState)
    ensures
        r.wf(),
        !r.completed,
        r.prize_hits == 0,
        r.obstacles@[0].0.collision.center == (Vec2 { x: r.prize.0, y: r.prize.1 }),
        r.obstacles@[0].0.collision.size.x == 23 && r.obstacles@[0].0.collision.size.y == 23,
        spec_is_prize_tex(r.obstacles@[0].0.tex_coord),
        MINING_X0 <= r.prize.0 <= MINING_X0 + 12 * MINING_CELL,
        MINING_Y0 - 8 * MINING_CELL <= r.prize.1 <= MINING_Y0,
        forall|i: int|
            1 <= i < r.obstacles@.len() ==> {
                let cell = spec_mining_cell((i - 1) / MINING_COLS as int, (i - 1) % MINING_COLS as int);
                &&& (#[trigger] r.obstacles@[i]).0.collision.center == (Vec2 { x: cell.0 as i64, y: cell.1 as i64 })
                &&& r.obstacles@[i].0.collision.size == (Vec2 { x: MINING_CELL, y: MINING_CELL })
                &&& r.obstacles@[i].0.tex_coord == (6u16, 11u16)
                &&& r.obstacles@[i].1 == 0
            },
        forall|i: int|
            0 <= i < r.grid@.len() ==> {
                let cell = spec_mining_cell(i / MINING_COLS as int, i % MINING_COLS as int);
                (#[trigger] r.grid@[i]) == (cell.0 as i64, cell.1 as i64, 0i32)
            },
{
    let rx = rand_upto(12);
    let ry = rand_upto(8);
    let prize_x: i64 = MINING_X0 + (rx as i64) * MINING_CELL;
    let prize_y: i64 = MINING_Y0 - (ry as i64) * MINING_CELL;
    let tex_pick = rand_upto(4);
    let tex: (u16, u16) = if tex_pick == 0 {
        (12, 0)
    } else if tex_pick == 1 {
        (13, 1)
    } else if tex_pick == 2 {
        (14, 1)
    } else if tex_pick == 3 {
        (14, 2)
    } else {
        (14, 5)
    };
    let mut obstacles: Vec<(SpriteTile, i64)> = Vec::new();
    obstacles.push((newSpriteTile_Square(prize_x, prize_y, 23, tex.0, tex.1), 0));

    let mut grid: Vec<(i64, i64, i32)> = Vec::new();
    let mut row: usize = 0;
    while row < MINING_ROWS
        invariant
            row <= MINING_ROWS,
            obstacles@.len() == 1 + row * MINING_COLS,
            grid@.len() == row * MINING_COLS,
            obstacles@[0].0.collision.center == (Vec2 { x: prize_x, y: prize_y }),
            obstacles@[0].0.collision.size.x == 23 && obstacles@[0].0.collision.size.y == 23,
            obstacles@[0].0.tex_coord == tex,
            spec_is_prize_tex(tex),
            MINING_X0 <= prize_x <= MINING_X0 + 12 * MINING_CELL,
            MINING_Y0 - 8 * MINING_CELL <= prize_y <= MINING_Y0,
            forall|i: int|
                0 <= i < obstacles@.len() ==> (#[trigger] obstacles@[i]).0.collision.bounded(),
            forall|i: int|
                1 <= i < obstacles@.len() ==> {
                    let cell = spec_mining_cell(
                        (i - 1) / MINING_COLS as int,
                        (i - 1) % MINING_COLS as int,
                    );
                    &&& (#[trigger] obstacles@[i]).0.collision.center == (Vec2 {
                        x: cell.0 as i64,
                        y: cell.1 as i64,
                    })
                    &&& obstacles@[i].0.collision.size == (Vec2 { x: MINING_CELL, y: MINING_CELL })
                    &&& obstacles@[i].0.tex_coord == (6u16, 11u16)
                    &&& obstacles@[i].1 == 0
                },
            forall|i: int|
                0 <= i < grid@.len() ==> {
                    let cell = spec_mining_cell(i / MINING_COLS as int, i % MINING_COLS as int);
                    (#[trigger] grid@[i]) == (cell.0 as i64, cell.1 as i64, 0i32)
                },
        decreases MINING_ROWS - row,
    {
        let mut col: usize = 0;
        let y: i64 = MINING_Y0 - (row as i64) * MINING_CELL;
        while col < MINING_COLS
            invariant
                row < MINING_ROWS,
                col <= MINING_COLS,
                y == MINING_Y0 - row * MINING_CELL,
                obstacles@.len() == 1 + row * MINING_COLS + col,
                grid@.len() == row * MINING_COLS + col,
                obstacles@[0].0.collision.center == (Vec2 { x: prize_x, y: prize_y }),
                obstacles@[0].0.collision.size.x == 23 && obstacles@[0].0.collision.size.y == 23,
                obstacles@[0].0.tex_coord == tex,
                spec_is_prize_tex(tex),
                MINING_X0 <= prize_x <= MINING_X0 + 12 * MINING_CELL,
                MINING_Y0 - 8 * MINING_CELL <= prize_y <= MINING_Y0,
                forall|i: int|
                    0 <= i < obstacles@.len() ==> (#[trigger] obstacles@[i]).0.collision.bounded(),
                forall|i: int|
                    1 <= i < obstacles@.len() ==> {
                        let cell = spec_mining_cell(
                            (i - 1) / MINING_COLS as int,
                            (i - 1) % MINING_COLS as int,
                        );
                        &&& (#[trigger] obstacles@[i]).0.collision.center == (Vec2 {
                            x: cell.0 as i64,
                            y: cell.1 as i64,
                        })
                        &&& obstacles@[i].0.collision.size == (Vec2 {
                            x: MINING_CELL,
                            y: MINING_CELL,
                        })
                        &&& obstacles@[i].0.tex_coord == (6u16, 11u16)
                        &&& obstacles@[i].1 == 0
                    },
                forall|i: int|
                    0 <= i < grid@.len() ==> {
                        let cell = spec_mining_cell(i / MINING_COLS as int, i % MINING_COLS as int);
                        (#[trigger] grid@[i]) == (cell.0 as i64, cell.1 as i64, 0i32)
                    },
            decreases MINING_COLS - col,
        {
            let x: i64 = MINING_X0 + (col as i64) * MINING_CELL;
            let idx = obstacles.len();
            obstacles.push((newSpriteTile_Square(x, y, MINING_CELL, 6, 11), 0));
            grid.push((x, y, 0));
            proof {
                let i = idx as int;
                assert((i - 1) / MINING_COLS as int == row as int && (i - 1) % MINING_COLS as int
                    == col as int) by (nonlinear_arith)
                    requires
                        i - 1 == row * MINING_COLS as int + col,
                        0 <= col < MINING_COLS as int,
                        0 <= row,
                        MINING_COLS as int == 13,
                ;
                let g = grid@.len() - 1;
                assert(g / MINING_COLS as int == row as int && g % MINING_COLS as int
                    == col as int) by (nonlinear_arith)
                    requires
                        g == row * MINING_COLS as int + col,
                        0 <= col < MINING_COLS as int,
                        0 <= row,
                        MINING_COLS as int == 13,
                ;
            }
            col = col + 1;
        }
        row = row + 1;
    }
    MiningState { obstacles, completed: false, prize: (prize_x, prize_y), grid, prize_hits: 0 }
}

/// An ice block one click further worn down: intact ice cracks, cracked ice
/// crumbles, crumbled ice disappears (its box collapses); anything else is
/// left alone.
pub open spec fn spec_worn(o: (SpriteTile, i64)) -> (SpriteTile, i64) {
    let t = o.0.tex_coord;
    if t == (6u16, 11u16) {
        (SpriteTile { collision: o.0.collision, tex_coord: (6u16, 12u16), kind: o.0.kind }, o.1)
    } else if t == (6u16, 12u16) {
        (SpriteTile { collision: o.0.collision, tex_coord: (7u16, 12u16), kind: o.0.kind }, o.1)
    } else if t == (7u16, 12u16) {
        (
            SpriteTile {
                collision: Aabb { center: o.0.collision.center, size: Vec2 { x: 0, y: 0 } },
                tex_coord: o.0.tex_coord,
                kind: o.0.kind,
            },
            o.1,
        )
    } else {
        o
    }
}

/// The prize moved to the center of the screen and blown up large, as it is
/// shown once fully uncovered.
pub open spec fn spec_revealed(o: (SpriteTile, i64)) -> (SpriteTile, i64) {
    (
        SpriteTile {
            collision: Aabb { center: Vec2 { x: 140, y: 120 }, size: Vec2 { x: 64, y: 64 } },
            tex_coord: o.0.tex_coord,
            kind: o.0.kind,
        },
        o.1,
    )
}

/// One tick of the mining game. A click wears down every ice block under it;
/// a click on the prize counts toward uncovering it, the click after that
/// reveals it front and center, and one more click on it completes the game
/// and returns to the platformer. The switch key also returns to the
/// platformer.
#[verifier::rlimit(100)]
#[verifier::spinoff_prover]
pub fn update_mining(game: &mut Game, input: &InputState)
    requires
        old(game).wf(),
        input.wf(),
    ensures
        final(game).wf(),
        final(game).guy == old(game).guy,
        final(game).level == old(game).level,
        final(game).collision_objects == old(game).collision_objects,
        final(game).doors == old(game).doors,
        final(game).simon_says == old(game).simon_says,
        final(game).connect_wires == old(game).connect_wires,
        final(game).mining.prize == old(game).mining.prize,
        final(game).mining.grid == old(game).mining.grid,
        ({
            let s = old(game).mining;
            let t = final(game).mining;
            match input.click {
                None => t == s && final(game).mode == (if input.switch {
                    GameMode::Platformer
                } else {
                    old(game).mode
                }),
                Some(p) => {
                    let phit = s.obstacles@[0].0.collision.spec_contains(p.x as int, p.y as int);
                    let uncovering = phit && s.prize_hits > PRIZE_REVEAL_HITS;
                    &&& (uncovering ==> t.completed && t.prize_hits == 0 && final(game).mode
                        == GameMode::Platformer && t.obstacles == s.obstacles)
                    &&& (!uncovering ==> {
                        let o0 = if phit && s.prize_hits == PRIZE_REVEAL_HITS {
                            spec_revealed(s.obstacles@[0])
                        } else {
                            s.obstacles@[0]
                        };
                        &&& final(game).mode == (if input.switch {
                            GameMode::Platformer
                        } else {
                            old(game).mode
                        })
                        &&& t.completed == s.completed
                        &&& t.prize_hits == (if phit {
                            s.prize_hits + 1
                        } else {
                            s.prize_hits as int
                        })
                        &&& t.obstacles@.len() == s.obstacles@.len()
                        &&& t.obstacles@[0] == (if phit {
                            spec_worn(o0)
                        } else {
                            o0
                        })
                        &&& (forall|i: int|
                            1 <= i < s.obstacles@.len() ==> #[trigger] t.obstacles@[i] == (
                            if s.obstacles@[i].0.collision.spec_contains(p.x as int, p.y as int) {
                                spec_worn(s.obstacles@[i])
                            } else {
                                s.obstacles@[i]
                            }))
                    })
                },
            }
        }),
{
    if input.switch {
        game.mode = GameMode::Platformer;
    }
    match input.click {
        None => {},
        Some(p) => {
            let ob0 = game.mining.obstacles[0];
            if ob0.0.collision.contains(p.x, p.y) {
                if game.mining.prize_hits < PRIZE_REVEAL_HITS {
                    game.mining.prize_hits = game.mining.prize_hits + 1;
                } else if game.mining.prize_hits == PRIZE_REVEAL_HITS {
                    game.mining.obstacles.set(0, revealed_exec(ob0));
                    game.mining.prize_hits = game.mining.prize_hits + 1;
                } else {
                    game.mining.completed = true;
                    game.mining.prize_hits = 0;
                    game.mode = GameMode::Platformer;
                    return ;
                }
                let cur0 = game.mining.obstacles[0];
                game.mining.obstacles.set(0, wear_exec(cur0));
            }
            let n = game.mining.obstacles.len();
            let mut i: usize = 1;
            while i < n
                invariant
                    1 <= i <= n,
                    n == game.mining.obstacles@.len(),
                    n == old(game).mining.obstacles@.len(),
                    input.wf(),
                    input.click == Some(p),
                    -crate::geom::MAX_CENTER <= p.x <= crate::geom::MAX_CENTER,
                    -crate::geom::MAX_CENTER <= p.y <= crate::geom::MAX_CENTER,
                    game.mining.obstacles@[0] == final_obstacle0(old(game).mining, p),
                    game.mining.prize_hits == final_prize_hits(old(game).mining, p),
                    game.mining.completed == old(game).mining.completed,
                    game.mining.prize == old(game).mining.prize,
                    game.mining.grid == old(game).mining.grid,
                    game.guy == old(game).guy,
                    game.level == old(game).level,
                    game.mode == (if input.switch {
                        GameMode::Platformer
                    } else {
                        old(game).mode
                    }),
                    game.collision_objects == old(game).collision_objects,
                    game.doors == old(game).doors,
                    game.simon_says == old(game).simon_says,
                    game.connect_wires == old(game).connect_wires,
                    forall|k: int|
                        1 <= k < i ==> #[trigger] game.mining.obstacles@[k] == (
                        if old(game).mining.obstacles@[k].0.collision.spec_contains(
                            p.x as int,
                            p.y as int,
                        ) {
                            spec_worn(old(game).mining.obstacles@[k])
                        } else {
                            old(game).mining.obstacles@[k]
                        }),
                    forall|k: int|
                        i <= k < n ==> #[trigger] game.mining.obstacles@[k] == old(
                        game,
                    ).mining.obstacles@[k],
                    forall|k: int|
                        0 <= k < n ==> (#[trigger] game.mining.obstacles@[k]).0.collision.bounded(),
                decreases n - i,
            {
                let ob = game.mining.obstacles[i];
                if ob.0.collision.contains(p.x, p.y) {
                    game.mining.obstacles.set(i, wear_exec(ob));
                }
                i = i + 1;
            }
        },
    }
}

/// The spec predicates of `update_mining`'s loop, tied down as functions so
/// the loop can speak of the finished prize slot.
pub open spec fn final_obstacle0(s: MiningState, p: Vec2) -> (SpriteTile, i64) {
    let phit = s.obstacles@[0].0.collision.spec_contains(p.x as int, p.y as int);
    let o0 = if phit && s.prize_hits == PRIZE_REVEAL_HITS {
        spec_revealed(s.obstacles@[0])
    } else {
        s.obstacles@[0]
    };
    if phit {
        spec_worn(o0)
    } else {
        o0
    }
}

pub open spec fn final_prize_hits(s: MiningState, p: Vec2) -> int {
    let phit = s.obstacles@[0].0.collision.spec_contains(p.x as int, p.y as int);
    if phit {
        s.prize_hits + 1
    } else {
        s.prize_hits as int
    }
}

/// One click's wear, as executable code.
fn wear_exec(o: (SpriteTile, i64)) -> (r: (SpriteTile, i64))
    requires
        o.0.collision.bounded(),
    ensures
        r == spec_worn(o),
        r.0.collision.bounded(),
{
    let t = o.0.tex_coord;
    if t.0 == 6 && t.1 == 11 {
        (SpriteTile { collision: o.0.collision, tex_coord: (6, 12), kind: o.0.kind }, o.1)
    } else if t.0 == 6 && t.1 == 12 {
        (SpriteTile { collision: o.0.collision, tex_coord: (7, 12), kind: o.0.kind }, o.1)
    } else if t.0 == 7 && t.1 == 12 {
        (
            SpriteTile {
                collision: Aabb { center: o.0.collision.center, size: Vec2 { x: 0, y: 0 } },
                tex_coord: o.0.tex_coord,
                kind: o.0.kind,
            },
            o.1,
        )
    } else {
        o
    }
}

/// The revealed prize, as executable code.
fn revealed_exec(o: (SpriteTile, i64)) -> (r: (SpriteTile, i64))
    ensures
        r == spec_revealed(o),
        r.0.collision.bounded(),
{
    (
        SpriteTile {
            collision: Aabb { center: Vec2 { x: 140, y: 120 }, size: Vec2 { x: 64, y: 64 } },
            tex_coord: o.0.tex_coord,
            kind: o.0.kind,
        },
        o.1,
    )
}

/// The sprites of one mining frame: the background, the prize (drawn closer
/// to the front once it is being uncovered), and every ice block. In any
/// other mode this game draws nothing.
pub fn render_mining(game: &Game) -> (r: Vec<SpriteInstance>)
    requires
        game.wf(),
    ensures
        game.mode != GameMode::Mining ==> r@.len() == 0,
        game.mode == GameMode::Mining ==> {
            let obs = game.mining.obstacles@;
            &&& r@.len() == 1 + obs.len()
            &&& r@[0] == (SpriteInstance {
                area: Aabb {
                    center: Vec2 { x: (crate::W / 2) as i64, y: (crate::H / 2) as i64 },
                    size: Vec2 { x: crate::W, y: crate::H },
                },
                rot: 0,
                region: spec_sheet_region(1, (2u16, 4u16), 16, 256),
            })
            &&& r@[1] == (SpriteInstance {
                area: obs[0].0.collision,
                rot: obs[0].1,
                region: spec_sheet_region(
                    4,
                    obs[0].0.tex_coord,
                    if game.mining.prize_hits >= PRIZE_REVEAL_HITS {
                        13u16
                    } else {
                        15u16
                    },
                    17,
                ),
            })
            &&& (forall|i: int|
                1 <= i < obs.len() ==> r@[i + 1] == (SpriteInstance {
                    area: (#[trigger] obs[i]).0.collision,
                    rot: obs[i].1,
                    region: spec_sheet_region(4, obs[i].0.tex_coord, 14, 17),
                }))
        },
{
    let mut r: Vec<SpriteInstance> = Vec::new();
    if !matches!(game.mode, GameMode::Mining) {
        return r;
    }
    r.push(
        SpriteInstance {
            area: Aabb {
                center: Vec2 { x: crate::W / 2, y: crate::H / 2 },
                size: Vec2 { x: crate::W, y: crate::H },
            },
            rot: 0,
            region: getSpriteFromSheet(1, &(2, 4), 16, 256),
        },
    );
    let ob0 = game.mining.obstacles[0];
    let depth: u16 = if game.mining.prize_hits >= PRIZE_REVEAL_HITS {
        13
    } else {
        15
    };
    r.push(
        SpriteInstance {
            area: ob0.0.collision,
            rot: ob0.1,
            region: getSpriteFromSheet(4, &ob0.0.tex_coord, depth, 17),
        },
    );
    let n = game.mining.obstacles.len();
    let mut i: usize = 1;
    while i < n
        invariant
            1 <= i <= n,
            n == game.mining.obstacles@.len(),
            game.wf(),
            game.mode == GameMode::Mining,
            r@.len() == i + 1,
            r@[0] == (SpriteInstance {
                area: Aabb {
                    center: Vec2 { x: (crate::W / 2) as i64, y: (crate::H / 2) as i64 },
                    size: Vec2 { x: crate::W, y: crate::H },
                },
                rot: 0,
                region: spec_sheet_region(1, (2u16, 4u16), 16, 256),
            }),
            r@[1] == (SpriteInstance {
                area: game.mining.obstacles@[0].0.collision,
                rot: game.mining.obstacles@[0].1,
                region: spec_sheet_region(
                    4,
                    game.mining.obstacles@[0].0.tex_coord,
                    if game.mining.prize_hits >= PRIZE_REVEAL_HITS {
                        13u16
                    } else {
                        15u16
                    },
                    17,
                ),
            }),
            forall|k: int|
                1 <= k < i ==> r@[k + 1] == (SpriteInstance {
                    area: (#[trigger] game.mining.obstacles@[k]).0.collision,
                    rot: game.mining.obstacles@[k].1,
                    region: spec_sheet_region(4, game.mining.obstacles@[k].0.tex_coord, 14, 17),
                }),
        decreases n - i,
    {
        let e = game.mining.obstacles[i];
        r.push(
            SpriteInstance {
                area: e.0.collision,
                rot: e.1,
                region: getSpriteFromSheet(4, &e.0.tex_coord, 14, 17),
            },
        );
        i = i + 1;
    }
    r
}

} // verus!
