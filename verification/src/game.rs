//! The game state and the level/mode state machine: door regions per level,
//! checkpoint updates, manual resets, minigame hand-off and completion
//! polling, and the per-tick platformer update that ties input, physics,
//! level handling and collision resolution together.

use vstd::prelude::*;
use crate::connectwires::ConnectWiresState;
use crate::geom::{Aabb, Vec2, MAX_CENTER};
use crate::guy::{spec_next_frame, spec_vel_y_after, Guy, GUY_HORZ_SPEED, JUMP_VELOCITY};
use crate::level::{loadLevel, spec_coords, spec_tile, spec_tokens_ok, LevelError, LEVEL_COLUMNS, LEVEL_TILE_SIZE};
use crate::mining::MiningState;
use crate::resolver::{no_overlap, resolve_collisions, tiles_ok, RESOLVE_POS_LIMIT};
use crate::simonsays::SimonSaysState;
use crate::tile::{SheetRegion, SpriteInstance, SpriteTile, TileKind};
use crate::{H, W};

verus! {

/// Sound effect ids handed to the embedding program.
pub const SFX_JUMP: u16 = 1;

pub const SFX_DEATH: u16 = 2;

pub const SFX_DOOR: u16 = 7;

/// How many level configurations the game has.
pub const LEVEL_COUNT: usize = 9;

/// Positions the per-tick update accepts.
pub const PLAY_POS_LIMIT: i64 = RESOLVE_POS_LIMIT - 0x100;

/// Which update/render routine runs.
#[derive(Clone, Copy, PartialEq, Eq, Structural, Debug)]
pub enum GameMode {
    Platformer,
    SimonSays,
    ConnectWires,
    Mining,
}

/// A parsed level: its tiles and the indices of its door tiles.
pub struct LevelData {
    pub tiles: Vec<SpriteTile>,
    pub doors: Vec<u16>,
}

impl LevelData {
    /// Tiles the resolver can work against, and a door list that points at
    /// door tiles.
    pub open spec fn wf(self) -> bool {
        &&& tiles_ok(self.tiles@)
        &&& forall|j: int|
            0 <= j < self.doors@.len() ==> (#[trigger] self.doors@[j]) < self.tiles@.len()
                && self.tiles@[self.doors@[j] as int].kind == TileKind::Door
        &&& forall|i: int|
            0 <= i < self.tiles@.len() ==> (#[trigger] self.tiles@[i]).tex_coord.0 <= 9
                && self.tiles@[i].tex_coord.1 <= 9
    }

    /// Parses a level text into a usable level.
    pub fn from_text(text: &[u8]) -> (r: Result<LevelData, LevelError>)
        requires
            text@.len() <= 0x2_0000,
        ensures
            match r {
                Ok(l) => {
                    let coords = spec_coords(text@);
                    &&& l.wf()
                    &&& spec_tokens_ok(text@)
                    &&& l.tiles@.len() == coords.len()
                    &&& (forall|j: int|
                        0 <= j < coords.len() ==> l.tiles@[j] == spec_tile(
                            coords[j],
                            j,
                            LEVEL_TILE_SIZE as int,
                            LEVEL_COLUMNS as int,
                        ))
                    &&& (forall|i: int|
                        0 <= i < l.tiles@.len() && l.tiles@[i].kind == TileKind::Door
                            ==> l.doors@.contains(i as u16))
                },
                Err(_) => !spec_tokens_ok(text@),
            },
    {
        let mut tiles: Vec<SpriteTile> = Vec::new();
        let mut doors: Vec<u16> = Vec::new();
        match loadLevel(&mut tiles, &mut doors, text) {
            Ok(_) => {
                proof {
                    crate::level::lemma_coords_len(text@);
                    crate::level::lemma_coords_digits(text@);
                    let coords = spec_coords(text@);
                    assert forall|j: int| 0 <= j < tiles@.len() implies (#[trigger] tiles@[j]).collision.wf()
                        && tiles@[j].collision.even_sized() && tiles@[j].tex_coord.0 <= 9
                        && tiles@[j].tex_coord.1 <= 9 by {
                        assert(tiles@[j] == spec_tile(
                            coords[j],
                            j,
                            LEVEL_TILE_SIZE as int,
                            LEVEL_COLUMNS as int,
                        ));
                        lemma_level_tile_bounds(coords[j], j);
                        assert((#[trigger] coords[j]).0 <= 9 && coords[j].1 <= 9);
                    }
                    assert(doors@.skip(0) =~= doors@);
                }
                Ok(LevelData { tiles, doors })
            },
            Err(e) => Err(e),
        }
    }
}

/// Any tile the game's own level grid emits is well-formed and even-sized.
proof fn lemma_level_tile_bounds(c: (u16, u16), j: int)
    requires
        0 <= j < 0x1_0000,
    ensures
        spec_tile(c, j, LEVEL_TILE_SIZE as int, LEVEL_COLUMNS as int).collision.wf(),
        spec_tile(c, j, LEVEL_TILE_SIZE as int, LEVEL_COLUMNS as int).collision.even_sized(),
{
    let cols = LEVEL_COLUMNS as int;
    vstd::arithmetic::div_mod::lemma_mod_decreases(j as nat, cols as nat);
    vstd::arithmetic::div_mod::lemma_div_nonincreasing(j, cols);
    vstd::arithmetic::div_mod::lemma_div_pos_is_pos(j, cols);
    assert((j % cols) * 32 <= j * 32 && 0 <= (j % cols) * 32) by (nonlinear_arith)
        requires
            0 <= j % cols <= j,
    ;
    assert((j / cols) * 32 <= j * 32 && 0 <= (j / cols) * 32) by (nonlinear_arith)
        requires
            0 <= j / cols <= j,
    ;
    assert(j * 32 <= 0x1_0000 * 32) by (nonlinear_arith)
        requires
            0 <= j <= 0x1_0000,
    ;
}

/// A full level table: one parsed level per level id.
pub open spec fn levels_wf(levels: Seq<LevelData>) -> bool {
    &&& levels.len() == LEVEL_COUNT
    &&& forall|i: int| 0 <= i < levels.len() ==> (#[trigger] levels[i]).wf()
}

/// One tick's worth of input, as plain values.
#[derive(Clone, Copy, PartialEq, Eq, Debug)]
pub struct InputState {
    /// Horizontal axis: -1, 0 or 1.
    pub horz: i64,
    /// Vertical axis: -1, 0 or 1; positive asks for a jump.
    pub vert: i64,
    /// Send the actor back to its checkpoint.
    pub reset: bool,
    /// Reload the first level and respawn.
    pub reload: bool,
    /// Switch straight into or out of the pattern game.
    pub switch: bool,
    /// Confirm / interact.
    pub confirm: bool,
    /// Cancel / leave.
    pub cancel: bool,
    /// A mouse press, already mapped to world coordinates.
    pub click: Option<Vec2>,
}

impl InputState {
    pub open spec fn wf(self) -> bool {
        &&& -1 <= self.horz <= 1
        &&& -1 <= self.vert <= 1
        &&& match self.click {
            Some(p) => -MAX_CENTER <= p.x <= MAX_CENTER && -MAX_CENTER <= p.y <= MAX_CENTER,
            None => true,
        }
    }

    /// An input with nothing pressed.
    pub fn idle() -> (r: InputState)
        ensures
            r == (InputState {
                horz: 0i64,
                vert: 0i64,
                reset: false,
                reload: false,
                switch: false,
                confirm: false,
                cancel: false,
                click: None::<Vec2>,
            }),
            r.wf(),
    {
        InputState {
            horz: 0,
            vert: 0,
            reset: false,
            reload: false,
            switch: false,
            confirm: false,
            cancel: false,
            click: None,
        }
    }
}

/// What a tick asks the embedding program to do: play these sound effects,
/// in order.
pub struct TickEffects {
    pub sfx: Vec<u16>,
}

/// The whole game state.
pub struct Game {
    pub collision_objects: Vec<SpriteTile>,
    pub doors: Vec<u16>,
    pub guy: Guy,
    pub level: u16,
    pub mode: GameMode,
    pub simon_says: SimonSaysState,
    pub connect_wires: ConnectWiresState,
    pub mining: MiningState,
}

impl Game {
    pub open spec fn wf(self) -> bool {
        &&& tiles_ok(self.collision_objects@)
        &&& forall|j: int|
            0 <= j < self.doors@.len() ==> (#[trigger] self.doors@[j])
                < self.collision_objects@.len() && self.collision_objects@[self.doors@[j] as int].kind
                == TileKind::Door
        &&& forall|i: int|
            0 <= i < self.collision_objects@.len() ==> (#[trigger] self.collision_objects@[i]).tex_coord.0
                <= 9 && self.collision_objects@[i].tex_coord.1 <= 9
        &&& self.guy.wf()
        &&& self.level < LEVEL_COUNT
        &&& self.simon_says.wf()
        &&& self.connect_wires.wf()
        &&& self.mining.wf()
    }
}

fn clone_tiles(v: &Vec<SpriteTile>) -> (r: Vec<SpriteTile>)
    ensures
        r@ == v@,
{
    let n = v.len();
    let mut r: Vec<SpriteTile> = Vec::new();
    let mut i: usize = 0;
    while i < n
        invariant
            i <= n,
            n == v@.len(),
            r@.len() == i,
            forall|k: int| 0 <= k < i ==> r@[k] == v@[k],
        decreases n - i,
    {
        r.push(v[i]);
        i = i + 1;
    }
    proof {
        assert(r@ =~= v@);
    }
    r
}

fn clone_doors(v: &Vec<u16>) -> (r: Vec<u16>)
    ensures
        r@ == v@,
{
    let n = v.len();
    let mut r: Vec<u16> = Vec::new();
    let mut i: usize = 0;
    while i < n
        invariant
            i <= n,
            n == v@.len(),
            r@.len() == i,
            forall|k: int| 0 <= k < i ==> r@[k] == v@[k],
        decreases n - i,
    {
        r.push(v[i]);
        i = i + 1;
    }
    proof {
        assert(r@ =~= v@);
    }
    r
}

/// Discards the current tile set and installs the given level's.
pub fn move_to_level(game: &mut Game, level_num: u16, levels: &Vec<LevelData>)
    requires
        levels_wf(levels@),
        level_num < LEVEL_COUNT,
    ensures
        final(game).level == level_num,
        final(game).collision_objects@ == levels@[level_num as int].tiles@,
        final(game).doors@ == levels@[level_num as int].doors@,
        final(game).guy == old(game).guy,
        final(game).mode == old(game).mode,
        final(game).simon_says == old(game).simon_says,
        final(game).connect_wires == old(game).connect_wires,
        final(game).mining == old(game).mining,
{
    game.level = level_num;
    game.collision_objects = clone_tiles(&levels[level_num as usize].tiles);
    game.doors = clone_doors(&levels[level_num as usize].doors);
}

/// The door region of the starting area's lower door.
pub open spec fn in_l0_bottom_door(c: Vec2) -> bool {
    250 < c.x <= 300 && 70 < c.y < 150
}

/// The door region of the starting area's upper door.
pub open spec fn in_l0_top_door(c: Vec2) -> bool {
    250 < c.x <= 300 && 165 < c.y < 215
}

/// The door region of the top area.
pub open spec fn in_l2_door(c: Vec2) -> bool {
    95 < c.x <= 125 && 165 < c.y < 250
}

/// The door region of the bottom area.
pub open spec fn in_l5_door(c: Vec2) -> bool {
    250 < c.x <= 305 && 160 < c.y < 250
}

/// The door region of the final area.
pub open spec fn in_l7_door(c: Vec2) -> bool {
    c.x < 65 && 30 < c.y < 90
}

/// The level id after one evaluation of the transition table, given the
/// actor's center `c` and the tick's inputs and completion flags. Level ids
/// pair a room with a door state: 0 is the starting area, 1 and 3 the same
/// area with its lower or upper door open, 2 and 4 the top area, 5 and 6 the
/// bottom area, 7 and 8 the final area.
pub open spec fn spec_next_level(
    level: u16,
    c: Vec2,
    confirm: bool,
    cancel: bool,
    simon_done: bool,
    wires_done: bool,
    mining_done: bool,
) -> u16 {
    if level == 0 {
        if in_l0_bottom_door(c) {
            1u16
        } else if in_l0_top_door(c) {
            3u16
        } else {
            0u16
        }
    } else if level == 1 {
        if confirm {
            1u16
        } else {
            let l: u16 = if c.x < 250 {
                0u16
            } else {
                1u16
            };
            if simon_done {
                5u16
            } else {
                l
            }
        }
    } else if level == 3 {
        if confirm {
            3u16
        } else {
            let l: u16 = if c.x < 250 {
                0u16
            } else {
                3u16
            };
            if wires_done {
                2u16
            } else {
                l
            }
        }
    } else if level == 2 {
        if cancel {
            0u16
        } else if in_l2_door(c) {
            4u16
        } else {
            2u16
        }
    } else if level == 4 {
        if confirm {
            7u16
        } else if c.x < 95 {
            2u16
        } else {
            4u16
        }
    } else if level == 5 {
        if cancel {
            0u16
        } else if in_l5_door(c) {
            6u16
        } else {
            5u16
        }
    } else if level == 6 {
        if confirm {
            7u16
        } else if c.x < 250 || c.y < 150 {
            5u16
        } else {
            6u16
        }
    } else if level == 7 {
        if in_l7_door(c) {
            8u16
        } else {
            7u16
        }
    } else if level == 8 {
        if confirm {
            8u16
        } else {
            let l: u16 = if c.x > 65 {
                7u16
            } else {
                8u16
            };
            if mining_done {
                0u16
            } else {
                l
            }
        }
    } else {
        level
    }
}

/// The mode after one evaluation: confirming inside an open door hands
/// control to that door's minigame; the level id itself only changes once
/// the minigame reports completion.
pub open spec fn spec_next_mode(level: u16, mode: GameMode, confirm: bool) -> GameMode {
    if confirm && level == 1 {
        GameMode::SimonSays
    } else if confirm && level == 3 {
        GameMode::ConnectWires
    } else if confirm && level == 8 {
        GameMode::Mining
    } else {
        mode
    }
}

/// The actor's canonical start state.
pub open spec fn spec_reset_guy() -> Guy {
    Guy {
        pos: Vec2 { x: (W / 2) as i64, y: (H / 4) as i64 },
        vel: Vec2 { x: 0, y: 0 },
        grounded: false,
        frame: 0,
        respawn_pos: Vec2 { x: (W / 2) as i64, y: (H / 4) as i64 },
    }
}

/// The actor after one evaluation of the transition table: checkpoint
/// updates in the top, bottom and final areas, and full resets on a cancel
/// there or on the mining game's completion.
pub open spec fn spec_handled_guy(
    g: Guy,
    level: u16,
    confirm: bool,
    cancel: bool,
    mining_done: bool,
) -> Guy {
    if level == 2 {
        let take = (g.pos.y > H / 2 && g.respawn_pos == (Vec2 {
            x: (W / 2) as i64,
            y: (H / 4) as i64,
        })) || (g.pos.y < H / 4 && g.pos.x > 256) || (g.pos.y < H / 4 && 3 * g.pos.x < 320);
        let g1 = if take {
            Guy {
                pos: g.pos,
                vel: g.vel,
                grounded: g.grounded,
                frame: g.frame,
                respawn_pos: g.pos,
            }
        } else {
            g
        };
        if cancel {
            spec_reset_guy()
        } else {
            g1
        }
    } else if level == 5 {
        let take = g.pos.x > 256 && g.respawn_pos == (Vec2 {
            x: (W / 2) as i64,
            y: (H / 4) as i64,
        });
        let g1 = if take {
            Guy {
                pos: g.pos,
                vel: g.vel,
                grounded: g.grounded,
                frame: g.frame,
                respawn_pos: g.pos,
            }
        } else {
            g
        };
        if cancel {
            spec_reset_guy()
        } else {
            g1
        }
    } else if level == 7 {
        if g.pos.y < H / 4 && 3 * g.pos.x > 640 {
            Guy {
                pos: g.pos,
                vel: g.vel,
                grounded: g.grounded,
                frame: g.frame,
                respawn_pos: g.pos,
            }
        } else {
            g
        }
    } else if level == 8 {
        if !confirm && mining_done {
            spec_reset_guy()
        } else {
            g
        }
    } else {
        g
    }
}

/// The sound effects one evaluation of the transition table plays: the door
/// sound on a confirm inside an open door, or when the mining game reports
/// completion.
pub open spec fn spec_handling_sfx(level: u16, confirm: bool, mining_done: bool) -> Seq<u16> {
    if confirm && (level == 1 || level == 3 || level == 4 || level == 6 || level == 8) {
        seq![SFX_DOOR]
    } else if level == 8 && mining_done {
        seq![SFX_DOOR]
    } else {
        Seq::empty()
    }
}

/// Evaluates the level/mode transition table once: door regions against the
/// actor's center, checkpoint updates, cancel resets, minigame hand-off on a
/// confirm inside an open door, and completion polling. Reloads the tile set
/// whenever the level id changes.
#[verifier::rlimit(100)]
#[verifier::spinoff_prover]
pub fn level_handling(
    game: &mut Game,
    input: &InputState,
    guy_aabb: &Aabb,
    levels: &Vec<LevelData>,
    effects: &mut TickEffects,
)
    requires
        old(game).wf(),
        input.wf(),
        levels_wf(levels@),
        guy_aabb.center == old(game).guy.pos,
    ensures
        final(game).wf(),
        ({
            let c = old(game).guy.pos;
            let lvl = old(game).level;
            let nl = spec_next_level(
                lvl,
                c,
                input.confirm,
                input.cancel,
                old(game).simon_says.completed,
                old(game).connect_wires.completed,
                old(game).mining.completed,
            );
            &&& final(game).level == nl
            &&& final(game).mode == spec_next_mode(lvl, old(game).mode, input.confirm)
            &&& final(game).guy == spec_handled_guy(
                old(game).guy,
                lvl,
                input.confirm,
                input.cancel,
                old(game).mining.completed,
            )
            &&& (nl != lvl ==> final(game).collision_objects@ == levels@[nl as int].tiles@
                && final(game).doors@ == levels@[nl as int].doors@)
            &&& (nl == lvl ==> final(game).collision_objects@ == old(game).collision_objects@
                && final(game).doors@ == old(game).doors@)
            &&& final(game).simon_says.completed == (if lvl == 1 && !input.confirm {
                false
            } else {
                old(game).simon_says.completed
            })
            &&& final(game).simon_says.knobs == old(game).simon_says.knobs
            &&& final(game).simon_says.pattern == old(game).simon_says.pattern
            &&& final(game).simon_says.pattern_counter == old(game).simon_says.pattern_counter
            &&& final(game).simon_says.awaitInput == old(game).simon_says.awaitInput
            &&& final(game).connect_wires.completed == (if lvl == 3 && !input.confirm {
                false
            } else {
                old(game).connect_wires.completed
            })
            &&& final(game).connect_wires.squares == old(game).connect_wires.squares
            &&& final(game).connect_wires.palette == old(game).connect_wires.palette
            &&& final(game).connect_wires.correct == old(game).connect_wires.correct
            &&& final(game).connect_wires.color == old(game).connect_wires.color
            &&& final(game).connect_wires.grid == old(game).connect_wires.grid
            &&& (if lvl == 8 && input.confirm {
                &&& final(game).mining.wf()
                &&& !final(game).mining.completed
                &&& final(game).mining.prize_hits == 0
            } else {
                &&& final(game).mining.completed == (if lvl == 8 && old(game).mining.completed {
                    false
                } else {
                    old(game).mining.completed
                })
                &&& final(game).mining.obstacles == old(game).mining.obstacles
                &&& final(game).mining.prize == old(game).mining.prize
                &&& final(game).mining.grid == old(game).mining.grid
                &&& final(game).mining.prize_hits == old(game).mining.prize_hits
            })
            &&& final(effects).sfx@ == old(effects).sfx@ + spec_handling_sfx(
                lvl,
                input.confirm,
                old(game).mining.completed,
            )
        }),
{
    proof {
        assert(old(effects).sfx@ + Seq::<u16>::empty() =~= old(effects).sfx@);
        assert(old(effects).sfx@ + seq![SFX_DOOR] =~= old(effects).sfx@.push(SFX_DOOR));
    }
    let c = guy_aabb.center;
    match game.level {
        0 => {
            if c.x > 250 && c.x <= 300 {
                if c.y > 70 && c.y < 150 {
                    move_to_level(game, 1, levels);
                } else if c.y < 215 && c.y > 165 {
                    move_to_level(game, 3, levels);
                }
            }
        },
        1 => {
            if input.confirm {
                effects.sfx.push(SFX_DOOR);
                game.mode = GameMode::SimonSays;
                return ;
            } else if c.x < 250 {
                move_to_level(game, 0, levels);
            }
            if game.simon_says.completed {
                game.simon_says.completed = false;
                move_to_level(game, 5, levels);
            }
        },
        3 => {
            if input.confirm {
                effects.sfx.push(SFX_DOOR);
                game.mode = GameMode::ConnectWires;
                return ;
            } else if c.x < 250 {
                move_to_level(game, 0, levels);
            }
            if game.connect_wires.completed {
                game.connect_wires.completed = false;
                move_to_level(game, 2, levels);
            }
        },
        2 => {
            if game.guy.pos.y > H / 2 && game.guy.respawn_pos == (Vec2 { x: W / 2, y: H / 4 }) {
                game.guy.set_respawn();
            } else if game.guy.pos.y < H / 4 && game.guy.pos.x > 256 {
                game.guy.set_respawn();
            } else if game.guy.pos.y < H / 4 && 3 * game.guy.pos.x < 320 {
                game.guy.set_respawn();
            }
            if c.x > 95 && c.x <= 125 && c.y > 165 && c.y < 250 {
                move_to_level(game, 4, levels);
            }
            if input.cancel {
                game.guy = Guy {
                    pos: Vec2 { x: W / 2, y: H / 4 },
                    vel: Vec2 { x: 0, y: 0 },
                    grounded: false,
                    frame: 0,
                    respawn_pos: Vec2 { x: W / 2, y: H / 4 },
                };
                move_to_level(game, 0, levels);
            }
        },
        4 => {
            if input.confirm {
                effects.sfx.push(SFX_DOOR);
                move_to_level(game, 7, levels);
            } else if c.x < 95 {
                move_to_level(game, 2, levels);
            }
        },
        5 => {
            if game.guy.pos.x > 256 && game.guy.respawn_pos == (Vec2 { x: W / 2, y: H / 4 }) {
                game.guy.set_respawn();
            }
            if c.x > 250 && c.x <= 305 && c.y > 160 && c.y < 250 {
                move_to_level(game, 6, levels);
            }
            if input.cancel {
                game.guy = Guy {
                    pos: Vec2 { x: W / 2, y: H / 4 },
                    vel: Vec2 { x: 0, y: 0 },
                    grounded: false,
                    frame: 0,
                    respawn_pos: Vec2 { x: W / 2, y: H / 4 },
                };
                move_to_level(game, 0, levels);
            }
        },
        6 => {
            if input.confirm {
                effects.sfx.push(SFX_DOOR);
                move_to_level(game, 7, levels);
            } else if c.x < 250 || c.y < 150 {
                move_to_level(game, 5, levels);
            }
        },
        7 => {
            if game.guy.pos.y < H / 4 && 3 * game.guy.pos.x > 640 {
                game.guy.set_respawn();
            }
            if game.guy.pos.x < 65 && game.guy.pos.y > 30 && game.guy.pos.y < 90 {
                move_to_level(game, 8, levels);
            }
        },
        8 => {
            if input.confirm {
                effects.sfx.push(SFX_DOOR);
                game.mining = crate::mining::initialize();
                game.mode = GameMode::Mining;
                return ;
            } else if game.guy.pos.x > 65 {
                move_to_level(game, 7, levels);
            }
            if game.mining.completed {
                game.mining.completed = false;
                game.guy = Guy {
                    pos: Vec2 { x: W / 2, y: H / 4 },
                    vel: Vec2 { x: 0, y: 0 },
                    grounded: false,
                    frame: 0,
                    respawn_pos: Vec2 { x: W / 2, y: H / 4 },
                };
                effects.sfx.push(SFX_DOOR);
                move_to_level(game, 0, levels);
            }
        },
        _ => {},
    }
}

/// The actor after one tick of physics, before collision resolution.
pub open spec fn spec_moved_guy(g: Guy, horz: int, vert: int) -> Guy {
    let velx = horz * GUY_HORZ_SPEED;
    let vely = spec_vel_y_after(g.vel.y as int, g.grounded, vert);
    Guy {
        pos: Vec2 { x: (g.pos.x + velx) as i64, y: (g.pos.y + vely) as i64 },
        vel: Vec2 { x: velx as i64, y: vely as i64 },
        grounded: if vert > 0 && g.grounded {
            false
        } else {
            g.grounded
        },
        frame: spec_next_frame(g.frame as int, horz, vert) as usize,
        respawn_pos: g.respawn_pos,
    }
}

/// `g` sent back to its checkpoint.
pub open spec fn spec_died_guy(g: Guy) -> Guy {
    Guy {
        pos: g.respawn_pos,
        vel: g.vel,
        grounded: g.grounded,
        frame: g.frame,
        respawn_pos: g.respawn_pos,
    }
}

/// The actor a tick hands to the transition table: moved by physics, then
/// sent to its checkpoint by the reset or reload key.
pub open spec fn spec_tick_pre_guy(g: Game, input: InputState) -> Guy {
    let g1 = spec_moved_guy(g.guy, input.horz as int, input.vert as int);
    let g2 = if input.reset {
        spec_died_guy(g1)
    } else {
        g1
    };
    if input.reload {
        spec_died_guy(g2)
    } else {
        g2
    }
}

/// The level id a tick hands to the transition table: the reload key falls
/// back to the first level.
pub open spec fn spec_tick_pre_level(g: Game, input: InputState) -> u16 {
    if input.reload {
        0u16
    } else {
        g.level
    }
}

/// The level id a tick settles on.
pub open spec fn spec_tick_level(g: Game, input: InputState) -> u16 {
    spec_next_level(
        spec_tick_pre_level(g, input),
        spec_tick_pre_guy(g, input).pos,
        input.confirm,
        input.cancel,
        g.simon_says.completed,
        g.connect_wires.completed,
        g.mining.completed,
    )
}

/// The actor a tick hands to the collision resolver.
pub open spec fn spec_tick_guy(g: Game, input: InputState) -> Guy {
    spec_handled_guy(
        spec_tick_pre_guy(g, input),
        spec_tick_pre_level(g, input),
        input.confirm,
        input.cancel,
        g.mining.completed,
    )
}

/// The tile set a tick settles on.
pub open spec fn spec_tick_tiles(g: Game, input: InputState, levels: Seq<LevelData>) -> Seq<
    SpriteTile,
> {
    let nl = spec_tick_level(g, input);
    if nl != spec_tick_pre_level(g, input) {
        levels[nl as int].tiles@
    } else if input.reload {
        levels[0].tiles@
    } else {
        g.collision_objects@
    }
}

/// The sound effects a tick plays, the death sound aside.
pub open spec fn spec_tick_sfx(g: Game, input: InputState) -> Seq<u16> {
    let g1 = spec_moved_guy(g.guy, input.horz as int, input.vert as int);
    let jump_sfx: Seq<u16> = if !g1.grounded && g1.vel.y == JUMP_VELOCITY - 1 {
        seq![SFX_JUMP]
    } else {
        Seq::empty()
    };
    jump_sfx + spec_handling_sfx(spec_tick_pre_level(g, input), input.confirm, g.mining.completed)
}

/// One platformer tick: actor physics from the input axes, the jump sound on
/// a fresh jump, the manual reset and reload keys, the direct mode-switch
/// key, one evaluation of the level/mode transition table, and collision
/// resolution against the (possibly reloaded) tile set. Returns the sound
/// effects to play.
#[verifier::rlimit(100)]
#[verifier::spinoff_prover]
pub fn update_platformer(game: &mut Game, input: &InputState, levels: &Vec<LevelData>) -> (effects:
    TickEffects)
    requires
        old(game).wf(),
        input.wf(),
        levels_wf(levels@),
        -PLAY_POS_LIMIT <= old(game).guy.pos.x <= PLAY_POS_LIMIT,
        -PLAY_POS_LIMIT <= old(game).guy.pos.y <= PLAY_POS_LIMIT,
        -PLAY_POS_LIMIT <= old(game).guy.respawn_pos.x <= PLAY_POS_LIMIT,
        -PLAY_POS_LIMIT <= old(game).guy.respawn_pos.y <= PLAY_POS_LIMIT,
    ensures
        final(game).wf(),
        final(game).level == spec_tick_level(*old(game), *input),
        final(game).mode == spec_next_mode(
            spec_tick_pre_level(*old(game), *input),
            if input.switch {
                GameMode::SimonSays
            } else {
                old(game).mode
            },
            input.confirm,
        ),
        final(game).collision_objects@ == spec_tick_tiles(*old(game), *input, levels@),
        final(game).guy.frame == spec_tick_guy(*old(game), *input).frame,
        final(game).guy.respawn_pos == spec_tick_guy(*old(game), *input).respawn_pos,
        final(game).guy.vel.x == spec_tick_guy(*old(game), *input).vel.x || final(game).guy.vel.x
            == 0,
        final(game).guy.vel.y == spec_tick_guy(*old(game), *input).vel.y || final(game).guy.vel.y
            == 0,
        spec_tick_guy(*old(game), *input).grounded ==> final(game).guy.grounded,
        no_overlap(
            spec_tick_tiles(*old(game), *input, levels@),
            spec_tick_guy(*old(game), *input).pos,
        ) ==> final(game).guy == spec_tick_guy(*old(game), *input),
        final(game).simon_says.completed == (if spec_tick_pre_level(*old(game), *input) == 1
            && !input.confirm {
            false
        } else {
            old(game).simon_says.completed
        }),
        final(game).connect_wires.completed == (if spec_tick_pre_level(*old(game), *input) == 3
            && !input.confirm {
            false
        } else {
            old(game).connect_wires.completed
        }),
        effects.sfx@ == spec_tick_sfx(*old(game), *input) || effects.sfx@ == spec_tick_sfx(
            *old(game),
            *input,
        ) + seq![SFX_DEATH],
        effects.sfx@ == spec_tick_sfx(*old(game), *input) + seq![SFX_DEATH] ==> exists|i: int|
            0 <= i < spec_tick_tiles(*old(game), *input, levels@).len() && spec_tick_tiles(
                *old(game),
                *input,
                levels@,
            )[i].kind == TileKind::Lethal,
        no_overlap(
            spec_tick_tiles(*old(game), *input, levels@),
            spec_tick_guy(*old(game), *input).pos,
        ) ==> effects.sfx@ == spec_tick_sfx(*old(game), *input),
{

    let mut effects = TickEffects { sfx: Vec::new() };
    game.guy.moveGuy(input.horz, input.vert);
    if !game.guy.grounded && game.guy.vel.y == JUMP_VELOCITY - 1 {
        effects.sfx.push(SFX_JUMP);
    }
    if input.reset {
        game.guy.die();
    }
    if input.reload {
        move_to_level(game, 0, levels);
        game.guy.die();
    }
    if input.switch {
        game.mode = GameMode::SimonSays;
    }
    let guy_aabb = game.guy.collision_box();
    level_handling(game, input, &guy_aabb, levels, &mut effects);
    let ghost sfx_pre = effects.sfx@;
    let died = resolve_collisions(&mut game.guy, &game.collision_objects);
    if died {
        effects.sfx.push(SFX_DEATH);
        proof {
            assert(effects.sfx@ =~= sfx_pre + seq![SFX_DEATH]);
        }
    }
    proof {
        assert(sfx_pre =~= spec_tick_sfx(*old(game), *input));
        if died {
            assert(effects.sfx@ =~= spec_tick_sfx(*old(game), *input) + seq![SFX_DEATH]);
            let tiles_now = game.collision_objects@;
            assert(tiles_now == spec_tick_tiles(*old(game), *input, levels@));
            let w = choose|i: int|
                0 <= i < tiles_now.len() && (#[trigger] tiles_now[i]).kind == TileKind::Lethal;
            assert(0 <= w < spec_tick_tiles(*old(game), *input, levels@).len() && spec_tick_tiles(
                *old(game),
                *input,
                levels@,
            )[w].kind == TileKind::Lethal);
        } else {
            assert(effects.sfx@ =~= spec_tick_sfx(*old(game), *input));
            assert(effects.sfx@.len() != (spec_tick_sfx(*old(game), *input)
                + seq![SFX_DEATH]).len());
        }
    }
    effects
}

/// Pixel position of each actor animation frame on the character sheet:
/// walking right, walking left, then the idle cycle.
pub open spec fn spec_guy_frame(i: int) -> (u16, u16) {
    if i == 0 {
        (0u16, 390u16)
    } else if i == 1 {
        (128u16, 390u16)
    } else if i == 2 {
        (256u16, 390u16)
    } else if i == 3 {
        (384u16, 390u16)
    } else if i == 4 {
        (512u16, 390u16)
    } else if i == 5 {
        (640u16, 390u16)
    } else if i == 6 {
        (769u16, 390u16)
    } else if i == 7 {
        (898u16, 390u16)
    } else if i == 8 {
        (0u16, 520u16)
    } else if i == 9 {
        (128u16, 520u16)
    } else if i == 10 {
        (256u16, 520u16)
    } else if i == 11 {
        (385u16, 520u16)
    } else if i == 12 {
        (513u16, 520u16)
    } else if i == 13 {
        (641u16, 520u16)
    } else if i == 14 {
        (769u16, 520u16)
    } else if i == 15 {
        (898u16, 520u16)
    } else if i == 18 || i == 19 {
        (128u16, 260u16)
    } else if i == 20 || i == 21 {
        (256u16, 260u16)
    } else if i == 22 || i == 23 {
        (385u16, 260u16)
    } else {
        (0u16, 260u16)
    }
}

/// The sheet position of an animation frame.
pub fn guy_frame_coords(frame: usize) -> (r: (u16, u16))
    requires
        frame <= 25,
    ensures
        r == spec_guy_frame(frame as int),
{
    if frame == 0 {
        (0, 390)
    } else if frame == 1 {
        (128, 390)
    } else if frame == 2 {
        (256, 390)
    } else if frame == 3 {
        (384, 390)
    } else if frame == 4 {
        (512, 390)
    } else if frame == 5 {
        (640, 390)
    } else if frame == 6 {
        (769, 390)
    } else if frame == 7 {
        (898, 390)
    } else if frame == 8 {
        (0, 520)
    } else if frame == 9 {
        (128, 520)
    } else if frame == 10 {
        (256, 520)
    } else if frame == 11 {
        (385, 520)
    } else if frame == 12 {
        (513, 520)
    } else if frame == 13 {
        (641, 520)
    } else if frame == 14 {
        (769, 520)
    } else if frame == 15 {
        (898, 520)
    } else if frame == 18 || frame == 19 {
        (128, 260)
    } else if frame == 20 || frame == 21 {
        (256, 260)
    } else if frame == 22 || frame == 23 {
        (385, 260)
    } else {
        (0, 260)
    }
}

/// The actor's sprite for a frame: a box larger than the collision box,
/// shifted slightly off the position, drawn from the character sheet with a
/// margin trimmed.
pub open spec fn spec_guy_sprite(g: Guy) -> SpriteInstance {
    let f = spec_guy_frame(g.frame as int);
    SpriteInstance {
        area: Aabb {
            center: Vec2 { x: (g.pos.x + 3) as i64, y: (g.pos.y + 3) as i64 },
            size: Vec2 { x: 32, y: 32 },
        },
        rot: 0,
        region: SheetRegion {
            sheet: 0,
            x: (f.0 + 24) as u16,
            y: (f.1 + 44) as u16,
            depth: 8,
            w: 100,
            h: 100,
        },
    }
}

/// The platformer's background sprite.
pub open spec fn spec_platformer_bg() -> SpriteInstance {
    SpriteInstance {
        area: Aabb {
            center: Vec2 { x: (W / 2) as i64, y: (H / 2) as i64 },
            size: Vec2 { x: W, y: H },
        },
        rot: 0,
        region: crate::tile::spec_sheet_region(1, (0u16, 1u16), 10, 256),
    }
}

/// The sprites of one platformer frame: the background, every tile, and the
/// actor. In any other mode the platformer draws nothing.
pub fn render_platformer(game: &Game) -> (r: Vec<SpriteInstance>)
    requires
        game.wf(),
    ensures
        game.mode != GameMode::Platformer ==> r@.len() == 0,
        game.mode == GameMode::Platformer ==> {
            &&& r@.len() == game.collision_objects@.len() + 2
            &&& r@[0] == spec_platformer_bg()
            &&& (forall|i: int|
                0 <= i < game.collision_objects@.len() ==> r@[i + 1] == (SpriteInstance {
                    area: (#[trigger] game.collision_objects@[i]).collision,
                    rot: 0,
                    region: crate::tile::spec_sheet_region(
                        1,
                        game.collision_objects@[i].tex_coord,
                        9,
                        256,
                    ),
                }))
            &&& r@[r@.len() - 1] == spec_guy_sprite(game.guy)
        },
{
    let mut r: Vec<SpriteInstance> = Vec::new();
    if !matches!(game.mode, GameMode::Platformer) {
        return r;
    }
    r.push(
        SpriteInstance {
            area: Aabb { center: Vec2 { x: W / 2, y: H / 2 }, size: Vec2 { x: W, y: H } },
            rot: 0,
            region: crate::tile::getSpriteFromSheet(1, &(0, 1), 10, 256),
        },
    );
    let n = game.collision_objects.len();
    let mut i: usize = 0;
    while i < n
        invariant
            i <= n,
            n == game.collision_objects@.len(),
            game.wf(),
            r@.len() == i + 1,
            r@[0] == spec_platformer_bg(),
            forall|k: int|
                0 <= k < i ==> r@[k + 1] == (SpriteInstance {
                    area: (#[trigger] game.collision_objects@[k]).collision,
                    rot: 0,
                    region: crate::tile::spec_sheet_region(
                        1,
                        game.collision_objects@[k].tex_coord,
                        9,
                        256,
                    ),
                }),
        decreases n - i,
    {
        let t = game.collision_objects[i];
        r.push(
            SpriteInstance {
                area: t.collision,
                rot: 0,
                region: crate::tile::getSpriteFromSheet(1, &t.tex_coord, 9, 256),
            },
        );
        i = i + 1;
    }
    let f = guy_frame_coords(game.guy.frame);
    r.push(
        SpriteInstance {
            area: Aabb {
                center: Vec2 { x: game.guy.pos.x + 3, y: game.guy.pos.y + 3 },
                size: Vec2 { x: 32, y: 32 },
            },
            rot: 0,
            region: crate::tile::getSpriteFromSheet_Demo(0, f.0 + 24, f.1 + 44, 8, 100, 100),
        },
    );
    r
}

/// A fresh game: the actor in the middle of the screen with its checkpoint
/// below, the first level loaded, and every minigame ready.
pub fn new_game(levels: &Vec<LevelData>) -> (g: Game)
    requires
        levels_wf(levels@),
    ensures
        g.wf(),
        g.level == 0,
        g.mode == GameMode::Platformer,
        g.guy == (Guy {
            pos: Vec2 { x: (W / 2) as i64, y: (H / 2) as i64 },
            vel: Vec2 { x: 0, y: 0 },
            grounded: false,
            frame: 0,
            respawn_pos: Vec2 { x: (W / 2) as i64, y: (H / 4) as i64 },
        }),
        g.collision_objects@ == levels@[0].tiles@,
        g.doors@ == levels@[0].doors@,
        !g.simon_says.completed && !g.simon_says.awaitInput && g.simon_says.pattern_counter == 0,
        !g.connect_wires.completed && g.connect_wires.color == crate::connectwires::Color::Pink,
        !g.mining.completed && g.mining.prize_hits == 0,
{
    let guy = Guy {
        pos: Vec2 { x: W / 2, y: H / 2 },
        vel: Vec2 { x: 0, y: 0 },
        grounded: false,
        frame: 0,
        respawn_pos: Vec2 { x: W / 2, y: H / 4 },
    };
    Game {
        collision_objects: clone_tiles(&levels[0].tiles),
        doors: clone_doors(&levels[0].doors),
        guy,
        level: 0,
        mode: GameMode::Platformer,
        simon_says: crate::simonsays::initialize(),
        connect_wires: crate::connectwires::initialize(),
        mining: crate::mining::initialize(),
    }
}

/// One tick of whichever mode is active. Exactly one mode runs per tick; the
/// minigames never touch the platformer's actor, level or tiles, and only
/// the platformer produces sound effects.
pub fn update_game(game: &mut Game, input: &InputState, levels: &Vec<LevelData>) -> (effects:
    TickEffects)
    requires
        old(game).wf(),
        input.wf(),
        levels_wf(levels@),
        old(game).mode == GameMode::Platformer ==> {
            &&& -PLAY_POS_LIMIT <= old(game).guy.pos.x <= PLAY_POS_LIMIT
            &&& -PLAY_POS_LIMIT <= old(game).guy.pos.y <= PLAY_POS_LIMIT
            &&& -PLAY_POS_LIMIT <= old(game).guy.respawn_pos.x <= PLAY_POS_LIMIT
            &&& -PLAY_POS_LIMIT <= old(game).guy.respawn_pos.y <= PLAY_POS_LIMIT
        },
    ensures
        final(game).wf(),
        old(game).mode != GameMode::Platformer ==> {
            &&& final(game).guy == old(game).guy
            &&& final(game).level == old(game).level
            &&& final(game).collision_objects == old(game).collision_objects
            &&& final(game).doors == old(game).doors
            &&& effects.sfx@.len() == 0
        },
        old(game).mode == GameMode::Platformer ==> {
            &&& final(game).level == spec_tick_level(*old(game), *input)
            &&& final(game).collision_objects@ == spec_tick_tiles(*old(game), *input, levels@)
            &&& (no_overlap(
                spec_tick_tiles(*old(game), *input, levels@),
                spec_tick_guy(*old(game), *input).pos,
            ) ==> final(game).guy == spec_tick_guy(*old(game), *input))
            &&& (effects.sfx@ == spec_tick_sfx(*old(game), *input) || effects.sfx@ == spec_tick_sfx(
                *old(game),
                *input,
            ) + seq![SFX_DEATH])
        },
        old(game).mode == GameMode::SimonSays ==> final(game).connect_wires == old(
            game,
        ).connect_wires && final(game).mining == old(game).mining,
        old(game).mode == GameMode::ConnectWires ==> final(game).simon_says == old(game).simon_says
            && final(game).mining == old(game).mining,
        old(game).mode == GameMode::Mining ==> final(game).simon_says == old(game).simon_says
            && final(game).connect_wires == old(game).connect_wires,
{
    match game.mode {
        GameMode::Platformer => update_platformer(game, input, levels),
        GameMode::SimonSays => {
            crate::simonsays::update_simon_says(game, input);
            TickEffects { sfx: Vec::new() }
        },
        GameMode::ConnectWires => {
            crate::connectwires::update_connect_wires(game, input);
            TickEffects { sfx: Vec::new() }
        },
        GameMode::Mining => {
            crate::mining::update_mining(game, input);
            TickEffects { sfx: Vec::new() }
        },
    }
}

} // verus!
