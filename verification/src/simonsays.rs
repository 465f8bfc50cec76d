//! The Simon-Says minigame: four knobs play back a growing pattern, one step
//! per tick, and the player must click them back in order. A wrong click
//! resets the pattern to its first two steps; echoing a pattern of more than
//! five steps completes the game.

use vstd::prelude::*;
use crate::game::{Game, GameMode, InputState};
use crate::geom::{Aabb, Vec2};
use crate::rng::rand_upto;
use crate::tile::{
    getSpriteFromSheet, newSpriteTile_Square, spec_sheet_region, SpriteInstance, SpriteTile,
};
use crate::{H, W};

verus! {

/// How many knobs there are.
pub const KNOB_COUNT: usize = 4;

/// The pattern length a wrong click falls back to.
pub const PATTERN_BASE_LEN: usize = 2;

/// Echoing a pattern longer than this wins the game.
pub const PATTERN_WIN_LEN: usize = 5;

/// State of the Simon-Says minigame.
#[allow(non_snake_case)]
pub struct SimonSaysState {
    /// The four knobs and their rotation, in eighth-turn steps.
    pub knobs: Vec<(SpriteTile, i64)>,
    /// The knob indices of the pattern.
    pub pattern: Vec<usize>,
    /// Progress through the pattern, during playback and echoing alike.
    pub pattern_counter: usize,
    /// Whether the game is waiting for the player to echo the pattern.
    pub awaitInput: bool,
    /// Raised on a win; the platformer polls and clears it.
    pub completed: bool,
}

/// Center of each knob: left, right, top, bottom.
pub open spec fn spec_knob_center(i: int) -> Vec2 {
    if i == 0 {
        Vec2 { x: (W / 4) as i64, y: (H / 2) as i64 }
    } else if i == 1 {
        Vec2 { x: (3 * W / 4) as i64, y: (H / 2) as i64 }
    } else if i == 2 {
        Vec2 { x: (W / 2) as i64, y: (3 * H / 4) as i64 }
    } else {
        Vec2 { x: (W / 2) as i64, y: (H / 4) as i64 }
    }
}

impl SimonSaysState {
    /// Shape every state this module produces keeps: four knobs, a pattern
    /// of valid knob indices at least the base length, and a counter inside
    /// the pattern.
    pub open spec fn wf(self) -> bool {
        &&& self.knobs@.len() == KNOB_COUNT
        &&& self.pattern@.len() >= PATTERN_BASE_LEN
        &&& self.pattern_counter < self.pattern@.len()
        &&& forall|i: int| 0 <= i < self.pattern@.len() ==> (#[trigger] self.pattern@[i]) < KNOB_COUNT
        &&& forall|i: int|
            0 <= i < self.knobs@.len() ==> (#[trigger] self.knobs@[i]).0.collision.bounded() && 0
                <= self.knobs@[i].1 < 8 && self.knobs@[i].0.tex_coord == (2u16, 0u16)
    }
}

/// A fresh Simon-Says game: the four knobs at rest and a random two-step
/// pattern, about to be played back.
pub fn initialize() -> (r: SimonSaysState)
    ensures
        r.wf(),
        !r.awaitInput,
        !r.completed,
        r.pattern_counter == 0,
        r.pattern@.len() == PATTERN_BASE_LEN,
        forall|i: int|
            0 <= i < r.knobs@.len() ==> {
                &&& (#[trigger] r.knobs@[i]).0.collision.center == spec_knob_center(i)
                &&& r.knobs@[i].0.collision.size == (Vec2 { x: (H / 4) as i64, y: (H / 4) as i64 })
                &&& r.knobs@[i].0.tex_coord == (2u16, 0u16)
                &&& r.knobs@[i].1 == 0
            },
{
    let mut knobs: Vec<(SpriteTile, i64)> = Vec::new();
    knobs.push((newSpriteTile_Square(W / 4, H / 2, H / 4, 2, 0), 0));
    knobs.push((newSpriteTile_Square(3 * W / 4, H / 2, H / 4, 2, 0), 0));
    knobs.push((newSpriteTile_Square(W / 2, 3 * H / 4, H / 4, 2, 0), 0));
    knobs.push((newSpriteTile_Square(W / 2, H / 4, H / 4, 2, 0), 0));

    let mut pattern: Vec<usize> = Vec::new();
    pattern.push(rand_upto(KNOB_COUNT - 1));
    pattern.push(rand_upto(KNOB_COUNT - 1));

    SimonSaysState { knobs, pattern, pattern_counter: 0, awaitInput: false, completed: false }
}

/// Index of the first knob, from `i` on, whose box contains `p`; -1 when
/// none does.
pub open spec fn spec_first_knob_hit(knobs: Seq<(SpriteTile, i64)>, p: Vec2, i: int) -> int
    decreases knobs.len() - i,
{
    if i < 0 || i >= knobs.len() {
        -1
    } else if knobs[i].0.collision.spec_contains(p.x as int, p.y as int) {
        i
    } else {
        spec_first_knob_hit(knobs, p, i + 1)
    }
}

/// Finds the first knob whose box contains the point.
fn first_knob_hit(knobs: &Vec<(SpriteTile, i64)>, px: i64, py: i64) -> (r: Option<usize>)
    requires
        forall|i: int| 0 <= i < knobs@.len() ==> (#[trigger] knobs@[i]).0.collision.bounded(),
        -crate::geom::MAX_CENTER <= px <= crate::geom::MAX_CENTER,
        -crate::geom::MAX_CENTER <= py <= crate::geom::MAX_CENTER,
    ensures
        match r {
            Some(i) => i < knobs@.len() && spec_first_knob_hit(knobs@, Vec2 { x: px, y: py }, 0)
                == i,
            None => spec_first_knob_hit(knobs@, Vec2 { x: px, y: py }, 0) == -1,
        },
{
    let ghost p = Vec2 { x: px, y: py };
    let n = knobs.len();
    let mut i: usize = 0;
    while i < n
        invariant
            i <= n,
            n == knobs@.len(),
            forall|k: int| 0 <= k < knobs@.len() ==> (#[trigger] knobs@[k]).0.collision.bounded(),
            -crate::geom::MAX_CENTER <= px <= crate::geom::MAX_CENTER,
            -crate::geom::MAX_CENTER <= py <= crate::geom::MAX_CENTER,
            p == (Vec2 { x: px, y: py }),
            spec_first_knob_hit(knobs@, p, 0) == spec_first_knob_hit(knobs@, p, i as int),
        decreases n - i,
    {
        if knobs[i].0.collision.contains(px, py) {
            proof {
                assert(spec_first_knob_hit(knobs@, p, i as int) == i as int);
            }
            return Some(i);
        }
        proof {
            assert(spec_first_knob_hit(knobs@, p, i as int) == spec_first_knob_hit(
                knobs@,
                p,
                i as int + 1,
            ));
        }
        i = i + 1;
    }
    None
}

/// The player clicked the knob the pattern expects next.
pub open spec fn spec_correct_click(s: SimonSaysState, p: Vec2) -> bool {
    let hit = spec_first_knob_hit(s.knobs@, p, 0);
    hit >= 0 && hit == s.pattern@[s.pattern_counter as int]
}

/// The player clicked some knob, but not the expected one.
pub open spec fn spec_wrong_click(s: SimonSaysState, p: Vec2) -> bool {
    let hit = spec_first_knob_hit(s.knobs@, p, 0);
    hit >= 0 && hit != s.pattern@[s.pattern_counter as int]
}

/// A correct click on the pattern's last step.
pub open spec fn spec_finishes_pattern(s: SimonSaysState, p: Vec2) -> bool {
    spec_correct_click(s, p) && s.pattern_counter + 1 >= s.pattern@.len()
}

/// A correct click that finishes a pattern long enough to win.
pub open spec fn spec_wins(s: SimonSaysState, p: Vec2) -> bool {
    spec_finishes_pattern(s, p) && s.pattern_counter + 1 > PATTERN_WIN_LEN
}

/// One tick of the Simon-Says game. While the pattern is playing back, each
/// tick turns the next knob of the pattern; once it has played, each click
/// is judged against the pattern: the expected knob turns back and advances
/// the echo, a wrong knob resets the game to a fresh two-step pattern, and
/// echoing a full pattern either extends it by one random step and replays,
/// or, past the winning length, raises `completed` and returns to the
/// platformer. The switch key always returns to the platformer.
#[verifier::rlimit(100)]
#[verifier::spinoff_prover]
pub fn update_simon_says(game: &mut Game, input: &InputState)
    requires
        old(game).wf(),
        input.wf(),
    ensures
        final(game).wf(),
        final(game).guy == old(game).guy,
        final(game).level == old(game).level,
        final(game).collision_objects == old(game).collision_objects,
        final(game).doors == old(game).doors,
        final(game).connect_wires == old(game).connect_wires,
        final(game).mining == old(game).mining,
        ({
            let s = old(game).simon_says;
            let t = final(game).simon_says;
            &&& (!s.awaitInput ==> {
                let idx = s.pattern@[s.pattern_counter as int] as int;
                &&& t.knobs@ == s.knobs@.update(
                    idx,
                    (s.knobs@[idx].0, ((s.knobs@[idx].1 + 1) % 8) as i64),
                )
                &&& t.pattern@ == s.pattern@
                &&& t.completed == s.completed
                &&& t.awaitInput == (s.pattern_counter + 1 >= s.pattern@.len())
                &&& t.pattern_counter == (if s.pattern_counter + 1 >= s.pattern@.len() {
                    0int
                } else {
                    s.pattern_counter + 1
                })
            })
            &&& (s.awaitInput && input.click is None ==> t == s)
            &&& (s.awaitInput ==> match input.click {
                Some(p) => {
                    let hit = spec_first_knob_hit(s.knobs@, p, 0);
                    &&& (hit == -1 ==> t == s)
                    &&& (spec_correct_click(s, p) ==> {
                        &&& t.knobs@ == s.knobs@.update(
                            hit,
                            (s.knobs@[hit].0, ((s.knobs@[hit].1 + 7) % 8) as i64),
                        )
                        &&& (!spec_finishes_pattern(s, p) ==> t.pattern@ == s.pattern@
                            && t.pattern_counter == s.pattern_counter + 1 && t.awaitInput
                            && t.completed == s.completed)
                        &&& (spec_wins(s, p) ==> t.completed && t.pattern_counter == 0
                            && t.pattern@ == s.pattern@ && t.awaitInput)
                        &&& (spec_finishes_pattern(s, p) && !spec_wins(s, p) ==> {
                            &&& exists|v: usize|
                                v < KNOB_COUNT && t.pattern@ == s.pattern@.push(v)
                            &&& t.pattern_counter == 0
                            &&& !t.awaitInput
                            &&& t.completed == s.completed
                        })
                    })
                    &&& (spec_wrong_click(s, p) ==> {
                        &&& t.knobs@.len() == s.knobs@.len()
                        &&& (forall|i: int|
                            0 <= i < t.knobs@.len() ==> #[trigger] t.knobs@[i] == (
                            s.knobs@[i].0,
                            0i64,
                            ))
                        &&& t.pattern@ == s.pattern@.subrange(0, PATTERN_BASE_LEN as int)
                        &&& t.pattern_counter == 0
                        &&& !t.awaitInput
                        &&& t.completed == s.completed
                    })
                },
                None => true,
            })
            &&& final(game).mode == (if input.switch || (s.awaitInput && match input.click {
                Some(p) => spec_wins(s, p),
                None => false,
            }) {
                GameMode::Platformer
            } else {
                old(game).mode
            })
        }),
{
    if game.simon_says.awaitInput {
        match input.click {
            Some(p) => {
                match first_knob_hit(&game.simon_says.knobs, p.x, p.y) {
                    Some(i) => {
                        let expected = game.simon_says.pattern[game.simon_says.pattern_counter];
                        if i == expected {
                            let hit_knob = game.simon_says.knobs[i];
                            game.simon_says.knobs.set(i, (hit_knob.0, (hit_knob.1 + 7) % 8));
                            let plen = game.simon_says.pattern.len();
                            proof {
                                assert(game.simon_says.pattern_counter < plen);
                            }
                            game.simon_says.pattern_counter = game.simon_says.pattern_counter + 1;
                            if game.simon_says.pattern_counter >= plen {
                                if game.simon_says.pattern_counter > PATTERN_WIN_LEN {
                                    game.simon_says.completed = true;
                                    game.simon_says.pattern_counter = 0;
                                    game.mode = GameMode::Platformer;
                                } else {
                                    let v = rand_upto(KNOB_COUNT - 1);
                                    game.simon_says.pattern.push(v);
                                    game.simon_says.pattern_counter = 0;
                                    game.simon_says.awaitInput = false;
                                }
                            }
                        } else {
                            let mut k: usize = 0;
                            while k < KNOB_COUNT
                                invariant
                                    k <= KNOB_COUNT,
                                    game.simon_says.knobs@.len() == KNOB_COUNT,
                                    forall|j: int|
                                        0 <= j < k ==> #[trigger] game.simon_says.knobs@[j] == (
                                        old(game).simon_says.knobs@[j].0,
                                        0i64,
                                        ),
                                    forall|j: int|
                                        k <= j < KNOB_COUNT ==> #[trigger] game.simon_says.knobs@[j]
                                            == old(game).simon_says.knobs@[j],
                                    game.simon_says.pattern == old(game).simon_says.pattern,
                                    game.simon_says.pattern_counter == old(
                                        game,
                                    ).simon_says.pattern_counter,
                                    game.simon_says.awaitInput == old(game).simon_says.awaitInput,
                                    game.simon_says.completed == old(game).simon_says.completed,
                                    game.guy == old(game).guy,
                                    game.level == old(game).level,
                                    game.mode == old(game).mode,
                                    game.collision_objects == old(game).collision_objects,
                                    game.doors == old(game).doors,
                                    game.connect_wires == old(game).connect_wires,
                                    game.mining == old(game).mining,
                                decreases KNOB_COUNT - k,
                            {
                                let kn = game.simon_says.knobs[k];
                                game.simon_says.knobs.set(k, (kn.0, 0));
                                k = k + 1;
                            }
                            game.simon_says.pattern.truncate(PATTERN_BASE_LEN);
                            game.simon_says.pattern_counter = 0;
                            game.simon_says.awaitInput = false;
                        }
                    },
                    None => {},
                }
            },
            None => {},
        }
    } else {
        let idx = game.simon_says.pattern[game.simon_says.pattern_counter];
        let kn = game.simon_says.knobs[idx];
        game.simon_says.knobs.set(idx, (kn.0, (kn.1 + 1) % 8));
        let plen = game.simon_says.pattern.len();
        proof {
            assert(game.simon_says.pattern_counter < plen);
        }
        game.simon_says.pattern_counter = game.simon_says.pattern_counter + 1;
        if game.simon_says.pattern_counter >= plen {
            game.simon_says.awaitInput = true;
            game.simon_says.pattern_counter = 0;
        }
    }
    if input.switch {
        game.mode = GameMode::Platformer;
    }
}

/// The sprites of one Simon-Says frame: the background and the four knobs at
/// their current rotation. In any other mode this game draws nothing.
pub fn render_simon_says(game: &Game) -> (r: Vec<SpriteInstance>)
    requires
        game.wf(),
    ensures
        game.mode != GameMode::SimonSays ==> r@.len() == 0,
        game.mode == GameMode::SimonSays ==> {
            &&& r@.len() == 1 + game.simon_says.knobs@.len()
            &&& r@[0] == (SpriteInstance {
                area: Aabb {
                    center: Vec2 { x: (W / 2) as i64, y: (H / 2) as i64 },
                    size: Vec2 { x: W, y: H },
                },
                rot: 0,
                region: spec_sheet_region(1, (3u16, 0u16), 16, 256),
            })
            &&& (forall|i: int|
                0 <= i < game.simon_says.knobs@.len() ==> r@[i + 1] == (SpriteInstance {
                    area: (#[trigger] game.simon_says.knobs@[i]).0.collision,
                    rot: game.simon_says.knobs@[i].1,
                    region: spec_sheet_region(1, game.simon_says.knobs@[i].0.tex_coord, 12, 256),
                }))
        },
{
    let mut r: Vec<SpriteInstance> = Vec::new();
    if !matches!(game.mode, GameMode::SimonSays) {
        return r;
    }
    r.push(
        SpriteInstance {
            area: Aabb { center: Vec2 { x: W / 2, y: H / 2 }, size: Vec2 { x: W, y: H } },
            rot: 0,
            region: getSpriteFromSheet(1, &(3, 0), 16, 256),
        },
    );
    let n = game.simon_says.knobs.len();
    let mut i: usize = 0;
    while i < n
        invariant
            i <= n,
            n == game.simon_says.knobs@.len(),
            game.wf(),
            r@.len() == i + 1,
            r@[0] == (SpriteInstance {
                area: Aabb {
                    center: Vec2 { x: (W / 2) as i64, y: (H / 2) as i64 },
                    size: Vec2 { x: W, y: H },
                },
                rot: 0,
                region: spec_sheet_region(1, (3u16, 0u16), 16, 256),
            }),
            forall|k: int|
                0 <= k < i ==> r@[k + 1] == (SpriteInstance {
                    area: (#[trigger] game.simon_says.knobs@[k]).0.collision,
                    rot: game.simon_says.knobs@[k].1,
                    region: spec_sheet_region(1, game.simon_says.knobs@[k].0.tex_coord, 12, 256),
                }),
        decreases n - i,
    {
        let kn = game.simon_says.knobs[i];
        r.push(
            SpriteInstance {
                area: kn.0.collision,
                rot: kn.1,
                region: getSpriteFromSheet(1, &kn.0.tex_coord, 12, 256),
            },
        );
        i = i + 1;
    }
    r
}

} // verus!
