//! Iterative collision resolution of the actor against a static tile set:
//! contacts are collected, sorted deepest-first, and resolved one at a time
//! along the axis of least penetration, over a fixed number of passes.

use vstd::prelude::*;
use vstd::multiset::Multiset;
use crate::geom::{
    displacement, spec_overlaps, x_overlap2, y_overlap2, Aabb, Vec2, MAX_CENTER, MAX_SIZE,
};
use crate::guy::Guy;
use crate::tile::{SpriteTile, TileKind};

verus! {

/// Number of resolution passes per tick.
pub const COLLISION_STEPS: usize = 3;

/// Largest tile set the resolver accepts.
pub const MAX_TILES: usize = 0xC000;

/// Positions the resolver accepts: far enough from the coordinate bounds
/// that three passes of pushes stay in range.
pub const RESOLVE_POS_LIMIT: i64 = MAX_CENTER - 0x40_0000;

/// A tile the resolver passes through without touching the actor.
pub open spec fn passable(t: SpriteTile) -> bool {
    t.kind == TileKind::Door || t.kind == TileKind::Decorative
}

/// A tile that pushes the actor out without killing it.
pub open spec fn pushable_solid(t: SpriteTile) -> bool {
    t.kind == TileKind::Solid || t.kind == TileKind::HalfTop || t.kind == TileKind::HalfBottom
}

/// A tile set the resolver can work against.
pub open spec fn tiles_ok(tiles: Seq<SpriteTile>) -> bool {
    &&& tiles.len() <= MAX_TILES
    &&& forall|i: int|
        0 <= i < tiles.len() ==> (#[trigger] tiles[i]).collision.wf()
            && tiles[i].collision.even_sized()
}

/// No tile overlaps the actor box at `pos`.
pub open spec fn no_overlap(tiles: Seq<SpriteTile>, pos: Vec2) -> bool {
    forall|i: int|
        0 <= i < tiles.len() ==> !spec_overlaps(
            (#[trigger] tiles[i]).collision,
            Guy::spec_box_at(pos),
        )
}

/// Every tile overlapping the actor box at `pos` is passable.
pub open spec fn all_overlaps_passable(tiles: Seq<SpriteTile>, pos: Vec2) -> bool {
    forall|i: int|
        0 <= i < tiles.len() && spec_overlaps(
            (#[trigger] tiles[i]).collision,
            Guy::spec_box_at(pos),
        ) ==> passable(tiles[i])
}

/// A recorded contact: a tile index that overlaps the box `gb`, with the
/// exact penetration depths.
pub open spec fn valid_contact(tiles: Seq<SpriteTile>, gb: Aabb, c: (usize, Vec2)) -> bool {
    &&& c.0 < tiles.len()
    &&& spec_overlaps(tiles[c.0 as int].collision, gb)
    &&& 2 * c.1.x == x_overlap2(tiles[c.0 as int].collision, gb)
    &&& 2 * c.1.y == y_overlap2(tiles[c.0 as int].collision, gb)
    &&& 0 < c.1.x <= MAX_SIZE
    &&& 0 < c.1.y <= MAX_SIZE
}

/// Squared length of a penetration vector, the sort key of a pass.
pub open spec fn spec_mag2(d: Vec2) -> int {
    d.x * d.x + d.y * d.y
}

fn mag2(d: Vec2) -> (r: i64)
    requires
        -MAX_SIZE <= d.x <= MAX_SIZE,
        -MAX_SIZE <= d.y <= MAX_SIZE,
    ensures
        r == spec_mag2(d),
{
    proof {
        assert(d.x * d.x <= MAX_SIZE * MAX_SIZE && d.x * d.x >= 0) by (nonlinear_arith)
            requires
                -MAX_SIZE <= d.x <= MAX_SIZE,
        ;
        assert(d.y * d.y <= MAX_SIZE * MAX_SIZE && d.y * d.y >= 0) by (nonlinear_arith)
            requires
                -MAX_SIZE <= d.y <= MAX_SIZE,
        ;
    }
    d.x * d.x + d.y * d.y
}

/// Collects one contact for every tile overlapping the box, in index order.
fn find_contacts(tiles: &Vec<SpriteTile>, gb: &Aabb) -> (r: Vec<(usize, Vec2)>)
    requires
        tiles_ok(tiles@),
        gb.wf(),
        gb.even_sized(),
    ensures
        forall|k: int| 0 <= k < r@.len() ==> valid_contact(tiles@, *gb, #[trigger] r@[k]),
        forall|i: int|
            0 <= i < tiles@.len() && spec_overlaps((#[trigger] tiles@[i]).collision, *gb)
                ==> exists|k: int| 0 <= k < r@.len() && (#[trigger] r@[k]).0 == i,
        r@.len() <= tiles@.len(),
{
    let n = tiles.len();
    let mut r: Vec<(usize, Vec2)> = Vec::new();
    let mut i: usize = 0;
    while i < n
        invariant
            i <= n,
            n == tiles@.len(),
            tiles_ok(tiles@),
            gb.wf(),
            gb.even_sized(),
            r@.len() <= i,
            forall|k: int| 0 <= k < r@.len() ==> valid_contact(tiles@, *gb, #[trigger] r@[k]),
            forall|t: int|
                0 <= t < i && spec_overlaps((#[trigger] tiles@[t]).collision, *gb) ==> exists|k: int|
                    0 <= k < r@.len() && (#[trigger] r@[k]).0 == t,
        decreases n - i,
    {
        let t = tiles[i];
        match displacement(&t.collision, gb) {
            Some(d) => {
                proof {
                    assert(2 * d.x == x_overlap2(t.collision, *gb));
                    assert(x_overlap2(t.collision, *gb) <= 2 * t.collision.size.x);
                    assert(y_overlap2(t.collision, *gb) <= 2 * t.collision.size.y);
                }
                let ghost r_pre = r@;
                r.push((i, d));
                proof {
                    assert(r@ == r_pre.push((i, d)));
                    assert forall|t2: int|
                        0 <= t2 < i + 1 && spec_overlaps(
                            (#[trigger] tiles@[t2]).collision,
                            *gb,
                        ) implies exists|k: int| 0 <= k < r@.len() && (#[trigger] r@[k]).0 == t2 by {
                        if t2 == i {
                            assert(r@[r@.len() - 1].0 == t2);
                        } else {
                            let k = choose|k: int| 0 <= k < r_pre.len() && (#[trigger] r_pre[k]).0
                                == t2;
                            assert(r@[k].0 == t2);
                        }
                    }
                }
            },
            None => {},
        }
        i = i + 1;
    }
    r
}

/// Sorts contacts by descending squared penetration: deepest first. The
/// result is a permutation of the input.
fn sort_contacts(input: Vec<(usize, Vec2)>) -> (r: Vec<(usize, Vec2)>)
    requires
        forall|k: int|
            0 <= k < input@.len() ==> -MAX_SIZE <= (#[trigger] input@[k]).1.x <= MAX_SIZE
                && -MAX_SIZE <= input@[k].1.y <= MAX_SIZE,
    ensures
        r@.len() == input@.len(),
        r@.to_multiset() == input@.to_multiset(),
        forall|k: int| 0 <= k < r@.len() ==> input@.contains(#[trigger] r@[k]),
        forall|k1: int, k2: int|
            0 <= k1 <= k2 < r@.len() ==> spec_mag2(r@[k1].1) >= spec_mag2(r@[k2].1),
{
    broadcast use vstd::seq_lib::group_to_multiset_ensures;

    let mut work = input;
    let mut out: Vec<(usize, Vec2)> = Vec::new();
    proof {
        assert(out@.to_multiset().add(work@.to_multiset()) =~= input@.to_multiset());
    }
    while work.len() > 0
        invariant
            out@.len() + work@.len() == input@.len(),
            out@.to_multiset().add(work@.to_multiset()) == input@.to_multiset(),
            forall|k: int|
                0 <= k < work@.len() ==> -MAX_SIZE <= (#[trigger] work@[k]).1.x <= MAX_SIZE
                    && -MAX_SIZE <= work@[k].1.y <= MAX_SIZE,
            forall|k: int| 0 <= k < out@.len() ==> input@.contains(#[trigger] out@[k]),
            forall|k: int| 0 <= k < work@.len() ==> input@.contains(#[trigger] work@[k]),
            forall|k1: int, k2: int|
                0 <= k1 <= k2 < out@.len() ==> spec_mag2(out@[k1].1) >= spec_mag2(out@[k2].1),
            forall|k: int, j: int|
                0 <= k < out@.len() && 0 <= j < work@.len() ==> spec_mag2(out@[k].1) >= spec_mag2(
                    work@[j].1,
                ),
        decreases work@.len(),
    {
        let mut best: usize = 0;
        let mut best_key = mag2(work[0].1);
        let mut j: usize = 1;
        while j < work.len()
            invariant
                work@.len() > 0,
                best < j <= work@.len(),
                forall|k: int|
                    0 <= k < work@.len() ==> -MAX_SIZE <= (#[trigger] work@[k]).1.x <= MAX_SIZE
                        && -MAX_SIZE <= work@[k].1.y <= MAX_SIZE,
                best_key == spec_mag2(work@[best as int].1),
                forall|k: int| 0 <= k < j ==> best_key >= spec_mag2((#[trigger] work@[k]).1),
            decreases work@.len() - j,
        {
            let key = mag2(work[j].1);
            if key > best_key {
                best = j;
                best_key = key;
            }
            j = j + 1;
        }
        let ghost work_pre = work@;
        let ghost out_pre = out@;
        let picked = work.remove(best);
        out.push(picked);
        proof {
            assert(work@ == work_pre.remove(best as int));
            assert(out@ == out_pre.push(picked));
            assert(work_pre.contains(picked)) by {
                assert(work_pre[best as int] == picked);
            }
            assert(input@.contains(picked));
            assert(out@.to_multiset().add(work@.to_multiset()) =~= input@.to_multiset()) by {
                assert(out@ == out_pre.push(picked));
                assert(work@ == work_pre.remove(best as int));
                vstd::seq_lib::to_multiset_build(out_pre, picked);
                vstd::seq_lib::to_multiset_remove(work_pre, best as int);
                vstd::seq_lib::to_multiset_contains(work_pre, picked);
                assert(work_pre.to_multiset().count(picked) > 0);
            }
            assert(forall|k: int|
                0 <= k < work@.len() ==> work_pre.contains(#[trigger] work@[k])) by {
                assert(forall|k: int|
                    0 <= k < work@.len() ==> work@[k] == if k < best as int {
                        work_pre[k]
                    } else {
                        work_pre[k + 1]
                    });
            }
        }
    }
    proof {
        assert(work@.to_multiset() =~= Multiset::<(usize, Vec2)>::empty());
        assert(out@.to_multiset().add(Multiset::<(usize, Vec2)>::empty()) =~= out@.to_multiset());
    }
    out
}

/// Positions a single pass accepts; a pass moves the actor by at most
/// 16 units per contact.
pub const PASS_POS_LIMIT: i64 = MAX_CENTER - 0x10_0000;

/// A contact a single push separates completely: on the axis of least
/// penetration (ties resolve vertically), the actor box at `pos` reaches
/// past the tile in the direction it will be pushed, which is away from the
/// tile's center (ties push up, or right).
pub open spec fn resolvable_contact(t: Aabb, pos: Vec2) -> bool {
    let g = Guy::spec_box_at(pos);
    if y_overlap2(t, g) <= x_overlap2(t, g) {
        if pos.y >= t.center.y {
            g.bottom2() >= t.bottom2() && g.top2() >= t.top2()
        } else {
            g.top2() <= t.top2() && g.bottom2() <= t.bottom2()
        }
    } else {
        if pos.x >= t.center.x {
            g.left2() >= t.left2() && g.right2() >= t.right2()
        } else {
            g.right2() <= t.right2() && g.left2() <= t.left2()
        }
    }
}

/// One resolution pass: walks the contact list, skipping passable tiles,
/// respawning the actor on lethal ones, and pushing it out of the rest along
/// the axis of least penetration, away from the tile's center. Zeroes the
/// velocity component of each resolved axis; a push upward grounds the
/// actor. Stops early once a recomputed penetration has a zero component.
#[verifier::rlimit(100)]
fn resolve_pass(guy: &mut Guy, tiles: &Vec<SpriteTile>, contacts: &Vec<(usize, Vec2)>) -> (died:
    bool)
    requires
        tiles_ok(tiles@),
        old(guy).wf(),
        contacts@.len() <= tiles@.len(),
        -PASS_POS_LIMIT <= old(guy).pos.x <= PASS_POS_LIMIT,
        -PASS_POS_LIMIT <= old(guy).pos.y <= PASS_POS_LIMIT,
        -PASS_POS_LIMIT <= old(guy).respawn_pos.x <= PASS_POS_LIMIT,
        -PASS_POS_LIMIT <= old(guy).respawn_pos.y <= PASS_POS_LIMIT,
        forall|k: int|
            0 <= k < contacts@.len() ==> valid_contact(
                tiles@,
                Guy::spec_box_at(old(guy).pos),
                #[trigger] contacts@[k],
            ),
    ensures
        final(guy).wf(),
        final(guy).frame == old(guy).frame,
        final(guy).respawn_pos == old(guy).respawn_pos,
        final(guy).vel.x == old(guy).vel.x || final(guy).vel.x == 0,
        final(guy).vel.y == old(guy).vel.y || final(guy).vel.y == 0,
        old(guy).grounded ==> final(guy).grounded,
        final(guy).pos.x <= vstd::math::max(
            old(guy).pos.x as int,
            old(guy).respawn_pos.x as int,
        ) + 16 * contacts@.len(),
        final(guy).pos.x >= vstd::math::min(
            old(guy).pos.x as int,
            old(guy).respawn_pos.x as int,
        ) - 16 * contacts@.len(),
        final(guy).pos.y <= vstd::math::max(
            old(guy).pos.y as int,
            old(guy).respawn_pos.y as int,
        ) + 16 * contacts@.len(),
        final(guy).pos.y >= vstd::math::min(
            old(guy).pos.y as int,
            old(guy).respawn_pos.y as int,
        ) - 16 * contacts@.len(),
        (forall|k: int|
            0 <= k < contacts@.len() ==> passable(
                tiles@[(#[trigger] contacts@[k]).0 as int],
            )) ==> *final(guy) == *old(guy) && !died,
        died ==> exists|i: int| 0 <= i < tiles@.len() && tiles@[i].kind == TileKind::Lethal,
        (tiles@.len() == 1 && contacts@.len() >= 1 && pushable_solid(tiles@[0]) && spec_overlaps(
            tiles@[0].collision,
            Guy::spec_box_at(old(guy).pos),
        ) && resolvable_contact(tiles@[0].collision, old(guy).pos)) ==> !spec_overlaps(
            tiles@[0].collision,
            Guy::spec_box_at(final(guy).pos),
        ),
{
    let ghost allpass = forall|k: int|
        0 <= k < contacts@.len() ==> passable(tiles@[(#[trigger] contacts@[k]).0 as int]);
    let ghost lone_solid = tiles@.len() == 1 && contacts@.len() >= 1 && pushable_solid(tiles@[0])
        && spec_overlaps(tiles@[0].collision, Guy::spec_box_at(old(guy).pos))
        && resolvable_contact(tiles@[0].collision, old(guy).pos);
    let n = contacts.len();
    let mut died = false;
    let mut k: usize = 0;
    while k < n
        invariant
            n == contacts@.len(),
            k <= n,
            tiles_ok(tiles@),
            contacts@.len() <= tiles@.len(),
            forall|kk: int|
                0 <= kk < contacts@.len() ==> valid_contact(
                    tiles@,
                    Guy::spec_box_at(old(guy).pos),
                    #[trigger] contacts@[kk],
                ),
            -PASS_POS_LIMIT <= old(guy).pos.x <= PASS_POS_LIMIT,
            -PASS_POS_LIMIT <= old(guy).pos.y <= PASS_POS_LIMIT,
            -PASS_POS_LIMIT <= old(guy).respawn_pos.x <= PASS_POS_LIMIT,
            -PASS_POS_LIMIT <= old(guy).respawn_pos.y <= PASS_POS_LIMIT,
            guy.wf(),
            guy.frame == old(guy).frame,
            guy.respawn_pos == old(guy).respawn_pos,
            guy.vel.x == old(guy).vel.x || guy.vel.x == 0,
            guy.vel.y == old(guy).vel.y || guy.vel.y == 0,
            old(guy).grounded ==> guy.grounded,
            guy.pos.x <= vstd::math::max(old(guy).pos.x as int, old(guy).respawn_pos.x as int) + 16
                * k,
            guy.pos.x >= vstd::math::min(old(guy).pos.x as int, old(guy).respawn_pos.x as int) - 16
                * k,
            guy.pos.y <= vstd::math::max(old(guy).pos.y as int, old(guy).respawn_pos.y as int) + 16
                * k,
            guy.pos.y >= vstd::math::min(old(guy).pos.y as int, old(guy).respawn_pos.y as int) - 16
                * k,
            allpass == (forall|kk: int|
                0 <= kk < contacts@.len() ==> passable(tiles@[(#[trigger] contacts@[kk]).0 as int])),
            allpass ==> *guy == *old(guy) && !died,
            died ==> exists|i: int| 0 <= i < tiles@.len() && tiles@[i].kind == TileKind::Lethal,
            lone_solid == (tiles@.len() == 1 && contacts@.len() >= 1 && pushable_solid(tiles@[0])
                && spec_overlaps(tiles@[0].collision, Guy::spec_box_at(old(guy).pos))
                && resolvable_contact(tiles@[0].collision, old(guy).pos)),
            lone_solid ==> ((k == 0 && *guy == *old(guy)) || !spec_overlaps(
                tiles@[0].collision,
                Guy::spec_box_at(guy.pos),
            )),
        ensures
            guy.wf(),
            guy.frame == old(guy).frame,
            guy.respawn_pos == old(guy).respawn_pos,
            guy.vel.x == old(guy).vel.x || guy.vel.x == 0,
            guy.vel.y == old(guy).vel.y || guy.vel.y == 0,
            old(guy).grounded ==> guy.grounded,
            guy.pos.x <= vstd::math::max(old(guy).pos.x as int, old(guy).respawn_pos.x as int) + 16
                * contacts@.len(),
            guy.pos.x >= vstd::math::min(old(guy).pos.x as int, old(guy).respawn_pos.x as int) - 16
                * contacts@.len(),
            guy.pos.y <= vstd::math::max(old(guy).pos.y as int, old(guy).respawn_pos.y as int) + 16
                * contacts@.len(),
            guy.pos.y >= vstd::math::min(old(guy).pos.y as int, old(guy).respawn_pos.y as int) - 16
                * contacts@.len(),
            allpass ==> *guy == *old(guy) && !died,
            died ==> exists|i: int| 0 <= i < tiles@.len() && tiles@[i].kind == TileKind::Lethal,
            lone_solid ==> !spec_overlaps(tiles@[0].collision, Guy::spec_box_at(guy.pos)),
        decreases n - k,
    {
        let c = contacts[k];
        let idx = c.0;
        let t = tiles[idx];
        if !matches!(t.kind, TileKind::Door) && !matches!(t.kind, TileKind::Decorative) {
            proof {
                if allpass {
                    assert(passable(tiles@[(contacts@[k as int]).0 as int]));
                    assert(false);
                }
            }
            if matches!(t.kind, TileKind::Lethal) {
                guy.die();
                died = true;
                proof {
                    assert(tiles@[idx as int].kind == TileKind::Lethal);
                }
            }
            let gbox = guy.collision_box();
            let disp = match displacement(&t.collision, &gbox) {
                Some(d) => d,
                None => Vec2 { x: 0, y: 0 },
            };
            if disp.x == 0 || disp.y == 0 {
                proof {
                    if lone_solid {
                        // with a single pushable tile, a contact that still
                        // overlaps would have produced strictly positive
                        // penetration depths, not a zero component
                        if spec_overlaps(tiles@[0].collision, Guy::spec_box_at(guy.pos)) {
                            assert(k == 0 && *guy == *old(guy));
                            assert(idx == 0);
                            assert(false);
                        }
                    }
                }
                break ;
            }
            proof {
                assert(spec_overlaps(t.collision, Guy::spec_box_at(guy.pos)));
                assert(2 * disp.y == y_overlap2(t.collision, gbox));
                assert(y_overlap2(t.collision, gbox) <= 2 * gbox.size.y);
                assert(x_overlap2(t.collision, gbox) <= 2 * gbox.size.x);
                assert(0 < disp.x <= 16 && 0 < disp.y <= 16);
            }
            let mut dy = disp.y;
            let mut dx = disp.x;
            if guy.pos.y < t.collision.center.y {
                dy = -dy;
            }
            if guy.pos.x < t.collision.center.x {
                dx = -dx;
            }
            let ady = if dy >= 0 {
                dy
            } else {
                -dy
            };
            let adx = if dx >= 0 {
                dx
            } else {
                -dx
            };
            let ghost pos_pre = guy.pos;
            if ady <= adx {
                guy.pos.y = guy.pos.y + dy;
                guy.vel.y = 0;
                if guy.vel.y <= 0 && dy > 0 {
                    guy.grounded = true;
                }
                proof {
                    if lone_solid {
                        let tb = tiles@[0].collision;
                        let g = Guy::spec_box_at(pos_pre);
                        if pos_pre.y >= tb.center.y {
                            crate::geom::lemma_separate_up(tb, g);
                        } else {
                            crate::geom::lemma_separate_down(tb, g);
                        }
                        assert(Guy::spec_box_at(guy.pos) == if pos_pre.y >= tb.center.y {
                            crate::geom::shift_y(g, y_overlap2(tb, g) / 2)
                        } else {
                            crate::geom::shift_y(g, -(y_overlap2(tb, g) / 2))
                        });
                    }
                }
            } else {
                guy.pos.x = guy.pos.x + dx;
                guy.vel.x = 0;
                proof {
                    if lone_solid {
                        let tb = tiles@[0].collision;
                        let g = Guy::spec_box_at(pos_pre);
                        if pos_pre.x >= tb.center.x {
                            crate::geom::lemma_separate_right(tb, g);
                        } else {
                            crate::geom::lemma_separate_left(tb, g);
                        }
                        assert(Guy::spec_box_at(guy.pos) == if pos_pre.x >= tb.center.x {
                            crate::geom::shift_x(g, x_overlap2(tb, g) / 2)
                        } else {
                            crate::geom::shift_x(g, -(x_overlap2(tb, g) / 2))
                        });
                    }
                }
            }
        }
        k = k + 1;
    }
    died
}

/// Resolves the actor against the tile set: up to `COLLISION_STEPS` passes,
/// each collecting the contacts at the current position, sorting them
/// deepest-first and resolving them in turn; stops early once nothing
/// overlaps. Returns whether a lethal tile was touched.
///
/// The contract carries the resolver's laws: an actor that overlaps nothing
/// (or only passable tiles) is left exactly as it was, and a single solid
/// tile whose contact is resolvable is fully separated within the pass
/// budget.
pub fn resolve_collisions(guy: &mut Guy, tiles: &Vec<SpriteTile>) -> (died: bool)
    requires
        tiles_ok(tiles@),
        old(guy).wf(),
        -RESOLVE_POS_LIMIT <= old(guy).pos.x <= RESOLVE_POS_LIMIT,
        -RESOLVE_POS_LIMIT <= old(guy).pos.y <= RESOLVE_POS_LIMIT,
        -RESOLVE_POS_LIMIT <= old(guy).respawn_pos.x <= RESOLVE_POS_LIMIT,
        -RESOLVE_POS_LIMIT <= old(guy).respawn_pos.y <= RESOLVE_POS_LIMIT,
    ensures
        final(guy).wf(),
        final(guy).frame == old(guy).frame,
        final(guy).respawn_pos == old(guy).respawn_pos,
        final(guy).vel.x == old(guy).vel.x || final(guy).vel.x == 0,
        final(guy).vel.y == old(guy).vel.y || final(guy).vel.y == 0,
        old(guy).grounded ==> final(guy).grounded,
        -MAX_CENTER <= final(guy).pos.x <= MAX_CENTER,
        -MAX_CENTER <= final(guy).pos.y <= MAX_CENTER,
        no_overlap(tiles@, old(guy).pos) ==> *final(guy) == *old(guy) && !died,
        all_overlaps_passable(tiles@, old(guy).pos) ==> *final(guy) == *old(guy) && !died,
        died ==> exists|i: int| 0 <= i < tiles@.len() && tiles@[i].kind == TileKind::Lethal,
        (tiles@.len() == 1 && pushable_solid(tiles@[0]) && resolvable_contact(
            tiles@[0].collision,
            old(guy).pos,
        )) ==> !spec_overlaps(tiles@[0].collision, Guy::spec_box_at(final(guy).pos)),
{
    let ghost allpass = all_overlaps_passable(tiles@, old(guy).pos);
    let ghost lone_solid = tiles@.len() == 1 && pushable_solid(tiles@[0]) && resolvable_contact(
        tiles@[0].collision,
        old(guy).pos,
    );
    let mut died = false;
    let mut step: usize = 0;
    while step < COLLISION_STEPS
        invariant
            step <= COLLISION_STEPS,
            tiles_ok(tiles@),
            guy.wf(),
            guy.frame == old(guy).frame,
            guy.respawn_pos == old(guy).respawn_pos,
            guy.vel.x == old(guy).vel.x || guy.vel.x == 0,
            guy.vel.y == old(guy).vel.y || guy.vel.y == 0,
            old(guy).grounded ==> guy.grounded,
            -RESOLVE_POS_LIMIT <= old(guy).pos.x <= RESOLVE_POS_LIMIT,
            -RESOLVE_POS_LIMIT <= old(guy).pos.y <= RESOLVE_POS_LIMIT,
            -RESOLVE_POS_LIMIT <= old(guy).respawn_pos.x <= RESOLVE_POS_LIMIT,
            -RESOLVE_POS_LIMIT <= old(guy).respawn_pos.y <= RESOLVE_POS_LIMIT,
            -RESOLVE_POS_LIMIT - 0x10_0000 * step <= guy.pos.x <= RESOLVE_POS_LIMIT + 0x10_0000
                * step,
            -RESOLVE_POS_LIMIT - 0x10_0000 * step <= guy.pos.y <= RESOLVE_POS_LIMIT + 0x10_0000
                * step,
            allpass == all_overlaps_passable(tiles@, old(guy).pos),
            allpass ==> *guy == *old(guy) && !died,
            died ==> exists|i: int| 0 <= i < tiles@.len() && tiles@[i].kind == TileKind::Lethal,
            lone_solid == (tiles@.len() == 1 && pushable_solid(tiles@[0]) && resolvable_contact(
                tiles@[0].collision,
                old(guy).pos,
            )),
            lone_solid ==> ((step == 0 && *guy == *old(guy)) || !spec_overlaps(
                tiles@[0].collision,
                Guy::spec_box_at(guy.pos),
            )),
        ensures
            guy.wf(),
            guy.frame == old(guy).frame,
            guy.respawn_pos == old(guy).respawn_pos,
            guy.vel.x == old(guy).vel.x || guy.vel.x == 0,
            guy.vel.y == old(guy).vel.y || guy.vel.y == 0,
            old(guy).grounded ==> guy.grounded,
            -MAX_CENTER <= guy.pos.x <= MAX_CENTER,
            -MAX_CENTER <= guy.pos.y <= MAX_CENTER,
            allpass ==> *guy == *old(guy) && !died,
            died ==> exists|i: int| 0 <= i < tiles@.len() && tiles@[i].kind == TileKind::Lethal,
            lone_solid ==> !spec_overlaps(tiles@[0].collision, Guy::spec_box_at(guy.pos)),
        decreases COLLISION_STEPS - step,
    {
        let gbox = guy.collision_box();
        let contacts = find_contacts(tiles, &gbox);
        if contacts.is_empty() {
            proof {
                if lone_solid {
                    if step == 0 && *guy == *old(guy) {
                        if spec_overlaps(tiles@[0].collision, gbox) {
                            assert(exists|kk: int|
                                0 <= kk < contacts@.len() && (#[trigger] contacts@[kk]).0 == 0);
                            assert(false);
                        }
                    }
                }
            }
            break ;
        }
        proof {
            if allpass {
                // every contact is with an overlapping tile, and every
                // overlapping tile is passable
                assert forall|kk: int|
                    0 <= kk < contacts@.len() implies passable(
                    tiles@[(#[trigger] contacts@[kk]).0 as int],
                ) by {
                    assert(valid_contact(tiles@, gbox, contacts@[kk]));
                }
            }
            if lone_solid && !(step == 0 && *guy == *old(guy)) {
                // nothing overlaps, so no contact can exist
                assert(contacts@.len() > 0);
                assert(valid_contact(tiles@, gbox, contacts@[0]));
                assert(false);
            }
        }
        let sorted = sort_contacts(contacts);
        proof {
            assert forall|kk: int|
                0 <= kk < sorted@.len() implies valid_contact(
                tiles@,
                Guy::spec_box_at(guy.pos),
                #[trigger] sorted@[kk],
            ) by {
                assert(contacts@.contains(sorted@[kk]));
                let w = choose|w: int|
                    0 <= w < contacts@.len() && contacts@[w] == sorted@[kk];
                assert(valid_contact(tiles@, gbox, contacts@[w]));
            }
        }
        let ghost guy_pre = *guy;
        let d = resolve_pass(guy, tiles, &sorted);
        died = died || d;
        proof {
            if allpass {
                assert forall|kk: int|
                    0 <= kk < sorted@.len() implies passable(
                    tiles@[(#[trigger] sorted@[kk]).0 as int],
                ) by {
                    assert(contacts@.contains(sorted@[kk]));
                    let w = choose|w: int|
                        0 <= w < contacts@.len() && contacts@[w] == sorted@[kk];
                    assert(passable(tiles@[(contacts@[w]).0 as int]));
                }
            }
            if lone_solid {
                assert(spec_overlaps(tiles@[0].collision, Guy::spec_box_at(guy_pre.pos))) by {
                    assert(valid_contact(tiles@, gbox, contacts@[0]));
                }
            }
        }
        step = step + 1;
    }
    died
}

} // verus!
