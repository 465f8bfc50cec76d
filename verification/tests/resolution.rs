use unit3_game::geom::Vec2;
use unit3_game::guy::Guy;
use unit3_game::resolver::resolve_collisions;
use unit3_game::tile::{newSpriteTile_Rect, newSpriteTile_Square, SpriteTile, TileKind};

fn falling_guy(x: i64, y: i64) -> Guy {
    Guy {
        pos: Vec2 { x, y },
        vel: Vec2 { x: 0, y: 0 },
        grounded: false,
        frame: 0,
        respawn_pos: Vec2 { x: 160, y: 60 },
    }
}

#[test]
fn falling_actor_settles_on_the_floor() {
    // actor box 16x16 at (100,100) falling under gravity onto a floor tile
    // 32x8 centered at (100,90): it settles tangent on the floor's top edge
    // (y = 94), its center at 102, and becomes grounded
    let floor = vec![newSpriteTile_Rect(100, 90, 32, 8, 1, 1)];
    let mut guy = falling_guy(100, 100);
    for _ in 0..8 {
        guy.moveGuy(0, 0);
        resolve_collisions(&mut guy, &floor);
    }
    assert_eq!(guy.pos.y, 102);
    assert_eq!(guy.pos.x, 100);
    assert!(guy.grounded);
    assert_eq!(guy.vel.y, 0);
}

#[test]
fn lethal_contact_respawns_the_actor() {
    // one resolver pass over a lethal tile sends the actor to its checkpoint
    let acid = newSpriteTile_Square(100, 100, 32, 0, 0);
    assert_eq!(acid.kind, TileKind::Lethal);
    let tiles = vec![acid];
    let mut guy = falling_guy(100, 100);
    let died = resolve_collisions(&mut guy, &tiles);
    assert!(died);
    assert_eq!(guy.pos, Vec2 { x: 160, y: 60 });
}

#[test]
fn resolving_without_overlap_is_a_no_op() {
    let tiles = vec![newSpriteTile_Square(0, 0, 32, 1, 1)];
    let mut guy = falling_guy(100, 100);
    guy.vel = Vec2 { x: 2, y: -3 };
    let before = guy;
    let died = resolve_collisions(&mut guy, &tiles);
    assert!(!died);
    assert_eq!(guy, before);
}

#[test]
fn door_tiles_never_push_the_actor() {
    // fully overlapping a door: no positional correction at all
    let door = newSpriteTile_Square(100, 100, 32, 6, 0);
    assert_eq!(door.kind, TileKind::Door);
    let tiles = vec![door];
    let mut guy = falling_guy(100, 100);
    guy.vel = Vec2 { x: 2, y: -3 };
    let before = guy;
    let died = resolve_collisions(&mut guy, &tiles);
    assert!(!died);
    assert_eq!(guy, before);
}

#[test]
fn decorative_tiles_never_push_the_actor() {
    let deco = newSpriteTile_Square(100, 100, 32, 9, 0);
    assert_eq!(deco.kind, TileKind::Decorative);
    let tiles = vec![deco];
    let mut guy = falling_guy(100, 100);
    let before = guy;
    resolve_collisions(&mut guy, &tiles);
    assert_eq!(guy, before);
}

#[test]
fn single_overlap_is_fully_resolved() {
    // resolver convergence: a lone solid contact leaves zero residual overlap
    let tiles = vec![newSpriteTile_Square(100, 90, 32, 1, 1)];
    let mut guy = falling_guy(100, 101);
    resolve_collisions(&mut guy, &tiles);
    // tile top edge at 106, actor half height 8
    assert_eq!(guy.pos.y, 114);
    assert_eq!(
        unit3_game::geom::displacement(&tiles[0].collision, &guy.collision_box()),
        None
    );
}

#[test]
fn shallow_axis_wins_sideways_contacts() {
    // actor deeper vertically than horizontally: pushed out along x
    let wall = vec![newSpriteTile_Square(100, 100, 32, 1, 1)];
    let mut guy = falling_guy(114, 100);
    guy.vel = Vec2 { x: -2, y: -3 };
    resolve_collisions(&mut guy, &wall);
    // wall right edge at 116 plus actor half width 8
    assert_eq!(guy.pos.x, 124);
    assert_eq!(guy.pos.y, 100);
    assert_eq!(guy.vel.x, 0);
    assert_eq!(guy.vel.y, -3);
    assert!(!guy.grounded);
}

#[test]
fn upward_push_grounds_the_actor() {
    let floor = vec![newSpriteTile_Square(100, 80, 32, 1, 1)];
    let mut guy = falling_guy(100, 102);
    guy.vel = Vec2 { x: 0, y: -4 };
    resolve_collisions(&mut guy, &floor);
    assert_eq!(guy.pos.y, 104);
    assert!(guy.grounded);
    assert_eq!(guy.vel.y, 0);
}

#[test]
fn deepest_contact_resolves_first() {
    // two overlapping tiles: the deeper contact is handled before the
    // shallower one, so the actor ends clear of both
    let tiles: Vec<SpriteTile> = vec![
        newSpriteTile_Square(100, 88, 32, 1, 1),
        newSpriteTile_Square(132, 86, 32, 1, 1),
    ];
    let mut guy = falling_guy(110, 105);
    resolve_collisions(&mut guy, &tiles);
    for t in &tiles {
        assert_eq!(
            unit3_game::geom::displacement(&t.collision, &guy.collision_box()),
            None
        );
    }
}
