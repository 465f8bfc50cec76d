use unit3_game::geom::Vec2;
use unit3_game::guy::Guy;

fn resting_guy() -> Guy {
    Guy {
        pos: Vec2 { x: 100, y: 100 },
        vel: Vec2 { x: 0, y: 0 },
        grounded: false,
        frame: 0,
        respawn_pos: Vec2 { x: 160, y: 60 },
    }
}

#[test]
fn jump_while_airborne_changes_nothing() {
    // jump gating: no vertical velocity change unless grounded
    let mut g = resting_guy();
    g.grounded = false;
    g.vel.y = -3;
    g.handle_jump(1);
    assert_eq!(g.vel.y, -3);
    assert!(!g.grounded);
}

#[test]
fn jump_while_grounded_launches_and_ungrounds() {
    let mut g = resting_guy();
    g.grounded = true;
    g.handle_jump(1);
    assert_eq!(g.vel.y, 10);
    assert!(!g.grounded);
}

#[test]
fn gravity_stops_at_terminal_velocity() {
    let mut g = resting_guy();
    g.vel.y = -10;
    g.doGravity();
    assert_eq!(g.vel.y, -11);
    g.doGravity();
    assert_eq!(g.vel.y, -11);
}

#[test]
fn horizontal_velocity_follows_the_axis() {
    let mut g = resting_guy();
    g.setHorzVel(1);
    assert_eq!(g.vel.x, 2);
    g.setHorzVel(-1);
    assert_eq!(g.vel.x, -2);
    g.setHorzVel(0);
    assert_eq!(g.vel.x, 0);
}

#[test]
fn move_integrates_position() {
    let mut g = resting_guy();
    g.moveGuy(1, 0);
    assert_eq!(g.pos.x, 102);
    assert_eq!(g.pos.y, 99);
    assert_eq!(g.vel.y, -1);
}

#[test]
fn idle_frames_cycle_and_restart() {
    let mut g = resting_guy();
    g.frame = 5;
    g.moveGuy(0, 0);
    assert_eq!(g.frame, 16);
    g.frame = 24;
    g.moveGuy(0, 0);
    assert_eq!(g.frame, 25);
    g.moveGuy(0, 0);
    assert_eq!(g.frame, 16);
}

#[test]
fn switching_direction_restarts_that_cycle() {
    let mut g = resting_guy();
    g.frame = 8;
    g.moveGuy(1, 0);
    assert_eq!(g.frame, 0);
    g.frame = 7;
    g.moveGuy(-1, 0);
    assert_eq!(g.frame, 8);
    g.frame = 7;
    g.moveGuy(1, 0);
    assert_eq!(g.frame, 0);
    g.frame = 14;
    g.moveGuy(-1, 0);
    assert_eq!(g.frame, 15);
}

#[test]
fn dying_returns_to_the_checkpoint() {
    let mut g = resting_guy();
    g.die();
    assert_eq!(g.pos, Vec2 { x: 160, y: 60 });
}

#[test]
fn set_respawn_moves_the_checkpoint() {
    let mut g = resting_guy();
    g.set_respawn();
    assert_eq!(g.respawn_pos, Vec2 { x: 100, y: 100 });
}
