use unit3_game::game::{
    new_game, update_game, update_platformer, GameMode, InputState, LevelData,
    SFX_DOOR, SFX_JUMP,
};
use unit3_game::geom::Vec2;

fn levels() -> Vec<LevelData> {
    // nine small levels; a lone solid tile far away from the play area
    let mut v = Vec::new();
    for _ in 0..9 {
        v.push(LevelData::from_text(b"(1,1)").unwrap());
    }
    v
}

fn idle() -> InputState {
    InputState::idle()
}

#[test]
fn confirm_in_an_open_door_starts_the_minigame() {
    // platforming with the lower door open: confirm inside the doorway hands
    // control to the pattern game, the level id staying put until the game
    // reports completion
    let levels = levels();
    let mut game = new_game(&levels);
    game.level = 1;
    game.guy.pos = Vec2 { x: 260, y: 100 };
    let mut input = idle();
    input.confirm = true;
    let effects = update_platformer(&mut game, &input, &levels);
    assert_eq!(game.mode, GameMode::SimonSays);
    assert_eq!(game.level, 1);
    assert_eq!(effects.sfx, vec![SFX_DOOR]);
}

#[test]
fn entering_a_door_region_opens_it() {
    let levels = levels();
    let mut game = new_game(&levels);
    game.guy.pos = Vec2 { x: 260, y: 101 };
    update_platformer(&mut game, &idle(), &levels);
    // gravity pulls the actor to y 100, inside the lower door region
    assert_eq!(game.level, 1);
}

#[test]
fn leaving_the_doorway_closes_the_door() {
    let levels = levels();
    let mut game = new_game(&levels);
    game.level = 1;
    game.guy.pos = Vec2 { x: 200, y: 100 };
    update_platformer(&mut game, &idle(), &levels);
    assert_eq!(game.level, 0);
}

#[test]
fn minigame_completion_advances_the_level() {
    let levels = levels();
    let mut game = new_game(&levels);
    game.level = 1;
    game.guy.pos = Vec2 { x: 260, y: 100 };
    game.simon_says.completed = true;
    update_platformer(&mut game, &idle(), &levels);
    assert_eq!(game.level, 5);
    assert!(!game.simon_says.completed);
}

#[test]
fn cancel_in_the_top_area_restarts() {
    let levels = levels();
    let mut game = new_game(&levels);
    game.level = 2;
    game.guy.pos = Vec2 { x: 200, y: 100 };
    let mut input = idle();
    input.cancel = true;
    update_platformer(&mut game, &input, &levels);
    assert_eq!(game.level, 0);
    assert_eq!(game.guy.respawn_pos, Vec2 { x: 160, y: 60 });
}

#[test]
fn checkpoint_updates_in_the_top_area() {
    let levels = levels();
    let mut game = new_game(&levels);
    game.level = 2;
    // high up, with the initial checkpoint still set
    game.guy.pos = Vec2 { x: 50, y: 200 };
    game.guy.respawn_pos = Vec2 { x: 160, y: 60 };
    update_platformer(&mut game, &idle(), &levels);
    // the checkpoint follows the actor's position after this tick's physics
    assert_eq!(game.guy.respawn_pos, Vec2 { x: 50, y: 199 });
}

#[test]
fn reload_key_returns_to_the_start() {
    let levels = levels();
    let mut game = new_game(&levels);
    game.level = 7;
    game.guy.pos = Vec2 { x: 200, y: 200 };
    let mut input = idle();
    input.reload = true;
    update_platformer(&mut game, &input, &levels);
    assert_eq!(game.level, 0);
    assert_eq!(game.guy.pos, Vec2 { x: 160, y: 60 });
}

#[test]
fn reset_key_respawns_the_actor() {
    let levels = levels();
    let mut game = new_game(&levels);
    game.guy.pos = Vec2 { x: 300, y: 200 };
    game.guy.respawn_pos = Vec2 { x: 100, y: 100 };
    let mut input = idle();
    input.reset = true;
    update_platformer(&mut game, &input, &levels);
    assert_eq!(game.guy.pos, Vec2 { x: 100, y: 100 });
}

#[test]
fn a_fresh_jump_plays_the_jump_sound() {
    let levels = levels();
    let mut game = new_game(&levels);
    game.guy.grounded = true;
    let mut input = idle();
    input.vert = 1;
    let effects = update_platformer(&mut game, &input, &levels);
    assert_eq!(effects.sfx, vec![SFX_JUMP]);
    assert_eq!(game.guy.vel.y, 9);
    assert!(!game.guy.grounded);
}

#[test]
fn final_door_leads_to_the_mining_game() {
    let levels = levels();
    let mut game = new_game(&levels);
    game.level = 8;
    game.guy.pos = Vec2 { x: 40, y: 60 };
    let mut input = idle();
    input.confirm = true;
    update_platformer(&mut game, &input, &levels);
    assert_eq!(game.mode, GameMode::Mining);
    assert_eq!(game.level, 8);
    assert!(!game.mining.completed);
    assert_eq!(game.mining.prize_hits, 0);
}

#[test]
fn mining_completion_restarts_the_run() {
    let levels = levels();
    let mut game = new_game(&levels);
    game.level = 8;
    game.guy.pos = Vec2 { x: 40, y: 60 };
    game.mining.completed = true;
    let effects = update_platformer(&mut game, &idle(), &levels);
    assert_eq!(game.level, 0);
    assert!(!game.mining.completed);
    assert_eq!(game.guy.respawn_pos, Vec2 { x: 160, y: 60 });
    assert_eq!(effects.sfx, vec![SFX_DOOR]);
}

#[test]
fn update_game_dispatches_by_mode() {
    let levels = levels();
    let mut game = new_game(&levels);
    game.mode = GameMode::SimonSays;
    let before_level = game.level;
    let before_guy = game.guy;
    let effects = update_game(&mut game, &idle(), &levels);
    // a minigame tick never touches the platformer's state
    assert_eq!(game.level, before_level);
    assert_eq!(game.guy, before_guy);
    assert!(effects.sfx.is_empty());
}
