use unit3_game::game::{new_game, GameMode, InputState, LevelData};
use unit3_game::geom::Vec2;
use unit3_game::simonsays::{initialize, render_simon_says, update_simon_says};

fn levels() -> Vec<LevelData> {
    let mut v = Vec::new();
    for _ in 0..9 {
        v.push(LevelData::from_text(b"(1,1)").unwrap());
    }
    v
}

fn click_at(x: i64, y: i64) -> InputState {
    let mut input = InputState::idle();
    input.click = Some(Vec2 { x, y });
    input
}

#[test]
fn a_fresh_game_has_a_two_step_pattern() {
    let s = initialize();
    assert_eq!(s.knobs.len(), 4);
    assert_eq!(s.pattern.len(), 2);
    assert!(s.pattern.iter().all(|&p| p < 4));
    assert!(!s.awaitInput);
    assert!(!s.completed);
    assert_eq!(s.pattern_counter, 0);
    // left, right, top, bottom knobs
    assert_eq!(s.knobs[0].0.collision.center, Vec2 { x: 80, y: 120 });
    assert_eq!(s.knobs[1].0.collision.center, Vec2 { x: 240, y: 120 });
    assert_eq!(s.knobs[2].0.collision.center, Vec2 { x: 160, y: 180 });
    assert_eq!(s.knobs[3].0.collision.center, Vec2 { x: 160, y: 60 });
}

#[test]
fn playback_turns_one_knob_per_tick() {
    let levels = levels();
    let mut game = new_game(&levels);
    game.mode = GameMode::SimonSays;
    game.simon_says.pattern = vec![0, 1];
    game.simon_says.pattern_counter = 0;
    game.simon_says.awaitInput = false;
    update_simon_says(&mut game, &InputState::idle());
    assert_eq!(game.simon_says.knobs[0].1, 1);
    assert_eq!(game.simon_says.pattern_counter, 1);
    assert!(!game.simon_says.awaitInput);
    update_simon_says(&mut game, &InputState::idle());
    assert_eq!(game.simon_says.knobs[1].1, 1);
    assert!(game.simon_says.awaitInput);
    assert_eq!(game.simon_says.pattern_counter, 0);
}

#[test]
fn echoing_the_right_knob_advances() {
    let levels = levels();
    let mut game = new_game(&levels);
    game.mode = GameMode::SimonSays;
    game.simon_says.pattern = vec![0, 1];
    game.simon_says.pattern_counter = 0;
    game.simon_says.awaitInput = true;
    // click the left knob, which the pattern expects first
    update_simon_says(&mut game, &click_at(80, 120));
    assert_eq!(game.simon_says.pattern_counter, 1);
    assert!(game.simon_says.awaitInput);
    // the knob turned back one step
    assert_eq!(game.simon_says.knobs[0].1, 7);
}

#[test]
fn echoing_a_wrong_knob_restarts() {
    let levels = levels();
    let mut game = new_game(&levels);
    game.mode = GameMode::SimonSays;
    game.simon_says.pattern = vec![0, 1, 2];
    game.simon_says.pattern_counter = 1;
    game.simon_says.awaitInput = true;
    game.simon_says.knobs[0].1 = 7;
    // the pattern expects the right knob; click the top one instead
    update_simon_says(&mut game, &click_at(160, 180));
    assert_eq!(game.simon_says.pattern, vec![0, 1]);
    assert_eq!(game.simon_says.pattern_counter, 0);
    assert!(!game.simon_says.awaitInput);
    assert_eq!(game.simon_says.knobs[0].1, 0);
    assert!(!game.simon_says.completed);
}

#[test]
fn echoing_a_full_pattern_extends_it() {
    let levels = levels();
    let mut game = new_game(&levels);
    game.mode = GameMode::SimonSays;
    game.simon_says.pattern = vec![3, 3];
    game.simon_says.pattern_counter = 1;
    game.simon_says.awaitInput = true;
    // click the bottom knob, finishing a pattern too short to win
    update_simon_says(&mut game, &click_at(160, 60));
    assert_eq!(game.simon_says.pattern.len(), 3);
    assert_eq!(&game.simon_says.pattern[..2], &[3, 3]);
    assert!(game.simon_says.pattern[2] < 4);
    assert_eq!(game.simon_says.pattern_counter, 0);
    assert!(!game.simon_says.awaitInput);
    assert!(!game.simon_says.completed);
}

#[test]
fn echoing_a_long_pattern_wins() {
    let levels = levels();
    let mut game = new_game(&levels);
    game.mode = GameMode::SimonSays;
    game.simon_says.pattern = vec![2, 2, 2, 2, 2, 2];
    game.simon_says.pattern_counter = 5;
    game.simon_says.awaitInput = true;
    // the sixth correct click finishes a six-step pattern: a win
    update_simon_says(&mut game, &click_at(160, 180));
    assert!(game.simon_says.completed);
    assert_eq!(game.mode, GameMode::Platformer);
}

#[test]
fn clicking_outside_every_knob_does_nothing() {
    let levels = levels();
    let mut game = new_game(&levels);
    game.mode = GameMode::SimonSays;
    game.simon_says.pattern = vec![0, 1];
    game.simon_says.awaitInput = true;
    update_simon_says(&mut game, &click_at(1, 1));
    assert_eq!(game.simon_says.pattern_counter, 0);
    assert!(game.simon_says.awaitInput);
}

#[test]
fn switch_key_leaves_the_pattern_game() {
    let levels = levels();
    let mut game = new_game(&levels);
    game.mode = GameMode::SimonSays;
    game.simon_says.awaitInput = true;
    let mut input = InputState::idle();
    input.switch = true;
    update_simon_says(&mut game, &input);
    assert_eq!(game.mode, GameMode::Platformer);
}

#[test]
fn simon_render_shows_background_and_knobs() {
    let levels = levels();
    let mut game = new_game(&levels);
    assert!(render_simon_says(&game).is_empty());
    game.mode = GameMode::SimonSays;
    let r = render_simon_says(&game);
    assert_eq!(r.len(), 5);
    assert_eq!(r[1].area, game.simon_says.knobs[0].0.collision);
    assert_eq!(r[1].region.sheet, 1);
    assert_eq!(r[1].region.x, 2 * 256);
    assert_eq!(r[1].region.y, 0);
}
