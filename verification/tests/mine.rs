use unit3_game::game::{new_game, GameMode, InputState, LevelData};
use unit3_game::geom::Vec2;
use unit3_game::mining::{initialize, render_mining, update_mining};

fn levels() -> Vec<LevelData> {
    let mut v = Vec::new();
    for _ in 0..9 {
        v.push(LevelData::from_text(b"(1,1)").unwrap());
    }
    v
}

fn click_at(x: i64, y: i64) -> InputState {
    let mut input = InputState::idle();
    input.click = Some(Vec2 { x, y });
    input
}

#[test]
fn a_fresh_mine_is_fully_iced() {
    let s = initialize();
    assert_eq!(s.obstacles.len(), 1 + 9 * 13);
    assert_eq!(s.grid.len(), 9 * 13);
    assert!(!s.completed);
    assert_eq!(s.prize_hits, 0);
    // the prize sits on some cell of the grid
    assert!(s.prize.0 >= 13 && s.prize.0 <= 13 + 12 * 25);
    assert!((s.prize.0 - 13) % 25 == 0);
    assert!(s.prize.1 <= 215 && s.prize.1 >= 215 - 8 * 25);
    assert_eq!(s.obstacles[0].0.collision.center, Vec2 { x: s.prize.0, y: s.prize.1 });
    // every block starts intact
    assert!(s.obstacles[1..].iter().all(|o| o.0.tex_coord == (6, 11)));
}

#[test]
fn ice_wears_down_in_three_stages() {
    let levels = levels();
    let mut game = new_game(&levels);
    game.mode = GameMode::Mining;
    // pick a cell away from the prize
    let (cx, cy) = if game.mining.prize == (13, 215) {
        (38, 215)
    } else {
        (13, 215)
    };
    let idx = 1 + ((215 - cy) / 25) as usize * 13 + ((cx - 13) / 25) as usize;
    update_mining(&mut game, &click_at(cx, cy));
    assert_eq!(game.mining.obstacles[idx].0.tex_coord, (6, 12));
    update_mining(&mut game, &click_at(cx, cy));
    assert_eq!(game.mining.obstacles[idx].0.tex_coord, (7, 12));
    update_mining(&mut game, &click_at(cx, cy));
    // crumbled away: the box collapses and stops catching clicks
    assert_eq!(game.mining.obstacles[idx].0.collision.size, Vec2 { x: 0, y: 0 });
    let before = game.mining.obstacles[idx];
    update_mining(&mut game, &click_at(cx, cy));
    assert_eq!(game.mining.obstacles[idx], before);
}

#[test]
fn uncovering_the_prize_completes_the_game() {
    let levels = levels();
    let mut game = new_game(&levels);
    game.mode = GameMode::Mining;
    let (px, py) = game.mining.prize;
    // three clicks wear through to the prize
    for hits in 1..=3usize {
        update_mining(&mut game, &click_at(px, py));
        assert_eq!(game.mining.prize_hits, hits);
        assert!(!game.mining.completed);
    }
    // the next click reveals it front and center
    update_mining(&mut game, &click_at(px, py));
    assert_eq!(game.mining.prize_hits, 4);
    assert_eq!(game.mining.obstacles[0].0.collision.center, Vec2 { x: 140, y: 120 });
    assert_eq!(game.mining.obstacles[0].0.collision.size, Vec2 { x: 64, y: 64 });
    // and one click on the revealed prize wins
    update_mining(&mut game, &click_at(140, 120));
    assert!(game.mining.completed);
    assert_eq!(game.mining.prize_hits, 0);
    assert_eq!(game.mode, GameMode::Platformer);
}

#[test]
fn switch_key_leaves_the_mine() {
    let levels = levels();
    let mut game = new_game(&levels);
    game.mode = GameMode::Mining;
    let mut input = InputState::idle();
    input.switch = true;
    update_mining(&mut game, &input);
    assert_eq!(game.mode, GameMode::Platformer);
}

#[test]
fn mine_render_lists_prize_then_ice() {
    let levels = levels();
    let mut game = new_game(&levels);
    assert!(render_mining(&game).is_empty());
    game.mode = GameMode::Mining;
    let r = render_mining(&game);
    assert_eq!(r.len(), 1 + game.mining.obstacles.len());
    assert_eq!(r[1].area, game.mining.obstacles[0].0.collision);
    // the hidden prize is drawn behind the ice
    assert_eq!(r[1].region.depth, 15);
    assert_eq!(r[2].region.depth, 14);
}
