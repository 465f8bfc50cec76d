use unit3_game::connectwires::{
    get_pos, initialize, palette_match, render_connect_wires, sum_correct, update_connect_wires,
    Color,
};
use unit3_game::game::{new_game, GameMode, InputState, LevelData};
use unit3_game::geom::Vec2;

fn levels() -> Vec<LevelData> {
    let mut v = Vec::new();
    for _ in 0..9 {
        v.push(LevelData::from_text(b"(1,1)").unwrap());
    }
    v
}

fn click_at(x: i64, y: i64) -> InputState {
    let mut input = InputState::idle();
    input.click = Some(Vec2 { x, y });
    input
}

#[test]
fn a_fresh_board_is_blank() {
    let s = initialize();
    assert_eq!(s.squares.len(), 25);
    assert_eq!(s.grid.len(), 25);
    assert_eq!(s.palette.len(), 15);
    assert_eq!(s.correct.len(), 5);
    assert!(s.correct.iter().all(|r| r.is_empty()));
    assert_eq!(s.color, Color::Pink);
    assert!(!s.completed);
    // board corners
    assert_eq!(s.grid[0], (90, 190));
    assert_eq!(s.grid[4], (230, 190));
    assert_eq!(s.grid[24], (230, 50));
}

#[test]
fn grid_positions_follow_the_step_formula() {
    assert_eq!(get_pos(90, 35, 0), 90);
    assert_eq!(get_pos(90, 35, 3), 195);
    assert_eq!(get_pos(190, -35, 4), 50);
}

#[test]
fn palette_row_is_recognised_by_height() {
    let s = initialize();
    assert!(palette_match(&s.palette[0]));
    assert!(!palette_match(&s.palette[5]));
}

#[test]
fn sum_of_every_wire_path_is_the_winning_total() {
    let full: Vec<Vec<i16>> = vec![
        vec![7],
        vec![17, 22],
        vec![11, 12, 13, 14, 19, 24],
        vec![0, 1, 2, 3, 4],
        vec![15],
    ];
    assert_eq!(sum_correct(&full), 164);
    let empty: Vec<Vec<i16>> = vec![vec![], vec![], vec![], vec![], vec![]];
    assert_eq!(sum_correct(&empty), 0);
}

#[test]
fn painting_a_wire_square_records_it() {
    let levels = levels();
    let mut game = new_game(&levels);
    game.mode = GameMode::ConnectWires;
    // board position 7 (row 1, column 2) lies on pink's wire path
    update_connect_wires(&mut game, &click_at(160, 155));
    assert_eq!(game.connect_wires.correct[0], vec![7i16]);
    assert_eq!(game.connect_wires.palette.len(), 16);
    let painted = game.connect_wires.palette[15];
    assert_eq!(painted.0.collision.center, Vec2 { x: 160, y: 155 });
    assert_eq!(painted.0.tex_coord, (10, 2));
    // painting it twice records nothing new
    update_connect_wires(&mut game, &click_at(160, 155));
    assert_eq!(game.connect_wires.correct[0], vec![7i16]);
}

#[test]
fn painting_off_the_wire_records_nothing() {
    let levels = levels();
    let mut game = new_game(&levels);
    game.mode = GameMode::ConnectWires;
    // board position 0 is not on pink's path
    update_connect_wires(&mut game, &click_at(90, 190));
    assert!(game.connect_wires.correct[0].is_empty());
    assert_eq!(game.connect_wires.palette.len(), 16);
}

#[test]
fn clicking_a_palette_circle_selects_its_color() {
    let levels = levels();
    let mut game = new_game(&levels);
    game.mode = GameMode::ConnectWires;
    update_connect_wires(&mut game, &click_at(140, 230));
    assert_eq!(game.connect_wires.color, Color::Green);
    update_connect_wires(&mut game, &click_at(200, 230));
    assert_eq!(game.connect_wires.color, Color::Purple);
}

#[test]
fn a_complete_board_wins_the_game() {
    let levels = levels();
    let mut game = new_game(&levels);
    game.mode = GameMode::ConnectWires;
    game.connect_wires.correct = vec![
        vec![7],
        vec![17, 22],
        vec![11, 12, 13, 14, 19, 24],
        vec![0, 1, 2, 3, 4],
        vec![15],
    ];
    update_connect_wires(&mut game, &InputState::idle());
    assert!(game.connect_wires.completed);
    assert_eq!(game.mode, GameMode::Platformer);
}

#[test]
fn cancel_abandons_the_board() {
    let levels = levels();
    let mut game = new_game(&levels);
    game.mode = GameMode::ConnectWires;
    let mut input = InputState::idle();
    input.cancel = true;
    update_connect_wires(&mut game, &input);
    assert_eq!(game.mode, GameMode::Platformer);
    assert!(!game.connect_wires.completed);
}

#[test]
fn wires_render_lists_palette_before_board() {
    let levels = levels();
    let mut game = new_game(&levels);
    assert!(render_connect_wires(&game).is_empty());
    game.mode = GameMode::ConnectWires;
    let r = render_connect_wires(&game);
    assert_eq!(r.len(), 1 + 15 + 25);
    // the palette is drawn latest-first
    assert_eq!(r[1].area, game.connect_wires.palette[14].0.collision);
    assert_eq!(r[16].area, game.connect_wires.squares[0].0.collision);
}
