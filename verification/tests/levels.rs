use unit3_game::level::{loadLevel, parse_level_grid, LevelError};
use unit3_game::tile::{SpriteTile, TileKind};

fn parsed(text: &[u8], ts: i64, cols: usize) -> (Vec<SpriteTile>, Vec<u16>) {
    let mut tiles = Vec::new();
    let mut doors = Vec::new();
    parse_level_grid(&mut tiles, &mut doors, text, ts, cols).unwrap();
    (tiles, doors)
}

#[test]
fn two_by_two_grid_with_a_door() {
    // a 2x2 grid: the cell at grid position (1,0) is a door texture
    let (tiles, doors) = parsed(b"(1,1) (6,0) (1,1) (1,1)", 32, 2);
    assert_eq!(tiles.len(), 4);
    assert_eq!(doors, vec![1u16]);
    assert_eq!(tiles[1].kind, TileKind::Door);
    assert_eq!(tiles[0].kind, TileKind::Solid);
    // placement advances left to right, wrapping to the next row
    assert_eq!((tiles[0].collision.center.x, tiles[0].collision.center.y), (16, 16));
    assert_eq!((tiles[1].collision.center.x, tiles[1].collision.center.y), (48, 16));
    assert_eq!((tiles[2].collision.center.x, tiles[2].collision.center.y), (16, 48));
    assert_eq!((tiles[3].collision.center.x, tiles[3].collision.center.y), (48, 48));
    assert_eq!((tiles[1].collision.size.x, tiles[1].collision.size.y), (32, 32));
}

#[test]
fn top_half_tiles_sit_high_and_thin() {
    let (tiles, _) = parsed(b"(0,3)", 32, 10);
    assert_eq!(tiles[0].kind, TileKind::HalfTop);
    assert_eq!(tiles[0].collision.center.y, 24);
    assert_eq!((tiles[0].collision.size.x, tiles[0].collision.size.y), (32, 16));
}

#[test]
fn death_textures_give_lethal_bottom_half_tiles() {
    let (tiles, doors) = parsed(b"(0,0) (2,2)", 32, 10);
    assert_eq!(tiles[0].kind, TileKind::Lethal);
    assert_eq!(tiles[1].kind, TileKind::Lethal);
    assert_eq!(tiles[0].collision.center.y, 8);
    assert_eq!((tiles[0].collision.size.x, tiles[0].collision.size.y), (32, 16));
    assert!(doors.is_empty());
}

#[test]
fn the_decorative_column_is_skipped_by_collision() {
    let (tiles, _) = parsed(b"(9,0)", 32, 10);
    assert_eq!(tiles[0].kind, TileKind::Decorative);
}

#[test]
fn malformed_tokens_are_fatal() {
    let mut tiles = Vec::new();
    let mut doors = Vec::new();
    let r = parse_level_grid(&mut tiles, &mut doors, b"(1,1) (x,1)", 32, 2);
    assert_eq!(r, Err(LevelError::Malformed));
    assert!(tiles.is_empty());
    assert!(doors.is_empty());
    let r2 = parse_level_grid(&mut tiles, &mut doors, b"(12,3)", 32, 2);
    assert_eq!(r2, Err(LevelError::Malformed));
}

#[test]
fn empty_text_gives_an_empty_level() {
    let (tiles, doors) = parsed(b"  \n ", 32, 10);
    assert!(tiles.is_empty());
    assert!(doors.is_empty());
}

#[test]
fn load_level_wraps_after_ten_columns() {
    let mut text = Vec::new();
    for _ in 0..11 {
        text.extend_from_slice(b"(1,1) ");
    }
    let mut tiles = Vec::new();
    let mut doors = Vec::new();
    loadLevel(&mut tiles, &mut doors, &text).unwrap();
    assert_eq!(tiles.len(), 11);
    assert_eq!((tiles[9].collision.center.x, tiles[9].collision.center.y), (16 + 9 * 32, 16));
    assert_eq!((tiles[10].collision.center.x, tiles[10].collision.center.y), (16, 48));
}

#[test]
fn door_indices_respect_existing_tiles() {
    // appending to a non-empty tile list offsets the door indices
    let mut tiles = Vec::new();
    let mut doors = Vec::new();
    parse_level_grid(&mut tiles, &mut doors, b"(1,1)", 32, 2).unwrap();
    parse_level_grid(&mut tiles, &mut doors, b"(6,0)", 32, 2).unwrap();
    assert_eq!(tiles.len(), 2);
    assert_eq!(doors, vec![1u16]);
}
