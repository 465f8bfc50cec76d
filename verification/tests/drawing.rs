use unit3_game::game::{new_game, render_platformer, GameMode, LevelData};
use unit3_game::geom::Vec2;
use unit3_game::tile::{getSpriteFromSheet, getSpriteFromSheet_Demo, SheetRegion};

fn levels() -> Vec<LevelData> {
    let mut v = Vec::new();
    for _ in 0..9 {
        v.push(LevelData::from_text(b"(1,1) (0,3)").unwrap());
    }
    v
}

#[test]
fn platformer_render_lists_background_tiles_and_actor() {
    let levels = levels();
    let game = new_game(&levels);
    let r = render_platformer(&game);
    assert_eq!(r.len(), 2 + 2);
    // background fills the screen
    assert_eq!(r[0].area.center, Vec2 { x: 160, y: 120 });
    assert_eq!((r[0].area.size.x, r[0].area.size.y), (320, 240));
    // tiles draw from the tile sheet at their own position
    assert_eq!(r[1].area, game.collision_objects[0].collision);
    assert_eq!(r[1].region.sheet, 1);
    assert_eq!((r[1].region.x, r[1].region.y), (256, 256));
    // the actor's sprite is larger than its collision box and offset a little
    let guy = &r[r.len() - 1];
    assert_eq!(guy.area.center, Vec2 { x: 163, y: 123 });
    assert_eq!((guy.area.size.x, guy.area.size.y), (32, 32));
    assert_eq!(guy.region.sheet, 0);
    // frame 0 of the walking-right cycle, with the sheet margin trimmed
    assert_eq!((guy.region.x, guy.region.y), (24, 434));
    assert_eq!((guy.region.w, guy.region.h), (100, 100));
}

#[test]
fn other_modes_draw_no_platformer_sprites() {
    let levels = levels();
    let mut game = new_game(&levels);
    game.mode = GameMode::Mining;
    assert!(render_platformer(&game).is_empty());
}

#[test]
fn top_half_textures_use_half_a_sheet_cell() {
    let r = getSpriteFromSheet(1, &(0, 3), 9, 256);
    assert_eq!(
        r,
        SheetRegion { sheet: 1, x: 0, y: 768, depth: 9, w: 256, h: 128 }
    );
    let full = getSpriteFromSheet(1, &(1, 1), 9, 256);
    assert_eq!(full.h, 256);
    assert_eq!(full.x, 256);
}

#[test]
fn demo_regions_pass_through_unchanged() {
    let r = getSpriteFromSheet_Demo(0, 24, 434, 8, 100, 100);
    assert_eq!(r, SheetRegion { sheet: 0, x: 24, y: 434, depth: 8, w: 100, h: 100 });
}
