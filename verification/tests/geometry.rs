use unit3_game::geom::{displacement, overlaps, Aabb, Vec2};

fn boxed(cx: i64, cy: i64, w: i64, h: i64) -> Aabb {
    Aabb { center: Vec2 { x: cx, y: cy }, size: Vec2 { x: w, y: h } }
}

#[test]
fn displacement_gives_exact_penetration_depths() {
    // floor tile and an actor box sunk two units into it
    let tile = boxed(100, 90, 32, 8);
    let guy = boxed(100, 100, 16, 16);
    assert!(overlaps(&tile, &guy));
    let d = displacement(&tile, &guy).unwrap();
    assert_eq!(d.x, 16);
    assert_eq!(d.y, 2);
}

#[test]
fn applying_the_depth_makes_the_pair_tangent() {
    let tile = boxed(100, 90, 32, 8);
    let guy = boxed(100, 100, 16, 16);
    let d = displacement(&tile, &guy).unwrap();
    // push the actor up by the vertical depth: exactly tangent, no overlap left
    let moved = boxed(100, 100 + d.y, 16, 16);
    assert!(!overlaps(&tile, &moved));
    assert_eq!(displacement(&tile, &moved), None);
    // one unit less would still overlap
    let short = boxed(100, 100 + d.y - 1, 16, 16);
    assert!(overlaps(&tile, &short));
}

#[test]
fn non_overlapping_pairs_give_none() {
    let a = boxed(0, 0, 10, 10);
    let b = boxed(100, 100, 10, 10);
    assert_eq!(displacement(&a, &b), None);
    assert!(!overlaps(&a, &b));
}

#[test]
fn touching_boxes_do_not_overlap() {
    // boxes sharing an edge: tangent, not overlapping
    let a = boxed(0, 0, 10, 10);
    let b = boxed(10, 0, 10, 10);
    assert!(!overlaps(&a, &b));
    assert_eq!(displacement(&a, &b), None);
}

#[test]
fn contains_includes_the_boundary() {
    let a = boxed(0, 0, 10, 10);
    assert!(a.contains(0, 0));
    assert!(a.contains(5, 5));
    assert!(a.contains(-5, 5));
    assert!(!a.contains(6, 0));
    assert!(!a.contains(0, -6));
}

#[test]
fn odd_sized_boxes_contain_points_exactly() {
    // a 23-wide box reaches 11.5 units out: 11 is in, 12 is out
    let a = boxed(0, 0, 23, 23);
    assert!(a.contains(11, 0));
    assert!(!a.contains(12, 0));
}
