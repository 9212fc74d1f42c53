use innocent_heart::geometry::{overlap, Aabb, Direction, Side, Vector, CHARACTER_SIZE, COORD_LIMIT, TILE_SIZE, UNIT};

fn square(x: i64, y: i64, size: i64) -> Aabb {
    Aabb { center: Vector { x, y }, size: Vector { x: size, y: size } }
}

#[test]
fn units_are_millionths() {
    assert_eq!(UNIT, 1_000_000);
    assert_eq!(TILE_SIZE, 32 * UNIT);
    assert_eq!(CHARACTER_SIZE, 32 * UNIT);
}

#[test]
fn boxes_apart_do_not_overlap() {
    assert_eq!(overlap(square(0, 0, 32), square(100, 0, 32)), None);
    assert_eq!(overlap(square(0, 0, 32), square(0, -100, 32)), None);
}

#[test]
fn boxes_that_only_touch_do_not_overlap() {
    assert_eq!(overlap(square(0, 0, 32), square(32, 0, 32)), None);
    assert_eq!(overlap(square(0, 0, 32), square(0, 32, 32)), None);
    assert_eq!(overlap(square(0, 0, 32), square(-32, -32, 32)), None);
}

#[test]
fn overlap_from_the_left_is_left() {
    assert_eq!(overlap(square(0, 0, 32), square(30, 0, 32)), Some(Side::Left));
}

#[test]
fn overlap_from_the_right_is_right() {
    assert_eq!(overlap(square(30, 0, 32), square(0, 0, 32)), Some(Side::Right));
}

#[test]
fn overlap_from_above_is_top() {
    assert_eq!(overlap(square(0, 30, 32), square(0, 0, 32)), Some(Side::Top));
}

#[test]
fn overlap_from_below_is_bottom() {
    assert_eq!(overlap(square(0, -30, 32), square(0, 0, 32)), Some(Side::Bottom));
}

#[test]
fn equal_boxes_are_inside() {
    assert_eq!(overlap(square(5, 7, 32), square(5, 7, 32)), Some(Side::Inside));
}

#[test]
fn a_small_box_within_a_large_one_is_inside() {
    assert_eq!(overlap(square(0, 0, 8), square(1, 1, 32)), Some(Side::Inside));
    assert_eq!(overlap(square(1, 1, 32), square(0, 0, 8)), Some(Side::Inside));
}

#[test]
fn the_smaller_penetration_names_the_side() {
    // 2 deep from the left, 20 deep from above
    assert_eq!(overlap(square(0, 12, 32), square(30, 0, 32)), Some(Side::Left));
    // 20 deep from the left, 2 deep from above
    assert_eq!(overlap(square(12, 30, 32), square(32, 0, 32)), Some(Side::Top));
    // 20 deep from the right, 3 deep from below
    assert_eq!(overlap(square(12, -29, 32), square(0, 0, 32)), Some(Side::Bottom));
}

#[test]
fn equal_penetration_names_the_horizontal_side() {
    assert_eq!(overlap(square(0, 0, 32), square(30, 30, 32)), Some(Side::Left));
    assert_eq!(overlap(square(30, 30, 32), square(0, 0, 32)), Some(Side::Right));
}

#[test]
fn a_shared_edge_on_one_axis_leaves_the_other_axis_to_name_the_side() {
    // same columns, entering from above
    assert_eq!(overlap(square(64, 70, 32), square(64, 64, 32)), Some(Side::Top));
    // same rows, entering from the left
    assert_eq!(overlap(square(60, 64, 32), square(64, 64, 32)), Some(Side::Left));
}

#[test]
fn odd_sizes_need_no_rounding() {
    // a: 0..3, b: 3..6 on x: they only touch
    let a = Aabb { center: Vector { x: 1, y: 0 }, size: Vector { x: 3, y: 3 } };
    let b = Aabb { center: Vector { x: 4, y: 0 }, size: Vector { x: 3, y: 3 } };
    assert_eq!(overlap(a, b), None);
    // a: -0.5..2.5 reaches half a unit into b: 2..5
    let c = Aabb { center: Vector { x: 1, y: 0 }, size: Vector { x: 3, y: 3 } };
    let d = Aabb { center: Vector { x: 3, y: 0 }, size: Vector { x: 2, y: 3 } };
    assert_eq!(overlap(c, d), Some(Side::Left));
}

#[test]
fn overlap_works_at_the_ends_of_the_integers() {
    let a = Aabb { center: Vector { x: i64::MAX, y: i64::MAX }, size: Vector { x: i64::MAX, y: i64::MAX } };
    let b = Aabb { center: Vector { x: i64::MIN, y: i64::MIN }, size: Vector { x: 2, y: 2 } };
    assert_eq!(overlap(a, b), None);
    assert_eq!(overlap(a, a), Some(Side::Inside));
}

#[test]
fn character_box_is_one_character_wide() {
    let b = Aabb::of_character(Vector { x: 5, y: 6 });
    assert_eq!(b, Aabb { center: Vector { x: 5, y: 6 }, size: Vector { x: CHARACTER_SIZE, y: CHARACTER_SIZE } });
}

#[test]
fn direction_steps_left_and_right() {
    assert_eq!(Direction::Left.step_from(10, 4), 6);
    assert_eq!(Direction::Right.step_from(10, 4), 14);
}

#[test]
fn limit_test_on_vectors() {
    assert!(Vector { x: COORD_LIMIT, y: -COORD_LIMIT }.is_within_limit());
    assert!(!Vector { x: COORD_LIMIT + 1, y: 0 }.is_within_limit());
    assert!(!Vector { x: 0, y: -COORD_LIMIT - 1 }.is_within_limit());
}
