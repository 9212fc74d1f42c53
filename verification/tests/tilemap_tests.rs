use innocent_heart::consts::{
    enemy_positions, BossState, EnemyPosition, GameState, StageState, MAP_WIDTH_TILES, STAGE1_ENEMY_POSITION,
    STAGE1_MAP, STAGE2_ENEMY_POSITION, STAGE2_MAP,
};
use innocent_heart::geometry::{Aabb, Vector, TILE_SIZE};
use innocent_heart::tilemap::{cell_from_char, Cell, TileMap, TilePos};

#[test]
fn characters_stand_for_cells() {
    assert_eq!(cell_from_char('A'), Cell::BackgroundA);
    assert_eq!(cell_from_char('B'), Cell::BackgroundB);
    assert_eq!(cell_from_char('C'), Cell::Wall);
    assert_eq!(cell_from_char(' '), Cell::Empty);
    assert_eq!(cell_from_char('c'), Cell::Empty);
}

#[test]
fn decode_reads_the_rows_from_the_bottom() {
    let map = TileMap::decode(&["AB", "CA", "BC"]);
    assert_eq!(
        map.rows,
        vec![
            vec![Cell::BackgroundB, Cell::Wall],
            vec![Cell::Wall, Cell::BackgroundA],
            vec![Cell::BackgroundA, Cell::BackgroundB],
        ]
    );
}

#[test]
fn decode_takes_rows_of_any_length() {
    let map = TileMap::decode(&["C", "", "AxC"]);
    assert_eq!(map.rows, vec![vec![Cell::BackgroundA, Cell::Empty, Cell::Wall], vec![], vec![Cell::Wall]]);
    let empty: [&str; 0] = [];
    assert_eq!(TileMap::decode(&empty).rows, Vec::<Vec<Cell>>::new());
}

#[test]
fn cells_outside_the_grid_are_empty() {
    let map = TileMap::decode(&["CC", "C"]);
    assert_eq!(map.cell(TilePos { col: 0, row: 0 }), Cell::Wall);
    assert_eq!(map.cell(TilePos { col: 1, row: 0 }), Cell::Empty);
    assert_eq!(map.cell(TilePos { col: 1, row: 1 }), Cell::Wall);
    assert_eq!(map.cell(TilePos { col: 0, row: 2 }), Cell::Empty);
    assert_eq!(map.cell(TilePos { col: u32::MAX, row: u32::MAX }), Cell::Empty);
}

#[test]
fn walls_lists_every_wall_once() {
    let map = TileMap::decode(&["ACA", "CBC"]);
    assert_eq!(
        map.walls(),
        vec![TilePos { col: 0, row: 0 }, TilePos { col: 2, row: 0 }, TilePos { col: 1, row: 1 }]
    );
}

#[test]
fn a_tile_is_centred_on_its_grid_point() {
    let pos = TilePos { col: 3, row: 2 };
    assert_eq!(pos.to_center(), Vector { x: 96_000_000, y: 64_000_000 });
    assert_eq!(
        pos.to_bounds(),
        Aabb { center: Vector { x: 96_000_000, y: 64_000_000 }, size: Vector { x: TILE_SIZE, y: TILE_SIZE } }
    );
    let far = TilePos { col: u32::MAX, row: u32::MAX };
    assert_eq!(far.to_center().x, 32_000_000 * (u32::MAX as i64));
}

#[test]
fn the_stage_maps_are_fifteen_rows_of_a_hundred_cells() {
    assert_eq!(MAP_WIDTH_TILES, 100);
    for map in [STAGE1_MAP, STAGE2_MAP] {
        assert_eq!(map.len(), 15);
        for row in map {
            assert_eq!(row.len(), 100);
            assert!(row.chars().all(|c| c == 'A' || c == 'B' || c == 'C'));
        }
    }
}

#[test]
fn the_first_stage_has_ground_under_the_start() {
    let map = TileMap::decode(&STAGE1_MAP);
    assert_eq!(map.rows.len(), 15);
    assert_eq!(map.cell(TilePos { col: 2, row: 0 }), Cell::Wall);
    assert_eq!(map.cell(TilePos { col: 2, row: 1 }), Cell::Wall);
    assert_eq!(map.cell(TilePos { col: 2, row: 2 }), Cell::BackgroundA);
    // the pit in the ground, and the top left corner of the text
    assert_eq!(map.cell(TilePos { col: 23, row: 1 }), Cell::BackgroundA);
    assert_eq!(map.cell(TilePos { col: 25, row: 0 }), Cell::BackgroundB);
    assert_eq!(map.cell(TilePos { col: 0, row: 14 }), Cell::Wall);
    assert_eq!(map.cell(TilePos { col: 99, row: 14 }), Cell::BackgroundA);
}

#[test]
fn the_stage_maps_hold_as_many_walls_as_their_text_holds_the_letter() {
    for map in [STAGE1_MAP, STAGE2_MAP] {
        let letters: usize = map.iter().map(|row| row.chars().filter(|c| *c == 'C').count()).sum();
        assert_eq!(TileMap::decode(&map).walls().len(), letters);
    }
}

#[test]
fn scenes_and_stages_start_at_their_first() {
    assert_eq!(GameState::default(), GameState::Title);
    assert_eq!(StageState::default(), StageState::Stage1);
    assert_eq!(BossState::default(), BossState::InActive);
}

#[test]
fn enemy_tables_come_out_in_their_order() {
    let first = enemy_positions(StageState::Stage1);
    assert_eq!(first.len(), 25);
    assert_eq!(first[0], EnemyPosition { x: 6, y: 8 });
    assert_eq!(first[24], EnemyPosition { x: 93, y: 12 });
    for (i, p) in first.iter().enumerate() {
        assert_eq!([p.x, p.y], STAGE1_ENEMY_POSITION[i]);
    }
    for stage in [StageState::Stage2, StageState::Boss] {
        let second = enemy_positions(stage);
        assert_eq!(second.len(), 20);
        assert_eq!(second[3], EnemyPosition { x: 16, y: 2 });
        for (i, p) in second.iter().enumerate() {
            assert_eq!([p.x, p.y], STAGE2_ENEMY_POSITION[i]);
        }
    }
}
