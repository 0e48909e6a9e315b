use undefended::map::{
    map_to_world, path_dots, segment_tiles, spawn_map, start_tile, tile_code, tile_for, waypoint,
    FloorAction, Item, ItemSpawner, MovingFloor, MovingFloorDirection, MovingFloorState, TileKind,
    TileModel, TilePos, WorldPos, MAP, MAP_COLS, MAP_ROWS,
};
use undefended::timer::NANOS_PER_SEC;

fn tile(x: u32, y: u32) -> TilePos {
    TilePos { x, y }
}

#[test]
fn the_grid_is_fifteen_by_fifteen() {
    assert_eq!(MAP_ROWS, 15);
    assert_eq!(MAP_COLS, 15);
    assert_eq!(MAP.len(), 15);
    assert_eq!(MAP[0].len(), 15);
}

#[test]
fn tile_codes_of_the_special_cells() {
    assert_eq!(tile_code(11, 13), 3);
    assert_eq!(tile_code(12, 13), 4);
    assert_eq!(tile_code(12, 10), 2);
    assert_eq!(tile_code(12, 5), 1);
    assert_eq!(tile_code(0, 0), 0);
    assert_eq!(tile_code(2, 5), 1);
    assert_eq!(tile_code(2, 4), 0);
}

#[test]
fn the_grid_is_centred_on_the_origin() {
    assert_eq!(map_to_world(tile(7, 7)), WorldPos { x: 0, y: 0, z: 0 });
    assert_eq!(map_to_world(tile(0, 0)), WorldPos { x: -14, y: 0, z: -14 });
    assert_eq!(map_to_world(tile(14, 14)), WorldPos { x: 14, y: 0, z: 14 });
    assert_eq!(map_to_world(tile(12, 11)), WorldPos { x: 10, y: 0, z: 8 });
    assert_eq!(map_to_world(tile(0, 4)), WorldPos { x: -14, y: 0, z: -6 });
}

#[test]
fn far_tiles_have_far_places() {
    assert_eq!(
        map_to_world(tile(u32::MAX, 0)),
        WorldPos { x: (u32::MAX as i64 - 7) * 2, y: 0, z: -14 }
    );
}

#[test]
fn the_path_has_eight_waypoints() {
    let expected = [(0, 4), (11, 4), (11, 10), (6, 10), (6, 9), (3, 9), (3, 7), (0, 7)];
    for (i, (x, y)) in expected.iter().enumerate() {
        assert_eq!(waypoint(i), Some(tile(*x, *y)));
    }
    assert_eq!(waypoint(8), None);
    assert_eq!(waypoint(usize::MAX), None);
}

#[test]
fn the_player_starts_beside_the_spawners() {
    assert_eq!(start_tile(), tile(12, 11));
}

#[test]
fn item_labels() {
    assert_eq!(Item::TowerKit.label(), "Tower Kit");
    assert_eq!(Item::LaserAmmo.label(), "Ammo");
}

#[test]
fn the_map_has_thirty_two_tiles() {
    let tiles = spawn_map();
    assert_eq!(tiles.len(), 32);
    let mut expected = Vec::new();
    for row in 0..15 {
        for col in 0..15 {
            if MAP[row][col] != 0 && MAP[row][col] != 2 {
                expected.push(tile(col as u32, row as u32));
            }
        }
    }
    let got: Vec<TilePos> = tiles.iter().map(|t| t.pos).collect();
    assert_eq!(got, expected);
}

#[test]
fn the_map_has_two_spawners_and_one_ferry() {
    let tiles = spawn_map();
    let kits: Vec<_> =
        tiles.iter().filter(|t| t.kind == TileKind::Spawner(Item::TowerKit)).collect();
    let ammo: Vec<_> =
        tiles.iter().filter(|t| t.kind == TileKind::Spawner(Item::LaserAmmo)).collect();
    let ferries: Vec<_> = tiles.iter().filter(|t| t.ferry).collect();
    assert_eq!(kits.len(), 1);
    assert_eq!(kits[0].pos, tile(13, 11));
    assert_eq!(kits[0].model, TileModel::ItemSpawner);
    assert_eq!(ammo.len(), 1);
    assert_eq!(ammo[0].pos, tile(13, 12));
    assert_eq!(ammo[0].model, TileModel::ItemSpawner);
    assert_eq!(ferries.len(), 1);
    assert_eq!(ferries[0].pos, tile(5, 12));
    assert_eq!(ferries[0].kind, TileKind::Floor);
}

#[test]
fn chance_stays_within_its_bounds() {
    for _ in 0..50 {
        for t in spawn_map() {
            assert!(t.quarter_turns < 3);
            if t.kind == TileKind::Floor {
                assert!(t.model != TileModel::ItemSpawner);
            }
        }
    }
}

#[test]
fn chance_uses_every_floor_scene_and_turn() {
    let mut models = [false; 4];
    let mut turns = [false; 3];
    for _ in 0..200 {
        for t in spawn_map() {
            turns[t.quarter_turns as usize] = true;
            match t.model {
                TileModel::Tile1 => models[0] = true,
                TileModel::Tile2 => models[1] = true,
                TileModel::Tile3 => models[2] = true,
                TileModel::Tile4 => models[3] = true,
                TileModel::ItemSpawner => {}
            }
        }
    }
    assert_eq!(models, [true; 4]);
    assert_eq!(turns, [true; 3]);
}

#[test]
fn a_tile_goes_by_its_code() {
    let floor = tile_for(2, 5, 1, TileModel::Tile3, 2);
    assert_eq!(floor.pos, tile(5, 2));
    assert_eq!(floor.kind, TileKind::Floor);
    assert_eq!(floor.model, TileModel::Tile3);
    assert_eq!(floor.quarter_turns, 2);
    assert!(!floor.ferry);
    let kit = tile_for(11, 13, 3, TileModel::Tile1, 0);
    assert_eq!(kit.kind, TileKind::Spawner(Item::TowerKit));
    assert_eq!(kit.model, TileModel::ItemSpawner);
    let ammo = tile_for(12, 13, 4, TileModel::Tile2, 1);
    assert_eq!(ammo.kind, TileKind::Spawner(Item::LaserAmmo));
    assert_eq!(ammo.model, TileModel::ItemSpawner);
    let ferry = tile_for(12, 5, 1, TileModel::Tile1, 0);
    assert!(ferry.ferry);
}

#[test]
fn a_stretch_holds_each_cell_once() {
    let mut got = segment_tiles(tile(11, 10), tile(6, 10));
    got.sort_by_key(|t| (t.x, t.y));
    let expected: Vec<TilePos> = (6..=11).map(|x| tile(x, 10)).collect();
    assert_eq!(got, expected);
}

#[test]
fn a_stretch_of_one_cell() {
    assert_eq!(segment_tiles(tile(3, 3), tile(3, 3)), vec![tile(3, 3)]);
}

#[test]
fn a_stretch_at_the_edge_of_the_numbers() {
    let got = segment_tiles(tile(u32::MAX, u32::MAX - 1), tile(u32::MAX - 1, u32::MAX));
    assert_eq!(got.len(), 4);
    assert!(got.contains(&tile(u32::MAX, u32::MAX)));
    assert!(got.contains(&tile(u32::MAX - 1, u32::MAX - 1)));
}

#[test]
fn a_rectangle_between_two_corners() {
    let got = segment_tiles(tile(2, 5), tile(0, 4));
    assert_eq!(got.len(), 6);
    for x in 0..=2 {
        for y in 4..=5 {
            assert_eq!(got.iter().filter(|t| **t == tile(x, y)).count(), 1);
        }
    }
}

#[test]
fn the_path_has_thirty_eight_markers() {
    let dots = path_dots();
    assert_eq!(dots.len(), 38);
    for i in 0..8 {
        assert!(dots.contains(&waypoint(i).unwrap()));
    }
    assert!(dots.contains(&tile(5, 4)));
    assert!(dots.contains(&tile(11, 7)));
    assert!(!dots.contains(&tile(12, 4)));
    assert!(!dots.contains(&tile(0, 5)));
    assert_eq!(dots.iter().filter(|t| **t == tile(11, 4)).count(), 2);
    assert_eq!(dots.iter().filter(|t| **t == tile(0, 4)).count(), 1);
}

#[test]
fn a_primed_spawner_spawns_at_once() {
    let mut spawner = ItemSpawner::new(Item::TowerKit, 30 * NANOS_PER_SEC, 30 * NANOS_PER_SEC);
    assert_eq!(spawner.spawned, 0);
    assert_eq!(spawner.item_spawner(0), Some(Item::TowerKit));
    assert_eq!(spawner.spawned, 1);
    assert_eq!(spawner.item_spawner(NANOS_PER_SEC), None);
    assert_eq!(spawner.spawned, 1);
}

#[test]
fn a_spawner_waits_for_its_item_to_be_taken() {
    let mut spawner = ItemSpawner::new(Item::LaserAmmo, 2 * NANOS_PER_SEC, 2 * NANOS_PER_SEC - 119);
    assert_eq!(spawner.item_spawner(100), None);
    assert_eq!(spawner.item_spawner(100), Some(Item::LaserAmmo));
    spawner.item_spawner_reset(1);
    assert_eq!(spawner.item_spawner(10 * NANOS_PER_SEC), None);
    spawner.item_spawner_reset(0);
    assert_eq!(spawner.timer.elapsed, 0);
    assert_eq!(spawner.item_spawner(NANOS_PER_SEC), None);
    assert_eq!(spawner.item_spawner(NANOS_PER_SEC), Some(Item::LaserAmmo));
    assert_eq!(spawner.spawned, 2);
}

#[test]
fn direction_toggles() {
    let mut direction = MovingFloorDirection::Forward;
    direction.toggle();
    assert_eq!(direction, MovingFloorDirection::Backward);
    direction.toggle();
    assert_eq!(direction, MovingFloorDirection::Forward);
}

#[test]
fn the_ferry_looks_ahead() {
    let mut floor = MovingFloor::new(vec![tile(5, 12), tile(10, 12)], NANOS_PER_SEC);
    assert_eq!(floor.next_waypoint_index(), Some(1));
    assert_eq!(floor.next_waypoint(), Some(tile(10, 12)));
    floor.advance();
    assert_eq!(floor.index, 1);
    assert_eq!(floor.next_waypoint_index(), None);
    assert_eq!(floor.next_waypoint(), None);
    floor.advance();
    assert_eq!(floor.index, 1);
    floor.direction.toggle();
    assert_eq!(floor.next_waypoint_index(), Some(0));
    assert_eq!(floor.next_waypoint(), Some(tile(5, 12)));
    floor.advance();
    assert_eq!(floor.index, 0);
    assert_eq!(floor.next_waypoint(), None);
}

#[test]
fn the_ferry_goes_to_and_fro() {
    let mut floor = MovingFloor::new(vec![tile(5, 12), tile(10, 12)], NANOS_PER_SEC);
    assert_eq!(floor.moving_floor(NANOS_PER_SEC / 2, false), FloorAction::Keep);
    assert_eq!(floor.state, MovingFloorState::Dwell);
    assert_eq!(floor.moving_floor(NANOS_PER_SEC / 2, false), FloorAction::Keep);
    assert_eq!(floor.state, MovingFloorState::Move);
    assert_eq!(floor.dwell_timer.elapsed, 0);
    assert_eq!(floor.moving_floor(1, false), FloorAction::Approach(tile(10, 12)));
    assert_eq!(floor.index, 0);
    assert_eq!(floor.moving_floor(1, true), FloorAction::Stop);
    assert_eq!(floor.index, 1);
    assert_eq!(floor.moving_floor(1, false), FloorAction::Keep);
    assert_eq!(floor.state, MovingFloorState::Dwell);
    assert_eq!(floor.direction, MovingFloorDirection::Backward);
    assert_eq!(floor.moving_floor(NANOS_PER_SEC, false), FloorAction::Keep);
    assert_eq!(floor.state, MovingFloorState::Move);
    assert_eq!(floor.moving_floor(1, false), FloorAction::Approach(tile(5, 12)));
    assert_eq!(floor.moving_floor(1, true), FloorAction::Stop);
    assert_eq!(floor.index, 0);
}
