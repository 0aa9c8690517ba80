use cowboy_tower::assets::{Level, SIDE_WALL_DEPTH, SIDE_WALL_TILE};
use cowboy_tower::fixed::Vec2;
use cowboy_tower::utils::{default_wall_climb_tiles, is_death_tile, BARRIER_TILE};

fn grid_level(rows: &[&str], min_x: i16, min_y: i16) -> Level {
    let width = rows[0].len();
    let mut data = Vec::new();
    for row in rows {
        assert_eq!(row.len(), width);
        for c in row.chars() {
            let cell: [u16; 4] = match c {
                '#' => [0, 5, 0, 0],
                'x' => [0, 129, 0, 0],
                'B' => [0, 0, 0, BARRIER_TILE + 1],
                'C' => [0, 7, 0, 513],
                'D' => [3, 9, 4, 514],
                _ => [0, 0, 0, 0],
            };
            data.push(cell);
        }
    }
    Level {
        width,
        height: rows.len(),
        data,
        min_x,
        min_y,
        enemies: Vec::new(),
        horses: Vec::new(),
        markers: Vec::new(),
        lasso_targets: Vec::new(),
        enemy_paths: Vec::new(),
        player_spawn: Vec2 { x: 0, y: 0 },
        boss: None,
        world_index: 0,
        roof_height: 0,
        wall_climb_tiles: vec![512, 513],
    }
}

#[test]
fn get_tile_reads_the_stored_cell() {
    let level = grid_level(&["..#", "xBD"], 0, 0);
    assert_eq!(level.get_tile(0, 0), [0, 0, 0, 0]);
    assert_eq!(level.get_tile(2, 0), [0, 5, 0, 0]);
    assert_eq!(level.get_tile(0, 1), [0, 129, 0, 0]);
    assert_eq!(level.get_tile(1, 1), [0, 0, 0, BARRIER_TILE + 1]);
    assert_eq!(level.get_tile(2, 1), [3, 9, 4, 514]);
}

#[test]
fn get_tile_honours_the_grid_origin() {
    let level = grid_level(&["#.", ".#"], -16, 32);
    assert_eq!(level.get_tile(-16, 32), [0, 5, 0, 0]);
    assert_eq!(level.get_tile(-15, 32), [0, 0, 0, 0]);
    assert_eq!(level.get_tile(-15, 33), [0, 5, 0, 0]);
    assert_eq!(level.get_tile(0, 0), [0, 0, 0, 0]);
}

#[test]
fn get_tile_twice_gives_the_same_cell() {
    let level = grid_level(&["#x", "CD"], -3, 7);
    for x in -8i16..8 {
        for y in 0i16..12 {
            assert_eq!(level.get_tile(x, y), level.get_tile(x, y));
        }
    }
}

#[test]
fn columns_beside_the_grid_are_solid_walls() {
    let level = grid_level(&["...", "..."], 0, 0);
    let wall = [0, SIDE_WALL_TILE, 0, 0];
    assert_eq!(SIDE_WALL_DEPTH, 2);
    assert_eq!(level.get_tile(-1, 0), wall);
    assert_eq!(level.get_tile(-2, 1), wall);
    assert_eq!(level.get_tile(3, 0), wall);
    assert_eq!(level.get_tile(4, 1), wall);
    // beyond the walls everything is empty
    assert_eq!(level.get_tile(-3, 0), [0, 0, 0, 0]);
    assert_eq!(level.get_tile(5, 1), [0, 0, 0, 0]);
    assert_eq!(level.get_tile(i16::MIN, 0), [0, 0, 0, 0]);
    assert_eq!(level.get_tile(i16::MAX, 1), [0, 0, 0, 0]);
}

#[test]
fn rows_above_and_below_the_grid_are_empty() {
    let level = grid_level(&["###", "###"], 0, 0);
    for x in -4i16..8 {
        assert_eq!(level.get_tile(x, -1), [0, 0, 0, 0]);
        assert_eq!(level.get_tile(x, 2), [0, 0, 0, 0]);
        assert_eq!(level.get_tile(x, i16::MIN), [0, 0, 0, 0]);
        assert_eq!(level.get_tile(x, i16::MAX), [0, 0, 0, 0]);
    }
}

#[test]
fn level_measures() {
    let mut level = grid_level(&["...", "..."], -2, 5);
    level.markers = vec![Vec2 { x: 8_000, y: 16_000 }, Vec2 { x: -1, y: 2 }];
    level.world_index = 2;
    assert_eq!(level.find_marker(1), Vec2 { x: -1, y: 2 });
    assert_eq!(level.find_marker(0), Vec2 { x: 8_000, y: 16_000 });
    assert_eq!(level.get_world_index(), 2);
    assert_eq!(level.get_height(), 16_000);
    assert_eq!(level.min_pos(), Vec2 { x: -16_000, y: 40_000 });
    assert_eq!(level.right_edge(), 8_000);
    assert_eq!(level.floor_height(), 56_000);
}

#[test]
fn death_tiles_are_a_fixed_set() {
    for id in 0u16..1000 {
        assert_eq!(is_death_tile(id), id == 128 || id == 352 || id == 288);
    }
}

#[test]
fn wall_climb_tiles_are_what_the_level_says() {
    let mut level = grid_level(&["..", ".."], 0, 0);
    assert_eq!(default_wall_climb_tiles(), vec![512, 513]);
    level.wall_climb_tiles = default_wall_climb_tiles();
    for id in 0u16..1000 {
        assert_eq!(level.is_wall_climb_tile(id), id == 512 || id == 513);
    }
    level.wall_climb_tiles = vec![7, 900, 7];
    assert!(level.is_wall_climb_tile(7) && level.is_wall_climb_tile(900));
    assert!(!level.is_wall_climb_tile(512) && !level.is_wall_climb_tile(513));
    level.wall_climb_tiles = Vec::new();
    assert!((0u16..1000).all(|id| !level.is_wall_climb_tile(id)));
}
