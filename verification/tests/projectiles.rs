use cowboy_tower::assets::Level;
use cowboy_tower::fixed::Vec2;
use cowboy_tower::projectiles::{
    has_left_world, Projectile, FRICTION, HAZARD, MAX_RAY_TILES, PLAYER_SHOT, RAY, THROWN, UNIT, WORLD_MARGIN,
};

const FRAME: u32 = 16_667;

fn shooting_range(rows: &[&str]) -> Level {
    let width = rows[0].len();
    let mut data = Vec::new();
    for row in rows {
        for c in row.chars() {
            data.push(if c == '#' { [0u16, 5, 0, 0] } else { [0u16, 0, 0, 0] });
        }
    }
    Level {
        width,
        height: rows.len(),
        data,
        min_x: 0,
        min_y: 0,
        enemies: Vec::new(),
        horses: Vec::new(),
        markers: Vec::new(),
        lasso_targets: Vec::new(),
        enemy_paths: Vec::new(),
        player_spawn: Vec2 { x: 0, y: 0 },
        boss: None,
        world_index: 0,
        roof_height: 0,
        wall_climb_tiles: vec![512, 513],
    }
}

fn at(x: i32, y: i32) -> Vec2 {
    Vec2 { x, y }
}

#[test]
fn new_scales_the_direction_by_the_speed_of_the_kind() {
    let shot = Projectile::new(PLAYER_SHOT, at(4_000, 8_000), at(UNIT, 0));
    assert_eq!(shot.pos, at(4_000, 8_000));
    assert_eq!(shot.direction, at(128_000, 0));
    assert_eq!(shot.type_index, 0);
    assert_eq!(shot.time, 0);
    assert!(shot.friendly);
    assert!(!shot.dead);
    let hostile = Projectile::new(1, at(0, 0), at(-UNIT, 0));
    assert_eq!(hostile.direction, at(-102_400, 0));
    assert!(!hostile.friendly);
    let thrown = Projectile::new(THROWN, at(0, 0), at(0, -UNIT));
    assert_eq!(thrown.direction, at(0, -102_400));
    let hazard = Projectile::new(HAZARD, at(0, 0), at(UNIT, UNIT));
    assert_eq!(hazard.direction, at(0, 0));
    let ray = Projectile::new(RAY, at(0, 0), at(UNIT, 0));
    assert_eq!(ray.direction, at(0, 0));
    let half = Projectile::new(5, at(0, 0), at(500, -250));
    assert_eq!(half.direction, at(64_000, -32_000));
}

#[test]
fn kind_tables() {
    let kinds: Vec<Projectile> = (0..8).map(|k| Projectile::new(k, at(0, 0), at(0, 0))).collect();
    let rays: Vec<bool> = kinds.iter().map(|p| p.is_ray()).collect();
    assert_eq!(rays, vec![false, false, false, false, true, false, false, false]);
    let physics: Vec<bool> = kinds.iter().map(|p| p.is_physics_based()).collect();
    assert_eq!(physics, vec![false, false, true, false, false, false, false, false]);
    let lethal: Vec<bool> = kinds.iter().map(|p| p.can_kill()).collect();
    assert_eq!(lethal, vec![true, true, false, true, true, true, true, true]);
    let spent: Vec<bool> = kinds.iter().map(|p| p.should_die_on_kill()).collect();
    assert_eq!(spent, vec![true, true, true, false, false, true, true, true]);
    let through: Vec<bool> = kinds.iter().map(|p| p.passes_through()).collect();
    assert_eq!(through, vec![false, false, false, true, true, false, false, false]);
    let sizes: Vec<u32> = kinds.iter().map(|p| p.get_collision_size()).collect();
    assert_eq!(sizes, vec![8_000, 8_000, 8_000, 17_000, 8_000, 8_000, 8_000, 8_000]);
    let lifetimes: Vec<u64> = kinds.iter().map(|p| p.get_lifetime()).collect();
    assert_eq!(lifetimes, vec![0, 0, 1_000_000, 500_000, 1_000_000, 0, 0, 0]);
    let deaths: Vec<usize> = kinds.iter().map(|p| p.player_death_animation()).collect();
    assert_eq!(deaths, vec![0, 0, 0, 0, 2, 0, 0, 0]);
    let speeds: Vec<i32> = (0..8).map(Projectile::base_speed).collect();
    assert_eq!(speeds, vec![128_000, 102_400, 102_400, 0, 0, 128_000, 128_000, 128_000]);
    let offsets: Vec<bool> = (0..8).map(Projectile::shoot_offset).collect();
    assert_eq!(offsets, vec![true, true, true, false, false, true, true, true]);
}

#[test]
fn only_the_thrown_kind_has_a_payload() {
    for kind in 0..8 {
        let projectile = Projectile::new(kind, at(12_000, 34_000), at(UNIT, 0));
        match projectile.get_payload() {
            Some(payload) => {
                assert_eq!(kind, THROWN);
                assert_eq!(payload, Projectile::new(HAZARD, at(12_000, 34_000), at(0, 0)));
            }
            None => assert_ne!(kind, THROWN),
        }
    }
}

#[test]
fn projectile_times_out_exactly_at_its_lifetime() {
    let level = shooting_range(&["........", "........", "........"]);
    let mut hazard = Projectile::new(HAZARD, at(20_000, 12_000), at(0, 0));
    let mut spawned = Vec::new();
    // 500 ms in steps of 10 ms
    for step in 1..=49 {
        hazard.update(10_000, &level, &mut spawned);
        assert_eq!(hazard.time, step * 10_000);
        assert!(!hazard.timed_out());
        assert!(!hazard.dead);
    }
    hazard.update(10_000, &level, &mut spawned);
    assert_eq!(hazard.time, 500_000);
    assert!(hazard.timed_out());
    assert!(hazard.dead);
    assert!(spawned.is_empty());
}

#[test]
fn projectile_without_a_lifetime_never_times_out() {
    let level = shooting_range(&["........", "........", "........"]);
    let mut shot = Projectile::new(PLAYER_SHOT, at(20_000, 12_000), at(0, 0));
    let mut spawned = Vec::new();
    for _ in 0..1000 {
        shot.update(FRAME, &level, &mut spawned);
    }
    assert!(!shot.timed_out());
    assert!(!shot.dead);
    assert_eq!(shot.time, 16_667_000);
}

#[test]
fn ballistic_projectile_flies_straight() {
    let level = shooting_range(&["........", "........", "........"]);
    let mut shot = Projectile::new(PLAYER_SHOT, at(8_000, 8_000), at(UNIT, 0));
    let mut spawned = Vec::new();
    shot.update(FRAME, &level, &mut spawned);
    assert_eq!(shot.pos, at(8_000 + 2_133, 8_000));
    assert_eq!(shot.direction, at(128_000, 0));
    assert!(!shot.dead);
    shot.update(FRAME, &level, &mut spawned);
    assert_eq!(shot.pos, at(8_000 + 4_266, 8_000));
}

#[test]
fn ballistic_projectile_dies_on_a_wall() {
    let level = shooting_range(&["........", "..#.....", "........"]);
    let mut shot = Projectile::new(PLAYER_SHOT, at(14_000, 8_000), at(UNIT, 0));
    let mut spawned = Vec::new();
    shot.update(FRAME, &level, &mut spawned);
    assert_eq!(shot.pos.x, 16_133);
    assert!(shot.dead);
    assert!(spawned.is_empty());
    // a dead projectile no longer changes
    let before = shot;
    shot.update(FRAME, &level, &mut spawned);
    assert_eq!(shot, before);
}

#[test]
fn wall_is_felt_at_either_probe_height() {
    // the projectile straddles two rows; only the lower one holds a wall
    let level = shooting_range(&["........", "........", "..#....."]);
    let mut spawned = Vec::new();
    let mut low = Projectile::new(PLAYER_SHOT, at(14_000, 11_000), at(UNIT, 0));
    low.update(FRAME, &level, &mut spawned);
    assert!(low.dead);
    let mut high = Projectile::new(PLAYER_SHOT, at(14_000, 9_000), at(UNIT, 0));
    high.update(FRAME, &level, &mut spawned);
    assert!(!high.dead);
    // only the upper row holds a wall
    let level = shooting_range(&["........", "..#.....", "........"]);
    let mut straddling = Projectile::new(PLAYER_SHOT, at(14_000, 13_000), at(UNIT, 0));
    straddling.update(FRAME, &level, &mut spawned);
    assert!(straddling.dead);
    let mut below = Projectile::new(PLAYER_SHOT, at(14_000, 14_000), at(UNIT, 0));
    below.update(FRAME, &level, &mut spawned);
    assert!(!below.dead);
}

#[test]
fn hazard_ignores_walls() {
    let level = shooting_range(&["####", "####"]);
    let mut hazard = Projectile::new(HAZARD, at(12_000, 4_000), at(0, 0));
    let mut spawned = Vec::new();
    hazard.update(FRAME, &level, &mut spawned);
    assert!(!hazard.dead);
    assert_eq!(hazard.pos, at(12_000, 4_000));
}

#[test]
fn thrown_projectile_falls_lands_and_bursts() {
    let level = shooting_range(&[
        "........................",
        "........................",
        "........................",
        "########################",
    ]);
    let mut thrown = Projectile::new(THROWN, at(8_000, 8_000), at(UNIT, 0));
    let mut spawned = Vec::new();
    thrown.update(FRAME, &level, &mut spawned);
    // gravity: 735 px/s^2 for a sixtieth of a second
    assert_eq!(thrown.direction, at(102_400, 12_250));
    assert_eq!(thrown.pos, at(8_000 + 1_706, 8_000 + 204));
    let mut landed = false;
    let mut frames = 1;
    while !thrown.dead {
        let before = thrown.direction.x;
        thrown.update(FRAME, &level, &mut spawned);
        frames += 1;
        if thrown.pos.y == 16_000 && thrown.direction.y == 0 {
            if !landed {
                landed = true;
            }
            // friction takes two thirtieths off the horizontal speed each frame
            assert!(thrown.direction.x < before);
            assert_eq!(thrown.direction.x, before - (before as i64 * FRICTION as i64 * FRAME as i64 / 1_000_000) as i32);
        }
    }
    assert!(landed);
    assert_eq!(frames, 60);
    assert_eq!(thrown.time, 60 * FRAME as u64);
    assert_eq!(spawned.len(), 1);
    assert_eq!(spawned[0], Projectile::new(HAZARD, thrown.pos, at(0, 0)));
    assert!(!thrown.can_kill());
}

#[test]
fn ray_counts_the_free_tiles_up_to_the_ceiling() {
    // the ceiling is row 0; the ray stands 24 px below it, in row 4
    let level = shooting_range(&["########", "........", "........", "........", "........", "........"]);
    let ray = Projectile::new(RAY, at(20_000, 32_000), at(0, -UNIT));
    assert_eq!(ray.clear_tiles(&level), 3);
    // the hit-tested span is as many tiles long as the count
    assert!(ray.hits(at(16_000, 32_000 - 24_000 - 4_000), &level));
    assert!(!ray.hits(at(16_000, 32_000 - 24_000 - 4_001), &level));
    // one tile lower, one more free tile
    let lower = Projectile::new(RAY, at(20_000, 40_000), at(0, -UNIT));
    assert_eq!(lower.clear_tiles(&level), 4);
    // right under the ceiling, none
    let under = Projectile::new(RAY, at(20_000, 8_000), at(0, -UNIT));
    assert_eq!(under.clear_tiles(&level), 0);
}

#[test]
fn ray_stops_at_the_first_tile_not_the_last() {
    let level = shooting_range(&["#...", "....", "#...", "....", "....", "...."]);
    let ray = Projectile::new(RAY, at(4_000, 40_000), at(0, 0));
    assert_eq!(ray.clear_tiles(&level), 2);
}

#[test]
fn ray_under_open_sky_reaches_its_limit() {
    let level = shooting_range(&["....", "...."]);
    let ray = Projectile::new(RAY, at(4_000, 8_000), at(0, 0));
    assert_eq!(MAX_RAY_TILES, 32);
    assert_eq!(ray.clear_tiles(&level), 32);
}

#[test]
fn ray_does_not_move_and_lives_a_second() {
    let level = shooting_range(&["####", "....", "....", "...."]);
    let mut ray = Projectile::new(RAY, at(12_000, 24_000), at(UNIT, 0));
    let mut spawned = Vec::new();
    for _ in 0..59 {
        ray.update(FRAME, &level, &mut spawned);
        assert_eq!(ray.pos, at(12_000, 24_000));
        assert!(!ray.dead);
    }
    ray.update(FRAME, &level, &mut spawned);
    assert!(ray.dead);
    assert!(spawned.is_empty());
}

#[test]
fn ray_hits_along_its_whole_span() {
    let level = shooting_range(&["########", "........", "........", "........", "........", "........"]);
    let ray = Projectile::new(RAY, at(20_000, 32_000), at(0, 0));
    // the player's middle lies 4 px right of and below the player's position
    assert!(ray.hits(at(16_000, 28_000), &level));
    assert!(ray.hits(at(16_000, 12_000), &level));
    assert!(ray.hits(at(16_000, 4_000), &level));
    // above the span: 3 free tiles reach up to y = 8 px
    assert!(!ray.hits(at(16_000, 3_999), &level));
    // the span ends at the ray's foot: nothing below it is hit
    assert!(!ray.hits(at(16_000, 28_001), &level));
    assert!(!ray.hits(at(16_000, 36_000), &level));
    // beside it
    assert!(!ray.hits(at(24_000, 28_000), &level));
    assert!(ray.hits(at(23_999, 28_000), &level));
    assert!(!ray.hits(at(8_000, 28_000), &level));
}

#[test]
fn other_projectiles_hit_within_their_radius() {
    let level = shooting_range(&["........", "........"]);
    let shot = Projectile::new(1, at(20_000, 8_000), at(UNIT, 0));
    assert!(shot.hits(at(16_000, 4_000), &level));
    assert!(shot.hits(at(16_000 + 7_999, 4_000), &level));
    assert!(!shot.hits(at(16_000 + 8_000, 4_000), &level));
    let hazard = Projectile::new(HAZARD, at(20_000, 8_000), at(0, 0));
    assert!(hazard.hits(at(16_000 + 16_999, 4_000), &level));
    assert!(!hazard.hits(at(16_000 + 17_000, 4_000), &level));
}

#[test]
fn projectile_that_leaves_the_world_is_gone() {
    // the level spans x = 0..64 px and y = 0..24 px
    let level = shooting_range(&["........", "........", "........"]);
    assert_eq!(WORLD_MARGIN, 256_000);
    assert!(!has_left_world(&level, at(0, 0)));
    assert!(!has_left_world(&level, at(-256_000, -256_000)));
    assert!(has_left_world(&level, at(-256_001, 0)));
    assert!(has_left_world(&level, at(0, -256_001)));
    assert!(!has_left_world(&level, at(64_000 + 256_000, 24_000 + 256_000)));
    assert!(has_left_world(&level, at(64_000 + 256_001, 0)));
    assert!(has_left_world(&level, at(0, 24_000 + 256_001)));
    // a shot fired upward flies out of the top of the level and is gone 256 px above it
    let mut shot = Projectile::new(PLAYER_SHOT, at(32_000, 12_000), at(0, -UNIT));
    let mut spawned = Vec::new();
    let mut frames = 0;
    while !shot.dead {
        assert!(shot.pos.y >= -256_000);
        shot.update(FRAME, &level, &mut spawned);
        frames += 1;
        assert!(frames < 1000);
    }
    assert!(shot.pos.y < -256_000);
    assert!(!shot.timed_out());
    // 268 px at 128 px/s
    assert_eq!(frames, 126);
}
