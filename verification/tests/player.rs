use cowboy_tower::assets::{Animation, AnimationsGroup, Assets, Level};
use cowboy_tower::fixed::Vec2;
use cowboy_tower::player::{
    CinematicBars, Death, Dialogue, Input, Lasso, Player, CAMERA_MAX_LAG, JUMP_FORCE, MOVE_SPEED,
    WALL_COYOTE_TIME, WALL_HOLD_TIME, WALL_JUMP_FORCE, WALL_JUMP_LOCK_TIME, WALL_JUMP_PUSH, WALL_SLIDE_SPEED,
};
use cowboy_tower::projectiles::{Projectile, PLAYER_SHOT, UNIT};

const FRAME: u32 = 16_667;

fn at(x: i32, y: i32) -> Vec2 {
    Vec2 { x, y }
}

fn group_of(count: usize, length: u32) -> AnimationsGroup {
    AnimationsGroup {
        animations: (0..count).map(|_| Animation::new(vec![length]).unwrap()).collect(),
        tag_names: (0..count).map(|i| format!("clip{}", i)).collect(),
    }
}

fn player_assets() -> Assets {
    Assets {
        torso: group_of(3, 100),
        legs: group_of(2, 100),
        levels: Vec::new(),
        projectiles: Animation::new(vec![100]).unwrap(),
        blood: Animation::new(vec![100]).unwrap(),
        die: Animation::new(vec![100, 100]).unwrap(),
        pole: Animation::new(vec![100]).unwrap(),
        henry: group_of(4, 100),
        henry_dust: Animation::new(vec![100]).unwrap(),
        fireking: group_of(6, 100),
        fireball: group_of(2, 100),
        enemies: Vec::new(),
    }
}

fn level_of(rows: &[&str]) -> Level {
    let width = rows[0].len();
    let mut data = Vec::new();
    for row in rows {
        assert_eq!(row.len(), width);
        for c in row.chars() {
            data.push(match c {
                '#' => [0u16, 5, 0, 0],
                'x' => [0, 129, 0, 0],
                'C' => [0, 7, 0, 513],
                '^' => [0, 0, 0, 897],
                'v' => [0, 0, 0, 898],
                _ => [0, 0, 0, 0],
            });
        }
    }
    Level {
        width,
        height: rows.len(),
        data,
        min_x: 0,
        min_y: 0,
        enemies: Vec::new(),
        horses: Vec::new(),
        markers: Vec::new(),
        lasso_targets: Vec::new(),
        enemy_paths: Vec::new(),
        player_spawn: at(0, 0),
        boss: None,
        world_index: 0,
        roof_height: 0,
        wall_climb_tiles: vec![512, 513],
    }
}

/// Forty columns, ten rows, the lowest solid: the player stands at y = 64 px.
fn meadow() -> Level {
    let mut rows = vec!["........................................"; 9];
    rows.push("########################################");
    level_of(&rows)
}

fn idle() -> Input {
    Input {
        axis: at(0, 0),
        jump_pressed: false,
        jump_down: false,
        shoot_pressed: false,
        lasso_pressed: false,
        lasso_down: false,
        arc: at(0, 0),
    }
}

fn grounded_player(level: &Level, assets: &Assets, pos: Vec2) -> Player {
    let mut player = Player::new(pos);
    let mut projectiles = Vec::new();
    player.update(FRAME, &idle(), level, assets, &mut projectiles);
    assert!(player.on_ground);
    assert_eq!(player.pos, pos);
    player
}

#[test]
fn new_player_stands_still_with_the_camera_above() {
    let player = Player::new(at(16_000, -80_000));
    assert_eq!(player.pos, at(16_000, -80_000));
    assert_eq!(player.camera_pos, at(16_000, -180_000));
    assert_eq!(player.velocity, at(0, 0));
    assert!(!player.on_ground);
    assert!(!player.facing_left);
    assert!(!player.moving);
    assert_eq!(player.death, None);
    assert_eq!(player.active_lasso, None);
    assert_eq!(player.riding, None);
    assert_eq!(player.shooting, 0);
    assert_eq!(player.defeated_bosses, 0);
    assert!(!player.in_boss_battle);
    assert!(!player.has_restarted_level);
}

#[test]
fn gravity_pulls_the_player_down() {
    let level = meadow();
    let assets = player_assets();
    let mut player = Player::new(at(80_000, 8_000));
    let mut projectiles = Vec::new();
    player.update(FRAME, &idle(), &level, &assets, &mut projectiles);
    // 735 px/s^2 for a sixtieth of a second
    assert_eq!(player.velocity, at(0, 12_250));
    assert_eq!(player.pos, at(80_000, 8_204));
    assert!(!player.on_ground);
    player.update(FRAME, &idle(), &level, &assets, &mut projectiles);
    assert_eq!(player.velocity, at(0, 24_500));
    assert_eq!(player.pos, at(80_000, 8_204 + 408));
    assert_eq!(player.time, 2 * FRAME as u64);
}

#[test]
fn player_comes_to_rest_on_the_ground() {
    let level = meadow();
    let assets = player_assets();
    let mut player = Player::new(at(80_000, 50_000));
    let mut projectiles = Vec::new();
    for _ in 0..120 {
        player.update(FRAME, &idle(), &level, &assets, &mut projectiles);
    }
    assert!(player.on_ground);
    assert_eq!(player.pos, at(80_000, 64_000));
    assert_eq!(player.velocity, at(0, 0));
    assert_eq!(player.death, None);
}

#[test]
fn player_accelerates_toward_the_speed_the_axis_asks_for() {
    let level = meadow();
    let assets = player_assets();
    let mut player = grounded_player(&level, &assets, at(80_000, 64_000));
    let mut projectiles = Vec::new();
    let right = Input { axis: at(UNIT, 0), ..idle() };
    player.update(FRAME, &right, &level, &assets, &mut projectiles);
    // a share of 22/60 of the way to 101 px/s
    assert_eq!(player.velocity.x, 37_034);
    assert_eq!(player.pos, at(80_617, 64_000));
    assert!(player.moving);
    assert!(!player.facing_left);
    for _ in 0..60 {
        player.update(FRAME, &right, &level, &assets, &mut projectiles);
    }
    assert!(player.velocity.x <= MOVE_SPEED && player.velocity.x >= MOVE_SPEED - 2);
    let left = Input { axis: at(-UNIT, 0), ..idle() };
    player.update(FRAME, &left, &level, &assets, &mut projectiles);
    assert!(player.facing_left);
    assert!(player.moving);
    let before = player.facing_left;
    player.update(FRAME, &idle(), &level, &assets, &mut projectiles);
    assert!(!player.moving);
    assert_eq!(player.facing_left, before);
}

#[test]
fn jump_needs_ground() {
    let level = meadow();
    let assets = player_assets();
    let mut projectiles = Vec::new();
    let jump = Input { jump_pressed: true, jump_down: true, ..idle() };
    let mut player = grounded_player(&level, &assets, at(80_000, 64_000));
    player.update(FRAME, &jump, &level, &assets, &mut projectiles);
    assert_eq!(JUMP_FORCE, 160_000);
    assert_eq!(player.velocity, at(0, -160_000));
    assert_eq!(player.pos, at(80_000, 64_000 - 2_666));
    assert!(!player.on_ground);
    assert_eq!(player.jump_time, Some(0));
    // in the air the button does nothing
    player.update(FRAME, &jump, &level, &assets, &mut projectiles);
    assert_eq!(player.velocity, at(0, -160_000 + 12_250));
    assert_eq!(player.jump_time, Some(FRAME as u64));
    let mut frames = 0;
    while !player.on_ground {
        player.update(FRAME, &idle(), &level, &assets, &mut projectiles);
        frames += 1;
        assert!(frames < 100);
    }
    assert_eq!(player.pos, at(80_000, 64_000));
    assert_eq!(player.jump_time, None);
}

#[test]
fn shot_leaves_from_the_side_the_player_faces() {
    let level = meadow();
    let assets = player_assets();
    let mut player = grounded_player(&level, &assets, at(80_000, 64_000));
    let mut projectiles = Vec::new();
    let shoot = Input { shoot_pressed: true, ..idle() };
    player.update(FRAME, &shoot, &level, &assets, &mut projectiles);
    assert_eq!(projectiles, vec![Projectile::new(PLAYER_SHOT, at(92_000, 64_000), at(UNIT, 0))]);
    assert!(projectiles[0].friendly);
    assert_eq!(player.shooting, FRAME as u64);
    // no second shot while the shooting clip (100 ms) plays
    for frame in 2..=5 {
        player.update(FRAME, &shoot, &level, &assets, &mut projectiles);
        assert_eq!(player.shooting, frame * FRAME as u64);
        assert_eq!(projectiles.len(), 1);
    }
    player.update(FRAME, &shoot, &level, &assets, &mut projectiles);
    assert_eq!(player.shooting, 0);
    assert_eq!(projectiles.len(), 1);
    player.facing_left = true;
    player.update(FRAME, &shoot, &level, &assets, &mut projectiles);
    assert_eq!(projectiles.len(), 2);
    assert_eq!(projectiles[1], Projectile::new(PLAYER_SHOT, at(76_000, 64_000), at(-UNIT, 0)));
}

#[test]
fn death_tile_kills_unless_ground_is_met() {
    let assets = player_assets();
    let mut projectiles = Vec::new();
    let lava = level_of(&["........", "........", "........", "xxxxxxxx"]);
    let mut player = Player::new(at(16_000, 8_000));
    let mut frames = 0;
    while player.death.is_none() {
        player.update(FRAME, &idle(), &lava, &assets, &mut projectiles);
        frames += 1;
        assert!(frames < 100);
    }
    assert_eq!(player.death, Some(Death { time: 0, animation: 1, falls: false }));
    assert!(!player.on_ground);
    // half lava, half ground under the player's two columns
    let shore = level_of(&["........", "........", "........", "xxx#####"]);
    let mut player = Player::new(at(20_000, 8_000));
    for _ in 0..100 {
        player.update(FRAME, &idle(), &shore, &assets, &mut projectiles);
    }
    assert_eq!(player.death, None);
    assert!(player.on_ground);
    assert_eq!(player.pos.y, 16_000);
}

#[test]
fn dead_player_only_plays_out_the_death() {
    let level = meadow();
    let assets = player_assets();
    let mut projectiles = Vec::new();
    let mut player = grounded_player(&level, &assets, at(80_000, 64_000));
    player.kill(3, false);
    assert_eq!(player.death, Some(Death { time: 0, animation: 3, falls: false }));
    // the first cause of death stands
    player.kill(1, true);
    assert_eq!(player.death, Some(Death { time: 0, animation: 3, falls: false }));
    let busy = Input { axis: at(UNIT, 0), jump_pressed: true, shoot_pressed: true, ..idle() };
    let time = player.time;
    player.update(FRAME, &busy, &level, &assets, &mut projectiles);
    assert_eq!(player.death, Some(Death { time: FRAME as u64, animation: 3, falls: false }));
    assert_eq!(player.pos, at(80_000, 64_000));
    assert_eq!(player.velocity, at(0, 0));
    assert_eq!(player.time, time);
    assert!(projectiles.is_empty());
}

#[test]
fn falling_death_keeps_falling() {
    let level = meadow();
    let assets = player_assets();
    let mut projectiles = Vec::new();
    let mut player = Player::new(at(80_000, 8_000));
    player.velocity = at(30_000, 0);
    player.kill(0, true);
    player.update(FRAME, &idle(), &level, &assets, &mut projectiles);
    assert_eq!(player.velocity, at(30_000, 12_250));
    assert_eq!(player.pos, at(80_500, 8_204));
    assert_eq!(player.death.unwrap().time, FRAME as u64);
}

#[test]
fn open_dialogue_silences_the_input() {
    let level = meadow();
    let assets = player_assets();
    let mut projectiles = Vec::new();
    let mut player = grounded_player(&level, &assets, at(80_000, 64_000));
    player.show_dialogue("Howdy.", "Stranger", 2);
    assert!(matches!(
        player.active_dialogue,
        Some(Dialogue { text: "Howdy.", name: "Stranger", portrait: 2, closed: false })
    ));
    let busy = Input { axis: at(UNIT, 0), jump_pressed: true, shoot_pressed: true, ..idle() };
    player.update(FRAME, &busy, &level, &assets, &mut projectiles);
    assert_eq!(player.pos, at(80_000, 64_000));
    assert!(player.on_ground);
    assert!(projectiles.is_empty());
    player.close_dialogue();
    assert!(player.active_dialogue.unwrap().closed);
    player.update(FRAME, &busy, &level, &assets, &mut projectiles);
    assert_eq!(projectiles.len(), 1);
    assert!(player.velocity.y < 0);
}

#[test]
fn cinematic_bars_come_and_go() {
    let mut player = Player::new(at(0, 0));
    player.hide_cinematic_bars();
    assert_eq!(player.cinematic_bars, None);
    player.show_cinematic_bars();
    assert_eq!(player.cinematic_bars, Some(CinematicBars { time: 0, leaving: false }));
    let level = meadow();
    let assets = player_assets();
    let mut projectiles = Vec::new();
    player.update(FRAME, &idle(), &level, &assets, &mut projectiles);
    assert_eq!(player.cinematic_bars, Some(CinematicBars { time: FRAME as u64, leaving: false }));
    player.hide_cinematic_bars();
    assert_eq!(player.cinematic_bars, Some(CinematicBars { time: 0, leaving: true }));
}

#[test]
fn camera_snaps_down_and_lags_up() {
    let level = meadow();
    let mut player = Player::new(at(160_000, 64_000));
    // the target lies 22 px above the player
    player.camera_pos = at(0, 0);
    player.update_camera(&level);
    assert_eq!(player.camera_pos.y, 42_000);
    // the player has climbed: the camera trails by no more than 28 px
    player.pos.y = 0;
    player.update_camera(&level);
    assert_eq!(CAMERA_MAX_LAG, 28_000);
    assert_eq!(player.camera_pos.y, -22_000 + 28_000);
    // while the camera trails by less, it stays where it is
    player.pos.y = 5_000;
    player.update_camera(&level);
    assert_eq!(player.camera_pos.y, 6_000);
    player.pos.y = -10_000;
    player.update_camera(&level);
    assert_eq!(player.camera_pos.y, -4_000);
    player.camera_pos.y = 6_000;
    // an offset shifts the target
    player.camera_offset = -40_000;
    player.pos.y = 64_000;
    player.update_camera(&level);
    assert_eq!(player.camera_pos.y, 6_000);
    player.camera_offset = 40_000;
    player.update_camera(&level);
    assert_eq!(player.camera_pos.y, 82_000);
}

#[test]
fn camera_stays_inside_the_level_sideways() {
    // 40 columns: 320 px wide; half a screen less the slack is 64 px
    let level = meadow();
    let mut player = Player::new(at(160_000, 64_000));
    player.update_camera(&level);
    assert_eq!(player.camera_pos.x, 160_000);
    player.pos.x = 10_000;
    player.update_camera(&level);
    assert_eq!(player.camera_pos.x, 64_000);
    player.pos.x = 300_000;
    player.update_camera(&level);
    assert_eq!(player.camera_pos.x, 256_000);
    // a level narrower than that pins the camera to its left bound
    let narrow = level_of(&["........", "########"]);
    player.pos.x = 30_000;
    player.update_camera(&narrow);
    assert_eq!(player.camera_pos.x, 64_000);
}

#[test]
fn wall_is_clung_to_then_glided_down() {
    let assets = player_assets();
    let mut projectiles = Vec::new();
    let mut rows = vec![".......C"; 12];
    rows.push("########");
    let level = level_of(&rows);
    let mut player = Player::new(at(47_500, 32_000));
    let right = Input { axis: at(UNIT, 0), ..idle() };
    player.update(FRAME, &right, &level, &assets, &mut projectiles);
    assert_eq!(player.pos.x, 48_000);
    assert_eq!(player.wall_climbing, Some((0, 1)));
    assert_eq!(player.velocity.x, 0);
    // while the hold lasts the player hangs still
    let mut held = 0u64;
    loop {
        let y = player.pos.y;
        player.update(FRAME, &right, &level, &assets, &mut projectiles);
        held += FRAME as u64;
        assert_eq!(player.wall_climbing, Some((held, 1)));
        if held < WALL_HOLD_TIME {
            assert_eq!(player.pos.y, y);
            assert_eq!(player.velocity.y, 0);
        } else {
            // then a slow glide: 16 px/s
            assert_eq!(player.velocity.y, WALL_SLIDE_SPEED);
            assert_eq!(player.pos.y, y + 266);
            break;
        }
    }
    assert!(!player.on_ground);
}

#[test]
fn wall_jump_pushes_away_and_locks_the_steering() {
    let assets = player_assets();
    let mut projectiles = Vec::new();
    let mut rows = vec![".......C"; 12];
    rows.push("########");
    let level = level_of(&rows);
    let mut player = Player::new(at(47_500, 32_000));
    let right = Input { axis: at(UNIT, 0), ..idle() };
    player.update(FRAME, &right, &level, &assets, &mut projectiles);
    assert_eq!(player.wall_climbing, Some((0, 1)));
    let jump = Input { axis: at(UNIT, 0), jump_pressed: true, jump_down: true, ..idle() };
    player.update(FRAME, &jump, &level, &assets, &mut projectiles);
    assert_eq!(player.velocity, at(-WALL_JUMP_PUSH, -WALL_JUMP_FORCE));
    assert_eq!(player.wall_climbing, None);
    assert_eq!(player.falling_off_wall, None);
    assert_eq!(player.wall_jump_lock, Some(0));
    assert!(player.facing_left);
    // the first frame let the player fall 0.2 px before the wall was met
    assert_eq!(player.pos, at(48_000 - 2_000, 32_204 - 3_000));
    // steering is locked for a while: the axis does not change the speed
    let mut locked = 0;
    while player.wall_jump_lock.is_some() {
        let before = player.velocity.x;
        player.update(FRAME, &right, &level, &assets, &mut projectiles);
        if player.wall_jump_lock.is_some() {
            assert_eq!(player.velocity.x, before);
            locked += 1;
        }
    }
    assert_eq!(locked as u64, WALL_JUMP_LOCK_TIME / FRAME as u64);
    assert!(player.velocity.x > -WALL_JUMP_PUSH);
}

#[test]
fn wall_jump_is_honoured_shortly_after_leaving_the_wall() {
    let assets = player_assets();
    let mut projectiles = Vec::new();
    // the climbable wall ends above the floor
    let level = level_of(&[
        ".......C", ".......C", ".......C", ".......C", "........", "........", "........", "........", "........",
        "........", "........", "........", "########",
    ]);
    let mut player = Player::new(at(47_500, 16_000));
    let right = Input { axis: at(UNIT, 0), ..idle() };
    player.update(FRAME, &right, &level, &assets, &mut projectiles);
    assert_eq!(player.wall_climbing, Some((0, 1)));
    // let go of the wall by steering away
    let left = Input { axis: at(-UNIT, 0), ..idle() };
    let mut frames = 0;
    while player.wall_climbing.is_some() {
        player.update(FRAME, &left, &level, &assets, &mut projectiles);
        frames += 1;
        assert!(frames < 100);
    }
    assert_eq!(player.falling_off_wall, Some((0, 1)));
    player.update(FRAME, &idle(), &level, &assets, &mut projectiles);
    assert_eq!(player.falling_off_wall, Some((FRAME as u64, 1)));
    let jump = Input { jump_pressed: true, jump_down: true, ..idle() };
    player.update(FRAME, &jump, &level, &assets, &mut projectiles);
    assert_eq!(player.velocity, at(-WALL_JUMP_PUSH, -WALL_JUMP_FORCE));
    assert_eq!(player.falling_off_wall, None);
    // later than the window, the jump is lost
    let mut late = Player::new(at(40_000, 16_000));
    late.falling_off_wall = Some((WALL_COYOTE_TIME - FRAME as u64 + 1, 1));
    late.update(FRAME, &jump, &level, &assets, &mut projectiles);
    assert_eq!(late.falling_off_wall, None);
    assert_eq!(late.velocity, at(0, 12_250));
}

#[test]
fn nearest_lasso_target_ahead_is_chosen() {
    let mut level = meadow();
    level.lasso_targets = vec![
        at(140_000, 30_000),
        at(100_000, 40_000),
        at(60_000, 45_000),
        at(100_000, 10_000),
        at(200_000, 50_000),
    ];
    let mut player = Player::new(at(80_000, 50_000));
    // facing right: (100, 40) is nearest; (60, 45) lies behind; (200, 50) is out of reach
    assert_eq!(player.find_lasso_target(&level), Some(at(100_000, 40_000)));
    player.facing_left = true;
    assert_eq!(player.find_lasso_target(&level), Some(at(60_000, 45_000)));
    player.pos = at(140_000, 50_000);
    player.facing_left = false;
    assert_eq!(player.find_lasso_target(&level), Some(at(200_000, 50_000)));
    player.pos = at(210_000, 50_000);
    assert_eq!(player.find_lasso_target(&level), None);
}

#[test]
fn lasso_target_behind_a_wall_is_out_of_reach() {
    let mut level = level_of(&[
        "....................",
        "....................",
        ".......#............",
        ".......#............",
        "....................",
        "####################",
    ]);
    level.lasso_targets = vec![at(100_000, 20_000)];
    let player = Player::new(at(20_000, 20_000));
    assert_eq!(player.find_lasso_target(&level), None);
    let above = Player::new(at(20_000, 4_000));
    level.lasso_targets = vec![at(80_000, 4_000)];
    assert_eq!(above.find_lasso_target(&level), Some(at(80_000, 4_000)));
}

#[test]
fn lasso_is_thrown_held_and_let_go() {
    let mut level = meadow();
    level.lasso_targets = vec![at(110_000, 24_000)];
    let assets = player_assets();
    let mut projectiles = Vec::new();
    let mut player = grounded_player(&level, &assets, at(80_000, 64_000));
    assert_eq!(player.lasso_target, Some(at(110_000, 24_000)));
    let throw = Input { lasso_pressed: true, lasso_down: true, ..idle() };
    player.update(FRAME, &throw, &level, &assets, &mut projectiles);
    // the rope is as long as the way to the hook: a 30-40-50 triangle;
    // the ground stopped the player's fall in the same frame, which stills the swing speed
    assert_eq!(
        player.active_lasso,
        Some(Lasso {
            time: FRAME as u64,
            hook: at(110_000, 24_000),
            speed: Some(0),
            length: 50_000,
            in_swing: false,
            start: at(80_000, 64_000),
            by_jump: false,
        })
    );
    let hold = Input { lasso_down: true, ..idle() };
    player.update(FRAME, &hold, &level, &assets, &mut projectiles);
    let lasso = player.active_lasso.unwrap();
    // the swing radius is capped
    assert_eq!(lasso.length, 32_000);
    assert!(!lasso.in_swing);
    assert_eq!(lasso.time, 2 * FRAME as u64);
    assert_eq!(player.lasso_target, None);
    // the player is pulled toward the hook: up and to the right
    assert!(player.velocity.x > 0);
    assert!(player.velocity.y < 0);
    // no shooting while the lasso is being thrown
    let shoot = Input { shoot_pressed: true, lasso_down: true, ..idle() };
    player.update(FRAME, &shoot, &level, &assets, &mut projectiles);
    assert!(projectiles.is_empty());
    player.update(FRAME, &idle(), &level, &assets, &mut projectiles);
    assert_eq!(player.active_lasso, None);
}

#[test]
fn lasso_pulls_the_player_in_until_the_swing_begins() {
    let mut level = meadow();
    level.lasso_targets = vec![at(110_000, 24_000)];
    let assets = player_assets();
    let mut projectiles = Vec::new();
    let mut player = grounded_player(&level, &assets, at(80_000, 64_000));
    let throw = Input { lasso_pressed: true, lasso_down: true, ..idle() };
    player.update(FRAME, &throw, &level, &assets, &mut projectiles);
    let hold = Input { lasso_down: true, ..idle() };
    let mut frames = 0;
    while !player.active_lasso.unwrap().in_swing {
        assert_eq!(player.swing_turn(FRAME, &assets).is_some(), {
            let d = player.pos.distance(at(110_000, 24_000));
            d <= 34_000
        });
        player.update(FRAME, &hold, &level, &assets, &mut projectiles);
        frames += 1;
        assert!(frames < 200);
    }
    assert!(player.pos.distance(at(110_000, 24_000)) <= 34_000 + 3_000);
    // the throw timer stopped 100 ms after the throwing clip (100 ms) ended
    assert_eq!(player.active_lasso.unwrap().time, 0);
}

#[test]
fn jump_in_the_air_throws_the_lasso_and_holds_it() {
    let mut level = meadow();
    level.lasso_targets = vec![at(110_000, 24_000)];
    let assets = player_assets();
    let mut projectiles = Vec::new();
    let mut player = Player::new(at(80_000, 40_000));
    let jump = Input { jump_pressed: true, jump_down: true, ..idle() };
    player.update(FRAME, &jump, &level, &assets, &mut projectiles);
    let lasso = player.active_lasso.unwrap();
    assert!(lasso.by_jump);
    assert_eq!(lasso.hook, at(110_000, 24_000));
    // no jump happened
    assert_eq!(player.velocity, at(0, 12_250));
    // the lasso button does not hold this lasso; the jump button does
    let wrong = Input { lasso_down: true, ..idle() };
    let held = Input { jump_down: true, ..idle() };
    player.update(FRAME, &held, &level, &assets, &mut projectiles);
    assert!(player.active_lasso.is_some());
    player.update(FRAME, &wrong, &level, &assets, &mut projectiles);
    assert_eq!(player.active_lasso, None);
}

#[test]
fn sprite_follows_what_the_player_does() {
    let assets = player_assets();
    let mut player = Player::new(at(0, 0));
    player.time = 1_234;
    let sprite = player.sprite(&assets);
    assert_eq!(sprite.legs, (0, 1_234));
    assert_eq!(sprite.torso, (0, 0));
    assert_eq!(sprite.death, None);
    assert_eq!(sprite.rope, None);
    assert!(!sprite.flipped);
    player.moving = true;
    player.facing_left = true;
    player.shooting = 50_000;
    let sprite = player.sprite(&assets);
    assert_eq!(sprite.legs, (1, 1_234));
    assert_eq!(sprite.torso, (1, 50_000));
    assert!(sprite.flipped);
    let mut lasso = Lasso { time: 50_000, hook: at(0, 0), speed: None, length: 1, in_swing: false, start: at(0, 0), by_jump: false };
    player.active_lasso = Some(lasso);
    // the rope starts flying 100 ms before the throwing clip (100 ms) ends, and takes 200 ms
    let sprite = player.sprite(&assets);
    assert_eq!(sprite.torso, (2, 50_000));
    assert_eq!(sprite.rope, Some(250_000));
    lasso.time = 150_000;
    player.active_lasso = Some(lasso);
    let sprite = player.sprite(&assets);
    assert_eq!(sprite.torso, (2, 99_000));
    assert_eq!(sprite.rope, Some(750_000));
    lasso.time = 0;
    player.active_lasso = Some(lasso);
    let sprite = player.sprite(&assets);
    assert_eq!(sprite.torso, (1, 50_000));
    assert_eq!(sprite.rope, Some(1_000_000));
    // the death clip lasts 200 ms and stays on its last frame
    player.death = Some(Death { time: 250_000, animation: 2, falls: true });
    assert_eq!(player.sprite(&assets).death, Some((2, 199_000)));
    player.death = Some(Death { time: 150_000, animation: 2, falls: true });
    assert_eq!(player.sprite(&assets).death, Some((2, 150_000)));
}

#[test]
fn camera_tiles_shift_the_camera_for_good() {
    let assets = player_assets();
    let mut projectiles = Vec::new();
    let level = level_of(&["........", "........", "..^..v..", "########"]);
    let mut player = grounded_player(&level, &assets, at(8_000, 16_000));
    assert_eq!(player.camera_offset, 0);
    let right = Input { axis: at(UNIT, 0), ..idle() };
    while player.pos.x < 16_000 {
        assert_eq!(player.camera_offset, 0);
        player.update(FRAME, &right, &level, &assets, &mut projectiles);
    }
    // in the raising tile the camera looks 48 px higher, and keeps doing so beyond it
    assert_eq!(player.camera_offset, -48_000);
    // the camera trails its new target by 28 px, as it does when the player climbs
    assert_eq!(player.camera_pos.y, 16_000 - 22_000 - 48_000 + 28_000);
    while player.pos.x < 40_000 {
        assert_eq!(player.camera_offset, -48_000);
        player.update(FRAME, &right, &level, &assets, &mut projectiles);
    }
    // the resting tile puts it back
    assert_eq!(player.camera_offset, 0);
    assert_eq!(player.camera_pos.y, 16_000 - 22_000);
}
