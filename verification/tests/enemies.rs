use cowboy_tower::assets::{Animation, AnimationsGroup, Assets, Level, LevelEnemyData};
use cowboy_tower::enemies::{
    load_enemies, path_position, wander_direction, AttackType, Enemy, EnemyType, MovementType, FULL_TURN,
    WANDER_THRESHOLD,
};
use cowboy_tower::fixed::Vec2;
use cowboy_tower::player::{Death, Player};
use cowboy_tower::projectiles::{Projectile, PLAYER_SHOT, THROWN, UNIT};

const FRAME: u32 = 16_667;

fn at(x: i32, y: i32) -> Vec2 {
    Vec2 { x, y }
}

fn enemy_group(tags: &[(&str, u32)]) -> AnimationsGroup {
    AnimationsGroup {
        animations: tags.iter().map(|(_, length)| Animation::new(vec![*length]).unwrap()).collect(),
        tag_names: tags.iter().map(|(name, _)| name.to_string()).collect(),
    }
}

fn plain_group(count: usize) -> AnimationsGroup {
    AnimationsGroup {
        animations: (0..count).map(|_| Animation::new(vec![100]).unwrap()).collect(),
        tag_names: (0..count).map(|i| format!("clip{}", i)).collect(),
    }
}

fn enemy_assets() -> Assets {
    Assets {
        torso: plain_group(3),
        legs: plain_group(2),
        levels: Vec::new(),
        projectiles: Animation::new(vec![100]).unwrap(),
        blood: Animation::new(vec![100, 100, 100]).unwrap(),
        die: Animation::new(vec![100]).unwrap(),
        pole: Animation::new(vec![100]).unwrap(),
        henry: plain_group(4),
        henry_dust: Animation::new(vec![100]).unwrap(),
        fireking: plain_group(6),
        fireball: plain_group(2),
        enemies: Vec::new(),
    }
}

/// Forty columns, six rows, the lowest one solid: bodies stand at y = 32 px.
fn plain() -> Level {
    let mut data = vec![[0u16, 0, 0, 0]; 40 * 6];
    for x in 0..40 {
        data[5 * 40 + x] = [0, 5, 0, 0];
    }
    Level {
        width: 40,
        height: 6,
        data,
        min_x: 0,
        min_y: 0,
        enemies: Vec::new(),
        horses: Vec::new(),
        markers: Vec::new(),
        lasso_targets: Vec::new(),
        enemy_paths: Vec::new(),
        player_spawn: at(0, 0),
        boss: None,
        world_index: 0,
        roof_height: 0,
        wall_climb_tiles: vec![512, 513],
    }
}

fn kind(movement: MovementType, attack: AttackType, attack_delay: u64, speed: i32) -> EnemyType {
    EnemyType::new(
        enemy_group(&[("idle", 400), ("walk", 400), ("attack", 300)]),
        movement,
        attack,
        attack_delay,
        speed,
    )
    .unwrap()
}

fn live(pos: Vec2) -> Enemy {
    Enemy {
        pos,
        velocity: at(0, 0),
        ty: 0,
        path_index: None,
        time: 0,
        has_attacked: false,
        attack_time: 0,
        death_frames: 0,
        wibble_wobble: 0,
        waiting_to_spawn: Some(0),
    }
}

#[test]
fn enemy_kind_needs_the_clips_its_behaviour_uses() {
    let two = || enemy_group(&[("idle", 100), ("walk", 100)]);
    assert!(EnemyType::new(two(), MovementType::Wander, AttackType::Unarmed, 0, 16_000).is_some());
    assert!(EnemyType::new(two(), MovementType::Chase, AttackType::Melee, 0, 16_000).is_some());
    // shooting needs an attack clip
    assert!(EnemyType::new(two(), MovementType::Still, AttackType::Shoot(1), 0, 0).is_none());
    assert!(EnemyType::new(two(), MovementType::Still, AttackType::ShootAfter(2), 0, 0).is_none());
    // one clip is not enough to stand and walk
    assert!(EnemyType::new(enemy_group(&[("attack", 100)]), MovementType::Still, AttackType::Shoot(1), 0, 0).is_none());
    // an unspawned clip needs a spawning clip
    let sleeper = enemy_group(&[("idle", 100), ("walk", 100), ("unspawned", 100)]);
    assert!(EnemyType::new(sleeper, MovementType::Still, AttackType::Unarmed, 0, 0).is_none());
    let riser = enemy_group(&[("idle", 100), ("walk", 100), ("unspawned", 100), ("spawning", 700)]);
    let riser = EnemyType::new(riser, MovementType::Still, AttackType::Melee, 0, 0).unwrap();
    assert_eq!(riser.unspawned_clip, Some(2));
    assert_eq!(riser.spawning_clip, Some(3));
    assert_eq!(riser.attack_clip, None);
    let shooter = kind(MovementType::Still, AttackType::Shoot(1), 1_500_000, 0);
    assert_eq!(shooter.attack_clip, Some(2));
    assert_eq!(shooter.attack_delay, 1_500_000);
    assert_eq!(shooter.attack_type, AttackType::Shoot(1));
    assert_eq!(shooter.movement_type, MovementType::Still);
}

#[test]
fn wander_direction_clamps_at_a_tenth() {
    assert_eq!(WANDER_THRESHOLD, 100_000);
    assert_eq!(wander_direction(0), 0);
    assert_eq!(wander_direction(99_999), 0);
    assert_eq!(wander_direction(-99_999), 0);
    assert_eq!(wander_direction(100_000), 1);
    assert_eq!(wander_direction(-100_000), -1);
    assert_eq!(wander_direction(1_000_000), 1);
    assert_eq!(wander_direction(-1_000_000), -1);
    assert_eq!(wander_direction(i32::MAX), 1);
    assert_eq!(wander_direction(i32::MIN), -1);
}

#[test]
fn wandering_enemy_moves_at_the_speed_of_its_kind_or_not_at_all() {
    let level = plain();
    let assets = enemy_assets();
    let bandit = kind(MovementType::Wander, AttackType::Unarmed, 0, 16_000);
    let mut player = Player::new(at(300_000, 32_000));
    let mut projectiles = Vec::new();
    // phase nought at time nought: the wave is sin(0) times the rest, nought
    let mut enemy = live(at(80_000, 32_000));
    assert_eq!(enemy.wander_argument(0), 0);
    let wave = (0.0f64.sin() * (0.0f64 * 4.627175 + 1.5).sin() * (0.0f64 * 5.306475 + 8.0).sin().powi(2) * 1e6) as i32;
    assert_eq!(wave, 0);
    assert!(enemy.update(&mut player, &mut projectiles, &assets, &bandit, &level, 0, wave));
    assert_eq!(enemy.velocity.x, 0);
    assert_eq!(enemy.pos, at(80_000, 32_000));
    for (wave, speed) in [(99_999, 0), (100_000, 16_000), (-99_999, 0), (-100_000, -16_000), (1_000_000, 16_000)] {
        let mut enemy = live(at(80_000, 32_000));
        enemy.update(&mut player, &mut projectiles, &assets, &bandit, &level, FRAME, wave);
        assert_eq!(enemy.velocity.x, speed);
        assert!([-16_000, 0, 16_000].contains(&enemy.velocity.x));
        // 16 px/s for a sixtieth of a second
        assert_eq!(enemy.pos.x, 80_000 + speed.signum() * 266);
        assert_eq!(enemy.time, FRAME as u64);
    }
}

#[test]
fn wander_argument_is_time_after_the_step_plus_phase() {
    let mut enemy = live(at(0, 0));
    enemy.time = 1_500_000;
    enemy.wibble_wobble = 3_141_592;
    assert_eq!(enemy.wander_argument(0), 4_641_592);
    // the wave is taken at the enemy's time after the frame's step
    assert_eq!(enemy.wander_argument(FRAME), 4_641_592 + FRAME as u64);
    enemy.time = u64::MAX - 5;
    assert_eq!(enemy.wander_argument(FRAME), u64::MAX);
}

#[test]
fn chasing_enemy_runs_at_the_player() {
    let level = plain();
    let assets = enemy_assets();
    let skeleton = kind(MovementType::Chase, AttackType::Unarmed, 0, 32_000);
    let mut projectiles = Vec::new();
    for (player_x, speed) in [(200_000, 32_000), (20_000, -32_000), (80_999, 0), (79_001, 0), (81_000, 32_000), (79_000, -32_000)] {
        let mut player = Player::new(at(player_x, 0));
        let mut enemy = live(at(80_000, 32_000));
        enemy.update(&mut player, &mut projectiles, &assets, &skeleton, &level, FRAME, 0);
        assert_eq!(enemy.velocity.x, speed, "player at {}", player_x);
        assert_eq!(enemy.pos.x, 80_000 + speed.signum() * 533);
    }
}

#[test]
fn patrol_walks_its_path_and_comes_round() {
    let path = vec![at(0, 0), at(8_000, 0), at(8_000, 8_000)];
    // five waypoints a second: 200 ms each
    assert_eq!(path_position(&path, 0, 0, 5_000), at(0, 0));
    assert_eq!(path_position(&path, 100_000, 0, 5_000), at(4_000, 0));
    assert_eq!(path_position(&path, 200_000, 0, 5_000), at(8_000, 0));
    assert_eq!(path_position(&path, 250_000, 0, 5_000), at(8_000, 2_000));
    // from the last waypoint back to the first
    assert_eq!(path_position(&path, 500_000, 0, 5_000), at(4_000, 4_000));
    assert_eq!(path_position(&path, 600_000, 0, 5_000), at(0, 0));
    assert_eq!(path_position(&path, 6_100_000, 0, 5_000), at(4_000, 0));
    // an enemy that set out from the second waypoint is one leg ahead
    assert_eq!(path_position(&path, 0, 1, 5_000), at(8_000, 0));
    assert_eq!(path_position(&path, 100_000, 1, 5_000), at(8_000, 4_000));
    assert_eq!(path_position(&path, 0, 3, 5_000), at(0, 0));
}

#[test]
fn patrolling_enemy_follows_the_level_s_path() {
    let mut level = plain();
    level.enemy_paths = vec![vec![at(0, 0)], vec![at(16_000, 8_000), at(32_000, 8_000)]];
    let assets = enemy_assets();
    let bat = kind(MovementType::FollowPath, AttackType::Unarmed, 0, 5_000);
    let mut player = Player::new(at(300_000, 32_000));
    let mut projectiles = Vec::new();
    let mut enemy = live(at(0, 0));
    enemy.path_index = Some((1, 0));
    enemy.update(&mut player, &mut projectiles, &assets, &bat, &level, 100_000, 0);
    assert_eq!(enemy.pos, at(24_000, 8_000));
    enemy.update(&mut player, &mut projectiles, &assets, &bat, &level, 100_000, 0);
    assert_eq!(enemy.pos, at(32_000, 8_000));
    enemy.update(&mut player, &mut projectiles, &assets, &bat, &level, 50_000, 0);
    assert_eq!(enemy.pos, at(28_000, 8_000));
    assert_eq!(enemy.animation(&bat), Some((1, 250_000)));
}

#[test]
fn shooter_fires_at_the_start_of_each_attack() {
    let level = plain();
    let assets = enemy_assets();
    // the attack clip lasts 300 ms, the pause after it 500 ms
    let bandit = kind(MovementType::Still, AttackType::Shoot(1), 500_000, 0);
    let mut player = Player::new(at(200_000, 32_000));
    let mut projectiles = Vec::new();
    let mut enemy = live(at(80_000, 32_000));
    enemy.update(&mut player, &mut projectiles, &assets, &bandit, &level, 100_000, 0);
    assert_eq!(projectiles.len(), 1);
    // the player is to the right: the shot starts 12 px right of the enemy and flies right
    assert_eq!(projectiles[0], Projectile::new(1, at(92_000, 32_000), at(UNIT, 0)));
    assert_eq!(projectiles[0].direction, at(102_400, 0));
    assert!(!projectiles[0].friendly);
    assert_eq!(enemy.attack_time, 100_000);
    assert_eq!(enemy.animation(&bandit), Some((2, 100_000)));
    // 100 ms per frame: the attack is over when 800 ms have passed
    for frame in 2..=7 {
        enemy.update(&mut player, &mut projectiles, &assets, &bandit, &level, 100_000, 0);
        assert_eq!(enemy.attack_time, frame * 100_000);
        assert_eq!(projectiles.len(), 1);
    }
    assert_eq!(enemy.animation(&bandit), Some((0, 700_000)));
    enemy.update(&mut player, &mut projectiles, &assets, &bandit, &level, 100_000, 0);
    assert_eq!(enemy.attack_time, 0);
    assert_eq!(projectiles.len(), 1);
    enemy.update(&mut player, &mut projectiles, &assets, &bandit, &level, 100_000, 0);
    assert_eq!(projectiles.len(), 2);
}

#[test]
fn shooter_aims_left_at_a_player_on_the_left() {
    let level = plain();
    let assets = enemy_assets();
    let bandit = kind(MovementType::Still, AttackType::Shoot(1), 500_000, 0);
    let mut player = Player::new(at(20_000, 32_000));
    let mut projectiles = Vec::new();
    let mut enemy = live(at(80_000, 32_000));
    enemy.update(&mut player, &mut projectiles, &assets, &bandit, &level, FRAME, 0);
    assert_eq!(projectiles, vec![Projectile::new(1, at(76_000, 32_000), at(-UNIT, 0))]);
}

#[test]
fn shooter_holds_fire_while_the_player_is_dead() {
    let level = plain();
    let assets = enemy_assets();
    let bandit = kind(MovementType::Still, AttackType::Shoot(1), 500_000, 0);
    let mut player = Player::new(at(200_000, 32_000));
    player.death = Some(Death { time: 0, animation: 0, falls: false });
    let mut projectiles = Vec::new();
    let mut enemy = live(at(80_000, 32_000));
    for _ in 0..100 {
        enemy.update(&mut player, &mut projectiles, &assets, &bandit, &level, FRAME, 0);
    }
    assert!(projectiles.is_empty());
    assert_eq!(enemy.attack_time, 0);
}

#[test]
fn late_shooter_fires_once_when_the_attack_clip_has_played() {
    let level = plain();
    let assets = enemy_assets();
    let laser = kind(MovementType::Still, AttackType::ShootAfter(4), 500_000, 0);
    let mut player = Player::new(at(200_000, 32_000));
    let mut projectiles = Vec::new();
    let mut enemy = live(at(80_000, 32_000));
    enemy.update(&mut player, &mut projectiles, &assets, &laser, &level, 100_000, 0);
    assert!(projectiles.is_empty());
    assert!(!enemy.has_attacked);
    enemy.update(&mut player, &mut projectiles, &assets, &laser, &level, 100_000, 0);
    assert!(projectiles.is_empty());
    // 300 ms: the clip has played
    enemy.update(&mut player, &mut projectiles, &assets, &laser, &level, 100_000, 0);
    // a ray is fired from the enemy's own position
    assert_eq!(projectiles, vec![Projectile::new(4, at(80_000, 32_000), at(UNIT, 0))]);
    assert!(enemy.has_attacked);
    for _ in 0..4 {
        enemy.update(&mut player, &mut projectiles, &assets, &laser, &level, 100_000, 0);
        assert_eq!(projectiles.len(), 1);
    }
    assert!(enemy.has_attacked);
    // 800 ms: the attack ends and the latch opens again
    enemy.update(&mut player, &mut projectiles, &assets, &laser, &level, 100_000, 0);
    assert_eq!(enemy.attack_time, 0);
    assert!(!enemy.has_attacked);
    assert_eq!(projectiles.len(), 1);
}

#[test]
fn melee_kills_a_player_within_reach() {
    let level = plain();
    let assets = enemy_assets();
    let bat = kind(MovementType::Still, AttackType::Melee, 0, 0);
    let mut projectiles = Vec::new();
    let mut enemy = live(at(80_000, 32_000));
    let mut far = Player::new(at(85_000, 32_000));
    enemy.update(&mut far, &mut projectiles, &assets, &bat, &level, FRAME, 0);
    assert_eq!(far.death, None);
    let mut near = Player::new(at(84_999, 32_000));
    enemy.update(&mut near, &mut projectiles, &assets, &bat, &level, FRAME, 0);
    assert_eq!(near.death, Some(Death { time: 0, animation: 0, falls: true }));
    // every frame again
    let mut next = Player::new(at(83_000, 35_000));
    enemy.update(&mut next, &mut projectiles, &assets, &bat, &level, FRAME, 0);
    assert!(next.death.is_some());
    assert_eq!(enemy.attack_time, 0);
}

#[test]
fn enemy_struck_by_the_player_s_shot_dies_and_fades() {
    let level = plain();
    let assets = enemy_assets();
    let bandit = kind(MovementType::Still, AttackType::Unarmed, 0, 0);
    let mut player = Player::new(at(20_000, 32_000));
    let mut enemy = live(at(80_000, 32_000));
    let mut projectiles = vec![
        Projectile::new(1, at(84_000, 32_000), at(UNIT, 0)),
        Projectile::new(PLAYER_SHOT, at(200_000, 32_000), at(UNIT, 0)),
        Projectile::new(PLAYER_SHOT, at(84_000, 32_000), at(UNIT, 0)),
        Projectile::new(PLAYER_SHOT, at(84_000, 32_000), at(UNIT, 0)),
    ];
    assert!(enemy.update(&mut player, &mut projectiles, &assets, &bandit, &level, FRAME, 0));
    assert_eq!(enemy.death_frames, FRAME as u64);
    // only the first shot that strikes is spent
    let spent: Vec<bool> = projectiles.iter().map(|p| p.dead).collect();
    assert_eq!(spent, vec![false, false, true, false]);
    // the blood clip lasts 300 ms; the enemy stays until it has played
    let mut frames = 1;
    while enemy.update(&mut player, &mut projectiles, &assets, &bandit, &level, FRAME, 0) {
        frames += 1;
        assert_eq!(enemy.time, 0);
        assert_eq!(enemy.death_frames, frames * FRAME as u64);
        assert!(enemy.death_frames <= 300_000);
    }
    assert_eq!(frames, 17);
    assert_eq!(enemy.death_frames, 18 * FRAME as u64);
    let spent: Vec<bool> = projectiles.iter().map(|p| p.dead).collect();
    assert_eq!(spent, vec![false, false, true, false]);
}

#[test]
fn enemy_is_struck_only_inside_its_box() {
    let level = plain();
    let assets = enemy_assets();
    let bandit = kind(MovementType::Still, AttackType::Unarmed, 0, 0);
    let mut player = Player::new(at(20_000, 32_000));
    let cases = [
        (at(84_000, 32_000), true),
        (at(80_001, 32_000), true),
        (at(80_000, 32_000), false),
        (at(88_000, 32_000), true),
        (at(88_001, 32_000), false),
        (at(84_000, 40_000), true),
        (at(84_000, 40_001), false),
        (at(84_000, 28_001), true),
        (at(84_000, 28_000), false),
    ];
    for (pos, struck) in cases {
        let mut enemy = live(at(80_000, 32_000));
        let mut projectiles = vec![Projectile::new(PLAYER_SHOT, pos, at(0, 0))];
        enemy.update(&mut player, &mut projectiles, &assets, &bandit, &level, FRAME, 0);
        assert_eq!(enemy.death_frames > 0, struck, "shot at {:?}", pos);
        assert_eq!(projectiles[0].dead, struck);
    }
}

#[test]
fn harmless_and_hostile_projectiles_do_not_strike() {
    let level = plain();
    let assets = enemy_assets();
    let bandit = kind(MovementType::Still, AttackType::Unarmed, 0, 0);
    let mut player = Player::new(at(20_000, 32_000));
    let mut enemy = live(at(80_000, 32_000));
    let mut carrier = Projectile::new(THROWN, at(84_000, 32_000), at(0, 0));
    carrier.friendly = true;
    let mut hazard = Projectile::new(3, at(84_000, 32_000), at(0, 0));
    hazard.friendly = true;
    let mut projectiles = vec![carrier, hazard, Projectile::new(1, at(84_000, 32_000), at(0, 0))];
    enemy.update(&mut player, &mut projectiles, &assets, &bandit, &level, FRAME, 0);
    assert_eq!(enemy.death_frames, 0);
    assert!(projectiles.iter().all(|p| !p.dead));
}

#[test]
fn dormant_enemy_wakes_when_the_player_comes_near() {
    let level = plain();
    let assets = enemy_assets();
    let group = enemy_group(&[("idle", 100), ("walk", 100), ("unspawned", 100), ("spawning", 700)]);
    let riser = EnemyType::new(group, MovementType::Chase, AttackType::Melee, 0, 32_000).unwrap();
    let data = LevelEnemyData { pos: at(80_000, 32_000), ty: 0, attack_delay: 0, path_index: None };
    let mut enemy = Enemy::new(data, &riser, 1234);
    assert_eq!(enemy.waiting_to_spawn, None);
    assert_eq!(enemy.wibble_wobble, 1234);
    assert_eq!(enemy.animation(&riser), Some((2, 0)));
    // a shot goes straight through a dormant enemy
    let mut projectiles = vec![Projectile::new(PLAYER_SHOT, at(84_000, 32_000), at(0, 0))];
    let mut far = Player::new(at(80_000 + 128_000, 32_000));
    assert!(enemy.update(&mut far, &mut projectiles, &assets, &riser, &level, FRAME, 0));
    assert_eq!(enemy.waiting_to_spawn, None);
    assert_eq!(enemy.death_frames, 0);
    assert!(!projectiles[0].dead);
    assert_eq!(enemy.pos, at(80_000, 32_000));
    projectiles.clear();
    let mut near = Player::new(at(80_000 + 127_999, 32_000));
    enemy.update(&mut near, &mut projectiles, &assets, &riser, &level, FRAME, 0);
    assert_eq!(enemy.waiting_to_spawn, Some(700_000));
    assert_eq!(enemy.animation(&riser), Some((3, 0)));
    enemy.update(&mut near, &mut projectiles, &assets, &riser, &level, 100_000, 0);
    assert_eq!(enemy.waiting_to_spawn, Some(600_000));
    assert_eq!(enemy.animation(&riser), Some((3, 100_000)));
    assert_eq!(enemy.velocity, at(0, 0));
    for _ in 0..6 {
        enemy.update(&mut near, &mut projectiles, &assets, &riser, &level, 100_000, 0);
    }
    assert_eq!(enemy.waiting_to_spawn, Some(0));
    assert_eq!(enemy.velocity, at(0, 0));
    // spawned: now it chases
    enemy.update(&mut near, &mut projectiles, &assets, &riser, &level, FRAME, 0);
    assert_eq!(enemy.velocity.x, 32_000);
}

#[test]
fn enemy_without_an_unspawned_clip_is_live_at_once() {
    let bandit = kind(MovementType::Wander, AttackType::Shoot(1), 1_500_000, 16_000);
    let data = LevelEnemyData { pos: at(8_000, 16_000), ty: 3, attack_delay: 250_000, path_index: Some((2, 1)) };
    let enemy = Enemy::new(data, &bandit, 7);
    assert_eq!(enemy.waiting_to_spawn, Some(0));
    assert_eq!(enemy.pos, at(8_000, 16_000));
    assert_eq!(enemy.ty, 3);
    assert_eq!(enemy.attack_time, 250_000);
    assert_eq!(enemy.path_index, Some((2, 1)));
    assert_eq!(enemy.velocity, at(0, 0));
    assert_eq!(enemy.death_frames, 0);
    assert!(!enemy.has_attacked);
    assert_eq!(enemy.animation(&bandit), Some((2, 250_000)));
}

#[test]
fn moving_enemy_shows_its_moving_clip() {
    let walker = kind(MovementType::Wander, AttackType::Unarmed, 0, 16_000);
    let mut enemy = live(at(0, 0));
    enemy.time = 42;
    assert_eq!(enemy.animation(&walker), Some((0, 42)));
    enemy.velocity.x = 5_000;
    assert_eq!(enemy.animation(&walker), Some((0, 42)));
    enemy.velocity.x = 5_001;
    assert_eq!(enemy.animation(&walker), Some((1, 42)));
    enemy.velocity.x = -16_000;
    assert_eq!(enemy.animation(&walker), Some((1, 42)));
}

#[test]
fn loaded_enemies_stand_where_the_level_puts_them_with_phases_of_their_own() {
    let mut level = plain();
    for i in 0..64 {
        level.enemies.push(LevelEnemyData { pos: at(i * 8_000, 32_000), ty: (i % 2) as usize, attack_delay: 0, path_index: None });
    }
    let catalog = vec![
        kind(MovementType::Wander, AttackType::Shoot(1), 1_500_000, 16_000),
        EnemyType::new(
            enemy_group(&[("idle", 100), ("walk", 100), ("unspawned", 100), ("spawning", 700)]),
            MovementType::Chase,
            AttackType::Melee,
            0,
            32_000,
        )
        .unwrap(),
    ];
    let enemies = load_enemies(&level, &catalog);
    assert_eq!(enemies.len(), 64);
    for (i, enemy) in enemies.iter().enumerate() {
        assert_eq!(enemy.pos, at(i as i32 * 8_000, 32_000));
        assert_eq!(enemy.ty, i % 2);
        assert_eq!(enemy.waiting_to_spawn, if i % 2 == 0 { Some(0) } else { None });
        assert!(enemy.wibble_wobble <= FULL_TURN as u32);
        assert_eq!(enemy.time, 0);
    }
    // the phases are drawn, not fixed: they are not all at one end of the range, nor all the same
    assert!(enemies.iter().any(|e| e.wibble_wobble != 0));
    assert!(enemies.iter().any(|e| e.wibble_wobble != FULL_TURN as u32));
    assert!(enemies.iter().any(|e| e.wibble_wobble != enemies[0].wibble_wobble));
}
