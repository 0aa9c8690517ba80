use cowboy_tower::assets::{Animation, AnimationsGroup, Assets, Level, LevelEnemyData, LevelHorseData};
use cowboy_tower::bosses::Boss;
use cowboy_tower::enemies::{AttackType, EnemyType, MovementType};
use cowboy_tower::fixed::Vec2;
use cowboy_tower::game::{check_level, update_horses, update_projectiles, Game, Signal};
use cowboy_tower::horses::load_horses;
use cowboy_tower::player::{Death, Input, Player};
use cowboy_tower::projectiles::{Projectile, HAZARD, PLAYER_SHOT, RAY, THROWN, UNIT};
use cowboy_tower::utils::{clamp_delta_time, MAX_DELTA_TIME};

const FRAME: u32 = 16_667;

fn at(x: i32, y: i32) -> Vec2 {
    Vec2 { x, y }
}

fn game_clips(tags: &[(&str, u32)]) -> AnimationsGroup {
    AnimationsGroup {
        animations: tags.iter().map(|(_, length)| Animation::new(vec![*length]).unwrap()).collect(),
        tag_names: tags.iter().map(|(name, _)| name.to_string()).collect(),
    }
}

fn numbered(count: usize) -> AnimationsGroup {
    AnimationsGroup {
        animations: (0..count).map(|_| Animation::new(vec![100]).unwrap()).collect(),
        tag_names: (0..count).map(|i| format!("clip{}", i)).collect(),
    }
}

/// Forty columns, ten rows, the lowest solid: bodies stand at y = 64 px.
fn field() -> Level {
    let mut data = vec![[0u16, 0, 0, 0]; 400];
    for x in 0..40 {
        data[9 * 40 + x] = [0, 5, 0, 0];
    }
    Level {
        width: 40,
        height: 10,
        data,
        min_x: 0,
        min_y: 0,
        enemies: Vec::new(),
        horses: Vec::new(),
        markers: Vec::new(),
        lasso_targets: Vec::new(),
        enemy_paths: Vec::new(),
        player_spawn: at(40_000, 64_000),
        boss: None,
        world_index: 0,
        roof_height: 0,
        wall_climb_tiles: vec![512, 513],
    }
}

fn assets_with(levels: Vec<Level>) -> Assets {
    let bandit = EnemyType::new(
        game_clips(&[("idle", 400), ("walk", 400), ("attack", 300)]),
        MovementType::Still,
        AttackType::Shoot(1),
        500_000,
        0,
    )
    .unwrap();
    let bat = EnemyType::new(game_clips(&[("idle", 400), ("walk", 400)]), MovementType::FollowPath, AttackType::Melee, 0, 5_000)
        .unwrap();
    let wanderer =
        EnemyType::new(game_clips(&[("idle", 400), ("walk", 400)]), MovementType::Wander, AttackType::Unarmed, 0, 16_000).unwrap();
    Assets {
        torso: numbered(3),
        legs: numbered(2),
        levels,
        projectiles: Animation::new(vec![100]).unwrap(),
        blood: Animation::new(vec![100]).unwrap(),
        die: Animation::new(vec![100, 100]).unwrap(),
        pole: Animation::new(vec![100]).unwrap(),
        henry: numbered(4),
        henry_dust: Animation::new(vec![100]).unwrap(),
        fireking: numbered(6),
        fireball: numbered(2),
        enemies: vec![bandit, bat, wanderer],
    }
}

fn quiet() -> Input {
    Input {
        axis: at(0, 0),
        jump_pressed: false,
        jump_down: false,
        shoot_pressed: false,
        lasso_pressed: false,
        lasso_down: false,
        arc: at(0, 0),
    }
}

fn enemy_at(x: i32, ty: usize) -> LevelEnemyData {
    LevelEnemyData { pos: at(x, 64_000), ty, attack_delay: 0, path_index: None }
}

#[test]
fn frame_time_is_capped_at_a_sixtieth_of_a_second() {
    assert_eq!(MAX_DELTA_TIME, 16_667);
    assert_eq!(clamp_delta_time(0), 0);
    assert_eq!(clamp_delta_time(10_000), 10_000);
    assert_eq!(clamp_delta_time(16_667), 16_667);
    assert_eq!(clamp_delta_time(16_668), 16_667);
    assert_eq!(clamp_delta_time(u32::MAX), 16_667);
}

#[test]
fn level_is_checked_before_it_is_played() {
    let assets = assets_with(Vec::new());
    assert!(check_level(&field(), &assets));
    let mut unknown = field();
    unknown.enemies = vec![enemy_at(80_000, 0), enemy_at(90_000, 3)];
    assert!(!check_level(&unknown, &assets));
    // a patrol needs a path with waypoints
    let mut lost = field();
    lost.enemies = vec![enemy_at(80_000, 1)];
    assert!(!check_level(&lost, &assets));
    lost.enemies[0].path_index = Some((0, 0));
    assert!(!check_level(&lost, &assets));
    lost.enemy_paths = vec![Vec::new()];
    assert!(!check_level(&lost, &assets));
    lost.enemy_paths = vec![vec![at(0, 0)]];
    assert!(check_level(&lost, &assets));
    // a boss needs to be of a known kind and to have his arena marked out
    let mut lair = field();
    lair.boss = Some((0, at(160_000, 64_000)));
    assert!(!check_level(&lair, &assets));
    lair.markers = vec![at(0, 0); 5];
    assert!(check_level(&lair, &assets));
    lair.boss = Some((2, at(160_000, 64_000)));
    assert!(!check_level(&lair, &assets));
}

#[test]
fn new_game_sets_the_level_up() {
    let mut level = field();
    level.enemies = vec![enemy_at(200_000, 0), enemy_at(240_000, 2)];
    level.horses = vec![LevelHorseData { pos: at(120_000, 64_000), inverted: false }];
    level.boss = Some((1, at(300_000, 64_000)));
    level.markers = vec![at(0, 0); 5];
    let mut broken = field();
    broken.enemies = vec![enemy_at(0, 9)];
    let assets = assets_with(vec![level, broken]);
    let game = Game::new(&assets, 0).unwrap();
    assert_eq!(game.level_index, 0);
    assert_eq!(game.player, Player::new(at(40_000, 64_000)));
    assert_eq!(game.enemies.len(), 2);
    assert_eq!(game.enemies[0].pos, at(200_000, 64_000));
    assert_eq!(game.enemies[1].ty, 2);
    assert_eq!(game.horses, load_horses(&assets.levels[0]));
    assert!(game.projectiles.is_empty());
    match &game.boss {
        Some(Boss::Fireking(king)) => {
            assert_eq!(king.body.pos, at(300_000, 64_000));
            assert_eq!(king.body.spawn, at(300_000, 64_000));
            assert_eq!(king.body.health, 10);
            assert!(king.blood_effects.is_empty());
        }
        _ => panic!("the boss is missing"),
    }
    assert!(Game::new(&assets, 1).is_none());
    assert!(Game::new(&assets, 2).is_none());
    assert!(Game::new(&assets, usize::MAX).is_none());
}

#[test]
fn frame_moves_the_player_by_the_capped_time_step() {
    let assets = assets_with(vec![field()]);
    let mut game = Game::new(&assets, 0).unwrap();
    game.player.pos = at(40_000, 8_000);
    let signal = game.update(&assets, 1_000_000, &quiet(), &Vec::new());
    assert_eq!(signal, Signal::Playing);
    assert_eq!(game.player.velocity, at(0, 12_250));
    assert_eq!(game.player.pos, at(40_000, 8_204));
    assert_eq!(game.player.time, FRAME as u64);
    let signal = game.update(&assets, 6_000, &quiet(), &Vec::new());
    assert_eq!(signal, Signal::Playing);
    assert_eq!(game.player.time, FRAME as u64 + 6_000);
}

#[test]
fn player_s_shot_flies_in_the_frame_it_is_fired() {
    let assets = assets_with(vec![field()]);
    let mut game = Game::new(&assets, 0).unwrap();
    game.update(&assets, FRAME, &quiet(), &Vec::new());
    let shoot = Input { shoot_pressed: true, ..quiet() };
    game.update(&assets, FRAME, &shoot, &Vec::new());
    // fired 12 px right of the player, then moved by 128 px/s for one frame
    assert_eq!(game.projectiles.len(), 1);
    assert_eq!(game.projectiles[0].pos, at(40_000 + 12_000 + 2_133, 64_000));
    assert_eq!(game.projectiles[0].time, FRAME as u64);
    assert!(game.projectiles[0].friendly);
}

#[test]
fn spent_projectiles_go_at_the_end_of_the_frame_and_payloads_come_after() {
    let level = field();
    let mut player = Player::new(at(300_000, 64_000));
    let mut dying = Projectile::new(THROWN, at(80_000, 64_000), at(0, 0));
    dying.time = 1_000_000 - 5_000;
    let mut dead = Projectile::new(PLAYER_SHOT, at(10_000, 10_000), at(UNIT, 0));
    dead.dead = true;
    let alive = Projectile::new(PLAYER_SHOT, at(100_000, 20_000), at(UNIT, 0));
    let mut projectiles = vec![dying, dead, alive];
    update_projectiles(&mut projectiles, &mut player, &level, 5_000);
    assert_eq!(projectiles.len(), 2);
    assert_eq!(projectiles[0].pos, at(100_640, 20_000));
    assert_eq!(projectiles[0].type_index, PLAYER_SHOT);
    // what the carrier left behind stands last
    assert_eq!(projectiles[1].type_index, HAZARD);
    assert_eq!(projectiles[1].pos, at(80_000, 64_000));
    assert_eq!(projectiles[1].time, 0);
    assert!(projectiles.iter().all(|p| !p.dead));
    assert_eq!(player.death, None);
}

#[test]
fn hostile_projectile_kills_the_player_and_is_spent() {
    let level = field();
    let mut player = Player::new(at(100_000, 64_000));
    let mut projectiles = vec![
        Projectile::new(PLAYER_SHOT, at(104_000, 64_000), at(0, 0)),
        Projectile::new(THROWN, at(104_000, 60_000), at(0, 0)),
        Projectile::new(1, at(104_000, 64_000), at(0, 0)),
        Projectile::new(1, at(104_000, 64_000), at(0, 0)),
    ];
    update_projectiles(&mut projectiles, &mut player, &level, 5_000);
    assert_eq!(player.death, Some(Death { time: 0, animation: 0, falls: true }));
    // the player's own shot and the harmless carrier fly on; the first hostile shot killed and is gone;
    // the second found the player dead already
    let kinds: Vec<usize> = projectiles.iter().map(|p| p.type_index).collect();
    assert_eq!(kinds, vec![PLAYER_SHOT, THROWN, 1]);
}

#[test]
fn ray_kills_with_its_own_death_and_stays() {
    let mut level = field();
    for x in 0..40 {
        level.data[x] = [0, 5, 0, 0];
    }
    let mut player = Player::new(at(100_000, 30_000));
    let mut projectiles = vec![Projectile::new(RAY, at(104_000, 64_000), at(0, 0))];
    update_projectiles(&mut projectiles, &mut player, &level, 5_000);
    assert_eq!(player.death, Some(Death { time: 0, animation: 2, falls: true }));
    assert_eq!(projectiles.len(), 1);
    assert!(!projectiles[0].dead);
}

#[test]
fn enemies_act_after_the_player_and_the_dead_are_cleared_away() {
    let mut level = field();
    level.enemies = vec![enemy_at(200_000, 0), enemy_at(46_000, 2)];
    let assets = assets_with(vec![level]);
    let mut game = Game::new(&assets, 0).unwrap();
    game.update(&assets, FRAME, &quiet(), &vec![0, 0]);
    // the bandit has fired at the player on his left
    assert_eq!(game.projectiles.len(), 1);
    assert_eq!(game.projectiles[0].type_index, 1);
    assert_eq!(game.projectiles[0].pos, at(196_000 - 1_706, 64_000));
    game.projectiles.clear();
    // the player shoots the wanderer beside him
    let shoot = Input { shoot_pressed: true, ..quiet() };
    game.update(&assets, FRAME, &shoot, &vec![0, 0]);
    assert_eq!(game.enemies.len(), 2);
    assert_eq!(game.enemies[1].death_frames, FRAME as u64);
    // the shot was spent on him and is gone by the end of the frame
    assert!(game.projectiles.is_empty());
    // the blood clip lasts 100 ms
    let mut frames = 0;
    while game.enemies.len() == 2 {
        game.update(&assets, FRAME, &quiet(), &vec![0, 0]);
        frames += 1;
        assert!(frames < 100);
    }
    assert_eq!(frames, 5);
    assert_eq!(game.enemies.len(), 1);
    assert_eq!(game.enemies[0].ty, 0);
}

#[test]
fn wandering_enemies_take_the_waves_they_are_handed() {
    let mut level = field();
    level.enemies = vec![enemy_at(100_000, 2), enemy_at(200_000, 2), enemy_at(300_000, 2)];
    let assets = assets_with(vec![level]);
    let mut game = Game::new(&assets, 0).unwrap();
    // the third enemy gets no wave: it stands
    game.update(&assets, FRAME, &quiet(), &vec![500_000, -500_000]);
    assert_eq!(game.enemies[0].velocity.x, 16_000);
    assert_eq!(game.enemies[1].velocity.x, -16_000);
    assert_eq!(game.enemies[2].velocity.x, 0);
    assert_eq!(game.enemies[0].pos.x, 100_266);
    assert_eq!(game.enemies[1].pos.x, 199_734);
}

#[test]
fn death_is_signalled_when_it_has_played_out() {
    let assets = assets_with(vec![field()]);
    let mut game = Game::new(&assets, 0).unwrap();
    game.update(&assets, FRAME, &quiet(), &Vec::new());
    game.player.kill(0, false);
    // the death clip lasts 200 ms
    let mut frames = 0;
    loop {
        let signal = game.update(&assets, FRAME, &quiet(), &Vec::new());
        frames += 1;
        if signal == Signal::PlayerDied {
            break;
        }
        assert_eq!(signal, Signal::Playing);
        assert!(game.player.death.unwrap().time < 200_000);
    }
    assert_eq!(frames, 12);
    assert_eq!(game.player.death.unwrap().time, 12 * FRAME as u64);
}

#[test]
fn leaving_through_the_top_completes_the_level() {
    let assets = assets_with(vec![field()]);
    let mut game = Game::new(&assets, 0).unwrap();
    game.player.pos = at(40_000, -50_000);
    assert_eq!(game.update(&assets, FRAME, &quiet(), &Vec::new()), Signal::LevelComplete);
    // not while a boss holds the player
    game.player.in_boss_battle = true;
    assert_eq!(game.update(&assets, FRAME, &quiet(), &Vec::new()), Signal::Playing);
    // nor for the dead
    game.player.in_boss_battle = false;
    game.player.kill(0, false);
    assert_eq!(game.update(&assets, FRAME, &quiet(), &Vec::new()), Signal::Playing);
    // inside the level nothing is signalled
    let mut game = Game::new(&assets, 0).unwrap();
    game.player.pos = at(40_000, 100);
    assert_eq!(game.update(&assets, FRAME, &quiet(), &Vec::new()), Signal::Playing);
}

#[test]
fn respawn_starts_over_but_keeps_the_boss() {
    let mut level = field();
    level.enemies = vec![enemy_at(200_000, 0)];
    level.horses = vec![LevelHorseData { pos: at(120_000, 64_000), inverted: false }];
    level.boss = Some((0, at(300_000, 64_000)));
    level.markers = vec![at(0, 0), at(320_000, 0), at(0, 0), at(0, 0), at(0, 0)];
    let assets = assets_with(vec![level]);
    let mut game = Game::new(&assets, 0).unwrap();
    for _ in 0..30 {
        game.update(&assets, FRAME, &quiet(), &vec![0]);
    }
    game.player.defeated_bosses = 1;
    game.enemies.clear();
    game.horses[0].pos = at(0, 0);
    assert!(!game.projectiles.is_empty());
    let boss_time = match &game.boss {
        Some(Boss::Henry(henry)) => henry.body.time,
        _ => panic!("no boss"),
    };
    assert_eq!(boss_time, 30 * FRAME as u64);
    game.respawn(&assets);
    let mut fresh = Player::new(at(40_000, 64_000));
    fresh.has_restarted_level = true;
    fresh.defeated_bosses = 1;
    assert_eq!(game.player, fresh);
    assert_eq!(game.enemies.len(), 1);
    assert_eq!(game.enemies[0].pos, at(200_000, 64_000));
    assert_eq!(game.horses, load_horses(&assets.levels[0]));
    assert!(game.projectiles.is_empty());
    match &game.boss {
        Some(Boss::Henry(henry)) => assert_eq!(henry.body.time, boss_time),
        _ => panic!("the boss is gone"),
    }
}

#[test]
fn next_level_moves_on_where_there_is_one() {
    let mut second = field();
    second.player_spawn = at(8_000, 16_000);
    second.enemies = vec![enemy_at(200_000, 0), enemy_at(210_000, 0)];
    let mut broken = field();
    broken.enemies = vec![enemy_at(0, 9)];
    let assets = assets_with(vec![field(), second, broken]);
    let mut game = Game::new(&assets, 0).unwrap();
    game.player.defeated_bosses = 2;
    game.projectiles.push(Projectile::new(PLAYER_SHOT, at(0, 0), at(UNIT, 0)));
    assert!(game.next_level(&assets));
    assert_eq!(game.level_index, 1);
    let mut fresh = Player::new(at(8_000, 16_000));
    fresh.defeated_bosses = 2;
    assert_eq!(game.player, fresh);
    assert_eq!(game.enemies.len(), 2);
    assert!(game.projectiles.is_empty());
    assert!(game.boss.is_none());
    // the third level cannot be played: the game stays where it is
    game.player.pos = at(1, 2);
    assert!(!game.next_level(&assets));
    assert_eq!(game.level_index, 1);
    assert_eq!(game.player.pos, at(1, 2));
    let last = assets_with(vec![field()]);
    let mut game = Game::new(&last, 0).unwrap();
    assert!(!game.next_level(&last));
}

#[test]
fn horses_move_before_the_player_rides() {
    let mut level = field();
    level.horses = vec![LevelHorseData { pos: at(48_000, 64_000), inverted: false }];
    let assets = assets_with(vec![level]);
    let mut game = Game::new(&assets, 0).unwrap();
    let jump = Input { jump_pressed: true, jump_down: true, ..quiet() };
    game.update(&assets, FRAME, &jump, &Vec::new());
    assert_eq!(game.player.riding, Some(0));
    assert!(game.horses[0].running);
    assert_eq!(game.player.pos, at(48_000, 48_000));
    game.update(&assets, FRAME, &quiet(), &Vec::new());
    // the horse ran first, then the rider was seated on it
    assert_eq!(game.horses[0].pos, at(50_666, 64_000));
    assert_eq!(game.player.pos, at(50_666, 48_000));
    let mut horses = load_horses(&assets.levels[0]);
    horses[0].running = true;
    update_horses(&mut horses, FRAME, &assets.levels[0]);
    assert_eq!(horses[0].pos, at(50_666, 64_000));
}
