use cowboy_tower::assets::{Animation, AnimationsGroup, Assets, Level, LevelEnemyData};
use cowboy_tower::bosses::new_boss;
use cowboy_tower::enemies::{AttackType, Enemy, EnemyType, MovementType};
use cowboy_tower::fixed::Vec2;
use cowboy_tower::game::Game;
use cowboy_tower::utils::debug::{contains_word, DebugFlags};
use cowboy_tower::utils::{get_input_axis, Keys, Pad};

fn checked_clips(tags: &[(&str, u32)]) -> AnimationsGroup {
    AnimationsGroup {
        animations: tags.iter().map(|(_, length)| Animation::new(vec![*length]).unwrap()).collect(),
        tag_names: tags.iter().map(|(name, _)| name.to_string()).collect(),
    }
}

fn checked_group(count: usize) -> AnimationsGroup {
    AnimationsGroup {
        animations: (0..count).map(|_| Animation::new(vec![100]).unwrap()).collect(),
        tag_names: (0..count).map(|i| format!("clip{}", i)).collect(),
    }
}

fn checked_level() -> Level {
    Level {
        width: 4,
        height: 3,
        data: vec![[0, 0, 0, 0]; 12],
        min_x: 0,
        min_y: 0,
        enemies: Vec::new(),
        horses: Vec::new(),
        markers: Vec::new(),
        lasso_targets: Vec::new(),
        enemy_paths: Vec::new(),
        player_spawn: Vec2 { x: 0, y: 0 },
        boss: None,
        world_index: 0,
        roof_height: 0,
        wall_climb_tiles: vec![512, 513],
    }
}

fn checked_assets() -> Assets {
    Assets {
        torso: checked_group(3),
        legs: checked_group(2),
        levels: vec![checked_level()],
        projectiles: Animation::new(vec![100]).unwrap(),
        blood: Animation::new(vec![100]).unwrap(),
        die: Animation::new(vec![100]).unwrap(),
        pole: Animation::new(vec![100]).unwrap(),
        henry: checked_group(4),
        henry_dust: Animation::new(vec![100]).unwrap(),
        fireking: checked_group(6),
        fireball: checked_group(2),
        enemies: vec![
            EnemyType::new(
                checked_clips(&[("idle", 100), ("walk", 100), ("attack", 100)]),
                MovementType::FollowPath,
                AttackType::Shoot(1),
                0,
                5_000,
            )
            .unwrap(),
        ],
    }
}

#[test]
fn clip_is_well_formed_when_its_total_is_the_sum_of_its_frames() {
    assert!(Animation::new(vec![1, 2, 3]).unwrap().check());
    assert!(!Animation { frames: vec![1, 2, 3], total_length: 5 }.check());
    assert!(!Animation { frames: vec![1, 2, 3], total_length: 7 }.check());
    assert!(!Animation { frames: vec![], total_length: 0 }.check());
    assert!(!Animation { frames: vec![0], total_length: 0 }.check());
    assert!(!Animation { frames: vec![u32::MAX, 1], total_length: 0 }.check());
    assert!(Animation { frames: vec![u32::MAX], total_length: u32::MAX }.check());
}

#[test]
fn group_is_well_formed_when_every_clip_is_and_has_a_name() {
    assert!(checked_group(3).check());
    assert!(checked_group(0).check());
    let mut nameless = checked_group(3);
    nameless.tag_names.pop();
    assert!(!nameless.check());
    let mut broken = checked_group(3);
    broken.animations[1].total_length = 99;
    assert!(!broken.check());
}

#[test]
fn level_is_well_formed_when_its_cells_fill_its_grid() {
    assert!(checked_level().check());
    let mut short = checked_level();
    short.data.pop();
    assert!(!short.check());
    let mut flat = checked_level();
    flat.width = 0;
    flat.data.clear();
    assert!(!flat.check());
    let mut huge = checked_level();
    huge.width = usize::MAX;
    huge.height = 2;
    assert!(!huge.check());
    let mut empty = checked_level();
    empty.height = 0;
    empty.data.clear();
    assert!(empty.check());
}

#[test]
fn enemy_kind_is_well_formed_when_its_clips_are_looked_up_right() {
    let kind = |attack: AttackType| {
        EnemyType::new(checked_clips(&[("idle", 100), ("walk", 100), ("attack", 100)]), MovementType::Still, attack, 0, 0).unwrap()
    };
    assert!(kind(AttackType::Shoot(1)).check());
    assert!(kind(AttackType::Melee).check());
    let mut wrong = kind(AttackType::Shoot(1));
    wrong.attack_clip = Some(1);
    assert!(!wrong.check());
    let mut forgotten = kind(AttackType::Melee);
    forgotten.attack_clip = None;
    assert!(!forgotten.check());
    let mut made_up = kind(AttackType::Melee);
    made_up.spawning_clip = Some(0);
    assert!(!made_up.check());
    let mut unarmed = kind(AttackType::Melee);
    unarmed.animation = checked_clips(&[("idle", 100), ("walk", 100)]);
    unarmed.attack_clip = None;
    assert!(unarmed.check());
    unarmed.attack_type = AttackType::ShootAfter(2);
    assert!(!unarmed.check());
}

#[test]
fn assets_are_well_formed_when_all_their_parts_are() {
    assert!(checked_assets().check());
    let mut few = checked_assets();
    few.torso = checked_group(2);
    assert!(!few.check());
    let mut few = checked_assets();
    few.fireking = checked_group(5);
    assert!(!few.check());
    let mut broken = checked_assets();
    broken.blood.total_length = 0;
    assert!(!broken.check());
    let mut broken = checked_assets();
    broken.levels[0].data.pop();
    assert!(!broken.check());
    let mut broken = checked_assets();
    broken.enemies[0].attack_clip = None;
    assert!(!broken.check());
}

#[test]
fn game_is_well_formed_when_it_goes_with_its_assets() {
    let assets = checked_assets();
    let mut game = Game::new(&assets, 0).unwrap();
    assert!(game.check(&assets));
    game.level_index = 1;
    assert!(!game.check(&assets));
    game.level_index = 0;
    // a patrol without a path does not fit
    let data = LevelEnemyData { pos: Vec2 { x: 0, y: 0 }, ty: 0, attack_delay: 0, path_index: None };
    game.enemies.push(Enemy::new(data, &assets.enemies[0], 0));
    assert!(!game.check(&assets));
    game.enemies[0].ty = 1;
    assert!(!game.check(&assets));
    game.enemies.clear();
    // a boss needs his arena
    game.boss = Some(new_boss(0, Vec2 { x: 0, y: 0 }));
    assert!(!game.check(&assets));
    let mut broken = checked_assets();
    broken.die.total_length = 0;
    game.boss = None;
    assert!(!game.check(&broken));
    assert!(game.check(&assets));
}

#[test]
fn switches_are_set_by_their_names() {
    let words = |words: &[&str]| -> Vec<String> { words.iter().map(|w| w.to_string()).collect() };
    assert_eq!(DebugFlags::from_args(&words(&[])), DebugFlags::default());
    let flags = DebugFlags::from_args(&words(&["game", "boss", "fps", "centre"]));
    assert!(flags.boss && flags.fps && flags.centres);
    assert!(!flags.paths && !flags.horses && !flags.special && !flags.bloom && !flags.uncapped && !flags.unscaled);
    assert_eq!(flags.names(), vec!["boss", "centres", "fps"]);
    assert!(DebugFlags::from_args(&words(&["center"])).centres);
    assert!(!DebugFlags::from_args(&words(&["centres"])).centres);
    assert!(!DebugFlags::from_args(&words(&["Boss", "bos", "bosss", " boss"])).boss);
    let all = DebugFlags::from_args(&words(&[
        "unscaled", "fps", "uncapped", "bloom", "special", "horses", "center", "boss", "paths",
    ]));
    assert_eq!(
        all.names(),
        vec!["paths", "boss", "centres", "horses", "special", "bloom", "uncapped", "fps", "unscaled"]
    );
    assert!(DebugFlags::default().names().is_empty());
    assert!(contains_word(&words(&["a", "b"]), "b"));
    assert!(!contains_word(&words(&["a", "b"]), "c"));
    assert!(!contains_word(&words(&["ab"]), "a"));
}

#[test]
fn first_gamepad_that_asks_for_an_axis_gives_it() {
    let at = |x: i32, y: i32| Vec2 { x, y };
    let still = Pad { stick: at(0, 0), left: false, right: false, up: false, down: false };
    let no_keys = Keys { a: false, d: false, w: false, s: false };
    assert_eq!(get_input_axis(&vec![], &no_keys), at(0, 0));
    assert_eq!(get_input_axis(&vec![still, still], &no_keys), at(0, 0));
    // the keyboard speaks where no gamepad does
    assert_eq!(get_input_axis(&vec![still], &Keys { a: true, ..no_keys }), at(-1000, 0));
    assert_eq!(get_input_axis(&vec![], &Keys { d: true, w: true, ..no_keys }), at(1000, -1000));
    assert_eq!(get_input_axis(&vec![], &Keys { a: true, d: true, s: true, w: false }), at(0, 1000));
    // a stick off centre wins over the buttons of its own gamepad and over later gamepads
    let pushed = Pad { stick: at(-300, 40), left: true, ..still };
    let other = Pad { stick: at(1000, 0), ..still };
    assert_eq!(get_input_axis(&vec![still, pushed, other], &Keys { d: true, ..no_keys }), at(-300, 40));
    assert_eq!(get_input_axis(&vec![Pad { stick: at(0, -1), ..still }], &no_keys), at(0, -1));
    // direction buttons: left and down count up, right and up count down
    assert_eq!(get_input_axis(&vec![Pad { left: true, ..still }, other], &no_keys), at(1000, 0));
    assert_eq!(get_input_axis(&vec![Pad { right: true, up: true, ..still }], &no_keys), at(-1000, -1000));
    assert_eq!(get_input_axis(&vec![Pad { down: true, ..still }], &no_keys), at(0, 1000));
    // buttons that cancel out still speak for the gamepad
    assert_eq!(get_input_axis(&vec![Pad { left: true, right: true, ..still }, other], &Keys { a: true, ..no_keys }), at(0, 0));
}
