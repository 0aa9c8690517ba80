use cowboy_tower::assets::{Animation, AnimationsGroup, Assets, Level};
use cowboy_tower::fixed::Vec2;
use cowboy_tower::player::{Input, Lasso, Player, SwingTurn};

const FRAME: u32 = 16_667;

fn swing_group(count: usize) -> AnimationsGroup {
    AnimationsGroup {
        animations: (0..count).map(|_| Animation::new(vec![100]).unwrap()).collect(),
        tag_names: (0..count).map(|i| format!("clip{}", i)).collect(),
    }
}

fn swing_assets() -> Assets {
    Assets {
        torso: swing_group(3),
        legs: swing_group(2),
        levels: Vec::new(),
        projectiles: Animation::new(vec![100]).unwrap(),
        blood: Animation::new(vec![100]).unwrap(),
        die: Animation::new(vec![100]).unwrap(),
        pole: Animation::new(vec![100]).unwrap(),
        henry: swing_group(4),
        henry_dust: Animation::new(vec![100]).unwrap(),
        fireking: swing_group(6),
        fireball: swing_group(2),
        enemies: Vec::new(),
    }
}

fn open_air() -> Level {
    Level {
        width: 60,
        height: 60,
        data: vec![[0, 0, 0, 0]; 3600],
        min_x: 0,
        min_y: 0,
        enemies: Vec::new(),
        horses: Vec::new(),
        markers: Vec::new(),
        lasso_targets: Vec::new(),
        enemy_paths: Vec::new(),
        player_spawn: Vec2 { x: 0, y: 0 },
        boss: None,
        world_index: 0,
        roof_height: 0,
        wall_climb_tiles: vec![512, 513],
    }
}

/// The point of the swing circle that a turn asks for.
fn arc_of(turn: SwingTurn) -> Vec2 {
    let angle = (turn.arm.y as f64).atan2(turn.arm.x as f64) + turn.angle as f64 / 1e6;
    Vec2 {
        x: (turn.radius as f64 * angle.cos()).round() as i32,
        y: (turn.radius as f64 * angle.sin()).round() as i32,
    }
}

fn hanging(hook: Vec2, degrees: f64, speed: Option<i32>) -> Player {
    let angle = degrees.to_radians();
    let pos = Vec2 {
        x: hook.x + (32_000.0 * angle.cos()).round() as i32,
        y: hook.y + (32_000.0 * angle.sin()).round() as i32,
    };
    let mut player = Player::new(pos);
    player.active_lasso = Some(Lasso { time: 0, hook, speed, length: 32_000, in_swing: true, start: pos, by_jump: false });
    player
}

fn held() -> Input {
    Input {
        axis: Vec2 { x: 0, y: 0 },
        jump_pressed: false,
        jump_down: false,
        shoot_pressed: false,
        lasso_pressed: false,
        lasso_down: true,
        arc: Vec2 { x: 0, y: 0 },
    }
}

#[test]
fn swing_turn_asks_for_the_angle_travelled() {
    let assets = swing_assets();
    let hook = Vec2 { x: 240_000, y: 160_000 };
    // hanging straight right of the hook, moving at 64 px/s along the circle
    let player = hanging(hook, 0.0, Some(64_000));
    let turn = player.swing_turn(FRAME, &assets).unwrap();
    assert_eq!(turn.arm, Vec2 { x: 32_000, y: 0 });
    assert_eq!(turn.radius, 32_000);
    // drag first takes 15 % of a sixtieth off the speed: 64 000 - 160
    // then the angle is speed times time over radius: 63 840 * 16 667 / 32 000
    assert_eq!(turn.angle, 33_250);
    // no lasso, no turn
    assert_eq!(Player::new(hook).swing_turn(FRAME, &assets), None);
}

#[test]
fn swing_speed_begins_as_the_reversed_horizontal_speed() {
    let assets = swing_assets();
    let level = open_air();
    let hook = Vec2 { x: 240_000, y: 160_000 };
    let mut player = hanging(hook, 90.0, None);
    player.velocity = Vec2 { x: -100_000, y: 0 };
    let turn = player.swing_turn(FRAME, &assets).unwrap();
    let mut projectiles = Vec::new();
    let input = Input { arc: arc_of(turn), ..held() };
    player.update(FRAME, &input, &level, &assets, &mut projectiles);
    // 100 000 less the drag; at the lowest point gravity adds nothing
    assert_eq!(player.active_lasso.unwrap().speed, Some(99_750));
    // a positive speed turns toward greater angles: from the lowest point to the left
    assert!(player.velocity.x < 0);
    // more than gravity gains in a second is not taken over
    let mut fast = hanging(hook, 90.0, None);
    fast.velocity = Vec2 { x: 2_000_000, y: 0 };
    let turn = fast.swing_turn(FRAME, &assets).unwrap();
    fast.update(FRAME, &Input { arc: arc_of(turn), ..held() }, &level, &assets, &mut projectiles);
    assert_eq!(fast.active_lasso.unwrap().speed, Some(-735_000 + 1_837));
}

#[test]
fn gravity_drives_the_swing_toward_the_lowest_point_from_either_side() {
    let assets = swing_assets();
    let level = open_air();
    let hook = Vec2 { x: 240_000, y: 160_000 };
    let mut projectiles = Vec::new();
    // on the right half, level with the hook: the whole of gravity, 735 px/s^2 for a sixtieth
    let mut right = hanging(hook, 0.0, Some(0));
    let turn = right.swing_turn(FRAME, &assets).unwrap();
    right.update(FRAME, &Input { arc: arc_of(turn), ..held() }, &level, &assets, &mut projectiles);
    assert_eq!(right.active_lasso.unwrap().speed, Some(12_250));
    let mut left = hanging(hook, 180.0, Some(0));
    let turn = left.swing_turn(FRAME, &assets).unwrap();
    left.update(FRAME, &Input { arc: arc_of(turn), ..held() }, &level, &assets, &mut projectiles);
    assert_eq!(left.active_lasso.unwrap().speed, Some(-12_250));
    let mut low = hanging(hook, 90.0, Some(0));
    let turn = low.swing_turn(FRAME, &assets).unwrap();
    low.update(FRAME, &Input { arc: arc_of(turn), ..held() }, &level, &assets, &mut projectiles);
    assert_eq!(low.active_lasso.unwrap().speed, Some(0));
}

#[test]
fn swing_released_off_the_vertical_turns_round_within_a_period() {
    let assets = swing_assets();
    let level = open_air();
    let hook = Vec2 { x: 240_000, y: 160_000 };
    for degrees in [10.0, 45.0, 80.0, 100.0, 135.0, 170.0] {
        let mut player = hanging(hook, degrees, Some(0));
        let mut projectiles = Vec::new();
        let mut signs = Vec::new();
        // near the lowest point gravity pulls weakly and a swing takes its time:
        // ten seconds are enough from any of these angles
        for _ in 0..600 {
            let turn = player.swing_turn(FRAME, &assets).unwrap();
            let input = Input { arc: arc_of(turn), ..held() };
            player.update(FRAME, &input, &level, &assets, &mut projectiles);
            let speed = player.active_lasso.unwrap().speed.unwrap();
            if speed != 0 && signs.last() != Some(&speed.signum()) {
                signs.push(speed.signum());
            }
            // the player stays on the circle
            let d = player.pos.distance(hook) as i64;
            assert!((d - 32_000).abs() < 500, "radius {}", d);
        }
        // released on the right the swing first turns toward greater angles, on the left toward smaller
        assert_eq!(signs[0], if degrees < 90.0 { 1 } else { -1 });
        assert!(signs.len() >= 2, "from {} degrees: {:?}", degrees, signs);
    }
}

#[test]
fn swing_that_came_over_loses_a_pull_each_frame_and_turns_round() {
    let assets = swing_assets();
    let level = open_air();
    let hook = Vec2 { x: 240_000, y: 160_000 };
    // on the left half, level with the hook and on the way up: gravity takes 12.25 px/s off each frame
    let mut left = hanging(hook, 180.0, Some(30_000));
    let mut projectiles = Vec::new();
    let mut speeds = vec![30_000];
    for _ in 0..3 {
        let turn = left.swing_turn(FRAME, &assets).unwrap();
        left.update(FRAME, &Input { arc: arc_of(turn), ..held() }, &level, &assets, &mut projectiles);
        assert!(left.pos.x < hook.x && left.pos.y <= hook.y);
        speeds.push(left.active_lasso.unwrap().speed.unwrap());
    }
    // drag takes 75 of 30 000 in the first frame, then the pull comes off
    assert_eq!(speeds[1], 30_000 - 75 - 12_250);
    assert!(speeds[2] <= speeds[1] - 12_250);
    assert!(speeds[2] > 0);
    assert!(speeds[3] < 0);
    // and on the right half the other way round
    let mut right = hanging(hook, 0.0, Some(-30_000));
    let mut speeds = vec![-30_000];
    for _ in 0..3 {
        let turn = right.swing_turn(FRAME, &assets).unwrap();
        right.update(FRAME, &Input { arc: arc_of(turn), ..held() }, &level, &assets, &mut projectiles);
        assert!(right.pos.x > hook.x && right.pos.y <= hook.y);
        speeds.push(right.active_lasso.unwrap().speed.unwrap());
    }
    assert_eq!(speeds[1], -30_000 + 75 + 12_250);
    assert!(speeds[2] >= speeds[1] + 12_250);
    assert!(speeds[2] < 0);
    assert!(speeds[3] > 0);
}

#[test]
fn slowed_swing_stops() {
    let assets = swing_assets();
    // a wall right of the swing circle's lowest point
    let mut level = open_air();
    for y in 0..60 {
        level.data[y * 60 + 31] = [0, 5, 0, 0];
    }
    let hook = Vec2 { x: 240_000, y: 160_000 };
    let mut player = hanging(hook, 90.0, Some(-300_000));
    let mut projectiles = Vec::new();
    let mut stopped = false;
    for _ in 0..30 {
        let turn = player.swing_turn(FRAME, &assets).unwrap();
        player.update(FRAME, &Input { arc: arc_of(turn), ..held() }, &level, &assets, &mut projectiles);
        if player.velocity.x == 0 {
            assert_eq!(player.active_lasso.unwrap().speed, Some(0));
            stopped = true;
            break;
        }
    }
    assert!(stopped);
}
