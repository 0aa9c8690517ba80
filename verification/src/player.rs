//! The player: movement, jumping, lasso, riding, dying, and the camera target.

use vstd::prelude::*;
use crate::assets::{Assets, Level};
use crate::horses::Horse;
use crate::fixed::{
    Vec2, PIXEL, SECOND, TILE, advance, clamp_i32, dist_sq, lerp, sat_add, sat_sub, saturate,
    saturate_wide, spec_advance, spec_lerp, spec_millis, spec_speed_over, spec_tick, spec_toward,
    millis, speed_over, tick, toward, trunc_div,
};
use crate::player::physics::{ray_blocked, ray_steps, spec_step};
use crate::projectiles::{Projectile, PLAYER_SHOT, UNIT, spec_new};
use crate::utils::{GRAVITY, MAX_LASSO_DISTANCE, SCREEN_WIDTH};

pub mod physics;

pub use physics::{raycast, update_physicsbody};

verus! {

/// Top running speed.
pub const MOVE_SPEED: i32 = 101_000;

/// Rate, per second, at which the horizontal speed approaches its target.
pub const MOVE_ACCELERATION: i32 = 22;

/// Upward speed given by a jump.
pub const JUMP_FORCE: i32 = 160_000;

/// How far above the player the camera looks.
pub const CAMERA_LEAD: i32 = 22_000;

/// How far the camera may lag below its target while the player climbs.
pub const CAMERA_MAX_LAG: i32 = 28_000;

/// How far the camera may come to the side edges of a level, short of half a screen.
pub const CAMERA_SIDE_SLACK: i32 = 64_000;

/// Interactive tile that raises the camera for as long as nothing lowers it.
pub const CAMERA_RAISE_TILE: u16 = 896;

/// Interactive tile that puts the camera back.
pub const CAMERA_REST_TILE: u16 = 897;

/// How far a raised camera looks above where it would.
pub const CAMERA_SHIFT: i32 = 48_000;

/// Death animation shown when a death tile kills.
pub const DEATH_BY_TILE: usize = 1;

/// Where a shot leaves the player, relative to the player's position, when facing right.
pub const MUZZLE_RIGHT: i32 = 12_000;

/// Where a shot leaves the player when facing left.
pub const MUZZLE_LEFT: i32 = -4_000;

/// Number of the shooting clip among the torso's clips.
pub const TORSO_SHOOT: usize = 1;

/// Number of the lasso-throwing clip among the torso's clips.
pub const TORSO_THROW: usize = 2;

/// The largest radius a lasso swings at.
pub const MAX_SWING_RADIUS: i32 = 32_000;

/// How far outside the swing radius the swing already begins.
pub const SWING_SLACK: i32 = 2_000;

/// Share of the swing speed, in percent, that is left after a second of drag.
pub const SWING_DRAG: i32 = 85;

/// Speed at which the lasso pulls the player in.
pub const PULL_SPEED: i32 = 128_000;

/// Rate, per second, at which the pull takes over the player's velocity.
pub const PULL_RATE: i32 = 5;

/// How long after the throwing clip the lasso's timer keeps running, in milliseconds.
pub const THROW_TAIL: u32 = 100;

/// How long a player who reaches a climbable wall hangs still.
pub const WALL_HOLD_TIME: u64 = 150_000;

/// Downward speed of the glide along a climbable wall.
pub const WALL_SLIDE_SPEED: i32 = 16_000;

/// Sideways speed of a wall jump, away from the wall.
pub const WALL_JUMP_PUSH: i32 = 120_000;

/// Upward speed of a wall jump.
pub const WALL_JUMP_FORCE: i32 = 180_000;

/// How long after leaving a climbable wall a wall jump is still honoured.
pub const WALL_COYOTE_TIME: u64 = 100_000;

/// How long after a wall jump the player cannot steer.
pub const WALL_JUMP_LOCK_TIME: u64 = 200_000;

/// How close, on either axis, the player must be to a horse to mount it.
pub const HORSE_MOUNT_REACH: i32 = 16_000;

/// The vertical reach toward a horse that walks on the ceiling.
pub const HORSE_MOUNT_REACH_INVERTED: i32 = 32_000;

/// How close a horse must be for a jump to wait for it.
pub const HORSE_SIGHT: i32 = 48_000;

/// How long a jump waits for a horse to come into reach.
pub const HORSE_MOUNT_LEEWAY: u64 = 150_000;

/// How far from the horse's feet the rider sits.
pub const SADDLE_HEIGHT: i32 = 16_000;

/// What the player wants to do in a frame, whatever device said so.
#[derive(Clone, Copy, Debug, PartialEq, Eq)]
pub struct Input {
    /// Movement axis in thousandths: `x` is -1000 for left, 1000 for right.
    pub axis: Vec2,
    pub jump_pressed: bool,
    pub jump_down: bool,
    pub shoot_pressed: bool,
    pub lasso_pressed: bool,
    pub lasso_down: bool,
    /// While swinging: the point of the swing circle, relative to the hook,
    /// that `Player::swing_turn` asked for. Ignored otherwise.
    pub arc: Vec2,
}

/// How and since when the player is dead.
#[derive(Clone, Copy, Debug, PartialEq, Eq, Structural)]
pub struct Death {
    pub time: u64,
    /// Which death animation plays.
    pub animation: usize,
    /// Whether the body keeps falling while it plays.
    pub falls: bool,
}

/// A dialogue box on screen.
#[derive(Clone, Copy, Debug, PartialEq, Eq)]
pub struct Dialogue {
    pub text: &'static str,
    pub name: &'static str,
    pub portrait: usize,
    /// Set once the player has dismissed the box.
    pub closed: bool,
}

/// The black bars of a cinematic: since when they move, and whether they leave.
#[derive(Clone, Copy, Debug, PartialEq, Eq, Structural)]
pub struct CinematicBars {
    pub time: u64,
    pub leaving: bool,
}

/// A thrown lasso.
#[derive(Clone, Copy, Debug, PartialEq, Eq, Structural)]
pub struct Lasso {
    /// Time since the throw, while the throw animation plays; zero afterwards.
    pub time: u64,
    /// Where the lasso is hooked.
    pub hook: Vec2,
    /// Speed along the swing circle; unset until the swing begins.
    pub speed: Option<i32>,
    /// Swing radius.
    pub length: i32,
    pub in_swing: bool,
    /// The point the player is pulled in from.
    pub start: Vec2,
    /// Whether the jump button, rather than the lasso button, holds the lasso.
    pub by_jump: bool,
}

/// What there is to draw of the player: which clip of legs and torso, and
/// how far into each; or, for a dead player, which death and how far into it.
#[derive(Clone, Copy, Debug, PartialEq, Eq)]
pub struct Sprite {
    pub legs: (usize, u64),
    pub torso: (usize, u64),
    pub death: Option<(usize, u64)>,
    /// How much of the rope between player and hook is out, in millionths.
    pub rope: Option<u32>,
    pub flipped: bool,
}

/// How long before the end of the throwing clip the rope begins to fly.
pub const ROPE_EARLY_START: u64 = 100_000;

/// How long the rope takes to reach the hook.
pub const ROPE_EXTEND_TIME: u64 = 200_000;

/// What the caller has to work out for a swinging player: the point on the
/// circle of radius `radius` that lies `angle` millionths of a radian
/// further round than `arm` does, measured from the positive x axis toward
/// the positive y axis. The answer goes into `Input::arc`.
#[derive(Clone, Copy, Debug, PartialEq, Eq, Structural)]
pub struct SwingTurn {
    /// Where the player hangs, relative to the hook.
    pub arm: Vec2,
    pub radius: i32,
    pub angle: i64,
}

/// The player, with everything that lasts from one frame to the next.
#[derive(Clone, Copy, Debug, PartialEq, Eq)]
pub struct Player {
    pub pos: Vec2,
    pub camera_pos: Vec2,
    /// Lasting vertical shift of the camera target.
    pub camera_offset: i32,
    pub velocity: Vec2,
    pub on_ground: bool,
    pub facing_left: bool,
    pub moving: bool,
    pub time: u64,
    /// Time since the jump that the player is still in the air from.
    pub jump_time: Option<u64>,
    /// While on a climbable wall: for how long, and the wall's side.
    pub wall_climbing: Option<(u64, i8)>,
    /// Shortly after leaving a climbable wall: since when, and the wall's side.
    pub falling_off_wall: Option<(u64, i8)>,
    /// After a wall jump: for how long steering has been locked.
    pub wall_jump_lock: Option<u64>,
    pub active_lasso: Option<Lasso>,
    pub lasso_target: Option<Vec2>,
    /// The horse the player rides, by its place in the level's list.
    pub riding: Option<usize>,
    /// A jump pressed just before reaching a horse: since when.
    pub mount_wish: Option<u64>,
    pub death: Option<Death>,
    /// Zero unless the shooting animation plays; then the time since the shot.
    pub shooting: u64,
    pub active_dialogue: Option<Dialogue>,
    pub cinematic_bars: Option<CinematicBars>,
    pub in_boss_battle: bool,
    pub defeated_bosses: u8,
    pub time_since_last_boss_defeated: u64,
    pub has_restarted_level: bool,
}

/// The speed along the circle that a swing begins with: the player's
/// horizontal speed, reversed, and no faster than gravity gains in a second.
pub open spec fn swing_entry_speed(horizontal: i32) -> i32 {
    if -horizontal > GRAVITY {
        GRAVITY
    } else if -horizontal < -GRAVITY {
        (-GRAVITY) as i32
    } else {
        (-horizontal) as i32
    }
}

/// A swing speed after the drag of one time step.
pub open spec fn dragged(speed: i32, delta_time: u32) -> i32 {
    spec_lerp(speed, trunc_div(speed * SWING_DRAG, 100) as i32, delta_time as int)
}

/// What gravity adds to the swing speed in one time step, for a player who
/// hangs `drop` below the hook on a lasso of `length`: nothing at the lowest
/// point, most at the top.
pub open spec fn gravity_pull(length: i32, drop: i32, delta_time: u32) -> i32 {
    if length <= 0 {
        0
    } else {
        clamp_i32(trunc_div((length - drop) * delta_time * GRAVITY, length * SECOND)) as i32
    }
}

/// The swing speed one frame later, for a player who hangs at `arm` from
/// the hook of a lasso of `length`: drag slows it, then gravity pulls it
/// toward the lowest point of the circle, up on the right half and down on
/// the left.
pub open spec fn swung(speed: i32, length: i32, arm: Vec2, delta_time: u32) -> i32 {
    let pull = gravity_pull(length, arm.y, delta_time);
    clamp_i32(dragged(speed, delta_time) + if arm.x > 0 { pull as int } else { -pull }) as i32
}

/// The swing speed after the first `n` frames of a run. A frame is where
/// the player hangs from the hook in it, and how long it lasts.
pub open spec fn swung_through(speed: i32, length: i32, frames: Seq<(Vec2, u32)>, n: int) -> i32
    decreases n,
{
    if n <= 0 || n > frames.len() {
        speed
    } else {
        swung(swung_through(speed, length, frames, n - 1), length, frames[n - 1].0, frames[n - 1].1)
    }
}

/// The angle travelled at `speed` along a circle of radius `length` in one
/// time step, in millionths of a radian.
pub open spec fn swing_angle(speed: i32, length: i32, delta_time: u32) -> int {
    if length <= 0 {
        0
    } else {
        trunc_div(speed * delta_time, length as int)
    }
}

fn drag(speed: i32, delta_time: u32) -> (r: i32)
    ensures
        r == dragged(speed, delta_time),
{
    let slower: i64 = speed as i64 * SWING_DRAG as i64 / 100;
    lerp(speed, slower as i32, delta_time as i64)
}

fn pull_of_gravity(length: i32, drop: i32, delta_time: u32) -> (r: i32)
    ensures
        r == gravity_pull(length, drop, delta_time),
{
    if length <= 0 {
        return 0;
    }
    let lever: i128 = length as i128 - drop as i128;
    assert(0 <= delta_time * GRAVITY <= 0x10_0000_0000_0000) by (nonlinear_arith)
        requires
            0 <= delta_time <= 0xFFFF_FFFF,
            GRAVITY == 735_000,
    ;
    let span: i128 = delta_time as i128 * GRAVITY as i128;
    assert(-0x1_0000_0000 * 0x10_0000_0000_0000 <= lever * span <= 0x1_0000_0000 * 0x10_0000_0000_0000)
        by (nonlinear_arith)
        requires
            -0x1_0000_0000 <= lever <= 0x1_0000_0000,
            0 <= span <= 0x10_0000_0000_0000,
    ;
    assert(lever * span == (length - drop) * delta_time * GRAVITY) by (nonlinear_arith)
        requires
            lever == length - drop,
            span == delta_time * GRAVITY,
    ;
    saturate_wide(lever * span / (length as i128 * 1_000_000))
}

fn angle_of_swing(speed: i32, length: i32, delta_time: u32) -> (r: i64)
    ensures
        r == swing_angle(speed, length, delta_time),
{
    if length <= 0 {
        return 0;
    }
    crate::fixed::speed_times(speed, delta_time) / (length as i64)
}

/// The lasting shift of the camera for a player in a cell whose
/// interactive layer holds `marker`: a raising tile sets it, a resting tile
/// clears it, and any other cell leaves it as it is.
pub open spec fn camera_shift(marker: u16, current: i32) -> i32 {
    if marker == CAMERA_RAISE_TILE + 1 {
        (-CAMERA_SHIFT) as i32
    } else if marker == CAMERA_REST_TILE + 1 {
        0
    } else {
        current
    }
}

/// The camera's horizontal target: the player, kept half a screen (less a
/// slack) inside the level's sides. In a level too narrow for that the left
/// bound wins.
pub open spec fn camera_x(player_x: i32, left: i32, right: i32) -> i32 {
    let lo = clamp_i32(left + SCREEN_WIDTH / 2 - CAMERA_SIDE_SLACK);
    let hi = clamp_i32(right - SCREEN_WIDTH / 2 + CAMERA_SIDE_SLACK);
    if player_x < lo || hi < lo {
        lo as i32
    } else if player_x > hi {
        hi as i32
    } else {
        player_x
    }
}

/// The camera's height after a frame: it drops at once to a target below it,
/// and trails a target above it by at most `CAMERA_MAX_LAG`.
pub open spec fn camera_y(current: i32, player_y: i32, offset: i32) -> i32 {
    let target = clamp_i32(clamp_i32(player_y - CAMERA_LEAD) + offset);
    if current < target {
        target as i32
    } else if current - target > CAMERA_MAX_LAG {
        clamp_i32(target + CAMERA_MAX_LAG) as i32
    } else {
        current
    }
}

impl Player {
    /// A player freshly placed at `pos`: standing still, facing right, the camera 100 pixels above.
    pub open spec fn spec_new(pos: Vec2) -> Player {
        Player {
            pos,
            camera_pos: Vec2 { x: pos.x, y: clamp_i32(pos.y - 100 * PIXEL) as i32 },
            camera_offset: 0,
            velocity: Vec2 { x: 0, y: 0 },
            on_ground: false,
            facing_left: false,
            moving: false,
            time: 0,
            jump_time: None,
            wall_climbing: None,
            falling_off_wall: None,
            wall_jump_lock: None,
            active_lasso: None,
            lasso_target: None,
            riding: None,
            mount_wish: None,
            death: None,
            shooting: 0,
            active_dialogue: None,
            cinematic_bars: None,
            in_boss_battle: false,
            defeated_bosses: 0,
            time_since_last_boss_defeated: 0,
            has_restarted_level: false,
        }
    }

    /// A player freshly placed at `pos`.
    pub fn new(pos: Vec2) -> (r: Player)
        ensures
            r == Self::spec_new(pos),
    {
        Player {
            pos,
            camera_pos: Vec2 { x: pos.x, y: sat_sub(pos.y, 100 * PIXEL) },
            camera_offset: 0,
            velocity: Vec2 { x: 0, y: 0 },
            on_ground: false,
            facing_left: false,
            moving: false,
            time: 0,
            jump_time: None,
            wall_climbing: None,
            falling_off_wall: None,
            wall_jump_lock: None,
            active_lasso: None,
            lasso_target: None,
            riding: None,
            mount_wish: None,
            death: None,
            shooting: 0,
            active_dialogue: None,
            cinematic_bars: None,
            in_boss_battle: false,
            defeated_bosses: 0,
            time_since_last_boss_defeated: 0,
            has_restarted_level: false,
        }
    }

    /// Opens a dialogue box.
    pub fn show_dialogue(&mut self, text: &'static str, name: &'static str, portrait: usize)
        ensures
            *final(self) == (Player {
                active_dialogue: Some(Dialogue { text, name, portrait, closed: false }),
                ..*old(self)
            }),
    {
        self.active_dialogue = Some(Dialogue { text, name, portrait, closed: false });
    }

    /// Marks the open dialogue box, if any, as dismissed.
    pub fn close_dialogue(&mut self)
        ensures
            *final(self) == (Player {
                active_dialogue: match old(self).active_dialogue {
                    Some(dialogue) => Some(Dialogue { closed: true, ..dialogue }),
                    None => None,
                },
                ..*old(self)
            }),
    {
        match self.active_dialogue {
            Some(dialogue) => {
                self.active_dialogue = Some(Dialogue { closed: true, ..dialogue });
            },
            None => {},
        }
    }

    /// Starts sliding the cinematic bars in.
    pub fn show_cinematic_bars(&mut self)
        ensures
            *final(self) == (Player {
                cinematic_bars: Some(CinematicBars { time: 0, leaving: false }),
                ..*old(self)
            }),
    {
        self.cinematic_bars = Some(CinematicBars { time: 0, leaving: false });
    }

    /// Starts sliding the cinematic bars out, if they are there.
    pub fn hide_cinematic_bars(&mut self)
        ensures
            *final(self) == (Player {
                cinematic_bars: if old(self).cinematic_bars.is_some() {
                    Some(CinematicBars { time: 0, leaving: true })
                } else {
                    None
                },
                ..*old(self)
            }),
    {
        if self.cinematic_bars.is_some() {
            self.cinematic_bars = Some(CinematicBars { time: 0, leaving: true });
        }
    }

    /// Kills the player, unless already dead: the first cause of death stands.
    pub fn kill(&mut self, animation: usize, falls: bool)
        ensures
            *final(self) == old(self).spec_kill(animation, falls),
    {
        if self.death.is_none() {
            self.death = Some(Death { time: 0, animation, falls });
        }
    }

    /// The player after being killed: dead of this cause, unless dead already.
    pub open spec fn spec_kill(&self, animation: usize, falls: bool) -> Player {
        if self.death.is_none() {
            Player { death: Some(Death { time: 0, animation, falls }), ..*self }
        } else {
            *self
        }
    }

    /// Moves the camera target after the player has moved.
    pub fn update_camera(&mut self, world: &Level)
        ensures
            *final(self) == (Player { camera_pos: old(self).spec_camera(world), ..*old(self) }),
    {
        let lo: i32 = sat_sub(sat_add(world.min_pos().x, SCREEN_WIDTH / 2), CAMERA_SIDE_SLACK);
        let hi: i32 = sat_add(sat_sub(world.right_edge(), SCREEN_WIDTH / 2), CAMERA_SIDE_SLACK);
        let x: i32 = if self.pos.x < lo || hi < lo {
            lo
        } else if self.pos.x > hi {
            hi
        } else {
            self.pos.x
        };
        let target: i32 = sat_add(sat_sub(self.pos.y, CAMERA_LEAD), self.camera_offset);
        let y: i32 = if self.camera_pos.y < target {
            target
        } else if self.camera_pos.y as i64 - target as i64 > CAMERA_MAX_LAG as i64 {
            sat_add(target, CAMERA_MAX_LAG)
        } else {
            self.camera_pos.y
        };
        self.camera_pos = Vec2 { x, y };
    }

    /// Where a shot fired now starts, and which way it flies.
    pub open spec fn spec_shot(&self) -> Projectile {
        spec_new(
            PLAYER_SHOT,
            Vec2 {
                x: clamp_i32(self.pos.x + if self.facing_left { MUZZLE_LEFT } else { MUZZLE_RIGHT }) as i32,
                y: self.pos.y,
            },
            Vec2 { x: if self.facing_left { (-UNIT) as i32 } else { UNIT }, y: 0 },
        )
    }

    /// Whether a shot is fired this frame: the button was pressed, no shot
    /// is under way, and no lasso is being thrown.
    pub open spec fn spec_fires(&self, input: Input) -> bool {
        &&& self.shooting == 0
        &&& input.shoot_pressed
        &&& match self.active_lasso {
            Some(lasso) => lasso.time == 0,
            None => true,
        }
    }

    /// The shooting timer after this frame: it runs from the shot to the end
    /// of the shooting clip and is zero otherwise.
    pub open spec fn spec_shooting(&self, delta_time: u32, input: Input, assets: &Assets) -> u64 {
        if self.shooting > 0 || self.spec_fires(input) {
            let t = spec_tick(self.shooting, delta_time);
            if spec_millis(t) >= assets.torso.animations@[TORSO_SHOOT as int].total_length {
                0
            } else {
                t
            }
        } else {
            0
        }
    }

    /// Handles the shoot button and the shooting timer.
    fn shoot(&mut self, delta_time: u32, input: &Input, assets: &Assets, projectiles: &mut Vec<Projectile>)
        requires
            assets.wf(),
        ensures
            *final(self) == (Player { shooting: old(self).spec_shooting(delta_time, *input, assets), ..*old(self) }),
            final(projectiles)@ == if old(self).spec_fires(*input) {
                old(projectiles)@.push(old(self).spec_shot())
            } else {
                old(projectiles)@
            },
    {
        let lasso_idle: bool = match self.active_lasso {
            Some(lasso) => lasso.time == 0,
            None => true,
        };
        let fires: bool = self.shooting == 0 && input.shoot_pressed && lasso_idle;
        if fires {
            projectiles.push(
                Projectile::new(
                    PLAYER_SHOT,
                    Vec2 { x: sat_add(self.pos.x, if self.facing_left { MUZZLE_LEFT } else { MUZZLE_RIGHT }), y: self.pos.y },
                    Vec2 { x: if self.facing_left { -UNIT } else { UNIT }, y: 0 },
                ),
            );
        }
        if self.shooting > 0 || fires {
            let t: u64 = tick(self.shooting, delta_time);
            self.shooting = if millis(t) >= assets.torso.animations[TORSO_SHOOT].total_length { 0 } else { t };
        } else {
            self.shooting = 0;
        }
    }

    /// Whether a lasso can be thrown at `target`: it lies in reach, ahead of
    /// the player, with nothing solid in between.
    pub open spec fn spec_can_reach(&self, world: &Level, target: Vec2) -> bool {
        &&& dist_sq(target, self.pos) <= MAX_LASSO_DISTANCE * MAX_LASSO_DISTANCE
        &&& if self.facing_left { target.x < self.pos.x } else { target.x > self.pos.x }
        &&& forall|k: int| 1 <= k <= ray_steps(self.pos, target) ==> !ray_blocked(world, self.pos, target, k)
    }

    /// Among the first `n` lasso targets of the level, the place in the list
    /// of the nearest one in reach; of two equally near the earlier.
    pub open spec fn spec_best_target(&self, world: &Level, n: int) -> Option<int>
        decreases n,
    {
        if n <= 0 || n > world.lasso_targets@.len() {
            None
        } else {
            let before = self.spec_best_target(world, n - 1);
            let candidate = world.lasso_targets@[n - 1];
            if self.spec_can_reach(world, candidate) && (before.is_none() || dist_sq(candidate, self.pos) < dist_sq(
                world.lasso_targets@[before.unwrap()],
                self.pos,
            )) {
                Some(n - 1)
            } else {
                before
            }
        }
    }

    /// The lasso target the player could throw at now.
    pub open spec fn spec_lasso_target(&self, world: &Level) -> Option<Vec2> {
        match self.spec_best_target(world, world.lasso_targets@.len() as int) {
            Some(i) => Some(world.lasso_targets@[i]),
            None => None,
        }
    }

    /// Finds the nearest lasso target in reach.
    pub fn find_lasso_target(&self, world: &Level) -> (r: Option<Vec2>)
        requires
            world.wf(),
        ensures
            r == self.spec_lasso_target(world),
    {
        let mut best: Option<usize> = None;
        let mut i: usize = 0;
        while i < world.lasso_targets.len()
            invariant
                world.wf(),
                0 <= i <= world.lasso_targets@.len(),
                match best {
                    Some(b) => b < i && self.spec_best_target(world, i as int) == Some(b as int),
                    None => self.spec_best_target(world, i as int).is_none(),
                },
            decreases world.lasso_targets@.len() - i,
        {
            let candidate: Vec2 = world.lasso_targets[i];
            let ahead: bool = if self.facing_left { candidate.x < self.pos.x } else { candidate.x > self.pos.x };
            if candidate.within(self.pos, MAX_LASSO_DISTANCE) && ahead && raycast(self.pos, candidate, world).is_none() {
                let nearer: bool = match best {
                    Some(b) => candidate.distance_squared(self.pos) < world.lasso_targets[b].distance_squared(self.pos),
                    None => true,
                };
                if nearer {
                    best = Some(i);
                }
            }
            i = i + 1;
        }
        match best {
            Some(b) => Some(world.lasso_targets[b]),
            None => None,
        }
    }

    /// The lasso at the start of a frame: its length capped, its throw timer
    /// advanced, and the swing begun if the player has come within reach of
    /// the swing circle.
    pub open spec fn spec_lasso_ready(&self, lasso: Lasso, delta_time: u32, assets: &Assets) -> Lasso {
        let length = if lasso.length > MAX_SWING_RADIUS { MAX_SWING_RADIUS } else { lasso.length };
        let t = spec_tick(lasso.time, delta_time);
        let enters = !lasso.in_swing && length + SWING_SLACK >= 0 && dist_sq(self.pos, lasso.hook) <= (length
            + SWING_SLACK) * (length + SWING_SLACK);
        Lasso {
            length,
            time: if lasso.time == 0 || spec_millis(t) > assets.torso.animations@[TORSO_THROW as int].total_length
                + THROW_TAIL {
                0
            } else {
                t
            },
            in_swing: lasso.in_swing || enters,
            speed: if enters { None } else { lasso.speed },
            ..lasso
        }
    }

    fn lasso_ready(&self, lasso: Lasso, delta_time: u32, assets: &Assets) -> (r: Lasso)
        requires
            assets.wf(),
        ensures
            r == self.spec_lasso_ready(lasso, delta_time, assets),
    {
        let length: i32 = if lasso.length > MAX_SWING_RADIUS { MAX_SWING_RADIUS } else { lasso.length };
        let t: u64 = tick(lasso.time, delta_time);
        let throw_length: u64 = assets.torso.animations[TORSO_THROW].total_length as u64 + THROW_TAIL as u64;
        let reach: i64 = length as i64 + SWING_SLACK as i64;
        let enters: bool = !lasso.in_swing && reach >= 0 && self.pos.within(lasso.hook, reach as u32);
        Lasso {
            length,
            time: if lasso.time == 0 || millis(t) as u64 > throw_length { 0 } else { t },
            in_swing: lasso.in_swing || enters,
            speed: if enters { None } else { lasso.speed },
            ..lasso
        }
    }

    /// The speed at which a swinging player moves along the circle this frame.
    pub open spec fn spec_swing_speed(&self, lasso: Lasso, delta_time: u32) -> i32 {
        dragged(
            match lasso.speed {
                Some(speed) => speed,
                None => swing_entry_speed(self.velocity.x),
            },
            delta_time,
        )
    }

    fn swing_speed(&self, lasso: Lasso, delta_time: u32) -> (r: i32)
        ensures
            r == self.spec_swing_speed(lasso, delta_time),
    {
        let speed: i32 = match lasso.speed {
            Some(speed) => speed,
            None => {
                let reversed: i64 = -(self.velocity.x as i64);
                if reversed > GRAVITY as i64 {
                    GRAVITY
                } else if reversed < -(GRAVITY as i64) {
                    -GRAVITY
                } else {
                    reversed as i32
                }
            },
        };
        drag(speed, delta_time)
    }

    /// What the caller must work out before `update`, if the player swings
    /// on a lasso this frame.
    pub open spec fn spec_swing_turn(&self, delta_time: u32, assets: &Assets) -> Option<SwingTurn> {
        if self.death.is_some() || self.riding.is_some() {
            None
        } else {
            match self.active_lasso {
                Some(lasso) => {
                    let ready = self.spec_lasso_ready(lasso, delta_time, assets);
                    if ready.in_swing {
                        Some(
                            SwingTurn {
                                arm: self.pos.spec_minus(ready.hook),
                                radius: ready.length,
                                angle: swing_angle(self.spec_swing_speed(ready, delta_time), ready.length, delta_time) as i64,
                            },
                        )
                    } else {
                        None
                    }
                },
                None => None,
            }
        }
    }

    /// Tells whether the player swings this frame, and if so which point of
    /// the swing circle `update` needs in `Input::arc`.
    pub fn swing_turn(&self, delta_time: u32, assets: &Assets) -> (r: Option<SwingTurn>)
        requires
            assets.wf(),
        ensures
            r == self.spec_swing_turn(delta_time, assets),
    {
        if self.death.is_some() || self.riding.is_some() {
            return None;
        }
        match self.active_lasso {
            Some(lasso) => {
                let ready: Lasso = self.lasso_ready(lasso, delta_time, assets);
                if ready.in_swing {
                    Some(
                        SwingTurn {
                            arm: self.pos.minus(ready.hook),
                            radius: ready.length,
                            angle: angle_of_swing(self.swing_speed(ready, delta_time), ready.length, delta_time),
                        },
                    )
                } else {
                    None
                }
            },
            None => None,
        }
    }

    /// Velocity and lasso of a player who swings: the velocity that carries
    /// the player to `arc` within the frame, and the swing speed with gravity
    /// added, toward the lowest point of the circle.
    pub open spec fn spec_swing(&self, ready: Lasso, delta_time: u32, arc: Vec2) -> (Vec2, Lasso) {
        let arm = self.pos.spec_minus(ready.hook);
        (
            Vec2 {
                x: spec_speed_over(arc.x - arm.x, delta_time),
                y: spec_speed_over(arc.y - arm.y, delta_time),
            },
            Lasso {
                speed: Some(
                    swung(
                        match ready.speed {
                            Some(speed) => speed,
                            None => swing_entry_speed(self.velocity.x),
                        },
                        ready.length,
                        arm,
                        delta_time,
                    ),
                ),
                ..ready
            },
        )
    }

    fn swing(&self, ready: Lasso, delta_time: u32, arc: Vec2) -> (r: (Vec2, Lasso))
        ensures
            r == self.spec_swing(ready, delta_time, arc),
    {
        let arm: Vec2 = self.pos.minus(ready.hook);
        let pull: i64 = pull_of_gravity(ready.length, arm.y, delta_time) as i64;
        let speed: i64 = self.swing_speed(ready, delta_time) as i64;
        (
            Vec2 {
                x: speed_over(arc.x as i64 - arm.x as i64, delta_time),
                y: speed_over(arc.y as i64 - arm.y as i64, delta_time),
            },
            Lasso { speed: Some(saturate(speed + if arm.x > 0 { pull } else { -pull })), ..ready },
        )
    }

    /// Velocity and pull-in point of a player whom the lasso still pulls in.
    ///
    /// The player is drawn toward the point of the swing circle that faces
    /// the pull-in point. When the point that faces the player lies higher,
    /// the player's own position becomes the pull-in point.
    pub open spec fn spec_pull(&self, ready: Lasso, delta_time: u32) -> (Vec2, Lasso) {
        let from_start = spec_toward(ready.hook, ready.start, ready.length);
        let from_here = spec_toward(ready.hook, self.pos, ready.length);
        let higher = from_here.y < from_start.y;
        let anchor = if higher { from_here } else { from_start };
        let wanted = spec_toward(Vec2 { x: 0, y: 0 }, anchor.spec_minus(self.pos), PULL_SPEED);
        let drawn = self.velocity.spec_lerp(wanted, PULL_RATE * delta_time);
        let boosted = Vec2 {
            x: clamp_i32(trunc_div(drawn.x * 12, 10)) as i32,
            y: clamp_i32(trunc_div(drawn.y * 12, 10)) as i32,
        };
        (drawn.spec_lerp(boosted, PULL_RATE * delta_time), Lasso { start: if higher { self.pos } else { ready.start }, ..ready })
    }

    fn pull(&self, ready: Lasso, delta_time: u32) -> (r: (Vec2, Lasso))
        ensures
            r == self.spec_pull(ready, delta_time),
    {
        let from_start: Vec2 = toward(ready.hook, ready.start, ready.length);
        let from_here: Vec2 = toward(ready.hook, self.pos, ready.length);
        let higher: bool = from_here.y < from_start.y;
        let anchor: Vec2 = if higher { from_here } else { from_start };
        let wanted: Vec2 = toward(Vec2 { x: 0, y: 0 }, anchor.minus(self.pos), PULL_SPEED);
        let ratio: i64 = PULL_RATE as i64 * delta_time as i64;
        let drawn: Vec2 = self.velocity.lerp(wanted, ratio);
        let boosted: Vec2 = Vec2 {
            x: saturate(drawn.x as i64 * 12 / 10),
            y: saturate(drawn.y as i64 * 12 / 10),
        };
        (drawn.lerp(boosted, ratio), Lasso { start: if higher { self.pos } else { ready.start }, ..ready })
    }

    /// Whether a lasso is thrown at `target` this frame, and if so whether
    /// by the jump button: the lasso button throws whenever there is a
    /// target, the jump button while the player is in the air, away from
    /// climbable walls.
    pub open spec fn spec_throws(&self, input: Input, target: Option<Vec2>) -> Option<bool> {
        if target.is_none() {
            None
        } else if input.lasso_pressed {
            Some(false)
        } else if input.jump_pressed && !self.on_ground && self.wall_climbing.is_none()
            && self.falling_off_wall.is_none() {
            Some(true)
        } else {
            None
        }
    }

    /// The player after steering on foot or in the air, before moving.
    ///
    /// The horizontal speed approaches the speed the axis asks for, unless a
    /// wall jump still locks the steering. The vertical speed gains gravity,
    /// unless the player clings to a wall: then the player hangs still for
    /// `WALL_HOLD_TIME` and glides down afterwards. A jump from a wall, or
    /// shortly after leaving it, pushes away from the wall; a jump from the
    /// ground goes straight up.
    pub open spec fn spec_walk(&self, delta_time: u32, input: Input, world: &Level) -> Player {
        let target = self.spec_lasso_target(world);
        let thrown = self.spec_throws(input, target);
        let lock = match self.wall_jump_lock {
            Some(t) => if spec_tick(t, delta_time) < WALL_JUMP_LOCK_TIME { Some(spec_tick(t, delta_time)) } else { None },
            None => None,
        };
        let vx = if lock.is_some() {
            self.velocity.x
        } else {
            spec_lerp(
                self.velocity.x,
                clamp_i32(trunc_div(input.axis.x * MOVE_SPEED, UNIT as int)) as i32,
                MOVE_ACCELERATION * delta_time,
            )
        };
        let climb = match self.wall_climbing {
            Some(held) => Some((spec_tick(held.0, delta_time), held.1)),
            None => None,
        };
        let vy = match climb {
            Some(held) => if held.0 < WALL_HOLD_TIME { 0i32 } else { WALL_SLIDE_SPEED },
            None => spec_advance(self.velocity.y, GRAVITY, delta_time),
        };
        let fall = match self.falling_off_wall {
            Some(left) => if spec_tick(left.0, delta_time) <= WALL_COYOTE_TIME {
                Some((spec_tick(left.0, delta_time), left.1))
            } else {
                None
            },
            None => None,
        };
        let wall = match climb {
            Some(held) => Some(held.1),
            None => match fall {
                Some(left) => Some(left.1),
                None => None,
            },
        };
        let moving = input.axis.x != 0;
        let jumps = input.jump_pressed && thrown != Some(true);
        let base = Player {
            lasso_target: target,
            active_lasso: match thrown {
                Some(by_jump) => Some(
                    Lasso {
                        time: spec_tick(0, delta_time),
                        hook: target.unwrap(),
                        speed: None,
                        length: clamp_i32(crate::fixed::spec_floor_sqrt(dist_sq(target.unwrap(), self.pos))) as i32,
                        in_swing: false,
                        start: self.pos,
                        by_jump,
                    },
                ),
                None => None,
            },
            moving,
            facing_left: if moving { input.axis.x < 0 } else { self.facing_left },
            jump_time: match self.jump_time {
                Some(t) => Some(spec_tick(t, delta_time)),
                None => None,
            },
            velocity: Vec2 { x: vx, y: vy },
            wall_climbing: climb,
            falling_off_wall: fall,
            wall_jump_lock: lock,
            ..*self
        };
        if jumps && wall.is_some() {
            Player {
                velocity: Vec2 {
                    x: if wall.unwrap() > 0 { (-WALL_JUMP_PUSH) as i32 } else { WALL_JUMP_PUSH },
                    y: (-WALL_JUMP_FORCE) as i32,
                },
                wall_climbing: None,
                falling_off_wall: None,
                wall_jump_lock: Some(0),
                facing_left: wall.unwrap() > 0,
                jump_time: Some(0),
                ..base
            }
        } else if jumps && self.on_ground {
            Player { velocity: Vec2 { x: vx, y: (-JUMP_FORCE) as i32 }, jump_time: Some(0), ..base }
        } else {
            base
        }
    }

    fn walk(&mut self, delta_time: u32, input: &Input, world: &Level)
        requires
            world.wf(),
        ensures
            *final(self) == old(self).spec_walk(delta_time, *input, world),
    {
        let target: Option<Vec2> = self.find_lasso_target(world);
        let thrown: Option<bool> = if target.is_none() {
            None
        } else if input.lasso_pressed {
            Some(false)
        } else if input.jump_pressed && !self.on_ground && self.wall_climbing.is_none()
            && self.falling_off_wall.is_none() {
            Some(true)
        } else {
            None
        };
        let lock: Option<u64> = match self.wall_jump_lock {
            Some(t) => if tick(t, delta_time) < WALL_JUMP_LOCK_TIME { Some(tick(t, delta_time)) } else { None },
            None => None,
        };
        let vx: i32 = if lock.is_some() {
            self.velocity.x
        } else {
            assert(-0x8000_0000 * 101_000 <= input.axis.x * MOVE_SPEED <= 0x8000_0000 * 101_000) by (nonlinear_arith)
                requires
                    -0x8000_0000 <= input.axis.x <= 0x8000_0000,
                    MOVE_SPEED == 101_000,
            ;
            lerp(
                self.velocity.x,
                saturate(input.axis.x as i64 * MOVE_SPEED as i64 / UNIT as i64),
                MOVE_ACCELERATION as i64 * delta_time as i64,
            )
        };
        let climb: Option<(u64, i8)> = match self.wall_climbing {
            Some(held) => Some((tick(held.0, delta_time), held.1)),
            None => None,
        };
        let vy: i32 = match climb {
            Some(held) => if held.0 < WALL_HOLD_TIME { 0 } else { WALL_SLIDE_SPEED },
            None => advance(self.velocity.y, GRAVITY, delta_time),
        };
        let fall: Option<(u64, i8)> = match self.falling_off_wall {
            Some(left) => if tick(left.0, delta_time) <= WALL_COYOTE_TIME {
                Some((tick(left.0, delta_time), left.1))
            } else {
                None
            },
            None => None,
        };
        let wall: Option<i8> = match climb {
            Some(held) => Some(held.1),
            None => match fall {
                Some(left) => Some(left.1),
                None => None,
            },
        };
        let moving: bool = input.axis.x != 0;
        let by_jump: bool = match thrown {
            Some(by_jump) => by_jump,
            None => false,
        };
        let jumps: bool = input.jump_pressed && !by_jump;
        self.lasso_target = target;
        self.active_lasso = match thrown {
            Some(by_jump) => {
                let hook: Vec2 = target.unwrap();
                let far: u64 = hook.distance(self.pos);
                Some(
                    Lasso {
                        time: tick(0, delta_time),
                        hook,
                        speed: None,
                        length: if far > i32::MAX as u64 { i32::MAX } else { far as i32 },
                        in_swing: false,
                        start: self.pos,
                        by_jump,
                    },
                )
            },
            None => None,
        };
        self.moving = moving;
        if moving {
            self.facing_left = input.axis.x < 0;
        }
        self.jump_time = match self.jump_time {
            Some(t) => Some(tick(t, delta_time)),
            None => None,
        };
        self.velocity = Vec2 { x: vx, y: vy };
        self.wall_climbing = climb;
        self.falling_off_wall = fall;
        self.wall_jump_lock = lock;
        if jumps && wall.is_some() {
            let side: i8 = wall.unwrap();
            self.velocity = Vec2 { x: if side > 0 { -WALL_JUMP_PUSH } else { WALL_JUMP_PUSH }, y: -WALL_JUMP_FORCE };
            self.wall_climbing = None;
            self.falling_off_wall = None;
            self.wall_jump_lock = Some(0);
            self.facing_left = side > 0;
            self.jump_time = Some(0);
        } else if jumps && self.on_ground {
            self.velocity = Vec2 { x: vx, y: -JUMP_FORCE };
            self.jump_time = Some(0);
        }
    }

    /// The player after steering: on the lasso if one is out, else on foot.
    /// A lasso is let go when the button that threw it is no longer down.
    pub open spec fn spec_steer(&self, delta_time: u32, input: Input, world: &Level, assets: &Assets) -> Player {
        match self.active_lasso {
            Some(lasso) => {
                let ready = self.spec_lasso_ready(lasso, delta_time, assets);
                let held = if ready.by_jump { input.jump_down } else { input.lasso_down };
                let result = if ready.in_swing {
                    self.spec_swing(ready, delta_time, input.arc)
                } else {
                    self.spec_pull(ready, delta_time)
                };
                Player {
                    lasso_target: None,
                    moving: if ready.in_swing { false } else { self.moving },
                    velocity: result.0,
                    active_lasso: if held { Some(result.1) } else { None },
                    ..*self
                }
            },
            None => self.spec_walk(delta_time, input, world),
        }
    }

    fn steer(&mut self, delta_time: u32, input: &Input, world: &Level, assets: &Assets)
        requires
            world.wf(),
            assets.wf(),
        ensures
            *final(self) == old(self).spec_steer(delta_time, *input, world, assets),
    {
        match self.active_lasso {
            Some(lasso) => {
                let ready: Lasso = self.lasso_ready(lasso, delta_time, assets);
                let held: bool = if ready.by_jump { input.jump_down } else { input.lasso_down };
                let result: (Vec2, Lasso) = if ready.in_swing {
                    self.swing(ready, delta_time, input.arc)
                } else {
                    self.pull(ready, delta_time)
                };
                self.lasso_target = None;
                if ready.in_swing {
                    self.moving = false;
                }
                self.velocity = result.0;
                self.active_lasso = if held { Some(result.1) } else { None };
            },
            None => {
                self.walk(delta_time, input, world);
            },
        }
    }

    /// The player after a step through the level has been taken in.
    ///
    /// A step that slows the player down stops a swing. A climbable wall is
    /// clung to only in the air and without a lasso; leaving it opens the
    /// window for a late wall jump. Landing ends a jump. A death tile kills.
    pub open spec fn spec_stepped(&self, step: physics::Step) -> Player {
        let origin = Vec2 { x: 0, y: 0 };
        let slowed = dist_sq(self.velocity, origin) > dist_sq(step.velocity, origin);
        let lasso = match self.active_lasso {
            Some(lasso) => Some(if slowed { Lasso { speed: Some(0), ..lasso } } else { lasso }),
            None => None,
        };
        let climb = match step.wall_climb {
            Some(side) => if lasso.is_none() && !step.grounded {
                Some((match self.wall_climbing {
                    Some(held) => held.0,
                    None => 0,
                }, side))
            } else {
                None
            },
            None => None,
        };
        let fall = if climb.is_some() || step.grounded {
            None
        } else {
            match self.wall_climbing {
                Some(held) => Some((0u64, held.1)),
                None => self.falling_off_wall,
            }
        };
        let moved = Player {
            pos: step.pos,
            velocity: step.velocity,
            on_ground: step.grounded,
            active_lasso: lasso,
            wall_climbing: climb,
            falling_off_wall: fall,
            jump_time: if step.grounded { None } else { self.jump_time },
            ..*self
        };
        match step.death_tile {
            Some(_) => moved.spec_kill(DEATH_BY_TILE, false),
            None => moved,
        }
    }

    fn take_step(&mut self, step: physics::Step)
        ensures
            *final(self) == old(self).spec_stepped(step),
    {
        let origin: Vec2 = Vec2 { x: 0, y: 0 };
        let slowed: bool = self.velocity.distance_squared(origin) > step.velocity.distance_squared(origin);
        let lasso: Option<Lasso> = match self.active_lasso {
            Some(lasso) => Some(if slowed { Lasso { speed: Some(0), ..lasso } } else { lasso }),
            None => None,
        };
        let climb: Option<(u64, i8)> = match step.wall_climb {
            Some(side) => if lasso.is_none() && !step.grounded {
                Some((match self.wall_climbing {
                    Some(held) => held.0,
                    None => 0,
                }, side))
            } else {
                None
            },
            None => None,
        };
        let fall: Option<(u64, i8)> = if climb.is_some() || step.grounded {
            None
        } else {
            match self.wall_climbing {
                Some(held) => Some((0u64, held.1)),
                None => self.falling_off_wall,
            }
        };
        self.pos = step.pos;
        self.velocity = step.velocity;
        self.on_ground = step.grounded;
        self.active_lasso = lasso;
        self.wall_climbing = climb;
        self.falling_off_wall = fall;
        if step.grounded {
            self.jump_time = None;
        }
        if step.death_tile.is_some() {
            self.kill(DEATH_BY_TILE, false);
        }
    }

    /// The player with the camera seen to: the cell the player is in may
    /// shift the camera for good, and the camera target follows the player.
    pub open spec fn spec_filmed(&self, world: &Level) -> Player {
        let shifted = Player {
            camera_offset: camera_shift(
                world.tile_at(
                    crate::fixed::clamp_i16(crate::fixed::floor_div(self.pos.x as int, TILE as int)),
                    crate::fixed::clamp_i16(crate::fixed::floor_div(self.pos.y as int, TILE as int)),
                )[crate::utils::SPECIAL_LAYER as int],
                self.camera_offset,
            ),
            ..*self
        };
        Player { camera_pos: shifted.spec_camera(world), ..shifted }
    }

    fn film(&mut self, world: &Level)
        requires
            world.wf(),
        ensures
            *final(self) == old(self).spec_filmed(world),
    {
        let cell: [u16; 4] = world.get_tile(
            crate::fixed::saturate_cell(crate::fixed::tile_floor(self.pos.x)),
            crate::fixed::saturate_cell(crate::fixed::tile_floor(self.pos.y)),
        );
        let marker: u16 = cell[crate::utils::SPECIAL_LAYER];
        if marker == CAMERA_RAISE_TILE + 1 {
            self.camera_offset = -CAMERA_SHIFT;
        } else if marker == CAMERA_REST_TILE + 1 {
            self.camera_offset = 0;
        }
        self.update_camera(world);
    }

    /// The player after moving through the level as a tall body that
    /// barriers stop, taking in what the move met, and seeing to the camera.
    pub open spec fn spec_settle(&self, delta_time: u32, world: &Level) -> Player {
        self.spec_stepped(spec_step(self.pos, self.velocity, delta_time, world, true, true)).spec_filmed(world)
    }

    fn settle(&mut self, delta_time: u32, world: &Level)
        requires
            world.wf(),
        ensures
            *final(self) == old(self).spec_settle(delta_time, world),
    {
        let mut velocity: Vec2 = self.velocity;
        let (pos, grounded, death_tile, wall_climb) = update_physicsbody(self.pos, &mut velocity, delta_time, world, true, true);
        self.take_step(physics::Step { pos, velocity, grounded, death_tile, wall_climb });
        self.film(world);
    }

    /// A dead player one frame later: the death timer runs, and a body that
    /// falls keeps falling.
    pub open spec fn spec_dead(&self, death: Death, delta_time: u32, world: &Level) -> Player {
        let timed = Death { time: spec_tick(death.time, delta_time), ..death };
        if death.falls {
            let step = spec_step(
                self.pos,
                Vec2 { x: self.velocity.x, y: spec_advance(self.velocity.y, GRAVITY, delta_time) },
                delta_time,
                world,
                true,
                false,
            );
            Player { death: Some(timed), pos: step.pos, velocity: step.velocity, on_ground: step.grounded, ..*self }
        } else {
            Player { death: Some(timed), ..*self }
        }
    }

    /// What the player hears of the input: while a dialogue is open, no
    /// steering and no button presses.
    pub open spec fn spec_heard(&self, input: Input) -> Input {
        if self.active_dialogue.is_some() && !self.active_dialogue.unwrap().closed {
            Input {
                axis: Vec2 { x: 0, y: 0 },
                jump_pressed: false,
                shoot_pressed: false,
                lasso_pressed: false,
                ..input
            }
        } else {
            input
        }
    }

    /// The player's timers one frame later.
    pub open spec fn spec_aged(&self, delta_time: u32, input: Input, assets: &Assets) -> Player {
        Player {
            time: spec_tick(self.time, delta_time),
            time_since_last_boss_defeated: spec_tick(self.time_since_last_boss_defeated, delta_time),
            cinematic_bars: match self.cinematic_bars {
                Some(bars) => Some(CinematicBars { time: spec_tick(bars.time, delta_time), ..bars }),
                None => None,
            },
            shooting: self.spec_shooting(delta_time, input, assets),
            ..*self
        }
    }

    /// The player one frame later.
    ///
    /// A dead player only plays out the death. A living one ages, may
    /// shoot, and then either rides (the horse moves the rider, see `ride`)
    /// or steers and moves through the level.
    pub open spec fn spec_update(&self, delta_time: u32, input: Input, world: &Level, assets: &Assets) -> Player {
        match self.death {
            Some(death) => self.spec_dead(death, delta_time, world),
            None => {
                let heard = self.spec_heard(input);
                let aged = self.spec_aged(delta_time, heard, assets);
                if self.riding.is_some() {
                    Player { camera_pos: aged.spec_camera(world), ..aged }
                } else {
                    aged.spec_steer(delta_time, heard, world, assets).spec_settle(delta_time, world)
                }
            },
        }
    }

    /// Advances the player by one frame and appends to `projectiles` the
    /// shot fired in it, if any.
    pub fn update(&mut self, delta_time: u32, input: &Input, world: &Level, assets: &Assets, projectiles: &mut Vec<Projectile>)
        requires
            world.wf(),
            assets.wf(),
        ensures
            *final(self) == old(self).spec_update(delta_time, *input, world, assets),
            final(projectiles)@ == if old(self).death.is_none() && old(self).spec_fires(old(self).spec_heard(*input)) {
                old(projectiles)@.push(old(self).spec_shot())
            } else {
                old(projectiles)@
            },
    {
        match self.death {
            Some(death) => {
                self.death = Some(Death { time: tick(death.time, delta_time), ..death });
                if death.falls {
                    let mut velocity: Vec2 = Vec2 { x: self.velocity.x, y: advance(self.velocity.y, GRAVITY, delta_time) };
                    let (pos, grounded, _, _) = update_physicsbody(self.pos, &mut velocity, delta_time, world, true, false);
                    self.pos = pos;
                    self.velocity = velocity;
                    self.on_ground = grounded;
                }
            },
            None => {
                let heard: Input = self.heard(input);
                self.time = tick(self.time, delta_time);
                self.time_since_last_boss_defeated = tick(self.time_since_last_boss_defeated, delta_time);
                self.cinematic_bars = match self.cinematic_bars {
                    Some(bars) => Some(CinematicBars { time: tick(bars.time, delta_time), ..bars }),
                    None => None,
                };
                self.shoot(delta_time, &heard, assets, projectiles);
                if self.riding.is_some() {
                    self.update_camera(world);
                } else {
                    self.steer(delta_time, &heard, world, assets);
                    self.settle(delta_time, world);
                }
            },
        }
    }

    /// Whether `horse` is within `reach` sideways and within `rise` up or down.
    pub open spec fn spec_near(&self, horse: Horse, reach: i32, rise: i32) -> bool {
        &&& -reach <= horse.pos.x - self.pos.x <= reach
        &&& -rise <= horse.pos.y - self.pos.y <= rise
    }

    /// Whether the player can mount `horse` from here: it stands idle within
    /// reach; a horse on the ceiling is reached from farther below.
    pub open spec fn spec_can_mount(&self, horse: Horse) -> bool {
        horse.spec_idle() && self.spec_near(
            horse,
            HORSE_MOUNT_REACH,
            if horse.flipped { HORSE_MOUNT_REACH_INVERTED } else { HORSE_MOUNT_REACH },
        )
    }

    /// Whether `horse` is an idle horse close enough for a jump to wait for.
    pub open spec fn spec_sees(&self, horse: Horse) -> bool {
        horse.spec_idle() && self.spec_near(horse, HORSE_SIGHT, HORSE_SIGHT)
    }

    /// The first horse at or after `from` that the player can mount.
    pub open spec fn spec_mount_at(&self, horses: Seq<Horse>, from: int) -> Option<int>
        decreases horses.len() - from,
    {
        if from < 0 || from >= horses.len() {
            None
        } else if self.spec_can_mount(horses[from]) {
            Some(from)
        } else {
            self.spec_mount_at(horses, from + 1)
        }
    }

    /// Whether any horse at or after `from` is in sight.
    pub open spec fn spec_sees_any(&self, horses: Seq<Horse>, from: int) -> bool
        decreases horses.len() - from,
    {
        if from < 0 || from >= horses.len() {
            false
        } else {
            self.spec_sees(horses[from]) || self.spec_sees_any(horses, from + 1)
        }
    }

    /// Where the rider of `horse` sits.
    pub open spec fn spec_saddle(horse: Horse) -> Vec2 {
        Vec2 {
            x: horse.pos.x,
            y: clamp_i32(horse.pos.y + if horse.flipped { SADDLE_HEIGHT as int } else { -SADDLE_HEIGHT }) as i32,
        }
    }

    /// The wish to mount, after this frame's input: a jump press renews it,
    /// time wears it out.
    pub open spec fn spec_wish(&self, delta_time: u32, input: Input) -> Option<u64> {
        if input.jump_pressed {
            Some(0)
        } else {
            match self.mount_wish {
                Some(t) => Some(spec_tick(t, delta_time)),
                None => None,
            }
        }
    }

    /// A rider on the horse at place `i`, after the riding rules.
    ///
    /// A rider who jumps leaves the horse with the horse's velocity and a
    /// push off its back; the horse walks home. A rider who stays sits in
    /// the saddle, moves with the horse and turns it with the axis.
    pub open spec fn spec_ride_mounted(&self, i: int, input: Input, horses: Seq<Horse>) -> (Player, Seq<Horse>, Input) {
        let heard = self.spec_heard(input);
        if heard.jump_pressed {
            (
                Player {
                    riding: None,
                    on_ground: false,
                    jump_time: Some(0),
                    velocity: Vec2 {
                        x: horses[i].velocity.x,
                        y: clamp_i32(horses[i].velocity.y + if horses[i].flipped { JUMP_FORCE as int } else { -JUMP_FORCE }) as i32,
                    },
                    ..*self
                },
                horses.update(i, Horse { player_riding: false, running: false, returning_home: true, ..horses[i] }),
                Input { jump_pressed: false, ..input },
            )
        } else {
            let turned = if heard.axis.x != 0 {
                Horse { direction: Vec2 { x: if heard.axis.x < 0 { (-UNIT) as i32 } else { UNIT }, y: 0 }, ..horses[i] }
            } else {
                horses[i]
            };
            (
                Player {
                    pos: Self::spec_saddle(turned),
                    velocity: turned.velocity,
                    facing_left: turned.direction.x < 0,
                    on_ground: true,
                    moving: true,
                    ..*self
                },
                horses.update(i, turned),
                input,
            )
        }
    }

    /// Player and horses once the player has mounted the horse at place
    /// `i`: the horse runs the way the player faced, and the player sits in
    /// the saddle, rid of lasso and wall.
    pub open spec fn spec_mounted(&self, i: int, horses: Seq<Horse>) -> (Player, Seq<Horse>) {
        let taken = Horse {
            player_riding: true,
            running: true,
            direction: Vec2 { x: if self.facing_left { (-UNIT) as i32 } else { UNIT }, y: 0 },
            ..horses[i]
        };
        (
            Player {
                riding: Some(i as usize),
                mount_wish: None,
                active_lasso: None,
                lasso_target: None,
                wall_climbing: None,
                falling_off_wall: None,
                wall_jump_lock: None,
                jump_time: None,
                pos: Self::spec_saddle(taken),
                velocity: taken.velocity,
                on_ground: true,
                ..*self
            },
            horses.update(i, taken),
        )
    }

    /// A player on foot, after the riding rules.
    ///
    /// A player who wishes to mount does so once a horse is in reach. The
    /// jump that expressed the wish is swallowed while a horse is in sight,
    /// and handed on as a jump when the wish runs out.
    pub open spec fn spec_ride_on_foot(&self, delta_time: u32, input: Input, horses: Seq<Horse>) -> (Player, Seq<Horse>, Input) {
        let heard = self.spec_heard(input);
        let wish = self.spec_wish(delta_time, heard);
        let mount = self.spec_mount_at(horses, 0);
        if wish.is_some() && mount.is_some() {
            let mounted = self.spec_mounted(mount.unwrap(), horses);
            (mounted.0, mounted.1, Input { jump_pressed: false, ..input })
        } else if wish.is_some() && self.spec_sees_any(horses, 0) && wish.unwrap() <= HORSE_MOUNT_LEEWAY {
            (Player { mount_wish: wish, ..*self }, horses, Input { jump_pressed: false, ..input })
        } else {
            (
                Player { mount_wish: None, ..*self },
                horses,
                Input { jump_pressed: input.jump_pressed || (wish.is_some() && !heard.jump_pressed), ..input },
            )
        }
    }

    /// Player, horses and input after the riding rules have had their say.
    /// The dead neither ride nor mount; a rider whose horse is not in the
    /// list is put on foot.
    pub open spec fn spec_ride(&self, delta_time: u32, input: Input, horses: Seq<Horse>) -> (Player, Seq<Horse>, Input) {
        if self.death.is_some() {
            (*self, horses, input)
        } else if self.riding.is_some() {
            if self.riding.unwrap() >= horses.len() {
                (Player { riding: None, ..*self }, horses, input)
            } else {
                self.spec_ride_mounted(self.riding.unwrap() as int, input, horses)
            }
        } else {
            self.spec_ride_on_foot(delta_time, input, horses)
        }
    }

    fn find_mount(&self, horses: &Vec<Horse>) -> (r: Option<usize>)
        ensures
            match r {
                Some(i) => i < horses@.len() && self.spec_mount_at(horses@, 0) == Some(i as int),
                None => self.spec_mount_at(horses@, 0).is_none(),
            },
    {
        let mut i: usize = 0;
        while i < horses.len()
            invariant
                0 <= i <= horses@.len(),
                self.spec_mount_at(horses@, 0) == self.spec_mount_at(horses@, i as int),
            decreases horses@.len() - i,
        {
            let horse: Horse = horses[i];
            let dx: i64 = horse.pos.x as i64 - self.pos.x as i64;
            let dy: i64 = horse.pos.y as i64 - self.pos.y as i64;
            let rise: i64 = if horse.flipped { HORSE_MOUNT_REACH_INVERTED as i64 } else { HORSE_MOUNT_REACH as i64 };
            if horse.is_idle() && -(HORSE_MOUNT_REACH as i64) <= dx && dx <= HORSE_MOUNT_REACH as i64 && -rise <= dy
                && dy <= rise {
                return Some(i);
            }
            i = i + 1;
        }
        None
    }

    fn sees_horse(&self, horses: &Vec<Horse>) -> (r: bool)
        ensures
            r == self.spec_sees_any(horses@, 0),
    {
        let mut i: usize = 0;
        while i < horses.len()
            invariant
                0 <= i <= horses@.len(),
                self.spec_sees_any(horses@, 0) == self.spec_sees_any(horses@, i as int),
            decreases horses@.len() - i,
        {
            let horse: Horse = horses[i];
            let dx: i64 = horse.pos.x as i64 - self.pos.x as i64;
            let dy: i64 = horse.pos.y as i64 - self.pos.y as i64;
            if horse.is_idle() && -(HORSE_SIGHT as i64) <= dx && dx <= HORSE_SIGHT as i64 && -(HORSE_SIGHT as i64) <= dy
                && dy <= HORSE_SIGHT as i64 {
                return true;
            }
            i = i + 1;
        }
        false
    }

    fn saddle(horse: Horse) -> (r: Vec2)
        ensures
            r == Self::spec_saddle(horse),
    {
        Vec2 { x: horse.pos.x, y: sat_add(horse.pos.y, if horse.flipped { SADDLE_HEIGHT } else { -SADDLE_HEIGHT }) }
    }

    fn heard(&self, input: &Input) -> (r: Input)
        ensures
            r == self.spec_heard(*input),
    {
        if self.active_dialogue.is_some() && !self.active_dialogue.unwrap().closed {
            Input { axis: Vec2 { x: 0, y: 0 }, jump_pressed: false, shoot_pressed: false, lasso_pressed: false, ..*input }
        } else {
            *input
        }
    }

    fn ride_mounted(&mut self, i: usize, input: &Input, horses: &mut Vec<Horse>) -> (r: Input)
        requires
            i < old(horses)@.len(),
        ensures
            *final(self) == old(self).spec_ride_mounted(i as int, *input, old(horses)@).0,
            final(horses)@ == old(self).spec_ride_mounted(i as int, *input, old(horses)@).1,
            r == old(self).spec_ride_mounted(i as int, *input, old(horses)@).2,
    {
        let heard: Input = self.heard(input);
        let horse: Horse = horses[i];
        if heard.jump_pressed {
            self.riding = None;
            self.on_ground = false;
            self.jump_time = Some(0);
            self.velocity = Vec2 {
                x: horse.velocity.x,
                y: sat_add(horse.velocity.y, if horse.flipped { JUMP_FORCE } else { -JUMP_FORCE }),
            };
            horses[i] = Horse { player_riding: false, running: false, returning_home: true, ..horse };
            Input { jump_pressed: false, ..*input }
        } else {
            let turned: Horse = if heard.axis.x != 0 {
                Horse { direction: Vec2 { x: if heard.axis.x < 0 { -UNIT } else { UNIT }, y: 0 }, ..horse }
            } else {
                horse
            };
            self.pos = Self::saddle(turned);
            self.velocity = turned.velocity;
            self.facing_left = turned.direction.x < 0;
            self.on_ground = true;
            self.moving = true;
            horses[i] = turned;
            *input
        }
    }

    /// Puts the player on the horse at place `i`.
    fn mount(&mut self, i: usize, horses: &mut Vec<Horse>)
        requires
            i < old(horses)@.len(),
        ensures
            *final(self) == old(self).spec_mounted(i as int, old(horses)@).0,
            final(horses)@ == old(self).spec_mounted(i as int, old(horses)@).1,
    {
        let taken: Horse = Horse {
            player_riding: true,
            running: true,
            direction: Vec2 { x: if self.facing_left { -UNIT } else { UNIT }, y: 0 },
            ..horses[i]
        };
        self.riding = Some(i);
        self.mount_wish = None;
        self.active_lasso = None;
        self.lasso_target = None;
        self.wall_climbing = None;
        self.falling_off_wall = None;
        self.wall_jump_lock = None;
        self.jump_time = None;
        self.pos = Self::saddle(taken);
        self.velocity = taken.velocity;
        self.on_ground = true;
        horses[i] = taken;
    }

    fn ride_on_foot(&mut self, delta_time: u32, input: &Input, horses: &mut Vec<Horse>) -> (r: Input)
        ensures
            *final(self) == old(self).spec_ride_on_foot(delta_time, *input, old(horses)@).0,
            final(horses)@ == old(self).spec_ride_on_foot(delta_time, *input, old(horses)@).1,
            r == old(self).spec_ride_on_foot(delta_time, *input, old(horses)@).2,
    {
        let heard: Input = self.heard(input);
        let wish: Option<u64> = if heard.jump_pressed {
            Some(0)
        } else {
            match self.mount_wish {
                Some(t) => Some(tick(t, delta_time)),
                None => None,
            }
        };
        let mount: Option<usize> = self.find_mount(horses);
        if wish.is_some() && mount.is_some() {
            self.mount(mount.unwrap(), horses);
            Input { jump_pressed: false, ..*input }
        } else if wish.is_some() && self.sees_horse(horses) && wish.unwrap() <= HORSE_MOUNT_LEEWAY {
            self.mount_wish = wish;
            Input { jump_pressed: false, ..*input }
        } else {
            self.mount_wish = None;
            Input { jump_pressed: input.jump_pressed || (wish.is_some() && !heard.jump_pressed), ..*input }
        }
    }

    /// Applies the riding rules for this frame: mounting, sitting, leaping
    /// off. Call it after the horses have moved and before `update`, and
    /// hand `update` the input that it returns.
    pub fn ride(&mut self, delta_time: u32, input: &Input, horses: &mut Vec<Horse>) -> (r: Input)
        ensures
            *final(self) == old(self).spec_ride(delta_time, *input, old(horses)@).0,
            final(horses)@ == old(self).spec_ride(delta_time, *input, old(horses)@).1,
            r == old(self).spec_ride(delta_time, *input, old(horses)@).2,
    {
        if self.death.is_some() {
            return *input;
        }
        match self.riding {
            Some(i) => {
                if i >= horses.len() {
                    self.riding = None;
                    *input
                } else {
                    self.ride_mounted(i, input, horses)
                }
            },
            None => self.ride_on_foot(delta_time, input, horses),
        }
    }

    /// How much of the rope is out, in millionths: none until shortly
    /// before the throwing clip ends, then more over `ROPE_EXTEND_TIME`, and
    /// all of it once the lasso's timer has stopped.
    pub open spec fn spec_rope(lasso: Lasso, assets: &Assets) -> Option<u32> {
        let clip = assets.torso.animations@[TORSO_THROW as int].total_length * 1000;
        if lasso.time == 0 {
            Some(1_000_000u32)
        } else if lasso.time + ROPE_EARLY_START <= clip {
            None
        } else if lasso.time + ROPE_EARLY_START - clip >= ROPE_EXTEND_TIME {
            Some(1_000_000u32)
        } else {
            Some(((lasso.time + ROPE_EARLY_START - clip) * 1_000_000 / (ROPE_EXTEND_TIME as int)) as u32)
        }
    }

    /// What there is to draw of the player.
    ///
    /// The legs run or stand. The torso throws while the lasso's timer
    /// runs, shoots while the shooting timer runs, and idles otherwise; a
    /// clip that does not loop stays on its last frame. A dead player shows
    /// the death animation, held on its last frame.
    pub open spec fn spec_sprite(&self, assets: &Assets) -> Sprite {
        let throw_end = (assets.torso.animations@[TORSO_THROW as int].total_length - 1) * 1000;
        let die_end = (assets.die.total_length - 1) * 1000;
        Sprite {
            legs: (if self.moving { 1usize } else { 0usize }, self.time),
            torso: if self.active_lasso.is_some() && self.active_lasso.unwrap().time > 0 {
                (
                    TORSO_THROW,
                    if self.active_lasso.unwrap().time > throw_end { throw_end as u64 } else { self.active_lasso.unwrap().time },
                )
            } else if self.shooting > 0 {
                (TORSO_SHOOT, self.shooting)
            } else {
                (0usize, 0u64)
            },
            death: match self.death {
                Some(death) => Some((death.animation, if death.time > die_end { die_end as u64 } else { death.time })),
                None => None,
            },
            rope: match self.active_lasso {
                Some(lasso) => Self::spec_rope(lasso, assets),
                None => None,
            },
            flipped: self.facing_left,
        }
    }

    /// Tells what there is to draw of the player.
    pub fn sprite(&self, assets: &Assets) -> (r: Sprite)
        requires
            assets.wf(),
        ensures
            r == self.spec_sprite(assets),
    {
        let throw_length: u64 = assets.torso.animations[TORSO_THROW].total_length as u64 * 1000;
        let throw_end: u64 = throw_length - 1000;
        let die_end: u64 = (assets.die.total_length as u64 - 1) * 1000;
        let rope: Option<u32> = match self.active_lasso {
            Some(lasso) => {
                if lasso.time == 0 {
                    Some(1_000_000)
                } else if lasso.time as u128 + ROPE_EARLY_START as u128 <= throw_length as u128 {
                    None
                } else {
                    let out: u128 = lasso.time as u128 + ROPE_EARLY_START as u128 - throw_length as u128;
                    if out >= ROPE_EXTEND_TIME as u128 {
                        Some(1_000_000)
                    } else {
                        Some((out * 1_000_000 / ROPE_EXTEND_TIME as u128) as u32)
                    }
                }
            },
            None => None,
        };
        Sprite {
            legs: (if self.moving { 1 } else { 0 }, self.time),
            torso: if self.active_lasso.is_some() && self.active_lasso.unwrap().time > 0 {
                let t: u64 = self.active_lasso.unwrap().time;
                (TORSO_THROW, if t > throw_end { throw_end } else { t })
            } else if self.shooting > 0 {
                (TORSO_SHOOT, self.shooting)
            } else {
                (0, 0)
            },
            death: match self.death {
                Some(death) => Some((death.animation, if death.time > die_end { die_end } else { death.time })),
                None => None,
            },
            rope,
            flipped: self.facing_left,
        }
    }

    /// Where the camera looks after this frame.
    pub open spec fn spec_camera(&self, world: &Level) -> Vec2 {
        Vec2 {
            x: camera_x(self.pos.x, (world.min_x * TILE) as i32, clamp_i32((world.min_x + world.width) * TILE) as i32),
            y: camera_y(self.camera_pos.y, self.pos.y, self.camera_offset),
        }
    }
}

/// Gravity never pushes a swing uphill: for a player who hangs no lower
/// than the lasso is long, the pull it adds is not negative. It is added
/// on the right half of the circle and taken off on the left, so it always
/// drives toward the lowest point.
pub proof fn lemma_gravity_pulls_down(length: i32, drop: i32, delta_time: u32)
    requires
        drop <= length,
    ensures
        gravity_pull(length, drop, delta_time) >= 0,
        length > 0 && (length - drop) * delta_time * GRAVITY >= length * SECOND ==> gravity_pull(length, drop, delta_time) > 0,
{
    if length > 0 {
        let lever = (length - drop) * delta_time * GRAVITY;
        let arm = length * SECOND;
        assert(lever >= 0) by (nonlinear_arith)
            requires
                lever == (length - drop) * delta_time * GRAVITY,
                length - drop >= 0,
                delta_time >= 0,
                GRAVITY == 735_000,
        ;
        assert(arm > 0) by (nonlinear_arith)
            requires
                arm == length * SECOND,
                length > 0,
                SECOND == 1_000_000,
        ;
        assert(lever / arm >= 0) by (nonlinear_arith)
            requires
                lever >= 0,
                arm > 0,
        ;
        if lever >= arm {
            assert(lever / arm >= 1) by (nonlinear_arith)
                requires
                    lever >= arm,
                    arm > 0,
            ;
        }
    }
}

/// Gravity turns every swing toward the lowest point of the circle: on the
/// right half the swing speed after a frame is no less than drag alone
/// leaves it, on the left half no more.
pub proof fn lemma_swing_turns_down(player: Player, ready: Lasso, delta_time: u32, arc: Vec2)
    requires
        player.pos.spec_minus(ready.hook).y <= ready.length,
    ensures
        ({
            let arm = player.pos.spec_minus(ready.hook);
            let coasting = player.spec_swing_speed(ready, delta_time);
            let after = player.spec_swing(ready, delta_time, arc).1.speed.unwrap();
            &&& arm.x > 0 ==> after >= coasting
            &&& arm.x <= 0 ==> after <= coasting
        }),
{
    lemma_gravity_pulls_down(ready.length, player.pos.spec_minus(ready.hook).y, delta_time);
}

/// A swing let go at rest off the vertical sets out toward the lowest
/// point: toward greater angles on the right half, toward smaller ones on
/// the left, so that a swing which crosses from one half to the other has
/// been pulled both ways. It holds wherever the pull of one frame is large
/// enough to count.
pub proof fn lemma_swing_sets_out_downward(player: Player, ready: Lasso, delta_time: u32, arc: Vec2)
    requires
        ready.speed == Some(0i32),
        ready.length > 0,
        player.pos.spec_minus(ready.hook).y <= ready.length,
        (ready.length - player.pos.spec_minus(ready.hook).y) * delta_time * GRAVITY >= ready.length * SECOND,
    ensures
        player.pos.spec_minus(ready.hook).x > 0 ==> player.spec_swing(ready, delta_time, arc).1.speed.unwrap() > 0,
        player.pos.spec_minus(ready.hook).x <= 0 ==> player.spec_swing(ready, delta_time, arc).1.speed.unwrap() < 0,
{
    lemma_gravity_pulls_down(ready.length, player.pos.spec_minus(ready.hook).y, delta_time);
    assert(trunc_div(0 * SWING_DRAG, 100) == 0);
    assert((0 - 0) * (delta_time as int) == 0) by (nonlinear_arith);
    assert(dragged(0, delta_time) == 0);
}

/// Drag slows a swing and never turns it round, in a frame of no more than a second.
pub proof fn lemma_drag_slows(speed: i32, delta_time: u32)
    requires
        delta_time <= SECOND,
    ensures
        speed >= 0 ==> 0 <= dragged(speed, delta_time) <= speed,
        speed <= 0 ==> speed <= dragged(speed, delta_time) <= 0,
{
    let slower = trunc_div(speed * SWING_DRAG, 100);
    assert(speed * SWING_DRAG == speed * 85) by (nonlinear_arith)
        requires
            SWING_DRAG == 85,
    ;
    let span = (slower - speed) * delta_time;
    if speed >= 0 {
        assert(0 <= slower <= speed);
        assert(-(speed - slower) * 1_000_000 <= span <= 0) by (nonlinear_arith)
            requires
                span == (slower - speed) * delta_time,
                slower - speed <= 0,
                0 <= delta_time <= 1_000_000,
        ;
        assert(slower - speed <= trunc_div(span, 1_000_000) <= 0);
    } else {
        assert(speed <= slower <= 0);
        assert(0 <= span <= (slower - speed) * 1_000_000) by (nonlinear_arith)
            requires
                span == (slower - speed) * delta_time,
                slower - speed >= 0,
                0 <= delta_time <= 1_000_000,
        ;
        assert(0 <= trunc_div(span, 1_000_000) <= slower - speed);
    }
}

/// Whether the frames from `from` up to `to` of a run are frames of at
/// most a second in which gravity pulls with at least `pull`, and the player
/// hangs on the right half of the circle in all of them (or, if not
/// `right`, on the left half in all of them).
pub open spec fn hangs(length: i32, frames: Seq<(Vec2, u32)>, from: int, to: int, right: bool, pull: int) -> bool {
    &&& 0 <= from <= to <= frames.len()
    &&& pull > 0
    &&& forall|i: int|
        from <= i < to ==> {
            &&& (#[trigger] frames[i]).0.x > 0 <==> right
            &&& frames[i].1 <= SECOND
            &&& gravity_pull(length, frames[i].0.y, frames[i].1) >= pull
        }
}

/// What a frame on one half of the circle does to a swing speed: on the
/// left half it leaves no more than the speed less the pull, on the right
/// half no less than the speed and the pull; a speed that already ran
/// downhill stays at least a pull away from rest.
pub proof fn lemma_frame_pulls(before: i32, length: i32, arm: Vec2, delta_time: u32, pull: int)
    requires
        delta_time <= SECOND,
        pull > 0,
        gravity_pull(length, arm.y, delta_time) >= pull,
    ensures
        arm.x <= 0 && before >= 0 ==> swung(before, length, arm, delta_time) <= before - pull,
        arm.x <= 0 && before <= 0 ==> swung(before, length, arm, delta_time) <= -pull,
        arm.x > 0 && before <= 0 ==> swung(before, length, arm, delta_time) >= before + pull,
        arm.x > 0 && before >= 0 ==> swung(before, length, arm, delta_time) >= pull,
{
    lemma_drag_slows(before, delta_time);
}

/// While the player hangs on the left half of the circle, every frame
/// takes gravity's pull off the swing speed: a swing that came over with a
/// speed above zero loses it frame by frame, and turns round.
pub proof fn lemma_left_half_turns_swing_back(speed: i32, length: i32, frames: Seq<(Vec2, u32)>, from: int, to: int, pull: int)
    requires
        hangs(length, frames, from, to, false, pull),
        from < to,
    ensures
        swung_through(speed, length, frames, to) <= swung_through(speed, length, frames, from) - (to - from) * pull
            || swung_through(speed, length, frames, to) <= -pull,
        (to - from) * pull > swung_through(speed, length, frames, from) ==> swung_through(speed, length, frames, to) < 0,
    decreases to - from,
{
    let start = swung_through(speed, length, frames, from);
    let before = swung_through(speed, length, frames, to - 1);
    let after = swung_through(speed, length, frames, to);
    let frame = frames[to - 1];
    let steps = to - 1 - from;
    assert(after == swung(before, length, frame.0, frame.1));
    lemma_frame_pulls(before, length, frame.0, frame.1, pull);
    assert((to - from) * pull == steps * pull + pull) by (nonlinear_arith)
        requires
            steps == to - 1 - from,
    ;
    assert(steps * pull >= 0) by (nonlinear_arith)
        requires
            steps >= 0,
            pull > 0,
    ;
    if steps > 0 {
        lemma_left_half_turns_swing_back(speed, length, frames, from, to - 1, pull);
    } else {
        assert(before == start);
        assert(steps * pull == 0) by (nonlinear_arith)
            requires
                steps == 0,
        ;
    }
    assert(after <= start - (to - from) * pull || after <= -pull);
}

/// While the player hangs on the right half of the circle, every frame
/// adds gravity's pull to the swing speed.
pub proof fn lemma_right_half_drives_swing_on(speed: i32, length: i32, frames: Seq<(Vec2, u32)>, from: int, to: int, pull: int)
    requires
        hangs(length, frames, from, to, true, pull),
        from < to,
    ensures
        swung_through(speed, length, frames, to) >= swung_through(speed, length, frames, from) + (to - from) * pull
            || swung_through(speed, length, frames, to) >= pull,
        (to - from) * pull > -swung_through(speed, length, frames, from) ==> swung_through(speed, length, frames, to) > 0,
    decreases to - from,
{
    let start = swung_through(speed, length, frames, from);
    let before = swung_through(speed, length, frames, to - 1);
    let after = swung_through(speed, length, frames, to);
    let frame = frames[to - 1];
    let steps = to - 1 - from;
    assert(after == swung(before, length, frame.0, frame.1));
    lemma_frame_pulls(before, length, frame.0, frame.1, pull);
    assert((to - from) * pull == steps * pull + pull) by (nonlinear_arith)
        requires
            steps == to - 1 - from,
    ;
    assert(steps * pull >= 0) by (nonlinear_arith)
        requires
            steps >= 0,
            pull > 0,
    ;
    if steps > 0 {
        lemma_right_half_drives_swing_on(speed, length, frames, from, to - 1, pull);
    } else {
        assert(before == start);
        assert(steps * pull == 0) by (nonlinear_arith)
            requires
                steps == 0,
        ;
    }
    assert(after >= start + (to - from) * pull || after >= pull);
}

/// A swing let go at rest off the vertical changes the sign of its speed
/// once it has crossed to the other half of the circle: gravity drives it
/// on while the player hangs on the half it was let go on, and takes the
/// speed off again, pull by pull, on the other. Stated of a release on the
/// right half, where the speed first rises above zero, and of one on the
/// left, where it first falls below. `crossing` is the frame in which the
/// player has come over; the run lasts long enough after it for the pulls
/// to use up the speed the swing came over with.
pub proof fn lemma_swing_changes_sign(length: i32, frames: Seq<(Vec2, u32)>, crossing: int, right: bool, pull: int)
    requires
        0 < crossing < frames.len(),
        hangs(length, frames, 0, crossing, right, pull),
        hangs(length, frames, crossing, frames.len() as int, !right, pull),
        (frames.len() - crossing) * pull > swung_through(0, length, frames, crossing)
            && (frames.len() - crossing) * pull > -swung_through(0, length, frames, crossing),
    ensures
        right ==> swung_through(0, length, frames, crossing) > 0 && swung_through(0, length, frames, frames.len() as int) < 0,
        !right ==> swung_through(0, length, frames, crossing) < 0 && swung_through(0, length, frames, frames.len() as int) > 0,
{
    let n = frames.len() as int;
    assert(crossing * pull > 0) by (nonlinear_arith)
        requires
            crossing > 0,
            pull > 0,
    ;
    assert(swung_through(0, length, frames, 0) == 0);
    if right {
        lemma_right_half_drives_swing_on(0, length, frames, 0, crossing, pull);
        lemma_left_half_turns_swing_back(0, length, frames, crossing, n, pull);
    } else {
        lemma_left_half_turns_swing_back(0, length, frames, 0, crossing, pull);
        lemma_right_half_drives_swing_on(0, length, frames, crossing, n, pull);
    }
}

/// The camera never looks above its target, and never trails it by more
/// than `CAMERA_MAX_LAG`.
pub proof fn lemma_camera_keeps_up(current: i32, player_y: i32, offset: i32)
    ensures
        ({
            let target = clamp_i32(clamp_i32(player_y - CAMERA_LEAD) + offset);
            target <= camera_y(current, player_y, offset) <= target + CAMERA_MAX_LAG
        }),
{
}

} // verus!
