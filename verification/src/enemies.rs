//! Enemies: how each kind moves and attacks, how it wakes, and how it dies.

use vstd::prelude::*;
use crate::assets::{AnimationsGroup, Assets, Level};

pub use crate::assets::LevelEnemyData;
use crate::fixed::{
    Vec2, PIXEL, clamp_i32, dist_sq, lerp, sat_add, saturate, spec_lerp, spec_millis, spec_tick,
    millis, tick, trunc_div,
};
use crate::player::Player;
use crate::player::physics::{spec_step, update_physicsbody};
use crate::projectiles::{Projectile, UNIT, spec_new};
use crate::utils::random_between;

verus! {

/// How close the player must come for a dormant enemy to wake.
pub const WAKE_DISTANCE: u32 = 128_000;

/// How close the player must be for a melee attack to kill.
pub const MELEE_REACH: u32 = 5_000;

/// Below this, a wander wave counts as standing still. In millionths.
pub const WANDER_THRESHOLD: i32 = 100_000;

/// Within this distance, sideways, a chasing enemy stands still.
pub const CHASE_DEADZONE: i32 = 1_000;

/// Above this horizontal speed an enemy shows its moving clip.
pub const MOVING_SPEED: i32 = 5_000;

/// Death animation of a player killed in melee.
pub const DEATH_BY_MELEE: usize = 0;

/// Number of the clip an enemy shows while it stands.
pub const CLIP_IDLE: usize = 0;

/// Number of the clip an enemy shows while it moves.
pub const CLIP_MOVING: usize = 1;

/// One full turn, in millionths of a radian: the range of the wander phase.
pub const FULL_TURN: i32 = 6_283_185;

/// How a kind of enemy moves.
#[derive(Clone, Copy, Debug, PartialEq, Eq, Structural)]
pub enum MovementType {
    Still,
    Wander,
    FollowPath,
    Chase,
}

/// How a kind of enemy attacks.
#[derive(Clone, Copy, Debug, PartialEq, Eq, Structural)]
pub enum AttackType {
    Unarmed,
    /// Fires the given kind of projectile at the start of each attack.
    Shoot(usize),
    /// Like `Shoot`, but fires once the attack clip has played.
    ShootAfter(usize),
    Melee,
}

/// A kind of enemy. Names of clips are looked up once, when the kind is made.
pub struct EnemyType {
    pub animation: AnimationsGroup,
    pub movement_type: MovementType,
    pub attack_type: AttackType,
    /// Pause between two attacks.
    pub attack_delay: u64,
    /// For wandering and chasing: speed. For following a path: waypoints
    /// per second, in thousandths.
    pub speed: i32,
    /// The clips called "attack", "spawning" and "unspawned", where the kind has them.
    pub attack_clip: Option<usize>,
    pub spawning_clip: Option<usize>,
    pub unspawned_clip: Option<usize>,
}

impl EnemyType {
    /// Whether the kind fires projectiles.
    pub open spec fn spec_shoots(&self) -> bool {
        self.attack_type is Shoot || self.attack_type is ShootAfter
    }

    /// The kind has the clips its behaviour needs: two to stand and move, an
    /// attack clip if it shoots, a spawning clip if it starts out unspawned.
    pub open spec fn wf(&self) -> bool {
        &&& self.animation.wf()
        &&& self.animation.animations@.len() >= 2
        &&& names(self.animation, "attack"@, self.attack_clip)
        &&& names(self.animation, "spawning"@, self.spawning_clip)
        &&& names(self.animation, "unspawned"@, self.unspawned_clip)
        &&& self.spec_shoots() ==> self.attack_clip.is_some()
        &&& self.unspawned_clip.is_some() ==> self.spawning_clip.is_some()
    }

    /// Checks that the kind is well formed.
    pub fn check(&self) -> (r: bool)
        ensures
            r == self.wf(),
    {
        if !self.animation.check() || self.animation.animations.len() < 2 {
            return false;
        }
        let attack_clip: Option<usize> = self.animation.find_tag("attack");
        let spawning_clip: Option<usize> = self.animation.find_tag("spawning");
        let unspawned_clip: Option<usize> = self.animation.find_tag("unspawned");
        proof {
            lemma_names_one(self.animation, "attack"@, attack_clip, self.attack_clip);
            lemma_names_one(self.animation, "spawning"@, spawning_clip, self.spawning_clip);
            lemma_names_one(self.animation, "unspawned"@, unspawned_clip, self.unspawned_clip);
        }
        let shoots: bool = match self.attack_type {
            AttackType::Shoot(_) => true,
            AttackType::ShootAfter(_) => true,
            _ => false,
        };
        same_clip(attack_clip, self.attack_clip) && same_clip(spawning_clip, self.spawning_clip) && same_clip(
            unspawned_clip,
            self.unspawned_clip,
        ) && (!shoots || attack_clip.is_some()) && (unspawned_clip.is_none() || spawning_clip.is_some())
    }

    /// Makes a kind of enemy, or `None` if its sprites lack a clip that the
    /// behaviour asked for needs.
    pub fn new(
        animation: AnimationsGroup,
        movement_type: MovementType,
        attack_type: AttackType,
        attack_delay: u64,
        speed: i32,
    ) -> (r: Option<EnemyType>)
        requires
            animation.wf(),
        ensures
            r.is_some() <==> {
                &&& animation.animations@.len() >= 2
                &&& (attack_type is Shoot || attack_type is ShootAfter) ==> animation.has_tag("attack"@)
                &&& animation.has_tag("unspawned"@) ==> animation.has_tag("spawning"@)
            },
            r.is_some() ==> {
                &&& r.unwrap().wf()
                &&& r.unwrap().animation == animation
                &&& r.unwrap().movement_type == movement_type
                &&& r.unwrap().attack_type == attack_type
                &&& r.unwrap().attack_delay == attack_delay
                &&& r.unwrap().speed == speed
            },
    {
        let attack_clip: Option<usize> = animation.find_tag("attack");
        let spawning_clip: Option<usize> = animation.find_tag("spawning");
        let unspawned_clip: Option<usize> = animation.find_tag("unspawned");
        let shoots: bool = match attack_type {
            AttackType::Shoot(_) => true,
            AttackType::ShootAfter(_) => true,
            _ => false,
        };
        if animation.animations.len() < 2 || (shoots && attack_clip.is_none()) || (unspawned_clip.is_some()
            && spawning_clip.is_none()) {
            return None;
        }
        Some(
            EnemyType {
                animation,
                movement_type,
                attack_type,
                attack_delay,
                speed,
                attack_clip,
                spawning_clip,
                unspawned_clip,
            },
        )
    }
}

/// One enemy in a level.
#[derive(Clone, Copy, Debug, PartialEq, Eq)]
pub struct Enemy {
    pub pos: Vec2,
    pub velocity: Vec2,
    /// The enemy's kind, by its place in the catalog.
    pub ty: usize,
    /// For an enemy on patrol: the path, and the waypoint it set out from.
    pub path_index: Option<(usize, usize)>,
    pub time: u64,
    /// Whether the projectile of the current attack has been fired.
    pub has_attacked: bool,
    /// Time since the current attack began; zero between attacks.
    pub attack_time: u64,
    /// Zero while alive; after death, the time since.
    pub death_frames: u64,
    /// Phase of this enemy's wandering, in millionths of a radian.
    pub wibble_wobble: u32,
    /// `None` while dormant; else the time left until the enemy has spawned.
    pub waiting_to_spawn: Option<u64>,
}

/// The way a wandering enemy walks, given the value of its wander wave in
/// millionths: not at all while the wave is weaker than the threshold, else
/// the way of the wave's sign.
pub open spec fn spec_wander_direction(wave: i32) -> i32 {
    if -WANDER_THRESHOLD < wave < WANDER_THRESHOLD {
        0
    } else if wave > 0 {
        1
    } else {
        -1i32
    }
}

/// Tells which way a wandering enemy walks for a value of its wander wave.
pub fn wander_direction(wave: i32) -> (r: i32)
    ensures
        r == spec_wander_direction(wave),
        r == -1 || r == 0 || r == 1,
{
    if -WANDER_THRESHOLD < wave && wave < WANDER_THRESHOLD {
        0
    } else if wave > 0 {
        1
    } else {
        -1
    }
}

/// The way a chasing enemy walks: toward the player, unless the player is
/// within the dead zone. `gap` is the enemy's x minus the player's.
pub open spec fn spec_chase_direction(gap: int) -> i32 {
    if -CHASE_DEADZONE < gap < CHASE_DEADZONE {
        0
    } else if gap > 0 {
        -1i32
    } else {
        1
    }
}

/// A speed in the given direction (`-1`, `0` or `1`).
pub open spec fn spec_paced(direction: i32, speed: i32) -> i32 {
    if direction > 0 {
        speed
    } else if direction < 0 {
        clamp_i32(-speed) as i32
    } else {
        0
    }
}

fn paced(direction: i32, speed: i32) -> (r: i32)
    requires
        -1 <= direction <= 1,
    ensures
        r == spec_paced(direction, speed),
{
    if direction > 0 {
        speed
    } else if direction < 0 {
        saturate(-(speed as i64))
    } else {
        0
    }
}

/// Time an enemy takes from one waypoint to the next, given its speed in
/// thousandths of a waypoint per second.
pub open spec fn leg_time(speed: i32) -> int
    recommends
        speed > 0,
{
    1_000_000_000int / (speed as int)
}

/// Where an enemy on patrol is at `time`.
///
/// The enemy walks the waypoints in order, `leg_time` from each to the
/// next, and from the last back to the first. It set out from the waypoint
/// `start`, so several enemies on one path keep their distance.
pub open spec fn spec_path_position(path: Seq<Vec2>, time: u64, start: usize, speed: i32) -> Vec2
    recommends
        path.len() > 0,
        0 < speed <= 1_000_000_000,
{
    let leg = leg_time(speed);
    let along = (time + start * leg) % (path.len() * leg);
    let index = along / leg;
    path[index].spec_lerp(path[(index + 1) % (path.len() as int)], (along % leg) * 1_000_000 / leg)
}

/// Works out where an enemy on patrol is at `time`.
pub fn path_position(path: &Vec<Vec2>, time: u64, start: usize, speed: i32) -> (r: Vec2)
    requires
        path@.len() > 0,
        0 < speed <= 1_000_000_000,
    ensures
        r == spec_path_position(path@, time, start, speed),
{
    let leg: u128 = 1_000_000_000 / (speed as u128);
    let count: u128 = path.len() as u128;
    assert(1 <= leg <= 1_000_000_000) by (nonlinear_arith)
        requires
            0 < speed <= 1_000_000_000,
            leg == 1_000_000_000int / (speed as int),
    ;
    assert(0 <= start * leg <= 0xFFFF_FFFF_FFFF_FFFF * 1_000_000_000) by (nonlinear_arith)
        requires
            0 <= start <= 0xFFFF_FFFF_FFFF_FFFF,
            0 <= leg <= 1_000_000_000,
    ;
    assert(1 <= count * leg <= 0xFFFF_FFFF_FFFF_FFFF * 1_000_000_000) by (nonlinear_arith)
        requires
            1 <= count <= 0xFFFF_FFFF_FFFF_FFFF,
            1 <= leg <= 1_000_000_000,
    ;
    let along: u128 = (time as u128 + start as u128 * leg) % (count * leg);
    let index: u128 = along / leg;
    proof {
        assert(index < count) by (nonlinear_arith)
            requires
                along < count * leg,
                index == along as int / leg as int,
                leg >= 1,
        ;
    }
    let part: u128 = along % leg;
    let ratio: u128 = part * 1_000_000 / leg;
    proof {
        assert(ratio <= 1_000_000) by (nonlinear_arith)
            requires
                part < leg,
                ratio == part * 1_000_000 / (leg as int),
                leg >= 1,
        ;
    }
    let next: u128 = (index + 1) % count;
    path[index as usize].lerp(path[next as usize], ratio as i64)
}

impl Enemy {
    /// An enemy as the level places it: phase `phase` of its wandering,
    /// dormant if its kind starts out unspawned, live otherwise.
    pub open spec fn spec_new(data: LevelEnemyData, ty: &EnemyType, phase: u32) -> Enemy {
        Enemy {
            pos: data.pos,
            velocity: Vec2 { x: 0, y: 0 },
            ty: data.ty,
            path_index: data.path_index,
            time: 0,
            has_attacked: false,
            attack_time: data.attack_delay,
            death_frames: 0,
            wibble_wobble: phase,
            waiting_to_spawn: if ty.unspawned_clip.is_some() { None } else { Some(0) },
        }
    }

    /// Places an enemy as the level asks.
    pub fn new(data: LevelEnemyData, ty: &EnemyType, phase: u32) -> (r: Enemy)
        ensures
            r == Self::spec_new(data, ty, phase),
    {
        Enemy {
            pos: data.pos,
            velocity: Vec2 { x: 0, y: 0 },
            ty: data.ty,
            path_index: data.path_index,
            time: 0,
            has_attacked: false,
            attack_time: data.attack_delay,
            death_frames: 0,
            wibble_wobble: phase,
            waiting_to_spawn: if ty.unspawned_clip.is_some() { None } else { Some(0) },
        }
    }

    /// The enemy goes with its kind and its level: an enemy on patrol has a
    /// path, with waypoints, and a speed to walk it at.
    pub open spec fn fits(&self, ty: &EnemyType, level: &Level) -> bool {
        &&& ty.wf()
        &&& level.wf()
        &&& ty.movement_type is FollowPath ==> {
            &&& self.path_index.is_some()
            &&& self.path_index.unwrap().0 < level.enemy_paths@.len()
            &&& level.enemy_paths@[self.path_index.unwrap().0 as int]@.len() > 0
            &&& 0 < ty.speed <= 1_000_000_000
        }
    }

    /// The argument of the wander wave for a frame of `delta_time`: the
    /// enemy's time after the frame's step, plus its phase, in millionths
    /// (of a second, of a radian).
    pub fn wander_argument(&self, delta_time: u32) -> (r: u64)
        ensures
            r == spec_tick(spec_tick(self.time, delta_time), self.wibble_wobble),
    {
        tick(tick(self.time, delta_time), self.wibble_wobble)
    }

    /// Whether the enemy has not woken yet.
    pub open spec fn spec_dormant(&self) -> bool {
        self.waiting_to_spawn.is_none()
    }

    /// Whether the enemy is up and alive.
    pub open spec fn spec_live(&self) -> bool {
        self.death_frames == 0 && self.waiting_to_spawn == Some(0u64)
    }

    /// Position and velocity after the enemy's own movement, before physics.
    pub open spec fn spec_moved(&self, ty: &EnemyType, level: &Level, player_pos: Vec2, wave: i32) -> (Vec2, Vec2) {
        match ty.movement_type {
            MovementType::Still => (self.pos, self.velocity),
            MovementType::FollowPath => (
                spec_path_position(
                    level.enemy_paths@[self.path_index.unwrap().0 as int]@,
                    self.time,
                    self.path_index.unwrap().1,
                    ty.speed,
                ),
                self.velocity,
            ),
            MovementType::Wander => (
                self.pos,
                Vec2 { x: spec_paced(spec_wander_direction(wave), ty.speed), y: self.velocity.y },
            ),
            MovementType::Chase => (
                self.pos,
                Vec2 { x: spec_paced(spec_chase_direction(self.pos.x - player_pos.x), ty.speed), y: self.velocity.y },
            ),
        }
    }

    fn moved(&self, ty: &EnemyType, level: &Level, player_pos: Vec2, wave: i32) -> (r: (Vec2, Vec2))
        requires
            self.fits(ty, level),
        ensures
            r == self.spec_moved(ty, level, player_pos, wave),
    {
        match ty.movement_type {
            MovementType::Still => (self.pos, self.velocity),
            MovementType::FollowPath => {
                let (path, start) = self.path_index.unwrap();
                (path_position(&level.enemy_paths[path], self.time, start, ty.speed), self.velocity)
            },
            MovementType::Wander => (self.pos, Vec2 { x: paced(wander_direction(wave), ty.speed), y: self.velocity.y }),
            MovementType::Chase => {
                let gap: i64 = self.pos.x as i64 - player_pos.x as i64;
                let direction: i32 = if -(CHASE_DEADZONE as i64) < gap && gap < CHASE_DEADZONE as i64 {
                    0
                } else if gap > 0 {
                    -1
                } else {
                    1
                };
                (self.pos, Vec2 { x: paced(direction, ty.speed), y: self.velocity.y })
            },
        }
    }

    /// The projectile the enemy fires at a player at `player_pos`: toward the
    /// player, from beside the enemy where the kind of projectile asks for it.
    pub open spec fn spec_shot(&self, sprite: usize, player_pos: Vec2) -> Projectile {
        let left = self.pos.x > player_pos.x;
        spec_new(
            sprite,
            if !(sprite == 3 || sprite == 4) {
                Vec2 { x: clamp_i32(self.pos.x + if left { -4 * PIXEL } else { 12 * PIXEL }) as i32, y: self.pos.y }
            } else {
                self.pos
            },
            Vec2 { x: if left { (-UNIT) as i32 } else { UNIT }, y: 0 },
        )
    }

    fn shot(&self, sprite: usize, player_pos: Vec2) -> (r: Projectile)
        ensures
            r == self.spec_shot(sprite, player_pos),
    {
        let left: bool = self.pos.x > player_pos.x;
        let from: Vec2 = if Projectile::shoot_offset(sprite) {
            Vec2 { x: sat_add(self.pos.x, if left { -4 * PIXEL } else { 12 * PIXEL }), y: self.pos.y }
        } else {
            self.pos
        };
        Projectile::new(sprite, from, Vec2 { x: if left { -UNIT } else { UNIT }, y: 0 })
    }
}

impl Enemy {
    /// Length of the attack clip of the enemy's kind, as a time; zero for a kind without one.
    pub open spec fn spec_attack_clip_time(ty: &EnemyType) -> int {
        match ty.attack_clip {
            Some(clip) => ty.animation.animations@[clip as int].total_length * 1000,
            None => 0,
        }
    }

    /// Enemy, player and the shot fired after the enemy's attack rules.
    ///
    /// Between attacks, and only while the player lives, an attack begins: a
    /// melee enemy kills a player within reach at once; one that shoots
    /// starts its attack timer, and fires now if its kind fires first. During
    /// an attack the timer runs; a kind that fires afterwards does so once,
    /// when the attack clip has played; the attack ends when the pause after
    /// the clip is over.
    pub open spec fn spec_attack(&self, ty: &EnemyType, player: Player, delta_time: u32) -> (Enemy, Player, Option<Projectile>) {
        if self.attack_time == 0 {
            if player.death.is_none() {
                match ty.attack_type {
                    AttackType::Unarmed => (*self, player, None),
                    AttackType::Melee => (
                        *self,
                        if dist_sq(player.pos, self.pos) < MELEE_REACH * MELEE_REACH {
                            player.spec_kill(DEATH_BY_MELEE, true)
                        } else {
                            player
                        },
                        None,
                    ),
                    AttackType::ShootAfter(_) => (Enemy { attack_time: spec_tick(0, delta_time), ..*self }, player, None),
                    AttackType::Shoot(sprite) => (
                        Enemy { attack_time: spec_tick(0, delta_time), ..*self },
                        player,
                        Some(self.spec_shot(sprite, player.pos)),
                    ),
                }
            } else {
                (*self, player, None)
            }
        } else {
            let t = spec_tick(self.attack_time, delta_time);
            let played = t >= Self::spec_attack_clip_time(ty);
            let over = t >= Self::spec_attack_clip_time(ty) + ty.attack_delay;
            let fires = played && !self.has_attacked && ty.attack_type is ShootAfter;
            (
                Enemy { attack_time: if over { 0 } else { t }, has_attacked: !over && (self.has_attacked || fires), ..*self },
                player,
                if fires { Some(self.spec_shot(ty.attack_type->ShootAfter_0, player.pos)) } else { None },
            )
        }
    }

    fn attack(&mut self, ty: &EnemyType, player: &mut Player, delta_time: u32) -> (r: Option<Projectile>)
        requires
            ty.wf(),
        ensures
            *final(self) == old(self).spec_attack(ty, *old(player), delta_time).0,
            *final(player) == old(self).spec_attack(ty, *old(player), delta_time).1,
            r == old(self).spec_attack(ty, *old(player), delta_time).2,
    {
        if self.attack_time == 0 {
            if player.death.is_none() {
                match ty.attack_type {
                    AttackType::Unarmed => None,
                    AttackType::Melee => {
                        if player.pos.closer_than(self.pos, MELEE_REACH) {
                            player.kill(DEATH_BY_MELEE, true);
                        }
                        None
                    },
                    AttackType::ShootAfter(_) => {
                        self.attack_time = tick(0, delta_time);
                        None
                    },
                    AttackType::Shoot(sprite) => {
                        self.attack_time = tick(0, delta_time);
                        Some(self.shot(sprite, player.pos))
                    },
                }
            } else {
                None
            }
        } else {
            let t: u64 = tick(self.attack_time, delta_time);
            let clip_time: u128 = match ty.attack_clip {
                Some(clip) => ty.animation.animations[clip].total_length as u128 * 1000,
                None => 0,
            };
            let played: bool = t as u128 >= clip_time;
            let over: bool = t as u128 >= clip_time + ty.attack_delay as u128;
            let shot: Option<Projectile> = match ty.attack_type {
                AttackType::ShootAfter(sprite) => if played && !self.has_attacked {
                    Some(self.shot(sprite, player.pos))
                } else {
                    None
                },
                _ => None,
            };
            self.has_attacked = !over && (self.has_attacked || shot.is_some());
            self.attack_time = if over { 0 } else { t };
            shot
        }
    }

    /// Whether `projectile` strikes the enemy: it is the player's, deadly,
    /// stopped by what it meets, and the enemy lies in the box around it.
    pub open spec fn spec_struck_by(&self, projectile: Projectile) -> bool {
        &&& projectile.friendly
        &&& projectile.spec_can_kill()
        &&& !projectile.spec_passes_through()
        &&& projectile.pos.x - 4 * PIXEL <= self.pos.x + 4 * PIXEL < projectile.pos.x + 4 * PIXEL
        &&& projectile.pos.y - 8 * PIXEL <= self.pos.y < projectile.pos.y + 4 * PIXEL
    }

    /// The first projectile at or after `from` that strikes the enemy.
    pub open spec fn spec_first_hit(&self, projectiles: Seq<Projectile>, from: int) -> Option<int>
        decreases projectiles.len() - from,
    {
        if from < 0 || from >= projectiles.len() {
            None
        } else if self.spec_struck_by(projectiles[from]) {
            Some(from)
        } else {
            self.spec_first_hit(projectiles, from + 1)
        }
    }

    /// The projectiles after the enemy has been tested against them: the
    /// first one that strikes is spent, if its kind is spent by a kill.
    pub open spec fn spec_spent(&self, projectiles: Seq<Projectile>) -> Seq<Projectile> {
        match self.spec_first_hit(projectiles, 0) {
            Some(i) => projectiles.update(
                i,
                Projectile { dead: projectiles[i].dead || projectiles[i].spec_should_die_on_kill(), ..projectiles[i] },
            ),
            None => projectiles,
        }
    }

    fn struck_by(&self, projectile: &Projectile) -> (r: bool)
        ensures
            r == self.spec_struck_by(*projectile),
    {
        let px: i64 = projectile.pos.x as i64;
        let py: i64 = projectile.pos.y as i64;
        let middle: i64 = self.pos.x as i64 + 4 * PIXEL as i64;
        let height: i64 = self.pos.y as i64;
        projectile.friendly && projectile.can_kill() && !projectile.passes_through() && px - 4 * PIXEL as i64 <= middle
            && middle < px + 4 * PIXEL as i64 && py - 8 * PIXEL as i64 <= height && height < py + 4 * PIXEL as i64
    }

    /// Tests a living enemy against the projectiles. Returns whether it was struck.
    fn take_hit(&self, projectiles: &mut Vec<Projectile>) -> (r: bool)
        ensures
            r == self.spec_first_hit(old(projectiles)@, 0).is_some(),
            final(projectiles)@ == self.spec_spent(old(projectiles)@),
    {
        let mut i: usize = 0;
        while i < projectiles.len()
            invariant
                0 <= i <= projectiles@.len(),
                projectiles@ == old(projectiles)@,
                self.spec_first_hit(projectiles@, 0) == self.spec_first_hit(projectiles@, i as int),
            decreases projectiles@.len() - i,
        {
            if self.struck_by(&projectiles[i]) {
                let hit: Projectile = projectiles[i];
                projectiles[i] = Projectile { dead: hit.dead || hit.should_die_on_kill(), ..hit };
                return true;
            }
            i = i + 1;
        }
        false
    }
}

impl Enemy {
    /// How long the spawning clip of the enemy's kind plays; zero for a kind without one.
    pub open spec fn spec_spawn_time(ty: &EnemyType) -> u64 {
        match ty.spawning_clip {
            Some(clip) => (ty.animation.animations@[clip as int].total_length * 1000) as u64,
            None => 0,
        }
    }

    fn spawn_time(ty: &EnemyType) -> (r: u64)
        requires
            ty.wf(),
        ensures
            r == Self::spec_spawn_time(ty),
    {
        match ty.spawning_clip {
            Some(clip) => ty.animation.animations[clip].total_length as u64 * 1000,
            None => 0,
        }
    }

    /// Enemy, player and shot after the enemy has acted for a frame, before
    /// anything can strike it.
    ///
    /// A dormant enemy wakes when the player comes within `WAKE_DISTANCE`
    /// and then takes the time of its spawning clip to appear. A live enemy
    /// moves as its kind does, attacks, and is carried through the level as
    /// a tall body.
    pub open spec fn spec_acted(&self, player: Player, ty: &EnemyType, level: &Level, delta_time: u32, wave: i32) -> (Enemy, Player, Option<Projectile>) {
        let aged = Enemy { time: spec_tick(self.time, delta_time), ..*self };
        match self.waiting_to_spawn {
            None => (
                if dist_sq(self.pos, player.pos) < WAKE_DISTANCE * WAKE_DISTANCE {
                    Enemy { waiting_to_spawn: Some(Self::spec_spawn_time(ty)), ..aged }
                } else {
                    aged
                },
                player,
                None,
            ),
            Some(left) => if left > 0 {
                (
                    Enemy { waiting_to_spawn: Some(if left > delta_time { (left - delta_time) as u64 } else { 0 }), ..aged },
                    player,
                    None,
                )
            } else {
                let moved = aged.spec_moved(ty, level, player.pos, wave);
                let attacked = (Enemy { pos: moved.0, velocity: moved.1, ..aged }).spec_attack(ty, player, delta_time);
                let step = spec_step(attacked.0.pos, attacked.0.velocity, delta_time, level, true, false);
                (Enemy { pos: step.pos, velocity: step.velocity, ..attacked.0 }, attacked.1, attacked.2)
            },
        }
    }

    fn act(&mut self, player: &mut Player, ty: &EnemyType, level: &Level, delta_time: u32, wave: i32) -> (r: Option<Projectile>)
        requires
            old(self).fits(ty, level),
        ensures
            *final(self) == old(self).spec_acted(*old(player), ty, level, delta_time, wave).0,
            *final(player) == old(self).spec_acted(*old(player), ty, level, delta_time, wave).1,
            r == old(self).spec_acted(*old(player), ty, level, delta_time, wave).2,
            final(self).path_index == old(self).path_index,
    {
        self.time = tick(self.time, delta_time);
        match self.waiting_to_spawn {
            None => {
                if self.pos.closer_than(player.pos, WAKE_DISTANCE) {
                    self.waiting_to_spawn = Some(Self::spawn_time(ty));
                }
                None
            },
            Some(left) => {
                if left > 0 {
                    self.waiting_to_spawn = Some(if left > delta_time as u64 { left - delta_time as u64 } else { 0 });
                    None
                } else {
                    let (pos, velocity) = self.moved(ty, level, player.pos, wave);
                    self.pos = pos;
                    self.velocity = velocity;
                    let shot: Option<Projectile> = self.attack(ty, player, delta_time);
                    let mut carried: Vec2 = self.velocity;
                    let (settled, _, _, _) = update_physicsbody(self.pos, &mut carried, delta_time, level, true, false);
                    self.pos = settled;
                    self.velocity = carried;
                    shot
                }
            },
        }
    }

    /// Enemy, player, projectiles and verdict after one frame. The verdict
    /// says whether the enemy stays in the list.
    ///
    /// A dead enemy only fades, and leaves once the blood clip has played.
    /// Any other acts (see `spec_acted`), and its shot joins the projectiles.
    /// Unless it is still dormant it is then tested against the projectiles:
    /// struck, it begins to die.
    pub open spec fn spec_update(
        &self,
        player: Player,
        projectiles: Seq<Projectile>,
        assets: &Assets,
        ty: &EnemyType,
        level: &Level,
        delta_time: u32,
        wave: i32,
    ) -> (Enemy, Player, Seq<Projectile>, bool) {
        if self.death_frames > 0 {
            let fading = Enemy { death_frames: spec_tick(self.death_frames, delta_time), time: 0, ..*self };
            (fading, player, projectiles, fading.death_frames <= assets.blood.total_length * 1000)
        } else {
            let acted = self.spec_acted(player, ty, level, delta_time, wave);
            let fired = match acted.2 {
                Some(shot) => projectiles.push(shot),
                None => projectiles,
            };
            if acted.0.waiting_to_spawn.is_none() {
                (acted.0, acted.1, fired, true)
            } else {
                (
                    Enemy {
                        death_frames: if acted.0.spec_first_hit(fired, 0).is_some() { spec_tick(0, delta_time) } else { 0 },
                        ..acted.0
                    },
                    acted.1,
                    acted.0.spec_spent(fired),
                    true,
                )
            }
        }
    }

    /// Advances the enemy by one frame. `wave` is the value of the wander
    /// wave at `wander_argument(delta_time)`, in millionths. Returns whether the enemy
    /// stays in the list.
    pub fn update(
        &mut self,
        player: &mut Player,
        projectiles: &mut Vec<Projectile>,
        assets: &Assets,
        ty: &EnemyType,
        level: &Level,
        delta_time: u32,
        wave: i32,
    ) -> (r: bool)
        requires
            old(self).fits(ty, level),
            assets.wf(),
        ensures
            *final(self) == old(self).spec_update(*old(player), old(projectiles)@, assets, ty, level, delta_time, wave).0,
            *final(player) == old(self).spec_update(*old(player), old(projectiles)@, assets, ty, level, delta_time, wave).1,
            final(projectiles)@ == old(self).spec_update(*old(player), old(projectiles)@, assets, ty, level, delta_time, wave).2,
            r == old(self).spec_update(*old(player), old(projectiles)@, assets, ty, level, delta_time, wave).3,
            final(self).fits(ty, level),
            ty.movement_type is Wander && old(self).spec_live() ==> final(self).velocity.x == 0
                || final(self).velocity.x == ty.speed || final(self).velocity.x == clamp_i32(-ty.speed),
    {
        if self.death_frames > 0 {
            self.death_frames = tick(self.death_frames, delta_time);
            self.time = 0;
            return self.death_frames as u128 <= assets.blood.total_length as u128 * 1000;
        }
        let shot: Option<Projectile> = self.act(player, ty, level, delta_time, wave);
        match shot {
            Some(shot) => {
                projectiles.push(shot);
            },
            None => {},
        }
        if self.waiting_to_spawn.is_some() {
            if self.take_hit(projectiles) {
                self.death_frames = tick(0, delta_time);
            }
        }
        true
    }

    /// Which clip the enemy shows, and how far into it; `None` if it shows nothing.
    ///
    /// A dormant enemy shows the first frame of its unspawned clip, if its
    /// kind has one. A spawning enemy shows its spawning clip; an attacking
    /// one its attack clip, while that plays; any other the moving clip if it
    /// patrols or moves faster than `MOVING_SPEED`, else the idle clip.
    pub open spec fn spec_animation(&self, ty: &EnemyType) -> Option<(usize, u64)> {
        match self.waiting_to_spawn {
            None => match ty.unspawned_clip {
                Some(clip) => Some((clip, 0u64)),
                None => None,
            },
            Some(left) => if left > 0 && ty.spawning_clip.is_some() {
                Some(
                    (
                        ty.spawning_clip.unwrap(),
                        if Self::spec_spawn_time(ty) > left { (Self::spec_spawn_time(ty) - left) as u64 } else { 0 },
                    ),
                )
            } else if self.attack_time > 0 && ty.attack_clip.is_some() && self.attack_time < Self::spec_attack_clip_time(ty) {
                Some((ty.attack_clip.unwrap(), self.attack_time))
            } else if ty.movement_type is FollowPath || self.velocity.x > MOVING_SPEED || self.velocity.x < -MOVING_SPEED {
                Some((CLIP_MOVING, self.time))
            } else {
                Some((CLIP_IDLE, self.time))
            },
        }
    }

    /// Tells which clip the enemy shows, and how far into it.
    pub fn animation(&self, ty: &EnemyType) -> (r: Option<(usize, u64)>)
        requires
            ty.wf(),
        ensures
            r == self.spec_animation(ty),
            r.is_some() ==> r.unwrap().0 < ty.animation.animations@.len(),
    {
        match self.waiting_to_spawn {
            None => match ty.unspawned_clip {
                Some(clip) => Some((clip, 0u64)),
                None => None,
            },
            Some(left) => {
                let attack_time: u128 = match ty.attack_clip {
                    Some(clip) => ty.animation.animations[clip].total_length as u128 * 1000,
                    None => 0,
                };
                if left > 0 && ty.spawning_clip.is_some() {
                    let whole: u64 = Self::spawn_time(ty);
                    Some((ty.spawning_clip.unwrap(), if whole > left { whole - left } else { 0 }))
                } else if self.attack_time > 0 && ty.attack_clip.is_some() && (self.attack_time as u128) < attack_time {
                    Some((ty.attack_clip.unwrap(), self.attack_time))
                } else if matches!(ty.movement_type, MovementType::FollowPath) || self.velocity.x > MOVING_SPEED
                    || self.velocity.x < -MOVING_SPEED {
                    Some((CLIP_MOVING, self.time))
                } else {
                    Some((CLIP_IDLE, self.time))
                }
            },
        }
    }
}

/// The enemies of a level, each with a wander phase of its own, drawn at random.
pub fn load_enemies(level: &Level, catalog: &Vec<EnemyType>) -> (r: Vec<Enemy>)
    requires
        forall|i: int| 0 <= i < level.enemies@.len() ==> (#[trigger] level.enemies@[i]).ty < catalog@.len(),
    ensures
        r@.len() == level.enemies@.len(),
        forall|i: int|
            0 <= i < r@.len() ==> {
                &&& (#[trigger] r@[i]).wibble_wobble <= FULL_TURN
                &&& r@[i] == Enemy::spec_new(level.enemies@[i], &catalog@[level.enemies@[i].ty as int], r@[i].wibble_wobble)
            },
{
    let mut enemies: Vec<Enemy> = Vec::new();
    let mut i: usize = 0;
    while i < level.enemies.len()
        invariant
            0 <= i <= level.enemies@.len(),
            enemies@.len() == i,
            forall|j: int| 0 <= j < level.enemies@.len() ==> (#[trigger] level.enemies@[j]).ty < catalog@.len(),
            forall|j: int|
                0 <= j < i ==> {
                    &&& (#[trigger] enemies@[j]).wibble_wobble <= FULL_TURN
                    &&& enemies@[j] == Enemy::spec_new(
                        level.enemies@[j],
                        &catalog@[level.enemies@[j].ty as int],
                        enemies@[j].wibble_wobble,
                    )
                },
        decreases level.enemies@.len() - i,
    {
        let data: LevelEnemyData = level.enemies[i];
        let phase: i32 = random_between(0, FULL_TURN);
        enemies.push(Enemy::new(data, &catalog[data.ty], phase as u32));
        i = i + 1;
    }
    enemies
}

fn same_clip(a: Option<usize>, b: Option<usize>) -> (r: bool)
    ensures
        r == (a == b),
{
    match (a, b) {
        (Some(x), Some(y)) => x == y,
        (None, None) => true,
        _ => false,
    }
}

/// Looking a name up gives one answer: what looks like the answer is the answer.
pub proof fn lemma_names_one(group: AnimationsGroup, name: Seq<char>, found: Option<usize>, other: Option<usize>)
    requires
        names(group, name, found),
    ensures
        names(group, name, other) <==> other == found,
{
    if names(group, name, other) {
        match (found, other) {
            (Some(a), Some(b)) => {
                assert(group.tag_names@[a as int]@ == name);
                assert(group.tag_names@[b as int]@ == name);
                if a < b {
                    assert(group.tag_names@[b as int]@ != name);
                } else if b < a {
                    assert(group.tag_names@[a as int]@ != name);
                }
            },
            (Some(a), None) => {
                assert(group.tag_names@[a as int]@ == name);
            },
            (None, Some(b)) => {
                assert(group.tag_names@[b as int]@ == name);
            },
            (None, None) => {},
        }
    }
}

/// `found` is what looking `name` up in `group` gives: the place of the
/// last tag so called, or nothing if no tag is.
pub open spec fn names(group: AnimationsGroup, name: Seq<char>, found: Option<usize>) -> bool {
    match found {
        Some(index) => group.is_tag(name, index as int),
        None => !group.has_tag(name),
    }
}

/// A wandering enemy stands still or walks at the speed of its kind, one
/// way or the other; it stands still exactly while the wave is weaker than
/// the threshold.
pub proof fn lemma_wander_speeds(wave: i32, speed: i32)
    ensures
        spec_paced(spec_wander_direction(wave), speed) == 0 || spec_paced(spec_wander_direction(wave), speed) == speed
            || spec_paced(spec_wander_direction(wave), speed) == clamp_i32(-speed),
        -WANDER_THRESHOLD < wave < WANDER_THRESHOLD ==> spec_paced(spec_wander_direction(wave), speed) == 0,
        wave >= WANDER_THRESHOLD ==> spec_paced(spec_wander_direction(wave), speed) == speed,
        wave <= -WANDER_THRESHOLD ==> spec_paced(spec_wander_direction(wave), speed) == clamp_i32(-speed),
{
}

/// Opposite waves send a wandering enemy opposite ways: over a wave that
/// is as often and as far above nought as below, the enemy does not drift.
pub proof fn lemma_wander_is_odd(wave: i32)
    requires
        wave > i32::MIN,
    ensures
        spec_wander_direction((-wave) as i32) == -spec_wander_direction(wave),
{
}

} // verus!
