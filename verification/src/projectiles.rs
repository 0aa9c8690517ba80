//! Projectiles: what each kind does, how it moves, when it dies and what it
//! leaves behind.

use vstd::prelude::*;
use crate::assets::Level;
use crate::fixed::{
    Vec2, TILE, advance, clamp_i16, clamp_i32, dist_sq, floor_div, lerp, sat_add, saturate,
    saturate_cell, spec_advance, spec_lerp, spec_tick, tick, tile_floor, trunc_div,
};
use crate::player::physics::{spec_step, update_physicsbody};
use crate::utils::{COLLISION_LAYER, GRAVITY};

verus! {

/// The player's own shot.
pub const PLAYER_SHOT: usize = 0;

/// A thrown carrier: it falls, lands, and bursts into a hazard.
pub const THROWN: usize = 2;

/// The stationary hazard that a thrown carrier leaves behind.
pub const HAZARD: usize = 3;

/// A beam that stands still and reaches upward.
pub const RAY: usize = 4;

/// One unit of direction: a direction vector of this length is a unit vector.
pub const UNIT: i32 = 1000;

/// How fast a projectile on the ground loses its horizontal speed, per second.
pub const FRICTION: i32 = 2;

/// Heights, below the projectile's position, at which it probes for walls.
pub const WALL_PROBE_HIGH: i32 = 2000;

pub const WALL_PROBE_LOW: i32 = 6000;

/// The farthest a ray reaches, in tiles.
pub const MAX_RAY_TILES: u32 = 32;

/// How far outside the grid of a level a projectile may fly before it is gone.
pub const WORLD_MARGIN: i32 = 256_000;

/// Offset from the corner of the player's cell to the player's middle.
pub const BODY_CENTRE: i32 = 4000;

/// Something in flight: a shot, a thrown carrier, the hazard it leaves, a ray.
#[derive(Clone, Copy, Debug, PartialEq, Eq, Structural)]
pub struct Projectile {
    pub pos: Vec2,
    /// Velocity: the direction it was fired in, scaled by the speed of its kind.
    pub direction: Vec2,
    pub type_index: usize,
    /// Time since it was fired.
    pub time: u64,
    /// Whether the player fired it.
    pub friendly: bool,
    /// Set when the projectile is spent; the owner of the list removes it.
    pub dead: bool,
}

/// Speed of each kind of projectile.
pub open spec fn spec_base_speed(type_index: usize) -> i32 {
    if type_index == 1 || type_index == 2 {
        102_400
    } else if type_index == 3 || type_index == 4 {
        0
    } else {
        128_000
    }
}

/// How long each kind lives; zero means until something else ends it.
pub open spec fn spec_lifetime(type_index: usize) -> u64 {
    if type_index == 2 {
        1_000_000
    } else if type_index == 3 {
        500_000
    } else if type_index == 4 {
        1_000_000
    } else {
        0
    }
}

/// Radius within which each kind hits.
pub open spec fn spec_collision_size(type_index: usize) -> u32 {
    if type_index == 3 {
        17_000
    } else {
        8_000
    }
}

/// A direction scaled to a speed: each component times `speed / UNIT`, rounded toward zero.
pub open spec fn scaled(direction: Vec2, speed: i32) -> Vec2 {
    Vec2 {
        x: clamp_i32(trunc_div(direction.x * speed, UNIT as int)) as i32,
        y: clamp_i32(trunc_div(direction.y * speed, UNIT as int)) as i32,
    }
}

fn scale_component(component: i32, speed: i32) -> (r: i32)
    ensures
        r == clamp_i32(trunc_div(component * speed, UNIT as int)),
{
    assert(-0x8000_0000 * 0x8000_0000 <= component * speed <= 0x8000_0000 * 0x8000_0000)
        by (nonlinear_arith)
        requires
            -0x8000_0000 <= component <= 0x8000_0000,
            -0x8000_0000 <= speed <= 0x8000_0000,
    ;
    saturate((component as i64 * speed as i64) / (UNIT as i64))
}

/// A projectile as it is at the moment it is fired.
pub open spec fn spec_new(type_index: usize, pos: Vec2, direction: Vec2) -> Projectile {
    Projectile {
        pos,
        direction: scaled(direction, spec_base_speed(type_index)),
        type_index,
        time: 0,
        friendly: type_index == PLAYER_SHOT,
        dead: false,
    }
}

/// Whether the collision layer holds a tile at the cell of the point `(x, y)`.
pub open spec fn wall_at(level: &Level, x: i32, y: int) -> bool {
    level.tile_at(
        clamp_i16(floor_div(x as int, TILE as int)),
        clamp_i16(floor_div(clamp_i32(y), TILE as int)),
    )[COLLISION_LAYER as int] != 0
}

/// Whether a projectile at `pos` touches a wall: at either probe height.
pub open spec fn touches_wall(level: &Level, pos: Vec2) -> bool {
    wall_at(level, pos.x, pos.y + WALL_PROBE_HIGH) || wall_at(level, pos.x, pos.y + WALL_PROBE_LOW)
}

/// Whether `pos` lies farther than `WORLD_MARGIN` outside the grid of `level`.
pub open spec fn left_world(level: &Level, pos: Vec2) -> bool {
    ||| pos.x < level.min_x * TILE - WORLD_MARGIN
    ||| pos.x > (level.min_x + level.width) * TILE + WORLD_MARGIN
    ||| pos.y < level.min_y * TILE - WORLD_MARGIN
    ||| pos.y > (level.min_y + level.height) * TILE + WORLD_MARGIN
}

/// Tells whether `pos` lies farther than `WORLD_MARGIN` outside the grid of `level`.
pub fn has_left_world(level: &Level, pos: Vec2) -> (r: bool)
    ensures
        r == left_world(level, pos),
{
    let left: i128 = level.min_x as i128 * TILE as i128;
    let top: i128 = level.min_y as i128 * TILE as i128;
    let right: i128 = (level.min_x as i128 + level.width as i128) * TILE as i128;
    let bottom: i128 = (level.min_y as i128 + level.height as i128) * TILE as i128;
    let x: i128 = pos.x as i128;
    let y: i128 = pos.y as i128;
    x < left - WORLD_MARGIN as i128 || x > right + WORLD_MARGIN as i128 || y < top - WORLD_MARGIN as i128 || y > bottom
        + WORLD_MARGIN as i128
}

/// How many cells straight above the cell of `pos` are free of tiles, counting
/// upward until the first tile, at most `limit`.
pub open spec fn clear_above(level: &Level, pos: Vec2, limit: nat) -> nat
    decreases limit,
{
    if limit == 0 {
        0
    } else {
        let below = clear_above(level, pos, (limit - 1) as nat);
        if below == limit - 1 && level.tile_at(
            clamp_i16(floor_div(pos.x as int, TILE as int)),
            clamp_i16(floor_div(pos.y as int, TILE as int) - limit),
        )[COLLISION_LAYER as int] == 0 {
            limit
        } else {
            below
        }
    }
}

impl Projectile {
    pub open spec fn spec_is_ray(&self) -> bool {
        self.type_index == RAY
    }

    pub open spec fn spec_is_physics_based(&self) -> bool {
        self.type_index == THROWN
    }

    pub open spec fn spec_passes_through(&self) -> bool {
        self.type_index == HAZARD || self.type_index == RAY
    }

    pub open spec fn spec_can_kill(&self) -> bool {
        self.type_index != THROWN
    }

    pub open spec fn spec_should_die_on_kill(&self) -> bool {
        !(self.type_index == HAZARD || self.type_index == RAY)
    }

    pub open spec fn spec_payload(&self) -> Option<Projectile> {
        if self.type_index == THROWN {
            Some(spec_new(HAZARD, self.pos, Vec2 { x: 0, y: 0 }))
        } else {
            None
        }
    }

    /// Whether the projectile has outlived its kind's lifetime.
    pub open spec fn spec_timed_out(&self) -> bool {
        spec_lifetime(self.type_index) > 0 && self.time >= spec_lifetime(self.type_index)
    }

    /// Position and velocity after `delta_time`, before anything can end the projectile.
    ///
    /// A ray stays put. A physics-based projectile gains gravity, moves as a
    /// body does, and on the ground loses horizontal speed to friction.
    /// Every other projectile flies straight.
    pub open spec fn spec_moved(&self, delta_time: u32, level: &Level) -> (Vec2, Vec2) {
        if self.spec_is_ray() {
            (self.pos, self.direction)
        } else if self.spec_is_physics_based() {
            let falling = Vec2 { x: self.direction.x, y: spec_advance(self.direction.y, GRAVITY, delta_time) };
            let step = spec_step(self.pos, falling, delta_time, level, false, false);
            if step.grounded {
                (step.pos, Vec2 { x: spec_lerp(step.velocity.x, 0, FRICTION * delta_time), y: step.velocity.y })
            } else {
                (step.pos, step.velocity)
            }
        } else {
            (
                Vec2 {
                    x: spec_advance(self.pos.x, self.direction.x, delta_time),
                    y: spec_advance(self.pos.y, self.direction.y, delta_time),
                },
                self.direction,
            )
        }
    }

    /// Whether the walls of `level` end a projectile that has moved to `pos`.
    pub open spec fn spec_stopped_by_wall(&self, level: &Level, pos: Vec2) -> bool {
        !self.spec_is_ray() && !self.spec_is_physics_based() && !self.spec_passes_through()
            && touches_wall(level, pos)
    }

    /// The projectile one frame later. A dead projectile does not change.
    /// A living one moves and ages; it dies when it has outlived its
    /// lifetime, when a wall stops it, or when it has left the world.
    pub open spec fn spec_update(&self, delta_time: u32, level: &Level) -> Projectile {
        if self.dead {
            *self
        } else {
            let moved = self.spec_moved(delta_time, level);
            let aged = Projectile { pos: moved.0, direction: moved.1, time: spec_tick(self.time, delta_time), ..*self };
            Projectile {
                dead: aged.spec_timed_out() || self.spec_stopped_by_wall(level, moved.0) || left_world(level, moved.0),
                ..aged
            }
        }
    }

    /// What a projectile that dies in this frame leaves behind.
    pub open spec fn spec_spawned(&self, delta_time: u32, level: &Level) -> Seq<Projectile> {
        let after = self.spec_update(delta_time, level);
        if !self.dead && after.dead && after.spec_payload().is_some() {
            seq![after.spec_payload().unwrap()]
        } else {
            Seq::empty()
        }
    }

    /// Whether the projectile reaches a player whose cell has its corner at `player_pos`.
    ///
    /// A ray covers the column above its foot as far as it is clear, and
    /// nothing below the foot: a span of as many tiles as it counts clear.
    /// Any other projectile reaches as far as its collision size, from the
    /// player's middle.
    pub open spec fn spec_hits(&self, player_pos: Vec2, level: &Level) -> bool {
        let middle = Vec2 {
            x: clamp_i32(player_pos.x + BODY_CENTRE) as i32,
            y: clamp_i32(player_pos.y + BODY_CENTRE) as i32,
        };
        let size = spec_collision_size(self.type_index);
        if self.spec_is_ray() {
            let span = clear_above(level, self.pos, MAX_RAY_TILES as nat) * TILE;
            &&& self.pos.x - size < middle.x && middle.x < self.pos.x + size
            &&& self.pos.y - span <= middle.y && middle.y <= self.pos.y
        } else {
            dist_sq(middle, self.pos) < size * size
        }
    }

    /// Fires a projectile of kind `type_index` from `pos`. `direction` is in
    /// thousandths: `(1000, 0)` flies right at the full speed of the kind.
    pub fn new(type_index: usize, pos: Vec2, direction: Vec2) -> (r: Projectile)
        ensures
            r == spec_new(type_index, pos, direction),
    {
        let speed: i32 = Self::base_speed(type_index);
        Projectile {
            pos,
            direction: Vec2 { x: scale_component(direction.x, speed), y: scale_component(direction.y, speed) },
            type_index,
            time: 0,
            friendly: type_index == PLAYER_SHOT,
            dead: false,
        }
    }

    /// Whether the projectile is a ray: it stands still and reaches upward.
    pub fn is_ray(&self) -> (r: bool)
        ensures
            r == self.spec_is_ray(),
    {
        self.type_index == RAY
    }

    /// Whether a projectile of this kind is fired from beside its shooter
    /// rather than from the shooter's own position.
    pub fn shoot_offset(type_index: usize) -> (r: bool)
        ensures
            r == !(type_index == HAZARD || type_index == RAY),
    {
        !(type_index == HAZARD || type_index == RAY)
    }

    /// The speed of a kind of projectile.
    pub fn base_speed(type_index: usize) -> (r: i32)
        ensures
            r == spec_base_speed(type_index),
    {
        if type_index == 1 || type_index == 2 {
            102_400
        } else if type_index == 3 || type_index == 4 {
            0
        } else {
            128_000
        }
    }

    /// Whether the projectile falls and lands as a body does.
    pub fn is_physics_based(&self) -> (r: bool)
        ensures
            r == self.spec_is_physics_based(),
    {
        self.type_index == THROWN
    }

    /// Whether the projectile passes through what it meets: walls do not stop it, and it does not strike enemies.
    pub fn passes_through(&self) -> (r: bool)
        ensures
            r == self.spec_passes_through(),
    {
        self.type_index == HAZARD || self.type_index == RAY
    }

    /// The projectile that takes this one's place when it dies.
    pub fn get_payload(&self) -> (r: Option<Projectile>)
        ensures
            r == self.spec_payload(),
    {
        if self.type_index == THROWN {
            Some(Projectile::new(HAZARD, self.pos, Vec2 { x: 0, y: 0 }))
        } else {
            None
        }
    }

    /// The radius within which the projectile hits.
    pub fn get_collision_size(&self) -> (r: u32)
        ensures
            r == spec_collision_size(self.type_index),
    {
        if self.type_index == HAZARD {
            17_000
        } else {
            8_000
        }
    }

    /// Whether contact with this projectile is deadly.
    pub fn can_kill(&self) -> (r: bool)
        ensures
            r == self.spec_can_kill(),
    {
        self.type_index != THROWN
    }

    /// Whether the projectile is spent once it has killed.
    pub fn should_die_on_kill(&self) -> (r: bool)
        ensures
            r == self.spec_should_die_on_kill(),
    {
        !(self.type_index == HAZARD || self.type_index == RAY)
    }

    /// Which of the player's death animations this projectile causes.
    pub fn player_death_animation(&self) -> (r: usize)
        ensures
            r == if self.type_index == RAY { 2usize } else { 0usize },
    {
        if self.type_index == RAY {
            2
        } else {
            0
        }
    }

    /// How long the projectile lives; zero if nothing but the world ends it.
    pub fn get_lifetime(&self) -> (r: u64)
        ensures
            r == spec_lifetime(self.type_index),
    {
        if self.type_index == 2 {
            1_000_000
        } else if self.type_index == 3 {
            500_000
        } else if self.type_index == 4 {
            1_000_000
        } else {
            0
        }
    }

    /// Whether the projectile has outlived its lifetime: its kind has one,
    /// and the projectile's age has reached it.
    pub fn timed_out(&self) -> (r: bool)
        ensures
            r == self.spec_timed_out(),
    {
        let lifetime: u64 = self.get_lifetime();
        lifetime > 0 && self.time >= lifetime
    }

    /// How many tiles the ray reaches upward: the free cells above its own,
    /// up to the first tile.
    pub fn clear_tiles(&self, level: &Level) -> (r: u32)
        requires
            level.wf(),
        ensures
            r == clear_above(level, self.pos, MAX_RAY_TILES as nat),
            r <= MAX_RAY_TILES,
    {
        let column: i16 = saturate_cell(tile_floor(self.pos.x));
        let row: i32 = tile_floor(self.pos.y);
        let mut count: u32 = 0;
        while count < MAX_RAY_TILES
            invariant
                level.wf(),
                0 <= count <= MAX_RAY_TILES,
                column == clamp_i16(floor_div(self.pos.x as int, TILE as int)),
                row == floor_div(self.pos.y as int, TILE as int),
                count == clear_above(level, self.pos, count as nat),
            decreases MAX_RAY_TILES - count,
        {
            let cell: [u16; 4] = level.get_tile(column, saturate_cell(row - (count as i32 + 1)));
            if cell[COLLISION_LAYER] != 0 {
                proof {
                    lemma_clear_above_stops(level, self.pos, count as nat, MAX_RAY_TILES as nat);
                }
                return count;
            }
            count = count + 1;
        }
        count
    }

    /// Whether the projectile reaches the player.
    pub fn hits(&self, player_pos: Vec2, level: &Level) -> (r: bool)
        requires
            level.wf(),
        ensures
            r == self.spec_hits(player_pos, level),
    {
        let middle: Vec2 = Vec2 { x: sat_add(player_pos.x, BODY_CENTRE), y: sat_add(player_pos.y, BODY_CENTRE) };
        let size: u32 = self.get_collision_size();
        if self.is_ray() {
            let span: i64 = self.clear_tiles(level) as i64 * TILE as i64;
            let reach: i64 = size as i64;
            (self.pos.x as i64 - reach) < (middle.x as i64) && (middle.x as i64) < (self.pos.x as i64 + reach)
                && (self.pos.y as i64 - span) <= (middle.y as i64) && (middle.y as i64) <= (self.pos.y as i64)
        } else {
            middle.closer_than(self.pos, size)
        }
    }

    /// Advances the projectile by one frame and appends to `spawned` what it
    /// leaves behind if it dies in this frame.
    pub fn update(&mut self, delta_time: u32, level: &Level, spawned: &mut Vec<Projectile>)
        requires
            level.wf(),
        ensures
            *final(self) == old(self).spec_update(delta_time, level),
            final(spawned)@ == old(spawned)@ + old(self).spec_spawned(delta_time, level),
            final(self).time == if old(self).dead { old(self).time } else { spec_tick(old(self).time, delta_time) },
            !old(self).dead ==> (final(self).spec_timed_out() ==> final(self).dead),
            final(self).dead ==> old(self).dead || final(self).spec_timed_out() || old(self).spec_stopped_by_wall(
                level,
                final(self).pos,
            ) || left_world(level, final(self).pos),
    {
        if self.dead {
            assert(old(spawned)@ + Seq::<Projectile>::empty() =~= old(spawned)@);
            return ;
        }
        if self.is_ray() {
        } else if self.is_physics_based() {
            let mut velocity: Vec2 = Vec2 { x: self.direction.x, y: advance(self.direction.y, GRAVITY, delta_time) };
            let (pos, grounded, _, _) = update_physicsbody(self.pos, &mut velocity, delta_time, level, false, false);
            if grounded {
                velocity.x = lerp(velocity.x, 0, FRICTION as i64 * delta_time as i64);
            }
            self.pos = pos;
            self.direction = velocity;
        } else {
            self.pos = Vec2 {
                x: advance(self.pos.x, self.direction.x, delta_time),
                y: advance(self.pos.y, self.direction.y, delta_time),
            };
            if !self.passes_through() {
                let column: i16 = saturate_cell(tile_floor(self.pos.x));
                let high: [u16; 4] = level.get_tile(column, saturate_cell(tile_floor(sat_add(self.pos.y, WALL_PROBE_HIGH))));
                let low: [u16; 4] = level.get_tile(column, saturate_cell(tile_floor(sat_add(self.pos.y, WALL_PROBE_LOW))));
                if high[COLLISION_LAYER] != 0 || low[COLLISION_LAYER] != 0 {
                    self.dead = true;
                }
            }
        }
        self.time = tick(self.time, delta_time);
        if self.timed_out() || has_left_world(level, self.pos) {
            self.dead = true;
        }
        if self.dead {
            match self.get_payload() {
                Some(payload) => {
                    spawned.push(payload);
                    assert(final(spawned)@ =~= old(spawned)@ + old(self).spec_spawned(delta_time, level));
                },
                None => {
                    assert(old(spawned)@ + Seq::<Projectile>::empty() =~= old(spawned)@);
                },
            }
        } else {
            assert(old(spawned)@ + Seq::<Projectile>::empty() =~= old(spawned)@);
        }
    }
}

/// A tile above the clear run ends the count, whatever the limit.
pub proof fn lemma_clear_above_stops(level: &Level, pos: Vec2, count: nat, limit: nat)
    requires
        count < limit,
        count == clear_above(level, pos, count),
        level.tile_at(
            clamp_i16(floor_div(pos.x as int, TILE as int)),
            clamp_i16(floor_div(pos.y as int, TILE as int) - (count + 1)),
        )[COLLISION_LAYER as int] != 0,
    ensures
        clear_above(level, pos, limit) == count,
    decreases limit,
{
    if limit > count + 1 {
        lemma_clear_above_stops(level, pos, count, (limit - 1) as nat);
    }
}

/// A projectile that is still in the air has, after a frame, outlived its
/// lifetime exactly if its kind has one and its age has reached it; and one
/// that has outlived its lifetime is dead.
pub proof fn lemma_lifetime(projectile: Projectile, delta_time: u32, level: &Level)
    requires
        !projectile.dead,
    ensures
        projectile.spec_update(delta_time, level).time == spec_tick(projectile.time, delta_time),
        projectile.spec_update(delta_time, level).spec_timed_out() <==> spec_lifetime(projectile.type_index) > 0
            && spec_tick(projectile.time, delta_time) >= spec_lifetime(projectile.type_index),
        projectile.spec_update(delta_time, level).spec_timed_out() ==> projectile.spec_update(delta_time, level).dead,
{
}

/// A projectile that walls do not stop, or that moves as a body, dies
/// inside the world of nothing but age: after a frame that leaves it in the
/// world it is dead exactly if its lifetime is over.
pub proof fn lemma_dies_of_age_alone(projectile: Projectile, delta_time: u32, level: &Level)
    requires
        !projectile.dead,
        projectile.spec_passes_through() || projectile.spec_is_physics_based(),
        !left_world(level, projectile.spec_update(delta_time, level).pos),
    ensures
        projectile.spec_update(delta_time, level).dead <==> projectile.spec_update(delta_time, level).spec_timed_out(),
{
}

/// A projectile fresh from `new` is younger than any lifetime, and alive.
pub proof fn lemma_new_is_young(type_index: usize, pos: Vec2, direction: Vec2)
    ensures
        !spec_new(type_index, pos, direction).dead,
        !spec_new(type_index, pos, direction).spec_timed_out(),
        spec_new(type_index, pos, direction).time == 0,
{
}

/// A ray hits along the tiles it counts clear and no farther: a player
/// whose middle lies below the ray's foot, or above its span, is not hit.
pub proof fn lemma_ray_span(ray: Projectile, player_pos: Vec2, level: &Level)
    requires
        ray.spec_is_ray(),
        ray.spec_hits(player_pos, level),
    ensures
        ray.pos.y - clear_above(level, ray.pos, MAX_RAY_TILES as nat) * TILE <= clamp_i32(player_pos.y + BODY_CENTRE)
            <= ray.pos.y,
{
}

} // verus!
