//! Horses: they wait at home, run while ridden, and walk back afterwards.

use vstd::prelude::*;
use crate::assets::{Level, LevelHorseData};
use crate::fixed::{Vec2, PIXEL, advance, clamp_i32, sat_sub, spec_advance, spec_tick, tick};
use crate::player::physics::{spec_step, update_physicsbody};
use crate::projectiles::UNIT;
use crate::utils::GRAVITY;

verus! {

/// Speed of a running horse.
pub const HORSE_SPEED: i32 = 160_000;

/// Speed of a horse that walks home.
pub const HORSE_WALK_SPEED: i32 = 48_000;

/// How close to home a returning horse must come to stop there.
pub const HOME_REACH: i32 = 1_000;

/// One horse in a level.
#[derive(Clone, Copy, Debug, PartialEq, Eq, Structural)]
pub struct Horse {
    pub pos: Vec2,
    pub home_pos: Vec2,
    pub velocity: Vec2,
    /// Where the horse faces, in thousandths.
    pub direction: Vec2,
    /// Whether the horse walks on the ceiling.
    pub flipped: bool,
    pub running: bool,
    pub returning_home: bool,
    pub player_riding: bool,
    pub time: u64,
}

impl Horse {
    /// A horse standing idle at its place in the level, facing right.
    pub open spec fn spec_new(data: LevelHorseData) -> Horse {
        Horse {
            pos: data.pos,
            home_pos: data.pos,
            velocity: Vec2 { x: 0, y: 0 },
            direction: Vec2 { x: UNIT, y: 0 },
            flipped: data.inverted,
            running: false,
            returning_home: false,
            player_riding: false,
            time: 0,
        }
    }

    /// A horse standing at its place in the level.
    pub fn new(data: LevelHorseData) -> (r: Horse)
        ensures
            r == Self::spec_new(data),
    {
        Horse {
            pos: data.pos,
            home_pos: data.pos,
            velocity: Vec2 { x: 0, y: 0 },
            direction: Vec2 { x: UNIT, y: 0 },
            flipped: data.inverted,
            running: false,
            returning_home: false,
            player_riding: false,
            time: 0,
        }
    }

    /// Whether the horse stands still, free to be mounted.
    pub open spec fn spec_idle(&self) -> bool {
        !self.running && !self.returning_home && !self.player_riding
    }

    pub fn is_idle(&self) -> (r: bool)
        ensures
            r == self.spec_idle(),
    {
        !self.running && !self.returning_home && !self.player_riding
    }

    /// The direction from the horse's feet to its back: up, or down for a
    /// horse on the ceiling. In thousandths.
    pub open spec fn spec_normal(&self) -> Vec2 {
        Vec2 { x: 0, y: if self.flipped { UNIT } else { (-UNIT) as i32 } }
    }

    pub fn normal(&self) -> (r: Vec2)
        ensures
            r == self.spec_normal(),
    {
        Vec2 { x: 0, y: if self.flipped { UNIT } else { -UNIT } }
    }

    /// The horizontal speed the horse aims for: full speed the way it faces
    /// while it runs, a walk toward home while it returns, else none.
    pub open spec fn spec_pace(&self) -> i32 {
        if self.running {
            if self.direction.x < 0 {
                (-HORSE_SPEED) as i32
            } else {
                HORSE_SPEED
            }
        } else if self.returning_home {
            if self.home_pos.x < self.pos.x {
                (-HORSE_WALK_SPEED) as i32
            } else {
                HORSE_WALK_SPEED
            }
        } else {
            0
        }
    }

    /// Whether a returning horse is close enough to home to stop.
    pub open spec fn spec_at_home(&self) -> bool {
        -HOME_REACH <= self.home_pos.x - self.pos.x <= HOME_REACH
    }

    /// The horse one frame later.
    ///
    /// A returning horse that has reached home stands still there. Any other
    /// horse takes its pace, falls toward its feet, and moves as a body does.
    pub open spec fn spec_update(&self, delta_time: u32, level: &Level) -> Horse {
        let time = spec_tick(self.time, delta_time);
        if self.returning_home && !self.running && self.spec_at_home() {
            Horse { pos: self.home_pos, velocity: Vec2 { x: 0, y: 0 }, returning_home: false, time, ..*self }
        } else {
            let pull = if self.flipped { (-GRAVITY) as i32 } else { GRAVITY };
            let wanted = Vec2 { x: self.spec_pace(), y: spec_advance(self.velocity.y, pull, delta_time) };
            let step = spec_step(self.pos, wanted, delta_time, level, true, false);
            Horse { pos: step.pos, velocity: step.velocity, time, ..*self }
        }
    }

    /// Advances the horse by one frame.
    pub fn update(&mut self, delta_time: u32, level: &Level)
        requires
            level.wf(),
        ensures
            *final(self) == old(self).spec_update(delta_time, level),
    {
        self.time = tick(self.time, delta_time);
        let gap: i64 = self.home_pos.x as i64 - self.pos.x as i64;
        if self.returning_home && !self.running && -(HOME_REACH as i64) <= gap && gap <= HOME_REACH as i64 {
            self.pos = self.home_pos;
            self.velocity = Vec2 { x: 0, y: 0 };
            self.returning_home = false;
        } else {
            let pace: i32 = if self.running {
                if self.direction.x < 0 {
                    -HORSE_SPEED
                } else {
                    HORSE_SPEED
                }
            } else if self.returning_home {
                if self.home_pos.x < self.pos.x {
                    -HORSE_WALK_SPEED
                } else {
                    HORSE_WALK_SPEED
                }
            } else {
                0
            };
            let pull: i32 = if self.flipped { -GRAVITY } else { GRAVITY };
            let mut velocity: Vec2 = Vec2 { x: pace, y: advance(self.velocity.y, pull, delta_time) };
            let (pos, _, _, _) = update_physicsbody(self.pos, &mut velocity, delta_time, level, true, false);
            self.pos = pos;
            self.velocity = velocity;
        }
    }
}

/// The horses of a level, each standing at its place.
pub fn load_horses(level: &Level) -> (r: Vec<Horse>)
    ensures
        r@.len() == level.horses@.len(),
        forall|i: int| 0 <= i < r@.len() ==> #[trigger] r@[i] == Horse::spec_new(level.horses@[i]),
{
    let mut horses: Vec<Horse> = Vec::new();
    let mut i: usize = 0;
    while i < level.horses.len()
        invariant
            0 <= i <= level.horses@.len(),
            horses@.len() == i,
            forall|j: int| 0 <= j < i ==> #[trigger] horses@[j] == Horse::spec_new(level.horses@[j]),
        decreases level.horses@.len() - i,
    {
        horses.push(Horse::new(level.horses[i]));
        i = i + 1;
    }
    horses
}

} // verus!
