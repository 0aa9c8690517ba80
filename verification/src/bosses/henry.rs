//! The first boss: jumps at the player, then throws barrels.

use vstd::prelude::*;
use crate::assets::{Assets, Level};
use crate::bosses::{Effect, age_effects, aged_effects, count_boss, one_more};
use crate::fixed::{
    Vec2, PIXEL, clamp_i32, dist_sq, lerp, move_towards, sat_add, sat_sub, saturate, spec_lerp,
    spec_millis, spec_move_towards, spec_tick, millis, tick, trunc_div,
};
use crate::player::{CinematicBars, Dialogue, Player};
use crate::projectiles::{Projectile, UNIT, spec_new};

verus! {

/// The kind of projectile a thrown barrel is.
pub const BARREL: usize = 5;

/// Upward speed a barrel is thrown with.
pub const BARREL_LIFT: i32 = 40_000;

/// How long the boss rests between two rounds.
pub const REST_TIME: u64 = 2_000_000;

/// How long the boss crouches before each jump.
pub const JUMP_WINDUP: u64 = 220_000;

/// How long a jump lasts.
pub const JUMP_COMPLETE_SPEED: u64 = 1_250_000;

/// How high a jump goes.
pub const JUMP_HEIGHT: i32 = 78_000;

/// How many jumps make a round; the last one lands at the side of the arena.
pub const JUMP_AMT: u8 = 5;

/// How many barrels are thrown in a round.
pub const BARRELS_TO_THROW: u8 = 3;

/// How long before the end of the throwing clip the barrel leaves the hand.
pub const THROW_LEAD: u64 = 300_000;

/// How far the boss reaches: what comes this close is struck, or strikes.
pub const BODY_REACH: u32 = 16_000;

/// How long the dead boss lies before the poles sink.
pub const POLE_DELAY: u64 = 1_500_000;

/// How much the boss's height may differ from the floor for him to count as standing.
pub const FLOOR_SLACK: i32 = 100;

/// Death animation of a player crushed by the boss.
pub const DEATH_BY_CRUSH: usize = 4;

/// Hits the boss takes.
pub const HENRY_HEALTH: u8 = 12;

/// Markers of the arena: its left and right end, the two poles, and
/// the line the player crosses to be spoken to.
pub const MARKER_LEFT: usize = 0;

pub const MARKER_RIGHT: usize = 1;

pub const MARKER_LINE: usize = 4;

pub const CLIP_IDLE: usize = 0;

pub const CLIP_JUMP: usize = 1;

pub const CLIP_THROW: usize = 2;

pub const CLIP_DEATH: usize = 3;

/// What the boss is doing.
#[derive(Clone, Copy, Debug, PartialEq, Eq, Structural)]
pub enum State {
    Idle,
    /// Jumps completed, where the jump starts, where it lands.
    Jumping(u8, Vec2, Vec2),
    /// Barrels thrown, and whether the boss stands at the left end of the arena.
    ThrowingBarrels(u8, bool),
    Death,
}

/// The boss himself, without the effects around him.
#[derive(Clone, Copy, Debug, PartialEq, Eq, Structural)]
pub struct Body {
    pub pos: Vec2,
    pub spawn: Vec2,
    pub health: u8,
    pub state: State,
    /// Time in the current phase.
    pub time: u64,
    /// Zero until the fight begins; then the time since, as far as the clip of the poles runs.
    pub activated: u64,
}

/// The first boss, with the blood and dust around him.
pub struct Henry {
    pub body: Body,
    pub blood_effects: Vec<Effect>,
    pub dust_particles: Vec<Effect>,
}

/// Height of a jump above its start, in millionths of the full height, at
/// `progress` millionths of the jump: a parabola through zero at both ends.
pub open spec fn arc_height(progress: int) -> int {
    4 * progress * (1_000_000 - progress) / 1_000_000
}

/// How far along the ground a jump has come, in millionths, at `progress`
/// millionths of its time: slow at first, fast at the end.
pub open spec fn arc_progress(progress: int) -> int {
    (progress * progress / 1_000_000 + progress) / 2
}

/// Where a jump from `src` to `dest` of the given height is after
/// `progress` millionths of its time.
pub open spec fn arc_point(src: Vec2, dest: Vec2, height: i32, progress: int) -> Vec2 {
    Vec2 {
        x: spec_lerp(src.x, dest.x, arc_progress(progress)),
        y: clamp_i32(
            src.y - arc_height(progress) * height / 1_000_000 + (dest.y - src.y) * progress / 1_000_000,
        ) as i32,
    }
}

/// Works out where a jump is after `progress` millionths of its time.
pub fn jump_point(src: Vec2, dest: Vec2, height: i32, progress: u32) -> (r: Vec2)
    requires
        progress <= 1_000_000,
        0 <= height <= 1_000_000,
    ensures
        r == arc_point(src, dest, height, progress as int),
{
    let p: i64 = progress as i64;
    assert(0 <= p * p <= 1_000_000 * 1_000_000) by (nonlinear_arith)
        requires
            0 <= p <= 1_000_000,
    ;
    assert(0 <= 4 * p * (1_000_000 - p) <= 4 * 1_000_000 * 1_000_000) by (nonlinear_arith)
        requires
            0 <= p <= 1_000_000,
    ;
    let along: i64 = (p * p / 1_000_000 + p) / 2;
    let up: i64 = 4 * p * (1_000_000 - p) / 1_000_000;
    assert(0 <= up <= 4_000_000);
    assert(0 <= up * height <= 4_000_000 * 1_000_000) by (nonlinear_arith)
        requires
            0 <= up <= 4_000_000,
            0 <= height <= 1_000_000,
    ;
    let slope: i64 = dest.y as i64 - src.y as i64;
    assert(-0x1_0000_0000 * 1_000_000 <= slope * p <= 0x1_0000_0000 * 1_000_000) by (nonlinear_arith)
        requires
            -0x1_0000_0000 <= slope <= 0x1_0000_0000,
            0 <= p <= 1_000_000,
    ;
    let drift: i64 = if slope * p % 1_000_000 < 0 { slope * p / 1_000_000 - 1 } else { slope * p / 1_000_000 };
    Vec2 { x: lerp(src.x, dest.x, along), y: saturate(src.y as i64 - up * (height as i64) / 1_000_000 + drift) }
}

/// The barrel thrown from `pos` by a boss who stands at the left end of
/// the arena (`left_side`) or at the right: it flies inward and a little up.
pub open spec fn spec_barrel(pos: Vec2, left_side: bool) -> Projectile {
    let thrown = spec_new(
        BARREL,
        Vec2 {
            x: clamp_i32(pos.x + if left_side { 24 * PIXEL } else { -24 * PIXEL }) as i32,
            y: clamp_i32(pos.y - 8 * PIXEL) as i32,
        },
        Vec2 { x: if left_side { UNIT } else { (-UNIT) as i32 }, y: 0 },
    );
    Projectile { direction: Vec2 { x: thrown.direction.x, y: clamp_i32(thrown.direction.y - BARREL_LIFT) as i32 }, ..thrown }
}

fn barrel(pos: Vec2, left_side: bool) -> (r: Projectile)
    ensures
        r == spec_barrel(pos, left_side),
{
    let thrown: Projectile = Projectile::new(
        BARREL,
        Vec2 { x: sat_add(pos.x, if left_side { 24 * PIXEL } else { -24 * PIXEL }), y: sat_sub(pos.y, 8 * PIXEL) },
        Vec2 { x: if left_side { UNIT } else { -UNIT }, y: 0 },
    );
    Projectile { direction: Vec2 { x: thrown.direction.x, y: sat_sub(thrown.direction.y, BARREL_LIFT) }, ..thrown }
}

/// The distance between two coordinates.
pub open spec fn gap(a: i32, b: i32) -> int {
    if a >= b {
        a - b
    } else {
        b - a
    }
}

fn gap_between(a: i32, b: i32) -> (r: i64)
    ensures
        r == gap(a, b),
{
    if a >= b {
        a as i64 - b as i64
    } else {
        b as i64 - a as i64
    }
}

impl Body {
    /// The arena is marked out in `level`.
    pub open spec fn arena(level: &Level) -> bool {
        level.markers@.len() > MARKER_LINE
    }

    /// Boss and player after the boss has seen to the opening of the fight.
    ///
    /// Once the fight is on, the clip of the poles runs to its end. Before that, a
    /// player who crosses the line is spoken to; when the player dismisses
    /// the dialogue the fight begins: the bars come in and the poles rise.
    pub open spec fn spec_greet(&self, player: Player, level: &Level, assets: &Assets, delta_time: u32) -> (Body, Player) {
        if self.activated > 0 {
            (
                Body {
                    activated: if spec_tick(self.activated, delta_time) < assets.pole.total_length * 1000 {
                        spec_tick(self.activated, delta_time)
                    } else {
                        self.activated
                    },
                    ..*self
                },
                player,
            )
        } else if player.active_dialogue.is_some() {
            if player.active_dialogue.unwrap().closed {
                (
                    Body { activated: if delta_time == 0 { 1 } else { delta_time as u64 }, ..*self },
                    Player {
                        cinematic_bars: Some(CinematicBars { time: 0, leaving: false }),
                        active_dialogue: None,
                        in_boss_battle: true,
                        ..player
                    },
                )
            } else {
                (*self, player)
            }
        } else if player.pos.x < level.markers@[MARKER_LINE as int].x {
            (
                *self,
                Player {
                    active_dialogue: Some(
                        Dialogue {
                            text: "Hm. A puny little cowboy.\nYou will be crushed.",
                            name: "Henry the Cooper",
                            portrait: 0,
                            closed: false,
                        },
                    ),
                    ..player
                },
            )
        } else {
            (*self, player)
        }
    }

    fn greet(&mut self, player: &mut Player, level: &Level, assets: &Assets, delta_time: u32)
        requires
            Self::arena(level),
        ensures
            *final(self) == old(self).spec_greet(*old(player), level, assets, delta_time).0,
            *final(player) == old(self).spec_greet(*old(player), level, assets, delta_time).1,
    {
        if self.activated > 0 {
            let t: u64 = tick(self.activated, delta_time);
            if (t as u128) < assets.pole.total_length as u128 * 1000 {
                self.activated = t;
            }
        } else if player.active_dialogue.is_some() {
            if player.active_dialogue.unwrap().closed {
                player.show_cinematic_bars();
                self.activated = if delta_time == 0 { 1 } else { delta_time as u64 };
                player.active_dialogue = None;
                player.in_boss_battle = true;
            }
        } else if player.pos.x < level.find_marker(MARKER_LINE).x {
            player.show_dialogue("Hm. A puny little cowboy.\nYou will be crushed.", "Henry the Cooper", 0);
        }
    }

    /// Whether the fight is over and the poles are down again: the boss
    /// has been dead for `POLE_DELAY` and the clip of the poles has played back.
    pub open spec fn spec_poles_lowered(&self, assets: &Assets) -> bool {
        &&& self.state is Death
        &&& self.time > POLE_DELAY
        &&& self.time - POLE_DELAY >= (assets.pole.total_length - 1) * 1000
    }

    /// The player once the poles are down: out of the fight, one boss
    /// richer, and the bars on their way out. Counted once.
    pub open spec fn spec_released(&self, player: Player, assets: &Assets) -> Player {
        if self.spec_poles_lowered(assets) && player.in_boss_battle {
            Player {
                in_boss_battle: false,
                defeated_bosses: one_more(player.defeated_bosses),
                time_since_last_boss_defeated: 0,
                cinematic_bars: if player.cinematic_bars.is_some() {
                    Some(CinematicBars { time: 0, leaving: true })
                } else {
                    None
                },
                ..player
            }
        } else {
            player
        }
    }

    fn release(&self, player: &mut Player, assets: &Assets)
        requires
            assets.wf(),
        ensures
            *final(player) == self.spec_released(*old(player), assets),
    {
        let dead: bool = matches!(self.state, State::Death);
        if dead && self.time > POLE_DELAY && (self.time - POLE_DELAY) as u128 >= (assets.pole.total_length as u128 - 1)
            * 1000 && player.in_boss_battle {
            player.in_boss_battle = false;
            player.defeated_bosses = count_boss(player.defeated_bosses);
            player.time_since_last_boss_defeated = 0;
            player.hide_cinematic_bars();
        }
    }

    /// How far into their clip the poles are, if they show: rising while
    /// the fight begins, sinking again after the boss's death.
    pub open spec fn spec_pole_time(&self, assets: &Assets) -> Option<u64> {
        if self.state is Death && self.time > POLE_DELAY {
            if self.spec_poles_lowered(assets) {
                None
            } else {
                Some(((assets.pole.total_length - 1) * 1000 - (self.time - POLE_DELAY)) as u64)
            }
        } else if self.activated > 0 {
            Some(self.activated)
        } else {
            None
        }
    }

    /// Tells how far into their clip the poles are, if they show.
    pub fn pole_time(&self, assets: &Assets) -> (r: Option<u64>)
        requires
            assets.wf(),
        ensures
            r == self.spec_pole_time(assets),
    {
        let dead: bool = matches!(self.state, State::Death);
        if dead && self.time > POLE_DELAY {
            let since: u64 = self.time - POLE_DELAY;
            let whole: u64 = (assets.pole.total_length as u64 - 1) * 1000;
            if since >= whole {
                None
            } else {
                Some(whole - since)
            }
        } else if self.activated > 0 {
            Some(self.activated)
        } else {
            None
        }
    }

    /// A boss who begins a round of jumps at a player at `player_x`.
    pub open spec fn spec_leaping(&self, player_x: i32) -> Body {
        Body { state: State::Jumping(0, self.pos, Vec2 { x: player_x, y: self.spawn.y }), time: 0, ..*self }
    }

    /// The boss after landing from jump number `amt`: back on the floor,
    /// aiming the next jump at the player; the last jump but one aims at the
    /// end of the arena farther from the player, and after the last the boss
    /// throws barrels from the end he stands nearer to.
    pub open spec fn spec_landed(&self, amt: u8, src: Vec2, dest: Vec2, player_x: i32, level: &Level) -> Body {
        let done = if amt < 255 { (amt + 1) as u8 } else { amt };
        let left = level.markers@[MARKER_LEFT as int].x;
        let right = level.markers@[MARKER_RIGHT as int].x;
        let from = Vec2 { x: self.pos.x, y: src.y };
        Body {
            time: 0,
            pos: Vec2 { x: self.pos.x, y: self.spawn.y },
            state: if done < JUMP_AMT - 1 {
                State::Jumping(done, from, Vec2 { x: player_x, y: dest.y })
            } else if done == JUMP_AMT - 1 {
                State::Jumping(
                    done,
                    from,
                    Vec2 { x: if gap(player_x, left) > gap(player_x, right) { left } else { right }, y: dest.y },
                )
            } else {
                State::ThrowingBarrels(0, gap(self.pos.x, left) < gap(self.pos.x, right))
            },
            ..*self
        }
    }

    /// The boss after his phase has run for the frame, the barrel he threw,
    /// and whether he landed from a jump.
    ///
    /// Idle, he rests for `REST_TIME` and then, if the fight is on, leaps.
    /// Jumping, he crouches for `JUMP_WINDUP`, flies along the arc for
    /// `JUMP_COMPLETE_SPEED`, and lands. Throwing, he lets a barrel go
    /// `THROW_LEAD` before the throwing clip ends, and rests after the last.
    pub open spec fn spec_phase(&self, player_x: i32, level: &Level, assets: &Assets) -> (Body, Option<Projectile>, bool) {
        match self.state {
            State::Death => (*self, None, false),
            State::Idle => if self.time >= REST_TIME {
                (if self.activated > 0 { self.spec_leaping(player_x) } else { Body { time: 0, ..*self } }, None, false)
            } else {
                (*self, None, false)
            },
            State::Jumping(amt, src, dest) => if self.time > JUMP_WINDUP + JUMP_COMPLETE_SPEED {
                (self.spec_landed(amt, src, dest, player_x, level), None, true)
            } else if self.time >= JUMP_WINDUP {
                (
                    Body {
                        pos: arc_point(
                            src,
                            Vec2 { x: dest.x, y: src.y },
                            JUMP_HEIGHT,
                            (self.time - JUMP_WINDUP) * 1_000_000 / (JUMP_COMPLETE_SPEED as int),
                        ),
                        ..*self
                    },
                    None,
                    false,
                )
            } else {
                (*self, None, false)
            },
            State::ThrowingBarrels(amt, left_side) => if self.time + THROW_LEAD
                >= assets.henry.animations@[CLIP_THROW as int].total_length * 1000 {
                (
                    Body {
                        time: 0,
                        state: if amt + 1 >= BARRELS_TO_THROW {
                            State::Idle
                        } else {
                            State::ThrowingBarrels((amt + 1) as u8, left_side)
                        },
                        ..*self
                    },
                    Some(spec_barrel(self.pos, left_side)),
                    false,
                )
            } else {
                (*self, None, false)
            },
        }
    }

    fn phase(&self, player_x: i32, level: &Level, assets: &Assets) -> (r: (Body, Option<Projectile>, bool))
        requires
            Self::arena(level),
            assets.wf(),
        ensures
            r == self.spec_phase(player_x, level, assets),
    {
        match self.state {
            State::Death => (*self, None, false),
            State::Idle => {
                if self.time >= REST_TIME {
                    if self.activated > 0 {
                        (
                            Body { state: State::Jumping(0, self.pos, Vec2 { x: player_x, y: self.spawn.y }), time: 0, ..*self },
                            None,
                            false,
                        )
                    } else {
                        (Body { time: 0, ..*self }, None, false)
                    }
                } else {
                    (*self, None, false)
                }
            },
            State::Jumping(amt, src, dest) => {
                if self.time > JUMP_WINDUP + JUMP_COMPLETE_SPEED {
                    let done: u8 = if amt < 255 { amt + 1 } else { amt };
                    let left: i32 = level.find_marker(MARKER_LEFT).x;
                    let right: i32 = level.find_marker(MARKER_RIGHT).x;
                    let from: Vec2 = Vec2 { x: self.pos.x, y: src.y };
                    let state: State = if done < JUMP_AMT - 1 {
                        State::Jumping(done, from, Vec2 { x: player_x, y: dest.y })
                    } else if done == JUMP_AMT - 1 {
                        State::Jumping(
                            done,
                            from,
                            Vec2 {
                                x: if gap_between(player_x, left) > gap_between(player_x, right) { left } else { right },
                                y: dest.y,
                            },
                        )
                    } else {
                        State::ThrowingBarrels(0, gap_between(self.pos.x, left) < gap_between(self.pos.x, right))
                    };
                    (Body { time: 0, pos: Vec2 { x: self.pos.x, y: self.spawn.y }, state, ..*self }, None, true)
                } else if self.time >= JUMP_WINDUP {
                    let progress: u64 = (self.time - JUMP_WINDUP) * 1_000_000 / JUMP_COMPLETE_SPEED;
                    (
                        Body { pos: jump_point(src, Vec2 { x: dest.x, y: src.y }, JUMP_HEIGHT, progress as u32), ..*self },
                        None,
                        false,
                    )
                } else {
                    (*self, None, false)
                }
            },
            State::ThrowingBarrels(amt, left_side) => {
                if self.time as u128 + THROW_LEAD as u128 >= assets.henry.animations[CLIP_THROW].total_length as u128 * 1000 {
                    (
                        Body {
                            time: 0,
                            state: if amt as u16 + 1 >= BARRELS_TO_THROW as u16 {
                                State::Idle
                            } else {
                                State::ThrowingBarrels(amt + 1, left_side)
                            },
                            ..*self
                        },
                        Some(barrel(self.pos, left_side)),
                        false,
                    )
                } else {
                    (*self, None, false)
                }
            },
        }
    }
}

impl Body {
    /// Whether the boss crushes a player at `player_pos`.
    pub open spec fn spec_crushes(&self, player_pos: Vec2) -> bool {
        &&& !(self.state is Death)
        &&& dist_sq(
            Vec2 { x: clamp_i32(player_pos.x + 4 * PIXEL) as i32, y: clamp_i32(player_pos.y + 4 * PIXEL) as i32 },
            self.pos,
        ) <= BODY_REACH * BODY_REACH
    }

    fn crushes(&self, player_pos: Vec2) -> (r: bool)
        ensures
            r == self.spec_crushes(player_pos),
    {
        let middle: Vec2 = Vec2 { x: sat_add(player_pos.x, 4 * PIXEL), y: sat_add(player_pos.y, 4 * PIXEL) };
        !matches!(self.state, State::Death) && middle.within(self.pos, BODY_REACH)
    }

    /// Whether `projectile` wounds the boss: it is the player's and within reach.
    pub open spec fn spec_wounded_by(&self, projectile: Projectile) -> bool {
        projectile.friendly && dist_sq(self.pos, projectile.pos) <= BODY_REACH * BODY_REACH
    }

    /// The first projectile at or after `from` that wounds the boss.
    pub open spec fn spec_first_wound(&self, projectiles: Seq<Projectile>, from: int) -> Option<int>
        decreases projectiles.len() - from,
    {
        if from < 0 || from >= projectiles.len() {
            None
        } else if self.spec_wounded_by(projectiles[from]) {
            Some(from)
        } else {
            self.spec_first_wound(projectiles, from + 1)
        }
    }

    /// Whether the boss can be wounded at all: he lives and the fight is on.
    pub open spec fn spec_exposed(&self) -> bool {
        !(self.state is Death) && self.activated > 0
    }

    /// The boss after the projectiles have had their chance at him: the
    /// first that wounds him costs him a hit, and stirs him from his rest.
    pub open spec fn spec_hurt(&self, projectiles: Seq<Projectile>, player_x: i32) -> Body {
        if self.spec_exposed() && self.spec_first_wound(projectiles, 0).is_some() {
            let weaker = Body { health: if self.health > 0 { (self.health - 1) as u8 } else { 0 }, ..*self };
            if self.state is Idle {
                weaker.spec_leaping(player_x)
            } else {
                weaker
            }
        } else {
            *self
        }
    }

    /// The projectiles after their chance at the boss: the one that wounded him is spent.
    pub open spec fn spec_spent(&self, projectiles: Seq<Projectile>) -> Seq<Projectile> {
        if self.spec_exposed() && self.spec_first_wound(projectiles, 0).is_some() {
            let i = self.spec_first_wound(projectiles, 0).unwrap();
            projectiles.update(i, Projectile { dead: true, ..projectiles[i] })
        } else {
            projectiles
        }
    }

    /// The splash of blood where the boss was wounded, if he was.
    pub open spec fn spec_splash(&self, projectiles: Seq<Projectile>) -> Option<Effect> {
        if self.spec_exposed() && self.spec_first_wound(projectiles, 0).is_some() {
            let hit = projectiles[self.spec_first_wound(projectiles, 0).unwrap()];
            Some(Effect { pos: spec_move_towards(hit.pos, self.pos, 4000), time: 0, flipped: hit.direction.x > 0 })
        } else {
            None
        }
    }

    fn find_wound(&self, projectiles: &Vec<Projectile>) -> (r: Option<usize>)
        ensures
            match r {
                Some(i) => i < projectiles@.len() && self.spec_first_wound(projectiles@, 0) == Some(i as int),
                None => self.spec_first_wound(projectiles@, 0).is_none(),
            },
    {
        let mut i: usize = 0;
        while i < projectiles.len()
            invariant
                0 <= i <= projectiles@.len(),
                self.spec_first_wound(projectiles@, 0) == self.spec_first_wound(projectiles@, i as int),
            decreases projectiles@.len() - i,
        {
            if projectiles[i].friendly && self.pos.within(projectiles[i].pos, BODY_REACH) {
                return Some(i);
            }
            i = i + 1;
        }
        None
    }

    fn hurt(&mut self, projectiles: &mut Vec<Projectile>, player_x: i32) -> (r: Option<Effect>)
        ensures
            *final(self) == old(self).spec_hurt(old(projectiles)@, player_x),
            final(projectiles)@ == old(self).spec_spent(old(projectiles)@),
            r == old(self).spec_splash(old(projectiles)@),
    {
        if matches!(self.state, State::Death) || self.activated == 0 {
            return None;
        }
        match self.find_wound(projectiles) {
            Some(i) => {
                let hit: Projectile = projectiles[i];
                projectiles[i] = Projectile { dead: true, ..hit };
                let splash: Effect = Effect { pos: move_towards(hit.pos, self.pos, 4000), time: 0, flipped: hit.direction.x > 0 };
                self.health = if self.health > 0 { self.health - 1 } else { 0 };
                if matches!(self.state, State::Idle) {
                    self.state = State::Jumping(0, self.pos, Vec2 { x: player_x, y: self.spawn.y });
                    self.time = 0;
                }
                Some(splash)
            },
            None => None,
        }
    }

    /// The boss after death has had its chance: with no health left he dies
    /// as soon as he stands on the floor.
    pub open spec fn spec_felled(&self) -> Body {
        if !(self.state is Death) && self.health == 0 && gap(self.pos.y, self.spawn.y) < FLOOR_SLACK {
            Body { time: 0, state: State::Death, ..*self }
        } else {
            *self
        }
    }

    fn fell(&mut self)
        ensures
            *final(self) == old(self).spec_felled(),
    {
        if !matches!(self.state, State::Death) && self.health == 0 && gap_between(self.pos.y, self.spawn.y)
            < FLOOR_SLACK as i64 {
            self.time = 0;
            self.state = State::Death;
        }
    }

    /// Which clip the boss shows and how far into it. Only the idle clip loops.
    pub open spec fn spec_animation(&self, assets: &Assets) -> (usize, u64) {
        let clip = match self.state {
            State::Idle => CLIP_IDLE,
            State::Jumping(_, _, _) => CLIP_JUMP,
            State::ThrowingBarrels(_, _) => CLIP_THROW,
            State::Death => CLIP_DEATH,
        };
        let end = (assets.henry.animations@[clip as int].total_length - 1) * 1000;
        (clip, if self.state is Idle || self.time <= end { self.time } else { end as u64 })
    }

    /// Tells which clip the boss shows, and how far into it.
    pub fn animation(&self, assets: &Assets) -> (r: (usize, u64))
        requires
            assets.wf(),
        ensures
            r == self.spec_animation(assets),
            r.0 < assets.henry.animations@.len(),
    {
        let clip: usize = match self.state {
            State::Idle => CLIP_IDLE,
            State::Jumping(_, _, _) => CLIP_JUMP,
            State::ThrowingBarrels(_, _) => CLIP_THROW,
            State::Death => CLIP_DEATH,
        };
        let end: u64 = (assets.henry.animations[clip].total_length as u64 - 1) * 1000;
        (clip, if matches!(self.state, State::Idle) || self.time <= end { self.time } else { end })
    }
}

/// An effect added to the end of a list, if there is one to add.
pub open spec fn with_effect(effects: Seq<Effect>, added: Option<Effect>) -> Seq<Effect> {
    match added {
        Some(effect) => effects.push(effect),
        None => effects,
    }
}

/// A projectile added to the end of a list, if there is one to add.
pub open spec fn with_projectile(projectiles: Seq<Projectile>, added: Option<Projectile>) -> Seq<Projectile> {
    match added {
        Some(projectile) => projectiles.push(projectile),
        None => projectiles,
    }
}

impl Henry {
    /// The boss at rest at `pos`, in full health, before the fight.
    pub fn new(pos: Vec2) -> (r: Henry)
        ensures
            r.body == (Body { pos, spawn: pos, health: HENRY_HEALTH, state: State::Idle, time: 0, activated: 0 }),
            r.blood_effects@.len() == 0,
            r.dust_particles@.len() == 0,
    {
        Henry {
            body: Body { pos, spawn: pos, health: HENRY_HEALTH, state: State::Idle, time: 0, activated: 0 },
            blood_effects: Vec::new(),
            dust_particles: Vec::new(),
        }
    }

    /// The boss after greeting and phase, before anything touches him.
    pub open spec fn spec_staged(body: Body, player: Player, level: &Level, assets: &Assets, delta_time: u32) -> (Body, Option<Projectile>, bool) {
        let greeted = body.spec_greet(player, level, assets, delta_time).0;
        (Body { time: spec_tick(greeted.time, delta_time), ..greeted }).spec_phase(player.pos.x, level, assets)
    }

    /// The player after greeting, release and the boss's touch.
    pub open spec fn spec_player(body: Body, player: Player, level: &Level, assets: &Assets, delta_time: u32) -> Player {
        let greeted = body.spec_greet(player, level, assets, delta_time);
        let released = greeted.0.spec_released(greeted.1, assets);
        let staged = Self::spec_staged(body, player, level, assets, delta_time).0;
        if staged.spec_crushes(released.pos) {
            released.spec_kill(DEATH_BY_CRUSH, true)
        } else {
            released
        }
    }

    /// Whether boss, effects, player and projectiles `after` are what a
    /// frame makes of those `before`.
    ///
    /// In order: the opening of the fight, the sinking of the poles after
    /// it, the boss's phase, his touch, the projectiles' chance at him, his
    /// death, and the ageing of the effects.
    pub open spec fn stepped(
        body: Body,
        blood: Seq<Effect>,
        dust: Seq<Effect>,
        player: Player,
        projectiles: Seq<Projectile>,
        body_after: Body,
        blood_after: Seq<Effect>,
        dust_after: Seq<Effect>,
        player_after: Player,
        projectiles_after: Seq<Projectile>,
        assets: &Assets,
        delta_time: u32,
        level: &Level,
    ) -> bool {
        let staged = Self::spec_staged(body, player, level, assets, delta_time);
        let thrown = with_projectile(projectiles, staged.1);
        &&& player_after == Self::spec_player(body, player, level, assets, delta_time)
        &&& body_after == staged.0.spec_hurt(thrown, player.pos.x).spec_felled()
        &&& projectiles_after == staged.0.spec_spent(thrown)
        &&& blood_after == {
            let all = with_effect(blood, staged.0.spec_splash(thrown));
            aged_effects(all, delta_time, assets.blood.total_length, all.len() as int)
        }
        &&& dust_after == {
            let all = with_effect(
                dust,
                if staged.2 { Some(Effect { pos: staged.0.pos, time: 0, flipped: false }) } else { None },
            );
            aged_effects(all, delta_time, assets.henry_dust.total_length, all.len() as int)
        }
    }

    /// Advances the boss by one frame.
    pub fn update(
        &mut self,
        assets: &Assets,
        delta_time: u32,
        level: &Level,
        projectiles: &mut Vec<Projectile>,
        player: &mut Player,
    )
        requires
            assets.wf(),
            Body::arena(level),
        ensures
            Self::stepped(
                old(self).body,
                old(self).blood_effects@,
                old(self).dust_particles@,
                *old(player),
                old(projectiles)@,
                final(self).body,
                final(self).blood_effects@,
                final(self).dust_particles@,
                *final(player),
                final(projectiles)@,
                assets,
                delta_time,
                level,
            ),
    {
        let player_x: i32 = player.pos.x;
        let mut body: Body = self.body;
        body.greet(player, level, assets, delta_time);
        body.release(player, assets);
        body.time = tick(body.time, delta_time);
        let (staged, thrown, landed) = body.phase(player_x, level, assets);
        body = staged;
        match thrown {
            Some(barrel) => {
                projectiles.push(barrel);
            },
            None => {},
        }
        if landed {
            self.dust_particles.push(Effect { pos: body.pos, time: 0, flipped: false });
        }
        if body.crushes(player.pos) {
            player.kill(DEATH_BY_CRUSH, true);
        }
        match body.hurt(projectiles, player_x) {
            Some(splash) => {
                self.blood_effects.push(splash);
            },
            None => {},
        }
        body.fell();
        self.body = body;
        age_effects(&mut self.blood_effects, delta_time, assets.blood.total_length);
        age_effects(&mut self.dust_particles, delta_time, assets.henry_dust.total_length);
    }
}

} // verus!
