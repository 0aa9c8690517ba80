//! Bosses: scripted fights in several phases.

use vstd::prelude::*;
use crate::assets::{Assets, Level};
use crate::fixed::{Vec2, spec_tick, tick};
use crate::player::Player;
use crate::projectiles::Projectile;

pub mod fireking;
pub mod henry;

pub use fireking::Fireking;
pub use henry::Henry;

verus! {

/// A short-lived visual effect: where it is, how long it has played, and
/// whether it is mirrored.
#[derive(Clone, Copy, Debug, PartialEq, Eq, Structural)]
pub struct Effect {
    pub pos: Vec2,
    pub time: u64,
    pub flipped: bool,
}

/// The first `n` of `effects` one frame later: each has aged by
/// `delta_time`, and those whose clip of `length` milliseconds has played
/// to the end are gone.
pub open spec fn aged_effects(effects: Seq<Effect>, delta_time: u32, length: u32, n: int) -> Seq<Effect>
    decreases n,
{
    if n <= 0 || n > effects.len() {
        Seq::empty()
    } else {
        let before = aged_effects(effects, delta_time, length, n - 1);
        let aged = Effect { time: spec_tick(effects[n - 1].time, delta_time), ..effects[n - 1] };
        if aged.time < length * 1000 {
            before.push(aged)
        } else {
            before
        }
    }
}

/// Ages every effect by one frame and drops those that have played out.
pub fn age_effects(effects: &mut Vec<Effect>, delta_time: u32, length: u32)
    ensures
        final(effects)@ == aged_effects(old(effects)@, delta_time, length, old(effects)@.len() as int),
{
    let mut kept: Vec<Effect> = Vec::new();
    let mut i: usize = 0;
    while i < effects.len()
        invariant
            0 <= i <= effects@.len(),
            effects@ == old(effects)@,
            kept@ == aged_effects(effects@, delta_time, length, i as int),
        decreases effects@.len() - i,
    {
        let effect: Effect = effects[i];
        let aged: Effect = Effect { time: tick(effect.time, delta_time), ..effect };
        if (aged.time as u128) < length as u128 * 1000 {
            kept.push(aged);
        }
        i = i + 1;
    }
    *effects = kept;
}

/// The count of beaten bosses with one more beaten; it stops at 255.
pub open spec fn one_more(count: u8) -> u8 {
    if count < 255 {
        (count + 1) as u8
    } else {
        count
    }
}

/// Counts one more beaten boss.
pub fn count_boss(count: u8) -> (r: u8)
    ensures
        r == one_more(count),
{
    if count < 255 {
        count + 1
    } else {
        count
    }
}

/// A boss of either kind.
pub enum Boss {
    Henry(Henry),
    Fireking(Fireking),
}

/// How many kinds of boss there are.
pub const BOSS_KINDS: usize = 2;

/// Whether `boss` is the boss of kind `index` as he waits at `pos` for the
/// player: at rest, in full health, with no effects around him.
pub open spec fn waits(boss: Boss, index: usize, pos: Vec2) -> bool {
    match boss {
        Boss::Henry(boss) => {
            &&& index == 0
            &&& boss.body == (henry::Body {
                pos,
                spawn: pos,
                health: henry::HENRY_HEALTH,
                state: henry::State::Idle,
                time: 0,
                activated: 0,
            })
            &&& boss.blood_effects@.len() == 0
            &&& boss.dust_particles@.len() == 0
        },
        Boss::Fireking(boss) => {
            &&& index == 1
            &&& boss.body == Fireking::spec_new(pos)
            &&& boss.blood_effects@.len() == 0
        },
    }
}

/// The boss of kind `index`, standing at `pos` and waiting for the player.
pub fn new_boss(index: usize, pos: Vec2) -> (r: Boss)
    requires
        index < BOSS_KINDS,
    ensures
        waits(r, index, pos),
{
    if index == 0 {
        Boss::Henry(Henry::new(pos))
    } else {
        Boss::Fireking(Fireking::new(pos))
    }
}

impl Boss {
    /// The level has the markers the boss's arena needs.
    pub open spec fn arena(level: &Level) -> bool {
        henry::Body::arena(level) && fireking::Body::arena(level)
    }

    /// Whether `after` is what a frame makes of the boss `before`, with the
    /// player and the projectiles as given: the boss stays of his kind and
    /// steps as his kind does.
    pub open spec fn stepped(
        before: Boss,
        player: Player,
        projectiles: Seq<Projectile>,
        after: Boss,
        player_after: Player,
        projectiles_after: Seq<Projectile>,
        assets: &Assets,
        delta_time: u32,
        level: &Level,
    ) -> bool {
        match before {
            Boss::Henry(was) => after is Henry && Henry::stepped(
                was.body,
                was.blood_effects@,
                was.dust_particles@,
                player,
                projectiles,
                after->Henry_0.body,
                after->Henry_0.blood_effects@,
                after->Henry_0.dust_particles@,
                player_after,
                projectiles_after,
                assets,
                delta_time,
                level,
            ),
            Boss::Fireking(was) => after is Fireking && Fireking::stepped(
                was.body,
                was.blood_effects@,
                player,
                projectiles,
                after->Fireking_0.body,
                after->Fireking_0.blood_effects@,
                player_after,
                projectiles_after,
                assets,
                delta_time,
                level,
            ),
        }
    }

    /// Advances the boss by one frame.
    pub fn update(
        &mut self,
        assets: &Assets,
        delta_time: u32,
        level: &Level,
        projectiles: &mut Vec<Projectile>,
        player: &mut Player,
    )
        requires
            assets.wf(),
            Self::arena(level),
        ensures
            Self::stepped(
                *old(self),
                *old(player),
                old(projectiles)@,
                *final(self),
                *final(player),
                final(projectiles)@,
                assets,
                delta_time,
                level,
            ),
    {
        match self {
            Boss::Henry(boss) => boss.update(assets, delta_time, level, projectiles, player),
            Boss::Fireking(boss) => boss.update(assets, delta_time, level, projectiles, player),
        }
    }
}

} // verus!
