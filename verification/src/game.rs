//! One frame of the whole game: who moves when, what is cleared away at the
//! end of the frame, and what the frame means for the level.

use vstd::prelude::*;
use crate::assets::{Assets, Level};
use crate::bosses::{Boss, BOSS_KINDS, new_boss, waits};
use crate::enemies::{Enemy, FULL_TURN, load_enemies};
use crate::fixed::{Vec2, TILE};
use crate::horses::{Horse, load_horses};
use crate::player::{Input, Player};
use crate::projectiles::Projectile;
use crate::utils::{clamp_delta_time, spec_clamp_delta_time};

verus! {

/// Every horse one frame later.
pub fn update_horses(horses: &mut Vec<Horse>, delta_time: u32, level: &Level)
    requires
        level.wf(),
    ensures
        final(horses)@.len() == old(horses)@.len(),
        forall|i: int| 0 <= i < old(horses)@.len() ==> #[trigger] final(horses)@[i] == old(horses)@[i].spec_update(delta_time, level),
{
    let mut i: usize = 0;
    while i < horses.len()
        invariant
            level.wf(),
            0 <= i <= horses@.len(),
            horses@.len() == old(horses)@.len(),
            forall|k: int| 0 <= k < i ==> #[trigger] horses@[k] == old(horses)@[k].spec_update(delta_time, level),
            forall|k: int| i <= k < horses@.len() ==> #[trigger] horses@[k] == old(horses)@[k],
        decreases horses@.len() - i,
    {
        let mut horse: Horse = horses[i];
        horse.update(delta_time, level);
        horses[i] = horse;
        i = i + 1;
    }
}

/// Whether every enemy is of a kind in the catalog and goes with that kind and `level`.
pub open spec fn enemies_fit(enemies: Seq<Enemy>, assets: &Assets, level: &Level) -> bool {
    forall|i: int|
        0 <= i < enemies.len() ==> (#[trigger] enemies[i]).ty < assets.enemies@.len() && enemies[i].fits(
            &assets.enemies@[enemies[i].ty as int],
            level,
        )
}

/// The wave handed to the enemy at place `i`: nought where `waves` is too short.
pub open spec fn wave_for(waves: Seq<i32>, i: int) -> i32 {
    if 0 <= i < waves.len() {
        waves[i]
    } else {
        0
    }
}

/// The first `n` enemies after their frame, in order, each seeing the
/// player and the projectiles as the enemies before it left them: the
/// enemies that stay, the player, and the projectiles.
pub open spec fn spec_enemies(
    enemies: Seq<Enemy>,
    n: int,
    player: Player,
    projectiles: Seq<Projectile>,
    assets: &Assets,
    level: &Level,
    delta_time: u32,
    waves: Seq<i32>,
) -> (Seq<Enemy>, Player, Seq<Projectile>)
    decreases n,
{
    if n <= 0 || n > enemies.len() {
        (Seq::empty(), player, projectiles)
    } else {
        let before = spec_enemies(enemies, n - 1, player, projectiles, assets, level, delta_time, waves);
        let after = enemies[n - 1].spec_update(
            before.1,
            before.2,
            assets,
            &assets.enemies@[enemies[n - 1].ty as int],
            level,
            delta_time,
            wave_for(waves, n - 1),
        );
        (if after.3 { before.0.push(after.0) } else { before.0 }, after.1, after.2)
    }
}

/// Advances every enemy by one frame and drops those whose death has played out.
/// `waves` holds, for each enemy in order, the value of its wander wave.
pub fn update_enemies(
    enemies: &mut Vec<Enemy>,
    player: &mut Player,
    projectiles: &mut Vec<Projectile>,
    assets: &Assets,
    level: &Level,
    delta_time: u32,
    waves: &Vec<i32>,
)
    requires
        assets.wf(),
        enemies_fit(old(enemies)@, assets, level),
    ensures
        (final(enemies)@, *final(player), final(projectiles)@) == spec_enemies(
            old(enemies)@,
            old(enemies)@.len() as int,
            *old(player),
            old(projectiles)@,
            assets,
            level,
            delta_time,
            waves@,
        ),
        enemies_fit(final(enemies)@, assets, level),
{
    let mut kept: Vec<Enemy> = Vec::new();
    let mut i: usize = 0;
    while i < enemies.len()
        invariant
            assets.wf(),
            0 <= i <= enemies@.len(),
            enemies@ == old(enemies)@,
            enemies_fit(enemies@, assets, level),
            enemies_fit(kept@, assets, level),
            (kept@, *player, projectiles@) == spec_enemies(
                enemies@,
                i as int,
                *old(player),
                old(projectiles)@,
                assets,
                level,
                delta_time,
                waves@,
            ),
        decreases enemies@.len() - i,
    {
        let mut enemy: Enemy = enemies[i];
        let wave: i32 = if i < waves.len() { waves[i] } else { 0 };
        let stays: bool = enemy.update(player, projectiles, assets, &assets.enemies[enemy.ty], level, delta_time, wave);
        if stays {
            kept.push(enemy);
        }
        i = i + 1;
    }
    *enemies = kept;
}

/// A projectile and the player after the projectile's frame: the
/// projectile moves, and a hostile, deadly one that is still in the air and
/// reaches a living player kills; it is then spent, if its kind is.
pub open spec fn spec_flown(projectile: Projectile, player: Player, level: &Level, delta_time: u32) -> (Projectile, Player) {
    let moved = projectile.spec_update(delta_time, level);
    if !moved.dead && !moved.friendly && moved.spec_can_kill() && player.death.is_none() && moved.spec_hits(
        player.pos,
        level,
    ) {
        (
            Projectile { dead: moved.spec_should_die_on_kill(), ..moved },
            player.spec_kill(if moved.type_index == crate::projectiles::RAY { 2usize } else { 0usize }, true),
        )
    } else {
        (moved, player)
    }
}

/// The first `n` projectiles after their frame: those still in the air, in
/// order; what the spent ones left behind; and the player.
pub open spec fn spec_projectiles(projectiles: Seq<Projectile>, n: int, player: Player, level: &Level, delta_time: u32) -> (Seq<Projectile>, Seq<Projectile>, Player)
    decreases n,
{
    if n <= 0 || n > projectiles.len() {
        (Seq::empty(), Seq::empty(), player)
    } else {
        let before = spec_projectiles(projectiles, n - 1, player, level, delta_time);
        let after = spec_flown(projectiles[n - 1], before.2, level, delta_time);
        (
            if after.0.dead { before.0 } else { before.0.push(after.0) },
            before.1 + projectiles[n - 1].spec_spawned(delta_time, level),
            after.1,
        )
    }
}

/// Advances every projectile by one frame.
///
/// Spent projectiles are only marked while the list is walked. The list is
/// cleared of them once, at the end, and what they left behind is added
/// after that.
pub fn update_projectiles(projectiles: &mut Vec<Projectile>, player: &mut Player, level: &Level, delta_time: u32)
    requires
        level.wf(),
    ensures
        ({
            let flown = spec_projectiles(old(projectiles)@, old(projectiles)@.len() as int, *old(player), level, delta_time);
            &&& final(projectiles)@ == flown.0 + flown.1
            &&& *final(player) == flown.2
        }),
        forall|i: int|
            0 <= i < spec_projectiles(old(projectiles)@, old(projectiles)@.len() as int, *old(player), level, delta_time).0.len()
                ==> !(#[trigger] final(projectiles)@[i]).dead,
{
    let mut kept: Vec<Projectile> = Vec::new();
    let mut spawned: Vec<Projectile> = Vec::new();
    let mut i: usize = 0;
    while i < projectiles.len()
        invariant
            level.wf(),
            0 <= i <= projectiles@.len(),
            projectiles@ == old(projectiles)@,
            (kept@, spawned@, *player) == spec_projectiles(projectiles@, i as int, *old(player), level, delta_time),
            forall|k: int| 0 <= k < kept@.len() ==> !(#[trigger] kept@[k]).dead,
        decreases projectiles@.len() - i,
    {
        let mut projectile: Projectile = projectiles[i];
        projectile.update(delta_time, level, &mut spawned);
        if !projectile.dead && !projectile.friendly && projectile.can_kill() && player.death.is_none() && projectile.hits(
            player.pos,
            level,
        ) {
            player.kill(projectile.player_death_animation(), true);
            projectile.dead = projectile.should_die_on_kill();
        }
        if !projectile.dead {
            kept.push(projectile);
        }
        i = i + 1;
    }
    let ghost flown = kept@;
    kept.append(&mut spawned);
    *projectiles = kept;
}

/// What a frame means for the level.
#[derive(Clone, Copy, Debug, PartialEq, Eq, Structural)]
pub enum Signal {
    /// The game goes on.
    Playing,
    /// The player's death has played out: time to respawn.
    PlayerDied,
    /// The player has left the level through its top: time for the next one.
    LevelComplete,
}

/// A level in play.
pub struct Game {
    pub level_index: usize,
    pub player: Player,
    pub enemies: Vec<Enemy>,
    pub horses: Vec<Horse>,
    pub projectiles: Vec<Projectile>,
    pub boss: Option<Boss>,
}

/// Whether `level` can be played with `assets`: its enemies are of kinds in
/// the catalog, its patrols have paths to walk, and its boss is of a known
/// kind and has the markers of his arena.
pub open spec fn level_fits(level: &Level, assets: &Assets) -> bool {
    &&& level.wf()
    &&& forall|i: int|
        0 <= i < level.enemies@.len() ==> {
            &&& (#[trigger] level.enemies@[i]).ty < assets.enemies@.len()
            &&& assets.enemies@[level.enemies@[i].ty as int].movement_type is FollowPath ==> {
                &&& level.enemies@[i].path_index.is_some()
                &&& level.enemies@[i].path_index.unwrap().0 < level.enemy_paths@.len()
                &&& level.enemy_paths@[level.enemies@[i].path_index.unwrap().0 as int]@.len() > 0
                &&& 0 < assets.enemies@[level.enemies@[i].ty as int].speed <= 1_000_000_000
            }
        }
    &&& level.boss.is_some() ==> level.boss.unwrap().0 < BOSS_KINDS && Boss::arena(level)
}

/// Checks that `level` can be played with `assets`.
pub fn check_level(level: &Level, assets: &Assets) -> (r: bool)
    requires
        assets.wf(),
        level.wf(),
    ensures
        r == level_fits(level, assets),
{
    let mut i: usize = 0;
    while i < level.enemies.len()
        invariant
            0 <= i <= level.enemies@.len(),
            forall|k: int|
                0 <= k < i ==> {
                    &&& (#[trigger] level.enemies@[k]).ty < assets.enemies@.len()
                    &&& assets.enemies@[level.enemies@[k].ty as int].movement_type is FollowPath ==> {
                        &&& level.enemies@[k].path_index.is_some()
                        &&& level.enemies@[k].path_index.unwrap().0 < level.enemy_paths@.len()
                        &&& level.enemy_paths@[level.enemies@[k].path_index.unwrap().0 as int]@.len() > 0
                        &&& 0 < assets.enemies@[level.enemies@[k].ty as int].speed <= 1_000_000_000
                    }
                },
        decreases level.enemies@.len() - i,
    {
        let data = level.enemies[i];
        if data.ty >= assets.enemies.len() {
            return false;
        }
        let kind = &assets.enemies[data.ty];
        if matches!(kind.movement_type, crate::enemies::MovementType::FollowPath) {
            match data.path_index {
                Some(path) => {
                    if path.0 >= level.enemy_paths.len() || level.enemy_paths[path.0].len() == 0 || kind.speed <= 0
                        || kind.speed > 1_000_000_000 {
                        return false;
                    }
                },
                None => {
                    return false;
                },
            }
        }
        i = i + 1;
    }
    match level.boss {
        Some(boss) => boss.0 < BOSS_KINDS && level.markers.len() > 4,
        None => true,
    }
}

/// Whether enemies, horses and projectiles are as a level starts with:
/// every enemy and horse of the level at its place, each enemy with a wander
/// phase of its own within a full turn, and nothing in the air.
pub open spec fn at_the_start(
    enemies: Seq<Enemy>,
    horses: Seq<Horse>,
    projectiles: Seq<Projectile>,
    level: &Level,
    assets: &Assets,
) -> bool {
    &&& enemies.len() == level.enemies@.len()
    &&& forall|i: int|
        0 <= i < enemies.len() ==> {
            &&& (#[trigger] enemies[i]).wibble_wobble <= FULL_TURN
            &&& enemies[i] == Enemy::spec_new(
                level.enemies@[i],
                &assets.enemies@[level.enemies@[i].ty as int],
                enemies[i].wibble_wobble,
            )
        }
    &&& horses.len() == level.horses@.len()
    &&& forall|i: int| 0 <= i < horses.len() ==> #[trigger] horses[i] == Horse::spec_new(level.horses@[i])
    &&& projectiles.len() == 0
}

/// Whether `boss` is the boss of `level` as he waits for the player, or
/// none where the level has none.
pub open spec fn boss_waits(boss: Option<Boss>, level: &Level) -> bool {
    match level.boss {
        Some(placed) => boss.is_some() && waits(boss.unwrap(), placed.0, placed.1),
        None => boss.is_none(),
    }
}

impl Game {
    /// The game is on a level of `assets` that can be played, its enemies
    /// go with that level, and a boss is there only where his arena is.
    pub open spec fn wf(&self, assets: &Assets) -> bool {
        &&& assets.wf()
        &&& self.level_index < assets.levels@.len()
        &&& enemies_fit(self.enemies@, assets, &assets.levels@[self.level_index as int])
        &&& self.boss.is_some() ==> Boss::arena(&assets.levels@[self.level_index as int])
    }

    /// Checks that the game is well formed for `assets`.
    pub fn check(&self, assets: &Assets) -> (r: bool)
        ensures
            r == self.wf(assets),
    {
        if !assets.check() || self.level_index >= assets.levels.len() {
            return false;
        }
        let level: &Level = &assets.levels[self.level_index];
        let mut i: usize = 0;
        while i < self.enemies.len()
            invariant
                0 <= i <= self.enemies@.len(),
                assets.wf(),
                level.wf(),
                self.level_index < assets.levels@.len(),
                *level == assets.levels@[self.level_index as int],
                forall|k: int|
                    0 <= k < i ==> (#[trigger] self.enemies@[k]).ty < assets.enemies@.len() && self.enemies@[k].fits(
                        &assets.enemies@[self.enemies@[k].ty as int],
                        level,
                    ),
            decreases self.enemies@.len() - i,
        {
            let enemy: &Enemy = &self.enemies[i];
            if enemy.ty >= assets.enemies.len() {
                assert(!(self.enemies@[i as int].ty < assets.enemies@.len()));
                assert(!enemies_fit(self.enemies@, assets, level));
                return false;
            }
            let kind = &assets.enemies[enemy.ty];
            let fits: bool = if matches!(kind.movement_type, crate::enemies::MovementType::FollowPath) {
                match enemy.path_index {
                    Some(path) => path.0 < level.enemy_paths.len() && level.enemy_paths[path.0].len() > 0 && 0 < kind.speed
                        && kind.speed <= 1_000_000_000,
                    None => false,
                }
            } else {
                true
            };
            assert(fits == self.enemies@[i as int].fits(kind, level));
            if !fits {
                assert(!enemies_fit(self.enemies@, assets, level));
                return false;
            }
            i = i + 1;
        }
        self.boss.is_none() || level.markers.len() > 4
    }

    /// Sets up level `level_index`: the player at the spawn point, every
    /// enemy and horse at its place, the boss waiting. `None` if there is no
    /// such level or it cannot be played with these assets.
    pub fn new(assets: &Assets, level_index: usize) -> (r: Option<Game>)
        requires
            assets.wf(),
        ensures
            r.is_some() <==> level_index < assets.levels@.len() && level_fits(&assets.levels@[level_index as int], assets),
            r.is_some() ==> {
                let game = r.unwrap();
                let level = &assets.levels@[level_index as int];
                &&& game.wf(assets)
                &&& game.level_index == level_index
                &&& game.player == Player::spec_new(level.player_spawn)
                &&& at_the_start(game.enemies@, game.horses@, game.projectiles@, level, assets)
                &&& boss_waits(game.boss, level)
            },
    {
        if level_index >= assets.levels.len() {
            return None;
        }
        let level: &Level = &assets.levels[level_index];
        if !check_level(level, assets) {
            return None;
        }
        let enemies: Vec<Enemy> = load_enemies(level, &assets.enemies);
        assert(enemies_fit(enemies@, assets, level));
        let boss: Option<Boss> = match level.boss {
            Some(placed) => Some(new_boss(placed.0, placed.1)),
            None => None,
        };
        Some(
            Game {
                level_index,
                player: Player::new(level.player_spawn),
                enemies,
                horses: load_horses(level),
                projectiles: Vec::new(),
                boss,
            },
        )
    }
}

/// Every horse of `horses` one frame later.
pub open spec fn spec_horses(horses: Seq<Horse>, delta_time: u32, level: &Level) -> Seq<Horse> {
    Seq::new(horses.len(), |i: int| horses[i].spec_update(delta_time, level))
}

/// Whether the player, alive and out of any boss fight, has left the level through its top.
pub open spec fn spec_escaped(player: Player, level: &Level) -> bool {
    player.death.is_none() && !player.in_boss_battle && player.pos.y < level.min_y * TILE
}

/// Whether the player's death has played out.
pub open spec fn spec_death_played(player: Player, assets: &Assets) -> bool {
    player.death.is_some() && player.death.unwrap().time >= assets.die.total_length * 1000
}

/// What the state of the player means for the level.
pub open spec fn spec_signal(player: Player, level: &Level, assets: &Assets) -> Signal {
    if spec_death_played(player, assets) {
        Signal::PlayerDied
    } else if spec_escaped(player, level) {
        Signal::LevelComplete
    } else {
        Signal::Playing
    }
}

impl Game {
    /// Horses, enemies, player and projectiles after the first part of a
    /// frame: the horses move, the player rides or walks, the enemies act.
    #[verifier::opaque]
    pub open spec fn spec_front(&self, assets: &Assets, delta_time: u32, input: Input, waves: Seq<i32>) -> (Seq<Horse>, Seq<Enemy>, Player, Seq<Projectile>) {
        let level = &assets.levels@[self.level_index as int];
        let moved = spec_horses(self.horses@, delta_time, level);
        let ridden = self.player.spec_ride(delta_time, input, moved);
        let player = ridden.0.spec_update(delta_time, ridden.2, level, assets);
        let fired = if ridden.0.death.is_none() && ridden.0.spec_fires(ridden.0.spec_heard(ridden.2)) {
            self.projectiles@.push(ridden.0.spec_shot())
        } else {
            self.projectiles@
        };
        let acted = spec_enemies(self.enemies@, self.enemies@.len() as int, player, fired, assets, level, delta_time, waves);
        (ridden.1, acted.0, acted.1, acted.2)
    }

    /// Whether boss, player and projectiles `after` are what the boss's part
    /// of a frame makes of those before: where there is no boss, nothing changes.
    pub open spec fn boss_stepped(
        before: Option<Boss>,
        player: Player,
        projectiles: Seq<Projectile>,
        after: Option<Boss>,
        player_after: Player,
        projectiles_after: Seq<Projectile>,
        assets: &Assets,
        delta_time: u32,
        level: &Level,
    ) -> bool {
        match before {
            Some(boss) => after.is_some() && Boss::stepped(
                boss,
                player,
                projectiles,
                after.unwrap(),
                player_after,
                projectiles_after,
                assets,
                delta_time,
                level,
            ),
            None => after.is_none() && player_after == player && projectiles_after == projectiles,
        }
    }

    /// Whether player, projectiles and signal `after` are what the last
    /// part of a frame makes of the player and projectiles before: the
    /// projectiles fly, the spent ones go, what they left behind comes in,
    /// and the signal is read off the player.
    pub open spec fn finished(
        player: Player,
        projectiles: Seq<Projectile>,
        player_after: Player,
        projectiles_after: Seq<Projectile>,
        signal: Signal,
        assets: &Assets,
        delta_time: u32,
        level: &Level,
    ) -> bool {
        let flown = spec_projectiles(projectiles, projectiles.len() as int, player, level, delta_time);
        &&& projectiles_after == flown.0 + flown.1
        &&& player_after == flown.2
        &&& signal == spec_signal(flown.2, level, assets)
    }

    /// Whether `after` and `signal` are what a frame of `frame_time` makes of `before`.
    ///
    /// The time step is the frame time, capped. The frame runs in a fixed
    /// order: horses, player, enemies (`spec_front`); then the boss, if
    /// there is one; then the projectiles, which are cleared of the spent
    /// ones at the very end. The signal is read off the player last.
    pub open spec fn stepped(before: Game, after: Game, signal: Signal, assets: &Assets, frame_time: u32, input: Input, waves: Seq<i32>) -> bool {
        let delta_time = spec_clamp_delta_time(frame_time);
        let level = &assets.levels@[before.level_index as int];
        let front = before.spec_front(assets, delta_time, input, waves);
        &&& after.level_index == before.level_index
        &&& after.horses@ == front.0
        &&& after.enemies@ == front.1
        &&& exists|player: Player, projectiles: Seq<Projectile>|
            {
                &&& #[trigger] Self::boss_stepped(
                    before.boss,
                    front.2,
                    front.3,
                    after.boss,
                    player,
                    projectiles,
                    assets,
                    delta_time,
                    level,
                )
                &&& Self::finished(player, projectiles, after.player, after.projectiles@, signal, assets, delta_time, level)
            }
    }

    /// The first part of a frame: horses, player, enemies.
    fn front(&mut self, assets: &Assets, delta_time: u32, input: &Input, waves: &Vec<i32>)
        requires
            old(self).wf(assets),
        ensures
            (final(self).horses@, final(self).enemies@, final(self).player, final(self).projectiles@) == old(self).spec_front(
                assets,
                delta_time,
                *input,
                waves@,
            ),
            final(self).level_index == old(self).level_index,
            final(self).boss == old(self).boss,
            final(self).wf(assets),
    {
        reveal(Game::spec_front);
        let level: &Level = &assets.levels[self.level_index];
        update_horses(&mut self.horses, delta_time, level);
        assert(self.horses@ =~= spec_horses(old(self).horses@, delta_time, level));
        let heard: Input = self.player.ride(delta_time, input, &mut self.horses);
        self.player.update(delta_time, &heard, level, assets, &mut self.projectiles);
        update_enemies(&mut self.enemies, &mut self.player, &mut self.projectiles, assets, level, delta_time, waves);
    }

    /// The boss's part of a frame.
    fn boss_part(&mut self, assets: &Assets, delta_time: u32)
        requires
            old(self).wf(assets),
        ensures
            Self::boss_stepped(
                old(self).boss,
                old(self).player,
                old(self).projectiles@,
                final(self).boss,
                final(self).player,
                final(self).projectiles@,
                assets,
                delta_time,
                &assets.levels@[old(self).level_index as int],
            ),
            final(self).level_index == old(self).level_index,
            final(self).horses == old(self).horses,
            final(self).enemies == old(self).enemies,
            final(self).wf(assets),
    {
        let level: &Level = &assets.levels[self.level_index];
        match &mut self.boss {
            Some(boss) => {
                boss.update(assets, delta_time, level, &mut self.projectiles, &mut self.player);
            },
            None => {},
        }
    }

    /// The last part of a frame: the projectiles, and the signal.
    fn back(&mut self, assets: &Assets, delta_time: u32) -> (signal: Signal)
        requires
            old(self).wf(assets),
        ensures
            ({
                let level = &assets.levels@[old(self).level_index as int];
                let flown = spec_projectiles(
                    old(self).projectiles@,
                    old(self).projectiles@.len() as int,
                    old(self).player,
                    level,
                    delta_time,
                );
                &&& final(self).projectiles@ == flown.0 + flown.1
                &&& final(self).player == flown.2
                &&& signal == spec_signal(flown.2, level, assets)
            }),
            final(self).level_index == old(self).level_index,
            final(self).horses == old(self).horses,
            final(self).enemies == old(self).enemies,
            final(self).boss == old(self).boss,
            final(self).wf(assets),
    {
        let level: &Level = &assets.levels[self.level_index];
        update_projectiles(&mut self.projectiles, &mut self.player, level, delta_time);
        match self.player.death {
            Some(death) => if death.time as u128 >= assets.die.total_length as u128 * 1000 {
                Signal::PlayerDied
            } else {
                Signal::Playing
            },
            None => if !self.player.in_boss_battle && (self.player.pos.y as i64) < level.min_y as i64 * TILE as i64 {
                Signal::LevelComplete
            } else {
                Signal::Playing
            },
        }
    }

    /// Runs one frame. `frame_time` is the time since the last frame;
    /// `waves` holds the value of each enemy's wander wave, in order.
    pub fn update(&mut self, assets: &Assets, frame_time: u32, input: &Input, waves: &Vec<i32>) -> (signal: Signal)
        requires
            old(self).wf(assets),
        ensures
            Self::stepped(*old(self), *final(self), signal, assets, frame_time, *input, waves@),
            final(self).wf(assets),
    {
        let delta_time: u32 = clamp_delta_time(frame_time);
        self.front(assets, delta_time, input, waves);
        let ghost front_player = self.player;
        let ghost front_projectiles = self.projectiles@;
        self.boss_part(assets, delta_time);
        let ghost mid_player = self.player;
        let ghost mid_projectiles = self.projectiles@;
        let signal: Signal = self.back(assets, delta_time);
        proof {
            let level = &assets.levels@[old(self).level_index as int];
            let front = old(self).spec_front(assets, delta_time, *input, waves@);
            assert(front_player == front.2);
            assert(front_projectiles == front.3);
            assert(Self::boss_stepped(
                old(self).boss,
                front.2,
                front.3,
                self.boss,
                mid_player,
                mid_projectiles,
                assets,
                delta_time,
                level,
            ));
            assert(Self::finished(mid_player, mid_projectiles, self.player, self.projectiles@, signal, assets, delta_time, level));
        }
        signal
    }

    /// Puts the player back at the spawn point after a death. Enemies,
    /// horses and projectiles start over; the boss stays as he is. The new
    /// player knows of the restart and of the bosses already beaten.
    pub fn respawn(&mut self, assets: &Assets)
        requires
            old(self).wf(assets),
            level_fits(&assets.levels@[old(self).level_index as int], assets),
        ensures
            final(self).wf(assets),
            final(self).level_index == old(self).level_index,
            final(self).boss == old(self).boss,
            final(self).player == (Player {
                has_restarted_level: true,
                defeated_bosses: old(self).player.defeated_bosses,
                ..Player::spec_new(assets.levels@[old(self).level_index as int].player_spawn)
            }),
            at_the_start(
                final(self).enemies@,
                final(self).horses@,
                final(self).projectiles@,
                &assets.levels@[old(self).level_index as int],
                assets,
            ),
    {
        let level: &Level = &assets.levels[self.level_index];
        let beaten: u8 = self.player.defeated_bosses;
        self.player = Player::new(level.player_spawn);
        self.player.has_restarted_level = true;
        self.player.defeated_bosses = beaten;
        self.enemies = load_enemies(level, &assets.enemies);
        assert(enemies_fit(self.enemies@, assets, level));
        self.horses = load_horses(level);
        self.projectiles = Vec::new();
    }
}

impl Game {
    /// Moves on to the next level, if there is one that can be played: the
    /// game starts over there, and the player keeps count of the bosses
    /// beaten. Returns whether it did; if not, nothing changes.
    pub fn next_level(&mut self, assets: &Assets) -> (r: bool)
        requires
            old(self).wf(assets),
        ensures
            r <==> old(self).level_index + 1 < assets.levels@.len() && level_fits(
                &assets.levels@[old(self).level_index + 1],
                assets,
            ),
            !r ==> *final(self) == *old(self),
            r ==> {
                let level = &assets.levels@[old(self).level_index + 1];
                &&& final(self).level_index == old(self).level_index + 1
                &&& final(self).player == (Player {
                    defeated_bosses: old(self).player.defeated_bosses,
                    ..Player::spec_new(level.player_spawn)
                })
                &&& at_the_start(final(self).enemies@, final(self).horses@, final(self).projectiles@, level, assets)
                &&& boss_waits(final(self).boss, level)
            },
            final(self).wf(assets),
    {
        let count: usize = assets.levels.len();
        assert(self.level_index < count);
        match Game::new(assets, self.level_index + 1) {
            Some(mut next) => {
                next.player.defeated_bosses = self.player.defeated_bosses;
                *self = next;
                true
            },
            None => false,
        }
    }
}

} // verus!
