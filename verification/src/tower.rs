//! The tower the levels are stacked in: how tall each of its worlds is.

use vstd::prelude::*;
use crate::assets::Assets;
use crate::fixed::{PIXEL, TILE, clamp_i32, sat_add, sat_sub};
use crate::utils::FLOOR_PADDING;

verus! {

/// How far below the first floor the tower begins.
pub const TOWER_BASE: i32 = -24_000;

/// What a level adds to the height of the tower: its own height, the
/// padding under its floor, and two tiles of ceiling.
pub open spec fn storey(height: i32) -> i32 {
    clamp_i32(clamp_i32(height + FLOOR_PADDING) + 2 * TILE) as i32
}

/// What a level adds to the height of its world: its own height, the
/// padding under its floor, and one tile of ceiling.
pub open spec fn storey_in_world(height: i32) -> i32 {
    clamp_i32(clamp_i32(height + FLOOR_PADDING) + TILE) as i32
}

/// The height of level `i` of `assets`.
pub open spec fn level_height(assets: &Assets, i: int) -> i32 {
    clamp_i32(assets.levels@[i].height * TILE) as i32
}

/// How high the tower stands above its base after the first `n` levels.
pub open spec fn tower_total(assets: &Assets, n: int) -> i32
    decreases n,
{
    if n <= 0 || n > assets.levels@.len() {
        TOWER_BASE
    } else {
        clamp_i32(tower_total(assets, n - 1) + storey(level_height(assets, n - 1))) as i32
    }
}

/// The world that the last of the first `n` levels belongs to; world 0 before any level.
pub open spec fn world_at(assets: &Assets, n: int) -> usize {
    if n <= 0 || n > assets.levels@.len() {
        0
    } else {
        assets.levels@[n - 1].world_index
    }
}

/// The worlds of the tower after the first `n` levels: for each, its
/// height so far and the height of the tower where it begins. A new world
/// begins with every level whose world differs from that of the level before.
pub open spec fn worlds_after(assets: &Assets, n: int) -> Seq<(i32, i32)>
    decreases n,
{
    if n <= 0 || n > assets.levels@.len() {
        seq![(0i32, TOWER_BASE)]
    } else {
        let before = worlds_after(assets, n - 1);
        let opened = if assets.levels@[n - 1].world_index != world_at(assets, n - 1) {
            before.push((
                (2 * FLOOR_PADDING) as i32,
                clamp_i32(tower_total(assets, n - 1) - 2 * FLOOR_PADDING) as i32,
            ))
        } else {
            before
        };
        opened.update(
            opened.len() - 1,
            (
                clamp_i32(opened.last().0 + storey_in_world(level_height(assets, n - 1))) as i32,
                opened.last().1,
            ),
        )
    }
}

/// The worlds of the whole tower: as `worlds_after` all levels, with the
/// padding above the last world's top floor taken off again.
pub open spec fn spec_world_heights(assets: &Assets) -> Seq<(i32, i32)> {
    let all = worlds_after(assets, assets.levels@.len() as int);
    all.update(all.len() - 1, (clamp_i32(all.last().0 - (2 * FLOOR_PADDING + TILE)) as i32, all.last().1))
}

/// Works out, for each world of the tower, its height and where it begins.
pub fn calculate_world_heights(assets: &Assets) -> (r: Vec<(i32, i32)>)
    ensures
        r@ == spec_world_heights(assets),
        r@.len() >= 1,
{
    let mut total: i32 = TOWER_BASE;
    let mut worlds: Vec<(i32, i32)> = Vec::new();
    worlds.push((0, total));
    let mut last_world: usize = 0;
    let mut i: usize = 0;
    while i < assets.levels.len()
        invariant
            0 <= i <= assets.levels@.len(),
            total == tower_total(assets, i as int),
            last_world == world_at(assets, i as int),
            worlds@ == worlds_after(assets, i as int),
            worlds@.len() >= 1,
        decreases assets.levels@.len() - i,
    {
        let level = &assets.levels[i];
        let world: usize = level.get_world_index();
        if world != last_world {
            last_world = world;
            worlds.push((2 * FLOOR_PADDING, sat_sub(total, 2 * FLOOR_PADDING)));
        }
        let height: i32 = level.get_height();
        total = sat_add(total, sat_add(sat_add(height, FLOOR_PADDING), 2 * TILE));
        let top: usize = worlds.len() - 1;
        let open: (i32, i32) = worlds[top];
        worlds[top] = (sat_add(open.0, sat_add(sat_add(height, FLOOR_PADDING), TILE)), open.1);
        i = i + 1;
    }
    let top: usize = worlds.len() - 1;
    let open: (i32, i32) = worlds[top];
    worlds[top] = (sat_sub(open.0, 2 * FLOOR_PADDING + TILE), open.1);
    worlds
}

/// The worlds of the tower: how tall each is, where it begins, and its
/// colours (wall, border, shade) as `0xRRGGBB`.
pub struct WorldManager {
    pub world_heights: Vec<(i32, i32)>,
    pub world_colors: Vec<(u32, u32, u32)>,
}

/// The colours of the three worlds.
pub open spec fn spec_world_colors() -> Seq<(u32, u32, u32)> {
    seq![
        (0x300f0au32, 0x5c320bu32, 0x3e2004u32),
        (0x16100bu32, 0x927e6au32, 0x392a1cu32),
        (0x000000u32, 0x392a1cu32, 0x36170cu32),
    ]
}

impl WorldManager {
    /// The tower that the levels of `assets` make.
    pub fn new(assets: &Assets) -> (r: WorldManager)
        ensures
            r.world_heights@ == spec_world_heights(assets),
            r.world_colors@ == spec_world_colors(),
    {
        let mut world_colors: Vec<(u32, u32, u32)> = Vec::new();
        world_colors.push((0x300f0a, 0x5c320b, 0x3e2004));
        world_colors.push((0x16100b, 0x927e6a, 0x392a1c));
        world_colors.push((0x000000, 0x392a1c, 0x36170c));
        assert(world_colors@ =~= spec_world_colors());
        WorldManager { world_heights: calculate_world_heights(assets), world_colors }
    }
}

} // verus!
