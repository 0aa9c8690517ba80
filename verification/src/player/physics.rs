//! Moving a body through the tile grid: one tentative step, then the
//! vertical and the horizontal axis resolved against the cells ahead.

use vstd::prelude::*;
use crate::assets::Level;
use crate::fixed::{
    Vec2, TILE, advance, away_div, ceil_div, ceil_g, clamp_i16, clamp_i32, floor_div, sat_add,
    saturate, saturate_cell, spec_advance, spec_floor_sqrt, speed_times, tile_ceil, tile_edge,
    tile_floor, tile_trunc, trunc_div, displacement, floor_sqrt,
};
use crate::utils::{
    BARRIER_TILE, COLLISION_LAYER, SPECIAL_LAYER, is_death_tile, spec_is_death_tile,
};

verus! {

/// Rate at which an upward slide along a climbable wall is braked.
pub const WALL_CLIMB_BRAKE: i32 = 125_000;

/// Whether the collision layer of `cell` holds a death tile.
pub open spec fn is_deadly(cell: Seq<u16>) -> bool {
    cell[COLLISION_LAYER as int] > 0 && spec_is_death_tile((cell[COLLISION_LAYER as int] - 1) as u16)
}

/// Whether `cell` stops a body: it holds a tile on the collision layer that
/// is no death tile, or it is empty there, marked as a barrier on the
/// interactive layer, and barriers count (`special`).
pub open spec fn is_solid(cell: Seq<u16>, special: bool) -> bool {
    &&& !is_deadly(cell)
    &&& (cell[COLLISION_LAYER as int] != 0 || (special && cell[SPECIAL_LAYER as int] == BARRIER_TILE
        + 1))
}

/// Whether the interactive layer of `cell` holds a tile that `world` counts as climbable.
pub open spec fn is_climbable(world: &Level, cell: Seq<u16>) -> bool {
    cell[SPECIAL_LAYER as int] > 0 && world.wall_climb_tiles@.contains((cell[SPECIAL_LAYER as int] - 1) as u16)
}

/// The cell of `world` that a candidate names.
pub open spec fn cell_of(world: &Level, at: (i16, i16)) -> Seq<u16> {
    world.tile_at(at.0 as int, at.1 as int)
}

/// Index of the first candidate at or after `from` that is solid.
pub open spec fn first_solid(world: &Level, cells: Seq<(i16, i16)>, special: bool, from: int) -> Option<int>
    decreases cells.len() - from,
{
    if from < 0 || from >= cells.len() {
        None
    } else if is_solid(cell_of(world, cells[from]), special) {
        Some(from)
    } else {
        first_solid(world, cells, special, from + 1)
    }
}

/// The death tile of the last deadly cell among the first `n` candidates.
pub open spec fn last_death(world: &Level, cells: Seq<(i16, i16)>, n: int) -> Option<u16>
    decreases n,
{
    if n <= 0 || n > cells.len() {
        None
    } else if is_deadly(cell_of(world, cells[n - 1])) {
        Some((cell_of(world, cells[n - 1])[COLLISION_LAYER as int] - 1) as u16)
    } else {
        last_death(world, cells, n - 1)
    }
}

/// The tile row or column of a coordinate under each rounding, as a cell index.
pub open spec fn cell_trunc(a: i32) -> i16 {
    clamp_i16(trunc_div(a as int, TILE as int)) as i16
}

pub open spec fn cell_away(a: i32) -> i16 {
    clamp_i16(away_div(a as int, TILE as int)) as i16
}

/// The row above the one that holds `a`: where the head of a tall body is.
pub open spec fn cell_head(a: i32) -> i16 {
    clamp_i16(floor_div(a as int, TILE as int) - 1) as i16
}

/// The candidates of the vertical pass: the two columns the body spans at
/// its old position, in the rows its tentative height touches; a tall body
/// adds the row above.
pub open spec fn vertical_cells(pos: Vec2, new_y: i32, tall: bool) -> Seq<(i16, i16)> {
    let left = cell_trunc(pos.x);
    let right = cell_away(pos.x);
    let base = seq![
        (left, cell_away(new_y)),
        (right, cell_away(new_y)),
        (left, cell_trunc(new_y)),
        (right, cell_trunc(new_y)),
    ];
    if tall {
        base + seq![(left, cell_head(new_y)), (right, cell_head(new_y))]
    } else {
        base
    }
}

/// The candidates of the horizontal pass, taken at the tentative column and
/// the height the vertical pass settled on.
pub open spec fn horizontal_cells(new_x: i32, new_y: i32, tall: bool) -> Seq<(i16, i16)> {
    let left = cell_trunc(new_x);
    let right = cell_away(new_x);
    let base = seq![
        (left, cell_away(new_y)),
        (right, cell_away(new_y)),
        (right, cell_trunc(new_y)),
        (left, cell_trunc(new_y)),
    ];
    if tall {
        base + seq![(left, cell_head(new_y)), (right, cell_head(new_y))]
    } else {
        base
    }
}

/// The tile boundary a body is put back to when it is stopped: the one
/// behind it in the direction of travel, measured from where it started.
pub open spec fn snap(start: i32, speed: i32) -> i32 {
    if speed < 0 {
        clamp_i32(floor_div(start as int, TILE as int) * TILE) as i32
    } else {
        clamp_i32(ceil_div(start as int, TILE as int) * TILE) as i32
    }
}

/// What one step of a body comes to.
pub struct Step {
    pub pos: Vec2,
    pub velocity: Vec2,
    pub grounded: bool,
    pub death_tile: Option<u16>,
    pub wall_climb: Option<i8>,
}

/// Whether the vertical pass finds a solid cell.
pub open spec fn vertical_hit(pos: Vec2, velocity: Vec2, delta_time: u32, world: &Level, tall: bool, special: bool) -> bool {
    first_solid(
        world,
        vertical_cells(pos, spec_advance(pos.y, velocity.y, delta_time), tall),
        special,
        0,
    ).is_some()
}

/// The step of a body, as a function of where it is, how fast it moves, for
/// how long, through which level.
///
/// The body first moves freely. If a candidate of the vertical pass is
/// solid, the height snaps back to a tile boundary and the vertical speed
/// becomes zero; the body is grounded when it was not moving up. A death tile
/// among the candidates is reported only when no candidate is solid. The
/// horizontal pass then does the same for the column; a climbable cell that
/// stops the body reports its side and brakes an upward speed.
pub open spec fn spec_step(pos: Vec2, velocity: Vec2, delta_time: u32, world: &Level, tall: bool, special: bool) -> Step {
    let free_x = spec_advance(pos.x, velocity.x, delta_time);
    let free_y = spec_advance(pos.y, velocity.y, delta_time);
    let candidates_y = vertical_cells(pos, free_y, tall);
    let hit_y = first_solid(world, candidates_y, special, 0).is_some();
    let new_y = if hit_y { snap(pos.y, velocity.y) } else { free_y };
    let speed_y = if hit_y { 0i32 } else { velocity.y };
    let candidates_x = horizontal_cells(free_x, new_y, tall);
    let hit_x = first_solid(world, candidates_x, special, 0);
    let climbs = hit_x.is_some() && is_climbable(world, cell_of(world, candidates_x[hit_x.unwrap()]));
    Step {
        pos: Vec2 { x: if hit_x.is_some() { snap(pos.x, velocity.x) } else { free_x }, y: new_y },
        velocity: Vec2 {
            x: if hit_x.is_some() { 0i32 } else { velocity.x },
            y: if climbs && speed_y < 0 { braked(speed_y, delta_time) } else { speed_y },
        },
        grounded: hit_y && velocity.y >= 0,
        death_tile: if hit_y { None } else { last_death(world, candidates_y, candidates_y.len() as int) },
        wall_climb: if climbs {
            Some(if candidates_x[hit_x.unwrap()].0 * TILE < pos.x { -1i8 } else { 1i8 })
        } else {
            None
        },
    }
}

/// An upward speed after braking for `delta_time`: closer to zero, never past it.
pub open spec fn braked(speed: i32, delta_time: u32) -> i32 {
    let slowed = clamp_i32(speed + displacement(WALL_CLIMB_BRAKE as int, delta_time as int));
    if slowed > 0 { 0i32 } else { slowed as i32 }
}

/// Scans the candidates in order up to the first solid one.
///
/// Returns the index of that cell, if there is one, and the death tile of
/// the last deadly cell seen before the scan ended.
fn scan(world: &Level, cells: &Vec<(i16, i16)>, special: bool) -> (r: (Option<usize>, Option<u16>))
    requires
        world.wf(),
    ensures
        match r.0 {
            Some(index) => index < cells@.len() && first_solid(world, cells@, special, 0) == Some(
                index as int,
            ),
            None => first_solid(world, cells@, special, 0).is_none() && r.1 == last_death(
                world,
                cells@,
                cells@.len() as int,
            ),
        },
{
    let mut death: Option<u16> = None;
    let mut i: usize = 0;
    while i < cells.len()
        invariant
            world.wf(),
            0 <= i <= cells@.len(),
            first_solid(world, cells@, special, 0) == first_solid(world, cells@, special, i as int),
            death == last_death(world, cells@, i as int),
        decreases cells@.len() - i,
    {
        let cell: [u16; 4] = world.get_tile(cells[i].0, cells[i].1);
        let tile: u16 = cell[COLLISION_LAYER];
        if tile > 0 && is_death_tile(tile - 1) {
            death = Some(tile - 1);
        } else if tile != 0 || (special && cell[SPECIAL_LAYER] == BARRIER_TILE + 1) {
            return (Some(i), death);
        }
        i = i + 1;
    }
    (None, death)
}

/// Length of one marching step of a ray, in thousandths of a tile.
pub const RAY_STEP: i64 = 500;

/// The tile that holds a point, as a pair of tile indices.
pub open spec fn tile_of(p: Vec2) -> (int, int) {
    (floor_div(p.x as int, TILE as int), floor_div(p.y as int, TILE as int))
}

/// Distance between the tiles of two points, in thousandths of a tile, rounded down.
pub open spec fn ray_length(from: Vec2, to: Vec2) -> int {
    let dx = (tile_of(to).0 - tile_of(from).0) * 1000;
    let dy = (tile_of(to).1 - tile_of(from).1) * 1000;
    spec_floor_sqrt(dx * dx + dy * dy)
}

/// How many samples a ray takes: it marches in half-tile steps and stops
/// once it is within half a tile of its target.
pub open spec fn ray_steps(from: Vec2, to: Vec2) -> int {
    let length = ray_length(from, to);
    if length <= RAY_STEP {
        0
    } else {
        ceil_div(length, RAY_STEP as int) - 1
    }
}

/// The `k`-th sample of the ray, in thousandths of a tile.
pub open spec fn ray_sample(from: Vec2, to: Vec2, k: int) -> (int, int) {
    let length = ray_length(from, to);
    let dx = (tile_of(to).0 - tile_of(from).0) * 1000;
    let dy = (tile_of(to).1 - tile_of(from).1) * 1000;
    (
        tile_of(from).0 * 1000 + trunc_div(dx * RAY_STEP * k, length),
        tile_of(from).1 * 1000 + trunc_div(dy * RAY_STEP * k, length),
    )
}

/// Whether the `k`-th sample of the ray lies in a cell with a tile on the collision layer.
pub open spec fn ray_blocked(world: &Level, from: Vec2, to: Vec2, k: int) -> bool {
    let sample = ray_sample(from, to, k);
    world.tile_at(
        clamp_i16(floor_div(sample.0, 1000)),
        clamp_i16(floor_div(sample.1, 1000)),
    )[COLLISION_LAYER as int] > 0
}

/// The point of a sample, as a position.
pub open spec fn ray_point(from: Vec2, to: Vec2, k: int) -> Vec2 {
    let sample = ray_sample(from, to, k);
    Vec2 { x: clamp_i32(sample.0 * 8) as i32, y: clamp_i32(sample.1 * 8) as i32 }
}

/// Marches from the tile of `from` toward the tile of `to` and reports the
/// first sample that lies in a solid cell, or `None` when the line is clear.
pub fn raycast(from: Vec2, to: Vec2, world: &Level) -> (r: Option<Vec2>)
    requires
        world.wf(),
    ensures
        match r {
            Some(hit) => exists|k: int|
                1 <= k <= ray_steps(from, to) && hit == ray_point(from, to, k) && ray_blocked(world, from, to, k)
                    && forall|j: int| 1 <= j < k ==> !ray_blocked(world, from, to, j),
            None => forall|j: int| 1 <= j <= ray_steps(from, to) ==> !ray_blocked(world, from, to, j),
        },
{
    let sx: i64 = tile_floor(from.x) as i64;
    let sy: i64 = tile_floor(from.y) as i64;
    let dx: i64 = (tile_floor(to.x) as i64 - sx) * 1000;
    let dy: i64 = (tile_floor(to.y) as i64 - sy) * 1000;
    assert(0 <= dx * dx <= 600_000_000 * 600_000_000) by (nonlinear_arith)
        requires
            -600_000_000 <= dx <= 600_000_000,
    ;
    assert(0 <= dy * dy <= 600_000_000 * 600_000_000) by (nonlinear_arith)
        requires
            -600_000_000 <= dy <= 600_000_000,
    ;
    let length: u64 = floor_sqrt((dx * dx + dy * dy) as u128);
    proof {
        assert(length * length <= 2 * 600_000_000 * 600_000_000);
        if length > 1_000_000_000 {
            assert(length * length > 1_000_000_000 * 1_000_000_000) by (nonlinear_arith)
                requires
                    length > 1_000_000_000,
            ;
        }
    }
    if length <= RAY_STEP as u64 {
        return None;
    }
    let length: i64 = length as i64;
    let steps: i64 = if length % RAY_STEP > 0 {
        length / RAY_STEP
    } else {
        length / RAY_STEP - 1
    };
    assert(steps == ray_steps(from, to));
    let mut k: i64 = 1;
    while k <= steps
        invariant
            world.wf(),
            1 <= k <= steps + 1,
            steps == ray_steps(from, to),
            steps <= 2_000_000,
            RAY_STEP < length <= 1_000_000_000,
            length == ray_length(from, to),
            sx == tile_of(from).0,
            sy == tile_of(from).1,
            dx == (tile_of(to).0 - tile_of(from).0) * 1000,
            dy == (tile_of(to).1 - tile_of(from).1) * 1000,
            -600_000_000 <= dx <= 600_000_000,
            -600_000_000 <= dy <= 600_000_000,
            forall|j: int| 1 <= j < k ==> !ray_blocked(world, from, to, j),
        decreases steps + 1 - k,
    {
        let travelled: i64 = RAY_STEP * k;
        assert(-600_000_000 * 1_000_000_000 <= dx * travelled <= 600_000_000 * 1_000_000_000)
            by (nonlinear_arith)
            requires
                -600_000_000 <= dx <= 600_000_000,
                0 <= travelled <= 1_000_000_000,
        ;
        assert(-600_000_000 * 1_000_000_000 <= dy * travelled <= 600_000_000 * 1_000_000_000)
            by (nonlinear_arith)
            requires
                -600_000_000 <= dy <= 600_000_000,
                0 <= travelled <= 1_000_000_000,
        ;
        assert(dx * RAY_STEP * k == dx * travelled) by (nonlinear_arith)
            requires
                travelled == RAY_STEP * k,
        ;
        assert(dy * RAY_STEP * k == dy * travelled) by (nonlinear_arith)
            requires
                travelled == RAY_STEP * k,
        ;
        let px: i64 = sx * 1000 + dx * travelled / length;
        let py: i64 = sy * 1000 + dy * travelled / length;
        let cx: i64 = if px % 1000 < 0 { px / 1000 - 1 } else { px / 1000 };
        let cy: i64 = if py % 1000 < 0 { py / 1000 - 1 } else { py / 1000 };
        let cell: [u16; 4] = world.get_tile(saturate_cell(saturate(cx)), saturate_cell(saturate(cy)));
        proof {
            assert(px == ray_sample(from, to, k as int).0);
            assert(py == ray_sample(from, to, k as int).1);
            assert(cx == floor_div(px as int, 1000));
            assert(cy == floor_div(py as int, 1000));
            assert(clamp_i16(clamp_i32(cx as int)) == clamp_i16(cx as int));
            assert(clamp_i16(clamp_i32(cy as int)) == clamp_i16(cy as int));
        }
        if cell[COLLISION_LAYER] > 0 {
            let hit: Vec2 = Vec2 { x: saturate(px * 8), y: saturate(py * 8) };
            assert(hit == ray_point(from, to, k as int));
            assert(ray_blocked(world, from, to, k as int));
            return Some(hit);
        }
        assert(!ray_blocked(world, from, to, k as int));
        k = k + 1;
    }
    None
}

/// Moves a body for `delta_time` and resolves its collisions with `world`.
///
/// Returns the new position, whether the body stands on ground, the death
/// tile it touched, and the side (`-1` left, `1` right) of a climbable wall
/// it ran into. `velocity` loses the component that a collision stopped.
pub fn update_physicsbody(
    pos: Vec2,
    velocity: &mut Vec2,
    delta_time: u32,
    world: &Level,
    tall: bool,
    enable_special_collisions: bool,
) -> (r: (Vec2, bool, Option<u16>, Option<i8>))
    requires
        world.wf(),
    ensures
        ({
            let step = spec_step(pos, *old(velocity), delta_time, world, tall, enable_special_collisions);
            &&& r.0 == step.pos
            &&& *final(velocity) == step.velocity
            &&& r.1 == step.grounded
            &&& r.2 == step.death_tile
            &&& r.3 == step.wall_climb
        }),
        old(velocity).y >= 0 && vertical_hit(pos, *old(velocity), delta_time, world, tall, enable_special_collisions)
            ==> r.1 && final(velocity).y == 0,
        vertical_hit(pos, *old(velocity), delta_time, world, tall, enable_special_collisions) ==> r.2.is_none(),
{
    let free_x: i32 = advance(pos.x, velocity.x, delta_time);
    let free_y: i32 = advance(pos.y, velocity.y, delta_time);
    let tiles_y: Vec<(i16, i16)> = vertical_candidates(pos, free_y, tall);
    let (hit_y, death_y) = scan(world, &tiles_y, enable_special_collisions);
    let grounded: bool = hit_y.is_some() && velocity.y >= 0;
    let new_y: i32 = if hit_y.is_some() { snap_back(pos.y, velocity.y) } else { free_y };
    let touched_death_tile: Option<u16> = if hit_y.is_some() { None } else { death_y };
    if hit_y.is_some() {
        velocity.y = 0;
    }
    let tiles_x: Vec<(i16, i16)> = horizontal_candidates(free_x, new_y, tall);
    let (hit_x, _) = scan(world, &tiles_x, enable_special_collisions);
    match hit_x {
        Some(index) => {
            let tx: i16 = tiles_x[index].0;
            let tile_data: [u16; 4] = world.get_tile(tx, tiles_x[index].1);
            let marker: u16 = tile_data[SPECIAL_LAYER];
            let climbs: bool = marker > 0 && world.is_wall_climb_tile(marker - 1);
            if climbs && velocity.y < 0 {
                velocity.y = brake(velocity.y, delta_time);
            }
            let new_x: i32 = snap_back(pos.x, velocity.x);
            velocity.x = 0;
            (
                Vec2 { x: new_x, y: new_y },
                grounded,
                touched_death_tile,
                if climbs { Some(if (tx as i32) * TILE < pos.x { -1 } else { 1 }) } else { None },
            )
        },
        None => (Vec2 { x: free_x, y: new_y }, grounded, touched_death_tile, None),
    }
}

fn vertical_candidates(pos: Vec2, new_y: i32, tall: bool) -> (r: Vec<(i16, i16)>)
    ensures
        r@ == vertical_cells(pos, new_y, tall),
{
    let left: i16 = saturate_cell(tile_trunc(pos.x));
    let right: i16 = saturate_cell(ceil_g(pos.x));
    let mut cells: Vec<(i16, i16)> = Vec::new();
    cells.push((left, saturate_cell(ceil_g(new_y))));
    cells.push((right, saturate_cell(ceil_g(new_y))));
    cells.push((left, saturate_cell(tile_trunc(new_y))));
    cells.push((right, saturate_cell(tile_trunc(new_y))));
    if tall {
        cells.push((left, saturate_cell(tile_floor(new_y) - 1)));
        cells.push((right, saturate_cell(tile_floor(new_y) - 1)));
    }
    assert(cells@ =~= vertical_cells(pos, new_y, tall));
    cells
}

fn horizontal_candidates(new_x: i32, new_y: i32, tall: bool) -> (r: Vec<(i16, i16)>)
    ensures
        r@ == horizontal_cells(new_x, new_y, tall),
{
    let left: i16 = saturate_cell(tile_trunc(new_x));
    let right: i16 = saturate_cell(ceil_g(new_x));
    let mut cells: Vec<(i16, i16)> = Vec::new();
    cells.push((left, saturate_cell(ceil_g(new_y))));
    cells.push((right, saturate_cell(ceil_g(new_y))));
    cells.push((right, saturate_cell(tile_trunc(new_y))));
    cells.push((left, saturate_cell(tile_trunc(new_y))));
    if tall {
        cells.push((left, saturate_cell(tile_floor(new_y) - 1)));
        cells.push((right, saturate_cell(tile_floor(new_y) - 1)));
    }
    assert(cells@ =~= horizontal_cells(new_x, new_y, tall));
    cells
}

fn snap_back(start: i32, speed: i32) -> (r: i32)
    ensures
        r == snap(start, speed),
{
    if speed < 0 {
        tile_edge(tile_floor(start))
    } else {
        tile_edge(tile_ceil(start))
    }
}

fn brake(speed: i32, delta_time: u32) -> (r: i32)
    ensures
        r == braked(speed, delta_time),
{
    let gained: i64 = speed_times(WALL_CLIMB_BRAKE, delta_time) / crate::fixed::SECOND;
    let slowed: i32 = saturate(speed as i64 + gained);
    if slowed > 0 {
        0
    } else {
        slowed
    }
}

/// A body that does not rise and finds a solid cell under its step comes
/// to rest on it: grounded, with no vertical speed left.
pub proof fn lemma_ground_stops_fall(pos: Vec2, velocity: Vec2, delta_time: u32, world: &Level, tall: bool, special: bool)
    requires
        velocity.y >= 0,
        vertical_hit(pos, velocity, delta_time, world, tall, special),
    ensures
        spec_step(pos, velocity, delta_time, world, tall, special).grounded,
        spec_step(pos, velocity, delta_time, world, tall, special).velocity.y == 0,
{
}

/// Where a solid cell stops the vertical motion, no death tile is
/// reported, whatever deadly cells the same pass looked at.
pub proof fn lemma_solid_hides_death_tile(pos: Vec2, velocity: Vec2, delta_time: u32, world: &Level, tall: bool, special: bool)
    requires
        vertical_hit(pos, velocity, delta_time, world, tall, special),
    ensures
        spec_step(pos, velocity, delta_time, world, tall, special).death_tile.is_none(),
{
}

/// A death tile is reported only if it is among the cells of the vertical pass.
pub proof fn lemma_reported_death_tile_was_met(world: &Level, cells: Seq<(i16, i16)>, n: int)
    requires
        last_death(world, cells, n).is_some(),
    ensures
        exists|i: int|
            0 <= i < n && i < cells.len() && #[trigger] is_deadly(cell_of(world, cells[i])) && last_death(world, cells, n)
                == Some((cell_of(world, cells[i])[COLLISION_LAYER as int] - 1) as u16),
    decreases n,
{
    if n > 0 && n <= cells.len() {
        if is_deadly(cell_of(world, cells[n - 1])) {
        } else {
            lemma_reported_death_tile_was_met(world, cells, n - 1);
        }
    }
}

} // verus!
