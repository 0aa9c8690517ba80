//! Fixed-point arithmetic: saturating scalars, rounding divisions and the
//! two-dimensional vector every entity is positioned with.

use vstd::prelude::*;

verus! {

/// One pixel, in length units.
pub const PIXEL: i32 = 1000;

/// The edge of one tile, in length units.
pub const TILE: i32 = 8000;

/// One second, in time units; also the denominator of every ratio.
pub const SECOND: i64 = 1_000_000;

/// The value of `x` forced into the range of `i32`.
pub open spec fn clamp_i32(x: int) -> int {
    if x < i32::MIN {
        i32::MIN as int
    } else if x > i32::MAX {
        i32::MAX as int
    } else {
        x
    }
}

/// The value of `x` forced into the range of `i16`.
pub open spec fn clamp_i16(x: int) -> int {
    if x < i16::MIN {
        i16::MIN as int
    } else if x > i16::MAX {
        i16::MAX as int
    } else {
        x
    }
}

/// The quotient `a / d` rounded toward zero.
pub open spec fn trunc_div(a: int, d: int) -> int
    recommends
        d > 0,
{
    if a >= 0 {
        a / d
    } else {
        -((-a) / d)
    }
}

/// The quotient `a / d` rounded down.
pub open spec fn floor_div(a: int, d: int) -> int
    recommends
        d > 0,
{
    a / d
}

/// The quotient `a / d` rounded up.
pub open spec fn ceil_div(a: int, d: int) -> int
    recommends
        d > 0,
{
    -((-a) / d)
}

/// The quotient `a / d` rounded away from zero.
pub open spec fn away_div(a: int, d: int) -> int
    recommends
        d > 0,
{
    if a < 0 {
        floor_div(a, d)
    } else {
        ceil_div(a, d)
    }
}

/// Narrows to `i32`, pinning values outside its range to the nearer end.
pub fn saturate(x: i64) -> (r: i32)
    ensures
        r == clamp_i32(x as int),
{
    if x < i32::MIN as i64 {
        i32::MIN
    } else if x > i32::MAX as i64 {
        i32::MAX
    } else {
        x as i32
    }
}

/// Narrows to `i32` from the widest integer, pinning as `saturate` does.
pub fn saturate_wide(x: i128) -> (r: i32)
    ensures
        r == clamp_i32(x as int),
{
    if x < i32::MIN as i128 {
        i32::MIN
    } else if x > i32::MAX as i128 {
        i32::MAX
    } else {
        x as i32
    }
}

/// Narrows to `i16`, pinning values outside its range to the nearer end.
pub fn saturate_cell(x: i32) -> (r: i16)
    ensures
        r == clamp_i16(x as int),
{
    if x < i16::MIN as i32 {
        i16::MIN
    } else if x > i16::MAX as i32 {
        i16::MAX
    } else {
        x as i16
    }
}

/// Saturating sum of two lengths or speeds.
pub fn sat_add(a: i32, b: i32) -> (r: i32)
    ensures
        r == clamp_i32(a + b),
{
    saturate(a as i64 + b as i64)
}

/// Saturating difference of two lengths or speeds.
pub fn sat_sub(a: i32, b: i32) -> (r: i32)
    ensures
        r == clamp_i32(a - b),
{
    saturate(a as i64 - b as i64)
}

/// Adds a time step to a running timer; the timer stops at the top of its range.
pub fn tick(time: u64, delta_time: u32) -> (r: u64)
    ensures
        r == spec_tick(time, delta_time),
{
    time.saturating_add(delta_time as u64)
}

/// A timer after a time step: their sum, or the top of the range.
pub open spec fn spec_tick(time: u64, delta_time: u32) -> u64 {
    if time + delta_time > u64::MAX {
        u64::MAX
    } else {
        (time + delta_time) as u64
    }
}

/// A timer in whole milliseconds, as animation queries take it.
pub open spec fn spec_millis(time: u64) -> u32 {
    if time / 1000 > u32::MAX {
        u32::MAX
    } else {
        (time / 1000) as u32
    }
}

/// Turns a timer into whole milliseconds.
pub fn millis(time: u64) -> (r: u32)
    ensures
        r == spec_millis(time),
{
    let ms: u64 = time / 1000;
    if ms > u32::MAX as u64 {
        u32::MAX
    } else {
        ms as u32
    }
}

/// How far a speed carries in a time step, before saturation.
pub open spec fn displacement(speed: int, delta_time: int) -> int {
    trunc_div(speed * delta_time, SECOND as int)
}

/// The product of a speed and a time step; it always fits.
pub fn speed_times(speed: i32, delta_time: u32) -> (r: i64)
    ensures
        r == speed * delta_time,
{
    assert(-0x8000_0000 * 0xFFFF_FFFF <= speed * delta_time <= 0x7FFF_FFFF * 0xFFFF_FFFF)
        by (nonlinear_arith)
        requires
            -0x8000_0000 <= speed <= 0x7FFF_FFFF,
            0 <= delta_time <= 0xFFFF_FFFF,
    ;
    (speed as i64) * (delta_time as i64)
}

/// Moves `from` by what `speed` covers in `delta_time`.
pub fn advance(from: i32, speed: i32, delta_time: u32) -> (r: i32)
    ensures
        r == spec_advance(from, speed, delta_time),
{
    let step: i64 = speed_times(speed, delta_time) / SECOND;
    saturate(from as i64 + step)
}

/// Where `from` comes to at `speed` in `delta_time`, within the range of a coordinate.
pub open spec fn spec_advance(from: i32, speed: i32, delta_time: u32) -> i32 {
    clamp_i32(from + displacement(speed as int, delta_time as int)) as i32
}

/// Linear interpolation from `a` toward `b` by `ratio` millionths.
///
/// A ratio above one million overshoots `b`; a negative one moves away from it.
pub open spec fn spec_lerp(a: i32, b: i32, ratio: int) -> i32 {
    clamp_i32(a + trunc_div((b - a) * ratio, SECOND as int)) as i32
}

/// Interpolates from `a` toward `b` by `ratio` millionths.
pub fn lerp(a: i32, b: i32, ratio: i64) -> (r: i32)
    ensures
        r == spec_lerp(a, b, ratio as int),
{
    let span: i128 = b as i128 - a as i128;
    assert(-0x1_0000_0000 * 0x8000_0000_0000_0000 <= span * ratio <= 0x1_0000_0000
        * 0x8000_0000_0000_0000) by (nonlinear_arith)
        requires
            -0x1_0000_0000 <= span <= 0x1_0000_0000,
            -0x8000_0000_0000_0000 <= ratio <= 0x8000_0000_0000_0000,
    ;
    let moved: i128 = span * (ratio as i128) / (SECOND as i128);
    saturate_wide(a as i128 + moved)
}

/// The tile index of a coordinate, rounded toward zero.
pub fn tile_trunc(a: i32) -> (q: i32)
    ensures
        q == trunc_div(a as int, TILE as int),
{
    a / TILE
}

/// The tile index of a coordinate, rounded down.
pub fn tile_floor(a: i32) -> (q: i32)
    ensures
        q == floor_div(a as int, TILE as int),
{
    let q: i32 = a / TILE;
    if a % TILE < 0 {
        q - 1
    } else {
        q
    }
}

/// The tile index of a coordinate, rounded up.
pub fn tile_ceil(a: i32) -> (q: i32)
    ensures
        q == ceil_div(a as int, TILE as int),
{
    let q: i32 = a / TILE;
    if a % TILE > 0 {
        q + 1
    } else {
        q
    }
}

/// The tile index of a coordinate, rounded away from zero: the tile on the
/// leading edge of a body that moves away from the origin.
pub fn ceil_g(a: i32) -> (q: i32)
    ensures
        q == away_div(a as int, TILE as int),
{
    if a < 0 {
        tile_floor(a)
    } else {
        tile_ceil(a)
    }
}

/// The coordinate of a tile boundary, given its index.
pub fn tile_edge(index: i32) -> (r: i32)
    ensures
        r == clamp_i32(index * TILE),
{
    saturate(index as i64 * TILE as i64)
}

/// A point or a velocity in the plane. `y` grows downward.
#[derive(Clone, Copy, Debug, PartialEq, Eq, Structural)]
pub struct Vec2 {
    pub x: i32,
    pub y: i32,
}

/// Shorthand for a vector literal.
pub fn vec2(x: i32, y: i32) -> (v: Vec2)
    ensures
        v == (Vec2 { x, y }),
{
    Vec2 { x, y }
}

/// The square of the distance between two points.
pub open spec fn dist_sq(a: Vec2, b: Vec2) -> int {
    (a.x - b.x) * (a.x - b.x) + (a.y - b.y) * (a.y - b.y)
}

impl Vec2 {
    /// Component-wise sum, each component within its range.
    pub open spec fn spec_plus(self, other: Vec2) -> Vec2 {
        Vec2 { x: clamp_i32(self.x + other.x) as i32, y: clamp_i32(self.y + other.y) as i32 }
    }

    /// Component-wise difference, each component within its range.
    pub open spec fn spec_minus(self, other: Vec2) -> Vec2 {
        Vec2 { x: clamp_i32(self.x - other.x) as i32, y: clamp_i32(self.y - other.y) as i32 }
    }

    /// Both components interpolated toward `target` by `ratio` millionths.
    pub open spec fn spec_lerp(self, target: Vec2, ratio: int) -> Vec2 {
        Vec2 { x: spec_lerp(self.x, target.x, ratio), y: spec_lerp(self.y, target.y, ratio) }
    }

    /// Component-wise saturating sum.
    pub fn plus(self, other: Vec2) -> (r: Vec2)
        ensures
            r == self.spec_plus(other),
    {
        Vec2 { x: sat_add(self.x, other.x), y: sat_add(self.y, other.y) }
    }

    /// Component-wise saturating difference.
    pub fn minus(self, other: Vec2) -> (r: Vec2)
        ensures
            r == self.spec_minus(other),
    {
        Vec2 { x: sat_sub(self.x, other.x), y: sat_sub(self.y, other.y) }
    }

    /// The square of the distance to `other`.
    pub fn distance_squared(self, other: Vec2) -> (r: u128)
        ensures
            r == dist_sq(self, other),
    {
        let dx: i128 = self.x as i128 - other.x as i128;
        let dy: i128 = self.y as i128 - other.y as i128;
        assert(0 <= dx * dx <= 0x1_0000_0000 * 0x1_0000_0000) by (nonlinear_arith)
            requires
                -0x1_0000_0000 <= dx <= 0x1_0000_0000,
        ;
        assert(0 <= dy * dy <= 0x1_0000_0000 * 0x1_0000_0000) by (nonlinear_arith)
            requires
                -0x1_0000_0000 <= dy <= 0x1_0000_0000,
        ;
        (dx * dx + dy * dy) as u128
    }

    /// Whether `other` lies closer than `radius`.
    pub fn closer_than(self, other: Vec2, radius: u32) -> (r: bool)
        ensures
            r == (dist_sq(self, other) < radius * radius),
    {
        let reach: u128 = radius as u128;
        assert(0 <= reach * reach <= 0xFFFF_FFFF * 0xFFFF_FFFF) by (nonlinear_arith)
            requires
                0 <= reach <= 0xFFFF_FFFF,
        ;
        self.distance_squared(other) < reach * reach
    }

    /// Whether `other` lies no farther than `radius`.
    pub fn within(self, other: Vec2, radius: u32) -> (r: bool)
        ensures
            r == (dist_sq(self, other) <= radius * radius),
    {
        let reach: u128 = radius as u128;
        assert(0 <= reach * reach <= 0xFFFF_FFFF * 0xFFFF_FFFF) by (nonlinear_arith)
            requires
                0 <= reach <= 0xFFFF_FFFF,
        ;
        self.distance_squared(other) <= reach * reach
    }

    /// The distance to `other`, rounded down to a whole length unit.
    pub fn distance(self, other: Vec2) -> (r: u64)
        ensures
            is_floor_sqrt(dist_sq(self, other), r as int),
            r == spec_floor_sqrt(dist_sq(self, other)),
    {
        floor_sqrt(self.distance_squared(other))
    }

    /// Interpolates both components toward `target` by `ratio` millionths.
    pub fn lerp(self, target: Vec2, ratio: i64) -> (r: Vec2)
        ensures
            r == self.spec_lerp(target, ratio as int),
    {
        Vec2 { x: lerp(self.x, target.x, ratio), y: lerp(self.y, target.y, ratio) }
    }
}

/// The point `length` away from `from` on the line toward `to`; `from`
/// itself when the two coincide. With `from` at the origin this is `to`
/// scaled to `length`, and the zero vector for a zero `to`.
pub open spec fn spec_toward(from: Vec2, to: Vec2, length: i32) -> Vec2 {
    let d = spec_floor_sqrt(dist_sq(to, from));
    if d == 0 {
        from
    } else {
        Vec2 {
            x: clamp_i32(from.x + trunc_div((to.x - from.x) * length, d)) as i32,
            y: clamp_i32(from.y + trunc_div((to.y - from.y) * length, d)) as i32,
        }
    }
}

/// Finds the point `length` away from `from` on the line toward `to`.
pub fn toward(from: Vec2, to: Vec2, length: i32) -> (r: Vec2)
    ensures
        r == spec_toward(from, to, length),
{
    let d: u64 = to.distance(from);
    if d == 0 {
        return from;
    }
    let dx: i128 = to.x as i128 - from.x as i128;
    let dy: i128 = to.y as i128 - from.y as i128;
    assert(-0x1_0000_0000 * 0x8000_0000 <= dx * length <= 0x1_0000_0000 * 0x8000_0000)
        by (nonlinear_arith)
        requires
            -0x1_0000_0000 <= dx <= 0x1_0000_0000,
            -0x8000_0000 <= length <= 0x8000_0000,
    ;
    assert(-0x1_0000_0000 * 0x8000_0000 <= dy * length <= 0x1_0000_0000 * 0x8000_0000)
        by (nonlinear_arith)
        requires
            -0x1_0000_0000 <= dy <= 0x1_0000_0000,
            -0x8000_0000 <= length <= 0x8000_0000,
    ;
    let mx: i128 = dx * (length as i128) / (d as i128);
    let my: i128 = dy * (length as i128) / (d as i128);
    Vec2 { x: saturate_wide(from.x as i128 + mx), y: saturate_wide(from.y as i128 + my) }
}

/// The point `step` nearer to `target` than `from` is; `target` itself
/// when it is no farther than `step`.
pub open spec fn spec_move_towards(from: Vec2, target: Vec2, step: u32) -> Vec2 {
    if dist_sq(from, target) <= step * step {
        target
    } else {
        spec_toward(from, target, step as i32)
    }
}

/// Moves `from` by `step` toward `target`, and no farther than `target`.
pub fn move_towards(from: Vec2, target: Vec2, step: u32) -> (r: Vec2)
    requires
        step <= i32::MAX,
    ensures
        r == spec_move_towards(from, target, step),
{
    if from.within(target, step) {
        target
    } else {
        toward(from, target, step as i32)
    }
}

/// The speed that covers `distance` in `delta_time`; zero for no time at all.
pub open spec fn spec_speed_over(distance: int, delta_time: u32) -> i32 {
    if delta_time == 0 {
        0
    } else {
        clamp_i32(trunc_div(distance * SECOND, delta_time as int)) as i32
    }
}

/// Works out the speed that covers `distance` in `delta_time`.
pub fn speed_over(distance: i64, delta_time: u32) -> (r: i32)
    ensures
        r == spec_speed_over(distance as int, delta_time),
{
    if delta_time == 0 {
        return 0;
    }
    let scaled: i128 = (distance as i128) * 1_000_000;
    saturate_wide(scaled / (delta_time as i128))
}

/// `r` is the largest integer whose square does not exceed `n`.
pub open spec fn is_floor_sqrt(n: int, r: int) -> bool {
    &&& 0 <= r
    &&& r * r <= n
    &&& n < (r + 1) * (r + 1)
}

/// The integer square root of `n`.
pub open spec fn spec_floor_sqrt(n: int) -> int {
    choose|r: int| is_floor_sqrt(n, r)
}

/// A number has at most one integer square root.
pub proof fn lemma_floor_sqrt_unique(n: int, a: int, b: int)
    requires
        is_floor_sqrt(n, a),
        is_floor_sqrt(n, b),
    ensures
        a == b,
{
    if a < b {
        assert((a + 1) * (a + 1) <= b * b) by (nonlinear_arith)
            requires
                0 <= a + 1 <= b,
        ;
    } else if b < a {
        assert((b + 1) * (b + 1) <= a * a) by (nonlinear_arith)
            requires
                0 <= b + 1 <= a,
        ;
    }
}

/// The integer square root: the largest `r` with `r * r <= n`.
pub fn floor_sqrt(n: u128) -> (r: u64)
    ensures
        is_floor_sqrt(n as int, r as int),
        r == spec_floor_sqrt(n as int),
{
    let mut lo: u128 = 0;
    let mut hi: u128 = 0x1_0000_0000_0000_0000;
    assert(n < hi * hi) by (nonlinear_arith)
        requires
            hi == 0x1_0000_0000_0000_0000,
            n <= 0xFFFF_FFFF_FFFF_FFFF_FFFF_FFFF_FFFF_FFFF,
    ;
    while hi - lo > 1
        invariant
            lo < hi <= 0x1_0000_0000_0000_0000,
            lo * lo <= n,
            n < hi * hi,
        decreases hi - lo,
    {
        let mid: u128 = lo + (hi - lo) / 2;
        assert(mid * mid <= 0xFFFF_FFFF_FFFF_FFFF * 0xFFFF_FFFF_FFFF_FFFF) by (nonlinear_arith)
            requires
                0 <= mid <= 0xFFFF_FFFF_FFFF_FFFF,
        ;
        if mid * mid <= n {
            lo = mid;
        } else {
            hi = mid;
        }
    }
    proof {
        assert(hi == lo + 1);
        assert(is_floor_sqrt(n as int, lo as int));
        lemma_floor_sqrt_unique(n as int, lo as int, spec_floor_sqrt(n as int));
    }
    lo as u64
}

} // verus!
