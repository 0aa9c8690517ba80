//! The second boss: rains fireballs from his pipe, then jumps after the player.

use vstd::prelude::*;
use crate::assets::{Assets, Level};
use crate::bosses::{Effect, age_effects, aged_effects, count_boss, one_more};
use crate::bosses::henry::{arc_point, gap, jump_point, with_effect};
use crate::fixed::{
    Vec2, PIXEL, clamp_i32, lerp, sat_add, sat_sub, spec_lerp, spec_tick, tick,
};
use crate::player::{CinematicBars, Dialogue, Player};
use crate::projectiles::{Projectile, UNIT, spec_new};
use crate::utils::random_between;

verus! {

/// How many fireballs fall in a wave.
pub const FIREBALL_AMT: usize = 10;

/// The least distance between any two fireballs of a wave.
pub const SAFE_GAP: i32 = 64_000;

/// How often a wave is drawn before the fireballs are set in a row instead.
pub const MAX_DRAWS: u32 = 10_000;

/// Whether the values stand in ascending order.
pub open spec fn sorted(s: Seq<i32>) -> bool {
    forall|i: int, j: int| 0 <= i <= j < s.len() ==> s[i] <= s[j]
}

/// Whether every two neighbours stand at least `SAFE_GAP` apart. Of values
/// in ascending order, any two then do.
pub open spec fn spaced(s: Seq<i32>) -> bool {
    forall|i: int| 0 <= i < s.len() - 1 ==> #[trigger] s[i + 1] - s[i] >= SAFE_GAP
}

/// Of positions whose neighbours stand `SAFE_GAP` apart, any two stand at
/// least that far apart: the later of them by `SAFE_GAP` for each place between.
pub proof fn lemma_spaced_pairs(s: Seq<i32>, i: int, j: int)
    requires
        spaced(s),
        0 <= i < j < s.len(),
    ensures
        s[j] - s[i] >= SAFE_GAP * (j - i),
        s[j] - s[i] >= SAFE_GAP,
    decreases j - i,
{
    assert(s[(j - 1) + 1] - s[j - 1] >= SAFE_GAP);
    if i < j - 1 {
        lemma_spaced_pairs(s, i, j - 1);
    }
    assert(SAFE_GAP * (j - i) == SAFE_GAP * (j - 1 - i) + SAFE_GAP) by (nonlinear_arith);
    assert(SAFE_GAP * (j - 1 - i) >= 0) by (nonlinear_arith)
        requires
            j - 1 - i >= 0,
            SAFE_GAP == 64_000,
    ;
}

/// Exchanging two members of a sequence keeps what it holds.
pub proof fn lemma_swap_keeps_members(s: Seq<i32>, i: int, j: int)
    requires
        0 <= i < s.len(),
        0 <= j < s.len(),
    ensures
        s.update(i, s[j]).update(j, s[i]).to_multiset() == s.to_multiset(),
{
    broadcast use vstd::seq_lib::group_to_multiset_ensures;
    broadcast use vstd::multiset::group_multiset_axioms;

    let once = s.update(i, s[j]);
    assert(once.to_multiset() == s.to_multiset().insert(s[j]).remove(s[i]));
    assert(once.update(j, s[i]).to_multiset() == once.to_multiset().insert(s[i]).remove(once[j]));
    assert(s.update(i, s[j]).update(j, s[i]).to_multiset() =~= s.to_multiset());
}

/// Puts the positions in ascending order.
pub fn sort_positions(positions: &mut [i32; 10])
    ensures
        sorted(final(positions)@),
        final(positions)@.to_multiset() == old(positions)@.to_multiset(),
{
    let mut i: usize = 1;
    while i < 10
        invariant
            1 <= i <= 10,
            positions@.to_multiset() == old(positions)@.to_multiset(),
            forall|a: int, b: int| 0 <= a <= b < i ==> positions@[a] <= positions@[b],
        decreases 10 - i,
    {
        let mut j: usize = i;
        while j > 0 && positions[j - 1] > positions[j]
            invariant
                0 <= j <= i < 10,
                positions@.to_multiset() == old(positions)@.to_multiset(),
                forall|a: int, b: int| 0 <= a <= b <= i && a != j && b != j ==> positions@[a] <= positions@[b],
                forall|b: int| j < b <= i ==> positions@[j as int] <= positions@[b],
            decreases j,
        {
            let low: i32 = positions[j];
            let high: i32 = positions[j - 1];
            proof {
                lemma_swap_keeps_members(positions@, j as int - 1, j as int);
            }
            positions[j - 1] = low;
            positions[j] = high;
            j = j - 1;
        }
        i = i + 1;
    }
}

/// Makes a wave of ten draws: the last draw gives way to the player's own
/// position, and the positions are put in order.
pub fn arrange(positions: &mut [i32; 10], player_x: i32)
    ensures
        sorted(final(positions)@),
        final(positions)@.to_multiset() == old(positions)@.update(9, player_x).to_multiset(),
{
    positions[9] = player_x;
    sort_positions(positions);
}

/// Tells whether every two neighbours among the positions stand at least `SAFE_GAP` apart.
pub fn well_spaced(positions: &[i32; 10]) -> (r: bool)
    ensures
        r == spaced(positions@),
{
    let mut i: usize = 0;
    while i < 9
        invariant
            0 <= i <= 9,
            forall|k: int| 0 <= k < i ==> #[trigger] positions@[k + 1] - positions@[k] >= SAFE_GAP,
        decreases 9 - i,
    {
        if (positions[i + 1] as i64 - positions[i] as i64) < SAFE_GAP as i64 {
            assert(positions@[i as int + 1] - positions@[i as int] < SAFE_GAP);
            return false;
        }
        i = i + 1;
    }
    true
}

/// Whether the fireball at place `p` of `s` is the one on a player at
/// `player_x`, and every other one falls between `lo` and `hi`.
pub open spec fn on_player(s: Seq<i32>, p: int, player_x: i32, lo: i32, hi: i32) -> bool {
    &&& 0 <= p < s.len()
    &&& s[p] == player_x
    &&& forall|i: int| 0 <= i < s.len() && i != p ==> lo <= #[trigger] s[i] <= hi
}

/// What holds of every wave of fireballs for a player at `player_x` and an
/// arena from `lo` to `hi`: the positions are in order, one of them is the
/// player's, and all the others lie between the bounds. Only the fireball
/// on the player can fall outside the arena.
pub open spec fn is_wave(s: Seq<i32>, player_x: i32, lo: i32, hi: i32) -> bool {
    &&& sorted(s)
    &&& exists|p: int| on_player(s, p, player_x, lo, hi)
}

/// The lesser of two coordinates.
pub open spec fn lesser(a: i32, b: i32) -> i32 {
    if a <= b {
        a
    } else {
        b
    }
}

/// The greater of two coordinates.
pub open spec fn greater(a: i32, b: i32) -> i32 {
    if a <= b {
        b
    } else {
        a
    }
}

/// The rightmost place for a fireball to the left of a player at
/// `player_x`: `SAFE_GAP` from the player, or the end of the arena if that
/// is further left.
pub open spec fn left_end(player_x: i32, hi: i32) -> int {
    if player_x - SAFE_GAP <= hi {
        player_x - SAFE_GAP
    } else {
        hi as int
    }
}

/// The leftmost place for a fireball to the right of a player at `player_x`.
pub open spec fn right_end(player_x: i32, lo: i32) -> int {
    if player_x + SAFE_GAP >= lo {
        player_x + SAFE_GAP
    } else {
        lo as int
    }
}

/// How many fireballs there is room for between `from` and `to`, each
/// `SAFE_GAP` from the next.
pub open spec fn places(from: int, to: int) -> int {
    if from <= to {
        (to - from) / (SAFE_GAP as int) + 1
    } else {
        0
    }
}

/// How many fireballs there is room for in the arena to the left of the player.
pub open spec fn room_left(player_x: i32, lo: i32, hi: i32) -> int {
    places(lo as int, left_end(player_x, hi))
}

/// How many fireballs there is room for in the arena to the right of the player.
pub open spec fn room_right(player_x: i32, lo: i32, hi: i32) -> int {
    places(right_end(player_x, lo), hi as int)
}

/// Whether the arena from `lo` to `hi` has room for a wave around a player
/// at `player_x`: for the nine fireballs that do not fall on the player.
pub open spec fn roomy(player_x: i32, lo: i32, hi: i32) -> bool {
    room_left(player_x, lo, hi) + room_right(player_x, lo, hi) >= FIREBALL_AMT - 1
}

/// A player in an arena ten gaps wide has room for a wave, wherever in it
/// the player stands.
pub proof fn lemma_wide_arena_is_roomy(player_x: i32, lo: i32, hi: i32)
    requires
        lo <= player_x <= hi,
        hi - lo >= 10 * SAFE_GAP,
    ensures
        roomy(player_x, lo, hi),
{
    let a = player_x - lo;
    let b = hi - player_x;
    assert(room_left(player_x, lo, hi) == a / (SAFE_GAP as int));
    assert(room_right(player_x, lo, hi) == b / (SAFE_GAP as int));
    assert(a / (SAFE_GAP as int) + b / (SAFE_GAP as int) >= 9);
}

/// A wave whose fireballs stand `SAFE_GAP` apart needs the room it takes:
/// where there is no room for a wave, no wave is spaced.
pub proof fn lemma_spaced_wave_needs_room(s: Seq<i32>, player_x: i32, lo: i32, hi: i32)
    requires
        s.len() == FIREBALL_AMT,
        is_wave(s, player_x, lo, hi),
        spaced(s),
    ensures
        roomy(player_x, lo, hi),
{
    let p = choose|p: int| on_player(s, p, player_x, lo, hi);
    if p > 0 {
        assert(s[(p - 1) + 1] - s[p - 1] >= SAFE_GAP);
        assert(lo <= s[p - 1] <= hi);
        assert(lo <= s[0] <= hi);
        if p > 1 {
            lemma_spaced_pairs(s, 0, p - 1);
        }
        let reach = left_end(player_x, hi) - lo;
        assert(reach >= SAFE_GAP * (p - 1));
        assert(reach / (SAFE_GAP as int) >= p - 1);
    }
    assert(room_left(player_x, lo, hi) >= p);
    if p < 9 {
        assert(s[p + 1] - s[p] >= SAFE_GAP);
        assert(lo <= s[p + 1] <= hi);
        assert(lo <= s[9] <= hi);
        if p < 8 {
            lemma_spaced_pairs(s, p + 1, 9);
        }
        let reach = hi - right_end(player_x, lo);
        assert(reach >= SAFE_GAP * (8 - p));
        assert(reach / (SAFE_GAP as int) >= 8 - p);
    }
    assert(room_right(player_x, lo, hi) >= 9 - p);
}

/// Values put in order are a wave, if they were drawn between the bounds
/// and the last of them gave way to the player's position.
pub proof fn lemma_arranged_wave(drawn: Seq<i32>, s: Seq<i32>, player_x: i32, lo: i32, hi: i32)
    requires
        drawn.len() == FIREBALL_AMT,
        forall|k: int| 0 <= k < 9 ==> lo <= #[trigger] drawn[k] <= hi,
        drawn[9] == player_x,
        sorted(s),
        s.to_multiset() == drawn.to_multiset(),
    ensures
        is_wave(s, player_x, lo, hi),
{
    broadcast use vstd::seq_lib::group_to_multiset_ensures;

    vstd::seq_lib::to_multiset_len(s);
    vstd::seq_lib::to_multiset_len(drawn);
    assert(drawn.contains(player_x));
    vstd::seq_lib::to_multiset_contains(drawn, player_x);
    vstd::seq_lib::to_multiset_contains(s, player_x);
    let p = choose|p: int| 0 <= p < s.len() && s[p] == player_x;
    assert forall|i: int| 0 <= i < s.len() && i != p implies lo <= #[trigger] s[i] <= hi by {
        assert(s.contains(s[i]));
        vstd::seq_lib::to_multiset_contains(drawn, s[i]);
        vstd::seq_lib::to_multiset_contains(s, s[i]);
        let w = choose|w: int| 0 <= w < drawn.len() && drawn[w] == s[i];
        if w == 9 && !(lo <= player_x <= hi) {
            // the player's position would stand twice in the wave, and once among the draws
            let rest = s.remove(i);
            let q = if p < i { p } else { p - 1 };
            assert(rest[q] == player_x);
            assert(rest.contains(player_x));
            vstd::seq_lib::to_multiset_contains(rest, player_x);
            vstd::seq_lib::to_multiset_remove(s, i);
            let others = drawn.remove(9);
            assert(!others.contains(player_x)) by {
                if others.contains(player_x) {
                    let v = choose|v: int| 0 <= v < others.len() && others[v] == player_x;
                    assert(others[v] == drawn[v]);
                }
            }
            vstd::seq_lib::to_multiset_contains(others, player_x);
            vstd::seq_lib::to_multiset_remove(drawn, 9);
            assert(false);
        }
    }
    assert(on_player(s, p, player_x, lo, hi));
}

/// Where the fireball at place `i` of the even wave falls: the player's
/// own at the place that leaves room on both sides, the others to its left
/// and right, each `SAFE_GAP` from the next.
pub open spec fn even_place(player_x: i32, lo: i32, hi: i32, i: int) -> int {
    let left = room_left(player_x, lo, hi);
    let k = if left >= 9 { 9 } else { left };
    if i < k {
        left_end(player_x, hi) - SAFE_GAP * (k - 1 - i)
    } else if i == k {
        player_x as int
    } else {
        right_end(player_x, lo) + SAFE_GAP * (i - k - 1)
    }
}

/// The even wave is one: its fireballs fall in the arena, in order and `SAFE_GAP` apart.
pub proof fn lemma_even_wave(s: Seq<i32>, player_x: i32, lo: i32, hi: i32)
    requires
        roomy(player_x, lo, hi),
        s.len() == FIREBALL_AMT,
        forall|i: int| 0 <= i < 10 ==> #[trigger] s[i] == even_place(player_x, lo, hi, i),
    ensures
        is_wave(s, player_x, lo, hi),
        spaced(s),
{
    let left = room_left(player_x, lo, hi);
    let k = if left >= 9 { 9 } else { left };
    assert forall|i: int| 0 <= i < s.len() - 1 implies #[trigger] s[i + 1] - s[i] >= SAFE_GAP by {
        assert(s[i] == even_place(player_x, lo, hi, i));
        assert(s[i + 1] == even_place(player_x, lo, hi, i + 1));
    }
    assert forall|i: int, j: int| 0 <= i <= j < s.len() implies s[i] <= s[j] by {
        if i < j {
            lemma_spaced_pairs(s, i, j);
        }
    }
    assert(s[k] == even_place(player_x, lo, hi, k));
    assert forall|i: int| 0 <= i < s.len() && i != k implies lo <= #[trigger] s[i] <= hi by {
        lemma_even_place_fits(player_x, lo, hi, i);
    }
    assert(on_player(s, k, player_x, lo, hi));
}

/// Every fireball of the even wave but the player's own falls in the arena.
pub proof fn lemma_even_place_fits(player_x: i32, lo: i32, hi: i32, i: int)
    requires
        roomy(player_x, lo, hi),
        0 <= i < 10,
    ensures
        i != (if room_left(player_x, lo, hi) >= 9 { 9 } else { room_left(player_x, lo, hi) })
            ==> lo <= even_place(player_x, lo, hi, i) <= hi,
{
    let left = room_left(player_x, lo, hi);
    let k = if left >= 9 { 9 } else { left };
    if i < k {
        let reach = left_end(player_x, hi) - lo;
        assert(reach / (SAFE_GAP as int) >= k - 1);
        assert(SAFE_GAP * (k - 1 - i) <= reach);
    } else if i > k {
        let reach = hi - right_end(player_x, lo);
        assert(room_right(player_x, lo, hi) >= 9 - k);
        assert(reach / (SAFE_GAP as int) >= 8 - k);
        assert(SAFE_GAP * (i - k - 1) <= reach);
    }
}

/// Finds the rightmost place for a fireball to the left of the player.
fn end_on_left(player_x: i32, hi: i32) -> (r: i64)
    ensures
        r == left_end(player_x, hi),
{
    let beside: i64 = player_x as i64 - SAFE_GAP as i64;
    if beside <= hi as i64 {
        beside
    } else {
        hi as i64
    }
}

/// Finds the leftmost place for a fireball to the right of the player.
fn end_on_right(player_x: i32, lo: i32) -> (r: i64)
    ensures
        r == right_end(player_x, lo),
{
    let beside: i64 = player_x as i64 + SAFE_GAP as i64;
    if beside >= lo as i64 {
        beside
    } else {
        lo as i64
    }
}

/// Counts the fireballs there is room for between `from` and `to`.
fn count_places(from: i64, to: i64) -> (r: i64)
    requires
        -4_294_967_296 <= from <= 4_294_967_296,
        -4_294_967_296 <= to <= 4_294_967_296,
    ensures
        r == places(from as int, to as int),
        0 <= r <= 200_000,
{
    if from <= to {
        (to - from) / (SAFE_GAP as i64) + 1
    } else {
        0
    }
}

/// The wave that is used where no draw gave one with room between its
/// fireballs: they fall in a row around the player, `SAFE_GAP` apart.
fn even_wave(player_x: i32, lo: i32, hi: i32) -> (r: [i32; 10])
    requires
        roomy(player_x, lo, hi),
    ensures
        forall|i: int| 0 <= i < 10 ==> #[trigger] r@[i] == even_place(player_x, lo, hi, i),
        is_wave(r@, player_x, lo, hi),
        spaced(r@),
{
    let last: i64 = end_on_left(player_x, hi);
    let first: i64 = end_on_right(player_x, lo);
    let left: i64 = count_places(lo as i64, last);
    let k: i64 = if left >= 9 { 9 } else { left };
    let mut r: [i32; 10] = [player_x; 10];
    let mut i: usize = 0;
    while i < 10
        invariant
            0 <= i <= 10,
            roomy(player_x, lo, hi),
            last == left_end(player_x, hi),
            first == right_end(player_x, lo),
            left == room_left(player_x, lo, hi),
            k == (if left >= 9 { 9 } else { left }),
            0 <= k <= 9,
            forall|j: int| 0 <= j < i ==> #[trigger] r@[j] == even_place(player_x, lo, hi, j),
        decreases 10 - i,
    {
        proof {
            lemma_even_place_fits(player_x, lo, hi, i as int);
        }
        let place: i64 = i as i64;
        if place < k {
            r[i] = (last - SAFE_GAP as i64 * (k - 1 - place)) as i32;
        } else if place > k {
            r[i] = (first + SAFE_GAP as i64 * (place - k - 1)) as i32;
        } else {
            r[i] = player_x;
        }
        i = i + 1;
    }
    proof {
        lemma_even_wave(r@, player_x, lo, hi);
    }
    r
}

/// Tells whether the arena has room for a wave around the player.
pub fn has_room(player_x: i32, lo: i32, hi: i32) -> (r: bool)
    ensures
        r == roomy(player_x, lo, hi),
{
    let last: i64 = end_on_left(player_x, hi);
    let first: i64 = end_on_right(player_x, lo);
    count_places(lo as i64, last) + count_places(first, hi as i64) >= 9
}

/// Draws where the fireballs of a wave fall: at random between the two
/// ends of the arena, but one of them on the player.
///
/// No two fireballs of a wave fall closer to each other than `SAFE_GAP`,
/// wherever the arena has room for that: every two of them, not only some
/// two. A wave is drawn afresh until that holds; where `MAX_DRAWS` draws
/// have not given such a wave, the fireballs fall in a row around the
/// player, `SAFE_GAP` apart. Where the arena has no room for it, no wave can
/// be spaced so, and the first one drawn is taken as it is. Returns whether
/// the wave it leaves in `positions` is spaced.
pub fn populate_fireball_positions(positions: &mut [i32; 10], player_pos: Vec2, left_target: Vec2, right_target: Vec2) -> (r: bool)
    ensures
        is_wave(
            final(positions)@,
            player_pos.x,
            lesser(left_target.x, right_target.x),
            greater(left_target.x, right_target.x),
        ),
        r == spaced(final(positions)@),
        r == roomy(player_pos.x, lesser(left_target.x, right_target.x), greater(left_target.x, right_target.x)),
        lesser(left_target.x, right_target.x) <= player_pos.x <= greater(left_target.x, right_target.x) && greater(
            left_target.x,
            right_target.x,
        ) - lesser(left_target.x, right_target.x) >= 10 * SAFE_GAP ==> r,
        r ==> forall|i: int, j: int|
            0 <= i < j < 10 ==> #[trigger] final(positions)@[j] - #[trigger] final(positions)@[i] >= SAFE_GAP,
{
    let mut r: bool = false;
    let lo: i32 = if left_target.x <= right_target.x { left_target.x } else { right_target.x };
    let hi: i32 = if left_target.x <= right_target.x { right_target.x } else { left_target.x };
    let room: bool = has_room(player_pos.x, lo, hi);
    let mut draws: u32 = 0;
    loop
        invariant_except_break
            0 <= draws < MAX_DRAWS,
        invariant
            lo <= hi,
            lo == lesser(left_target.x, right_target.x),
            hi == greater(left_target.x, right_target.x),
        ensures
            is_wave(positions@, player_pos.x, lo, hi),
            r == spaced(positions@),
        decreases MAX_DRAWS - draws,
    {
        let mut i: usize = 0;
        while i < 10
            invariant
                0 <= i <= 10,
                lo <= hi,
                forall|k: int| 0 <= k < i ==> lo <= #[trigger] positions@[k] <= hi,
            decreases 10 - i,
        {
            positions[i] = random_between(lo, hi);
            i = i + 1;
        }
        let ghost drawn = positions@.update(9, player_pos.x);
        arrange(positions, player_pos.x);
        proof {
            lemma_arranged_wave(drawn, positions@, player_pos.x, lo, hi);
        }
        r = well_spaced(positions);
        draws = draws + 1;
        if r || !room || draws >= MAX_DRAWS {
            break ;
        }
    }
    if room && !r {
        *positions = even_wave(player_pos.x, lo, hi);
        r = true;
    }
    proof {
        if r {
            lemma_spaced_wave_needs_room(positions@, player_pos.x, lo, hi);
            assert forall|i: int, j: int| 0 <= i < j < 10 implies #[trigger] positions@[j] - #[trigger] positions@[i]
                >= SAFE_GAP by {
                lemma_spaced_pairs(positions@, i, j);
            }
        }
        if lo <= player_pos.x <= hi && hi - lo >= 10 * SAFE_GAP {
            lemma_wide_arena_is_roomy(player_pos.x, lo, hi);
        }
    }
    r
}

/// What holds of the wave of fireballs that is drawn for a player at
/// `player_x` in the arena that `level` marks out: it is a wave, and its
/// fireballs stand `SAFE_GAP` apart if and only if the arena has room for
/// that; in an arena ten gaps wide around the player they always do.
pub open spec fn fair_wave(wave: Seq<i32>, player_x: i32, level: &Level) -> bool {
    let lo = lesser(level.markers@[MARKER_LEFT as int].x, level.markers@[MARKER_RIGHT as int].x);
    let hi = greater(level.markers@[MARKER_LEFT as int].x, level.markers@[MARKER_RIGHT as int].x);
    &&& is_wave(wave, player_x, lo, hi)
    &&& spaced(wave) == roomy(player_x, lo, hi)
    &&& lo <= player_x <= hi && hi - lo >= 10 * SAFE_GAP ==> spaced(wave)
}

/// The kind of projectile the boss sends along the ground when he lands.
pub const FIREWAVE: usize = 6;

/// Hits the boss takes.
pub const FIREKING_HEALTH: u8 = 10;

/// How many waves of fireballs make a round.
pub const FIREBALL_WAVE_AMT: u8 = 3;

/// How long the pipe takes to lift the boss.
pub const PIPE_MOVE_TIME: u64 = 1_000_000;

/// How long the targets show before the fireballs fall.
pub const WAIT_TIME: u64 = 1_000_000;

/// How long the fireballs fall.
pub const FIREBALL_FALL_TIME: u64 = 1_000_000;

/// How far the pipe lifts the boss.
pub const PIPE_RISE: i32 = 32_000;

/// How long the pipe takes to lower the boss after his jumps.
pub const PIPE_MOVE_DOWN_TIME: u64 = 250_000;

/// How long a jump is in the air.
pub const JUMP_AIR_TIME: u64 = 1_000_000;

/// How high a jump goes.
pub const JUMP_HEIGHT: i32 = 68_000;

/// How many jumps make a round; the last one lands on the pipe.
pub const JUMP_AMT: u8 = 5;

/// How long the pipe takes to sink back after the boss's death.
pub const PIPE_SINK_TIME: u64 = 500_000;

/// How long the boss waits before his first wave, and between rounds.
pub const FIRST_WAIT: u64 = 1_000_000;

pub const ROUND_WAIT: u64 = 2_000_000;

/// How close, sideways, a fallen fireball burns.
pub const FIREBALL_REACH: i32 = 16_000;

/// The height the camera must not sink below while the player is in the arena.
pub const CAMERA_CEILING: i32 = -80_000;

pub const DEATH_BY_LAVA: usize = 1;

pub const DEATH_BY_FIREBALL: usize = 3;

/// Markers of the arena: its two ends, the lava fall behind it, and the
/// line the player crosses to be spoken to.
pub const MARKER_LEFT: usize = 0;

pub const MARKER_RIGHT: usize = 1;

pub const MARKER_LAVAFALL: usize = 3;

pub const MARKER_LINE: usize = 4;

pub const CLIP_IDLE: usize = 0;

pub const CLIP_FIREBALLS: usize = 1;

/// The first of the three clips of a jump: crouch, flight, landing.
pub const CLIP_JUMP: usize = 2;

pub const CLIP_DEATH: usize = 5;

/// What the boss is doing.
#[derive(Clone, Copy, Debug, PartialEq, Eq)]
pub enum State {
    /// Waiting, for the given time.
    Idle(u64),
    /// Waves completed, and where the fireballs of the current wave fall.
    Fireballs(u8, [i32; 10]),
    /// Jumps completed, part of the jump (0 crouch, 1 flight, 2 landing),
    /// where the jump starts, where it lands.
    Jump(u8, usize, Vec2, Vec2),
    LandOnPipe,
    /// Dead; the height the pipe stood at when he died.
    Death(i32),
}

/// The boss himself, without the effects around him.
#[derive(Clone, Copy, Debug, PartialEq, Eq)]
pub struct Body {
    pub pos: Vec2,
    pub spawn: Vec2,
    pub health: u8,
    pub state: State,
    /// Time in the current phase.
    pub time: u64,
    /// Zero until the fight begins.
    pub activated: u64,
    /// Which of his lines the boss speaks next.
    pub dialogue_id: usize,
}

/// The second boss, with the blood around him.
pub struct Fireking {
    pub body: Body,
    pub blood_effects: Vec<Effect>,
}

/// What a frame of the boss's phase comes to.
#[derive(Clone, Copy, Debug, PartialEq, Eq)]
pub struct Turn {
    pub body: Body,
    /// Whether he sends fire along the ground, both ways, from where he stands.
    pub fire: bool,
    /// Whether a fireball burns the player.
    pub burns: bool,
    /// Whether the boss's death has played out.
    pub defeated: bool,
    /// Height of the pipe.
    pub pipe: i32,
}

/// `time` as a share of `whole`, in millionths, and no more than all of it.
pub open spec fn share(time: u64, whole: u64) -> int
    recommends
        whole > 0,
{
    if time >= whole {
        1_000_000
    } else {
        time * 1_000_000 / (whole as int)
    }
}

fn share_of(time: u64, whole: u64) -> (r: i64)
    requires
        0 < whole <= 1_000_000_000,
    ensures
        r == share(time, whole),
        0 <= r <= 1_000_000,
{
    if time >= whole {
        1_000_000
    } else {
        let r: u64 = time * 1_000_000 / whole;
        proof {
            assert(r <= 1_000_000) by (nonlinear_arith)
                requires
                    time < whole,
                    r == time * 1_000_000 / (whole as int),
                    whole > 0,
            ;
        }
        r as i64
    }
}

/// Whether a fireball at one of `positions` burns a player at `player_x`.
pub open spec fn burns_at(positions: Seq<i32>, player_x: i32) -> bool {
    exists|i: int| 0 <= i < positions.len() && gap(player_x, #[trigger] positions[i]) < FIREBALL_REACH
}

fn burnt(positions: &[i32; 10], player_x: i32) -> (r: bool)
    ensures
        r == burns_at(positions@, player_x),
{
    let mut i: usize = 0;
    while i < 10
        invariant
            0 <= i <= 10,
            forall|k: int| 0 <= k < i ==> gap(player_x, #[trigger] positions@[k]) >= FIREBALL_REACH,
        decreases 10 - i,
    {
        let apart: i64 = if player_x >= positions[i] {
            player_x as i64 - positions[i] as i64
        } else {
            positions[i] as i64 - player_x as i64
        };
        if apart < FIREBALL_REACH as i64 {
            return true;
        }
        i = i + 1;
    }
    false
}

impl Body {
    /// The arena is marked out in `level`.
    pub open spec fn arena(level: &Level) -> bool {
        level.markers@.len() > MARKER_LINE
    }

    /// A turn in which nothing happens but `body` and `pipe`.
    pub open spec fn quiet(body: Body, pipe: i32) -> Turn {
        Turn { body, fire: false, burns: false, defeated: false, pipe }
    }

    /// Dead: the pipe sinks back, and when it is down the fight is over.
    pub open spec fn spec_phase_death(&self, from: i32) -> Turn {
        let pipe = spec_lerp(from, self.spawn.y, share(self.time, PIPE_SINK_TIME));
        Turn { defeated: pipe + PIXEL >= self.spawn.y, ..Self::quiet(*self, pipe) }
    }

    /// Waiting: when the wait is over a round of fireballs begins, with `wave` as its first.
    pub open spec fn spec_phase_idle(&self, wait: u64, wave: [i32; 10]) -> Turn {
        if self.time >= wait {
            Self::quiet(Body { state: State::Fireballs(0, wave), time: 0, ..*self }, self.pos.y)
        } else {
            Self::quiet(*self, self.pos.y)
        }
    }

    /// After the jumps: the pipe lowers the boss to the floor, and a wait begins.
    pub open spec fn spec_phase_land(&self) -> Turn {
        if self.time >= PIPE_MOVE_DOWN_TIME {
            Self::quiet(
                Body { pos: Vec2 { x: self.pos.x, y: self.spawn.y }, state: State::Idle(ROUND_WAIT), time: 0, ..*self },
                self.spawn.y,
            )
        } else {
            let y = spec_lerp(
                clamp_i32(self.spawn.y - PIPE_RISE) as i32,
                self.spawn.y,
                share(self.time, PIPE_MOVE_DOWN_TIME),
            );
            Self::quiet(Body { pos: Vec2 { x: self.pos.x, y }, ..*self }, y)
        }
    }

    /// The clip a part of a jump shows.
    pub open spec fn jump_clip(part: usize) -> usize {
        if part >= 2 {
            (CLIP_JUMP + 2) as usize
        } else {
            (CLIP_JUMP + part) as usize
        }
    }

    /// Jumping. Each part lasts as long as its clip; the flight lasts
    /// `JUMP_AIR_TIME` on top of that. A landing on the floor sends fire
    /// along the ground. The boss jumps at the player; his last jump takes
    /// him back onto the raised pipe, and the phase ends there.
    pub open spec fn spec_phase_jump(&self, amt: u8, part: usize, src: Vec2, target: Vec2, player_x: i32, assets: &Assets) -> Turn {
        let pipe = clamp_i32(self.spawn.y - PIPE_RISE) as i32;
        let clip_time = assets.fireking.animations@[Self::jump_clip(part) as int].total_length * 1000;
        let after = if self.time < clip_time {
            (*self, amt, false)
        } else if part == 0 {
            (Body { state: State::Jump(amt, 1, src, target), time: 0, ..*self }, amt, false)
        } else if part == 1 {
            let flown = Body { pos: arc_point(src, target, JUMP_HEIGHT, share((self.time - clip_time) as u64, JUMP_AIR_TIME)), ..*self };
            if self.time - clip_time >= JUMP_AIR_TIME {
                let done = if amt >= JUMP_AMT - 1 && amt < 255 { (amt + 1) as u8 } else { amt };
                (Body { state: State::Jump(done, 2, src, target), time: 0, ..flown }, done, amt < JUMP_AMT - 1)
            } else {
                (flown, amt, false)
            }
        } else {
            let done = if amt < 255 { (amt + 1) as u8 } else { amt };
            (
                Body {
                    state: State::Jump(
                        done,
                        1,
                        Vec2 { x: self.pos.x, y: self.spawn.y },
                        if done >= JUMP_AMT - 1 {
                            Vec2 { x: self.spawn.x, y: pipe }
                        } else {
                            Vec2 { x: player_x, y: self.spawn.y }
                        },
                    ),
                    time: 0,
                    ..*self
                },
                done,
                false,
            )
        };
        Turn {
            body: if after.1 >= JUMP_AMT { Body { state: State::LandOnPipe, time: 0, ..after.0 } } else { after.0 },
            fire: after.2,
            ..Self::quiet(*self, pipe)
        }
    }

    /// When a wave is over: the fireballs have fallen and the bursting clip has played.
    pub open spec fn wave_end(assets: &Assets) -> int {
        PIPE_MOVE_TIME + WAIT_TIME + FIREBALL_FALL_TIME + (assets.fireball.animations@[1].total_length - 1) * 1000
    }

    /// Calling fireballs. The pipe lifts the boss; the fireballs fall and
    /// burn a player who stands under one; then `wave` is the next wave.
    /// After the last wave the boss begins to jump.
    pub open spec fn spec_phase_fireballs(&self, amt: u8, positions: [i32; 10], wave: [i32; 10], player_x: i32, assets: &Assets) -> Turn {
        let lifted = if self.time <= PIPE_MOVE_TIME {
            Body {
                pos: Vec2 {
                    x: self.pos.x,
                    y: spec_lerp(self.spawn.y, clamp_i32(self.spawn.y - PIPE_RISE) as i32, self.time as int),
                },
                ..*self
            }
        } else {
            *self
        };
        let fallen = self.time > PIPE_MOVE_TIME + WAIT_TIME + FIREBALL_FALL_TIME;
        let over = self.time >= Self::wave_end(assets);
        let done = if over && amt < 255 { (amt + 1) as u8 } else { amt };
        Turn {
            body: if done >= FIREBALL_WAVE_AMT {
                Body {
                    state: State::Jump(
                        0,
                        0,
                        Vec2 { x: lifted.pos.x, y: clamp_i32(self.spawn.y - PIPE_RISE) as i32 },
                        Vec2 { x: player_x, y: self.spawn.y },
                    ),
                    time: 0,
                    ..lifted
                }
            } else if over {
                Body { state: State::Fireballs(done, wave), time: PIPE_MOVE_TIME, ..lifted }
            } else {
                lifted
            },
            burns: fallen && burns_at(positions@, player_x),
            ..Self::quiet(*self, self.pos.y)
        }
    }

    /// Whether the boss's phase asks for a new wave of fireballs this frame.
    pub open spec fn spec_wants_wave(&self, assets: &Assets) -> bool {
        match self.state {
            State::Idle(wait) => self.time >= wait,
            State::Fireballs(_, _) => self.time >= Self::wave_end(assets),
            _ => false,
        }
    }

    /// What the boss's phase comes to in this frame. `wave` is used where
    /// the phase asks for a new wave of fireballs.
    pub open spec fn spec_phase(&self, player_x: i32, assets: &Assets, wave: [i32; 10]) -> Turn {
        match self.state {
            State::Death(from) => self.spec_phase_death(from),
            State::Idle(wait) => self.spec_phase_idle(wait, wave),
            State::LandOnPipe => self.spec_phase_land(),
            State::Jump(amt, part, src, target) => self.spec_phase_jump(amt, part, src, target, player_x, assets),
            State::Fireballs(amt, positions) => self.spec_phase_fireballs(amt, positions, wave, player_x, assets),
        }
    }

    fn phase_jump(&self, amt: u8, part: usize, src: Vec2, target: Vec2, player_x: i32, assets: &Assets) -> (r: Turn)
        requires
            assets.wf(),
        ensures
            r == self.spec_phase_jump(amt, part, src, target, player_x, assets),
    {
        let pipe: i32 = sat_sub(self.spawn.y, PIPE_RISE);
        let clip: usize = if part >= 2 { CLIP_JUMP + 2 } else { CLIP_JUMP + part };
        let clip_time: u64 = assets.fireking.animations[clip].total_length as u64 * 1000;
        let mut body: Body = *self;
        let mut done: u8 = amt;
        let mut fire: bool = false;
        if self.time >= clip_time {
            if part == 0 {
                body.state = State::Jump(amt, 1, src, target);
                body.time = 0;
            } else if part == 1 {
                let flight: u64 = self.time - clip_time;
                body.pos = jump_point(src, target, JUMP_HEIGHT, share_of(flight, JUMP_AIR_TIME) as u32);
                if flight >= JUMP_AIR_TIME {
                    done = if amt >= JUMP_AMT - 1 && amt < 255 { amt + 1 } else { amt };
                    fire = amt < JUMP_AMT - 1;
                    body.state = State::Jump(done, 2, src, target);
                    body.time = 0;
                }
            } else {
                done = if amt < 255 { amt + 1 } else { amt };
                body.state = State::Jump(
                    done,
                    1,
                    Vec2 { x: self.pos.x, y: self.spawn.y },
                    if done >= JUMP_AMT - 1 {
                        Vec2 { x: self.spawn.x, y: pipe }
                    } else {
                        Vec2 { x: player_x, y: self.spawn.y }
                    },
                );
                body.time = 0;
            }
        }
        if done >= JUMP_AMT {
            body.state = State::LandOnPipe;
            body.time = 0;
        }
        Turn { body, fire, burns: false, defeated: false, pipe }
    }

    fn phase_fireballs(&self, amt: u8, positions: [i32; 10], wave: [i32; 10], player_x: i32, assets: &Assets) -> (r: Turn)
        requires
            assets.wf(),
        ensures
            r == self.spec_phase_fireballs(amt, positions, wave, player_x, assets),
    {
        let mut body: Body = *self;
        if self.time <= PIPE_MOVE_TIME {
            body.pos = Vec2 { x: self.pos.x, y: lerp(self.spawn.y, sat_sub(self.spawn.y, PIPE_RISE), self.time as i64) };
        }
        let fallen: bool = self.time > PIPE_MOVE_TIME + WAIT_TIME + FIREBALL_FALL_TIME;
        let end: u64 = PIPE_MOVE_TIME + WAIT_TIME + FIREBALL_FALL_TIME + (assets.fireball.animations[1].total_length as u64
            - 1) * 1000;
        let over: bool = self.time >= end;
        let done: u8 = if over && amt < 255 { amt + 1 } else { amt };
        if done >= FIREBALL_WAVE_AMT {
            body.state = State::Jump(
                0,
                0,
                Vec2 { x: body.pos.x, y: sat_sub(self.spawn.y, PIPE_RISE) },
                Vec2 { x: player_x, y: self.spawn.y },
            );
            body.time = 0;
        } else if over {
            body.state = State::Fireballs(done, wave);
            body.time = PIPE_MOVE_TIME;
        }
        Turn { body, fire: false, burns: fallen && burnt(&positions, player_x), defeated: false, pipe: self.pos.y }
    }

    /// Works out the boss's phase for this frame, given the wave to use if
    /// the phase asks for one.
    pub fn phase(&self, player_x: i32, assets: &Assets, wave: [i32; 10]) -> (r: Turn)
        requires
            assets.wf(),
        ensures
            r == self.spec_phase(player_x, assets, wave),
    {
        match self.state {
            State::Death(from) => {
                let pipe: i32 = lerp(from, self.spawn.y, share_of(self.time, PIPE_SINK_TIME));
                Turn {
                    body: *self,
                    fire: false,
                    burns: false,
                    defeated: pipe as i64 + PIXEL as i64 >= self.spawn.y as i64,
                    pipe,
                }
            },
            State::Idle(wait) => {
                if self.time >= wait {
                    Turn {
                        body: Body { state: State::Fireballs(0, wave), time: 0, ..*self },
                        fire: false,
                        burns: false,
                        defeated: false,
                        pipe: self.pos.y,
                    }
                } else {
                    Turn { body: *self, fire: false, burns: false, defeated: false, pipe: self.pos.y }
                }
            },
            State::LandOnPipe => {
                if self.time >= PIPE_MOVE_DOWN_TIME {
                    Turn {
                        body: Body {
                            pos: Vec2 { x: self.pos.x, y: self.spawn.y },
                            state: State::Idle(ROUND_WAIT),
                            time: 0,
                            ..*self
                        },
                        fire: false,
                        burns: false,
                        defeated: false,
                        pipe: self.spawn.y,
                    }
                } else {
                    let y: i32 = lerp(sat_sub(self.spawn.y, PIPE_RISE), self.spawn.y, share_of(self.time, PIPE_MOVE_DOWN_TIME));
                    Turn {
                        body: Body { pos: Vec2 { x: self.pos.x, y }, ..*self },
                        fire: false,
                        burns: false,
                        defeated: false,
                        pipe: y,
                    }
                }
            },
            State::Jump(amt, part, src, target) => self.phase_jump(amt, part, src, target, player_x, assets),
            State::Fireballs(amt, positions) => self.phase_fireballs(amt, positions, wave, player_x, assets),
        }
    }

    /// Where the pipe stands: under the boss while he rides it, raised
    /// while he jumps, and sinking back after his death.
    pub open spec fn spec_pipe(&self) -> i32 {
        match self.state {
            State::Death(from) => spec_lerp(from, self.spawn.y, share(self.time, PIPE_SINK_TIME)),
            State::Jump(_, _, _, _) => clamp_i32(self.spawn.y - PIPE_RISE) as i32,
            _ => self.pos.y,
        }
    }

    /// Tells where the pipe stands.
    pub fn pipe(&self) -> (r: i32)
        ensures
            r == self.spec_pipe(),
    {
        match self.state {
            State::Death(from) => lerp(from, self.spawn.y, share_of(self.time, PIPE_SINK_TIME)),
            State::Jump(_, _, _, _) => sat_sub(self.spawn.y, PIPE_RISE),
            _ => self.pos.y,
        }
    }

    /// Which clip the boss shows and how far into it. The idle clip loops;
    /// any other stays on its last frame.
    pub open spec fn spec_animation(&self, assets: &Assets) -> (usize, u64) {
        let clip = if self.activated == 0 {
            CLIP_IDLE
        } else {
            match self.state {
                State::Idle(_) => CLIP_IDLE,
                State::LandOnPipe => CLIP_IDLE,
                State::Fireballs(_, _) => CLIP_FIREBALLS,
                State::Jump(_, part, _, _) => Self::jump_clip(part),
                State::Death(_) => CLIP_DEATH,
            }
        };
        let end = (assets.fireking.animations@[clip as int].total_length - 1) * 1000;
        (clip, if clip == CLIP_IDLE || self.time <= end { self.time } else { end as u64 })
    }

    /// Tells which clip the boss shows, and how far into it.
    pub fn animation(&self, assets: &Assets) -> (r: (usize, u64))
        requires
            assets.wf(),
        ensures
            r == self.spec_animation(assets),
            r.0 < assets.fireking.animations@.len(),
    {
        let clip: usize = if self.activated == 0 {
            CLIP_IDLE
        } else {
            match self.state {
                State::Idle(_) => CLIP_IDLE,
                State::LandOnPipe => CLIP_IDLE,
                State::Fireballs(_, _) => CLIP_FIREBALLS,
                State::Jump(_, part, _, _) => if part >= 2 { CLIP_JUMP + 2 } else { CLIP_JUMP + part },
                State::Death(_) => CLIP_DEATH,
            }
        };
        let end: u64 = (assets.fireking.animations[clip].total_length as u64 - 1) * 1000;
        (clip, if clip == CLIP_IDLE || self.time <= end { self.time } else { end })
    }

    /// Tells whether `phase` will use the wave handed to it.
    pub fn wants_wave(&self, assets: &Assets) -> (r: bool)
        requires
            assets.wf(),
        ensures
            r == self.spec_wants_wave(assets),
    {
        match self.state {
            State::Idle(wait) => self.time >= wait,
            State::Fireballs(_, _) => self.time >= PIPE_MOVE_TIME + WAIT_TIME + FIREBALL_FALL_TIME + (
            assets.fireball.animations[1].total_length as u64 - 1) * 1000,
            _ => false,
        }
    }
}

/// The boss's lines, in the order he speaks them.
pub open spec fn spec_line(index: usize) -> &'static str {
    if index == 0 {
        "I see you have defeated Henry."
    } else {
        "But now you shall burn."
    }
}

/// How many lines the boss speaks before the fight.
pub const LINES: usize = 2;

fn line(index: usize) -> (r: &'static str)
    ensures
        r == spec_line(index),
{
    if index == 0 {
        "I see you have defeated Henry."
    } else {
        "But now you shall burn."
    }
}

/// The player with the camera kept at or above `CAMERA_CEILING` while left of `right`.
pub open spec fn spec_framed(player: Player, right: i32) -> Player {
    if player.pos.x <= right && player.camera_pos.y > CAMERA_CEILING {
        Player { camera_pos: Vec2 { x: player.camera_pos.x, y: CAMERA_CEILING }, ..player }
    } else {
        player
    }
}

impl Body {
    /// Boss and player after the talk before the fight, and whether the
    /// fight begins in this frame.
    ///
    /// A player who crosses the line on foot is spoken to. Each line the
    /// player dismisses brings the next; after the last the fight begins.
    pub open spec fn spec_greet(&self, player: Player, level: &Level, delta_time: u32) -> (Body, Player, bool) {
        if player.active_dialogue.is_some() {
            if !player.active_dialogue.unwrap().closed {
                (*self, player, false)
            } else if self.dialogue_id + 1 >= LINES {
                (
                    Body { activated: if delta_time == 0 { 1 } else { delta_time as u64 }, time: 0, ..*self },
                    Player {
                        cinematic_bars: Some(CinematicBars { time: 0, leaving: false }),
                        active_dialogue: None,
                        in_boss_battle: true,
                        ..player
                    },
                    true,
                )
            } else {
                (
                    Body { dialogue_id: (self.dialogue_id + 1) as usize, ..*self },
                    Player {
                        active_dialogue: Some(
                            Dialogue {
                                text: spec_line((self.dialogue_id + 1) as usize),
                                name: "Fireking",
                                portrait: 1,
                                closed: false,
                            },
                        ),
                        ..player
                    },
                    false,
                )
            }
        } else if player.pos.x < level.markers@[MARKER_LINE as int].x && player.on_ground {
            (
                *self,
                Player {
                    active_dialogue: Some(Dialogue { text: spec_line(0), name: "Fireking", portrait: 1, closed: false }),
                    ..player
                },
                false,
            )
        } else {
            (*self, player, false)
        }
    }

    fn greet(&mut self, player: &mut Player, level: &Level, delta_time: u32) -> (r: bool)
        requires
            Self::arena(level),
        ensures
            *final(self) == old(self).spec_greet(*old(player), level, delta_time).0,
            *final(player) == old(self).spec_greet(*old(player), level, delta_time).1,
            r == old(self).spec_greet(*old(player), level, delta_time).2,
    {
        if player.active_dialogue.is_some() {
            if !player.active_dialogue.unwrap().closed {
                false
            } else if self.dialogue_id >= LINES - 1 {
                player.show_cinematic_bars();
                self.activated = if delta_time == 0 { 1 } else { delta_time as u64 };
                self.time = 0;
                player.active_dialogue = None;
                player.in_boss_battle = true;
                true
            } else {
                self.dialogue_id = self.dialogue_id + 1;
                player.show_dialogue(line(self.dialogue_id), "Fireking", 1);
                false
            }
        } else if player.pos.x < level.find_marker(MARKER_LINE).x && player.on_ground {
            player.show_dialogue(line(0), "Fireking", 1);
            false
        } else {
            false
        }
    }

    /// Whether `projectile` wounds the boss: it is the player's and inside his body.
    pub open spec fn spec_wounded_by(&self, projectile: Projectile) -> bool {
        &&& projectile.friendly
        &&& self.pos.y - 29 * PIXEL <= projectile.pos.y < self.pos.y + 8 * PIXEL
        &&& self.pos.x - 8 * PIXEL <= projectile.pos.x < self.pos.x + 8 * PIXEL
    }

    fn wounded_by(&self, projectile: &Projectile) -> (r: bool)
        ensures
            r == self.spec_wounded_by(*projectile),
    {
        let x: i64 = projectile.pos.x as i64;
        let y: i64 = projectile.pos.y as i64;
        projectile.friendly && self.pos.y as i64 - 29 * PIXEL as i64 <= y && y < self.pos.y as i64 + 8 * PIXEL as i64
            && self.pos.x as i64 - 8 * PIXEL as i64 <= x && x < self.pos.x as i64 + 8 * PIXEL as i64
    }

    /// How many of the first `n` projectiles wound the boss.
    pub open spec fn spec_wounds(&self, projectiles: Seq<Projectile>, n: int) -> nat
        decreases n,
    {
        if n <= 0 || n > projectiles.len() {
            0
        } else {
            self.spec_wounds(projectiles, n - 1) + if self.spec_wounded_by(projectiles[n - 1]) { 1nat } else { 0nat }
        }
    }

    /// The splashes of blood of the first `n` projectiles, one where each wounding one hit.
    pub open spec fn spec_splashes(&self, projectiles: Seq<Projectile>, n: int) -> Seq<Effect>
        decreases n,
    {
        if n <= 0 || n > projectiles.len() {
            Seq::empty()
        } else if self.spec_wounded_by(projectiles[n - 1]) {
            self.spec_splashes(projectiles, n - 1).push(
                Effect { pos: projectiles[n - 1].pos, time: 0, flipped: projectiles[n - 1].direction.x > 0 },
            )
        } else {
            self.spec_splashes(projectiles, n - 1)
        }
    }

    /// The projectiles after their chance at the boss: every one that wounded him is spent.
    pub open spec fn spec_spent(&self, projectiles: Seq<Projectile>) -> Seq<Projectile> {
        Seq::new(
            projectiles.len(),
            |i: int|
                if self.spec_wounded_by(projectiles[i]) {
                    Projectile { dead: true, ..projectiles[i] }
                } else {
                    projectiles[i]
                },
        )
    }

    /// Whether the boss can be wounded at all: he lives and the fight is on.
    pub open spec fn spec_exposed(&self) -> bool {
        !(self.state is Death) && self.activated > 0
    }

    /// The boss's health after `wounds` hits.
    pub open spec fn spec_health(&self, wounds: nat) -> u8 {
        if wounds >= self.health {
            0
        } else {
            (self.health - wounds) as u8
        }
    }

    /// Lets every projectile have its chance at the boss. Returns his health afterwards.
    fn hurt(&self, projectiles: &mut Vec<Projectile>, blood: &mut Vec<Effect>) -> (r: u8)
        ensures
            r == self.spec_health(self.spec_wounds(old(projectiles)@, old(projectiles)@.len() as int)),
            final(projectiles)@ == self.spec_spent(old(projectiles)@),
            final(blood)@ == old(blood)@ + self.spec_splashes(old(projectiles)@, old(projectiles)@.len() as int),
    {
        let mut health: u8 = self.health;
        let mut i: usize = 0;
        assert(old(blood)@ + Seq::<Effect>::empty() =~= old(blood)@);
        while i < projectiles.len()
            invariant
                0 <= i <= projectiles@.len(),
                projectiles@.len() == old(projectiles)@.len(),
                health == self.spec_health(self.spec_wounds(old(projectiles)@, i as int)),
                blood@ == old(blood)@ + self.spec_splashes(old(projectiles)@, i as int),
                forall|k: int| 0 <= k < i ==> #[trigger] projectiles@[k] == self.spec_spent(old(projectiles)@)[k],
                forall|k: int| i <= k < projectiles@.len() ==> #[trigger] projectiles@[k] == old(projectiles)@[k],
            decreases projectiles@.len() - i,
        {
            let hit: Projectile = projectiles[i];
            if self.wounded_by(&hit) {
                projectiles[i] = Projectile { dead: true, ..hit };
                health = if health > 0 { health - 1 } else { 0 };
                blood.push(Effect { pos: hit.pos, time: 0, flipped: hit.direction.x > 0 });
                assert(blood@ =~= old(blood)@ + self.spec_splashes(old(projectiles)@, i as int + 1));
            }
            i = i + 1;
        }
        assert(projectiles@ =~= self.spec_spent(old(projectiles)@));
        health
    }
}

/// The two tongues of fire a landing boss sends along the ground from `pos`.
pub open spec fn spec_firewaves(pos: Vec2) -> Seq<Projectile> {
    seq![
        spec_new(FIREWAVE, pos, Vec2 { x: UNIT, y: 0 }),
        spec_new(FIREWAVE, pos, Vec2 { x: (-UNIT) as i32, y: 0 }),
    ]
}

/// The player once the boss's death has played out: out of the fight, one
/// boss richer, and the bars on their way out. Counted once: only a player
/// still in the fight is released.
pub open spec fn spec_released(player: Player) -> Player {
    if player.in_boss_battle {
        Player {
            in_boss_battle: false,
            defeated_bosses: one_more(player.defeated_bosses),
            time_since_last_boss_defeated: 0,
            cinematic_bars: if player.cinematic_bars.is_some() {
                Some(CinematicBars { time: 0, leaving: true })
            } else {
                None
            },
            ..player
        }
    } else {
        player
    }
}

impl Fireking {
    /// The boss at rest at `pos`, in full health, before the fight.
    pub open spec fn spec_new(pos: Vec2) -> Body {
        Body {
            pos,
            spawn: pos,
            health: FIREKING_HEALTH,
            state: State::Idle(FIRST_WAIT),
            time: 0,
            activated: 0,
            dialogue_id: 0,
        }
    }

    /// The boss waiting at `pos` for the player.
    pub fn new(pos: Vec2) -> (r: Fireking)
        ensures
            r.body == Self::spec_new(pos),
            r.blood_effects@.len() == 0,
    {
        Fireking {
            body: Body {
                pos,
                spawn: pos,
                health: FIREKING_HEALTH,
                state: State::Idle(FIRST_WAIT),
                time: 0,
                activated: 0,
                dialogue_id: 0,
            },
            blood_effects: Vec::new(),
        }
    }

    /// Boss, player, projectiles and pipe after a frame of the fight,
    /// before the projectiles have their chance at the boss.
    ///
    /// A player who has run past the lava fall dies in it. The boss's phase
    /// runs; its fire joins the projectiles, its fireballs burn, and its end
    /// releases the player.
    pub open spec fn spec_fought(body: Body, player: Player, projectiles: Seq<Projectile>, level: &Level, assets: &Assets, wave: [i32; 10]) -> (Body, Player, Seq<Projectile>, i32) {
        let wet = if player.pos.x > level.markers@[MARKER_LAVAFALL as int].x + 8 * PIXEL {
            player.spec_kill(DEATH_BY_LAVA, false)
        } else {
            player
        };
        let turn = body.spec_phase(player.pos.x, assets, wave);
        let burnt = if turn.burns { wet.spec_kill(DEATH_BY_FIREBALL, true) } else { wet };
        (
            turn.body,
            if turn.defeated { spec_released(burnt) } else { burnt },
            if turn.fire { projectiles + spec_firewaves(turn.body.pos) } else { projectiles },
            turn.pipe,
        )
    }

    /// Boss, player, projectiles and pipe after a frame before the fight.
    /// When the fight begins, the projectiles in the air are cleared away.
    pub open spec fn spec_opened(body: Body, player: Player, projectiles: Seq<Projectile>, level: &Level, delta_time: u32) -> (Body, Player, Seq<Projectile>, i32) {
        let greeted = body.spec_greet(player, level, delta_time);
        (greeted.0, greeted.1, if greeted.2 { Seq::empty() } else { projectiles }, body.pos.y)
    }

    /// Boss, blood, player and projectiles one frame later, given the wave
    /// of fireballs to use if the boss's phase asks for one.
    ///
    /// In order: the camera is kept on the arena, the boss's clock runs,
    /// the talk or the fight goes on, the projectiles have their chance at
    /// a boss who lives and fights, a boss without health dies once he is
    /// down on the floor, and the blood ages.
    pub open spec fn spec_update(
        body: Body,
        blood: Seq<Effect>,
        player: Player,
        projectiles: Seq<Projectile>,
        level: &Level,
        assets: &Assets,
        delta_time: u32,
        wave: [i32; 10],
    ) -> (Body, Seq<Effect>, Player, Seq<Projectile>) {
        let framed = spec_framed(player, level.markers@[MARKER_RIGHT as int].x);
        let timed = Body { time: spec_tick(body.time, delta_time), ..body };
        let acted = if body.activated == 0 {
            Self::spec_opened(timed, framed, projectiles, level, delta_time)
        } else {
            Self::spec_fought(timed, framed, projectiles, level, assets, wave)
        };
        let open = !(body.state is Death) && acted.0.activated > 0;
        let hurt = if open {
            Body { health: acted.0.spec_health(acted.0.spec_wounds(acted.2, acted.2.len() as int)), ..acted.0 }
        } else {
            acted.0
        };
        let bled = if open { blood + acted.0.spec_splashes(acted.2, acted.2.len() as int) } else { blood };
        (
            if hurt.health == 0 && !(body.state is Death) && hurt.pos.y + PIXEL >= hurt.spawn.y {
                Body { state: State::Death(acted.3), time: 0, ..hurt }
            } else {
                hurt
            },
            aged_effects(bled, delta_time, assets.blood.total_length, bled.len() as int),
            acted.1,
            if open { acted.0.spec_spent(acted.2) } else { acted.2 },
        )
    }

    fn fight(body: &mut Body, player: &mut Player, projectiles: &mut Vec<Projectile>, level: &Level, assets: &Assets) -> (r: (i32, Ghost<[i32; 10]>))
        requires
            assets.wf(),
            Body::arena(level),
        ensures
            old(body).spec_wants_wave(assets) ==> fair_wave(r.1@@, old(player).pos.x, level),
            (*final(body), *final(player), final(projectiles)@, r.0) == Self::spec_fought(
                *old(body),
                *old(player),
                old(projectiles)@,
                level,
                assets,
                r.1@,
            ),
    {
        let player_pos: Vec2 = player.pos;
        if player.pos.x as i64 > level.find_marker(MARKER_LAVAFALL).x as i64 + 8 * PIXEL as i64 {
            player.kill(DEATH_BY_LAVA, false);
        }
        let mut wave: [i32; 10] = plain_wave(player_pos.x);
        if body.wants_wave(assets) {
            populate_fireball_positions(&mut wave, player_pos, level.find_marker(MARKER_LEFT), level.find_marker(MARKER_RIGHT));
        }
        let turn: Turn = body.phase(player_pos.x, assets, wave);
        *body = turn.body;
        if turn.fire {
            projectiles.push(Projectile::new(FIREWAVE, body.pos, Vec2 { x: UNIT, y: 0 }));
            projectiles.push(Projectile::new(FIREWAVE, body.pos, Vec2 { x: -UNIT, y: 0 }));
            assert(projectiles@ =~= old(projectiles)@ + spec_firewaves(body.pos));
        }
        if turn.burns {
            player.kill(DEATH_BY_FIREBALL, true);
        }
        if turn.defeated && player.in_boss_battle {
            player.in_boss_battle = false;
            player.defeated_bosses = count_boss(player.defeated_bosses);
            player.time_since_last_boss_defeated = 0;
            player.hide_cinematic_bars();
        }
        (turn.pipe, Ghost(wave))
    }

    /// Whether the boss calls for a new wave of fireballs in this frame:
    /// the fight is on, and his phase, its clock run on, asks for one.
    pub open spec fn calls_wave(body: Body, assets: &Assets, delta_time: u32) -> bool {
        body.activated > 0 && (Body { time: spec_tick(body.time, delta_time), ..body }).spec_wants_wave(assets)
    }

    /// Whether boss, blood, player and projectiles `after` are what a frame
    /// makes of those `before`: the frame goes as `spec_update` says. Where
    /// the boss calls for a wave of fireballs, it goes so for some fair wave:
    /// which one was drawn shows in the boss's state.
    pub open spec fn stepped(
        body: Body,
        blood: Seq<Effect>,
        player: Player,
        projectiles: Seq<Projectile>,
        body_after: Body,
        blood_after: Seq<Effect>,
        player_after: Player,
        projectiles_after: Seq<Projectile>,
        assets: &Assets,
        delta_time: u32,
        level: &Level,
    ) -> bool {
        exists|wave: [i32; 10]|
            {
                &&& Self::calls_wave(body, assets, delta_time) ==> fair_wave(wave@, player.pos.x, level)
                &&& (body_after, blood_after, player_after, projectiles_after) == #[trigger] Self::spec_update(
                    body,
                    blood,
                    player,
                    projectiles,
                    level,
                    assets,
                    delta_time,
                    wave,
                )
            }
    }

    /// Advances the boss by one frame. Where the boss's phase asks for a
    /// wave of fireballs, one is drawn at random.
    pub fn update(
        &mut self,
        assets: &Assets,
        delta_time: u32,
        level: &Level,
        projectiles: &mut Vec<Projectile>,
        player: &mut Player,
    )
        requires
            assets.wf(),
            Body::arena(level),
        ensures
            Self::stepped(
                old(self).body,
                old(self).blood_effects@,
                *old(player),
                old(projectiles)@,
                final(self).body,
                final(self).blood_effects@,
                *final(player),
                final(projectiles)@,
                assets,
                delta_time,
                level,
            ),
    {
        let was_dead: bool = matches!(self.body.state, State::Death(_));
        let was_active: bool = self.body.activated > 0;
        if player.pos.x <= level.find_marker(MARKER_RIGHT).x && player.camera_pos.y > CAMERA_CEILING {
            player.camera_pos = Vec2 { x: player.camera_pos.x, y: CAMERA_CEILING };
        }
        let framed_x: i32 = player.pos.x;
        let mut body: Body = self.body;
        body.time = tick(body.time, delta_time);
        let pipe: i32;
        let ghost wave: [i32; 10];
        if !was_active {
            pipe = body.pos.y;
            let started: bool = body.greet(player, level, delta_time);
            if started {
                projectiles.clear();
            }
            let plain: [i32; 10] = plain_wave(framed_x);
            proof {
                wave = plain;
            }
        } else {
            let fought = Self::fight(&mut body, player, projectiles, level, assets);
            pipe = fought.0;
            proof {
                wave = fought.1@;
            }
        }
        if !was_dead && body.activated > 0 {
            body.health = body.hurt(projectiles, &mut self.blood_effects);
        }
        if body.health == 0 && !was_dead && body.pos.y as i64 + PIXEL as i64 >= body.spawn.y as i64 {
            body.state = State::Death(pipe);
            body.time = 0;
        }
        self.body = body;
        age_effects(&mut self.blood_effects, delta_time, assets.blood.total_length);
        proof {
            let expected = Self::spec_update(
                old(self).body,
                old(self).blood_effects@,
                *old(player),
                old(projectiles)@,
                level,
                assets,
                delta_time,
                wave,
            );
            assert(*player == expected.2);
            assert(projectiles@ == expected.3);
            assert(self.body == expected.0);
            assert(self.blood_effects@ == expected.1);
        }
    }
}

/// The wave with every fireball on the player: what a phase that asks
/// for no wave is handed.
pub fn plain_wave(player_x: i32) -> (r: [i32; 10])
    ensures
        forall|i: int| 0 <= i < 10 ==> r@[i] == player_x,
{
    let r: [i32; 10] = [
        player_x,
        player_x,
        player_x,
        player_x,
        player_x,
        player_x,
        player_x,
        player_x,
        player_x,
        player_x,
    ];
    r
}

} // verus!
