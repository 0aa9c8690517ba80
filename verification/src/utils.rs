//! Constants shared by the whole simulation, and tile classification.

use vstd::prelude::*;
use crate::fixed::Vec2;

pub mod debug;

pub use debug::DebugFlags;

verus! {

/// Width of the visible playfield.
pub const SCREEN_WIDTH: i32 = 256_000;

/// Height of the visible playfield.
pub const SCREEN_HEIGHT: i32 = 144_000;

/// How far a lasso can be thrown.
pub const MAX_LASSO_DISTANCE: u32 = 64_000;

/// Downward acceleration, in speed units per second.
pub const GRAVITY: i32 = 735_000;

/// How long the fade between two levels lasts.
pub const LEVEL_TRANSITION_LENGTH: u64 = 500_000;

/// Empty space kept below the lowest floor of a level.
pub const FLOOR_PADDING: i32 = 16_000;

/// How long a dialogue box takes to slide in.
pub const DIALOGUE_SLIDE_IN_TIME: u64 = 500_000;

/// How long the text of a dialogue takes to fade in.
pub const TEXT_FADE_IN_TIME: u64 = 200_000;

/// How long the cinematic bars take to come or go.
pub const CINEMATIC_BAR_FADE_TIME: u64 = 1_000_000;

/// The longest time step the simulation integrates: one sixtieth of a second.
pub const MAX_DELTA_TIME: u32 = 16_667;

/// Index of the layer that holds solid tiles.
pub const COLLISION_LAYER: usize = 1;

/// Index of the layer that holds interactive tiles.
pub const SPECIAL_LAYER: usize = 3;

/// Interactive tile that turns an otherwise empty cell into a wall when
/// special collisions are enabled.
pub const BARRIER_TILE: u16 = 864;

/// Tiles that kill the player on contact. Identifiers count from zero; a
/// stored cell value is the identifier plus one, and zero means no tile.
pub open spec fn spec_is_death_tile(id: u16) -> bool {
    id == 128 || id == 352 || id == 288
}

/// Tells whether a tile kills the player on contact.
pub fn is_death_tile(id: u16) -> (r: bool)
    ensures
        r == spec_is_death_tile(id),
{
    id == 128 || id == 352 || id == 288
}

/// The interactive tiles that a level lets bodies cling to unless it says otherwise.
pub const WALL_CLIMB_TILE: u16 = 512;

pub const WALL_CLIMB_TILE_TOP: u16 = 513;

/// The set of climbable tiles that a level starts with.
pub fn default_wall_climb_tiles() -> (r: Vec<u16>)
    ensures
        r@ == seq![WALL_CLIMB_TILE, WALL_CLIMB_TILE_TOP],
{
    let mut tiles: Vec<u16> = Vec::new();
    tiles.push(WALL_CLIMB_TILE);
    tiles.push(WALL_CLIMB_TILE_TOP);
    assert(tiles@ =~= seq![WALL_CLIMB_TILE, WALL_CLIMB_TILE_TOP]);
    tiles
}

/// A pseudo-random integer from `macroquad::rand::gen_range`.
///
/// The generator scales a 32-bit draw into the span from `low` to `high`
/// and rounds toward zero, so the result lies between the two bounds, both
/// included. Nothing else is claimed of it: two calls may differ.
#[verifier::external_body]
pub(crate) fn random_between(low: i32, high: i32) -> (r: i32)
    requires
        low <= high,
    ensures
        low <= r <= high,
{
    macroquad::rand::gen_range(low, high)
}

/// The time step simulated for a frame that took `frame_time`: the frame
/// time itself, but never more than `MAX_DELTA_TIME`.
pub open spec fn spec_clamp_delta_time(frame_time: u32) -> u32 {
    if frame_time > MAX_DELTA_TIME {
        MAX_DELTA_TIME
    } else {
        frame_time
    }
}

/// The time step actually simulated for a frame that took `frame_time`.
pub fn clamp_delta_time(frame_time: u32) -> (r: u32)
    ensures
        r == spec_clamp_delta_time(frame_time),
        r <= MAX_DELTA_TIME,
{
    if frame_time > MAX_DELTA_TIME {
        MAX_DELTA_TIME
    } else {
        frame_time
    }
}

/// What one gamepad says of moving: its left stick, in thousandths, and its
/// four direction buttons.
#[derive(Clone, Copy, Debug, PartialEq, Eq)]
pub struct Pad {
    pub stick: Vec2,
    pub left: bool,
    pub right: bool,
    pub up: bool,
    pub down: bool,
}

/// What the keyboard says of moving: whether each of the four keys is down.
#[derive(Clone, Copy, Debug, PartialEq, Eq)]
pub struct Keys {
    pub a: bool,
    pub d: bool,
    pub w: bool,
    pub s: bool,
}

/// One step of an axis, in thousandths.
pub const FULL_AXIS: i32 = 1000;

/// The axis a gamepad asks for, if it asks for any: its stick where that
/// is off centre, else its direction buttons where one of them is down.
/// Of the buttons, `left` and `down` give a positive step, `right` and `up`
/// a negative one.
pub open spec fn pad_axis(pad: Pad) -> Option<Vec2> {
    if pad.stick.x != 0 || pad.stick.y != 0 {
        Some(pad.stick)
    } else if pad.left || pad.right || pad.up || pad.down {
        Some(
            Vec2 {
                x: (if pad.left { FULL_AXIS as int } else { 0 } - if pad.right { FULL_AXIS as int } else { 0 }) as i32,
                y: (if pad.down { FULL_AXIS as int } else { 0 } - if pad.up { FULL_AXIS as int } else { 0 }) as i32,
            },
        )
    } else {
        None
    }
}

/// The axis that the first gamepad at or after `from` that asks for one asks for.
pub open spec fn first_pad_axis(pads: Seq<Pad>, from: int) -> Option<Vec2>
    decreases pads.len() - from,
{
    if from < 0 || from >= pads.len() {
        None
    } else if pad_axis(pads[from]).is_some() {
        pad_axis(pads[from])
    } else {
        first_pad_axis(pads, from + 1)
    }
}

/// The axis the keyboard asks for: `a` and `d` pull left and right, `w` and `s` up and down.
pub open spec fn keys_axis(keys: Keys) -> Vec2 {
    Vec2 {
        x: (if keys.d { FULL_AXIS as int } else { 0 } - if keys.a { FULL_AXIS as int } else { 0 }) as i32,
        y: (if keys.s { FULL_AXIS as int } else { 0 } - if keys.w { FULL_AXIS as int } else { 0 }) as i32,
    }
}

fn axis_of_pad(pad: &Pad) -> (r: Option<Vec2>)
    ensures
        r == pad_axis(*pad),
{
    if pad.stick.x != 0 || pad.stick.y != 0 {
        Some(pad.stick)
    } else if pad.left || pad.right || pad.up || pad.down {
        let towards: i32 = if pad.left { FULL_AXIS } else { 0 };
        let away: i32 = if pad.right { FULL_AXIS } else { 0 };
        let below: i32 = if pad.down { FULL_AXIS } else { 0 };
        let above: i32 = if pad.up { FULL_AXIS } else { 0 };
        Some(Vec2 { x: towards - away, y: below - above })
    } else {
        None
    }
}

/// The movement axis for a frame: that of the first gamepad that asks for
/// one, and that of the keyboard if none does.
pub fn get_input_axis(pads: &Vec<Pad>, keys: &Keys) -> (r: Vec2)
    ensures
        r == match first_pad_axis(pads@, 0) {
            Some(axis) => axis,
            None => keys_axis(*keys),
        },
{
    let mut i: usize = 0;
    while i < pads.len()
        invariant
            0 <= i <= pads@.len(),
            first_pad_axis(pads@, 0) == first_pad_axis(pads@, i as int),
        decreases pads@.len() - i,
    {
        match axis_of_pad(&pads[i]) {
            Some(axis) => {
                return axis;
            },
            None => {},
        }
        i = i + 1;
    }
    let right: i32 = if keys.d { FULL_AXIS } else { 0 };
    let left: i32 = if keys.a { FULL_AXIS } else { 0 };
    let down: i32 = if keys.s { FULL_AXIS } else { 0 };
    let up: i32 = if keys.w { FULL_AXIS } else { 0 };
    Vec2 { x: right - left, y: down - up }
}

} // verus!
