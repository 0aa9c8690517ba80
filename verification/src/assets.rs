//! Static data of the game: animation timing and level grids.

use vstd::prelude::*;
use crate::enemies::EnemyType;
use crate::fixed::{Vec2, TILE, clamp_i32, saturate};

pub mod tilemap;


verus! {

/// Sum of the first `n` frame durations.
pub open spec fn prefix_length(frames: Seq<u32>, n: int) -> int
    decreases n,
{
    if n <= 0 {
        0
    } else {
        prefix_length(frames, n - 1) + frames[n - 1]
    }
}

/// Frame timing of one animation clip: the duration of every frame in
/// milliseconds, and their sum.
pub struct Animation {
    pub frames: Vec<u32>,
    pub total_length: u32,
}

impl Animation {
    /// A clip is well formed when it plays for a positive time that equals
    /// the sum of its frame durations.
    pub open spec fn wf(&self) -> bool {
        &&& self.total_length > 0
        &&& self.total_length == prefix_length(self.frames@, self.frames@.len() as int)
    }

    /// The frame shown `time` milliseconds into a looping playback.
    pub open spec fn frame_at(&self, time: u32, index: int) -> bool {
        let t = time % self.total_length;
        &&& 0 <= index < self.frames@.len()
        &&& prefix_length(self.frames@, index) <= t
        &&& t < prefix_length(self.frames@, index + 1)
    }

    /// Builds a clip from frame durations. Fails when the durations sum to
    /// zero or to more than fits the total.
    pub fn new(frames: Vec<u32>) -> (r: Option<Animation>)
        ensures
            r.is_some() <==> 0 < prefix_length(frames@, frames@.len() as int) <= u32::MAX,
            r.is_some() ==> r.unwrap().frames@ == frames@ && r.unwrap().wf(),
    {
        let mut total: u32 = 0;
        let mut i: usize = 0;
        while i < frames.len()
            invariant
                0 <= i <= frames@.len(),
                total == prefix_length(frames@, i as int),
            decreases frames@.len() - i,
        {
            let duration: u32 = frames[i];
            if duration > u32::MAX - total {
                proof {
                    lemma_prefix_monotonic(frames@, i as int + 1, frames@.len() as int);
                }
                return None;
            }
            total = total + duration;
            i = i + 1;
        }
        if total == 0 {
            None
        } else {
            Some(Animation { frames, total_length: total })
        }
    }

    /// Checks that the clip is well formed.
    pub fn check(&self) -> (r: bool)
        ensures
            r == self.wf(),
    {
        let mut total: u32 = 0;
        let mut i: usize = 0;
        while i < self.frames.len()
            invariant
                0 <= i <= self.frames@.len(),
                total == prefix_length(self.frames@, i as int),
            decreases self.frames@.len() - i,
        {
            let duration: u32 = self.frames[i];
            if duration > u32::MAX - total {
                proof {
                    lemma_prefix_monotonic(self.frames@, i as int + 1, self.frames@.len() as int);
                }
                return false;
            }
            total = total + duration;
            i = i + 1;
        }
        total > 0 && total == self.total_length
    }

    /// Index of the frame to show at `time` milliseconds; playback loops.
    pub fn get_at_time(&self, time: u32) -> (index: usize)
        requires
            self.wf(),
        ensures
            self.frame_at(time, index as int),
    {
        let mut rest: u32 = time % self.total_length;
        let mut i: usize = 0;
        while i < self.frames.len()
            invariant
                self.wf(),
                0 <= i <= self.frames@.len(),
                rest + prefix_length(self.frames@, i as int) == time % self.total_length,
            decreases self.frames@.len() - i,
        {
            let length: u32 = self.frames[i];
            if rest >= length {
                rest = rest - length;
            } else {
                return i;
            }
            i = i + 1;
        }
        proof {
            assert(false);
        }
        0
    }
}

/// The clips of one sprite file, one per tag, and the tags' names.
pub struct AnimationsGroup {
    pub animations: Vec<Animation>,
    pub tag_names: Vec<String>,
}

impl AnimationsGroup {
    /// Every clip is well formed and has a name.
    pub open spec fn wf(&self) -> bool {
        &&& self.animations@.len() == self.tag_names@.len()
        &&& forall|i: int| 0 <= i < self.animations@.len() ==> (#[trigger] self.animations@[i]).wf()
    }

    /// Whether some tag is called `name`.
    pub open spec fn has_tag(&self, name: Seq<char>) -> bool {
        exists|i: int| 0 <= i < self.tag_names@.len() && (#[trigger] self.tag_names@[i])@ == name
    }

    /// `index` is the last tag called `name`: of two tags with one name the
    /// later one wins.
    pub open spec fn is_tag(&self, name: Seq<char>, index: int) -> bool {
        &&& 0 <= index < self.tag_names@.len()
        &&& self.tag_names@[index]@ == name
        &&& forall|j: int| index < j < self.tag_names@.len() ==> (#[trigger] self.tag_names@[j])@ != name
    }

    /// Checks that the group is well formed.
    pub fn check(&self) -> (r: bool)
        ensures
            r == self.wf(),
    {
        if self.animations.len() != self.tag_names.len() {
            return false;
        }
        let mut i: usize = 0;
        while i < self.animations.len()
            invariant
                0 <= i <= self.animations@.len(),
                forall|k: int| 0 <= k < i ==> (#[trigger] self.animations@[k]).wf(),
            decreases self.animations@.len() - i,
        {
            if !self.animations[i].check() {
                return false;
            }
            i = i + 1;
        }
        true
    }

    /// Whether tag `i` of `tags` spans frames that exist and make a clip.
    pub open spec fn tag_fits(frames: Seq<u32>, tags: Seq<(Seq<char>, u32, u32)>, i: int) -> bool {
        &&& tags[i].1 <= tags[i].2 < frames.len()
        &&& 0 < prefix_length(
            frames.subrange(tags[i].1 as int, tags[i].2 + 1),
            tags[i].2 + 1 - tags[i].1,
        ) <= u32::MAX
    }

    /// Whether the group holds one clip for each of `tags`, in order, made
    /// of the frames the tag spans and called by the tag's name.
    pub open spec fn made_of(&self, frames: Seq<u32>, tags: Seq<(Seq<char>, u32, u32)>) -> bool {
        &&& self.wf()
        &&& self.animations@.len() == tags.len()
        &&& forall|i: int|
            0 <= i < tags.len() ==> {
                &&& (#[trigger] self.tag_names@[i])@ == tags[i].0
                &&& self.animations@[i].frames@ == frames.subrange(tags[i].1 as int, tags[i].2 + 1)
            }
    }

    /// Makes the clips of a sprite file from its timing: one clip per tag.
    /// `None` if a tag spans frames that do not exist or that make no clip.
    pub fn new(timing: &SpriteTiming) -> (r: Option<AnimationsGroup>)
        ensures
            r.is_some() <==> forall|i: int|
                0 <= i < timing.tags@.len() ==> Self::tag_fits(timing.content().0, timing.content().1, i),
            r.is_some() ==> r.unwrap().made_of(timing.content().0, timing.content().1),
    {
        let mut animations: Vec<Animation> = Vec::new();
        let mut tag_names: Vec<String> = Vec::new();
        let ghost frames = timing.content().0;
        let ghost tags = timing.content().1;
        let mut i: usize = 0;
        while i < timing.tags.len()
            invariant
                0 <= i <= timing.tags@.len(),
                frames == timing.content().0,
                tags == timing.content().1,
                animations@.len() == i,
                tag_names@.len() == i,
                forall|k: int| 0 <= k < i ==> Self::tag_fits(frames, tags, k),
                forall|k: int|
                    0 <= k < i ==> {
                        &&& (#[trigger] tag_names@[k])@ == tags[k].0
                        &&& animations@[k].frames@ == frames.subrange(tags[k].1 as int, tags[k].2 + 1)
                    },
                forall|k: int| 0 <= k < i ==> (#[trigger] animations@[k]).wf(),
            decreases timing.tags@.len() - i,
        {
            let tag: &Tag = &timing.tags[i];
            assert(tags[i as int] == (tag.name@, tag.first, tag.last));
            if tag.first > tag.last || tag.last as usize >= timing.frames.len() {
                assert(!Self::tag_fits(frames, tags, i as int));
                return None;
            }
            let mut clip: Vec<u32> = Vec::new();
            let mut f: usize = tag.first as usize;
            let total: usize = timing.frames.len();
            while f <= tag.last as usize
                invariant
                    tag.first <= f <= tag.last + 1,
                    tag.last < timing.frames@.len(),
                    total == timing.frames@.len(),
                    clip@ == timing.frames@.subrange(tag.first as int, f as int),
                decreases tag.last + 1 - f,
            {
                clip.push(timing.frames[f]);
                assert(clip@ =~= timing.frames@.subrange(tag.first as int, f as int + 1));
                f = f + 1;
            }
            assert(clip@ == frames.subrange(tags[i as int].1 as int, tags[i as int].2 + 1));
            assert(clip@.len() == tags[i as int].2 + 1 - tags[i as int].1);
            match Animation::new(clip) {
                Some(animation) => {
                    let name: String = tag.name.clone();
                    assert(name@ == tags[i as int].0);
                    assert(Self::tag_fits(frames, tags, i as int));
                    animations.push(animation);
                    tag_names.push(name);
                },
                None => {
                    assert(!Self::tag_fits(frames, tags, i as int));
                    return None;
                },
            }
            i = i + 1;
        }
        Some(AnimationsGroup { animations, tag_names })
    }

    /// Looks a tag up by name.
    pub fn find_tag(&self, name: &str) -> (r: Option<usize>)
        ensures
            match r {
                Some(index) => self.is_tag(name@, index as int),
                None => !self.has_tag(name@),
            },
    {
        let wanted: String = name.to_owned();
        let mut i: usize = self.tag_names.len();
        while i > 0
            invariant
                0 <= i <= self.tag_names@.len(),
                wanted@ == name@,
                forall|j: int| i <= j < self.tag_names@.len() ==> (#[trigger] self.tag_names@[j])@ != name@,
            decreases i,
        {
            i = i - 1;
            if self.tag_names[i] == wanted {
                return Some(i);
            }
        }
        None
    }

    /// The clip of the tag called `name`.
    pub fn get_by_name(&self, name: &str) -> (r: &Animation)
        requires
            self.wf(),
            self.has_tag(name@),
        ensures
            exists|index: int| self.is_tag(name@, index) && *r == self.animations@[index],
            r.wf(),
    {
        match self.find_tag(name) {
            Some(index) => &self.animations[index],
            None => {
                proof {
                    assert(false);
                }
                &self.animations[0]
            },
        }
    }
}

/// A tag of a sprite file: its name and the frames it spans, first and last included.
pub struct Tag {
    pub name: String,
    pub first: u32,
    pub last: u32,
}

/// The timing of a sprite file, as whoever decoded the file hands it over:
/// the duration of every frame in milliseconds, and the tags.
pub struct SpriteTiming {
    pub frames: Vec<u32>,
    pub tags: Vec<Tag>,
}

impl SpriteTiming {
    /// The timing as plain values: durations, and for each tag name, first and last frame.
    pub open spec fn content(&self) -> (Seq<u32>, Seq<(Seq<char>, u32, u32)>) {
        (self.frames@, Seq::new(self.tags@.len(), |i: int| (self.tags@[i].name@, self.tags@[i].first, self.tags@[i].last)))
    }
}

/// Everything the simulation reads about the game's sprites and levels.
/// Built once and shared by reference.
pub struct Assets {
    /// The player's upper body: idle, shooting, throwing the lasso.
    pub torso: AnimationsGroup,
    /// The player's legs: standing, running.
    pub legs: AnimationsGroup,
    pub levels: Vec<Level>,
    pub projectiles: Animation,
    pub blood: Animation,
    pub die: Animation,
    /// The poles that close the first boss's arena.
    pub pole: Animation,
    /// The first boss: idle, jumping, throwing, dying.
    pub henry: AnimationsGroup,
    pub henry_dust: Animation,
    /// The second boss: idle, calling fireballs, three phases of a jump, dying.
    pub fireking: AnimationsGroup,
    /// A fireball: falling, bursting.
    pub fireball: AnimationsGroup,
    /// The catalog of enemy kinds; levels refer to kinds by their place in it.
    pub enemies: Vec<EnemyType>,
}

impl Assets {
    /// Checks that the assets are well formed.
    pub fn check(&self) -> (r: bool)
        ensures
            r == self.wf(),
    {
        if !(self.torso.check() && self.torso.animations.len() >= 3 && self.legs.check() && self.legs.animations.len()
            >= 2 && self.projectiles.check() && self.blood.check() && self.die.check() && self.pole.check()
            && self.henry.check() && self.henry.animations.len() >= 4 && self.henry_dust.check()
            && self.fireking.check() && self.fireking.animations.len() >= 6 && self.fireball.check()
            && self.fireball.animations.len() >= 2) {
            return false;
        }
        let mut i: usize = 0;
        while i < self.levels.len()
            invariant
                0 <= i <= self.levels@.len(),
                forall|k: int| 0 <= k < i ==> (#[trigger] self.levels@[k]).wf(),
            decreases self.levels@.len() - i,
        {
            if !self.levels[i].check() {
                return false;
            }
            i = i + 1;
        }
        let mut j: usize = 0;
        while j < self.enemies.len()
            invariant
                0 <= j <= self.enemies@.len(),
                forall|k: int| 0 <= k < self.levels@.len() ==> (#[trigger] self.levels@[k]).wf(),
                forall|k: int| 0 <= k < j ==> (#[trigger] self.enemies@[k]).wf(),
            decreases self.enemies@.len() - j,
        {
            if !self.enemies[j].check() {
                return false;
            }
            j = j + 1;
        }
        true
    }

    /// All clips are well formed, and the groups hold the clips that the
    /// simulation refers to by number.
    pub open spec fn wf(&self) -> bool {
        &&& self.torso.wf()
        &&& self.torso.animations@.len() >= 3
        &&& self.legs.wf()
        &&& self.legs.animations@.len() >= 2
        &&& self.projectiles.wf()
        &&& self.blood.wf()
        &&& self.die.wf()
        &&& self.pole.wf()
        &&& self.henry.wf()
        &&& self.henry.animations@.len() >= 4
        &&& self.henry_dust.wf()
        &&& self.fireking.wf()
        &&& self.fireking.animations@.len() >= 6
        &&& self.fireball.wf()
        &&& self.fireball.animations@.len() >= 2
        &&& forall|i: int| 0 <= i < self.levels@.len() ==> (#[trigger] self.levels@[i]).wf()
        &&& forall|i: int| 0 <= i < self.enemies@.len() ==> (#[trigger] self.enemies@[i]).wf()
    }
}

/// How many columns beyond either side of a level act as a solid wall.
pub const SIDE_WALL_DEPTH: i16 = 2;

/// The cell value that the implicit side walls report on the collision layer.
pub const SIDE_WALL_TILE: u16 = 1;

/// An enemy placed in a level.
#[derive(Clone, Copy, Debug, PartialEq, Eq)]
pub struct LevelEnemyData {
    pub pos: Vec2,
    /// Index into the catalog of enemy types.
    pub ty: usize,
    /// Attack timer the enemy starts with.
    pub attack_delay: u64,
    /// For patrolling enemies: the path, and the waypoint the enemy starts at.
    pub path_index: Option<(usize, usize)>,
}

/// A horse placed in a level.
#[derive(Clone, Copy, Debug, PartialEq, Eq)]
pub struct LevelHorseData {
    pub pos: Vec2,
    /// Whether the horse walks on the ceiling.
    pub inverted: bool,
}

/// One level: a rectangular grid of cells with four layers each, and the
/// entities and markers placed in it. Never changes after it is built.
pub struct Level {
    /// Columns of the grid.
    pub width: usize,
    /// Rows of the grid.
    pub height: usize,
    /// The cells, row by row.
    pub data: Vec<[u16; 4]>,
    /// Tile coordinates of the first cell.
    pub min_x: i16,
    pub min_y: i16,
    pub enemies: Vec<LevelEnemyData>,
    pub horses: Vec<LevelHorseData>,
    /// Numbered anchor points, such as the corners of a boss arena.
    pub markers: Vec<Vec2>,
    pub lasso_targets: Vec<Vec2>,
    pub enemy_paths: Vec<Vec<Vec2>>,
    pub player_spawn: Vec2,
    /// Which boss lives here, and where.
    pub boss: Option<(usize, Vec2)>,
    /// The world this level belongs to.
    pub world_index: usize,
    /// Height at which the ceiling of a boss arena lies.
    pub roof_height: i32,
    /// The interactive tiles that bodies can cling to and climb in this level.
    pub wall_climb_tiles: Vec<u16>,
}

/// The value of a cell without any tile.
pub open spec fn empty_cell() -> Seq<u16> {
    seq![0u16, 0u16, 0u16, 0u16]
}

/// The value of a cell of the implicit side wall.
pub open spec fn wall_cell() -> Seq<u16> {
    seq![0u16, SIDE_WALL_TILE, 0u16, 0u16]
}

impl Level {
    /// The grid holds exactly `width * height` cells and has at least one column.
    pub open spec fn wf(&self) -> bool {
        &&& self.width > 0
        &&& self.data@.len() == self.width * self.height
    }

    /// Checks that the level is well formed.
    pub fn check(&self) -> (r: bool)
        ensures
            r == self.wf(),
    {
        if self.width == 0 {
            return false;
        }
        match self.width.checked_mul(self.height) {
            Some(cells) => cells == self.data.len(),
            None => {
                let cells: usize = self.data.len();
                false
            },
        }
    }

    /// The layers of the cell at tile coordinates `(x, y)`.
    ///
    /// Inside the grid this is the stored cell. Rows above and below the
    /// grid are empty. In the rows of the grid, the `SIDE_WALL_DEPTH`
    /// columns next to either side are solid; farther out all is empty.
    pub open spec fn tile_at(&self, x: int, y: int) -> Seq<u16> {
        let cx = x - self.min_x;
        let cy = y - self.min_y;
        if cy < 0 || cy >= self.height {
            empty_cell()
        } else if 0 <= cx < self.width {
            self.data@[cx + cy * self.width]@
        } else if -SIDE_WALL_DEPTH <= cx < self.width + SIDE_WALL_DEPTH {
            wall_cell()
        } else {
            empty_cell()
        }
    }

    /// The layers of the cell at tile coordinates `(x, y)`; total over all coordinates.
    pub fn get_tile(&self, x: i16, y: i16) -> (cell: [u16; 4])
        requires
            self.wf(),
        ensures
            cell@ == self.tile_at(x as int, y as int),
    {
        let cx: i32 = x as i32 - self.min_x as i32;
        let cy: i32 = y as i32 - self.min_y as i32;
        if cy < 0 || cy as usize >= self.height {
            let cell: [u16; 4] = [0, 0, 0, 0];
            assert(cell@ =~= empty_cell());
            return cell;
        }
        if cx >= 0 && (cx as usize) < self.width {
            let column: usize = cx as usize;
            let row: usize = cy as usize;
            let cells: usize = self.data.len();
            proof {
                lemma_cell_index(column as int, row as int, self.width as int, self.height as int);
            }
            assert(column + row * self.width < cells);
            return self.data[column + row * self.width];
        }
        if cx >= -(SIDE_WALL_DEPTH as i32) && (cx < 0 || cx as usize - self.width < SIDE_WALL_DEPTH as usize) {
            let cell: [u16; 4] = [0, SIDE_WALL_TILE, 0, 0];
            assert(cell@ =~= wall_cell());
            return cell;
        }
        let cell: [u16; 4] = [0, 0, 0, 0];
        assert(cell@ =~= empty_cell());
        cell
    }

    /// Tells whether bodies can cling to the interactive tile `id` in this level.
    pub fn is_wall_climb_tile(&self, id: u16) -> (r: bool)
        ensures
            r == self.wall_climb_tiles@.contains(id),
    {
        let mut i: usize = 0;
        while i < self.wall_climb_tiles.len()
            invariant
                0 <= i <= self.wall_climb_tiles@.len(),
                forall|k: int| 0 <= k < i ==> self.wall_climb_tiles@[k] != id,
            decreases self.wall_climb_tiles@.len() - i,
        {
            if self.wall_climb_tiles[i] == id {
                return true;
            }
            i = i + 1;
        }
        false
    }

    /// The anchor point numbered `index`.
    pub fn find_marker(&self, index: usize) -> (r: Vec2)
        requires
            index < self.markers@.len(),
        ensures
            r == self.markers@[index as int],
    {
        self.markers[index]
    }

    /// The world this level belongs to.
    pub fn get_world_index(&self) -> (r: usize)
        ensures
            r == self.world_index,
    {
        self.world_index
    }

    /// The height of the grid as a length.
    pub fn get_height(&self) -> (r: i32)
        ensures
            r == clamp_i32(self.height * TILE),
    {
        if self.height > 0x7FFF_FFFF {
            i32::MAX
        } else {
            saturate(self.height as i64 * TILE as i64)
        }
    }

    /// The height of the world's floor: the position just past the grid's last row.
    pub fn floor_height(&self) -> (r: i32)
        ensures
            r == clamp_i32((self.min_y + self.height) * TILE),
    {
        if self.height > 0x7FFF_FFFF {
            i32::MAX
        } else {
            saturate((self.min_y as i64 + self.height as i64) * TILE as i64)
        }
    }

    /// The position just past the grid's last column.
    pub fn right_edge(&self) -> (r: i32)
        ensures
            r == clamp_i32((self.min_x + self.width) * TILE),
    {
        if self.width > 0x7FFF_FFFF {
            i32::MAX
        } else {
            saturate((self.min_x as i64 + self.width as i64) * TILE as i64)
        }
    }

    /// The position of the grid's first cell.
    pub fn min_pos(&self) -> (r: Vec2)
        ensures
            r == (Vec2 { x: (self.min_x * TILE) as i32, y: (self.min_y * TILE) as i32 }),
    {
        Vec2 { x: self.min_x as i32 * TILE, y: self.min_y as i32 * TILE }
    }
}

/// A cell inside the grid has an index inside the data.
pub proof fn lemma_cell_index(cx: int, cy: int, width: int, height: int)
    requires
        0 <= cx < width,
        0 <= cy < height,
    ensures
        0 <= cx + cy * width < width * height,
        0 <= cy * width,
{
    assert(cy * width <= (height - 1) * width) by (nonlinear_arith)
        requires
            0 <= cy <= height - 1,
            0 < width,
    ;
    assert((height - 1) * width == height * width - width) by (nonlinear_arith);
    assert(0 <= cy * width) by (nonlinear_arith)
        requires
            0 <= cy,
            0 < width,
    ;
    assert(width * height == height * width) by (nonlinear_arith);
}

/// Asking for the same cell twice gives the same layers: a level never changes.
pub proof fn lemma_get_tile_repeatable(level: Level, x: i16, y: i16, first: [u16; 4], second: [u16; 4])
    requires
        first@ == level.tile_at(x as int, y as int),
        second@ == level.tile_at(x as int, y as int),
    ensures
        first == second,
{
    assert(first@ =~= second@);
}

/// Prefix sums never shrink.
pub proof fn lemma_prefix_monotonic(frames: Seq<u32>, a: int, b: int)
    requires
        0 <= a <= b,
    ensures
        prefix_length(frames, a) <= prefix_length(frames, b),
    decreases b - a,
{
    if a < b {
        lemma_prefix_monotonic(frames, a, b - 1);
    }
}

} // verus!
