//! Reading a level out of the text of a tile map: layers of chunks of
//! sixteen by sixteen tiles, written as comma-separated numbers.

use vstd::prelude::*;
use crate::assets::{Level, LevelEnemyData, LevelHorseData, lemma_cell_index};
use crate::fixed::{Vec2, TILE};

verus! {

/// Whether `pat` stands in `s` at place `at`.
pub open spec fn matches_at(s: Seq<u8>, pat: Seq<u8>, at: int) -> bool {
    0 <= at && at + pat.len() <= s.len() && s.subrange(at, at + pat.len()) == pat
}

/// The first place at or after `from` where `pat` stands in `s`, wholly before `end`.
pub open spec fn first_match(s: Seq<u8>, pat: Seq<u8>, from: int, end: int) -> Option<int>
    decreases end - from,
{
    if from < 0 || from >= end || from + pat.len() > end || end > s.len() {
        None
    } else if matches_at(s, pat, from) {
        Some(from)
    } else {
        first_match(s, pat, from + 1, end)
    }
}

/// Whether `pat` stands in `s` at place `at`.
fn stands_at(s: &[u8], pat: &[u8], at: usize) -> (r: bool)
    requires
        at + pat@.len() <= s@.len(),
    ensures
        r == matches_at(s@, pat@, at as int),
{
    let mut k: usize = 0;
    let length: usize = s.len();
    while k < pat.len()
        invariant
            0 <= k <= pat@.len(),
            at + pat@.len() <= s@.len(),
            length == s@.len(),
            s@.subrange(at as int, at + k) == pat@.subrange(0, k as int),
        decreases pat@.len() - k,
    {
        if s[at + k] != pat[k] {
            assert(s@.subrange(at as int, at + pat@.len())[k as int] != pat@[k as int]);
            return false;
        }
        assert(s@.subrange(at as int, at + k + 1) =~= pat@.subrange(0, k as int + 1)) by {
            assert(s@.subrange(at as int, at + k + 1) =~= s@.subrange(at as int, at + k).push(s@[at + k]));
            assert(pat@.subrange(0, k as int + 1) =~= pat@.subrange(0, k as int).push(pat@[k as int]));
        }
        k = k + 1;
    }
    assert(pat@.subrange(0, pat@.len() as int) =~= pat@);
    true
}

/// Finds the first place at or after `from` where `pat` stands in `s`, wholly before `end`.
pub fn find(s: &[u8], pat: &[u8], from: usize, end: usize) -> (r: Option<usize>)
    requires
        end <= s@.len(),
    ensures
        match r {
            Some(at) => first_match(s@, pat@, from as int, end as int) == Some(at as int) && from <= at && at + pat@.len()
                <= end,
            None => first_match(s@, pat@, from as int, end as int).is_none(),
        },
{
    let mut at: usize = from;
    while at < end && pat.len() <= end - at
        invariant
            from <= at,
            end <= s@.len(),
            first_match(s@, pat@, from as int, end as int) == first_match(s@, pat@, at as int, end as int),
        decreases end + 1 - at,
    {
        if stands_at(s, pat, at) {
            return Some(at);
        }
        at = at + 1;
    }
    None
}

/// Whether a byte is a decimal digit.
pub open spec fn is_digit(b: u8) -> bool {
    48 <= b <= 57
}

/// Whether a byte is white space.
pub open spec fn is_space(b: u8) -> bool {
    b == 32 || (9 <= b <= 13)
}

/// The number that the digits `s[from..to]` write; nothing if there is
/// none of them or one of them is no digit.
pub open spec fn digits(s: Seq<u8>, from: int, to: int) -> Option<int>
    decreases to - from,
{
    if from >= to || to > s.len() || from < 0 || !is_digit(s[to - 1]) {
        None
    } else if to - 1 == from {
        Some(s[to - 1] - 48)
    } else {
        match digits(s, from, to - 1) {
            Some(value) => Some(value * 10 + (s[to - 1] - 48)),
            None => None,
        }
    }
}

/// The number that `s[from..to]` writes: digits, with or without a sign before them.
pub open spec fn number(s: Seq<u8>, from: int, to: int) -> Option<int> {
    if 0 <= from < to <= s.len() && s[from] == 45 {
        match digits(s, from + 1, to) {
            Some(value) => Some(-value),
            None => None,
        }
    } else if 0 <= from < to <= s.len() && s[from] == 43 {
        digits(s, from + 1, to)
    } else {
        digits(s, from, to)
    }
}

/// The greatest magnitude of a number that is read.
pub const NUMBER_LIMIT: i64 = 1_000_000;

/// What reading `s[from..to]` as a number gives: the number it writes, if
/// its magnitude is no more than `NUMBER_LIMIT`.
pub open spec fn spec_parse_number(s: Seq<u8>, from: int, to: int) -> Option<i32> {
    match number(s, from, to) {
        Some(value) => if -NUMBER_LIMIT <= value <= NUMBER_LIMIT {
            Some(value as i32)
        } else {
            None
        },
        None => None,
    }
}

/// A number written in digits is not negative.
pub proof fn lemma_digits_nonnegative(s: Seq<u8>, from: int, to: int)
    ensures
        digits(s, from, to).is_some() ==> digits(s, from, to).unwrap() >= 0,
    decreases to - from,
{
    if from >= to || to > s.len() || from < 0 || !is_digit(s[to - 1]) {
    } else if to - 1 == from {
    } else {
        lemma_digits_nonnegative(s, from, to - 1);
    }
}

/// Text that holds something other than a digit writes no number in digits.
pub proof fn lemma_digits_need_digits(s: Seq<u8>, from: int, mid: int, to: int)
    requires
        0 <= from <= mid < to <= s.len(),
        !is_digit(s[mid]),
    ensures
        digits(s, from, to).is_none(),
    decreases to - mid,
{
    if to - 1 != mid {
        lemma_digits_need_digits(s, from, mid, to - 1);
    }
}

/// Reads the digits `s[from..to]`; the flag tells that the number is above `NUMBER_LIMIT`.
fn parse_digits(s: &[u8], from: usize, to: usize) -> (r: Option<(i64, bool)>)
    requires
        from <= to <= s@.len(),
    ensures
        match r {
            Some(read) => digits(s@, from as int, to as int).is_some() && if read.1 {
                digits(s@, from as int, to as int).unwrap() > NUMBER_LIMIT
            } else {
                digits(s@, from as int, to as int).unwrap() == read.0 && 0 <= read.0 <= NUMBER_LIMIT
            },
            None => digits(s@, from as int, to as int).is_none(),
        },
{
    if from >= to {
        return None;
    }
    let mut value: i64 = 0;
    let mut over: bool = false;
    let mut i: usize = from;
    while i < to
        invariant
            from <= i <= to <= s@.len(),
            from < to,
            0 <= value <= NUMBER_LIMIT,
            i > from ==> digits(s@, from as int, i as int).is_some() && if over {
                digits(s@, from as int, i as int).unwrap() > NUMBER_LIMIT
            } else {
                digits(s@, from as int, i as int).unwrap() == value
            },
            i == from ==> value == 0 && !over,
        decreases to - i,
    {
        let b: u8 = s[i];
        if b < 48 || b > 57 {
            proof {
                lemma_digits_need_digits(s@, from as int, i as int, to as int);
            }
            return None;
        }
        if !over {
            let next: i64 = value * 10 + (b as i64 - 48);
            if next > NUMBER_LIMIT {
                over = true;
            } else {
                value = next;
            }
        }
        i = i + 1;
    }
    Some((value, over))
}

/// Reads `s[from..to]` as a number.
pub fn parse_number(s: &[u8], from: usize, to: usize) -> (r: Option<i32>)
    requires
        from <= to <= s@.len(),
    ensures
        r == spec_parse_number(s@, from as int, to as int),
{
    let negative: bool = from < to && s[from] == 45;
    let signed: bool = negative || (from < to && s[from] == 43);
    let start: usize = if signed { from + 1 } else { from };
    proof {
        lemma_digits_nonnegative(s@, start as int, to as int);
    }
    match parse_digits(s, start, to) {
        Some(read) => {
            if read.1 {
                None
            } else if negative {
                Some((-read.0) as i32)
            } else {
                Some(read.0 as i32)
            }
        },
        None => None,
    }
}

/// The first place at or after `from`, before `to`, that holds no white space; `to` if there is none.
pub open spec fn trim_start(s: Seq<u8>, from: int, to: int) -> int
    decreases to - from,
{
    if 0 <= from < to <= s.len() && is_space(s[from]) {
        trim_start(s, from + 1, to)
    } else {
        from
    }
}

/// The place after the last one before `to`, at or after `from`, that holds no white space; `from` if there is none.
pub open spec fn trim_end(s: Seq<u8>, from: int, to: int) -> int
    decreases to - from,
{
    if 0 <= from < to <= s.len() && is_space(s[to - 1]) {
        trim_end(s, from, to - 1)
    } else {
        to
    }
}

fn skip_space(s: &[u8], from: usize, to: usize) -> (r: usize)
    requires
        from <= to <= s@.len(),
    ensures
        r == trim_start(s@, from as int, to as int),
        from <= r <= to,
{
    let mut i: usize = from;
    while i < to && (s[i] == 32 || (9 <= s[i] && s[i] <= 13))
        invariant
            from <= i <= to <= s@.len(),
            trim_start(s@, from as int, to as int) == trim_start(s@, i as int, to as int),
        decreases to - i,
    {
        i = i + 1;
    }
    i
}

fn drop_space(s: &[u8], from: usize, to: usize) -> (r: usize)
    requires
        from <= to <= s@.len(),
    ensures
        r == trim_end(s@, from as int, to as int),
        from <= r <= to,
{
    let mut i: usize = to;
    while from < i && (s[i - 1] == 32 || (9 <= s[i - 1] && s[i - 1] <= 13))
        invariant
            from <= i <= to <= s@.len(),
            trim_end(s@, from as int, to as int) == trim_end(s@, from as int, i as int),
        decreases i - from,
    {
        i = i - 1;
    }
    i
}

/// The number that `s[from..to]` writes once the white space around it is taken off.
pub open spec fn spec_trimmed_number(s: Seq<u8>, from: int, to: int) -> Option<i32> {
    spec_parse_number(s, trim_start(s, from, to), trim_end(s, trim_start(s, from, to), to))
}

/// Reads `s[from..to]` as a number with white space around it.
pub fn parse_trimmed_number(s: &[u8], from: usize, to: usize) -> (r: Option<i32>)
    requires
        from <= to <= s@.len(),
    ensures
        r == spec_trimmed_number(s@, from as int, to as int),
{
    let start: usize = skip_space(s, from, to);
    let end: usize = drop_space(s, start, to);
    parse_number(s, start, end)
}

/// Tiles along the edge of a chunk.
pub const CHUNK_SIZE: usize = 16;

/// Tiles in a chunk.
pub const CHUNK_TILES: usize = 256;

/// A square of sixteen by sixteen tiles of one layer, with the tile
/// coordinates of its first tile. Tiles stand row by row.
#[derive(Clone, Debug, PartialEq, Eq)]
pub struct Chunk {
    pub x: i16,
    pub y: i16,
    pub tiles: Vec<u16>,
}

/// `,`
pub open spec fn comma() -> Seq<u8> {
    seq![44u8]
}

/// `"`
pub open spec fn quote() -> Seq<u8> {
    seq![34u8]
}

/// `>`
pub open spec fn tag_end() -> Seq<u8> {
    seq![62u8]
}

/// `x="`
pub open spec fn key_x() -> Seq<u8> {
    seq![120u8, 61u8, 34u8]
}

/// `y="`
pub open spec fn key_y() -> Seq<u8> {
    seq![121u8, 61u8, 34u8]
}

/// `<chunk `
pub open spec fn chunk_open() -> Seq<u8> {
    seq![60u8, 99u8, 104u8, 117u8, 110u8, 107u8, 32u8]
}

/// `</chunk>`
pub open spec fn chunk_close() -> Seq<u8> {
    seq![60u8, 47u8, 99u8, 104u8, 117u8, 110u8, 107u8, 62u8]
}

/// `<layer`
pub open spec fn layer_open() -> Seq<u8> {
    seq![60u8, 108u8, 97u8, 121u8, 101u8, 114u8]
}

/// The first `n` of the numbers that `s[from..to]` lists, separated by
/// commas, each with white space around it, each a tile: nothing if there
/// are fewer, or one of them is no number or too great for a tile.
pub open spec fn spec_tiles(s: Seq<u8>, from: int, to: int, n: nat) -> Option<Seq<u16>>
    decreases n,
{
    if n == 0 {
        Some(Seq::empty())
    } else {
        let stop = first_match(s, comma(), from, to);
        let end = if stop.is_some() { stop.unwrap() } else { to };
        let value = spec_trimmed_number(s, from, end);
        if from > to || value.is_none() || value.unwrap() < 0 || value.unwrap() > u16::MAX {
            None
        } else if n == 1 {
            Some(seq![value.unwrap() as u16])
        } else if stop.is_none() {
            None
        } else {
            match spec_tiles(s, end + 1, to, (n - 1) as nat) {
                Some(rest) => Some(seq![value.unwrap() as u16] + rest),
                None => None,
            }
        }
    }
}

/// Reads the first `n` tiles that `s[from..to]` lists.
pub fn parse_tiles(s: &[u8], from: usize, to: usize, n: usize) -> (r: Option<Vec<u16>>)
    requires
        from <= to <= s@.len(),
    ensures
        match r {
            Some(tiles) => spec_tiles(s@, from as int, to as int, n as nat) == Some(tiles@),
            None => spec_tiles(s@, from as int, to as int, n as nat).is_none(),
        },
{
    let separator: [u8; 1] = [44];
    assert(separator@ =~= comma());
    let mut tiles: Vec<u16> = Vec::new();
    let mut at: usize = from;
    let mut k: usize = 0;
    while k < n
        invariant
            0 <= k <= n,
            from <= at <= to <= s@.len(),
            separator@ == comma(),
            tiles@.len() == k,
            spec_tiles(s@, from as int, to as int, n as nat) == match spec_tiles(s@, at as int, to as int, (n - k) as nat) {
                Some(rest) => Some(tiles@ + rest),
                None => None,
            },
        decreases n - k,
    {
        let stop: Option<usize> = find(s, separator.as_slice(), at, to);
        let end: usize = match stop {
            Some(end) => end,
            None => to,
        };
        let value: i32 = match parse_trimmed_number(s, at, end) {
            Some(value) => value,
            None => {
                return None;
            },
        };
        if value < 0 || value > u16::MAX as i32 {
            return None;
        }
        let ghost before = tiles@;
        tiles.push(value as u16);
        if k + 1 == n {
            assert(spec_tiles(s@, at as int, to as int, 1) == Some(seq![value as u16]));
            assert(before + seq![value as u16] =~= tiles@);
            return Some(tiles);
        }
        if stop.is_none() {
            return None;
        }
        proof {
            let rest = spec_tiles(s@, end + 1, to as int, (n - k - 1) as nat);
            if rest.is_some() {
                assert(before + (seq![value as u16] + rest.unwrap()) =~= tiles@ + rest.unwrap());
            }
        }
        at = end + 1;
        k = k + 1;
    }
    assert(tiles@ + Seq::<u16>::empty() =~= tiles@);
    Some(tiles)
}

/// The number that stands in `s[from..to]` between `key` and the next quotation mark.
pub open spec fn spec_attribute(s: Seq<u8>, from: int, to: int, key: Seq<u8>) -> Option<i32> {
    match first_match(s, key, from, to) {
        Some(at) => match first_match(s, quote(), at + key.len(), to) {
            Some(end) => spec_parse_number(s, at + key.len(), end),
            None => None,
        },
        None => None,
    }
}

fn parse_attribute(s: &[u8], from: usize, to: usize, key: &[u8]) -> (r: Option<i32>)
    requires
        from <= to <= s@.len(),
    ensures
        r == spec_attribute(s@, from as int, to as int, key@),
{
    let mark: [u8; 1] = [34];
    assert(mark@ =~= quote());
    match find(s, key, from, to) {
        Some(at) => match find(s, mark.as_slice(), at + key.len(), to) {
            Some(end) => parse_number(s, at + key.len(), end),
            None => None,
        },
        None => None,
    }
}

/// What a chunk written in `s[from..to]` holds: the coordinates in its
/// opening tag, and the tiles listed after the tag. Nothing if the text
/// holds no opening tag, the tag no coordinates, or the list no 256 tiles.
pub open spec fn spec_chunk(s: Seq<u8>, from: int, to: int) -> Option<(i16, i16, Seq<u16>)> {
    match first_match(s, chunk_open(), from, to) {
        Some(open) => match first_match(s, tag_end(), open + 7, to) {
            Some(close) => {
                let x = spec_attribute(s, open + 7, close, key_x());
                let y = spec_attribute(s, open + 7, close, key_y());
                let tiles = spec_tiles(s, close + 1, to, CHUNK_TILES as nat);
                if x.is_some() && y.is_some() && tiles.is_some() && i16::MIN <= x.unwrap() <= i16::MAX && i16::MIN
                    <= y.unwrap() <= i16::MAX {
                    Some((x.unwrap() as i16, y.unwrap() as i16, tiles.unwrap()))
                } else {
                    None
                }
            },
            None => None,
        },
        None => None,
    }
}

impl Chunk {
    /// The chunk as plain values.
    pub open spec fn content(&self) -> (i16, i16, Seq<u16>) {
        (self.x, self.y, self.tiles@)
    }
}

/// Reads the chunk written in `xml[from..to]`.
pub fn parse_chunk(xml: &[u8], from: usize, to: usize) -> (r: Option<Chunk>)
    requires
        from <= to <= xml@.len(),
    ensures
        match r {
            Some(chunk) => spec_chunk(xml@, from as int, to as int) == Some(chunk.content()) && chunk.tiles@.len()
                == CHUNK_TILES,
            None => spec_chunk(xml@, from as int, to as int).is_none(),
        },
{
    let opening: [u8; 7] = [60, 99, 104, 117, 110, 107, 32];
    let closing: [u8; 1] = [62];
    let x_key: [u8; 3] = [120, 61, 34];
    let y_key: [u8; 3] = [121, 61, 34];
    assert(opening@ =~= chunk_open());
    assert(closing@ =~= tag_end());
    assert(x_key@ =~= key_x());
    assert(y_key@ =~= key_y());
    let open: usize = match find(xml, opening.as_slice(), from, to) {
        Some(open) => open,
        None => {
            return None;
        },
    };
    let close: usize = match find(xml, closing.as_slice(), open + 7, to) {
        Some(close) => close,
        None => {
            return None;
        },
    };
    let x: Option<i32> = parse_attribute(xml, open + 7, close, x_key.as_slice());
    let y: Option<i32> = parse_attribute(xml, open + 7, close, y_key.as_slice());
    let tiles: Option<Vec<u16>> = parse_tiles(xml, close + 1, to, CHUNK_TILES);
    match (x, y, tiles) {
        (Some(x), Some(y), Some(tiles)) => {
            if x < i16::MIN as i32 || x > i16::MAX as i32 || y < i16::MIN as i32 || y > i16::MAX as i32 {
                return None;
            }
            proof {
                lemma_tiles_count(xml@, close + 1, to as int, CHUNK_TILES as nat);
            }
            Some(Chunk { x: x as i16, y: y as i16, tiles })
        },
        _ => None,
    }
}

/// A list of tiles that was asked for holds as many tiles as were asked for.
pub proof fn lemma_tiles_count(s: Seq<u8>, from: int, to: int, n: nat)
    ensures
        spec_tiles(s, from, to, n).is_some() ==> spec_tiles(s, from, to, n).unwrap().len() == n,
    decreases n,
{
    if n > 1 {
        let stop = first_match(s, comma(), from, to);
        let end = if stop.is_some() { stop.unwrap() } else { to };
        lemma_tiles_count(s, end + 1, to, (n - 1) as nat);
    }
}

/// The chunks written in `s[from..to]`, in order: each ends with a closing
/// tag, and what follows the last closing tag is passed over. Nothing if
/// what stands before a closing tag is no chunk.
pub open spec fn spec_chunks(s: Seq<u8>, from: int, to: int) -> Option<Seq<(i16, i16, Seq<u16>)>>
    decreases to - from,
{
    match first_match(s, chunk_close(), from, to) {
        Some(end) => if end < from || end + 8 > to {
            None
        } else {
            match spec_chunk(s, from, end) {
                Some(chunk) => match spec_chunks(s, end + 8, to) {
                    Some(rest) => Some(seq![chunk] + rest),
                    None => None,
                },
                None => None,
            }
        },
        None => Some(Seq::empty()),
    }
}

/// The chunks as plain values.
pub open spec fn contents(chunks: Seq<Chunk>) -> Seq<(i16, i16, Seq<u16>)> {
    Seq::new(chunks.len(), |i: int| chunks[i].content())
}

/// Reads all chunks written in `xml[from..to]`.
pub fn get_all_chunks(xml: &[u8], from: usize, to: usize) -> (r: Option<Vec<Chunk>>)
    requires
        from <= to <= xml@.len(),
    ensures
        match r {
            Some(chunks) => spec_chunks(xml@, from as int, to as int) == Some(contents(chunks@)) && forall|i: int|
                0 <= i < chunks@.len() ==> (#[trigger] chunks@[i]).tiles@.len() == CHUNK_TILES,
            None => spec_chunks(xml@, from as int, to as int).is_none(),
        },
{
    let closing: [u8; 8] = [60, 47, 99, 104, 117, 110, 107, 62];
    assert(closing@ =~= chunk_close());
    let mut chunks: Vec<Chunk> = Vec::new();
    let mut at: usize = from;
    loop
        invariant
            from <= at <= to <= xml@.len(),
            closing@ == chunk_close(),
            forall|i: int| 0 <= i < chunks@.len() ==> (#[trigger] chunks@[i]).tiles@.len() == CHUNK_TILES,
            spec_chunks(xml@, from as int, to as int) == match spec_chunks(xml@, at as int, to as int) {
                Some(rest) => Some(contents(chunks@) + rest),
                None => None,
            },
        decreases to - at,
    {
        let end: usize = match find(xml, closing.as_slice(), at, to) {
            Some(end) => end,
            None => {
                assert(contents(chunks@) + Seq::<(i16, i16, Seq<u16>)>::empty() =~= contents(chunks@));
                return Some(chunks);
            },
        };
        let chunk: Chunk = match parse_chunk(xml, at, end) {
            Some(chunk) => chunk,
            None => {
                return None;
            },
        };
        proof {
            let rest = spec_chunks(xml@, end + 8, to as int);
            if rest.is_some() {
                assert(contents(chunks@) + (seq![chunk.content()] + rest.unwrap()) =~= contents(chunks@.push(chunk))
                    + rest.unwrap());
            }
        }
        chunks.push(chunk);
        at = end + 8;
    }
}

/// The layers written in `s[from..to]`, which begins right after the
/// opening of a layer: each layer holds the chunks up to the opening of the
/// next layer, or to the end.
pub open spec fn spec_layers(s: Seq<u8>, from: int, to: int) -> Option<Seq<Seq<(i16, i16, Seq<u16>)>>>
    decreases to - from,
{
    let next = first_match(s, layer_open(), from, to);
    let end = if next.is_some() { next.unwrap() } else { to };
    if from > to || end < from || end > to {
        None
    } else {
        match spec_chunks(s, from, end) {
            Some(chunks) => if next.is_none() {
                Some(seq![chunks])
            } else if end + 6 > to {
                None
            } else {
                match spec_layers(s, end + 6, to) {
                    Some(rest) => Some(seq![chunks] + rest),
                    None => None,
                }
            },
            None => None,
        }
    }
}

/// The layers of a tile map: what stands before the opening of the first
/// layer is passed over. A map without layers has none.
pub open spec fn spec_map(s: Seq<u8>) -> Option<Seq<Seq<(i16, i16, Seq<u16>)>>> {
    match first_match(s, layer_open(), 0, s.len() as int) {
        Some(first) => if first + 6 > s.len() {
            None
        } else {
            spec_layers(s, first + 6, s.len() as int)
        },
        None => Some(Seq::empty()),
    }
}

/// The layers as plain values.
pub open spec fn layer_contents(layers: Seq<Vec<Chunk>>) -> Seq<Seq<(i16, i16, Seq<u16>)>> {
    Seq::new(layers.len(), |i: int| contents(layers[i]@))
}

/// Whether every chunk of every layer holds its 256 tiles.
pub open spec fn chunks_whole(layers: Seq<Vec<Chunk>>) -> bool {
    forall|i: int, j: int|
        0 <= i < layers.len() && 0 <= j < layers[i]@.len() ==> (#[trigger] layers[i]@[j]).tiles@.len() == CHUNK_TILES
}

/// Reads the layers of a tile map.
pub fn read_layers(data: &[u8]) -> (r: Option<Vec<Vec<Chunk>>>)
    ensures
        match r {
            Some(layers) => spec_map(data@) == Some(layer_contents(layers@)) && chunks_whole(layers@),
            None => spec_map(data@).is_none(),
        },
{
    let opening: [u8; 6] = [60, 108, 97, 121, 101, 114];
    assert(opening@ =~= layer_open());
    let to: usize = data.len();
    let mut layers: Vec<Vec<Chunk>> = Vec::new();
    let mut at: usize = match find(data, opening.as_slice(), 0, to) {
        Some(first) => first + 6,
        None => {
            assert(layer_contents(layers@) =~= Seq::empty());
            return Some(layers);
        },
    };
    loop
        invariant
            at <= to == data@.len(),
            opening@ == layer_open(),
            chunks_whole(layers@),
            spec_map(data@) == match spec_layers(data@, at as int, to as int) {
                Some(rest) => Some(layer_contents(layers@) + rest),
                None => None,
            },
        decreases to - at,
    {
        let next: Option<usize> = find(data, opening.as_slice(), at, to);
        let end: usize = match next {
            Some(end) => end,
            None => to,
        };
        let chunks: Vec<Chunk> = match get_all_chunks(data, at, end) {
            Some(chunks) => chunks,
            None => {
                return None;
            },
        };
        let ghost before = layers@;
        layers.push(chunks);
        assert(chunks_whole(layers@)) by {
            assert forall|i: int, j: int| 0 <= i < layers@.len() && 0 <= j < layers@[i]@.len() implies (
            #[trigger] layers@[i]@[j]).tiles@.len() == CHUNK_TILES by {
                if i < before.len() {
                    assert(layers@[i] == before[i]);
                }
            }
        }
        if next.is_none() {
            assert(layer_contents(before) + seq![contents(chunks@)] =~= layer_contents(layers@));
            return Some(layers);
        }
        proof {
            let rest = spec_layers(data@, end + 6, to as int);
            if rest.is_some() {
                assert(layer_contents(before) + (seq![contents(chunks@)] + rest.unwrap()) =~= layer_contents(layers@)
                    + rest.unwrap());
            }
        }
        at = end + 6;
    }
}

/// The most cells a level may have.
pub const MAX_CELLS: usize = 16_777_216;

/// The most layers of tiles a level may have, besides the layer of enemies.
pub const TILE_LAYERS: usize = 4;

/// The tile values that stand for enemies on the last layer: value `v`
/// places an enemy of kind `v - 2`.
pub const FIRST_ENEMY_TILE: u16 = 2;

pub const LAST_ENEMY_TILE: u16 = 32;

/// One coordinate of a chunk.
pub open spec fn coordinate(chunk: (i16, i16, Seq<u16>), vertical: bool) -> i16 {
    if vertical {
        chunk.1
    } else {
        chunk.0
    }
}

/// The least, or the greatest, coordinate among `start` and those of the first `n` chunks.
pub open spec fn extreme_in(chunks: Seq<(i16, i16, Seq<u16>)>, n: int, start: i16, vertical: bool, greatest: bool) -> i16
    decreases n,
{
    if n <= 0 || n > chunks.len() {
        start
    } else {
        let before = extreme_in(chunks, n - 1, start, vertical, greatest);
        let c = coordinate(chunks[n - 1], vertical);
        if (greatest && c > before) || (!greatest && c < before) {
            c
        } else {
            before
        }
    }
}

/// The least, or the greatest, coordinate among the chunks of the first
/// `n` layers. Without any chunk it is the greatest, or the least, there is.
pub open spec fn extreme(layers: Seq<Seq<(i16, i16, Seq<u16>)>>, n: int, vertical: bool, greatest: bool) -> i16
    decreases n,
{
    if n <= 0 || n > layers.len() {
        if greatest {
            i16::MIN
        } else {
            i16::MAX
        }
    } else {
        extreme_in(layers[n - 1], layers[n - 1].len() as int, extreme(layers, n - 1, vertical, greatest), vertical, greatest)
    }
}

fn find_extreme(layers: &Vec<Vec<Chunk>>, vertical: bool, greatest: bool) -> (r: i16)
    ensures
        r == extreme(layer_contents(layers@), layers@.len() as int, vertical, greatest),
{
    let mut found: i16 = if greatest { i16::MIN } else { i16::MAX };
    let mut i: usize = 0;
    while i < layers.len()
        invariant
            0 <= i <= layers@.len(),
            found == extreme(layer_contents(layers@), i as int, vertical, greatest),
        decreases layers@.len() - i,
    {
        let chunks: &Vec<Chunk> = &layers[i];
        let ghost start = found;
        let mut j: usize = 0;
        while j < chunks.len()
            invariant
                0 <= j <= chunks@.len(),
                found == extreme_in(contents(chunks@), j as int, start, vertical, greatest),
            decreases chunks@.len() - j,
        {
            let c: i16 = if vertical { chunks[j].y } else { chunks[j].x };
            if (greatest && c > found) || (!greatest && c < found) {
                found = c;
            }
            j = j + 1;
        }
        i = i + 1;
    }
    found
}

/// How many columns, and how many rows, the chunks of all layers span.
pub open spec fn grid_width(layers: Seq<Seq<(i16, i16, Seq<u16>)>>) -> int {
    extreme(layers, layers.len() as int, false, true) - extreme(layers, layers.len() as int, false, false) + CHUNK_SIZE
}

pub open spec fn grid_height(layers: Seq<Seq<(i16, i16, Seq<u16>)>>) -> int {
    extreme(layers, layers.len() as int, true, true) - extreme(layers, layers.len() as int, true, false) + CHUNK_SIZE
}

/// Whether a chunk covers the place with tile coordinates `(x, y)`.
pub open spec fn covers(chunk: (i16, i16, Seq<u16>), x: int, y: int) -> bool {
    chunk.0 <= x < chunk.0 + CHUNK_SIZE && chunk.1 <= y < chunk.1 + CHUNK_SIZE
}

/// The tile of a layer at `(x, y)`: that of the last of the first `n`
/// chunks that covers the place, and none where no chunk does.
pub open spec fn layer_tile(chunks: Seq<(i16, i16, Seq<u16>)>, n: int, x: int, y: int) -> u16
    decreases n,
{
    if n <= 0 || n > chunks.len() {
        0
    } else if covers(chunks[n - 1], x, y) {
        chunks[n - 1].2[(x - chunks[n - 1].0) + (y - chunks[n - 1].1) * CHUNK_SIZE]
    } else {
        layer_tile(chunks, n - 1, x, y)
    }
}

fn tile_of_layer(chunks: &Vec<Chunk>, x: i32, y: i32) -> (r: u16)
    requires
        forall|j: int| 0 <= j < chunks@.len() ==> (#[trigger] chunks@[j]).tiles@.len() == CHUNK_TILES,
    ensures
        r == layer_tile(contents(chunks@), chunks@.len() as int, x as int, y as int),
{
    let mut n: usize = chunks.len();
    while n > 0
        invariant
            0 <= n <= chunks@.len(),
            forall|j: int| 0 <= j < chunks@.len() ==> (#[trigger] chunks@[j]).tiles@.len() == CHUNK_TILES,
            layer_tile(contents(chunks@), chunks@.len() as int, x as int, y as int) == layer_tile(
                contents(chunks@),
                n as int,
                x as int,
                y as int,
            ),
        decreases n,
    {
        let chunk: &Chunk = &chunks[n - 1];
        let dx: i64 = x as i64 - chunk.x as i64;
        let dy: i64 = y as i64 - chunk.y as i64;
        if 0 <= dx && dx < CHUNK_SIZE as i64 && 0 <= dy && dy < CHUNK_SIZE as i64 {
            return chunk.tiles[dx as usize + dy as usize * CHUNK_SIZE];
        }
        n = n - 1;
    }
    0
}

/// The four layers of the cell at tile coordinates `(x, y)`: on each layer
/// but the last, which places enemies, the tile that the layer holds there.
pub open spec fn spec_cell(layers: Seq<Seq<(i16, i16, Seq<u16>)>>, x: int, y: int) -> Seq<u16> {
    Seq::new(
        TILE_LAYERS as nat,
        |l: int| if l + 1 < layers.len() { layer_tile(layers[l], layers[l].len() as int, x, y) } else { 0u16 },
    )
}

fn cell_of(layers: &Vec<Vec<Chunk>>, x: i32, y: i32) -> (r: [u16; 4])
    requires
        chunks_whole(layers@),
    ensures
        r@ == spec_cell(layer_contents(layers@), x as int, y as int),
{
    let count: usize = layers.len();
    let a: u16 = if 1 < count { tile_of_layer(&layers[0], x, y) } else { 0 };
    let b: u16 = if 2 < count { tile_of_layer(&layers[1], x, y) } else { 0 };
    let c: u16 = if 3 < count { tile_of_layer(&layers[2], x, y) } else { 0 };
    let d: u16 = if 4 < count { tile_of_layer(&layers[3], x, y) } else { 0 };
    let r: [u16; 4] = [a, b, c, d];
    assert(r@ =~= spec_cell(layer_contents(layers@), x as int, y as int));
    r
}

/// The place of the cell in column `x` of row `y` among the cells of a grid `width` wide.
pub open spec fn cell_index(x: int, y: int, width: int) -> int {
    x + y * width
}

/// The enemies that the first `n` tiles of a chunk place: each tile from
/// `FIRST_ENEMY_TILE` to `LAST_ENEMY_TILE` places one where it stands.
pub open spec fn chunk_enemies(chunk: (i16, i16, Seq<u16>), n: int) -> Seq<LevelEnemyData>
    decreases n,
{
    if n <= 0 || n > chunk.2.len() {
        Seq::empty()
    } else {
        let before = chunk_enemies(chunk, n - 1);
        let tile = chunk.2[n - 1];
        if FIRST_ENEMY_TILE <= tile <= LAST_ENEMY_TILE {
            before.push(
                LevelEnemyData {
                    pos: Vec2 {
                        x: ((chunk.0 + (n - 1) % (CHUNK_SIZE as int)) * TILE) as i32,
                        y: ((chunk.1 + (n - 1) / (CHUNK_SIZE as int)) * TILE) as i32,
                    },
                    ty: (tile - FIRST_ENEMY_TILE) as usize,
                    attack_delay: 0,
                    path_index: None,
                },
            )
        } else {
            before
        }
    }
}

/// The enemies that the first `n` chunks of a layer place, chunk by chunk.
pub open spec fn layer_enemies(chunks: Seq<(i16, i16, Seq<u16>)>, n: int) -> Seq<LevelEnemyData>
    decreases n,
{
    if n <= 0 || n > chunks.len() {
        Seq::empty()
    } else {
        layer_enemies(chunks, n - 1) + chunk_enemies(chunks[n - 1], CHUNK_TILES as int)
    }
}

fn place_enemies(chunks: &Vec<Chunk>) -> (r: Vec<LevelEnemyData>)
    requires
        forall|j: int| 0 <= j < chunks@.len() ==> (#[trigger] chunks@[j]).tiles@.len() == CHUNK_TILES,
    ensures
        r@ == layer_enemies(contents(chunks@), chunks@.len() as int),
{
    let mut enemies: Vec<LevelEnemyData> = Vec::new();
    let mut k: usize = 0;
    while k < chunks.len()
        invariant
            0 <= k <= chunks@.len(),
            forall|j: int| 0 <= j < chunks@.len() ==> (#[trigger] chunks@[j]).tiles@.len() == CHUNK_TILES,
            enemies@ == layer_enemies(contents(chunks@), k as int),
        decreases chunks@.len() - k,
    {
        let chunk: &Chunk = &chunks[k];
        let ghost before = enemies@;
        let mut i: usize = 0;
        assert(before + Seq::<LevelEnemyData>::empty() =~= before);
        while i < CHUNK_TILES
            invariant
                0 <= i <= CHUNK_TILES,
                chunk.tiles@.len() == CHUNK_TILES,
                enemies@ == before + chunk_enemies(chunk.content(), i as int),
            decreases CHUNK_TILES - i,
        {
            let tile: u16 = chunk.tiles[i];
            if FIRST_ENEMY_TILE <= tile && tile <= LAST_ENEMY_TILE {
                enemies.push(
                    LevelEnemyData {
                        pos: Vec2 {
                            x: (chunk.x as i32 + (i % CHUNK_SIZE) as i32) * TILE,
                            y: (chunk.y as i32 + (i / CHUNK_SIZE) as i32) * TILE,
                        },
                        ty: (tile - FIRST_ENEMY_TILE) as usize,
                        attack_delay: 0,
                        path_index: None,
                    },
                );
                assert(enemies@ =~= before + chunk_enemies(chunk.content(), i as int + 1));
            }
            i = i + 1;
        }
        k = k + 1;
    }
    enemies
}

/// The tile values of the last layer that mark numbered anchor points:
/// value `v` marks the anchor numbered `v - FIRST_MARKER_TILE`.
pub const FIRST_MARKER_TILE: u16 = 33;

pub const LAST_MARKER_TILE: u16 = 48;

/// The tile value of the last layer that marks a point a lasso can hook on.
pub const LASSO_TILE: u16 = 49;

/// The tile values of the last layer that place a horse: on the floor, or on the ceiling.
pub const HORSE_TILE: u16 = 50;

pub const HORSE_INVERTED_TILE: u16 = 51;

/// The tile values of the last layer that place a boss: value `v` places
/// the boss of kind `v - FIRST_BOSS_TILE`.
pub const FIRST_BOSS_TILE: u16 = 52;

pub const LAST_BOSS_TILE: u16 = 53;

/// The places that the first `n` tiles of a chunk mark with a value from
/// `lo` to `hi`: where each such tile stands, and its value.
pub open spec fn chunk_places(chunk: (i16, i16, Seq<u16>), n: int, lo: u16, hi: u16) -> Seq<(Vec2, u16)>
    decreases n,
{
    if n <= 0 || n > chunk.2.len() {
        Seq::empty()
    } else {
        let before = chunk_places(chunk, n - 1, lo, hi);
        let tile = chunk.2[n - 1];
        if lo <= tile <= hi {
            before.push(
                (
                    Vec2 {
                        x: ((chunk.0 + (n - 1) % (CHUNK_SIZE as int)) * TILE) as i32,
                        y: ((chunk.1 + (n - 1) / (CHUNK_SIZE as int)) * TILE) as i32,
                    },
                    tile,
                ),
            )
        } else {
            before
        }
    }
}

/// The places that the first `n` chunks of a layer mark with a value from
/// `lo` to `hi`, chunk by chunk and, within a chunk, row by row.
pub open spec fn layer_places(chunks: Seq<(i16, i16, Seq<u16>)>, n: int, lo: u16, hi: u16) -> Seq<(Vec2, u16)>
    decreases n,
{
    if n <= 0 || n > chunks.len() {
        Seq::empty()
    } else {
        layer_places(chunks, n - 1, lo, hi) + chunk_places(chunks[n - 1], CHUNK_TILES as int, lo, hi)
    }
}

fn collect_places(chunks: &Vec<Chunk>, lo: u16, hi: u16) -> (r: Vec<(Vec2, u16)>)
    requires
        forall|j: int| 0 <= j < chunks@.len() ==> (#[trigger] chunks@[j]).tiles@.len() == CHUNK_TILES,
    ensures
        r@ == layer_places(contents(chunks@), chunks@.len() as int, lo, hi),
        forall|i: int| 0 <= i < r@.len() ==> lo <= (#[trigger] r@[i]).1 <= hi,
{
    let mut places: Vec<(Vec2, u16)> = Vec::new();
    let mut k: usize = 0;
    while k < chunks.len()
        invariant
            0 <= k <= chunks@.len(),
            forall|j: int| 0 <= j < chunks@.len() ==> (#[trigger] chunks@[j]).tiles@.len() == CHUNK_TILES,
            places@ == layer_places(contents(chunks@), k as int, lo, hi),
            forall|i: int| 0 <= i < places@.len() ==> lo <= (#[trigger] places@[i]).1 <= hi,
        decreases chunks@.len() - k,
    {
        let chunk: &Chunk = &chunks[k];
        let ghost before = places@;
        let mut i: usize = 0;
        assert(before + Seq::<(Vec2, u16)>::empty() =~= before);
        while i < CHUNK_TILES
            invariant
                0 <= i <= CHUNK_TILES,
                chunk.tiles@.len() == CHUNK_TILES,
                places@ == before + chunk_places(chunk.content(), i as int, lo, hi),
                forall|j: int| 0 <= j < places@.len() ==> lo <= (#[trigger] places@[j]).1 <= hi,
            decreases CHUNK_TILES - i,
        {
            let tile: u16 = chunk.tiles[i];
            if lo <= tile && tile <= hi {
                places.push(
                    (
                        Vec2 {
                            x: (chunk.x as i32 + (i % CHUNK_SIZE) as i32) * TILE,
                            y: (chunk.y as i32 + (i / CHUNK_SIZE) as i32) * TILE,
                        },
                        tile,
                    ),
                );
                assert(places@ =~= before + chunk_places(chunk.content(), i as int + 1, lo, hi));
            }
            i = i + 1;
        }
        k = k + 1;
    }
    places
}

/// The points of places, in order.
pub open spec fn points_of(places: Seq<(Vec2, u16)>) -> Seq<Vec2> {
    Seq::new(places.len(), |i: int| places[i].0)
}

fn points(places: &Vec<(Vec2, u16)>) -> (r: Vec<Vec2>)
    ensures
        r@ == points_of(places@),
{
    let mut found: Vec<Vec2> = Vec::new();
    let mut i: usize = 0;
    while i < places.len()
        invariant
            0 <= i <= places@.len(),
            found@.len() == i,
            forall|k: int| 0 <= k < i ==> #[trigger] found@[k] == places@[k].0,
        decreases places@.len() - i,
    {
        found.push(places[i].0);
        i = i + 1;
    }
    assert(found@ =~= points_of(places@));
    found
}

/// The horses that places marked with the two horse tiles place, in order.
pub open spec fn horses_of(places: Seq<(Vec2, u16)>) -> Seq<LevelHorseData> {
    Seq::new(places.len(), |i: int| LevelHorseData { pos: places[i].0, inverted: places[i].1 == HORSE_INVERTED_TILE })
}

fn horses(places: &Vec<(Vec2, u16)>) -> (r: Vec<LevelHorseData>)
    ensures
        r@ == horses_of(places@),
{
    let mut found: Vec<LevelHorseData> = Vec::new();
    let mut i: usize = 0;
    while i < places.len()
        invariant
            0 <= i <= places@.len(),
            found@.len() == i,
            forall|k: int|
                0 <= k < i ==> #[trigger] found@[k] == (LevelHorseData {
                    pos: places@[k].0,
                    inverted: places@[k].1 == HORSE_INVERTED_TILE,
                }),
        decreases places@.len() - i,
    {
        found.push(LevelHorseData { pos: places[i].0, inverted: places[i].1 == HORSE_INVERTED_TILE });
        i = i + 1;
    }
    assert(found@ =~= horses_of(places@));
    found
}

/// The boss that places marked with the boss tiles place: that of the
/// first of them, and none where there is none.
pub open spec fn boss_of(places: Seq<(Vec2, u16)>) -> Option<(usize, Vec2)> {
    if places.len() > 0 {
        Some(((places[0].1 - FIRST_BOSS_TILE) as usize, places[0].0))
    } else {
        None
    }
}

/// The first place at or after `from` that is marked with `value`.
pub open spec fn first_marked(places: Seq<(Vec2, u16)>, value: int, from: int) -> Option<int>
    decreases places.len() - from,
{
    if from < 0 || from >= places.len() {
        None
    } else if places[from].1 == value {
        Some(from)
    } else {
        first_marked(places, value, from + 1)
    }
}

fn find_marked(places: &Vec<(Vec2, u16)>, value: u16) -> (r: Option<usize>)
    ensures
        match r {
            Some(i) => i < places@.len() && first_marked(places@, value as int, 0) == Some(i as int),
            None => first_marked(places@, value as int, 0).is_none(),
        },
{
    let mut i: usize = 0;
    while i < places.len()
        invariant
            0 <= i <= places@.len(),
            first_marked(places@, value as int, 0) == first_marked(places@, value as int, i as int),
        decreases places@.len() - i,
    {
        if places[i].1 == value {
            return Some(i);
        }
        i = i + 1;
    }
    None
}

/// The anchor point numbered `k` that `places` mark: the first place
/// marked with `FIRST_MARKER_TILE + k`, if there is one.
pub open spec fn marker_point(places: Seq<(Vec2, u16)>, k: int) -> Option<Vec2> {
    match first_marked(places, FIRST_MARKER_TILE + k, 0) {
        Some(i) => Some(places[i].0),
        None => None,
    }
}

/// Whether `markers` are the numbered anchor points that `places` mark:
/// the anchors are numbered from nought up to the first number that no
/// place is marked with.
pub open spec fn markers_of(places: Seq<(Vec2, u16)>, markers: Seq<Vec2>) -> bool {
    &&& markers.len() <= LAST_MARKER_TILE - FIRST_MARKER_TILE + 1
    &&& forall|k: int| 0 <= k < markers.len() ==> marker_point(places, k) == Some(#[trigger] markers[k])
    &&& markers.len() <= LAST_MARKER_TILE - FIRST_MARKER_TILE ==> marker_point(places, markers.len() as int).is_none()
}

fn markers(places: &Vec<(Vec2, u16)>) -> (r: Vec<Vec2>)
    ensures
        markers_of(places@, r@),
{
    let mut found: Vec<Vec2> = Vec::new();
    let mut k: u16 = 0;
    while k <= LAST_MARKER_TILE - FIRST_MARKER_TILE
        invariant
            0 <= k <= LAST_MARKER_TILE - FIRST_MARKER_TILE + 1,
            found@.len() == k,
            forall|j: int| 0 <= j < k ==> marker_point(places@, j) == Some(#[trigger] found@[j]),
        decreases LAST_MARKER_TILE - FIRST_MARKER_TILE + 1 - k,
    {
        match find_marked(places, FIRST_MARKER_TILE + k) {
            Some(i) => {
                assert(marker_point(places@, k as int) == Some(places@[i as int].0));
                found.push(places[i].0);
            },
            None => {
                assert(marker_point(places@, k as int).is_none());
                return found;
            },
        }
        k = k + 1;
    }
    found
}

/// Whether the cell in column `x` of row `y` holds a tile on the collision layer.
pub open spec fn solid_cell(data: Seq<[u16; 4]>, width: int, x: int, y: int) -> bool {
    data[cell_index(x, y, width)]@[1] != 0
}

/// Whether the cell in column `x` of row `y` is where the player starts
/// above: the topmost solid cell of the leftmost column that has one.
pub open spec fn is_spawn_cell(data: Seq<[u16; 4]>, width: int, height: int, x: int, y: int) -> bool {
    &&& 0 <= x < width
    &&& 0 <= y < height
    &&& solid_cell(data, width, x, y)
    &&& forall|i: int, j: int| 0 <= i < x && 0 <= j < height ==> !#[trigger] solid_cell(data, width, i, j)
    &&& forall|j: int| 0 <= j < y ==> !#[trigger] solid_cell(data, width, x, j)
}

/// Whether the grid holds no solid cell at all.
pub open spec fn no_solid_cell(data: Seq<[u16; 4]>, width: int, height: int) -> bool {
    forall|i: int, j: int| 0 <= i < width && 0 <= j < height ==> !#[trigger] solid_cell(data, width, i, j)
}

fn find_spawn_cell(data: &Vec<[u16; 4]>, width: usize, height: usize) -> (r: Option<(usize, usize)>)
    requires
        data@.len() == width * height,
    ensures
        match r {
            Some(cell) => is_spawn_cell(data@, width as int, height as int, cell.0 as int, cell.1 as int),
            None => no_solid_cell(data@, width as int, height as int),
        },
{
    let mut x: usize = 0;
    while x < width
        invariant
            0 <= x <= width,
            data@.len() == width * height,
            forall|i: int, j: int| 0 <= i < x && 0 <= j < height ==> !#[trigger] solid_cell(data@, width as int, i, j),
        decreases width - x,
    {
        let mut y: usize = 0;
        while y < height
            invariant
                0 <= y <= height,
                0 <= x < width,
                data@.len() == width * height,
                forall|i: int, j: int| 0 <= i < x && 0 <= j < height ==> !#[trigger] solid_cell(data@, width as int, i, j),
                forall|j: int| 0 <= j < y ==> !#[trigger] solid_cell(data@, width as int, x as int, j),
            decreases height - y,
        {
            let cells: usize = data.len();
            proof {
                lemma_cell_index(x as int, y as int, width as int, height as int);
            }
            if data[x + y * width][1] != 0 {
                return Some((x, y));
            }
            y = y + 1;
        }
        x = x + 1;
    }
    None
}

/// Cells that stand before others in a grid come before them among its cells.
pub proof fn lemma_cells_in_order(x: int, y: int, width: int, row: int)
    requires
        0 <= x < width,
        0 <= y < row,
    ensures
        0 <= cell_index(x, y, width) < row * width,
{
    lemma_cell_index(x, y, width, row);
    assert(width * row == row * width) by (nonlinear_arith);
}

fn build_grid(layers: &Vec<Vec<Chunk>>, min_x: i16, min_y: i16, width: usize, height: usize) -> (r: Vec<[u16; 4]>)
    requires
        chunks_whole(layers@),
        0 < width <= 65551,
        0 < height <= 65551,
    ensures
        r@.len() == width * height,
        forall|x: int, y: int|
            0 <= x < width && 0 <= y < height ==> (#[trigger] r@[cell_index(x, y, width as int)])@ == spec_cell(
                layer_contents(layers@),
                x + min_x,
                y + min_y,
            ),
{
    let mut data: Vec<[u16; 4]> = Vec::new();
    let mut cy: usize = 0;
    assert(0 * width == 0) by (nonlinear_arith);
    while cy < height
        invariant
            0 <= cy <= height <= 65551,
            0 < width <= 65551,
            chunks_whole(layers@),
            data@.len() == cy * width,
            forall|x: int, y: int|
                0 <= x < width && 0 <= y < cy ==> (#[trigger] data@[cell_index(x, y, width as int)])@ == spec_cell(
                    layer_contents(layers@),
                    x + min_x,
                    y + min_y,
                ),
        decreases height - cy,
    {
        let mut cx: usize = 0;
        while cx < width
            invariant
                0 <= cx <= width <= 65551,
                0 <= cy < height <= 65551,
                chunks_whole(layers@),
                data@.len() == cy * width + cx,
                forall|x: int, y: int|
                    0 <= x < width && 0 <= y < cy ==> (#[trigger] data@[cell_index(x, y, width as int)])@ == spec_cell(
                        layer_contents(layers@),
                        x + min_x,
                        y + min_y,
                    ),
                forall|x: int|
                    0 <= x < cx ==> (#[trigger] data@[cell_index(x, cy as int, width as int)])@ == spec_cell(
                        layer_contents(layers@),
                        x + min_x,
                        cy + min_y,
                    ),
            decreases width - cx,
        {
            let cell: [u16; 4] = cell_of(layers, cx as i32 + min_x as i32, cy as i32 + min_y as i32);
            let ghost before = data@;
            data.push(cell);
            proof {
                assert forall|x: int, y: int| 0 <= x < width && 0 <= y < cy implies (#[trigger] data@[cell_index(
                    x,
                    y,
                    width as int,
                )])@ == spec_cell(layer_contents(layers@), x + min_x, y + min_y) by {
                    lemma_cells_in_order(x, y, width as int, cy as int);
                    assert(data@[cell_index(x, y, width as int)] == before[cell_index(x, y, width as int)]);
                }
                assert forall|x: int| 0 <= x < cx + 1 implies (#[trigger] data@[cell_index(x, cy as int, width as int)])@
                    == spec_cell(layer_contents(layers@), x + min_x, cy + min_y) by {
                    if x < cx {
                        assert(data@[cell_index(x, cy as int, width as int)] == before[cell_index(
                            x,
                            cy as int,
                            width as int,
                        )]);
                    }
                }
            }
            cx = cx + 1;
        }
        assert((cy + 1) * width == cy * width + width) by (nonlinear_arith);
        cy = cy + 1;
    }
    assert(height * width == width * height) by (nonlinear_arith);
    data
}

/// Whether `level` is what the layers of a tile map make.
///
/// The grid spans all chunks of all layers. Every layer but the last
/// gives each cell one of its four values; the last layer places the
/// enemies. The player starts one tile above the topmost solid cell of the
/// leftmost column that has one, or above the grid's first cell if none is
/// solid. No paths are laid, and the climbable tiles are the usual two.
pub open spec fn built(level: &Level, layers: Seq<Seq<(i16, i16, Seq<u16>)>>) -> bool {
    &&& level.wf()
    &&& level.min_x == extreme(layers, layers.len() as int, false, false)
    &&& level.min_y == extreme(layers, layers.len() as int, true, false)
    &&& level.width == grid_width(layers)
    &&& level.height == grid_height(layers)
    &&& forall|x: int, y: int|
        0 <= x < level.width && 0 <= y < level.height ==> (#[trigger] level.data@[cell_index(x, y, level.width as int)])@
            == spec_cell(layers, x + level.min_x, y + level.min_y)
    &&& level.enemies@ == layer_enemies(layers.last(), layers.last().len() as int)
    &&& spawn_fits(level)
    &&& level.horses@ == horses_of(layer_places(layers.last(), layers.last().len() as int, HORSE_TILE, HORSE_INVERTED_TILE))
    &&& markers_of(
        layer_places(layers.last(), layers.last().len() as int, FIRST_MARKER_TILE, LAST_MARKER_TILE),
        level.markers@,
    )
    &&& level.lasso_targets@ == points_of(layer_places(layers.last(), layers.last().len() as int, LASSO_TILE, LASSO_TILE))
    &&& level.boss == boss_of(layer_places(layers.last(), layers.last().len() as int, FIRST_BOSS_TILE, LAST_BOSS_TILE))
    &&& level.enemy_paths@.len() == 0
    &&& level.world_index == 0
    &&& level.roof_height == 0
    &&& level.wall_climb_tiles@ == seq![crate::utils::WALL_CLIMB_TILE, crate::utils::WALL_CLIMB_TILE_TOP]
}

/// Whether the player's starting point is where the grid puts it.
pub open spec fn spawn_fits(level: &Level) -> bool {
    ||| exists|x: int, y: int|
        {
            &&& #[trigger] is_spawn_cell(level.data@, level.width as int, level.height as int, x, y)
            &&& level.player_spawn == (Vec2 {
                x: ((x + level.min_x) * TILE) as i32,
                y: ((y + level.min_y) * TILE - TILE) as i32,
            })
        }
    ||| {
        &&& no_solid_cell(level.data@, level.width as int, level.height as int)
        &&& level.player_spawn == (Vec2 { x: (level.min_x * TILE) as i32, y: (level.min_y * TILE - TILE) as i32 })
    }
}

/// Whether layers make a level: there is at least one chunk, no more
/// layers of tiles than a cell has values, and no more cells than `MAX_CELLS`.
pub open spec fn buildable(layers: Seq<Seq<(i16, i16, Seq<u16>)>>) -> bool {
    &&& 1 <= layers.len() <= TILE_LAYERS + 1
    &&& grid_width(layers) >= 1
    &&& grid_height(layers) >= 1
    &&& grid_width(layers) * grid_height(layers) <= MAX_CELLS
}

/// Tells whether every chunk of every layer holds its 256 tiles.
pub fn check_chunks(layers: &Vec<Vec<Chunk>>) -> (r: bool)
    ensures
        r == chunks_whole(layers@),
{
    let mut i: usize = 0;
    while i < layers.len()
        invariant
            0 <= i <= layers@.len(),
            forall|a: int, b: int|
                0 <= a < i && 0 <= b < layers@[a]@.len() ==> (#[trigger] layers@[a]@[b]).tiles@.len() == CHUNK_TILES,
        decreases layers@.len() - i,
    {
        let chunks: &Vec<Chunk> = &layers[i];
        let mut j: usize = 0;
        while j < chunks.len()
            invariant
                0 <= j <= chunks@.len(),
                0 <= i < layers@.len(),
                *chunks == layers@[i as int],
                forall|b: int| 0 <= b < j ==> (#[trigger] chunks@[b]).tiles@.len() == CHUNK_TILES,
            decreases chunks@.len() - j,
        {
            if chunks[j].tiles.len() != CHUNK_TILES {
                assert(layers@[i as int]@[j as int].tiles@.len() != CHUNK_TILES);
                return false;
            }
            j = j + 1;
        }
        i = i + 1;
    }
    true
}

impl Level {
    /// Makes a level of the layers of a tile map; `None` if a chunk lacks
    /// tiles or the layers make no level.
    pub fn from_layers(layers: &Vec<Vec<Chunk>>) -> (r: Option<Level>)
        ensures
            r.is_some() <==> chunks_whole(layers@) && buildable(layer_contents(layers@)),
            r.is_some() ==> built(&r.unwrap(), layer_contents(layers@)),
    {
        if !check_chunks(layers) {
            return None;
        }
        let min_x: i16 = find_extreme(layers, false, false);
        let max_x: i16 = find_extreme(layers, false, true);
        let min_y: i16 = find_extreme(layers, true, false);
        let max_y: i16 = find_extreme(layers, true, true);
        let across: i32 = max_x as i32 - min_x as i32 + CHUNK_SIZE as i32;
        let down: i32 = max_y as i32 - min_y as i32 + CHUNK_SIZE as i32;
        if layers.len() < 1 || layers.len() > TILE_LAYERS + 1 || across < 1 || down < 1 {
            return None;
        }
        let width: usize = across as usize;
        let height: usize = down as usize;
        assert(0 < width * height <= 65551 * 65551) by (nonlinear_arith)
            requires
                0 < width <= 65551,
                0 < height <= 65551,
        ;
        if width as u64 * height as u64 > MAX_CELLS as u64 {
            return None;
        }
        let data: Vec<[u16; 4]> = build_grid(layers, min_x, min_y, width, height);
        let last: &Vec<Chunk> = &layers[layers.len() - 1];
        let enemies: Vec<LevelEnemyData> = place_enemies(last);
        assert(layer_contents(layers@).last() == contents(last@));
        let marked: Vec<(Vec2, u16)> = collect_places(last, FIRST_MARKER_TILE, LAST_MARKER_TILE);
        let hooks: Vec<(Vec2, u16)> = collect_places(last, LASSO_TILE, LASSO_TILE);
        let stabled: Vec<(Vec2, u16)> = collect_places(last, HORSE_TILE, HORSE_INVERTED_TILE);
        let lairs: Vec<(Vec2, u16)> = collect_places(last, FIRST_BOSS_TILE, LAST_BOSS_TILE);
        let boss: Option<(usize, Vec2)> = if lairs.len() > 0 {
            Some(((lairs[0].1 - FIRST_BOSS_TILE) as usize, lairs[0].0))
        } else {
            None
        };
        let player_spawn: Vec2 = match find_spawn_cell(&data, width, height) {
            Some(cell) => Vec2 {
                x: (cell.0 as i32 + min_x as i32) * TILE,
                y: (cell.1 as i32 + min_y as i32) * TILE - TILE,
            },
            None => Vec2 { x: min_x as i32 * TILE, y: min_y as i32 * TILE - TILE },
        };
        let level = Level {
            width,
            height,
            data,
            min_x,
            min_y,
            enemies,
            horses: horses(&stabled),
            markers: markers(&marked),
            lasso_targets: points(&hooks),
            enemy_paths: Vec::new(),
            player_spawn,
            boss,
            world_index: 0,
            roof_height: 0,
            wall_climb_tiles: crate::utils::default_wall_climb_tiles(),
        };
        assert(spawn_fits(&level));
        Some(level)
    }

    /// Reads a level out of the text of a tile map; `None` if the text is
    /// no tile map or its layers make no level.
    pub fn load(data: &[u8]) -> (r: Option<Level>)
        ensures
            r.is_some() <==> spec_map(data@).is_some() && buildable(spec_map(data@).unwrap()),
            r.is_some() ==> built(&r.unwrap(), spec_map(data@).unwrap()),
    {
        match read_layers(data) {
            Some(layers) => Level::from_layers(&layers),
            None => None,
        }
    }
}

} // verus!
