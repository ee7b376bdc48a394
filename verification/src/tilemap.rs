//! The overworld map: one tile for each character of a text.

use crate::npc::Npc;
use vstd::prelude::*;

verus! {

/// What stands on a tile.
#[derive(Debug, Clone, Copy, PartialEq, Eq, Hash, Structural)]
pub enum TileKind {
    /// Open ground.
    Floor,
    /// A wall; it blocks the way.
    Wall,
    /// Tall grass; walking through it leads to encounters.
    Encounter,
    /// Somebody stands here, and blocks the way as a wall does.
    Person(Npc),
}

/// One tile of the map.
#[derive(Debug, Clone, Copy, PartialEq, Eq, Structural)]
pub struct Tile {
    /// The column, counted from the left.
    pub x: usize,
    /// The row, counted from the top.
    pub y: usize,
    /// The picture of the tile in the tile sheet.
    pub index: usize,
    pub kind: TileKind,
}

/// The picture that stands for a character of the map.
pub open spec fn tile_index_of(c: char) -> usize {
    if c == '#' {
        169
    } else if c == '~' {
        5
    } else if c == '@' {
        80
    } else {
        0
    }
}

/// What a character of the map puts on its tile.
pub open spec fn tile_kind_of(c: char) -> TileKind {
    if c == '#' {
        TileKind::Wall
    } else if c == '~' {
        TileKind::Encounter
    } else if c == '@' {
        TileKind::Person(Npc::Healer)
    } else {
        TileKind::Floor
    }
}

/// The tiles of one row of the map, from left to right.
pub open spec fn row_tiles(line: Seq<char>, y: usize) -> Seq<Tile> {
    Seq::new(
        line.len(),
        |x: int|
            Tile { x: x as usize, y, index: tile_index_of(line[x]), kind: tile_kind_of(line[x]) },
    )
}

/// The tiles of the map, row after row from the top.
pub open spec fn map_tiles(lines: Seq<Vec<char>>) -> Seq<Tile>
    decreases lines.len(),
{
    if lines.len() == 0 {
        seq![]
    } else {
        map_tiles(lines.drop_last()) + row_tiles(lines.last()@, (lines.len() - 1) as usize)
    }
}

/// The picture that stands for a character of the map.
pub fn char_to_tile_index(c: char) -> (index: usize)
    ensures
        index == tile_index_of(c),
{
    match c {
        '#' => 49 * 3 + 22,
        '~' => 5,
        '@' => 49 * 2 - 18,
        _ => 0,
    }
}

/// What a character of the map puts on its tile.
pub fn char_to_tile_kind(c: char) -> (kind: TileKind)
    ensures
        kind == tile_kind_of(c),
{
    match c {
        '#' => TileKind::Wall,
        '~' => TileKind::Encounter,
        '@' => TileKind::Person(Npc::Healer),
        _ => TileKind::Floor,
    }
}

/// Lays out the map that the lines of a text describe: one tile for each
/// character, at the character's column and the line's row.
pub fn create_simple_map(lines: &Vec<Vec<char>>) -> (tiles: Vec<Tile>)
    ensures
        tiles@ == map_tiles(lines@),
{
    let mut tiles: Vec<Tile> = Vec::new();
    let rows = lines.len();
    let mut y: usize = 0;
    while y < rows
        invariant
            rows == lines@.len(),
            y <= rows,
            tiles@ == map_tiles(lines@.take(y as int)),
        decreases rows - y,
    {
        let line = &lines[y];
        let columns = line.len();
        let ghost above = tiles@;
        let mut x: usize = 0;
        while x < columns
            invariant
                columns == line@.len(),
                x <= columns,
                tiles@ == above + row_tiles(line@, y).take(x as int),
            decreases columns - x,
        {
            let c = line[x];
            tiles.push(Tile { x, y, index: char_to_tile_index(c), kind: char_to_tile_kind(c) });
            x = x + 1;
        }
        proof {
            let next = lines@.take(y + 1);
            assert(next.drop_last() =~= lines@.take(y as int));
        }
        y = y + 1;
    }
    assert(lines@.take(rows as int) =~= lines@);
    tiles
}

} // verus!
