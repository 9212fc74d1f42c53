//! The tile map of a stage: a grid of cells read from rows of text.

use vstd::prelude::*;
use crate::geometry::{Aabb, Vector, TILE_SIZE};

verus! {

/// What one cell of the map holds.
#[derive(Clone, Copy, Debug, PartialEq, Eq, Structural)]
pub enum Cell {
    /// Nothing is placed here.
    Empty,
    /// Open background, first variant.
    BackgroundA,
    /// Open background, second variant.
    BackgroundB,
    /// A solid wall.
    Wall,
}

/// The place of a tile in the grid. Row 0 is ground level.
#[derive(Clone, Copy, Debug, PartialEq, Eq, Structural)]
pub struct TilePos {
    pub col: u32,
    pub row: u32,
}

impl TilePos {
    /// The centre of the tile in the world.
    pub open spec fn center(self) -> Vector {
        Vector { x: (TILE_SIZE * self.col) as i64, y: (TILE_SIZE * self.row) as i64 }
    }

    /// The box that the tile fills in the world.
    pub open spec fn bounds(self) -> Aabb {
        Aabb { center: self.center(), size: Vector { x: TILE_SIZE, y: TILE_SIZE } }
    }

    /// The centre of the tile in the world.
    pub fn to_center(self) -> (c: Vector)
        ensures
            c == self.center(),
            c.x == TILE_SIZE * self.col,
            c.y == TILE_SIZE * self.row,
    {
        Vector { x: TILE_SIZE * (self.col as i64), y: TILE_SIZE * (self.row as i64) }
    }

    /// The box that the tile fills in the world.
    pub fn to_bounds(self) -> (b: Aabb)
        ensures
            b == self.bounds(),
    {
        Aabb { center: self.to_center(), size: Vector { x: TILE_SIZE, y: TILE_SIZE } }
    }
}

/// The cell that a character of the map text stands for: `A` and `B` are the
/// two backgrounds, `C` is a wall, and anything else leaves the cell empty.
pub open spec fn cell_of(c: char) -> Cell {
    if c == 'A' {
        Cell::BackgroundA
    } else if c == 'B' {
        Cell::BackgroundB
    } else if c == 'C' {
        Cell::Wall
    } else {
        Cell::Empty
    }
}

/// The cell that a character of the map text stands for.
pub fn cell_from_char(c: char) -> (cell: Cell)
    ensures
        cell == cell_of(c),
{
    if c == 'A' {
        Cell::BackgroundA
    } else if c == 'B' {
        Cell::BackgroundB
    } else if c == 'C' {
        Cell::Wall
    } else {
        Cell::Empty
    }
}

/// The lines of a map text as sequences of characters.
pub open spec fn lines_of(source: Seq<&str>) -> Seq<Seq<char>> {
    Seq::new(source.len(), |i: int| source[i]@)
}

/// The grid that a map text describes. The text gives the top row first;
/// the grid is read from the bottom, so its row 0 is the last line.
pub open spec fn decoded(lines: Seq<Seq<char>>) -> Seq<Seq<Cell>> {
    Seq::new(
        lines.len(),
        |r: int| Seq::new(lines[lines.len() - 1 - r].len(), |c: int| cell_of(lines[lines.len() - 1 - r][c])),
    )
}

/// The grid of a stage, bottom row first.
#[derive(Debug)]
pub struct TileMap {
    pub rows: Vec<Vec<Cell>>,
}

impl TileMap {
    /// The grid as a sequence of rows of cells, bottom row first.
    pub open spec fn view(&self) -> Seq<Seq<Cell>> {
        Seq::new(self.rows@.len(), |r: int| self.rows@[r]@)
    }

    /// The cell at a position; outside the grid every cell is empty.
    pub open spec fn cell_at(&self, pos: TilePos) -> Cell {
        if pos.row < self.rows@.len() && pos.col < self.rows@[pos.row as int]@.len() {
            self.rows@[pos.row as int]@[pos.col as int]
        } else {
            Cell::Empty
        }
    }

    /// Reads a map from its text: one line per row, top row first, one
    /// character per cell.
    pub fn decode(source: &[&str]) -> (map: TileMap)
        ensures
            map@ == decoded(lines_of(source@)),
    {
        let n: usize = source.len();
        let mut rows: Vec<Vec<Cell>> = Vec::new();
        let mut r: usize = 0;
        while r < n
            invariant
                n == source@.len(),
                r <= n,
                rows@.len() == r,
                forall|k: int| 0 <= k < r ==> (#[trigger] rows@[k])@ == decoded(lines_of(source@))[k],
            decreases n - r,
        {
            let line: &str = source[n - 1 - r];
            let width: usize = line.unicode_len();
            let mut row: Vec<Cell> = Vec::new();
            let mut c: usize = 0;
            while c < width
                invariant
                    width == line@.len(),
                    c <= width,
                    row@.len() == c,
                    forall|k: int| 0 <= k < c ==> #[trigger] row@[k] == cell_of(line@[k]),
                decreases width - c,
            {
                row.push(cell_from_char(line.get_char(c)));
                c = c + 1;
            }
            assert(row@ =~= decoded(lines_of(source@))[r as int]);
            rows.push(row);
            r = r + 1;
        }
        let map = TileMap { rows };
        assert(map@ =~= decoded(lines_of(source@)));
        map
    }

    /// The cell at a position; outside the grid every cell is empty.
    pub fn cell(&self, pos: TilePos) -> (cell: Cell)
        ensures
            cell == self.cell_at(pos),
    {
        if (pos.row as usize) < self.rows.len() && (pos.col as usize) < self.rows[pos.row as usize].len() {
            self.rows[pos.row as usize][pos.col as usize]
        } else {
            Cell::Empty
        }
    }

    /// Lists the positions of all wall cells, each one once, row by row
    /// from the bottom.
    pub fn walls(&self) -> (walls: Vec<TilePos>)
        ensures
            forall|pos: TilePos| #[trigger] walls@.contains(pos) <==> self.cell_at(pos) == Cell::Wall,
            walls@.no_duplicates(),
    {
        let mut walls: Vec<TilePos> = Vec::new();
        let height: usize = self.rows.len();
        let mut r: usize = 0;
        while r < height && r <= u32::MAX as usize
            invariant
                height == self.rows@.len(),
                r <= height,
                r <= u32::MAX + 1,
                forall|pos: TilePos|
                    #[trigger] walls@.contains(pos) <==> (self.cell_at(pos) == Cell::Wall && pos.row < r),
                walls@.no_duplicates(),
            decreases height - r,
        {
            let width: usize = self.rows[r].len();
            let mut c: usize = 0;
            while c < width && c <= u32::MAX as usize
                invariant
                    height == self.rows@.len(),
                    r < height,
                    r <= u32::MAX,
                    width == self.rows@[r as int]@.len(),
                    c <= width,
                    c <= u32::MAX + 1,
                    forall|pos: TilePos|
                        #[trigger] walls@.contains(pos) <==> (self.cell_at(pos) == Cell::Wall && (pos.row < r
                            || (pos.row == r && pos.col < c))),
                    walls@.no_duplicates(),
                decreases width - c,
            {
                if self.rows[r][c] == Cell::Wall {
                    let pos = TilePos { col: c as u32, row: r as u32 };
                    let ghost before = walls@;
                    assert(!before.contains(pos));
                    walls.push(pos);
                    assert(walls@.no_duplicates()) by {
                        assert forall|i: int, j: int|
                            0 <= i < walls@.len() && 0 <= j < walls@.len() && i != j implies walls@[i]
                            != walls@[j] by {
                            if i < before.len() && j < before.len() {
                                assert(before[i] != before[j]);
                            } else if i < before.len() {
                                assert(before.contains(before[i]));
                            } else {
                                assert(before.contains(before[j]));
                            }
                        }
                    }
                    assert(forall|p: TilePos| #[trigger] walls@.contains(p) <==> (before.contains(p) || p == pos)) by {
                        assert(walls@ == before.push(pos));
                        assert forall|p: TilePos| walls@.contains(p) implies (before.contains(p) || p == pos) by {
                            let i = choose|i: int| 0 <= i < walls@.len() && walls@[i] == p;
                            if i < before.len() {
                                assert(before[i] == p);
                            }
                        }
                        assert forall|p: TilePos| (before.contains(p) || p == pos) implies walls@.contains(p) by {
                            if before.contains(p) {
                                let i = choose|i: int| 0 <= i < before.len() && before[i] == p;
                                assert(walls@[i] == p);
                            } else {
                                assert(walls@[before.len() as int] == p);
                            }
                        }
                    }
                }
                c = c + 1;
            }
            r = r + 1;
        }
        walls
    }
}

} // verus!
