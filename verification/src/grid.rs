//! Grids of tiles and the rule that decides where a creature may stand.
//!
//! A tile is 32 pixels wide and high. A grid is stored by columns:
//! `tiles[col][row]`. Two grids exist side by side, the world map, whose
//! origin is the world's, and the ship's deck, whose origin moves with the
//! ship. A creature fills a box of one tile's size, so a position is free
//! only if every cell the box reaches into is there and can be walked on.

use vstd::prelude::*;
use crate::tile::Tile;

verus! {

/// The cells of a stored grid, column by column.
pub open spec fn cells<T>(tiles: Vec<Vec<T>>) -> Seq<Seq<T>> {
    Seq::new(tiles@.len(), |col: int| tiles@[col]@)
}

/// The grid has `width` columns of `height` cells each: it has no holes.
pub open spec fn fits<T>(grid: Seq<Seq<T>>, width: int, height: int) -> bool {
    &&& grid.len() == width
    &&& forall|col: int| 0 <= col < grid.len() ==> (#[trigger] grid[col]).len() == height
}

/// The tile at a cell, or nothing where the grid has no such cell.
pub open spec fn tile_at(grid: Seq<Seq<Tile>>, col: int, row: int) -> Option<Tile> {
    if 0 <= col < grid.len() && 0 <= row < grid[col].len() {
        Some(grid[col][row])
    } else {
        None
    }
}

/// Every tile of the grid has the passability of its type.
pub open spec fn tiles_wf(grid: Seq<Seq<Tile>>) -> bool {
    forall|col: int, row: int|
        0 <= col < grid.len() && 0 <= row < grid[col].len() ==> (#[trigger] grid[col][row]).wf()
}

/// The cell is there and can be walked on.
pub open spec fn cell_passable(grid: Seq<Seq<Tile>>, col: int, row: int) -> bool {
    match tile_at(grid, col, row) {
        Some(tile) => tile.passable,
        None => false,
    }
}

/// The grid with one cell replaced.
pub open spec fn with_tile(grid: Seq<Seq<Tile>>, col: int, row: int, tile: Tile) -> Seq<Seq<Tile>>
    recommends
        tile_at(grid, col, row) is Some,
{
    grid.update(col, grid[col].update(row, tile))
}

/// The cell a pixel coordinate falls into, counted from the grid's origin.
pub open spec fn cell_of(p: int) -> int {
    p / 32
}

/// The cell under the centre of a box of one tile's size that starts at
/// pixel `p`, in a grid whose origin lies at pixel `origin`.
pub open spec fn centre_cell(p: int, origin: int) -> int {
    cell_of(p + 16 - origin)
}

/// The last cell reached by a box of one tile's size that starts at pixel
/// `p`.
pub open spec fn far_cell_of(p: int) -> int {
    (p + 31) / 32
}

/// Whether a box of one tile's size with its corner at pixel `(x, y)` reaches
/// into the cell `(col, row)`.
pub open spec fn footprint_covers(x: int, y: int, col: int, row: int) -> bool {
    &&& col * 32 < x + 32
    &&& x < (col + 1) * 32
    &&& row * 32 < y + 32
    &&& y < (row + 1) * 32
}

/// Whether a creature may stand with its corner at pixel `(x, y)` of the
/// grid: the cells under all four corners of its box are there and can be
/// walked on.
pub open spec fn can_occupy(grid: Seq<Seq<Tile>>, x: int, y: int) -> bool {
    &&& cell_passable(grid, cell_of(x), cell_of(y))
    &&& cell_passable(grid, cell_of(x), far_cell_of(y))
    &&& cell_passable(grid, far_cell_of(x), cell_of(y))
    &&& cell_passable(grid, far_cell_of(x), far_cell_of(y))
}

/// The four corners decide for the whole box: a position is free exactly if
/// every cell the box reaches into is there and can be walked on. So one
/// blocked or missing cell under any part of the box rejects the position,
/// and nothing else does.
pub proof fn lemma_four_corners(grid: Seq<Seq<Tile>>, x: int, y: int)
    ensures
        can_occupy(grid, x, y) <==> (forall|col: int, row: int|
            footprint_covers(x, y, col, row) ==> cell_passable(grid, col, row)),
{
    let fx = cell_of(x);
    let cx = far_cell_of(x);
    let fy = cell_of(y);
    let cy = far_cell_of(y);
    assert(footprint_covers(x, y, fx, fy));
    assert(footprint_covers(x, y, fx, cy));
    assert(footprint_covers(x, y, cx, fy));
    assert(footprint_covers(x, y, cx, cy));
    if can_occupy(grid, x, y) {
        assert forall|col: int, row: int| footprint_covers(x, y, col, row) implies cell_passable(
            grid,
            col,
            row,
        ) by {
            assert(col == fx || col == cx);
            assert(row == fy || row == cy);
        }
    }
}

/// In a grid without holes where one cell alone cannot be walked on, a
/// position whose box lies within the grid is free exactly if the box does
/// not reach into that cell.
pub proof fn lemma_one_blocked_cell(
    grid: Seq<Seq<Tile>>,
    width: int,
    height: int,
    blocked_col: int,
    blocked_row: int,
    x: int,
    y: int,
)
    requires
        fits(grid, width, height),
        forall|col: int, row: int|
            0 <= col < width && 0 <= row < height ==> ((#[trigger] grid[col][row]).passable <==> !(
            col == blocked_col && row == blocked_row)),
        0 <= x,
        x + 32 <= width * 32,
        0 <= y,
        y + 32 <= height * 32,
    ensures
        can_occupy(grid, x, y) <==> !footprint_covers(x, y, blocked_col, blocked_row),
{
    lemma_four_corners(grid, x, y);
    assert forall|col: int, row: int| footprint_covers(x, y, col, row) implies (cell_passable(
        grid,
        col,
        row,
    ) <==> !(col == blocked_col && row == blocked_row)) by {
        assert(0 <= col < width);
        assert(0 <= row < height);
        assert(grid[col].len() == height);
        assert(grid[col][row].passable <==> !(col == blocked_col && row == blocked_row));
    }
}

/// A position on a cell boundary along both axes reaches into one cell only.
pub proof fn lemma_aligned_footprint(grid: Seq<Seq<Tile>>, col: int, row: int)
    ensures
        can_occupy(grid, col * 32, row * 32) == cell_passable(grid, col, row),
{
    assert(cell_of(col * 32) == col);
    assert(far_cell_of(col * 32) == col);
    assert(cell_of(row * 32) == row);
    assert(far_cell_of(row * 32) == row);
}

/// Whether a stored grid has `width` columns of `height` cells each.
pub fn has_shape<T>(grid: &Vec<Vec<T>>, width: usize, height: usize) -> (shaped: bool)
    ensures
        shaped == fits(cells(*grid), width as int, height as int),
{
    if grid.len() != width {
        return false;
    }
    let mut col: usize = 0;
    while col < grid.len()
        invariant
            col <= grid.len(),
            forall|k: int| 0 <= k < col ==> (#[trigger] cells(*grid)[k]).len() == height,
        decreases grid.len() - col,
    {
        if grid[col].len() != height {
            assert(cells(*grid)[col as int].len() != height);
            return false;
        }
        col += 1;
    }
    true
}

/// The tile at a cell of a stored grid, or nothing where there is no such
/// cell.
pub fn tile_in(tiles: &Vec<Vec<Tile>>, col: usize, row: usize) -> (tile: Option<Tile>)
    ensures
        tile == tile_at(cells(*tiles), col as int, row as int),
{
    if col < tiles.len() {
        if row < tiles[col].len() {
            return Some(tiles[col][row]);
        }
    }
    None
}

/// The tile at a cell given by signed numbers, or nothing where there is no
/// such cell.
pub fn tile_at_cell(tiles: &Vec<Vec<Tile>>, col: i128, row: i128) -> (tile: Option<Tile>)
    ensures
        tile == tile_at(cells(*tiles), col as int, row as int),
{
    if col < 0 || row < 0 {
        return None;
    }
    if col >= tiles.len() as i128 {
        return None;
    }
    let c: usize = col as usize;
    if row >= tiles[c].len() as i128 {
        return None;
    }
    let r: usize = row as usize;
    Some(tiles[c][r])
}

/// The cell under the centre of a creature whose corner is at the world
/// pixel `(x, y)`, in a grid whose origin lies at `(origin_x, origin_y)`, or
/// nothing where the grid has no cell there.
pub fn cell_under(tiles: &Vec<Vec<Tile>>, origin_x: i64, origin_y: i64, x: i64, y: i64) -> (cell:
    Option<(usize, usize)>)
    ensures
        match cell {
            Some((col, row)) => {
                &&& col == centre_cell(x as int, origin_x as int)
                &&& row == centre_cell(y as int, origin_y as int)
                &&& tile_at(cells(*tiles), col as int, row as int) is Some
            },
            None => tile_at(
                cells(*tiles),
                centre_cell(x as int, origin_x as int),
                centre_cell(y as int, origin_y as int),
            ) is None,
        },
{
    let local_x: i128 = x as i128 + 16 - origin_x as i128;
    let local_y: i128 = y as i128 + 16 - origin_y as i128;
    if local_x < 0 || local_y < 0 {
        return None;
    }
    let col: i128 = local_x / 32;
    let row: i128 = local_y / 32;
    if col >= tiles.len() as i128 {
        return None;
    }
    if row >= tiles[col as usize].len() as i128 {
        return None;
    }
    Some((col as usize, row as usize))
}

/// The tile under the centre of a creature whose corner is at the world
/// pixel `(x, y)`, in a grid whose origin lies at `(origin_x, origin_y)`.
pub fn tile_under(tiles: &Vec<Vec<Tile>>, origin_x: i64, origin_y: i64, x: i64, y: i64) -> (tile:
    Option<Tile>)
    ensures
        tile == tile_at(
            cells(*tiles),
            centre_cell(x as int, origin_x as int),
            centre_cell(y as int, origin_y as int),
        ),
{
    match cell_under(tiles, origin_x, origin_y, x, y) {
        Some((col, row)) => Some(tiles[col][row]),
        None => None,
    }
}

/// Whether the cell given by signed numbers is there and can be walked on.
fn passable_at(tiles: &Vec<Vec<Tile>>, col: i128, row: i128) -> (free: bool)
    ensures
        free == cell_passable(cells(*tiles), col as int, row as int),
{
    match tile_at_cell(tiles, col, row) {
        Some(tile) => tile.passable,
        None => false,
    }
}

/// Whether a creature may stand with its corner at the world pixel `(x, y)`,
/// in a grid whose origin lies at `(origin_x, origin_y)`. The position is
/// first brought into the grid's own frame; no cell outside the grid is ever
/// read.
pub fn footprint_clear(tiles: &Vec<Vec<Tile>>, origin_x: i64, origin_y: i64, x: i64, y: i64) -> (free:
    bool)
    ensures
        free == can_occupy(cells(*tiles), x - origin_x, y - origin_y),
{
    let local_x: i128 = x as i128 - origin_x as i128;
    let local_y: i128 = y as i128 - origin_y as i128;
    if local_x < 0 || local_y < 0 {
        return false;
    }
    let near_col: i128 = local_x / 32;
    let far_col: i128 = (local_x + 31) / 32;
    let near_row: i128 = local_y / 32;
    let far_row: i128 = (local_y + 31) / 32;
    passable_at(tiles, near_col, near_row) && passable_at(tiles, near_col, far_row) && passable_at(
        tiles,
        far_col,
        near_row,
    ) && passable_at(tiles, far_col, far_row)
}

/// Replaces one tile of a stored grid. A grid without that cell is left as
/// it is.
pub fn set_tile(tiles: &mut Vec<Vec<Tile>>, col: usize, row: usize, tile: Tile)
    ensures
        cells(*final(tiles)) == if tile_at(cells(*old(tiles)), col as int, row as int) is Some {
            with_tile(cells(*old(tiles)), col as int, row as int, tile)
        } else {
            cells(*old(tiles))
        },
{
    if col < tiles.len() {
        if row < tiles[col].len() {
            tiles[col][row] = tile;
            assert(cells(*tiles) =~= with_tile(cells(*old(tiles)), col as int, row as int, tile));
        }
    }
}

} // verus!
