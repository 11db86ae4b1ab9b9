//! Grid arithmetic on whole pixels: from a point to the cell that holds it,
//! from a cell to its index in row-major order, and from an index back to the
//! pixel at which that cell begins.

use bevy::math::UVec2;
use vstd::arithmetic::div_mod::lemma_div_multiples_vanish;
use vstd::arithmetic::div_mod::lemma_fundamental_div_mod;
use vstd::arithmetic::div_mod::lemma_fundamental_div_mod_converse;
use vstd::arithmetic::mul::lemma_mul_is_commutative;
use vstd::prelude::*;

verus! {

/// A point with whole coordinates: a pixel, or a cell of a grid that extends
/// to both sides of the origin.
#[derive(Clone, Copy, Debug, PartialEq, Eq, Structural)]
pub struct IntPos {
    pub x: i64,
    pub y: i64,
}

/// The cell, along one axis, that holds coordinate `p` when cells are `size`
/// wide: the quotient rounded towards negative infinity.
pub open spec fn cell_of(p: int, size: int) -> int
    recommends
        size > 0,
{
    p / size
}

/// `v` as a `u32`, where it is one.
pub open spec fn in_u32(v: int) -> Option<u32> {
    if 0 <= v <= u32::MAX {
        Some(v as u32)
    } else {
        None
    }
}

/// The row-major index of cell `(x, y)` in a grid `w` cells wide and `h`
/// cells high, for a cell inside the grid.
pub open spec fn linear_index(x: int, y: int, w: int, h: int) -> Option<int> {
    if 0 <= x < w && 0 <= y < h {
        Some(x + y * w)
    } else {
        None
    }
}

/// How many whole cells of width `cell` fit in `extent`.
pub open spec fn cells_along(extent: int, cell: int) -> int
    recommends
        cell > 0,
{
    extent / cell
}

/// The pixel at which the cell with row-major index `id` begins, in an atlas
/// `columns` cells wide whose cells measure `cell_w` by `cell_h`.
pub open spec fn cell_origin(id: int, columns: int, cell_w: int, cell_h: int) -> (int, int)
    recommends
        columns > 0,
{
    ((id % columns) * cell_w, (id / columns) * cell_h)
}

/// Quotient rounded towards negative infinity.
fn floor_div(p: i64, d: u32) -> (q: i64)
    requires
        d >= 1,
    ensures
        q == cell_of(p as int, d as int),
{
    let d64: i64 = d as i64;
    if p >= 0 {
        p / d64
    } else {
        let m: i64 = -(p + 1);
        let k: i64 = m / d64;
        proof {
            let r = m as int % d64 as int;
            lemma_fundamental_div_mod(m as int, d64 as int);
            assert(m == d64 * k + r);
            assert(p as int == d64 * (-k - 1) + (d64 - 1 - r)) by (nonlinear_arith)
                requires
                    m == d64 * k + r,
                    m == -(p + 1),
            ;
            lemma_fundamental_div_mod_converse(p as int, d64 as int, -k - 1, d64 - 1 - r);
        }
        -k - 1
    }
}

/// The cell that holds `pos` in a grid of `grid_dims`-sized cells laid from
/// the origin.
pub fn gridify_pos(pos: IntPos, grid_dims: UVec2) -> (cell: IntPos)
    requires
        grid_dims.x >= 1,
        grid_dims.y >= 1,
    ensures
        cell.x == cell_of(pos.x as int, grid_dims.x as int),
        cell.y == cell_of(pos.y as int, grid_dims.y as int),
{
    IntPos { x: floor_div(pos.x, grid_dims.x), y: floor_div(pos.y, grid_dims.y) }
}

/// The product of two `u32` values as an `i64`.
fn scaled(count: u32, size: u32) -> (product: i64)
    requires
        count * size <= i64::MAX,
    ensures
        product == count * size,
{
    let c: i64 = count as i64;
    let s: i64 = size as i64;
    assert(0 <= c * s) by (nonlinear_arith)
        requires
            0 <= c,
            0 <= s,
    ;
    c * s
}

/// `v` as a `u32`, where it is one.
fn unsigned(v: i64) -> (r: Option<u32>)
    ensures
        r == in_u32(v as int),
{
    if v < 0 || v > 0xffff_ffff {
        None
    } else {
        Some(v as u32)
    }
}

/// The cell that holds `pos`, as unsigned coordinates. A point to the left
/// of or above the origin lies in no such cell, and neither does a point
/// whose column or row is more than a `u32` can count.
pub fn gridify_int(pos: IntPos, grid_dims: UVec2) -> (cell: Option<UVec2>)
    requires
        grid_dims.x >= 1,
        grid_dims.y >= 1,
    ensures
        match cell {
            Some(found) => in_u32(cell_of(pos.x as int, grid_dims.x as int)) == Some(found.x)
                && in_u32(cell_of(pos.y as int, grid_dims.y as int)) == Some(found.y),
            None => in_u32(cell_of(pos.x as int, grid_dims.x as int)) is None || in_u32(
                cell_of(pos.y as int, grid_dims.y as int),
            ) is None,
        },
{
    let cell = gridify_pos(pos, grid_dims);
    match (unsigned(cell.x), unsigned(cell.y)) {
        (Some(x), Some(y)) => Some(UVec2 { x, y }),
        _ => None,
    }
}

/// The row-major index of `tile` in a grid of `size` cells, or `None` for a
/// cell outside the grid.
pub fn int_tile_pos_to_id(tile: UVec2, size: UVec2) -> (id: Option<u32>)
    requires
        linear_index(tile.x as int, tile.y as int, size.x as int, size.y as int) matches Some(i)
            ==> i <= u32::MAX,
    ensures
        match id {
            Some(i) => linear_index(tile.x as int, tile.y as int, size.x as int, size.y as int)
                == Some(i as int),
            None => linear_index(tile.x as int, tile.y as int, size.x as int, size.y as int)
                is None,
        },
{
    if tile.x >= size.x || tile.y >= size.y {
        return None;
    }
    let row_start: u64 = tile.y as u64 * size.x as u64;
    Some((tile.x as u64 + row_start) as u32)
}

/// The pixel at which tile `id` begins in an atlas of `atlas_size` pixels cut
/// into `tile_size`-sized tiles, counted row by row.
pub fn tile_id_to_pos(id: u32, atlas_size: UVec2, tile_size: UVec2) -> (pos: IntPos)
    requires
        tile_size.x >= 1,
        atlas_size.x >= tile_size.x,
        cell_origin(
            id as int,
            cells_along(atlas_size.x as int, tile_size.x as int),
            tile_size.x as int,
            tile_size.y as int,
        ).1 <= i64::MAX,
    ensures
        (pos.x as int, pos.y as int) == cell_origin(
            id as int,
            cells_along(atlas_size.x as int, tile_size.x as int),
            tile_size.x as int,
            tile_size.y as int,
        ),
{
    let tiles_per_line: u32 = atlas_size.x / tile_size.x;
    assert(tiles_per_line >= 1) by (nonlinear_arith)
        requires
            tiles_per_line == atlas_size.x as int / tile_size.x as int,
            tile_size.x >= 1,
            atlas_size.x >= tile_size.x,
    ;
    let column: u32 = id % tiles_per_line;
    let row: u32 = id / tiles_per_line;
    assert(column as int * tile_size.x as int <= atlas_size.x) by (nonlinear_arith)
        requires
            0 <= column < tiles_per_line,
            tiles_per_line == atlas_size.x as int / tile_size.x as int,
            tile_size.x >= 1,
    ;
    let x = scaled(column, tile_size.x);
    let y = scaled(row, tile_size.y);
    IntPos { x, y }
}

/// Inside a grid with at least one column and one row, the index of a cell
/// is its column plus its row times the width; outside the grid there is
/// none.
pub proof fn lemma_linear_index(x: int, y: int, w: int, h: int)
    requires
        w >= 1,
        h >= 1,
        0 <= x,
        0 <= y,
    ensures
        x < w && y < h ==> linear_index(x, y, w, h) == Some(x + y * w),
        x >= w || y >= h ==> linear_index(x, y, w, h) is None,
{
}

/// Inside the grid the index stays below the number of cells, and two cells
/// with the same index are the same cell.
pub proof fn lemma_linear_index_is_injective(x1: int, y1: int, x2: int, y2: int, w: int, h: int)
    requires
        linear_index(x1, y1, w, h) is Some,
        linear_index(x2, y2, w, h) is Some,
    ensures
        0 <= linear_index(x1, y1, w, h)->0 < w * h,
        linear_index(x1, y1, w, h) == linear_index(x2, y2, w, h) ==> x1 == x2 && y1 == y2,
{
    assert(x1 + y1 * w < w * h) by (nonlinear_arith)
        requires
            0 <= x1 < w,
            0 <= y1 < h,
    ;
    assert(0 <= x1 + y1 * w) by (nonlinear_arith)
        requires
            0 <= x1 < w,
            0 <= y1 < h,
    ;
    if x1 + y1 * w == x2 + y2 * w {
        assert(y1 == y2 && x1 == x2) by (nonlinear_arith)
            requires
                0 <= x1 < w,
                0 <= x2 < w,
                0 <= y1,
                0 <= y2,
                x1 + y1 * w == x2 + y2 * w,
        ;
    }
}

/// From an index to the pixel where its tile begins, from there to the cell
/// that holds the pixel, and from the cell to its index: the index comes
/// back unchanged, for every tile of an atlas with `columns` by `rows` whole
/// tiles.
pub proof fn lemma_index_round_trip(id: int, atlas_w: int, atlas_h: int, cell_w: int, cell_h: int)
    requires
        cell_w >= 1,
        cell_h >= 1,
        atlas_w >= 0,
        atlas_h >= 0,
        0 <= id < cells_along(atlas_w, cell_w) * cells_along(atlas_h, cell_h),
    ensures
        ({
            let columns = cells_along(atlas_w, cell_w);
            let rows = cells_along(atlas_h, cell_h);
            let origin = cell_origin(id, columns, cell_w, cell_h);
            linear_index(cell_of(origin.0, cell_w), cell_of(origin.1, cell_h), columns, rows)
                == Some(id)
        }),
{
    let columns = cells_along(atlas_w, cell_w);
    let rows = cells_along(atlas_h, cell_h);
    assert(columns >= 0 && rows >= 0) by (nonlinear_arith)
        requires
            columns == atlas_w / cell_w,
            rows == atlas_h / cell_h,
            atlas_w >= 0,
            atlas_h >= 0,
            cell_w >= 1,
            cell_h >= 1,
    ;
    assert(columns >= 1 && rows >= 1) by (nonlinear_arith)
        requires
            columns >= 0,
            rows >= 0,
            0 <= id < columns * rows,
    ;
    let column = id % columns;
    let row = id / columns;
    lemma_fundamental_div_mod(id, columns);
    assert(0 <= row < rows) by (nonlinear_arith)
        requires
            id == columns * row + column,
            0 <= column < columns,
            0 <= id < columns * rows,
    ;
    lemma_div_multiples_vanish(column, cell_w);
    lemma_div_multiples_vanish(row, cell_h);
    lemma_mul_is_commutative(column, cell_w);
    lemma_mul_is_commutative(row, cell_h);
    assert(cell_of(column * cell_w, cell_w) == column);
    assert(cell_of(row * cell_h, cell_h) == row);
    assert(column + row * columns == id) by (nonlinear_arith)
        requires
            id == columns * row + column,
    ;
}

} // verus!
