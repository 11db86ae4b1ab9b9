//! The tile palette: the tileset laid out as a grid from which the brush's
//! texture is chosen.

use crate::coord_utils::cell_of;
use crate::coord_utils::cell_origin;
use crate::coord_utils::cells_along;
use crate::coord_utils::gridify_int;
use crate::coord_utils::int_tile_pos_to_id;
use crate::coord_utils::linear_index;
use crate::coord_utils::tile_id_to_pos;
use crate::coord_utils::IntPos;
use bevy::math::UVec2;
use vstd::prelude::*;

verus! {

/// The palette of one tileset: the size of its image, the size of one tile
/// and the texture index that is selected.
pub struct TilePalette<'a> {
    pub selected_tile: &'a mut u32,
    pub palette_size: UVec2,
    pub tile_size: UVec2,
}

/// Whether a palette can be laid out: tiles have a width and a height, at
/// least one fits across the image, and a tile is no higher than an `i32`
/// can count.
pub open spec fn can_lay_out(palette_size: UVec2, tile_size: UVec2) -> bool {
    &&& 1 <= tile_size.x <= palette_size.x
    &&& 1 <= tile_size.y <= i32::MAX
}

/// Whether a palette can be laid out.
pub fn lays_out(palette_size: UVec2, tile_size: UVec2) -> (possible: bool)
    ensures
        possible == can_lay_out(palette_size, tile_size),
{
    tile_size.x >= 1 && tile_size.x <= palette_size.x && tile_size.y >= 1 && tile_size.y
        <= 0x7fff_ffff
}

/// The pixel at which tile `id` begins in the palette.
pub open spec fn origin_in_palette(id: u32, palette_size: UVec2, tile_size: UVec2) -> (int, int) {
    cell_origin(
        id as int,
        cells_along(palette_size.x as int, tile_size.x as int),
        tile_size.x as int,
        tile_size.y as int,
    )
}

/// Whether tile `id` begins inside the palette's image.
pub open spec fn begins_inside(id: u32, palette_size: UVec2, tile_size: UVec2) -> bool {
    origin_in_palette(id, palette_size, tile_size).0 < palette_size.x && origin_in_palette(
        id,
        palette_size,
        tile_size,
    ).1 < palette_size.y
}

/// The texture index of the tile under `pointer`, a point in the palette's
/// own pixels: none for a point outside the whole tiles of the image, and
/// none for a tile whose index is more than a texture index can hold.
pub open spec fn tile_under(pointer: IntPos, palette_size: UVec2, tile_size: UVec2) -> Option<int> {
    match linear_index(
        cell_of(pointer.x as int, tile_size.x as int),
        cell_of(pointer.y as int, tile_size.y as int),
        cells_along(palette_size.x as int, tile_size.x as int),
        cells_along(palette_size.y as int, tile_size.y as int),
    ) {
        Some(index) => if index <= u32::MAX {
            Some(index)
        } else {
            None
        },
        None => None,
    }
}

impl<'a> TilePalette<'a> {
    /// The texture index that is selected.
    pub open spec fn selected(&self) -> u32 {
        *self.selected_tile
    }

    /// A palette for an image of `palette_size` pixels cut into tiles of
    /// `tile_size` pixels, or nothing for sizes that cannot be laid out.
    pub fn new(selected_tile: &'a mut u32, palette_size: UVec2, tile_size: UVec2) -> (palette: Option<
        Self,
    >)
        ensures
            palette is Some == can_lay_out(palette_size, tile_size),
            palette matches Some(made) ==> {
                &&& made.palette_size == palette_size
                &&& made.tile_size == tile_size
                &&& *made.selected_tile == *old(selected_tile)
                &&& *final(made.selected_tile) == *final(selected_tile)
            },
            palette is None ==> *final(selected_tile) == *old(selected_tile),
    {
        if lays_out(palette_size, tile_size) {
            Some(Self { selected_tile, palette_size, tile_size })
        } else {
            None
        }
    }

    /// How many whole tiles fit across and down the image.
    pub fn palette_size_in_tiles(&self) -> (size: UVec2)
        requires
            can_lay_out(self.palette_size, self.tile_size),
        ensures
            size.x == cells_along(self.palette_size.x as int, self.tile_size.x as int),
            size.y == cells_along(self.palette_size.y as int, self.tile_size.y as int),
    {
        UVec2 { x: self.palette_size.x / self.tile_size.x, y: self.palette_size.y / self.tile_size.y }
    }

    /// Whether the selected tile begins inside the image.
    pub fn tile_in_bounds(&self) -> (inside: bool)
        requires
            can_lay_out(self.palette_size, self.tile_size),
        ensures
            inside == begins_inside(self.selected(), self.palette_size, self.tile_size),
    {
        proof {
            lemma_origin_fits(*self.selected_tile, self.palette_size, self.tile_size);
        }
        let pos = tile_id_to_pos(*self.selected_tile, self.palette_size, self.tile_size);
        pos.x < self.palette_size.x as i64 && pos.y < self.palette_size.y as i64
    }

    /// One frame of the palette. A selection that begins outside the image
    /// falls back to tile 0; then a click on a tile selects it. The answer
    /// is the tile under the pointer, for the caller to mark.
    pub fn ui(&mut self, pointer: Option<IntPos>, clicked: bool) -> (hovered: Option<u32>)
        requires
            can_lay_out(old(self).palette_size, old(self).tile_size),
        ensures
            final(self).palette_size == old(self).palette_size,
            final(self).tile_size == old(self).tile_size,
            *final(final(self).selected_tile) == *final(old(self).selected_tile),
            match hovered {
                Some(id) => pointer is Some && tile_under(
                    pointer->0,
                    old(self).palette_size,
                    old(self).tile_size,
                ) == Some(id as int),
                None => pointer is None || tile_under(
                    pointer->0,
                    old(self).palette_size,
                    old(self).tile_size,
                ) is None,
            },
            *final(self).selected_tile == if hovered is Some && clicked {
                hovered->0
            } else if begins_inside(
                *old(self).selected_tile,
                old(self).palette_size,
                old(self).tile_size,
            ) {
                *old(self).selected_tile
            } else {
                0
            },
    {
        if !self.tile_in_bounds() {
            *self.selected_tile = 0;
        }
        let hovered = match pointer {
            Some(point) => match gridify_int(point, self.tile_size) {
                Some(cell) => {
                    let size = self.palette_size_in_tiles();
                    assert(cell.y as int * size.x as int <= 0xffff_ffff * 0xffff_ffff)
                        by (nonlinear_arith)
                        requires
                            0 <= cell.y <= 0xffff_ffff,
                            0 <= size.x <= 0xffff_ffff,
                    ;
                    let wide: u64 = cell.x as u64 + cell.y as u64 * size.x as u64;
                    if cell.x < size.x && cell.y < size.y && wide > 0xffff_ffff {
                        None
                    } else {
                        int_tile_pos_to_id(cell, size)
                    }
                },
                None => None,
            },
            None => None,
        };
        if let Some(id) = hovered {
            if clicked {
                *self.selected_tile = id;
            }
        }
        hovered
    }
}

/// In a palette that can be laid out, the pixel at which any tile begins
/// can be counted in an `i64`.
pub proof fn lemma_origin_fits(id: u32, palette_size: UVec2, tile_size: UVec2)
    requires
        can_lay_out(palette_size, tile_size),
    ensures
        0 <= origin_in_palette(id, palette_size, tile_size).1 <= i64::MAX,
{
    let columns = cells_along(palette_size.x as int, tile_size.x as int);
    assert(columns >= 1) by (nonlinear_arith)
        requires
            columns == palette_size.x as int / tile_size.x as int,
            1 <= tile_size.x <= palette_size.x,
    ;
    let row = id as int / columns;
    assert(0 <= row <= id) by (nonlinear_arith)
        requires
            row == id as int / columns,
            columns >= 1,
            id >= 0,
    ;
    assert(0 <= row * tile_size.y as int <= 0xffff_ffff * 0x7fff_ffff) by (nonlinear_arith)
        requires
            0 <= row <= 0xffff_ffff,
            0 <= tile_size.y <= 0x7fff_ffff,
    ;
}

} // verus!
