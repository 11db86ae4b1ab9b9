//! What can go wrong while a tilemap is edited or tile data is registered.

use bevy::ecs::entity::Entity;
use bevy::ecs::query::QueryEntityError;
use bevy_ecs_tilemap::map::TilemapTexture;
use bevy_ecs_tilemap::tiles::TilePos;
use vstd::prelude::*;

verus! {

/// An error of the editor. None of them is fatal: the editor falls back to
/// choosing a tilemap, and a failed registration leaves the registry as it
/// was.
#[derive(Debug)]
pub enum EditorError {
    /// The tilemap is not made of square tiles.
    UnsupportedTilemapType,
    /// The tilemap draws from a kind of tileset that has no single image.
    UnsupportedTilemapTextureType(&'static str),
    /// The image behind the tileset is not among the loaded assets.
    InvalidImageHandle { texture: TilemapTexture },
    /// The tilemap entity is gone or lacks a component of a tilemap.
    BadTilemapEntity { tilemap_entity: Entity, query_error: QueryEntityError },
    /// The tilemap names a tile that is gone or lacks a component of a tile.
    BadTileEntity {
        tilemap_entity: Entity,
        tile_pos: TilePos,
        tile_entity: Entity,
        query_error: QueryEntityError,
    },
    /// The type is known to the type registry but cannot be used as a
    /// component through reflection.
    TypeNotReflectComponent { ty_name: String },
    /// The type is unknown to the type registry.
    TypeNotRegistered { ty_name: String },
}

} // verus!
