//! The tools of the editor and what they do to the tile under the pointer.
//!
//! A tool works through a [`ToolContext`]: the world, the tilemap that is
//! being edited, the tile data registered for its tileset and the brush.
//! Drawing is left to the caller; a tool is told where the pointer is and
//! what the primary button does, and answers with what it did.

use crate::coord_utils::linear_index;
use crate::error::EditorError;
use crate::host::despawn_entity;
use crate::host::entities;
use crate::host::extends;
use crate::host::read_tile_properties;
use crate::host::spawn_tile;
use crate::host::world_entity;
use crate::host::entity_ref;
use crate::host::write_tile_properties;
use crate::tile_data::attached;
use crate::tile_data::brought_up_to_date;
use crate::tile_data::detached;
use crate::tile_data::refreshed;
use crate::tile_data::TileData;
use std::collections::HashMap;
use crate::host::query_failure;
use crate::host::set_tilemap_slot;
use crate::host::read_tilemap;
use crate::host::tilemap_of;
use crate::host::tilemap_slot;
use crate::host::EntityView;
use crate::host::TileProperties;
use crate::host::TilemapView;
use bevy::ecs::entity::Entity;
use bevy::ecs::query::QueryEntityError;
use bevy::ecs::world::EntityRef;
use bevy::ecs::world::World;
use bevy_ecs_tilemap::tiles::TileFlip;
use bevy_ecs_tilemap::tiles::TilePos;
use vstd::prelude::*;

verus! {

/// The slot of a tile storage that belongs to `pos`: its row-major index
/// within the declared extent, for a position inside the extent whose slot
/// exists.
pub open spec fn slot_of(map: TilemapView, pos: TilePos) -> Option<int> {
    match linear_index(pos.x as int, pos.y as int, map.extent.x as int, map.extent.y as int) {
        Some(index) => if index < map.slots.len() && index <= usize::MAX {
            Some(index)
        } else {
            None
        },
        None => None,
    }
}

/// The tile that the tilemap holds at `pos`.
pub open spec fn tile_at(map: TilemapView, pos: TilePos) -> Option<Entity> {
    match slot_of(map, pos) {
        Some(index) => map.slots[index],
        None => None,
    }
}

/// The tilemap with `tile` at `pos`.
pub open spec fn with_tile(map: TilemapView, pos: TilePos, tile: Option<Entity>) -> TilemapView {
    match slot_of(map, pos) {
        Some(index) => TilemapView { slots: map.slots.update(index, tile), ..map },
        None => map,
    }
}

/// The index of the slot that belongs to `pos`, if the storage has one.
fn slot_index(world: &mut World, tilemap: Entity, pos: TilePos) -> (index: Result<
    Option<usize>,
    QueryEntityError,
>)
    ensures
        entities(*final(world)) == entities(*old(world)),
        index == match tilemap_of(*old(world), tilemap) {
            Some(map) => Ok::<Option<usize>, QueryEntityError>(
                match slot_of(map, pos) {
                    Some(slot) => Some(slot as usize),
                    None => None,
                },
            ),
            None => Err(query_failure(*old(world), tilemap)),
        },
{
    let extent = match read_tilemap(world, tilemap) {
        Ok(found) => found.1,
        Err(error) => {
            return Err(error);
        },
    };
    if pos.x >= extent.x || pos.y >= extent.y {
        return Ok(None);
    }
    assert(pos.y as int * extent.x as int <= 0xffff_ffff * 0xffff_ffff) by (nonlinear_arith)
        requires
            0 <= pos.y <= 0xffff_ffff,
            0 <= extent.x <= 0xffff_ffff,
    ;
    let wide: u64 = pos.y as u64 * extent.x as u64 + pos.x as u64;
    if wide > usize::MAX as u64 {
        return Ok(None);
    }
    let index = wide as usize;
    match tilemap_slot(world, tilemap, index) {
        Some(_) => Ok(Some(index)),
        None => Ok(None),
    }
}

/// The tile that the tilemap holds at `pos`.
fn find_tile(world: &mut World, tilemap: Entity, pos: TilePos) -> (tile: Result<
    Option<Entity>,
    QueryEntityError,
>)
    ensures
        entities(*final(world)) == entities(*old(world)),
        tile == match tilemap_of(*old(world), tilemap) {
            Some(map) => Ok::<Option<Entity>, QueryEntityError>(tile_at(map, pos)),
            None => Err(query_failure(*old(world), tilemap)),
        },
{
    match slot_index(world, tilemap, pos) {
        Ok(Some(index)) => match tilemap_slot(world, tilemap, index) {
            Some(slot) => Ok(slot),
            None => Ok(None),
        },
        Ok(None) => Ok(None),
        Err(error) => Err(error),
    }
}

/// Puts `tile` into the slot that belongs to `pos`. A position without a
/// slot is left alone.
fn place_tile(world: &mut World, tilemap: Entity, pos: TilePos, tile: Option<Entity>)
    requires
        tilemap_of(*old(world), tilemap) is Some,
    ensures
        entities(*final(world)) == entities(*old(world)).insert(
            tilemap,
            EntityView {
                tilemap: Some(with_tile(tilemap_of(*old(world), tilemap)->0, pos, tile)),
                ..entities(*old(world))[tilemap]
            },
        ),
{
    let ghost before = entities(*world);
    match slot_index(world, tilemap, pos) {
        Ok(Some(index)) => {
            set_tilemap_slot(world, tilemap, index, tile);
        },
        _ => {
            assert(before.insert(tilemap, before[tilemap]) =~= before);
        },
    }
}

/// Every entity of `before` other than `first` and `second` is in `after`
/// as it was, and whatever else `after` holds, other than those two, is
/// bare.
pub open spec fn others_kept(
    before: Map<Entity, EntityView>,
    after: Map<Entity, EntityView>,
    first: Entity,
    second: Entity,
) -> bool {
    extends(before.remove(first).remove(second), after.remove(first).remove(second))
}

/// What erasing the tile at `pos` leaves of the entities `before`, given
/// that `tilemap` is a tilemap with a tile at `pos`: the tile is gone, the
/// tilemap no longer names it, and the rest is as it was. A tilemap that
/// names itself as its tile is gone with it.
pub open spec fn erased(
    before: Map<Entity, EntityView>,
    after: Map<Entity, EntityView>,
    tilemap: Entity,
    pos: TilePos,
) -> bool {
    let map = before[tilemap].tilemap->0;
    let tile = tile_at(map, pos)->0;
    &&& !after.contains_key(tile)
    &&& others_kept(before, after, tile, tilemap)
    &&& tile != tilemap ==> after.contains_key(tilemap) && after[tilemap] == EntityView {
        tilemap: Some(with_tile(map, pos, None)),
        ..before[tilemap]
    }
}

/// What erasing at `pos` does and answers: for an entity that is no tilemap
/// the error that says so, for a position without a tile nothing, and for a
/// tile its removal. A tilemap that names itself as the tile is removed and
/// then found missing.
pub open spec fn erase_outcome(
    before: Map<Entity, EntityView>,
    after: Map<Entity, EntityView>,
    tilemap: Entity,
    pos: TilePos,
    done: Result<(), EditorError>,
) -> bool {
    if before.contains_key(tilemap) && before[tilemap].tilemap is Some {
        match tile_at(before[tilemap].tilemap->0, pos) {
            None => done is Ok && after == before,
            Some(tile) => erased(before, after, tilemap, pos) && if tile == tilemap {
                done == Err::<(), EditorError>(
                    EditorError::BadTilemapEntity {
                        tilemap_entity: tilemap,
                        query_error: QueryEntityError::NoSuchEntity(tilemap),
                    },
                )
            } else {
                done is Ok
            },
        }
    } else {
        done == Err::<(), EditorError>(
            EditorError::BadTilemapEntity {
                tilemap_entity: tilemap,
                query_error: if before.contains_key(tilemap) {
                    QueryEntityError::QueryDoesNotMatch(tilemap)
                } else {
                    QueryEntityError::NoSuchEntity(tilemap)
                },
            },
        ) && after == before
    }
}

/// Despawns the tile at `pos` and takes it out of the tilemap's storage.
/// Where there is no tile, nothing happens.
fn erase_tile(world: &mut World, tilemap: Entity, pos: TilePos) -> (done: Result<(), EditorError>)
    ensures
        erase_outcome(entities(*old(world)), entities(*final(world)), tilemap, pos, done),
{
    let ghost before = entities(*world);
    let tile = match find_tile(world, tilemap, pos) {
        Ok(Some(tile)) => tile,
        Ok(None) => {
            return Ok(());
        },
        Err(query_error) => {
            return Err(EditorError::BadTilemapEntity { tilemap_entity: tilemap, query_error });
        },
    };
    let _ = despawn_entity(world, tile);
    let ghost middle = entities(*world);
    match find_tile(world, tilemap, pos) {
        Ok(_) => {
            place_tile(world, tilemap, pos, None);
            proof {
                let after = entities(*world);
                assert(after.remove(tile).remove(tilemap) =~= middle.remove(tile).remove(tilemap));
                assert(before.remove(tile).remove(tile).remove(tilemap) =~= before.remove(
                    tile,
                ).remove(tilemap));
                assert(middle.remove(tile) =~= middle);
            }
            Ok(())
        },
        Err(query_error) => {
            proof {
                assert(middle.remove(tile) =~= middle);
                assert(before.remove(tile).remove(tile) =~= before.remove(tile));
                if tile != tilemap {
                    assert(before.remove(tile).contains_key(tilemap));
                }
            }
            Err(EditorError::BadTilemapEntity { tilemap_entity: tilemap, query_error })
        },
    }
}

/// What looking up the tile at `pos` gives: the tile and its properties,
/// nothing where there is no tile, or the reason why the tilemap or the tile
/// cannot be read.
pub open spec fn read_outcome(before: Map<Entity, EntityView>, tilemap: Entity, pos: TilePos) -> Result<
    Option<(Entity, TileProperties)>,
    EditorError,
> {
    if before.contains_key(tilemap) && before[tilemap].tilemap is Some {
        match tile_at(before[tilemap].tilemap->0, pos) {
            None => Ok(None),
            Some(tile) => if before.contains_key(tile) && before[tile].tile is Some {
                Ok(Some((tile, before[tile].tile->0)))
            } else {
                Err(
                    EditorError::BadTileEntity {
                        tilemap_entity: tilemap,
                        tile_pos: pos,
                        tile_entity: tile,
                        query_error: if before.contains_key(tile) {
                            QueryEntityError::QueryDoesNotMatch(tile)
                        } else {
                            QueryEntityError::NoSuchEntity(tile)
                        },
                    },
                )
            },
        }
    } else {
        Err(
            EditorError::BadTilemapEntity {
                tilemap_entity: tilemap,
                query_error: if before.contains_key(tilemap) {
                    QueryEntityError::QueryDoesNotMatch(tilemap)
                } else {
                    QueryEntityError::NoSuchEntity(tilemap)
                },
            },
        )
    }
}

/// The tile at `pos` and the properties that it shows.
fn read_tile(world: &mut World, tilemap: Entity, pos: TilePos) -> (found: Result<
    Option<(Entity, TileProperties)>,
    EditorError,
>)
    ensures
        entities(*final(world)) == entities(*old(world)),
        found == read_outcome(entities(*old(world)), tilemap, pos),
{
    let tile = match find_tile(world, tilemap, pos) {
        Ok(Some(tile)) => tile,
        Ok(None) => {
            return Ok(None);
        },
        Err(query_error) => {
            return Err(EditorError::BadTilemapEntity { tilemap_entity: tilemap, query_error });
        },
    };
    match read_tile_properties(world, tile) {
        Ok(properties) => Ok(Some((tile, properties))),
        Err(query_error) => Err(
            EditorError::BadTileEntity {
                tilemap_entity: tilemap,
                tile_pos: pos,
                tile_entity: tile,
                query_error,
            },
        ),
    }
}

/// The texture index that the tile at `pos` shows before it is painted: that
/// of the tile that is there, or 0 for the tile that painting will create.
pub open spec fn texture_before(before: Map<Entity, EntityView>, tilemap: Entity, pos: TilePos) -> u32 {
    match tile_at(before[tilemap].tilemap->0, pos) {
        Some(tile) => before[tile].tile->0.texture.0,
        None => 0,
    }
}

/// What writing `properties` to the tile at `pos` makes of the entities
/// `before`, given that `tilemap` is a tilemap with a slot for `pos`: the
/// tile `tile` that is there shows the properties, or, where there was none,
/// `tile` is a new tile at `pos` that names the tilemap and shows the
/// properties, and the tilemap names it at `pos`. Everything else is as it
/// was.
pub open spec fn painted(
    before: Map<Entity, EntityView>,
    after: Map<Entity, EntityView>,
    tilemap: Entity,
    pos: TilePos,
    properties: TileProperties,
    tile: Entity,
) -> bool {
    let map = before[tilemap].tilemap->0;
    match tile_at(map, pos) {
        Some(found) => tile == found && after == before.insert(
            tile,
            EntityView { tile: Some(properties), ..before[tile] },
        ),
        None => {
            &&& !before.contains_key(tile)
            &&& after.contains_key(tile)
            &&& after[tile] == EntityView {
                tile: Some(properties),
                tilemap: None,
                position: Some(pos),
                tilemap_id: Some(tilemap),
            }
            &&& after.contains_key(tilemap)
            &&& after[tilemap] == EntityView {
                tilemap: Some(with_tile(map, pos, Some(tile))),
                ..before[tilemap]
            }
            &&& others_kept(before, after, tile, tilemap)
        },
    }
}

/// The world after the tile data has followed a tile from texture index
/// `former` to texture index `new`: first the components registered for the
/// former index are taken off the tile, if the index has changed, then
/// those registered for the new index are put on.
pub open spec fn retargeted(
    tile_data: Option<Map<u32, TileData>>,
    former: u32,
    new: u32,
    world: World,
    tile: Entity,
) -> World {
    match tile_data {
        Some(data) => {
            let cleared = if former != new && data.contains_key(former) {
                detached(data[former].entries(), data[former].entries().len(), world, tile)
            } else {
                world
            };
            if data.contains_key(new) {
                attached(data[new].entries(), data[new].entries().len(), cleared, tile)
            } else {
                cleared
            }
        },
        None => world,
    }
}

/// What painting at `pos` does and answers: for an entity that is no
/// tilemap the error that says so, for a position without a slot nothing,
/// for a tile that cannot be read the error that says so, and else success.
/// On success the properties are written to the tile at `pos`, which is
/// created where there was none, and then the tile data follows the tile
/// from its former texture index to the new one.
pub open spec fn paint_outcome(
    before: World,
    after: World,
    tilemap: Entity,
    tile_data: Option<Map<u32, TileData>>,
    pos: TilePos,
    properties: TileProperties,
    done: Result<(), EditorError>,
) -> bool {
    if entities(before).contains_key(tilemap) && entities(before)[tilemap].tilemap is Some {
        let map = entities(before)[tilemap].tilemap->0;
        if slot_of(map, pos) is None {
            done is Ok && entities(after) == entities(before)
        } else if tile_at(map, pos) matches Some(tile) && !(entities(before).contains_key(tile)
            && entities(before)[tile].tile is Some) {
            done == Err::<(), EditorError>(
                EditorError::BadTileEntity {
                    tilemap_entity: tilemap,
                    tile_pos: pos,
                    tile_entity: tile_at(map, pos)->0,
                    query_error: if entities(before).contains_key(tile_at(map, pos)->0) {
                        QueryEntityError::QueryDoesNotMatch(tile_at(map, pos)->0)
                    } else {
                        QueryEntityError::NoSuchEntity(tile_at(map, pos)->0)
                    },
                },
            ) && entities(after) == entities(before)
        } else {
            done is Ok && exists|written: World, tile: Entity|
                {
                    &&& #[trigger] painted(
                        entities(before),
                        entities(written),
                        tilemap,
                        pos,
                        properties,
                        tile,
                    )
                    &&& after == retargeted(
                        tile_data,
                        texture_before(entities(before), tilemap, pos),
                        properties.texture.0,
                        written,
                        tile,
                    )
                }
        }
    } else {
        done == Err::<(), EditorError>(
            EditorError::BadTilemapEntity {
                tilemap_entity: tilemap,
                query_error: if entities(before).contains_key(tilemap) {
                    QueryEntityError::QueryDoesNotMatch(tilemap)
                } else {
                    QueryEntityError::NoSuchEntity(tilemap)
                },
            },
        ) && entities(after) == entities(before)
    }
}

/// Puts `properties` on the tile at `pos`, creating the tile where there is
/// none, then takes the components registered for the tile's former texture
/// index off the tile, if the index has changed, and puts those registered
/// for its new texture index on. A position for which the tilemap's storage
/// has no slot is left alone.
fn paint_tile(
    world: &mut World,
    tilemap: Entity,
    tile_data: Option<&HashMap<u32, TileData>>,
    pos: TilePos,
    properties: TileProperties,
) -> (done: Result<(), EditorError>)
    ensures
        paint_outcome(
            *old(world),
            *final(world),
            tilemap,
            match tile_data {
                Some(data) => Some(data@),
                None => None,
            },
            pos,
            properties,
            done,
        ),
{
    broadcast use vstd::std_specs::hash::group_hash_axioms;

    let ghost before = entities(*world);
    match slot_index(world, tilemap, pos) {
        Ok(Some(_)) => {},
        Ok(None) => {
            return Ok(());
        },
        Err(query_error) => {
            return Err(EditorError::BadTilemapEntity { tilemap_entity: tilemap, query_error });
        },
    }
    let existing = match find_tile(world, tilemap, pos) {
        Ok(existing) => existing,
        Err(query_error) => {
            return Err(EditorError::BadTilemapEntity { tilemap_entity: tilemap, query_error });
        },
    };
    let tile = match existing {
        Some(tile) => tile,
        None => {
            let tile = spawn_tile(world, tilemap, pos);
            assert(entities(*world).remove(tile).contains_key(tilemap));
            place_tile(world, tilemap, pos, Some(tile));
            tile
        },
    };
    let ghost placed = entities(*world);
    let former = match read_tile_properties(world, tile) {
        Ok(former) => former,
        Err(query_error) => {
            return Err(
                EditorError::BadTileEntity {
                    tilemap_entity: tilemap,
                    tile_pos: pos,
                    tile_entity: tile,
                    query_error,
                },
            );
        },
    };
    write_tile_properties(world, tile, properties);
    let ghost written = *world;
    proof {
        let after = entities(written);
        if existing is None {
            assert(after.remove(tile).remove(tilemap) =~= placed.remove(tile).remove(tilemap));
            assert(before.remove(tile) =~= before);
            assert(others_kept(before, after, tile, tilemap));
        }
        assert(painted(before, entities(written), tilemap, pos, properties, tile));
    }
    if let Some(data) = tile_data {
        if former.texture.0 != properties.texture.0 {
            if let Some(old_data) = data.get(&former.texture.0) {
                old_data.remove(world, tile);
            }
        }
        if let Some(new_data) = data.get(&properties.texture.0) {
            new_data.insert(world, tile);
        }
    }
    Ok(())
}

/// What picking leaves of the tile data `before`, given that the picked
/// tile shows texture index `texture` and is read through `tile`: each
/// value registered for that index is brought up to date with the tile, and
/// the data of every other index is as it was.
pub open spec fn picked_up(
    before: Map<u32, TileData>,
    after: Map<u32, TileData>,
    texture: u32,
    tile: EntityRef,
) -> bool {
    if before.contains_key(texture) {
        &&& after.dom() == before.dom()
        &&& after[texture].entries().len() == before[texture].entries().len()
        &&& forall|k: int|
            0 <= k < before[texture].entries().len() ==> #[trigger] after[texture].entries()[k]
                == brought_up_to_date(before[texture].entries()[k], tile)
        &&& refreshed(before[texture].entries(), after[texture].entries())
        &&& forall|index: u32|
            index != texture && before.contains_key(index) ==> #[trigger] after[index]
                == before[index]
    } else {
        after == before
    }
}

/// Copies the properties of the tile at `pos` into the brush and brings the
/// values registered for the tile's texture index up to date with the
/// components that the tile carries. Where there is no tile, nothing
/// happens.
fn pick_tile(
    world: &mut World,
    tilemap: Entity,
    tile_data: Option<&mut HashMap<u32, TileData>>,
    brush: &mut TileProperties,
    pos: TilePos,
) -> (done: Result<(), EditorError>)
    ensures
        entities(*final(world)) == entities(*old(world)),
        match read_outcome(entities(*old(world)), tilemap, pos) {
            Ok(Some(found)) => {
                &&& done is Ok
                &&& *final(brush) == found.1
                &&& tile_data matches Some(data) ==> picked_up(
                    data@,
                    final(data)@,
                    found.1.texture.0,
                    entity_ref(*final(world), found.0),
                )
            },
            Ok(None) => {
                &&& done is Ok
                &&& *final(brush) == *old(brush)
                &&& tile_data matches Some(data) ==> final(data)@ == data@
            },
            Err(error) => {
                &&& done == Err::<(), EditorError>(error)
                &&& *final(brush) == *old(brush)
                &&& tile_data matches Some(data) ==> final(data)@ == data@
            },
        },
{
    broadcast use vstd::std_specs::hash::group_hash_axioms;

    let (tile, properties) = match read_tile(world, tilemap, pos) {
        Ok(Some(found)) => found,
        Ok(None) => {
            return Ok(());
        },
        Err(error) => {
            return Err(error);
        },
    };
    *brush = properties;
    if let Some(data) = tile_data {
        let ghost before = data@;
        if data.contains_key(&properties.texture.0) {
            let held = data.entry(properties.texture.0).or_insert(TileData::new());
            held.apply(world_entity(world, tile));
            assert(data@.dom() =~= before.dom());
        }
    }
    Ok(())
}

/// What a tool works with: the world, the tilemap that is being edited, the
/// tile data registered for the tilemap's tileset, if any, and the brush.
pub struct ToolContext<'w, 's> {
    pub world: &'w mut World,
    pub tilemap_entity: Entity,
    pub tile_data: Option<&'s mut HashMap<u32, TileData>>,
    pub brush_state: &'s mut TileProperties,
}

impl<'w, 's> ToolContext<'w, 's> {
    pub fn new(
        world: &'w mut World,
        tilemap_entity: Entity,
        tile_data: Option<&'s mut HashMap<u32, TileData>>,
        brush_state: &'s mut TileProperties,
    ) -> (context: Self)
        ensures
            context.tilemap_entity == tilemap_entity,
            *context.world == *old(world),
            *final(context.world) == *final(world),
            *context.brush_state == *old(brush_state),
            *final(context.brush_state) == *final(brush_state),
            context.tile_data is Some == tile_data is Some,
            tile_data matches Some(data) ==> *(context.tile_data->0) == *data,
            tile_data matches Some(data) ==> *final(context.tile_data->0) == *final(data),
    {
        Self { world, tilemap_entity, tile_data, brush_state }
    }

    /// The tile that the tilemap holds at `pos`.
    pub fn get_tile(&mut self, pos: TilePos) -> (tile: Result<Option<Entity>, EditorError>)
        ensures
            entities(*final(self).world) == entities(*old(self).world),
            tile == match tilemap_of(*old(self).world, old(self).tilemap_entity) {
                Some(map) => Ok::<Option<Entity>, EditorError>(tile_at(map, pos)),
                None => Err(
                    EditorError::BadTilemapEntity {
                        tilemap_entity: old(self).tilemap_entity,
                        query_error: query_failure(*old(self).world, old(self).tilemap_entity),
                    },
                ),
            },
            final(self).tilemap_entity == old(self).tilemap_entity,
            final(self).tile_data == old(self).tile_data,
            final(self).brush_state == old(self).brush_state,
            *final(final(self).world) == *final(old(self).world),
    {
        match find_tile(self.world, self.tilemap_entity, pos) {
            Ok(tile) => Ok(tile),
            Err(query_error) => Err(
                EditorError::BadTilemapEntity { tilemap_entity: self.tilemap_entity, query_error },
            ),
        }
    }

    /// Despawns the tile at `pos` and takes it out of the tilemap's storage.
    /// Where there is no tile, nothing happens.
    pub fn despawn_tile(&mut self, pos: TilePos) -> (done: Result<(), EditorError>)
        ensures
            erase_outcome(
                entities(*old(self).world),
                entities(*final(self).world),
                old(self).tilemap_entity,
                pos,
                done,
            ),
            final(self).tilemap_entity == old(self).tilemap_entity,
            final(self).tile_data == old(self).tile_data,
            final(self).brush_state == old(self).brush_state,
            *final(final(self).world) == *final(old(self).world),
    {
        erase_tile(self.world, self.tilemap_entity, pos)
    }

    /// Puts `props` on the tile at `tile_pos`, creating the tile where there
    /// is none, then takes the components registered for the tile's former
    /// texture index off the tile, if the index has changed, and puts those
    /// registered for its new texture index on.
    pub fn set_tile_properties(&mut self, tile_pos: TilePos, props: TileProperties) -> (done: Result<
        (),
        EditorError,
    >)
        ensures
            paint_outcome(
                *old(self).world,
                *final(self).world,
                old(self).tilemap_entity,
                match old(self).tile_data {
                    Some(data) => Some(data@),
                    None => None,
                },
                tile_pos,
                props,
                done,
            ),
            final(self).tilemap_entity == old(self).tilemap_entity,
            final(self).tile_data == old(self).tile_data,
            final(self).brush_state == old(self).brush_state,
            *final(final(self).world) == *final(old(self).world),
    {
        let tile_data = match &self.tile_data {
            Some(data) => Some(&**data),
            None => None,
        };
        paint_tile(self.world, self.tilemap_entity, tile_data, tile_pos, props)
    }

    /// The tile at `tile_pos` and the properties that it shows.
    pub fn get_tile_properties(&mut self, tile_pos: TilePos) -> (found: Result<
        Option<(Entity, TileProperties)>,
        EditorError,
    >)
        ensures
            entities(*final(self).world) == entities(*old(self).world),
            found == read_outcome(entities(*old(self).world), old(self).tilemap_entity, tile_pos),
            final(self).tilemap_entity == old(self).tilemap_entity,
            final(self).tile_data == old(self).tile_data,
            final(self).brush_state == old(self).brush_state,
            *final(final(self).world) == *final(old(self).world),
    {
        read_tile(self.world, self.tilemap_entity, tile_pos)
    }

    /// Copies the properties of the tile at `tile_pos` into the brush and
    /// brings the values registered for the tile's texture index up to date
    /// with the components that the tile carries. Where there is no tile,
    /// nothing happens.
    pub fn copy_tile_properties(&mut self, tile_pos: TilePos) -> (done: Result<(), EditorError>)
        ensures
            entities(*final(self).world) == entities(*old(self).world),
            match read_outcome(entities(*old(self).world), old(self).tilemap_entity, tile_pos) {
                Ok(Some(found)) => {
                    &&& done is Ok
                    &&& *final(self).brush_state == found.1
                    &&& old(self).tile_data matches Some(data) ==> picked_up(
                        data@,
                        final(self).tile_data->0@,
                        found.1.texture.0,
                        entity_ref(*final(self).world, found.0),
                    )
                },
                Ok(None) => {
                    &&& done is Ok
                    &&& *final(self).brush_state == *old(self).brush_state
                    &&& old(self).tile_data matches Some(data) ==> final(self).tile_data->0@
                        == data@
                },
                Err(error) => {
                    &&& done == Err::<(), EditorError>(error)
                    &&& *final(self).brush_state == *old(self).brush_state
                    &&& old(self).tile_data matches Some(data) ==> final(self).tile_data->0@
                        == data@
                },
            },
            final(self).tilemap_entity == old(self).tilemap_entity,
            final(self).tile_data is Some == old(self).tile_data is Some,
            old(self).tile_data matches Some(data) ==> *final(final(self).tile_data->0) == *final(data),
            *final(final(self).brush_state) == *final(old(self).brush_state),
            *final(final(self).world) == *final(old(self).world),
    {
        let tile_data = match &mut self.tile_data {
            Some(data) => Some(&mut **data),
            None => None,
        };
        pick_tile(self.world, self.tilemap_entity, tile_data, self.brush_state, tile_pos)
    }
}

/// The transformation of a tile's picture that a combination of flags
/// amounts to, in words.
pub open spec fn rotation_text(flip: TileFlip) -> &'static str {
    match (flip.d, flip.x, flip.y) {
        (false, false, false) => "No transform",
        (true, false, false) => "Rotated -90°, then flipped horizontally",
        (false, true, false) => "Flipped horizontally",
        (true, true, false) => "Rotated -90°",
        (false, false, true) => "Flipped vertically",
        (true, false, true) => "Rotated 90°",
        (false, true, true) => "Rotated 180°",
        (true, true, true) => "Rotated 90°, then flipped horizontally",
    }
}

/// The transformation of a tile's picture that a combination of flags
/// amounts to, in words.
pub fn flip_flags_to_rotation(flip: TileFlip) -> (text: &'static str)
    ensures
        text@ == rotation_text(flip)@,
{
    match (flip.d, flip.x, flip.y) {
        (false, false, false) => "No transform",
        (true, false, false) => "Rotated -90°, then flipped horizontally",
        (false, true, false) => "Flipped horizontally",
        (true, true, false) => "Rotated -90°",
        (false, false, true) => "Flipped vertically",
        (true, false, true) => "Rotated 90°",
        (false, true, true) => "Rotated 180°",
        (true, true, true) => "Rotated 90°, then flipped horizontally",
    }
}

/// The factors by which the brush's picture is scaled along each axis when
/// it is drawn, after the quarter turn that the diagonal flag stands for: -1
/// mirrors the axis, 1 leaves it.
pub fn flip_scale(flip: TileFlip) -> (scale: (i8, i8))
    ensures
        scale.0 == if flip.x != flip.d { -1i8 } else { 1i8 },
        scale.1 == if flip.y { -1i8 } else { 1i8 },
{
    let along_x: i8 = if flip.x { -1 } else { 1 };
    let along_y: i8 = if flip.y { -1 } else { 1 };
    if flip.d {
        (-along_x, along_y)
    } else {
        (along_x, along_y)
    }
}

/// What the inspecting tool reports of a tile.
pub struct TileInfo {
    pub entity: Entity,
    pub flip: TileFlip,
    pub transform: &'static str,
}

/// What the primary button of the pointer does in a frame.
#[derive(Clone, Copy, Debug)]
pub struct PointerInput {
    /// The button is held down.
    pub primary_down: bool,
    /// The button was pressed and let go in place: a click.
    pub primary_clicked: bool,
}

/// Paints the brush onto the hovered tile while the primary button is held.
#[derive(Clone, Copy, Debug)]
pub struct TilePainter;

/// Removes the hovered tile while the primary button is held.
#[derive(Clone, Copy, Debug)]
pub struct TileEraser;

/// Copies the hovered tile into the brush when the primary button is
/// clicked.
#[derive(Clone, Copy, Debug)]
pub struct TilePicker;

/// Reports what the hovered tile is.
#[derive(Clone, Copy, Debug)]
pub struct TileWhoIs;

/// The tools of the editor.
#[derive(Clone, Copy, Debug)]
pub enum Tool {
    Painter(TilePainter),
    Eraser(TileEraser),
    Picker(TilePicker),
    WhoIs(TileWhoIs),
}

/// An answer without its report.
pub open spec fn without_report(answer: Result<Option<TileInfo>, EditorError>) -> Result<(), EditorError> {
    match answer {
        Ok(_) => Ok(()),
        Err(error) => Err(error),
    }
}

/// The tile data as the contracts speak of it.
pub open spec fn data_view(tile_data: Option<&mut HashMap<u32, TileData>>) -> Option<Map<u32, TileData>> {
    match tile_data {
        Some(data) => Some(data@),
        None => None,
    }
}

/// What a tool does on the tile at `pos` and answers, by tool: the painter
/// paints and the eraser erases while the button is held, the picker picks
/// on a click, and the inspector reports the tile. A tool that is not at
/// work changes nothing.
pub open spec fn acted(
    tool: Tool,
    before: World,
    after: World,
    tilemap: Entity,
    data_before: Option<Map<u32, TileData>>,
    data_after: Option<Map<u32, TileData>>,
    brush_before: TileProperties,
    brush_after: TileProperties,
    pos: TilePos,
    pointer: PointerInput,
    answer: Result<Option<TileInfo>, EditorError>,
) -> bool {
    match tool {
        Tool::Painter(_) => {
            &&& brush_after == brush_before
            &&& data_after == data_before
            &&& answer is Ok ==> answer->Ok_0 is None
            &&& if pointer.primary_down {
                paint_outcome(
                    before,
                    after,
                    tilemap,
                    data_before,
                    pos,
                    brush_before,
                    without_report(answer),
                )
            } else {
                answer is Ok && entities(after) == entities(before)
            }
        },
        Tool::Eraser(_) => {
            &&& brush_after == brush_before
            &&& data_after == data_before
            &&& answer is Ok ==> answer->Ok_0 is None
            &&& if pointer.primary_down {
                erase_outcome(
                    entities(before),
                    entities(after),
                    tilemap,
                    pos,
                    without_report(answer),
                )
            } else {
                answer is Ok && entities(after) == entities(before)
            }
        },
        Tool::Picker(_) => {
            &&& entities(after) == entities(before)
            &&& answer is Ok ==> answer->Ok_0 is None
            &&& data_after is Some == data_before is Some
            &&& if pointer.primary_clicked {
                match read_outcome(entities(before), tilemap, pos) {
                    Ok(Some(found)) => {
                        &&& answer is Ok
                        &&& brush_after == found.1
                        &&& data_before matches Some(data) ==> picked_up(
                            data,
                            data_after->0,
                            found.1.texture.0,
                            entity_ref(after, found.0),
                        )
                    },
                    Ok(None) => answer is Ok && brush_after == brush_before && data_after
                        == data_before,
                    Err(error) => answer == Err::<Option<TileInfo>, EditorError>(error)
                        && brush_after == brush_before && data_after == data_before,
                }
            } else {
                answer is Ok && brush_after == brush_before && data_after == data_before
            }
        },
        Tool::WhoIs(_) => {
            &&& entities(after) == entities(before)
            &&& brush_after == brush_before
            &&& data_after == data_before
            &&& match read_outcome(entities(before), tilemap, pos) {
                Ok(Some(found)) => answer matches Ok(Some(info)) && info.entity == found.0
                    && info.flip == found.1.flip && info.transform@ == rotation_text(
                    found.1.flip,
                )@,
                Ok(None) => answer matches Ok(None),
                Err(error) => answer == Err::<Option<TileInfo>, EditorError>(error),
            }
        },
    }
}

impl TilePainter {
    pub fn name(&self) -> (name: &'static str)
        ensures
            name@ == "Brush"@,
    {
        "Brush"
    }

    /// Paints the brush onto the hovered tile while the primary button is
    /// held.
    pub fn viewport_ui(&mut self, ctx: &mut ToolContext, hovered_tile: TilePos, pointer: PointerInput) -> (answer:
        Result<Option<TileInfo>, EditorError>)
        ensures
            acted(
                Tool::Painter(*old(self)),
                *old(ctx).world,
                *final(ctx).world,
                old(ctx).tilemap_entity,
                data_view(old(ctx).tile_data),
                data_view(final(ctx).tile_data),
                *old(ctx).brush_state,
                *final(ctx).brush_state,
                hovered_tile,
                pointer,
                answer,
            ),
            final(ctx).tilemap_entity == old(ctx).tilemap_entity,
            final(ctx).tile_data is Some == old(ctx).tile_data is Some,
            old(ctx).tile_data matches Some(data) ==> *final(final(ctx).tile_data->0) == *final(data),
            *final(final(ctx).brush_state) == *final(old(ctx).brush_state),
            *final(final(ctx).world) == *final(old(ctx).world),
    {
        if pointer.primary_down {
            let props = *ctx.brush_state;
            match ctx.set_tile_properties(hovered_tile, props) {
                Ok(()) => Ok(None),
                Err(error) => Err(error),
            }
        } else {
            Ok(None)
        }
    }
}

impl TileEraser {
    pub fn name(&self) -> (name: &'static str)
        ensures
            name@ == "Eraser"@,
    {
        "Eraser"
    }

    /// Removes the hovered tile while the primary button is held.
    pub fn viewport_ui(&mut self, ctx: &mut ToolContext, hovered_tile: TilePos, pointer: PointerInput) -> (answer:
        Result<Option<TileInfo>, EditorError>)
        ensures
            acted(
                Tool::Eraser(*old(self)),
                *old(ctx).world,
                *final(ctx).world,
                old(ctx).tilemap_entity,
                data_view(old(ctx).tile_data),
                data_view(final(ctx).tile_data),
                *old(ctx).brush_state,
                *final(ctx).brush_state,
                hovered_tile,
                pointer,
                answer,
            ),
            final(ctx).tilemap_entity == old(ctx).tilemap_entity,
            final(ctx).tile_data is Some == old(ctx).tile_data is Some,
            old(ctx).tile_data matches Some(data) ==> *final(final(ctx).tile_data->0) == *final(data),
            *final(final(ctx).brush_state) == *final(old(ctx).brush_state),
            *final(final(ctx).world) == *final(old(ctx).world),
    {
        if pointer.primary_down {
            match ctx.despawn_tile(hovered_tile) {
                Ok(()) => Ok(None),
                Err(error) => Err(error),
            }
        } else {
            Ok(None)
        }
    }
}

impl TilePicker {
    pub fn name(&self) -> (name: &'static str)
        ensures
            name@ == "Picker"@,
    {
        "Picker"
    }

    /// Copies the hovered tile into the brush when the primary button is
    /// clicked. Holding the button down does not pick.
    pub fn viewport_ui(&mut self, ctx: &mut ToolContext, hovered_tile: TilePos, pointer: PointerInput) -> (answer:
        Result<Option<TileInfo>, EditorError>)
        ensures
            acted(
                Tool::Picker(*old(self)),
                *old(ctx).world,
                *final(ctx).world,
                old(ctx).tilemap_entity,
                data_view(old(ctx).tile_data),
                data_view(final(ctx).tile_data),
                *old(ctx).brush_state,
                *final(ctx).brush_state,
                hovered_tile,
                pointer,
                answer,
            ),
            final(ctx).tilemap_entity == old(ctx).tilemap_entity,
            final(ctx).tile_data is Some == old(ctx).tile_data is Some,
            old(ctx).tile_data matches Some(data) ==> *final(final(ctx).tile_data->0) == *final(data),
            *final(final(ctx).brush_state) == *final(old(ctx).brush_state),
            *final(final(ctx).world) == *final(old(ctx).world),
    {
        if pointer.primary_clicked {
            match ctx.copy_tile_properties(hovered_tile) {
                Ok(()) => Ok(None),
                Err(error) => Err(error),
            }
        } else {
            Ok(None)
        }
    }
}

impl TileWhoIs {
    pub fn name(&self) -> (name: &'static str)
        ensures
            name@ == "Whois"@,
    {
        "Whois"
    }

    /// Reports the hovered tile: its entity, its flags and what they amount
    /// to.
    pub fn viewport_ui(&mut self, ctx: &mut ToolContext, hovered_tile: TilePos, pointer: PointerInput) -> (answer:
        Result<Option<TileInfo>, EditorError>)
        ensures
            acted(
                Tool::WhoIs(*old(self)),
                *old(ctx).world,
                *final(ctx).world,
                old(ctx).tilemap_entity,
                data_view(old(ctx).tile_data),
                data_view(final(ctx).tile_data),
                *old(ctx).brush_state,
                *final(ctx).brush_state,
                hovered_tile,
                pointer,
                answer,
            ),
            final(ctx).tilemap_entity == old(ctx).tilemap_entity,
            final(ctx).tile_data is Some == old(ctx).tile_data is Some,
            old(ctx).tile_data matches Some(data) ==> *final(final(ctx).tile_data->0) == *final(data),
            *final(final(ctx).brush_state) == *final(old(ctx).brush_state),
            *final(final(ctx).world) == *final(old(ctx).world),
    {
        match ctx.get_tile_properties(hovered_tile) {
            Ok(Some((entity, props))) => Ok(
                Some(
                    TileInfo {
                        entity,
                        flip: props.flip,
                        transform: flip_flags_to_rotation(props.flip),
                    },
                ),
            ),
            Ok(None) => Ok(None),
            Err(error) => Err(error),
        }
    }
}

impl Tool {
    /// The name under which the tool is offered.
    pub fn name(&self) -> (name: &'static str)
        ensures
            name@ == match *self {
                Tool::Painter(_) => "Brush"@,
                Tool::Eraser(_) => "Eraser"@,
                Tool::Picker(_) => "Picker"@,
                Tool::WhoIs(_) => "Whois"@,
            },
    {
        match self {
            Tool::Painter(tool) => tool.name(),
            Tool::Eraser(tool) => tool.name(),
            Tool::Picker(tool) => tool.name(),
            Tool::WhoIs(tool) => tool.name(),
        }
    }

    /// Lets the tool act on the hovered tile.
    pub fn viewport_ui(&mut self, ctx: &mut ToolContext, hovered_tile: TilePos, pointer: PointerInput) -> (answer:
        Result<Option<TileInfo>, EditorError>)
        ensures
            *final(self) == *old(self),
            acted(
                *old(self),
                *old(ctx).world,
                *final(ctx).world,
                old(ctx).tilemap_entity,
                data_view(old(ctx).tile_data),
                data_view(final(ctx).tile_data),
                *old(ctx).brush_state,
                *final(ctx).brush_state,
                hovered_tile,
                pointer,
                answer,
            ),
            final(ctx).tilemap_entity == old(ctx).tilemap_entity,
            final(ctx).tile_data is Some == old(ctx).tile_data is Some,
            old(ctx).tile_data matches Some(data) ==> *final(final(ctx).tile_data->0) == *final(data),
            *final(final(ctx).brush_state) == *final(old(ctx).brush_state),
            *final(final(ctx).world) == *final(old(ctx).world),
    {
        match self {
            Tool::Painter(tool) => tool.viewport_ui(ctx, hovered_tile, pointer),
            Tool::Eraser(tool) => tool.viewport_ui(ctx, hovered_tile, pointer),
            Tool::Picker(tool) => tool.viewport_ui(ctx, hovered_tile, pointer),
            Tool::WhoIs(tool) => tool.viewport_ui(ctx, hovered_tile, pointer),
        }
    }
}

} // verus!
