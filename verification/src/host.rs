//! The engine as the verifier sees it.
//!
//! Types whose fields are plain integers or booleans are declared with their
//! fields, so verified code reads and writes them directly. Everything else is
//! opaque: a value of such a type can be carried around and handed back to the
//! engine, nothing more.
//!
//! What the editor reads of a [`World`] is given a name, [`entities`], and
//! each function below that touches the world says what it does to that
//! name. None of these functions is verified: their contracts restate what
//! the engine's source shows, and every proof about the world elsewhere in
//! the library rests on them.

use bevy::ecs::entity::Entity;
use bevy::ecs::query::QueryEntityError;
use bevy::ecs::world::EntityRef;
use bevy::ecs::world::World;
use bevy::math::UVec2;
use bevy::transform::components::GlobalTransform;
use bevy_ecs_tilemap::map::TilemapGridSize;
use bevy_ecs_tilemap::map::TilemapId;
use bevy_ecs_tilemap::map::TilemapSize;
use bevy_ecs_tilemap::map::TilemapTexture;
use bevy_ecs_tilemap::map::TilemapTileSize;
use bevy_ecs_tilemap::map::TilemapType;
use bevy_ecs_tilemap::tiles::TileBundle;
use bevy_ecs_tilemap::tiles::TileColor;
use bevy_ecs_tilemap::tiles::TileFlip;
use bevy_ecs_tilemap::tiles::TilePos;
use bevy_ecs_tilemap::tiles::TileStorage;
use bevy_ecs_tilemap::tiles::TileTextureIndex;
use vstd::prelude::*;

verus! {

#[verifier::external_type_specification]
pub struct ExTileFlip(TileFlip);

#[verifier::external_type_specification]
pub struct ExTilePos(TilePos);

#[verifier::external_type_specification]
pub struct ExTileTextureIndex(TileTextureIndex);

#[verifier::external_type_specification]
pub struct ExTilemapSize(TilemapSize);

#[verifier::external_type_specification]
pub struct ExUVec2(UVec2);

#[verifier::external_type_specification]
#[verifier::external_body]
pub struct ExTileColor(TileColor);

#[verifier::external_type_specification]
#[verifier::external_body]
pub struct ExTilemapTexture(TilemapTexture);

#[verifier::external_type_specification]
#[verifier::external_body]
pub struct ExEntity(Entity);

#[verifier::external_type_specification]
pub struct ExQueryEntityError(QueryEntityError);

#[verifier::external_type_specification]
#[verifier::external_body]
pub struct ExWorld(World);

#[verifier::external_type_specification]
#[verifier::external_body]
pub struct ExEntityRef<'w>(EntityRef<'w>);

/// The values that a brush carries and a tile shows: tint, orientation and
/// the index of its picture in the tileset.
#[derive(Clone, Copy, Debug)]
pub struct TileProperties {
    pub color: TileColor,
    pub flip: TileFlip,
    pub texture: TileTextureIndex,
}

impl Default for TileProperties {
    /// The brush that an editing session starts with: the default tint, no
    /// flip and the first texture.
    fn default() -> (properties: Self)
        ensures
            properties.flip == (TileFlip { x: false, y: false, d: false }),
            properties.texture.0 == 0,
    {
        TileProperties {
            color: default_tile_color(),
            flip: TileFlip { x: false, y: false, d: false },
            texture: TileTextureIndex(0),
        }
    }
}

/// What the editor reads of a tilemap entity.
pub struct TilemapView {
    /// The tileset that the tilemap draws from.
    pub texture: TilemapTexture,
    /// The extent that the tile storage declares.
    pub extent: TilemapSize,
    /// The slots of the tile storage, row by row.
    pub slots: Seq<Option<Entity>>,
}

/// What the editor reads of one entity.
pub struct EntityView {
    /// The tile properties, for an entity that carries a tint, an orientation
    /// and a texture index.
    pub tile: Option<TileProperties>,
    /// The tilemap, for an entity that carries a texture, a grid size, a tile
    /// size, a map size, a global transform, a tile storage and a map type.
    pub tilemap: Option<TilemapView>,
    /// The position in the grid, for an entity that carries one.
    pub position: Option<TilePos>,
    /// The tilemap that the entity names as its own, for an entity that
    /// carries such a reference.
    pub tilemap_id: Option<Entity>,
}

/// What the editor reads of a world: its live entities, and of each its tile
/// properties, its tilemap, its position and the tilemap it names, where it
/// has them.
pub uninterp spec fn entities(world: World) -> Map<Entity, EntityView>;

/// Which kind of tileset a texture is.
#[derive(Clone, Copy, Debug, PartialEq, Eq, Structural)]
pub enum TextureKind {
    /// One image that holds every tile.
    Single,
    /// One image per tile.
    Vector,
    /// One container image with a layer per tile.
    TextureContainer,
}

/// The kind of a tileset texture.
pub uninterp spec fn texture_kind(texture: TilemapTexture) -> TextureKind;

/// An entity that carries none of what the editor reads.
pub open spec fn bare() -> EntityView {
    EntityView { tile: None, tilemap: None, position: None, tilemap_id: None }
}

/// Shared access to `entity` in `world`.
pub uninterp spec fn entity_ref(world: World, entity: Entity) -> EntityRef<'static>;

/// `after` holds every entity of `before` as it was, and whatever else it
/// holds is bare. The engine brings entities that were reserved earlier to
/// life, without components, before it spawns or despawns one.
pub open spec fn extends(before: Map<Entity, EntityView>, after: Map<Entity, EntityView>) -> bool {
    &&& forall|e: Entity| #[trigger]
        before.contains_key(e) ==> after.contains_key(e) && after[e] == before[e]
    &&& forall|e: Entity| #[trigger]
        after.contains_key(e) && !before.contains_key(e) ==> after[e] == bare()
}

/// The tile properties of `entity`, if it is alive and has them.
pub open spec fn tile_of(world: World, entity: Entity) -> Option<TileProperties> {
    if entities(world).contains_key(entity) {
        entities(world)[entity].tile
    } else {
        None
    }
}

/// The tilemap of `entity`, if it is alive and is one.
pub open spec fn tilemap_of(world: World, entity: Entity) -> Option<TilemapView> {
    if entities(world).contains_key(entity) {
        entities(world)[entity].tilemap
    } else {
        None
    }
}

/// The error with which the engine answers a query for an entity that the
/// query does not match.
pub open spec fn query_failure(world: World, entity: Entity) -> QueryEntityError {
    if entities(world).contains_key(entity) {
        QueryEntityError::QueryDoesNotMatch(entity)
    } else {
        QueryEntityError::NoSuchEntity(entity)
    }
}

/// `TilemapTexture::eq`: two textures are the same tileset when they
/// compare equal.
#[verifier::external_body]
pub(crate) fn same_texture(a: &TilemapTexture, b: &TilemapTexture) -> (same: bool)
    ensures
        same == (*a == *b),
{
    a == b
}

/// `TilemapTexture::clone_weak`: a texture that names the same image or
/// images without keeping them loaded. It compares equal to the one it was
/// made from.
#[verifier::external_body]
pub(crate) fn weak_texture(texture: &TilemapTexture) -> (copy: TilemapTexture)
    ensures
        copy == *texture,
{
    texture.clone_weak()
}

/// Tells the variants of `TilemapTexture` apart.
#[verifier::external_body]
pub(crate) fn kind_of_texture(texture: &TilemapTexture) -> (kind: TextureKind)
    ensures
        kind == texture_kind(*texture),
{
    match texture {
        TilemapTexture::Single(_) => TextureKind::Single,
        TilemapTexture::Vector(_) => TextureKind::Vector,
        TilemapTexture::TextureContainer(_) => TextureKind::TextureContainer,
    }
}

/// `TileColor::default`, which is white. Nothing is claimed of the value.
#[verifier::external_body]
pub(crate) fn default_tile_color() -> TileColor {
    TileColor::default()
}

/// `World::query` for the components of a tilemap, then `QueryState::get`:
/// a copy of the tilemap's texture and the extent that its storage
/// declares, or the query's error for an entity that is no tilemap. The
/// entities stay as they are.
#[verifier::external_body]
pub(crate) fn read_tilemap(world: &mut World, tilemap: Entity) -> (found: Result<
    (TilemapTexture, TilemapSize),
    QueryEntityError,
>)
    ensures
        entities(*final(world)) == entities(*old(world)),
        found == match tilemap_of(*old(world), tilemap) {
            Some(map) => Ok::<(TilemapTexture, TilemapSize), QueryEntityError>(
                (map.texture, map.extent),
            ),
            None => Err(query_failure(*old(world), tilemap)),
        },
{
    let mut query = world.query::<(
        &TilemapTexture,
        &TilemapGridSize,
        &TilemapTileSize,
        &TilemapSize,
        &GlobalTransform,
        &TileStorage,
        &TilemapType,
    )>();
    query.get(world, tilemap).map(|found| (found.0.clone(), found.5.size))
}

/// `World::get` for the tile storage, then the `index`-th item of
/// `TileStorage::iter`: the slot at `index`, or `None` past the last slot.
#[verifier::external_body]
pub(crate) fn tilemap_slot(world: &World, tilemap: Entity, index: usize) -> (slot: Option<
    Option<Entity>,
>)
    requires
        tilemap_of(*world, tilemap) is Some,
    ensures
        slot == if index < tilemap_of(*world, tilemap)->0.slots.len() {
            Some(tilemap_of(*world, tilemap)->0.slots[index as int])
        } else {
            None
        },
{
    world.get::<TileStorage>(tilemap).and_then(|storage| storage.iter().nth(index).copied())
}

/// `World::get_mut` for the tile storage, then an assignment to the
/// `index`-th item of `TileStorage::iter_mut`: the slot at `index` holds
/// `tile` afterwards, and nothing else has changed.
#[verifier::external_body]
pub(crate) fn set_tilemap_slot(world: &mut World, tilemap: Entity, index: usize, tile: Option<Entity>)
    requires
        tilemap_of(*old(world), tilemap) is Some,
        index < tilemap_of(*old(world), tilemap)->0.slots.len(),
    ensures
        entities(*final(world)) == entities(*old(world)).insert(
            tilemap,
            EntityView {
                tilemap: Some(
                    TilemapView {
                        slots: tilemap_of(*old(world), tilemap)->0.slots.update(index as int, tile),
                        ..tilemap_of(*old(world), tilemap)->0
                    },
                ),
                ..entities(*old(world))[tilemap]
            },
        ),
{
    if let Some(mut storage) = world.get_mut::<TileStorage>(tilemap) {
        if let Some(slot) = storage.iter_mut().nth(index) {
            *slot = tile;
        }
    }
}

/// `World::spawn` with a default `TileBundle` that names its tilemap and its
/// position: a new entity with that position and that tilemap, with tile
/// properties, of which the texture index is 0, and no tilemap of its own.
/// Every entity that was alive stays as it is.
#[verifier::external_body]
pub(crate) fn spawn_tile(world: &mut World, tilemap: Entity, position: TilePos) -> (tile: Entity)
    ensures
        !entities(*old(world)).contains_key(tile),
        entities(*final(world)).contains_key(tile),
        entities(*final(world))[tile].tile is Some,
        entities(*final(world))[tile].tile->0.texture.0 == 0,
        entities(*final(world))[tile].tilemap is None,
        entities(*final(world))[tile].position == Some(position),
        entities(*final(world))[tile].tilemap_id == Some(tilemap),
        extends(entities(*old(world)), entities(*final(world)).remove(tile)),
{
    world.spawn(TileBundle { tilemap_id: TilemapId(tilemap), position, ..Default::default() }).id()
}

/// `World::despawn`: the entity is gone afterwards, with all it carried, and
/// the answer says whether it was there. Every other entity that was alive
/// stays as it is.
#[verifier::external_body]
pub(crate) fn despawn_entity(world: &mut World, entity: Entity) -> (was_alive: bool)
    ensures
        was_alive == entities(*old(world)).contains_key(entity),
        !entities(*final(world)).contains_key(entity),
        extends(entities(*old(world)).remove(entity), entities(*final(world))),
{
    world.despawn(entity)
}

/// `World::query` for tint, orientation and texture index, then
/// `QueryState::get`: the three values, or the query's error for an entity
/// that lacks one of them. The entities stay as they are.
#[verifier::external_body]
pub(crate) fn read_tile_properties(world: &mut World, tile: Entity) -> (properties: Result<
    TileProperties,
    QueryEntityError,
>)
    ensures
        entities(*final(world)) == entities(*old(world)),
        properties == match tile_of(*old(world), tile) {
            Some(found) => Ok::<TileProperties, QueryEntityError>(found),
            None => Err(query_failure(*old(world), tile)),
        },
{
    let mut query = world.query::<(&TileColor, &TileFlip, &TileTextureIndex)>();
    query.get(world, tile).map(
        |found| TileProperties { color: *found.0, flip: *found.1, texture: *found.2 },
    )
}

/// `World::query` for tint, orientation and texture index, then
/// `QueryState::get_mut` and an assignment to each: the tile shows
/// `properties` afterwards, and nothing else has changed.
#[verifier::external_body]
pub(crate) fn write_tile_properties(world: &mut World, tile: Entity, properties: TileProperties)
    requires
        tile_of(*old(world), tile) is Some,
    ensures
        entities(*final(world)) == entities(*old(world)).insert(
            tile,
            EntityView { tile: Some(properties), ..entities(*old(world))[tile] },
        ),
{
    let mut query = world.query::<(&mut TileColor, &mut TileFlip, &mut TileTextureIndex)>();
    if let Ok(mut found) = query.get_mut(world, tile) {
        *found.0 = properties.color;
        *found.1 = properties.flip;
        *found.2 = properties.texture;
    }
}

/// `World::entity`: shared access to a live entity.
#[verifier::external_body]
pub(crate) fn world_entity<'w>(world: &'w World, entity: Entity) -> (access: EntityRef<'w>)
    requires
        entities(*world).contains_key(entity),
    ensures
        access == entity_ref(*world, entity),
{
    world.entity(entity)
}

} // verus!
