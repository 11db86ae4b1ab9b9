//! The extra data that a designer attaches to tiles: for each tileset and
//! each texture index, at most one reflected value of each type.
//!
//! A value is attached together with the component descriptor that the
//! type registry holds for its type. Whoever attaches a value answers for
//! that descriptor: it must be one that takes values of the type, as the
//! one that the engine's derive makes. The registry cannot tell, so this is
//! a precondition of [`TileDataAccess::insert`], and tile data keeps it as
//! part of its invariant.

use crate::error::EditorError;
use crate::host::same_texture;
use crate::reflection::ReflectedValue;
use crate::reflection::accepts;
use crate::reflection::world_after_insert;
use crate::reflection::world_after_remove;
use crate::reflection::applied;
use crate::reflection::live_type;
use crate::reflection::reflected;
use crate::reflection::component_descriptor;
use crate::reflection::descriptor_insert;
use crate::reflection::descriptor_reflect;
use crate::reflection::descriptor_remove;
use crate::reflection::is_registered;
use crate::reflection::registry_contains;
use crate::reflection::registry_descriptor;
use crate::reflection::same_type;
use crate::reflection::type_of_live;
use crate::reflection::type_of_value;
use crate::reflection::value_apply;
use crate::reflection::value_type;
use bevy::ecs::reflect::ReflectComponent;
use bevy::ecs::entity::Entity;
use bevy::ecs::world::World;
use bevy::ecs::world::EntityRef;
use bevy::reflect::TypeRegistryInternal;
use bevy_ecs_tilemap::map::TilemapTexture;
use bevy_ecs_tilemap::tiles::TileTextureIndex;
use std::any::TypeId;
use std::collections::HashMap;
use vstd::prelude::*;

verus! {

/// A reflected value together with the descriptor that moves values of its
/// type on and off an entity.
pub struct Component {
    pub descriptor: ReflectComponent,
    pub value: ReflectedValue,
}

/// A component filed under the type it was registered for.
pub struct ComponentEntry {
    pub type_id: TypeId,
    pub component: Component,
}

/// The types under which the entries are filed, in order.
pub open spec fn filed_types(entries: Seq<ComponentEntry>) -> Seq<TypeId> {
    entries.map_values(|entry: ComponentEntry| entry.type_id)
}

/// `after` holds the entries of `before` in the same order, under the same
/// types and with the same descriptors, and each value has kept its type.
pub open spec fn refreshed(before: Seq<ComponentEntry>, after: Seq<ComponentEntry>) -> bool {
    &&& after.len() == before.len()
    &&& forall|k: int|
        0 <= k < before.len() ==> {
            &&& (#[trigger] after[k]).type_id == before[k].type_id
            &&& after[k].component.descriptor == before[k].component.descriptor
            &&& value_type(after[k].component.value) == value_type(before[k].component.value)
        }
}

/// The world after the first `count` entries have been handed, in order, to
/// their descriptors for insertion into `entity`. An entry whose value is
/// not of the type under which the entry is filed is passed over.
pub open spec fn attached(entries: Seq<ComponentEntry>, count: nat, world: World, entity: Entity) -> World
    decreases count,
{
    if count == 0 {
        world
    } else {
        let entry = entries[count - 1];
        let earlier = attached(entries, (count - 1) as nat, world, entity);
        if value_type(entry.component.value) == entry.type_id {
            world_after_insert(earlier, entity, entry.component.descriptor, entry.component.value)
        } else {
            earlier
        }
    }
}

/// The world after the descriptors of the first `count` entries have been
/// asked, in order, to take their component off `entity`.
pub open spec fn detached(entries: Seq<ComponentEntry>, count: nat, world: World, entity: Entity) -> World
    decreases count,
{
    if count == 0 {
        world
    } else {
        world_after_remove(
            detached(entries, (count - 1) as nat, world, entity),
            entity,
            entries[count - 1].component.descriptor,
        )
    }
}

/// Every descriptor takes values of the type under which its entry is
/// filed.
pub open spec fn descriptors_fit(entries: Seq<ComponentEntry>) -> bool {
    forall|k: int|
        0 <= k < entries.len() ==> accepts(
            (#[trigger] entries[k]).component.descriptor,
            entries[k].type_id,
        )
}

/// The entries with `component` filed under `type_id`: in the place of the
/// entry that was filed there, or at the end where there was none.
pub open spec fn filed(entries: Seq<ComponentEntry>, type_id: TypeId, component: Component) -> Seq<
    ComponentEntry,
> {
    if filed_types(entries).contains(type_id) {
        entries.update(
            filed_types(entries).index_of(type_id),
            ComponentEntry { type_id, component },
        )
    } else {
        entries.push(ComponentEntry { type_id, component })
    }
}

/// The entry with its value brought up to date with the entity: where the
/// entry's descriptor finds a component on the entity, and that component is
/// of the value's own type, the value takes over what the component holds;
/// otherwise the entry stays as it is.
pub open spec fn brought_up_to_date(entry: ComponentEntry, entity: EntityRef) -> ComponentEntry {
    match reflected(entry.component.descriptor, entity) {
        Some(live) => if live_type(live) == value_type(entry.component.value) {
            ComponentEntry {
                component: Component {
                    value: applied(entry.component.value, live),
                    ..entry.component
                },
                ..entry
            }
        } else {
            entry
        },
        None => entry,
    }
}

/// The entries as a map from type to component, for a list that files no
/// type twice.
pub open spec fn as_map(entries: Seq<ComponentEntry>) -> Map<TypeId, Component> {
    Map::new(
        |type_id: TypeId| filed_types(entries).contains(type_id),
        |type_id: TypeId| entries[filed_types(entries).index_of(type_id)].component,
    )
}

/// The data attached to one texture index of one tileset: at most one
/// component of each type.
pub struct TileData {
    components: Vec<ComponentEntry>,
}

impl TileData {
    /// No type is filed twice, and every descriptor takes values of the
    /// type under which it is filed.
    #[verifier::type_invariant]
    spec fn one_per_type(&self) -> bool {
        filed_types(self.components@).no_duplicates() && descriptors_fit(self.components@)
    }

    /// The components in the order in which their types were first
    /// registered.
    pub closed spec fn entries(&self) -> Seq<ComponentEntry> {
        self.components@
    }

    /// The components by type.
    pub open spec fn view(&self) -> Map<TypeId, Component> {
        as_map(self.entries())
    }

    /// Tile data that holds nothing.
    pub fn new() -> (data: TileData)
        ensures
            data.entries() == Seq::<ComponentEntry>::empty(),
            data@ == Map::<TypeId, Component>::empty(),
    {
        let data = TileData { components: Vec::new() };
        assert(filed_types(data.components@) =~= Seq::<TypeId>::empty());
        assert(data@ =~= Map::<TypeId, Component>::empty());
        data
    }

    /// Whether a component of type `type_id` is held.
    pub fn contains(&self, type_id: &TypeId) -> (held: bool)
        ensures
            held == self@.contains_key(*type_id),
    {
        match position(&self.components, type_id) {
            Some(index) => {
                proof {
                    use_type_invariant(self);
                    lemma_filed_once(self.components@, index as int);
                }
                true
            },
            None => false,
        }
    }

    /// The component of type `type_id`, if one is held.
    pub fn get(&self, type_id: &TypeId) -> (component: Option<&Component>)
        ensures
            match component {
                Some(found) => self@.contains_key(*type_id) && *found == self@[*type_id],
                None => !self@.contains_key(*type_id),
            },
    {
        match position(&self.components, type_id) {
            Some(index) => {
                proof {
                    use_type_invariant(self);
                    lemma_filed_once(self.components@, index as int);
                }
                Some(&self.components[index].component)
            },
            None => None,
        }
    }

    /// Files `component` under `type_id`, in place of the component that was
    /// filed there if there was one. The descriptor must be one for that
    /// type.
    pub(crate) fn set(&mut self, type_id: TypeId, component: Component)
        requires
            accepts(component.descriptor, type_id),
        ensures
            final(self).entries() == filed(old(self).entries(), type_id, component),
            final(self)@ == old(self)@.insert(type_id, component),
    {
        proof {
            use_type_invariant(&*self);
        }
        let mut entries: Vec<ComponentEntry> = Vec::new();
        assert(filed_types(entries@) =~= Seq::<TypeId>::empty());
        core::mem::swap(&mut self.components, &mut entries);
        file(&mut entries, type_id, component);
        core::mem::swap(&mut self.components, &mut entries);
    }

    /// Takes out the component of type `type_id`, if one is held.
    pub fn take(&mut self, type_id: &TypeId) -> (taken: Option<Component>)
        ensures
            final(self)@ == old(self)@.remove(*type_id),
            match taken {
                Some(component) => old(self)@.contains_key(*type_id) && component == old(self)@[*type_id],
                None => !old(self)@.contains_key(*type_id),
            },
    {
        proof {
            use_type_invariant(&*self);
        }
        let mut entries: Vec<ComponentEntry> = Vec::new();
        assert(filed_types(entries@) =~= Seq::<TypeId>::empty());
        core::mem::swap(&mut self.components, &mut entries);
        let taken = unfile(&mut entries, type_id);
        core::mem::swap(&mut self.components, &mut entries);
        taken
    }

    /// Hands every component, in the order of `entries`, to its descriptor
    /// for insertion into `entity`. A value that is not of the type under
    /// which it is filed is passed over. The world afterwards is what those
    /// insertions make of it, one after the other; what a single insertion
    /// does is up to its descriptor.
    pub fn insert(&self, world: &mut World, entity: Entity)
        ensures
            *final(world) == attached(self.entries(), self.entries().len(), *old(world), entity),
    {
        proof {
            use_type_invariant(self);
        }
        let mut index: usize = 0;
        while index < self.components.len()
            invariant
                index <= self.components.len(),
                descriptors_fit(self.components@),
                *world == attached(self.components@, index as nat, *old(world), entity),
            decreases self.components.len() - index,
        {
            let entry = &self.components[index];
            let held_type = type_of_value(&entry.component.value);
            if same_type(&held_type, &entry.type_id) {
                descriptor_insert(&entry.component.descriptor, world, entity, &entry.component.value);
            }
            index += 1;
        }
    }

    /// Asks every descriptor, in the order of `entries`, to take its
    /// component off `entity`. The world afterwards is what those removals
    /// make of it, one after the other; what a single removal does is up to
    /// its descriptor.
    pub fn remove(&self, world: &mut World, entity: Entity)
        ensures
            *final(world) == detached(self.entries(), self.entries().len(), *old(world), entity),
    {
        let mut index: usize = 0;
        while index < self.components.len()
            invariant
                index <= self.components.len(),
                *world == detached(self.components@, index as nat, *old(world), entity),
            decreases self.components.len() - index,
        {
            descriptor_remove(&self.components[index].component.descriptor, world, entity);
            index += 1;
        }
    }

    /// Brings the held values up to date with the entity: each value whose
    /// descriptor finds a component of the value's own type on the entity
    /// takes over what that component holds, and every other value stays as
    /// it is. The types that are held, their descriptors and the type of
    /// each value stay as they are.
    pub fn apply(&mut self, src: EntityRef)
        ensures
            final(self).entries().len() == old(self).entries().len(),
            forall|k: int|
                0 <= k < old(self).entries().len() ==> #[trigger] final(self).entries()[k]
                    == brought_up_to_date(old(self).entries()[k], src),
            refreshed(old(self).entries(), final(self).entries()),
            final(self)@.dom() == old(self)@.dom(),
    {
        proof {
            use_type_invariant(&*self);
        }
        let mut entries: Vec<ComponentEntry> = Vec::new();
        assert(filed_types(entries@) =~= Seq::<TypeId>::empty());
        core::mem::swap(&mut self.components, &mut entries);
        let ghost before = entries@;
        let mut index: usize = 0;
        while index < entries.len()
            invariant
                index <= entries.len(),
                refreshed(before, entries@),
                forall|k: int|
                    0 <= k < index ==> #[trigger] entries@[k] == brought_up_to_date(before[k], src),
                forall|k: int| index <= k < entries.len() ==> #[trigger] entries@[k] == before[k],
            decreases entries.len() - index,
        {
            let live = descriptor_reflect(&entries[index].component.descriptor, src);
            if let Some(live) = live {
                let found_type = type_of_live(&live);
                let held_type = type_of_value(&entries[index].component.value);
                if same_type(&found_type, &held_type) {
                    let ghost earlier = entries@;
                    value_apply(&mut entries[index].component.value, &live);
                    assert(refreshed(earlier, entries@));
                }
            }
            index += 1;
        }
        proof {
            assert(filed_types(entries@) =~= filed_types(before));
            assert(as_map(entries@).dom() =~= as_map(before).dom());
            assert(descriptors_fit(entries@)) by {
                assert forall|k: int| 0 <= k < entries@.len() implies accepts(
                    (#[trigger] entries@[k]).component.descriptor,
                    entries@[k].type_id,
                ) by {
                    assert(before[k].type_id == entries@[k].type_id);
                }
            }
        }
        core::mem::swap(&mut self.components, &mut entries);
    }

    /// Exchanges the value at `index`, counted in the order of `entries`,
    /// with `value`: the way to take a value out for editing and to put it
    /// back. Nothing happens for an index past the last entry.
    pub fn swap_value(&mut self, index: usize, value: &mut ReflectedValue)
        ensures
            index < old(self).entries().len() ==> {
                &&& *final(value) == old(self).entries()[index as int].component.value
                &&& final(self).entries() == old(self).entries().update(
                    index as int,
                    ComponentEntry {
                        component: Component {
                            value: *old(value),
                            ..old(self).entries()[index as int].component
                        },
                        ..old(self).entries()[index as int]
                    },
                )
            },
            index >= old(self).entries().len() ==> {
                &&& *final(value) == *old(value)
                &&& final(self).entries() == old(self).entries()
            },
    {
        proof {
            use_type_invariant(&*self);
        }
        let mut entries: Vec<ComponentEntry> = Vec::new();
        assert(filed_types(entries@) =~= Seq::<TypeId>::empty());
        core::mem::swap(&mut self.components, &mut entries);
        let ghost before = entries@;
        if index < entries.len() {
            core::mem::swap(&mut entries[index].component.value, value);
            assert(filed_types(entries@) =~= filed_types(before));
            assert forall|k: int| 0 <= k < entries@.len() implies accepts(
                (#[trigger] entries@[k]).component.descriptor,
                entries@[k].type_id,
            ) by {
                assert(before[k].type_id == entries@[k].type_id);
            }
        }
        core::mem::swap(&mut self.components, &mut entries);
    }

    /// How many components are held.
    pub fn len(&self) -> (count: usize)
        ensures
            count == self.entries().len(),
            count == self@.dom().len(),
            self@.dom().finite(),
    {
        proof {
            use_type_invariant(self);
            lemma_as_map_counts(self.components@);
        }
        self.components.len()
    }
}

/// Where `type_id` is filed, if it is.
fn position(entries: &Vec<ComponentEntry>, type_id: &TypeId) -> (found: Option<usize>)
    ensures
        match found {
            Some(index) => index < entries.len() && entries[index as int].type_id == *type_id,
            None => !filed_types(entries@).contains(*type_id),
        },
{
    let mut index: usize = 0;
    while index < entries.len()
        invariant
            index <= entries.len(),
            forall|k: int| 0 <= k < index ==> entries[k].type_id != *type_id,
        decreases entries.len() - index,
    {
        if same_type(&entries[index].type_id, type_id) {
            return Some(index);
        }
        index += 1;
    }
    None
}

/// Files `component` under `type_id` in a list without repeated types.
fn file(entries: &mut Vec<ComponentEntry>, type_id: TypeId, component: Component)
    requires
        filed_types(old(entries)@).no_duplicates(),
        descriptors_fit(old(entries)@),
        accepts(component.descriptor, type_id),
    ensures
        filed_types(final(entries)@).no_duplicates(),
        descriptors_fit(final(entries)@),
        final(entries)@ == filed(old(entries)@, type_id, component),
        as_map(final(entries)@) == as_map(old(entries)@).insert(type_id, component),
{
    let ghost before = entries@;
    match position(entries, &type_id) {
        Some(index) => {
            entries.set(index, ComponentEntry { type_id, component });
            proof {
                let after = entries@;
                assert(filed_types(after) =~= filed_types(before));
                lemma_filed_once(before, index as int);
                assert forall|t: TypeId| #[trigger] filed_types(after).contains(t) implies as_map(
                    after,
                )[t] == as_map(before).insert(type_id, component)[t] by {
                    let k = filed_types(after).index_of(t);
                    if t != type_id {
                        assert(k != index);
                    }
                }
                assert(as_map(after) =~= as_map(before).insert(type_id, component));
            }
        },
        None => {
            entries.push(ComponentEntry { type_id, component });
            proof {
                let after = entries@;
                assert(filed_types(after) =~= filed_types(before).push(type_id));
                lemma_push_keeps_distinct(filed_types(before), type_id);
                assert forall|t: TypeId| #[trigger] filed_types(after).contains(t) implies as_map(
                    after,
                )[t] == as_map(before).insert(type_id, component)[t] by {
                    let k = filed_types(after).index_of(t);
                    if t == type_id {
                        assert(k == before.len());
                    } else {
                        assert(k < before.len());
                        assert(filed_types(before)[k] == t);
                        lemma_filed_once(before, k);
                    }
                }
                assert forall|t: TypeId|
                    as_map(before).insert(type_id, component).contains_key(
                        t,
                    ) implies #[trigger] filed_types(after).contains(t) by {
                    if t == type_id {
                        assert(filed_types(after)[before.len() as int] == t);
                    } else {
                        let k = filed_types(before).index_of(t);
                        assert(filed_types(after)[k] == t);
                    }
                }
                assert(as_map(after) =~= as_map(before).insert(type_id, component));
            }
        },
    }
}

/// Takes the component of type `type_id` out of a list without repeated
/// types.
fn unfile(entries: &mut Vec<ComponentEntry>, type_id: &TypeId) -> (taken: Option<Component>)
    requires
        filed_types(old(entries)@).no_duplicates(),
        descriptors_fit(old(entries)@),
    ensures
        filed_types(final(entries)@).no_duplicates(),
        descriptors_fit(final(entries)@),
        as_map(final(entries)@) == as_map(old(entries)@).remove(*type_id),
        match taken {
            Some(component) => as_map(old(entries)@).contains_key(*type_id) && component == as_map(
                old(entries)@,
            )[*type_id],
            None => !as_map(old(entries)@).contains_key(*type_id),
        },
{
    let ghost before = entries@;
    match position(entries, type_id) {
        Some(index) => {
            let entry = entries.remove(index);
            proof {
                let after = entries@;
                lemma_filed_once(before, index as int);
                assert(filed_types(after) =~= filed_types(before).remove(index as int));
                lemma_remove_keeps_distinct(filed_types(before), index as int);
                assert forall|t: TypeId| #[trigger] filed_types(after).contains(t) implies as_map(
                    before,
                ).remove(*type_id).contains_key(t) && as_map(after)[t] == as_map(before)[t] by {
                    let k = filed_types(after).index_of(t);
                    let source = if k < index { k } else { k + 1 };
                    assert(filed_types(before)[source] == t);
                    lemma_filed_once(before, source);
                }
                assert forall|t: TypeId|
                    as_map(before).remove(*type_id).contains_key(
                        t,
                    ) implies #[trigger] filed_types(after).contains(t) by {
                    let k = filed_types(before).index_of(t);
                    let target = if k < index { k } else { k - 1 };
                    assert(k != index);
                    assert(filed_types(after)[target] == t);
                }
                assert(as_map(after) =~= as_map(before).remove(*type_id));
            }
            Some(entry.component)
        },
        None => {
            assert(as_map(before).remove(*type_id) =~= as_map(before));
            None
        },
    }
}

/// In a list without repeated types, the entry at `index` is the one that
/// the map shows for its type.
pub proof fn lemma_filed_once(entries: Seq<ComponentEntry>, index: int)
    requires
        filed_types(entries).no_duplicates(),
        0 <= index < entries.len(),
    ensures
        filed_types(entries).contains(entries[index].type_id),
        filed_types(entries).index_of(entries[index].type_id) == index,
        as_map(entries).contains_key(entries[index].type_id),
        as_map(entries)[entries[index].type_id] == entries[index].component,
{
    let types = filed_types(entries);
    assert(types[index] == entries[index].type_id);
    let k = types.index_of(entries[index].type_id);
    assert(types[k] == types[index]);
}

/// A type that is not in a list of distinct types can be added at its end.
proof fn lemma_push_keeps_distinct(types: Seq<TypeId>, added: TypeId)
    requires
        types.no_duplicates(),
        !types.contains(added),
    ensures
        types.push(added).no_duplicates(),
{
    assert forall|i: int, j: int| 0 <= i < j < types.push(added).len() implies types.push(added)[i]
        != types.push(added)[j] by {
        if j == types.len() {
            assert(types[i] == types.push(added)[i]);
        }
    }
}

/// A list of distinct types stays one when a type is taken out.
proof fn lemma_remove_keeps_distinct(types: Seq<TypeId>, index: int)
    requires
        types.no_duplicates(),
        0 <= index < types.len(),
    ensures
        types.remove(index).no_duplicates(),
{
    assert forall|i: int, j: int| 0 <= i < j < types.remove(index).len() implies types.remove(
        index,
    )[i] != types.remove(index)[j] by {
        let a = if i < index { i } else { i + 1 };
        let b = if j < index { j } else { j + 1 };
        assert(types[a] != types[b]);
    }
}

/// The map of a list without repeated types has as many keys as the list has
/// entries.
pub proof fn lemma_as_map_counts(entries: Seq<ComponentEntry>)
    requires
        filed_types(entries).no_duplicates(),
    ensures
        as_map(entries).dom().finite(),
        as_map(entries).dom().len() == entries.len(),
{
    let types = filed_types(entries);
    types.unique_seq_to_set();
    assert(as_map(entries).dom() =~= types.to_set());
}

/// The tile data of one tileset, by texture index.
pub struct TilesetData {
    pub texture: TilemapTexture,
    pub tiles: HashMap<u32, TileData>,
}

/// The textures of the tilesets, in order.
pub open spec fn textures_of(tilesets: Seq<TilesetData>) -> Seq<TilemapTexture> {
    tilesets.map_values(|tileset: TilesetData| tileset.texture)
}

/// Whether `index` is the first place at which `texture` stands.
pub open spec fn is_first(textures: Seq<TilemapTexture>, texture: TilemapTexture, index: int) -> bool {
    &&& 0 <= index < textures.len()
    &&& textures[index] == texture
    &&& forall|k: int| 0 <= k < index ==> textures[k] != texture
}

/// The first place at which `texture` stands.
pub open spec fn first_of(textures: Seq<TilemapTexture>, texture: TilemapTexture) -> int {
    choose|index: int| is_first(textures, texture, index)
}

/// The tilesets as a map from texture to tile data. Where a texture stands
/// more than once, its first tileset counts.
pub open spec fn by_texture(tilesets: Seq<TilesetData>) -> Map<TilemapTexture, Map<u32, TileData>> {
    Map::new(
        |texture: TilemapTexture| textures_of(tilesets).contains(texture),
        |texture: TilemapTexture| tilesets[first_of(textures_of(tilesets), texture)].tiles@,
    )
}

/// The tile data that `registry` holds for `texture`: nothing for a texture
/// that it does not know.
pub open spec fn tiles_of(
    registry: Map<TilemapTexture, Map<u32, TileData>>,
    texture: TilemapTexture,
) -> Map<u32, TileData> {
    if registry.contains_key(texture) {
        registry[texture]
    } else {
        Map::empty()
    }
}

/// A texture that stands in the list has a first place there.
pub proof fn lemma_first_exists(textures: Seq<TilemapTexture>, texture: TilemapTexture, at: int)
    requires
        0 <= at < textures.len(),
        textures[at] == texture,
    ensures
        is_first(textures, texture, first_of(textures, texture)),
        first_of(textures, texture) <= at,
    decreases at,
{
    if exists|k: int| 0 <= k < at && textures[k] == texture {
        let k = choose|k: int| 0 <= k < at && textures[k] == texture;
        lemma_first_exists(textures, texture, k);
    } else {
        assert(is_first(textures, texture, at));
    }
    let first = first_of(textures, texture);
    if first > at {
        assert(textures[at] != texture);
    }
}

/// Where the first tileset with `texture` stands, if there is one.
fn tileset_position(tilesets: &Vec<TilesetData>, texture: &TilemapTexture) -> (found: Option<usize>)
    ensures
        match found {
            Some(index) => is_first(textures_of(tilesets@), *texture, index as int) && first_of(
                textures_of(tilesets@),
                *texture,
            ) == index,
            None => !textures_of(tilesets@).contains(*texture),
        },
{
    let mut index: usize = 0;
    while index < tilesets.len()
        invariant
            index <= tilesets.len(),
            forall|k: int| 0 <= k < index ==> textures_of(tilesets@)[k] != *texture,
        decreases tilesets.len() - index,
    {
        if same_texture(&tilesets[index].texture, texture) {
            proof {
                let textures = textures_of(tilesets@);
                assert(is_first(textures, *texture, index as int));
                lemma_first_exists(textures, *texture, index as int);
                let first = first_of(textures, *texture);
                if first < index {
                    assert(textures[first] != *texture);
                }
            }
            return Some(index);
        }
        index += 1;
    }
    None
}

/// Everything that the registry holds: the tilesets for which tile data has
/// been asked for, each of them once.
pub struct EditorTileDataInternal {
    map: Vec<TilesetData>,
}

impl EditorTileDataInternal {
    /// The tilesets in the order in which tile data was first asked for.
    pub closed spec fn tilesets(&self) -> Seq<TilesetData> {
        self.map@
    }

    /// No tileset stands twice in the list. A new registry is so, and every
    /// function of the registry keeps it so.
    pub open spec fn wf(&self) -> bool {
        textures_of(self.tilesets()).no_duplicates()
    }

    /// The tile data by tileset and texture index.
    pub open spec fn view(&self) -> Map<TilemapTexture, Map<u32, TileData>> {
        by_texture(self.tilesets())
    }

    /// For how many tilesets tile data is held.
    pub fn len(&self) -> (count: usize)
        ensures
            count == self.tilesets().len(),
    {
        self.map.len()
    }

    /// The tile data of tile `tile` of the tileset `texture`, made on the
    /// spot, and empty, where there was none.
    pub fn tile_data_mut(&mut self, texture: TilemapTexture, tile: u32) -> (data: &mut TileData)
        ensures
            tiles_of(old(self)@, texture).contains_key(tile) ==> *data == tiles_of(
                old(self)@,
                texture,
            )[tile],
            !tiles_of(old(self)@, texture).contains_key(tile) ==> data.entries()
                == Seq::<ComponentEntry>::empty(),
            final(self)@ == old(self)@.insert(
                texture,
                tiles_of(old(self)@, texture).insert(tile, *final(data)),
            ),
            old(self).wf() ==> final(self).wf(),
    {
        broadcast use vstd::std_specs::hash::group_hash_axioms;

        let ghost before = self.map@;
        let index = match tileset_position(&self.map, &texture) {
            Some(index) => index,
            None => {
                self.map.push(TilesetData { texture, tiles: HashMap::new() });
                proof {
                    let textures = textures_of(self.map@);
                    let last = before.len() as int;
                    assert(self.map@.subrange(0, last) =~= before);
                    assert(textures[last] == texture);
                    assert forall|k: int| 0 <= k < last implies textures[k] != texture by {
                        assert(textures_of(before)[k] == textures[k]);
                    }
                    assert(is_first(textures, texture, last));
                    lemma_first_exists(textures, texture, last);
                    let first = first_of(textures, texture);
                    if first < last {
                        assert(textures[first] != texture);
                    }
                }
                self.map.len() - 1
            },
        };
        let ghost middle = self.map@;
        proof {
            assert(middle[index as int].tiles@ == tiles_of(by_texture(before), texture));
            lemma_same_elsewhere(before, middle, texture);
        }
        assert forall|replacement: TilesetData| replacement.texture == texture implies #[trigger] by_texture(
            middle.update(index as int, replacement),
        ) == by_texture(before).insert(texture, replacement.tiles@) && (textures_of(
            before,
        ).no_duplicates() ==> textures_of(middle.update(index as int, replacement)).no_duplicates()) by {
            lemma_replace_tileset(middle, index as int, replacement);
            assert(by_texture(middle).insert(texture, replacement.tiles@) =~= by_texture(
                before,
            ).insert(texture, replacement.tiles@));
            assert(textures_of(middle.update(index as int, replacement)) =~= textures_of(middle));
            if middle != before {
                assert(textures_of(middle) =~= textures_of(before).push(texture));
            }
        }
        self.map[index].tiles.entry(tile).or_insert(TileData::new())
    }
}

/// The registry of tile data: what a designer has attached to the tiles of
/// each tileset. It is meant to be shared behind a lock; here exclusive
/// access is what a mutable borrow gives.
pub struct EditorTileDataRegistry {
    pub inner: EditorTileDataInternal,
}

/// Exclusive access to the registry.
pub struct EditorTileDataRegistryLock<'a>(pub &'a mut EditorTileDataInternal);

/// Access to the tile data of one texture index of one tileset, together
/// with the type registry against which new values are checked.
pub struct TileDataAccess<'a>(pub &'a mut TileData, pub &'a TypeRegistryInternal);

/// The component descriptor that the registry holds for the type, if it
/// holds one, takes values of the type. This is so of a registration that
/// the engine's derive has made. It is for the caller to see to it: the
/// registry takes whatever descriptor is put into a registration, and
/// nothing that can be asked of a descriptor tells what it takes.
pub open spec fn files_fitting_descriptor(registry: TypeRegistryInternal, type_id: TypeId) -> bool {
    component_descriptor(registry, type_id) matches Some(found) ==> accepts(found, type_id)
}

/// What the type registry says of a type: the type and its component
/// descriptor, or the reason why a value of that type cannot be attached to
/// a tile.
pub fn get_type_data(registry: &TypeRegistryInternal, type_id: TypeId, ty_name: String) -> (found:
    Result<(TypeId, ReflectComponent), EditorError>)
    ensures
        match found {
            Ok(pair) => is_registered(*registry, type_id) && pair.0 == type_id
                && component_descriptor(*registry, type_id) == Some(pair.1),
            Err(EditorError::TypeNotRegistered { ty_name: name }) => !is_registered(
                *registry,
                type_id,
            ) && name == ty_name,
            Err(EditorError::TypeNotReflectComponent { ty_name: name }) => is_registered(
                *registry,
                type_id,
            ) && component_descriptor(*registry, type_id) is None && name == ty_name,
            Err(_) => false,
        },
{
    if !registry_contains(registry, type_id) {
        return Err(EditorError::TypeNotRegistered { ty_name });
    }
    match registry_descriptor(registry, type_id) {
        Some(descriptor) => Ok((type_id, descriptor)),
        None => Err(EditorError::TypeNotReflectComponent { ty_name }),
    }
}

impl<'a> TileDataAccess<'a> {
    /// Takes off the value of type `type_id`, if one is attached, and hands
    /// the access back for the next change.
    pub fn remove(&mut self, type_id: TypeId) -> (access: &mut Self)
        ensures
            access.0@ == old(self).0@.remove(type_id),
            access.1 == old(self).1,
            *final(access.0) == *final(old(self).0),
            *final(self) == *final(access),
    {
        let _ = self.0.take(&type_id);
        self
    }

    /// Attaches `data`, in place of the value of the same type that was
    /// attached before if there was one, and hands the access back for the
    /// next change. The type of `data` must be known to the type registry,
    /// with a component descriptor; if it is not, nothing is attached and
    /// the error carries `ty_name`.
    ///
    /// The descriptor that the registry holds for the type must take values
    /// of the type: the caller answers for the registry.
    pub fn insert(&mut self, ty_name: String, data: ReflectedValue) -> (done: Result<
        &mut Self,
        EditorError,
    >)
        requires
            files_fitting_descriptor(*old(self).1, value_type(data)),
        ensures
            match done {
                Ok(access) => {
                    &&& is_registered(*old(self).1, value_type(data))
                    &&& component_descriptor(*old(self).1, value_type(data)) is Some
                    &&& access.0@ == old(self).0@.insert(
                        value_type(data),
                        Component {
                            descriptor: component_descriptor(*old(self).1, value_type(data))->0,
                            value: data,
                        },
                    )
                    &&& access.0.entries() == filed(
                        old(self).0.entries(),
                        value_type(data),
                        Component {
                            descriptor: component_descriptor(*old(self).1, value_type(data))->0,
                            value: data,
                        },
                    )
                    &&& access.1 == old(self).1
                    &&& *final(access.0) == *final(old(self).0)
                    &&& *final(self) == *final(access)
                },
                Err(error) => {
                    &&& *final(self).0 == *old(self).0
                    &&& final(self).1 == old(self).1
                    &&& *final(final(self).0) == *final(old(self).0)
                    &&& match error {
                        EditorError::TypeNotRegistered { ty_name: name } => !is_registered(
                            *old(self).1,
                            value_type(data),
                        ) && name == ty_name,
                        EditorError::TypeNotReflectComponent { ty_name: name } => is_registered(
                            *old(self).1,
                            value_type(data),
                        ) && component_descriptor(*old(self).1, value_type(data)) is None && name
                            == ty_name,
                        _ => false,
                    }
                },
            },
    {
        let type_id = type_of_value(&data);
        match get_type_data(self.1, type_id, ty_name) {
            Ok((type_id, descriptor)) => {
                self.0.set(type_id, Component { descriptor, value: data });
                Ok(self)
            },
            Err(error) => Err(error),
        }
    }
}

impl EditorTileDataRegistry {
    /// A registry that holds nothing.
    pub fn new() -> (registry: Self)
        ensures
            registry.inner@ == Map::<TilemapTexture, Map<u32, TileData>>::empty(),
            registry.inner.tilesets() == Seq::<TilesetData>::empty(),
            registry.inner.wf(),
    {
        let registry = EditorTileDataRegistry { inner: EditorTileDataInternal { map: Vec::new() } };
        assert(textures_of(registry.inner.map@) =~= Seq::<TilemapTexture>::empty());
        assert(registry.inner@ =~= Map::<TilemapTexture, Map<u32, TileData>>::empty());
        registry
    }

    /// Exclusive access to what the registry holds.
    pub fn lock(&mut self) -> (lock: EditorTileDataRegistryLock<'_>)
        ensures
            *lock.0 == old(self).inner,
            final(self).inner == *final(lock.0),
    {
        EditorTileDataRegistryLock(&mut self.inner)
    }
}

impl<'a> EditorTileDataRegistryLock<'a> {
    /// The tile data of the tileset `texture`, by texture index, if any has
    /// been registered for it.
    pub fn access_tileset_data<'b>(&'b mut self, texture: &TilemapTexture) -> (tiles: Option<
        &'b mut HashMap<u32, TileData>,
    >)
        ensures
            tiles is Some == old(self).0@.contains_key(*texture),
            tiles matches Some(found) ==> found@ == old(self).0@[*texture] && final(self).0@ == old(
                self,
            ).0@.insert(*texture, final(found)@),
            tiles is None ==> *final(self).0 == *old(self).0,
            *final(final(self).0) == *final(old(self).0),
            old(self).0.wf() ==> final(self).0.wf(),
    {
        let ghost before = self.0.map@;
        match tileset_position(&self.0.map, texture) {
            Some(index) => {
                assert forall|replacement: TilesetData|
                    replacement.texture == *texture implies #[trigger] by_texture(
                    before.update(index as int, replacement),
                ) == by_texture(before).insert(*texture, replacement.tiles@) && textures_of(
                    before.update(index as int, replacement),
                ) == textures_of(before) by {
                    lemma_replace_tileset(before, index as int, replacement);
                    assert(textures_of(before.update(index as int, replacement)) =~= textures_of(
                        before,
                    ));
                }
                Some(&mut self.0.map[index].tiles)
            },
            None => None,
        }
    }


    /// Access to the tile data of tile `tile_id` of the tileset
    /// `tileset_info`, for attaching values and taking them off. The tile
    /// data is made on the spot, and empty, where there was none.
    pub fn edit_tile_data<'b>(
        &'b mut self,
        registry: &'b TypeRegistryInternal,
        tileset_info: TilemapTexture,
        tile_id: TileTextureIndex,
    ) -> (access: TileDataAccess<'b>)
        ensures
            access.1 == registry,
            tiles_of(old(self).0@, tileset_info).contains_key(tile_id.0) ==> *access.0 == tiles_of(
                old(self).0@,
                tileset_info,
            )[tile_id.0],
            !tiles_of(old(self).0@, tileset_info).contains_key(tile_id.0) ==> access.0.entries()
                == Seq::<ComponentEntry>::empty(),
            final(self).0@ == old(self).0@.insert(
                tileset_info,
                tiles_of(old(self).0@, tileset_info).insert(tile_id.0, *final(access.0)),
            ),
            *final(final(self).0) == *final(old(self).0),
            old(self).0.wf() ==> final(self).0.wf(),
    {
        TileDataAccess(self.0.tile_data_mut(tileset_info, tile_id.0), registry)
    }
}

/// Putting another tileset with the same texture in the first place at which
/// that texture stands changes the tile data of that texture and of no
/// other.
proof fn lemma_replace_tileset(tilesets: Seq<TilesetData>, index: int, replacement: TilesetData)
    requires
        is_first(textures_of(tilesets), replacement.texture, index),
    ensures
        by_texture(tilesets.update(index, replacement)) == by_texture(tilesets).insert(
            replacement.texture,
            replacement.tiles@,
        ),
{
    let after = tilesets.update(index, replacement);
    let texture = replacement.texture;
    assert(textures_of(after) =~= textures_of(tilesets));
    let textures = textures_of(tilesets);
    lemma_first_exists(textures, texture, index);
    let first = first_of(textures, texture);
    if first < index {
        assert(textures[first] != texture);
    }
    assert forall|other: TilemapTexture| #[trigger] textures.contains(other) implies by_texture(
        after,
    )[other] == by_texture(tilesets).insert(texture, replacement.tiles@)[other] by {
        let at = textures.index_of(other);
        lemma_first_exists(textures, other, at);
        if other != texture {
            assert(first_of(textures, other) != index);
        }
    }
    assert(textures[index] == texture);
    assert(by_texture(after) =~= by_texture(tilesets).insert(texture, replacement.tiles@));
}

/// A list that differs from another only in its first tileset for `texture`,
/// or that has one more tileset at its end, for a texture that was missing,
/// shows the same tile data for every other texture.
proof fn lemma_same_elsewhere(before: Seq<TilesetData>, after: Seq<TilesetData>, texture: TilemapTexture)
    requires
        after == before || (after.len() == before.len() + 1 && after.subrange(
            0,
            before.len() as int,
        ) == before && after[before.len() as int].texture == texture && !textures_of(
            before,
        ).contains(texture)),
    ensures
        forall|other: TilemapTexture|
            other != texture ==> (#[trigger] by_texture(after).contains_key(other) == by_texture(
                before,
            ).contains_key(other)) && (by_texture(before).contains_key(other) ==> by_texture(
                after,
            )[other] == by_texture(before)[other]),
{
    if after != before {
        assert forall|other: TilemapTexture| other != texture implies (#[trigger] by_texture(
            after,
        ).contains_key(other) == by_texture(before).contains_key(other)) && (by_texture(
            before,
        ).contains_key(other) ==> by_texture(after)[other] == by_texture(before)[other]) by {
            let old_textures = textures_of(before);
            let new_textures = textures_of(after);
            assert(forall|k: int|
                0 <= k < before.len() ==> old_textures[k] == new_textures[k]) by {
                assert forall|k: int| 0 <= k < before.len() implies old_textures[k]
                    == new_textures[k] by {
                    assert(after.subrange(0, before.len() as int)[k] == after[k]);
                }
            }
            if old_textures.contains(other) {
                let at = old_textures.index_of(other);
                assert(new_textures[at] == other);
                lemma_first_exists(old_textures, other, at);
                lemma_first_exists(new_textures, other, at);
                let a = first_of(old_textures, other);
                let b = first_of(new_textures, other);
                if a < b {
                    assert(new_textures[a] != other);
                }
                if b < a {
                    assert(old_textures[b] != other);
                }
                assert(after.subrange(0, before.len() as int)[a] == after[a]);
            }
            if new_textures.contains(other) {
                let at = new_textures.index_of(other);
                assert(at < before.len());
                assert(old_textures[at] == other);
            }
        }
    }
}

/// Attaching a value of one type and then a value of another to tile data
/// adds exactly those two types, each with the value that was attached:
/// tile data that was empty holds the two and nothing else.
pub proof fn lemma_two_types_attached(
    data: Map<TypeId, Component>,
    first_type: TypeId,
    first: Component,
    second_type: TypeId,
    second: Component,
)
    requires
        first_type != second_type,
    ensures
        data.insert(first_type, first).insert(second_type, second).dom() == data.dom().insert(
            first_type,
        ).insert(second_type),
        data.insert(first_type, first).insert(second_type, second)[first_type] == first,
        data.insert(first_type, first).insert(second_type, second)[second_type] == second,
        data == Map::<TypeId, Component>::empty() ==> data.insert(first_type, first).insert(
            second_type,
            second,
        ).dom() == set![first_type, second_type],
{
    assert(data.insert(first_type, first).insert(second_type, second).dom() =~= data.dom().insert(
        first_type,
    ).insert(second_type));
    if data == Map::<TypeId, Component>::empty() {
        assert(data.dom().insert(first_type).insert(second_type) =~= set![first_type, second_type]);
    }
}

/// Taking the two types off again leaves tile data without them, and with
/// everything else that it held.
pub proof fn lemma_two_types_removed(data: Map<TypeId, Component>, first_type: TypeId, second_type: TypeId)
    ensures
        data.remove(first_type).remove(second_type).dom() == data.dom().remove(first_type).remove(
            second_type,
        ),
        forall|other: TypeId|
            other != first_type && other != second_type && data.contains_key(other)
                ==> #[trigger] data.remove(first_type).remove(second_type)[other] == data[other],
{
    assert(data.remove(first_type).remove(second_type).dom() =~= data.dom().remove(
        first_type,
    ).remove(second_type));
}

/// Of two values of one type that are attached one after the other, the
/// second replaces the first: the tile data is what it would be had the
/// first never been attached.
pub proof fn lemma_second_value_replaces_first(
    data: Map<TypeId, Component>,
    type_id: TypeId,
    first: Component,
    second: Component,
)
    ensures
        data.insert(type_id, first).insert(type_id, second) == data.insert(type_id, second),
        data.insert(type_id, first).insert(type_id, second)[type_id] == second,
{
    assert(data.insert(type_id, first).insert(type_id, second) =~= data.insert(type_id, second));
}

/// Two values of different types that are filed one after the other in
/// empty tile data are the two entries of the list, in that order. Attaching
/// the data then hands exactly those two values to their descriptors, the
/// first before the second, and taking the data off asks exactly those two
/// descriptors, and nothing else is done to the world.
pub proof fn lemma_two_types_filed(
    first_type: TypeId,
    first: Component,
    second_type: TypeId,
    second: Component,
    world: World,
    entity: Entity,
)
    requires
        first_type != second_type,
        value_type(first.value) == first_type,
        value_type(second.value) == second_type,
    ensures
        ({
            let entries = filed(
                filed(Seq::<ComponentEntry>::empty(), first_type, first),
                second_type,
                second,
            );
            &&& entries == seq![
                ComponentEntry { type_id: first_type, component: first },
                ComponentEntry { type_id: second_type, component: second },
            ]
            &&& attached(entries, entries.len(), world, entity) == world_after_insert(
                world_after_insert(world, entity, first.descriptor, first.value),
                entity,
                second.descriptor,
                second.value,
            )
            &&& detached(entries, entries.len(), world, entity) == world_after_remove(
                world_after_remove(world, entity, first.descriptor),
                entity,
                second.descriptor,
            )
        }),
{
    let none = Seq::<ComponentEntry>::empty();
    let one = filed(none, first_type, first);
    assert(filed_types(none) =~= Seq::<TypeId>::empty());
    assert(one =~= seq![ComponentEntry { type_id: first_type, component: first }]);
    assert(filed_types(one) =~= seq![first_type]);
    let two = filed(one, second_type, second);
    assert(two =~= seq![
        ComponentEntry { type_id: first_type, component: first },
        ComponentEntry { type_id: second_type, component: second },
    ]);
    reveal_with_fuel(attached, 3);
    reveal_with_fuel(detached, 3);
}

/// Of two values that are filed under one type, one after the other, the
/// second replaces the first: the list is what it would be had the first
/// never been filed, so attaching the data hands the second value to the
/// descriptor, and never the first.
pub proof fn lemma_refiled(
    entries: Seq<ComponentEntry>,
    type_id: TypeId,
    first: Component,
    second: Component,
    world: World,
    entity: Entity,
)
    ensures
        filed(filed(entries, type_id, first), type_id, second) == filed(entries, type_id, second),
        filed(entries, type_id, second).len() == filed(entries, type_id, first).len(),
        attached(
            filed(filed(entries, type_id, first), type_id, second),
            filed(entries, type_id, second).len(),
            world,
            entity,
        ) == attached(
            filed(entries, type_id, second),
            filed(entries, type_id, second).len(),
            world,
            entity,
        ),
{
    let types = filed_types(entries);
    let once = filed(entries, type_id, first);
    if types.contains(type_id) {
        assert(filed_types(once) =~= types);
        assert(filed(once, type_id, second) =~= filed(entries, type_id, second));
    } else {
        assert(filed_types(once) =~= types.push(type_id));
        assert(filed_types(once)[entries.len() as int] == type_id);
        let at = filed_types(once).index_of(type_id);
        if at < entries.len() {
            assert(types[at] == type_id);
        }
        assert(filed(once, type_id, second) =~= filed(entries, type_id, second));
    }
}

} // verus!
