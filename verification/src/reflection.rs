//! Reflected values and the engine's means to move them on and off an
//! entity.
//!
//! A value that is attached to a tile is known only through reflection: the
//! library holds it boxed, knows its type by an identifier, and hands it to
//! the component descriptor that the type registry keeps for that type.
//! What a descriptor does to an entity is the engine's business, or that of
//! whoever built the descriptor by hand. The functions below that call one
//! therefore say nothing of what the entity carries afterwards: they give
//! the outcome of the call a name, and claim no more than that the outcome
//! follows from what the call is given. An insertion need not come back:
//! the descriptor that the engine's derive makes fails on a value of
//! another type than its own. Its outcome is therefore named as an option,
//! and the insertion is called only where the outcome is a world.

use bevy::ecs::reflect::ReflectComponent;
use bevy::ecs::entity::Entity;
use bevy::ecs::world::EntityRef;
use bevy::ecs::world::World;
use bevy::reflect::Reflect;
use bevy::reflect::TypeRegistryInternal;
use std::any::TypeId;
use vstd::prelude::*;

verus! {

#[verifier::external_type_specification]
#[verifier::external_body]
pub struct ExTypeId(TypeId);

// The registry of `bevy_reflect`, there called `TypeRegistry`; the engine
// exports its shared wrapper under that name and the registry itself as
// `TypeRegistryInternal`.
#[verifier::external_type_specification]
#[verifier::external_body]
pub struct ExTypeRegistry(TypeRegistryInternal);

#[verifier::external_type_specification]
#[verifier::external_body]
pub struct ExReflectComponent(ReflectComponent);

/// A boxed value of any reflected type. The verifier cannot look into a
/// trait object, so the whole struct is opaque to it.
#[verifier::external_body]
pub struct ReflectedValue(pub Box<dyn Reflect>);

/// A reflected value as it stands on a live entity, borrowed from the world.
#[verifier::external_body]
pub struct LiveValue<'w>(pub &'w dyn Reflect);

/// The identifier of the type of the boxed value.
pub uninterp spec fn value_type(value: ReflectedValue) -> TypeId;

/// The identifier of the type of the borrowed value.
pub uninterp spec fn live_type(value: LiveValue) -> TypeId;

/// The world as the descriptor's insertion of `value` into `entity` leaves
/// it, or `None` where the insertion does not come back. An entity that is
/// not alive is passed over, and the world is then left as it is.
pub uninterp spec fn insertion(
    world: World,
    entity: Entity,
    descriptor: ReflectComponent,
    value: ReflectedValue,
) -> Option<World>;

/// The world as the descriptor's insertion of `value` into `entity` leaves
/// it, for an insertion that comes back.
pub open spec fn world_after_insert(
    world: World,
    entity: Entity,
    descriptor: ReflectComponent,
    value: ReflectedValue,
) -> World {
    insertion(world, entity, descriptor, value)->0
}

/// The world as the descriptor's removal from `entity` leaves it.
pub uninterp spec fn world_after_remove(world: World, entity: Entity, descriptor: ReflectComponent) -> World;

/// The descriptor takes values of the type: its insertion of such a value
/// comes back, whatever the world and the entity. A descriptor that the
/// engine's derive made for a component type takes the values of that
/// type, as long as the type's default can be built in every world.
pub open spec fn accepts(descriptor: ReflectComponent, type_id: TypeId) -> bool {
    forall|world: World, entity: Entity, value: ReflectedValue|
        value_type(value) == type_id ==> (#[trigger] insertion(world, entity, descriptor, value))
            is Some
}

/// The component that the descriptor finds on the entity, if it finds one.
pub uninterp spec fn reflected(descriptor: ReflectComponent, entity: EntityRef) -> Option<LiveValue>;

/// The boxed value after it has taken over what `live` holds.
pub uninterp spec fn applied(value: ReflectedValue, live: LiveValue) -> ReflectedValue;

/// Whether the registry holds a registration for the type.
pub uninterp spec fn is_registered(registry: TypeRegistryInternal, type_id: TypeId) -> bool;

/// The component descriptor that the registry holds for the type, if the
/// type is registered with one.
pub uninterp spec fn component_descriptor(registry: TypeRegistryInternal, type_id: TypeId) -> Option<
    ReflectComponent,
>;

/// `TypeId::eq`: two identifiers are equal when they name the same type.
#[verifier::external_body]
pub(crate) fn same_type(a: &TypeId, b: &TypeId) -> (same: bool)
    ensures
        same == (*a == *b),
{
    a == b
}

/// `Reflect::as_any`, then `Any::type_id`: the type of the value inside the
/// box, not that of the box.
#[verifier::external_body]
pub(crate) fn type_of_value(value: &ReflectedValue) -> (type_id: TypeId)
    ensures
        type_id == value_type(*value),
{
    value.0.as_any().type_id()
}

/// `Reflect::as_any`, then `Any::type_id`, of a value on an entity.
#[verifier::external_body]
pub(crate) fn type_of_live(value: &LiveValue) -> (type_id: TypeId)
    ensures
        type_id == live_type(*value),
{
    value.0.as_any().type_id()
}

/// `TypeRegistryInternal::get`: whether the type is registered.
#[verifier::external_body]
pub(crate) fn registry_contains(registry: &TypeRegistryInternal, type_id: TypeId) -> (found: bool)
    ensures
        found == is_registered(*registry, type_id),
{
    registry.get(type_id).is_some()
}

/// `TypeRegistryInternal::get_type_data` for the component descriptor: a
/// copy of the descriptor that the type was registered with, if any.
/// Nothing is claimed of the descriptor: a registration takes whatever
/// descriptor is put into it.
#[verifier::external_body]
pub(crate) fn registry_descriptor(registry: &TypeRegistryInternal, type_id: TypeId) -> (descriptor: Option<
    ReflectComponent,
>)
    ensures
        descriptor == component_descriptor(*registry, type_id),
{
    registry.get_type_data::<ReflectComponent>(type_id).cloned()
}

/// `World::get_entity_mut`, then `ReflectComponent::insert` for an entity
/// that is alive. A descriptor made by the engine's derive builds a
/// component of its type, applies `value` to it and puts it on the entity,
/// which fails for a value of another type; one made by hand does what its
/// author wrote. The calls on which the insertion does not come back are
/// left out; of the others the outcome is named, and nothing is claimed of
/// what it is.
#[verifier::external_body]
pub(crate) fn descriptor_insert(
    descriptor: &ReflectComponent,
    world: &mut World,
    entity: Entity,
    value: &ReflectedValue,
)
    requires
        insertion(*old(world), entity, *descriptor, *value) is Some,
    ensures
        insertion(*old(world), entity, *descriptor, *value) == Some(*final(world)),
{
    if let Some(mut access) = world.get_entity_mut(entity) {
        descriptor.insert(&mut access, value.0.as_ref());
    }
}

/// `World::get_entity_mut`, then `ReflectComponent::remove` for an entity
/// that is alive. A descriptor made by the engine's derive takes the
/// component of its type off the entity; one made by hand does what its
/// author wrote. The outcome is named, and nothing is claimed of what it
/// is.
#[verifier::external_body]
pub(crate) fn descriptor_remove(descriptor: &ReflectComponent, world: &mut World, entity: Entity)
    ensures
        *final(world) == world_after_remove(*old(world), entity, *descriptor),
{
    if let Some(mut access) = world.get_entity_mut(entity) {
        descriptor.remove(&mut access);
    }
}

/// `ReflectComponent::reflect`: the component that the descriptor finds on
/// the entity, if it finds one. The outcome is named, and nothing is
/// claimed of what it is.
#[verifier::external_body]
pub(crate) fn descriptor_reflect<'w>(descriptor: &ReflectComponent, entity: EntityRef<'w>) -> (live:
    Option<LiveValue<'w>>)
    ensures
        live == reflected(*descriptor, entity),
{
    descriptor.reflect(entity).map(LiveValue)
}

/// `Reflect::apply` between two values of one type: the boxed value takes
/// over what `live` holds. The outcome is named; the box keeps its type,
/// since the value is changed in place.
#[verifier::external_body]
pub(crate) fn value_apply(value: &mut ReflectedValue, live: &LiveValue)
    requires
        live_type(*live) == value_type(*old(value)),
    ensures
        *final(value) == applied(*old(value), *live),
        value_type(*final(value)) == value_type(*old(value)),
{
    value.0.apply(live.0);
}

} // verus!
