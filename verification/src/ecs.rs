//! The entity world of the engine: one `bevy_ecs` world, installed once as the
//! engine-wide instance and reached through it afterwards.

use vstd::prelude::*;
use bevy_ecs::world::World;
use crate::singleton::Instance;

verus! {

#[verifier::external_type_specification]
#[verifier::external_body]
pub struct ExWorld(World);

/// The entities that live in a world, each by `Entity::to_bits`.
pub uninterp spec fn world_entities(world: World) -> Set<u64>;

/// The resources stored in a world, `Send` or not, each by
/// `ComponentId::index`.
pub uninterp spec fn world_resources(world: World) -> Set<usize>;

/// No entity and no resource lives in the world.
pub open spec fn is_empty_world(world: World) -> bool {
    &&& world_entities(world) == Set::<u64>::empty()
    &&& world_resources(world) == Set::<usize>::empty()
}

/// `World::default` of `bevy_ecs`: a fresh world. Its entity table starts
/// empty (`Entities::new`), so no entity lives in it, and its storages start
/// at their defaults, so no resource is stored in it. Not stated: the call
/// panics once `usize::MAX` worlds were made in this process, a count that no
/// argument shows.
#[verifier::external_body]
fn new_world() -> (world: World)
    ensures
        world_entities(world) == Set::<u64>::empty(),
        world_resources(world) == Set::<usize>::empty(),
{
    World::default()
}

/// The engine's entity-component system: the world that holds every entity of
/// the scene.
pub struct Tecs {
    world: World,
}

impl Tecs {
    /// The world this system holds.
    pub closed spec fn spec_world(&self) -> World {
        self.world
    }

    /// Makes a new system around a fresh world, with no entity and no resource, and installs it as the
    /// engine-wide instance, replacing any earlier one.
    pub fn init(instance: &mut Instance<Tecs>)
        ensures
            final(instance)@ is Some,
            is_empty_world(final(instance)@->0.spec_world()),
    {
        let ins = Tecs { world: new_world() };
        instance.set_instance(ins);
    }

    /// Registers an entity with the system; entities are not registered here
    /// yet, so this leaves everything as it is.
    pub fn resister_entity() {
    }

    /// Runs one step of the system; no systems are scheduled yet, so this
    /// leaves everything as it is.
    pub fn run() {
    }

    /// The world, to read. Meant for the rare cases that the built-in
    /// components and entities do not cover.
    pub fn get_world(&self) -> (world: &World)
        ensures
            *world == self.spec_world(),
    {
        &self.world
    }

    /// The world, to change in place. Meant for the rare cases that the
    /// built-in components and entities do not cover.
    pub fn get_mut_world(&mut self) -> (world: &mut World)
        ensures
            *world == old(self).spec_world(),
            final(self).spec_world() == *final(world),
    {
        &mut self.world
    }
}

} // verus!
