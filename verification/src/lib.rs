//! Core of a small game engine: the engine-wide instance slots, the entity
//! world that holds the scene, and the decisions the renderer takes before it
//! talks to the GPU (the surface settings, and what is drawn for a model).

pub mod draw;
pub mod ecs;
pub mod singleton;
pub mod surface;

use vstd::prelude::*;
use crate::ecs::{is_empty_world, Tecs};
use crate::singleton::Instance;

verus! {

/// Starts the engine for a window titled `name` of `width` by `height` pixels:
/// the entity-component system goes first, since parts of the renderer depend
/// on it, and is installed in `ecs` around a fresh world, with no entity and no resource. The window
/// itself is opened by the renderer.
pub fn init(name: &str, width: u32, height: u32, ecs: &mut Instance<Tecs>)
    ensures
        final(ecs)@ is Some,
        is_empty_world(final(ecs)@->0.spec_world()),
{
    Tecs::init(ecs);
}

/// Runs the engine; there is no main loop yet, so this returns at once.
pub fn run() {
}

} // verus!
