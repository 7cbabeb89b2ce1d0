//! Construction of teleporter trigger volumes.

use vstd::prelude::*;

verus! {

use crate::component::Entity;
use crate::component::Proximitor;
use crate::component::Teleport;
use crate::physics::Sensor;
use crate::vec3::in_bounds;
use crate::vec3::COORD_LIMIT;
use crate::vec3::V3;
use crate::world::World;

/// Spawns a teleporter: a fresh entity carrying the teleport marker, an
/// empty proximity accumulator, and a non-colliding sensor volume at the
/// given position. The sensor's shape and its collision whitelist are the
/// physics collaborator's to derive.
pub fn create_teleport(world: &mut World, pos: V3) -> (e: Entity)
    requires
        old(world).wf(),
        old(world).n() < usize::MAX,
        in_bounds(pos, COORD_LIMIT as int),
    ensures
        final(world).wf(),
        e == old(world).n(),
        final(world).n() == old(world).n() + 1,
        final(world).alive@[e as int],
        final(world).teleports@[e as int] == Some(Teleport),
        final(world).proximitors@[e as int] is Some,
        final(world).proximitors@[e as int]->Some_0.intersections@.len() == 0,
        final(world).sensors@[e as int] is Some,
        ({
            let h = final(world).sensors@[e as int]->Some_0.0 as int;
            &&& h < final(world).physic_world.sensors@.len()
            &&& final(world).physic_world.sensors@[h] == Some(Sensor { entity: e, position: pos })
        }),
        crate::world::unchanged_resources(*old(world), *final(world)),
{
    let e = world.create_entity();
    world.proximitors.put(e, Proximitor::new());
    world.teleports.put(e, Teleport);
    world.add_sensor(e, Sensor { entity: e, position: pos });
    e
}

} // verus!
