//! Construction of the player avatar.

use vstd::prelude::*;

verus! {

use crate::component::Entity;
use crate::component::Momentum;
use crate::component::Player;
use crate::physics::body_ok;
use crate::physics::momentum_ok;
use crate::physics::Body;
use crate::physics::DIR_SCALE;
use crate::vec3::in_bounds;
use crate::vec3::COORD_LIMIT;
use crate::vec3::V3;
use crate::world::World;

/// Spawns the player: a fresh entity carrying the player marker, its
/// locomotion momentum, and a rigid body at the given position and
/// orientation. The collision shape, mass and collision groups are the
/// physics collaborator's to derive from the same data.
pub fn create_player(world: &mut World, pos: V3, rotation: V3, momentum: Momentum) -> (e: Entity)
    requires
        old(world).wf(),
        old(world).n() < usize::MAX,
        in_bounds(pos, COORD_LIMIT as int),
        in_bounds(rotation, COORD_LIMIT as int),
        momentum_ok(momentum),
    ensures
        final(world).wf(),
        e == old(world).n(),
        final(world).n() == old(world).n() + 1,
        final(world).alive@[e as int],
        final(world).players@[e as int] == Some(Player),
        final(world).momentums@[e as int] == Some(momentum),
        final(world).bodies@[e as int] is Some,
        ({
            let h = final(world).bodies@[e as int]->Some_0.0 as int;
            &&& h < final(world).physic_world.bodies@.len()
            &&& final(world).physic_world.bodies@[h] == Some(
                Body {
                    entity: e,
                    position: pos,
                    rotation,
                    lin_vel: V3 { x: 0, y: 0, z: 0 },
                    ang_vel: V3 { x: 0, y: 0, z: 0 },
                    lin_force: V3 { x: 0, y: 0, z: 0 },
                    ang_force: V3 { x: 0, y: 0, z: 0 },
                    ang_acc_scale: DIR_SCALE,
                },
            )
        }),
        crate::world::unchanged_resources(*old(world), *final(world)),
{
    let e = world.create_entity();
    world.players.put(e, Player);
    world.momentums.put(e, momentum);
    let body = Body {
        entity: e,
        position: pos,
        rotation,
        lin_vel: V3::zero(),
        ang_vel: V3::zero(),
        lin_force: V3::zero(),
        ang_force: V3::zero(),
        ang_acc_scale: DIR_SCALE,
    };
    let h = world.add_body(e, body);
    proof {
        assert(body_ok(body));
    }
    e
}

} // verus!
