//! Components: typed data records attached to at most one entity per kind,
//! held in per-kind tables indexed by entity identifier.

use vstd::prelude::*;

verus! {

use crate::vec3::V3;

/// An entity identifier: an index into every component table.
pub type Entity = usize;

/// A per-kind component table: one optional slot per entity identifier.
///
/// The view is the sequence of slots; `None` means the entity does not carry
/// this component kind.
pub struct Table<T> {
    slots: Vec<Option<T>>,
}

impl<T> View for Table<T> {
    type V = Seq<Option<T>>;

    closed spec fn view(&self) -> Seq<Option<T>> {
        self.slots@
    }
}

impl<T> Table<T> {
    pub fn new() -> (r: Table<T>)
        ensures
            r@ =~= Seq::<Option<T>>::empty(),
    {
        Table { slots: Vec::new() }
    }

    pub fn len(&self) -> (r: usize)
        ensures
            r == self@.len(),
    {
        self.slots.len()
    }

    /// Adds one empty slot for a freshly created entity.
    pub fn grow(&mut self)
        ensures
            final(self)@ =~= old(self)@.push(None),
    {
        self.slots.push(None);
    }

    pub fn get(&self, e: Entity) -> (r: &Option<T>)
        requires
            e < self@.len(),
        ensures
            *r == self@[e as int],
    {
        &self.slots[e]
    }

    /// Removes and returns the slot's content, leaving the slot empty.
    pub fn take(&mut self, e: Entity) -> (r: Option<T>)
        requires
            e < old(self)@.len(),
        ensures
            r == old(self)@[e as int],
            final(self)@ =~= old(self)@.update(e as int, None),
    {
        let v = self.slots.remove(e);
        self.slots.insert(e, None);
        v
    }

    /// Stores a component in the slot, returning what the slot held.
    pub fn put(&mut self, e: Entity, v: T) -> (r: Option<T>)
        requires
            e < old(self)@.len(),
        ensures
            r == old(self)@[e as int],
            final(self)@ =~= old(self)@.update(e as int, Some(v)),
    {
        let prev = self.slots.remove(e);
        self.slots.insert(e, Some(v));
        prev
    }

    /// Appends a filled slot and returns its index.
    pub fn append(&mut self, v: T) -> (i: usize)
        ensures
            i == old(self)@.len(),
            final(self)@ =~= old(self)@.push(Some(v)),
    {
        let i = self.slots.len();
        self.slots.push(Some(v));
        i
    }

    /// A table is vector-backed, so it never exceeds the address space.
    pub proof fn lemma_len_bound(&self)
        ensures
            self@.len() <= usize::MAX,
    {
        vstd::std_specs::vec::axiom_spec_len(&self.slots);
    }

    /// Discards every slot.
    pub fn clear(&mut self)
        ensures
            final(self)@ =~= Seq::<Option<T>>::empty(),
    {
        self.slots.clear();
    }
}

/// Marks the single controllable avatar.
#[derive(Clone, Copy, PartialEq, Eq, Structural, Debug)]
pub struct Player;

/// Desired locomotion, consumed every frame by the integration pass.
#[derive(Clone, Copy, PartialEq, Eq, Structural, Debug)]
pub struct Momentum {
    /// Scales the force opposing the current linear velocity.
    pub damping: i64,
    /// Scales the angular-velocity decay applied after the forces.
    pub ang_damping: i64,
    /// Magnitude of the directional thrust.
    pub force: i64,
    /// Direction of the thrust.
    pub direction: V3,
    /// When set, the thrust acts through this lever arm instead of the
    /// center of mass, adding a torque. The arm is expressed in world
    /// coordinates for the current frame: rotating the body-local anchor by
    /// the body's live orientation is the orientation collaborator's
    /// floating-point work, so whoever sets the momentum supplies the
    /// already-rotated arm.
    pub pnt_to_com: Option<V3>,
    /// Extra angular force appended after the thrust.
    pub ang_force: Option<V3>,
}

/// An anchor the entity is pulled toward.
#[derive(Clone, Copy, PartialEq, Eq, Structural, Debug)]
pub struct Hook {
    pub anchor: Option<V3>,
    pub force: i64,
}

/// Contact geometry reported by the collision pass.
#[derive(Clone, Copy, PartialEq, Eq, Structural, Debug)]
pub struct Contact {
    pub world1: V3,
    pub world2: V3,
    pub normal: V3,
    pub depth: i64,
}

impl Contact {
    /// The same contact seen from the other side: witness points swapped and
    /// the normal reversed.
    pub open spec fn spec_flip(self) -> Contact {
        Contact { world1: self.world2, world2: self.world1, normal: self.normal.spec_neg(), depth: self.depth }
    }

    pub fn flip(self) -> (r: Contact)
        requires
            self.normal.x != i64::MIN,
            self.normal.y != i64::MIN,
            self.normal.z != i64::MIN,
        ensures
            r == self.spec_flip(),
    {
        Contact { world1: self.world2, world2: self.world1, normal: self.normal.neg(), depth: self.depth }
    }
}

/// Accumulates the contacts touched this frame; cleared at the start of every
/// physics pass.
pub struct Contactor {
    pub contacts: Vec<(Entity, Contact)>,
}

impl Contactor {
    pub fn new() -> (r: Contactor)
        ensures
            r.contacts@ =~= Seq::<(Entity, Contact)>::empty(),
    {
        Contactor { contacts: Vec::new() }
    }
}

/// Accumulates the entities whose sensor volume newly overlaps this one;
/// cleared at the start of every physics pass.
pub struct Proximitor {
    pub intersections: Vec<Entity>,
}

impl Proximitor {
    pub fn new() -> (r: Proximitor)
        ensures
            r.intersections@ =~= Seq::<Entity>::empty(),
    {
        Proximitor { intersections: Vec::new() }
    }
}

/// An opaque reference into the physics world's rigid-body table.
#[derive(Clone, Copy, PartialEq, Eq, Structural, Debug)]
pub struct PhysicRigidBodyHandle(pub usize);

impl PhysicRigidBodyHandle {
    pub fn new(body: usize) -> (r: PhysicRigidBodyHandle)
        ensures
            r.0 == body,
    {
        PhysicRigidBodyHandle(body)
    }
}

/// An opaque reference into the physics world's sensor table.
#[derive(Clone, Copy, PartialEq, Eq, Structural, Debug)]
pub struct PhysicSensor(pub usize);

/// Marks a teleporter trigger volume.
#[derive(Clone, Copy, PartialEq, Eq, Structural, Debug)]
pub struct Teleport;

/// Marks an entity that steers toward the player.
#[derive(Clone, Copy, PartialEq, Eq, Structural, Debug)]
pub struct Avoider;

/// A world transform for a drawable: a translation, an orientation as a
/// scaled axis-angle vector, and a uniform scale — the data the rendering
/// collaborator expands into its matrix uniform.
#[derive(Clone, Copy, PartialEq, Eq, Structural, Debug)]
pub struct WorldTrans {
    pub translation: V3,
    pub rotation: V3,
    pub scale: i64,
}

/// A static drawable: its erasure group and its fixed world transform. The
/// GPU-side uniform buffer and descriptor set built from the transform live
/// with the rendering collaborator.
#[derive(Clone, Copy, PartialEq, Eq, Structural, Debug)]
pub struct StaticDraw {
    pub group: u32,
    pub world_trans: WorldTrans,
}

/// A drawable that follows a rigid body: its erasure group, the fixed local
/// transform of its mesh, and the world transform recomputed each frame.
#[derive(Clone, Copy, PartialEq, Eq, Structural, Debug)]
pub struct DynamicDraw {
    pub group: u32,
    pub primitive_trans: WorldTrans,
    pub world_trans: WorldTrans,
}

impl StaticDraw {
    /// Attaches a static drawable to an entity that has none. The rendering
    /// collaborator builds the GPU uniform buffer and descriptor set from the
    /// same transform.
    pub fn add(world: &mut crate::world::World, entity: Entity, group: u32, world_trans: WorldTrans)
        requires
            old(world).wf(),
            entity < old(world).n(),
            old(world).alive@[entity as int],
            old(world).static_draws@[entity as int] is None,
        ensures
            final(world).wf(),
            final(world).n() == old(world).n(),
            final(world).static_draws@ =~= old(world).static_draws@.update(
                entity as int,
                Some(StaticDraw { group, world_trans }),
            ),
            final(world).alive == old(world).alive,
            final(world).pending_deletion == old(world).pending_deletion,
            final(world).players == old(world).players,
            final(world).momentums == old(world).momentums,
            final(world).hooks == old(world).hooks,
            final(world).bodies == old(world).bodies,
            final(world).sensors == old(world).sensors,
            final(world).contactors == old(world).contactors,
            final(world).proximitors == old(world).proximitors,
            final(world).teleports == old(world).teleports,
            final(world).avoiders == old(world).avoiders,
            final(world).dynamic_draws == old(world).dynamic_draws,
            final(world).physic_world == old(world).physic_world,
            crate::world::unchanged_resources(*old(world), *final(world)),
    {
        world.static_draws.put(entity, StaticDraw { group, world_trans });
    }
}

impl DynamicDraw {
    /// Attaches a body-following drawable to an entity that has none; its
    /// world transform starts zeroed and is recomputed from the body each
    /// frame.
    pub fn add(
        world: &mut crate::world::World,
        entity: Entity,
        group: u32,
        primitive_trans: WorldTrans,
    )
        requires
            old(world).wf(),
            entity < old(world).n(),
            old(world).alive@[entity as int],
            old(world).dynamic_draws@[entity as int] is None,
        ensures
            final(world).wf(),
            final(world).n() == old(world).n(),
            final(world).dynamic_draws@ =~= old(world).dynamic_draws@.update(
                entity as int,
                Some(
                    DynamicDraw {
                        group,
                        primitive_trans,
                        world_trans: WorldTrans {
                            translation: V3 { x: 0, y: 0, z: 0 },
                            rotation: V3 { x: 0, y: 0, z: 0 },
                            scale: 0,
                        },
                    },
                ),
            ),
            final(world).alive == old(world).alive,
            final(world).pending_deletion == old(world).pending_deletion,
            final(world).players == old(world).players,
            final(world).momentums == old(world).momentums,
            final(world).hooks == old(world).hooks,
            final(world).bodies == old(world).bodies,
            final(world).sensors == old(world).sensors,
            final(world).contactors == old(world).contactors,
            final(world).proximitors == old(world).proximitors,
            final(world).teleports == old(world).teleports,
            final(world).avoiders == old(world).avoiders,
            final(world).static_draws == old(world).static_draws,
            final(world).physic_world == old(world).physic_world,
            crate::world::unchanged_resources(*old(world), *final(world)),
    {
        world.dynamic_draws.put(
            entity,
            DynamicDraw {
                group,
                primitive_trans,
                world_trans: WorldTrans {
                    translation: V3 { x: 0, y: 0, z: 0 },
                    rotation: V3 { x: 0, y: 0, z: 0 },
                    scale: 0,
                },
            },
        );
    }
}

} // verus!
