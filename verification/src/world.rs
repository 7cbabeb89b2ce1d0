//! The world: the entity store's per-kind component tables, the physics
//! world, and the resource singletons, under one well-formedness invariant.
//!
//! Entity deletion is deferred: systems mark entities for deletion at any
//! time, and the store reclaims them only when [`World::maintain`] runs at a
//! barrier. A rigid body or sensor and its handle component are created and
//! destroyed together, so the entity-handle mapping stays bidirectional at
//! every barrier.

use vstd::prelude::*;

verus! {

use crate::component::Avoider;
use crate::component::Contactor;
use crate::component::DynamicDraw;
use crate::component::Entity;
use crate::component::Hook;
use crate::component::Momentum;
use crate::component::PhysicRigidBodyHandle;
use crate::component::PhysicSensor;
use crate::component::Player;
use crate::component::Proximitor;
use crate::component::StaticDraw;
use crate::component::Table;
use crate::component::Teleport;
use crate::graphics::primitives::GroupCounter;
use crate::physics::body_ok;
use crate::physics::bodies_ok;
use crate::physics::handles_wf;
use crate::physics::Body;
use crate::physics::PhysicsWorld;
use crate::physics::Sensor;
use crate::physics::SolverParams;
use crate::resource::Activated;
use crate::resource::Audio;
use crate::resource::DepthCoef;
use crate::resource::ErasedStatus;
use crate::resource::Events;
use crate::resource::GameDuration;
use crate::resource::LevelActions;
use crate::resource::MenuState;
use crate::resource::PlayerControl;
use crate::resource::Rendering;
use crate::resource::Save;
use crate::resource::UpdateTime;
use crate::physics::DIR_SCALE;

/// Every sensor handle in the component table points at a live sensor that
/// points back at the owning entity.
pub open spec fn sensor_handles_wf(
    handles: Seq<Option<PhysicSensor>>,
    sensors: Seq<Option<Sensor>>,
) -> bool {
    forall|e: int|
        0 <= e < handles.len() && #[trigger] handles[e] is Some ==> {
            let h = handles[e]->Some_0.0 as int;
            &&& 0 <= h < sensors.len()
            &&& sensors[h] is Some
            &&& sensors[h]->Some_0.entity == e
        }
}

/// Every live body belongs to a live entity that carries exactly its handle.
pub open spec fn bodies_reverse_wf(
    alive: Seq<bool>,
    handles: Seq<Option<PhysicRigidBodyHandle>>,
    bodies: Seq<Option<Body>>,
) -> bool {
    forall|h: int|
        0 <= h < bodies.len() && #[trigger] bodies[h] is Some ==> {
            let e = bodies[h]->Some_0.entity as int;
            &&& 0 <= e < handles.len()
            &&& alive.len() == handles.len()
            &&& alive[e]
            &&& handles[e] == Some(PhysicRigidBodyHandle(h as usize))
        }
}

/// Every live sensor belongs to a live entity that carries exactly its
/// handle.
pub open spec fn sensors_reverse_wf(
    alive: Seq<bool>,
    handles: Seq<Option<PhysicSensor>>,
    sensors: Seq<Option<Sensor>>,
) -> bool {
    forall|h: int|
        0 <= h < sensors.len() && #[trigger] sensors[h] is Some ==> {
            let e = sensors[h]->Some_0.entity as int;
            &&& 0 <= e < handles.len()
            &&& alive.len() == handles.len()
            &&& alive[e]
            &&& handles[e] == Some(PhysicSensor(h as usize))
        }
}

/// How many entities are alive.
pub open spec fn count_alive(alive: Seq<bool>) -> int
    decreases alive.len(),
{
    if alive.len() == 0 {
        0
    } else {
        count_alive(alive.drop_last()) + if alive.last() {
            1int
        } else {
            0int
        }
    }
}

/// One more entity: alive count up by one exactly when it is born alive.
pub proof fn lemma_count_alive_push(alive: Seq<bool>, b: bool)
    ensures
        count_alive(alive.push(b)) == count_alive(alive) + if b {
            1int
        } else {
            0int
        },
{
    assert(alive.push(b).drop_last() =~= alive);
}




/// The entity store and the resource store of one running level.
pub struct World {
    pub alive: Vec<bool>,
    pub pending_deletion: Vec<Entity>,
    pub players: Table<Player>,
    pub momentums: Table<Momentum>,
    pub hooks: Table<Hook>,
    pub bodies: Table<PhysicRigidBodyHandle>,
    pub sensors: Table<PhysicSensor>,
    pub contactors: Table<Contactor>,
    pub proximitors: Table<Proximitor>,
    pub teleports: Table<Teleport>,
    pub avoiders: Table<Avoider>,
    pub static_draws: Table<StaticDraw>,
    pub dynamic_draws: Table<DynamicDraw>,
    pub physic_world: PhysicsWorld,
    pub update_time: UpdateTime,
    pub game_duration: GameDuration,
    pub level_actions: LevelActions,
    pub activated: Activated,
    pub depth_coef: DepthCoef,
    pub erased_status: ErasedStatus,
    pub events: Events,
    pub audio: Audio,
    pub save: Save,
    pub group_counter: GroupCounter,
    pub player_control: PlayerControl,
    pub rendering: Rendering,
    pub menu_state: MenuState,
}

impl World {
    /// The number of entity identifiers ever created for this level.
    pub open spec fn n(self) -> int {
        self.alive@.len() as int
    }

    /// All component tables cover the same entity identifiers.
    pub open spec fn tables_sized(self) -> bool {
        &&& self.players@.len() == self.n()
        &&& self.momentums@.len() == self.n()
        &&& self.hooks@.len() == self.n()
        &&& self.bodies@.len() == self.n()
        &&& self.sensors@.len() == self.n()
        &&& self.contactors@.len() == self.n()
        &&& self.proximitors@.len() == self.n()
        &&& self.teleports@.len() == self.n()
        &&& self.avoiders@.len() == self.n()
        &&& self.static_draws@.len() == self.n()
        &&& self.dynamic_draws@.len() == self.n()
    }

    /// Well-formedness: tables sized alike, pending deletions in range, the
    /// entity-handle mapping bidirectional on live entities only, and every
    /// body within the model's motion bounds.
    pub open spec fn wf(self) -> bool {
        &&& self.tables_sized()
        &&& forall|i: int|
            0 <= i < self.pending_deletion@.len() ==> (#[trigger] self.pending_deletion@[i] as int)
                < self.n()
        &&& handles_wf(self.bodies@, self.physic_world.bodies@)
        &&& sensor_handles_wf(self.sensors@, self.physic_world.sensors@)
        &&& bodies_reverse_wf(self.alive@, self.bodies@, self.physic_world.bodies@)
        &&& sensors_reverse_wf(self.alive@, self.sensors@, self.physic_world.sensors@)
        &&& bodies_ok(self.physic_world.bodies@)
        &&& forall|e: int|
            0 <= e < self.n() && !(#[trigger] self.alive@[e]) ==> self.bodies@[e] is None
                && self.sensors@[e] is None
    }

    /// A fresh, empty world around a fresh physics world.
    pub fn new(params: SolverParams, save: Save) -> (r: World)
        ensures
            r.wf(),
            r.n() == 0,
            count_alive(r.alive@) == 0,
            r.pending_deletion@.len() == 0,
            r.physic_world.params == params,
            r.save == save,
            r.update_time.0 == 0,
            r.game_duration.0 == 0,
            r.level_actions.0@.len() == 0,
            !r.activated.0,
            r.audio.queue@.len() == 0,
    {
        World {
            alive: Vec::new(),
            pending_deletion: Vec::new(),
            players: Table::new(),
            momentums: Table::new(),
            hooks: Table::new(),
            bodies: Table::new(),
            sensors: Table::new(),
            contactors: Table::new(),
            proximitors: Table::new(),
            teleports: Table::new(),
            avoiders: Table::new(),
            static_draws: Table::new(),
            dynamic_draws: Table::new(),
            physic_world: PhysicsWorld::new(params),
            update_time: UpdateTime(0),
            game_duration: GameDuration(0),
            level_actions: LevelActions(Vec::new()),
            activated: Activated(false),
            depth_coef: DepthCoef(DIR_SCALE),
            erased_status: ErasedStatus::new(),
            events: Events(Vec::new()),
            audio: Audio::new(),
            save,
            group_counter: GroupCounter::new(),
            player_control: PlayerControl::new(),
            rendering: Rendering::new(),
            menu_state: MenuState { pause: false, quit_button: false, restart_now_button: false },
        }
    }

    /// How many entities are alive.
    pub fn entity_count(&self) -> (r: usize)
        ensures
            r == count_alive(self.alive@),
    {
        let mut count: usize = 0;
        let mut i: usize = 0;
        let n = self.alive.len();
        while i < n
            invariant
                n == self.alive@.len(),
                i <= n,
                count == count_alive(self.alive@.subrange(0, i as int)),
                count <= i,
            decreases n - i,
        {
            proof {
                assert(self.alive@.subrange(0, i as int + 1).drop_last() =~= self.alive@.subrange(
                    0,
                    i as int,
                ));
            }
            if self.alive[i] {
                count = count + 1;
            }
            i = i + 1;
        }
        proof {
            assert(self.alive@.subrange(0, n as int) =~= self.alive@);
        }
        count
    }

    /// Creates a live entity with no components and returns its identifier,
    /// unique for the lifetime of this level.
    pub fn create_entity(&mut self) -> (e: Entity)
        requires
            old(self).wf(),
            old(self).n() < usize::MAX,
        ensures
            final(self).wf(),
            e == old(self).n(),
            final(self).n() == old(self).n() + 1,
            final(self).alive@ =~= old(self).alive@.push(true),
            count_alive(final(self).alive@) == count_alive(old(self).alive@) + 1,
            final(self).players@ =~= old(self).players@.push(None),
            final(self).momentums@ =~= old(self).momentums@.push(None),
            final(self).hooks@ =~= old(self).hooks@.push(None),
            final(self).bodies@ =~= old(self).bodies@.push(None),
            final(self).sensors@ =~= old(self).sensors@.push(None),
            final(self).contactors@ =~= old(self).contactors@.push(None),
            final(self).proximitors@ =~= old(self).proximitors@.push(None),
            final(self).teleports@ =~= old(self).teleports@.push(None),
            final(self).avoiders@ =~= old(self).avoiders@.push(None),
            final(self).static_draws@ =~= old(self).static_draws@.push(None),
            final(self).dynamic_draws@ =~= old(self).dynamic_draws@.push(None),
            final(self).physic_world == old(self).physic_world,
            final(self).pending_deletion == old(self).pending_deletion,
            unchanged_resources(*old(self), *final(self)),
    {
        let e = self.alive.len();
        self.alive.push(true);
        proof {
            lemma_count_alive_push(old(self).alive@, true);
        }
        self.players.grow();
        self.momentums.grow();
        self.hooks.grow();
        self.bodies.grow();
        self.sensors.grow();
        self.contactors.grow();
        self.proximitors.grow();
        self.teleports.grow();
        self.avoiders.grow();
        self.static_draws.grow();
        self.dynamic_draws.grow();
        e
    }

    /// Marks an entity for deletion at the next barrier.
    pub fn delete_later(&mut self, e: Entity)
        requires
            old(self).wf(),
            e < old(self).n(),
        ensures
            final(self).wf(),
            final(self).pending_deletion@ =~= old(self).pending_deletion@.push(e),
            final(self).alive == old(self).alive,
            final(self).players == old(self).players,
            final(self).momentums == old(self).momentums,
            final(self).hooks == old(self).hooks,
            final(self).bodies == old(self).bodies,
            final(self).sensors == old(self).sensors,
            final(self).contactors == old(self).contactors,
            final(self).proximitors == old(self).proximitors,
            final(self).teleports == old(self).teleports,
            final(self).avoiders == old(self).avoiders,
            final(self).static_draws == old(self).static_draws,
            final(self).dynamic_draws == old(self).dynamic_draws,
            final(self).physic_world == old(self).physic_world,
            unchanged_resources(*old(self), *final(self)),
    {
        self.pending_deletion.push(e);
    }

    /// Discards the whole entity store: every identifier, every component and
    /// every physics object, leaving zero entities. The resources survive.
    pub fn delete_all(&mut self)
        ensures
            final(self).wf(),
            final(self).n() == 0,
            count_alive(final(self).alive@) == 0,
            final(self).pending_deletion@.len() == 0,
            final(self).physic_world.bodies@.len() == 0,
            final(self).physic_world.sensors@.len() == 0,
            final(self).physic_world.params == old(self).physic_world.params,
            unchanged_resources(*old(self), *final(self)),
    {
        self.alive.clear();
        self.pending_deletion.clear();
        self.players.clear();
        self.momentums.clear();
        self.hooks.clear();
        self.bodies.clear();
        self.sensors.clear();
        self.contactors.clear();
        self.proximitors.clear();
        self.teleports.clear();
        self.avoiders.clear();
        self.static_draws.clear();
        self.dynamic_draws.clear();
        self.physic_world.bodies.clear();
        self.physic_world.sensors.clear();
    }

    /// Gives an entity a rigid body: registers the body with the physics
    /// world and attaches the returned handle, keeping the mapping
    /// bidirectional.
    pub fn add_body(&mut self, e: Entity, b: Body) -> (h: usize)
        requires
            old(self).wf(),
            e < old(self).n(),
            old(self).alive@[e as int],
            old(self).bodies@[e as int] is None,
            b.entity == e,
            body_ok(b),
        ensures
            final(self).wf(),
            h == old(self).physic_world.bodies@.len(),
            final(self).physic_world.bodies@ =~= old(self).physic_world.bodies@.push(Some(b)),
            final(self).physic_world.sensors == old(self).physic_world.sensors,
            final(self).physic_world.params == old(self).physic_world.params,
            final(self).bodies@ =~= old(self).bodies@.update(
                e as int,
                Some(PhysicRigidBodyHandle(h)),
            ),
            final(self).alive == old(self).alive,
            final(self).players == old(self).players,
            final(self).momentums == old(self).momentums,
            final(self).hooks == old(self).hooks,
            final(self).sensors == old(self).sensors,
            final(self).contactors == old(self).contactors,
            final(self).proximitors == old(self).proximitors,
            final(self).teleports == old(self).teleports,
            final(self).avoiders == old(self).avoiders,
            final(self).static_draws == old(self).static_draws,
            final(self).dynamic_draws == old(self).dynamic_draws,
            final(self).pending_deletion == old(self).pending_deletion,
            unchanged_resources(*old(self), *final(self)),
    {
        let h = self.physic_world.add_body(b);
        self.bodies.put(e, PhysicRigidBodyHandle(h));
        h
    }

    /// Gives an entity a sensor volume, keeping the mapping bidirectional.
    pub fn add_sensor(&mut self, e: Entity, s: Sensor) -> (h: usize)
        requires
            old(self).wf(),
            e < old(self).n(),
            old(self).alive@[e as int],
            old(self).sensors@[e as int] is None,
            s.entity == e,
        ensures
            final(self).wf(),
            h == old(self).physic_world.sensors@.len(),
            final(self).physic_world.sensors@ =~= old(self).physic_world.sensors@.push(Some(s)),
            final(self).physic_world.bodies == old(self).physic_world.bodies,
            final(self).physic_world.params == old(self).physic_world.params,
            final(self).sensors@ =~= old(self).sensors@.update(e as int, Some(PhysicSensor(h))),
            final(self).alive == old(self).alive,
            final(self).players == old(self).players,
            final(self).momentums == old(self).momentums,
            final(self).hooks == old(self).hooks,
            final(self).bodies == old(self).bodies,
            final(self).contactors == old(self).contactors,
            final(self).proximitors == old(self).proximitors,
            final(self).teleports == old(self).teleports,
            final(self).avoiders == old(self).avoiders,
            final(self).static_draws == old(self).static_draws,
            final(self).dynamic_draws == old(self).dynamic_draws,
            final(self).pending_deletion == old(self).pending_deletion,
            unchanged_resources(*old(self), *final(self)),
    {
        let h = self.physic_world.add_sensor(s);
        self.sensors.put(e, PhysicSensor(h));
        h
    }

    /// The barrier: applies every deferred deletion. Each marked entity
    /// becomes dead, loses all its components, and its physics objects are
    /// unregistered with it; everything else is untouched.
    pub fn maintain(&mut self)
        requires
            old(self).wf(),
        ensures
            final(self).wf(),
            final(self).pending_deletion@.len() == 0,
            final(self).n() == old(self).n(),
            forall|e: int|
                0 <= e < old(self).n() ==> #[trigger] final(self).alive@[e] == (old(
                    self,
                ).alive@[e] && !old(self).pending_deletion@.contains(e as usize)),
            forall|e: int|
                0 <= e < old(self).n() ==> #[trigger] final(self).players@[e] == (if old(
                    self,
                ).pending_deletion@.contains(e as usize) {
                    None
                } else {
                    old(self).players@[e]
                }),
            forall|e: int|
                0 <= e < old(self).n() ==> #[trigger] final(self).momentums@[e] == (if old(
                    self,
                ).pending_deletion@.contains(e as usize) {
                    None
                } else {
                    old(self).momentums@[e]
                }),
            forall|e: int|
                0 <= e < old(self).n() ==> #[trigger] final(self).hooks@[e] == (if old(
                    self,
                ).pending_deletion@.contains(e as usize) {
                    None
                } else {
                    old(self).hooks@[e]
                }),
            forall|e: int|
                0 <= e < old(self).n() ==> #[trigger] final(self).bodies@[e] == (if old(
                    self,
                ).pending_deletion@.contains(e as usize) {
                    None
                } else {
                    old(self).bodies@[e]
                }),
            forall|e: int|
                0 <= e < old(self).n() ==> #[trigger] final(self).sensors@[e] == (if old(
                    self,
                ).pending_deletion@.contains(e as usize) {
                    None
                } else {
                    old(self).sensors@[e]
                }),
            forall|e: int|
                0 <= e < old(self).n() ==> #[trigger] final(self).contactors@[e] == (if old(
                    self,
                ).pending_deletion@.contains(e as usize) {
                    None
                } else {
                    old(self).contactors@[e]
                }),
            forall|e: int|
                0 <= e < old(self).n() ==> #[trigger] final(self).proximitors@[e] == (if old(
                    self,
                ).pending_deletion@.contains(e as usize) {
                    None
                } else {
                    old(self).proximitors@[e]
                }),
            forall|e: int|
                0 <= e < old(self).n() ==> #[trigger] final(self).teleports@[e] == (if old(
                    self,
                ).pending_deletion@.contains(e as usize) {
                    None
                } else {
                    old(self).teleports@[e]
                }),
            forall|e: int|
                0 <= e < old(self).n() ==> #[trigger] final(self).avoiders@[e] == (if old(
                    self,
                ).pending_deletion@.contains(e as usize) {
                    None
                } else {
                    old(self).avoiders@[e]
                }),
            forall|e: int|
                0 <= e < old(self).n() ==> #[trigger] final(self).static_draws@[e] == (if old(
                    self,
                ).pending_deletion@.contains(e as usize) {
                    None
                } else {
                    old(self).static_draws@[e]
                }),
            forall|e: int|
                0 <= e < old(self).n() ==> #[trigger] final(self).dynamic_draws@[e] == (if old(
                    self,
                ).pending_deletion@.contains(e as usize) {
                    None
                } else {
                    old(self).dynamic_draws@[e]
                }),
            final(self).physic_world.bodies@.len() == old(self).physic_world.bodies@.len(),
            final(self).physic_world.sensors@.len() == old(self).physic_world.sensors@.len(),
            final(self).physic_world.params == old(self).physic_world.params,
            forall|h: int|
                0 <= h < old(self).physic_world.bodies@.len()
                    ==> #[trigger] final(self).physic_world.bodies@[h] == (if old(
                    self,
                ).physic_world.bodies@[h] is Some && old(self).pending_deletion@.contains(
                    old(self).physic_world.bodies@[h]->Some_0.entity,
                ) {
                    None
                } else {
                    old(self).physic_world.bodies@[h]
                }),
            forall|h: int|
                0 <= h < old(self).physic_world.sensors@.len()
                    ==> #[trigger] final(self).physic_world.sensors@[h] == (if old(
                    self,
                ).physic_world.sensors@[h] is Some && old(self).pending_deletion@.contains(
                    old(self).physic_world.sensors@[h]->Some_0.entity,
                ) {
                    None
                } else {
                    old(self).physic_world.sensors@[h]
                }),
            unchanged_resources(*old(self), *final(self)),
    {
        let ghost marks = old(self).pending_deletion@;
        let n = self.alive.len();
        let mut e: usize = 0;
        while e < n
            invariant
                old(self).wf(),
                n == old(self).n(),
                e <= n,
                self.pending_deletion == old(self).pending_deletion,
                marks == old(self).pending_deletion@,
                self.n() == n,
                self.tables_sized(),
                forall|e2: int|
                    0 <= e2 < n ==> #[trigger] self.alive@[e2] == (old(self).alive@[e2] && !(e2 < e
                        && marks.contains(e2 as usize))),
                forall|e2: int|
                    0 <= e2 < n ==> #[trigger] self.players@[e2] == (if e2 < e && marks.contains(
                        e2 as usize,
                    ) {
                        None
                    } else {
                        old(self).players@[e2]
                    }),
                forall|e2: int|
                    0 <= e2 < n ==> #[trigger] self.momentums@[e2] == (if e2 < e && marks.contains(
                        e2 as usize,
                    ) {
                        None
                    } else {
                        old(self).momentums@[e2]
                    }),
                forall|e2: int|
                    0 <= e2 < n ==> #[trigger] self.hooks@[e2] == (if e2 < e && marks.contains(
                        e2 as usize,
                    ) {
                        None
                    } else {
                        old(self).hooks@[e2]
                    }),
                forall|e2: int|
                    0 <= e2 < n ==> #[trigger] self.bodies@[e2] == (if e2 < e && marks.contains(
                        e2 as usize,
                    ) {
                        None
                    } else {
                        old(self).bodies@[e2]
                    }),
                forall|e2: int|
                    0 <= e2 < n ==> #[trigger] self.sensors@[e2] == (if e2 < e && marks.contains(
                        e2 as usize,
                    ) {
                        None
                    } else {
                        old(self).sensors@[e2]
                    }),
                forall|e2: int|
                    0 <= e2 < n ==> #[trigger] self.contactors@[e2] == (if e2 < e
                        && marks.contains(e2 as usize) {
                        None
                    } else {
                        old(self).contactors@[e2]
                    }),
                forall|e2: int|
                    0 <= e2 < n ==> #[trigger] self.proximitors@[e2] == (if e2 < e
                        && marks.contains(e2 as usize) {
                        None
                    } else {
                        old(self).proximitors@[e2]
                    }),
                forall|e2: int|
                    0 <= e2 < n ==> #[trigger] self.teleports@[e2] == (if e2 < e && marks.contains(
                        e2 as usize,
                    ) {
                        None
                    } else {
                        old(self).teleports@[e2]
                    }),
                forall|e2: int|
                    0 <= e2 < n ==> #[trigger] self.avoiders@[e2] == (if e2 < e && marks.contains(
                        e2 as usize,
                    ) {
                        None
                    } else {
                        old(self).avoiders@[e2]
                    }),
                forall|e2: int|
                    0 <= e2 < n ==> #[trigger] self.static_draws@[e2] == (if e2 < e
                        && marks.contains(e2 as usize) {
                        None
                    } else {
                        old(self).static_draws@[e2]
                    }),
                forall|e2: int|
                    0 <= e2 < n ==> #[trigger] self.dynamic_draws@[e2] == (if e2 < e
                        && marks.contains(e2 as usize) {
                        None
                    } else {
                        old(self).dynamic_draws@[e2]
                    }),
                self.physic_world.bodies@.len() == old(self).physic_world.bodies@.len(),
                self.physic_world.sensors@.len() == old(self).physic_world.sensors@.len(),
                self.physic_world.params == old(self).physic_world.params,
                forall|h: int|
                    0 <= h < old(self).physic_world.bodies@.len()
                        ==> #[trigger] self.physic_world.bodies@[h] == (if old(
                        self,
                    ).physic_world.bodies@[h] is Some && (old(
                        self,
                    ).physic_world.bodies@[h]->Some_0.entity as int) < e && marks.contains(
                        old(self).physic_world.bodies@[h]->Some_0.entity,
                    ) {
                        None
                    } else {
                        old(self).physic_world.bodies@[h]
                    }),
                forall|h: int|
                    0 <= h < old(self).physic_world.sensors@.len()
                        ==> #[trigger] self.physic_world.sensors@[h] == (if old(
                        self,
                    ).physic_world.sensors@[h] is Some && (old(
                        self,
                    ).physic_world.sensors@[h]->Some_0.entity as int) < e && marks.contains(
                        old(self).physic_world.sensors@[h]->Some_0.entity,
                    ) {
                        None
                    } else {
                        old(self).physic_world.sensors@[h]
                    }),
                unchanged_resources(*old(self), *self),
            decreases n - e,
        {
            let del = pending_contains(&self.pending_deletion, e);
            if del {
                if self.alive[e] {
                    self.alive.set(e, false);
                }
                self.players.take(e);
                self.momentums.take(e);
                self.hooks.take(e);
                self.contactors.take(e);
                self.proximitors.take(e);
                self.teleports.take(e);
                self.avoiders.take(e);
                self.static_draws.take(e);
                self.dynamic_draws.take(e);
                let bh = self.bodies.take(e);
                match bh {
                    Some(handle) => {
                        proof {
                            assert(old(self).bodies@[e as int] == Some(handle));
                            assert(handles_wf(old(self).bodies@, old(self).physic_world.bodies@));
                            assert(old(self).physic_world.bodies@[handle.0 as int] is Some);
                            assert(old(self).physic_world.bodies@[handle.0 as int]->Some_0.entity
                                == e);
                        }
                        self.physic_world.remove_body(handle.0);
                        proof {
                            assert forall|h: int|
                                0 <= h < old(self).physic_world.bodies@.len() && h != handle.0
                                    && old(self).physic_world.bodies@[h] is Some implies old(
                                self,
                            ).physic_world.bodies@[h]->Some_0.entity != e by {
                                old(self).physic_world.bodies.lemma_len_bound();
                                if old(self).physic_world.bodies@[h]->Some_0.entity == e {
                                    assert(bodies_reverse_wf(
                                        old(self).alive@,
                                        old(self).bodies@,
                                        old(self).physic_world.bodies@,
                                    ));
                                    assert(old(self).bodies@[e as int] == Some(
                                        PhysicRigidBodyHandle(h as usize),
                                    ));
                                }
                            }
                        }
                    },
                    None => {
                        proof {
                            assert(bh == old(self).bodies@[e as int]);
                            assert forall|h: int|
                                0 <= h < old(self).physic_world.bodies@.len() && old(
                                    self,
                                ).physic_world.bodies@[h] is Some implies old(
                                self,
                            ).physic_world.bodies@[h]->Some_0.entity != e by {
                                old(self).physic_world.bodies.lemma_len_bound();
                                if old(self).physic_world.bodies@[h]->Some_0.entity == e {
                                    assert(bodies_reverse_wf(
                                        old(self).alive@,
                                        old(self).bodies@,
                                        old(self).physic_world.bodies@,
                                    ));
                                    assert(old(self).bodies@[e as int] == Some(
                                        PhysicRigidBodyHandle(h as usize),
                                    ));
                                    assert(old(self).bodies@[e as int] is None);
                                }
                            }
                        }
                    },
                }
                let sh = self.sensors.take(e);
                match sh {
                    Some(handle) => {
                        proof {
                            assert(old(self).sensors@[e as int] == Some(handle));
                            assert(sensor_handles_wf(
                                old(self).sensors@,
                                old(self).physic_world.sensors@,
                            ));
                            assert(old(self).physic_world.sensors@[handle.0 as int] is Some);
                            assert(old(self).physic_world.sensors@[handle.0 as int]->Some_0.entity
                                == e);
                        }
                        self.physic_world.remove_sensor(handle.0);
                        proof {
                            assert forall|h: int|
                                0 <= h < old(self).physic_world.sensors@.len() && h != handle.0
                                    && old(self).physic_world.sensors@[h] is Some implies old(
                                self,
                            ).physic_world.sensors@[h]->Some_0.entity != e by {
                                old(self).physic_world.sensors.lemma_len_bound();
                                if old(self).physic_world.sensors@[h]->Some_0.entity == e {
                                    assert(sensors_reverse_wf(
                                        old(self).alive@,
                                        old(self).sensors@,
                                        old(self).physic_world.sensors@,
                                    ));
                                    assert(old(self).sensors@[e as int] == Some(
                                        PhysicSensor(h as usize),
                                    ));
                                }
                            }
                        }
                    },
                    None => {
                        proof {
                            assert(sh == old(self).sensors@[e as int]);
                            assert forall|h: int|
                                0 <= h < old(self).physic_world.sensors@.len() && old(
                                    self,
                                ).physic_world.sensors@[h] is Some implies old(
                                self,
                            ).physic_world.sensors@[h]->Some_0.entity != e by {
                                old(self).physic_world.sensors.lemma_len_bound();
                                if old(self).physic_world.sensors@[h]->Some_0.entity == e {
                                    assert(sensors_reverse_wf(
                                        old(self).alive@,
                                        old(self).sensors@,
                                        old(self).physic_world.sensors@,
                                    ));
                                    assert(old(self).sensors@[e as int] == Some(
                                        PhysicSensor(h as usize),
                                    ));
                                    assert(old(self).sensors@[e as int] is None);
                                }
                            }
                        }
                    },
                }
            }
            e = e + 1;
        }
        self.pending_deletion.clear();
        proof {
            assert forall|e2: int|
                0 <= e2 < self.n() && !(#[trigger] self.alive@[e2]) implies self.bodies@[e2]
                is None && self.sensors@[e2] is None by {
                if !marks.contains(e2 as usize) {
                    assert(!old(self).alive@[e2]);
                }
            }
            assert forall|e2: int|
                0 <= e2 < self.bodies@.len() && #[trigger] self.bodies@[e2] is Some implies {
                let h = self.bodies@[e2]->Some_0.0 as int;
                &&& 0 <= h < self.physic_world.bodies@.len()
                &&& self.physic_world.bodies@[h] is Some
                &&& self.physic_world.bodies@[h]->Some_0.entity == e2
            } by {
                assert(!marks.contains(e2 as usize));
                assert(self.bodies@[e2] == old(self).bodies@[e2]);
                let h = self.bodies@[e2]->Some_0.0 as int;
                assert(handles_wf(old(self).bodies@, old(self).physic_world.bodies@));
                assert(old(self).physic_world.bodies@[h]->Some_0.entity == e2);
            }
            assert forall|e2: int|
                0 <= e2 < self.sensors@.len() && #[trigger] self.sensors@[e2] is Some implies {
                let h = self.sensors@[e2]->Some_0.0 as int;
                &&& 0 <= h < self.physic_world.sensors@.len()
                &&& self.physic_world.sensors@[h] is Some
                &&& self.physic_world.sensors@[h]->Some_0.entity == e2
            } by {
                assert(!marks.contains(e2 as usize));
                assert(self.sensors@[e2] == old(self).sensors@[e2]);
                let h = self.sensors@[e2]->Some_0.0 as int;
                assert(sensor_handles_wf(old(self).sensors@, old(self).physic_world.sensors@));
                assert(old(self).physic_world.sensors@[h]->Some_0.entity == e2);
            }
            assert forall|h: int|
                0 <= h < self.physic_world.bodies@.len()
                    && #[trigger] self.physic_world.bodies@[h] is Some implies {
                let e2 = self.physic_world.bodies@[h]->Some_0.entity as int;
                &&& 0 <= e2 < self.bodies@.len()
                &&& self.alive@.len() == self.bodies@.len()
                &&& self.alive@[e2]
                &&& self.bodies@[e2] == Some(PhysicRigidBodyHandle(h as usize))
            } by {
                assert(self.physic_world.bodies@[h] == old(self).physic_world.bodies@[h]);
                assert(bodies_reverse_wf(
                    old(self).alive@,
                    old(self).bodies@,
                    old(self).physic_world.bodies@,
                ));
                let e2 = self.physic_world.bodies@[h]->Some_0.entity as int;
                assert(!marks.contains(e2 as usize));
            }
            assert forall|h: int|
                0 <= h < self.physic_world.sensors@.len()
                    && #[trigger] self.physic_world.sensors@[h] is Some implies {
                let e2 = self.physic_world.sensors@[h]->Some_0.entity as int;
                &&& 0 <= e2 < self.sensors@.len()
                &&& self.alive@.len() == self.sensors@.len()
                &&& self.alive@[e2]
                &&& self.sensors@[e2] == Some(PhysicSensor(h as usize))
            } by {
                assert(self.physic_world.sensors@[h] == old(self).physic_world.sensors@[h]);
                assert(sensors_reverse_wf(
                    old(self).alive@,
                    old(self).sensors@,
                    old(self).physic_world.sensors@,
                ));
                let e2 = self.physic_world.sensors@[h]->Some_0.entity as int;
                assert(!marks.contains(e2 as usize));
            }
            assert forall|h: int|
                0 <= h < self.physic_world.bodies@.len() && #[trigger] self.physic_world.bodies@[h]
                    is Some implies body_ok(self.physic_world.bodies@[h]->Some_0) by {
                assert(self.physic_world.bodies@[h] == old(self).physic_world.bodies@[h]);
            }
        }
    }

}


/// Whether an entity is marked for deletion.
fn pending_contains(p: &Vec<Entity>, e: Entity) -> (r: bool)
    ensures
        r == p@.contains(e),
{
    let mut i: usize = 0;
    let n = p.len();
    while i < n
        invariant
            n == p@.len(),
            i <= n,
            forall|j: int| 0 <= j < i ==> p@[j] != e,
        decreases n - i,
    {
        if p[i] == e {
            return true;
        }
        i = i + 1;
    }
    proof {
        if p@.contains(e) {
            let j = choose|j: int| 0 <= j < p@.len() && p@[j] == e;
            assert(false);
        }
    }
    false
}

/// The first live entity carrying the player marker, if any; systems that
/// need "the player" assume exactly one exists while the simulation runs.
pub fn find_player(world: &World) -> (r: Option<Entity>)
    requires
        world.wf(),
    ensures
        r matches Some(e) ==> e < world.n() && world.players@[e as int] is Some,
        r is None ==> forall|e: int| 0 <= e < world.n() ==> !(#[trigger] world.players@[e] is Some),
{
    let n = world.players.len();
    let mut e: usize = 0;
    while e < n
        invariant
            world.wf(),
            n == world.n(),
            e <= n,
            forall|j: int| 0 <= j < e ==> !(#[trigger] world.players@[j] is Some),
        decreases n - e,
    {
        if world.players.get(e).is_some() {
            return Some(e);
        }
        e = e + 1;
    }
    None
}

/// The resource singletons two world states share.
pub open spec fn unchanged_resources(a: World, b: World) -> bool {
    &&& b.update_time == a.update_time
    &&& b.game_duration == a.game_duration
    &&& b.level_actions == a.level_actions
    &&& b.activated == a.activated
    &&& b.depth_coef == a.depth_coef
    &&& b.erased_status == a.erased_status
    &&& b.events == a.events
    &&& b.audio == a.audio
    &&& b.save == a.save
    &&& b.group_counter == a.group_counter
    &&& b.player_control == a.player_control
    &&& b.rendering == a.rendering
    &&& b.menu_state == a.menu_state
}

} // verus!
