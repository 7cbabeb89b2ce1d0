//! The per-frame physics pass: force accumulation, adaptive sub-stepping,
//! and event routing, in that order, followed by the player correction.

use vstd::prelude::*;

verus! {

use crate::config::config_ok;
use crate::config::Config;
use crate::events::clear_contactors;
use crate::events::clear_proximitors;
use crate::events::contact_event_ok;
use crate::events::route_contacts;
use crate::events::route_proximities;
use crate::component::Contact;
use crate::component::Contactor;
use crate::component::Entity;
use crate::component::Proximitor;
use crate::events::bodies_agree;
use crate::events::contacts_view;
use crate::events::lemma_prox_anomalies_agree;
use crate::events::prox_anomalies;
use crate::events::intersections_view;
use crate::events::lemma_route_contacts_agree;
use crate::events::lemma_route_proximities_agree;
use crate::events::route_contacts_spec;
use crate::events::route_proximities_spec;
use crate::events::ContactEvent;
use crate::events::ProximityEvent;
use crate::physics::Body;
use crate::physics::Sensor;
use crate::physics::bodies_ok;
use crate::physics::handles_wf;
use crate::physics::hook_ok;
use crate::physics::integrate_forces;
use crate::physics::integrated_body;
use crate::physics::momentum_ok;
use crate::physics::motion_ok;
use crate::physics::correction_result;
use crate::physics::forced_bodies;
use crate::physics::motion_applied;
use crate::physics::plan_substeps;
use crate::physics::substep_plan;
use crate::physics::MotionUpdate;
use crate::vec3::V3;
use crate::world::World;

/// What the outside solver reports for one completed sub-step: the bodies'
/// new motion state, and the contacts and proximity transitions of that step.
pub struct SubstepOutcome {
    pub motions: Vec<MotionUpdate>,
    pub contacts: Vec<ContactEvent>,
    pub proximities: Vec<ProximityEvent>,
}

/// Every outcome in a frame's trace is within the model's bounds and its
/// contact events resolve through the entity-handle mapping.
pub open spec fn outcomes_ok(outcomes: Seq<SubstepOutcome>, world: &World) -> bool {
    forall|k: int|
        0 <= k < outcomes.len() ==> {
            &&& forall|j: int|
                0 <= j < (#[trigger] outcomes[k]).motions@.len() ==> motion_ok(
                    #[trigger] outcomes[k].motions@[j],
                )
            &&& forall|j: int|
                0 <= j < outcomes[k].contacts@.len() ==> contact_event_ok(
                    world.physic_world.bodies@,
                    world.n(),
                    #[trigger] outcomes[k].contacts@[j],
                )
        }
}

/// Every momentum and hook component in the world is within the model's
/// limits.
pub open spec fn gameplay_components_ok(world: &World) -> bool {
    &&& forall|e: int|
        0 <= e < world.n() && #[trigger] world.momentums@[e] is Some ==> momentum_ok(
            world.momentums@[e]->Some_0,
        )
    &&& forall|e: int|
        0 <= e < world.n() && #[trigger] world.hooks@[e] is Some ==> hook_ok(
            world.hooks@[e]->Some_0,
        )
}

/// An accumulator table with every component emptied.
pub open spec fn emptied_contacts(tabs: Seq<Option<Contactor>>) -> Seq<
    Option<Seq<(Entity, Contact)>>,
> {
    Seq::new(tabs.len(), |i: int| if tabs[i] is Some {
        Some(Seq::<(Entity, Contact)>::empty())
    } else {
        None
    })
}

/// A proximity table with every component emptied.
pub open spec fn emptied_intersections(tabs: Seq<Option<Proximitor>>) -> Seq<Option<Seq<Entity>>> {
    Seq::new(tabs.len(), |i: int| if tabs[i] is Some {
        Some(Seq::<Entity>::empty())
    } else {
        None
    })
}

/// The contact lists a whole frame produces: each sub-step's batch routed in
/// order, through the handle-to-entity mapping the frame started with (which
/// every sub-step preserves).
pub open spec fn frame_contacts(
    v: Seq<Option<Seq<(Entity, Contact)>>>,
    bodies0: Seq<Option<Body>>,
    outcomes: Seq<SubstepOutcome>,
) -> Seq<Option<Seq<(Entity, Contact)>>>
    decreases outcomes.len(),
{
    if outcomes.len() == 0 {
        v
    } else {
        route_contacts_spec(
            frame_contacts(v, bodies0, outcomes.drop_last()),
            bodies0,
            outcomes.last().contacts@,
        )
    }
}

/// The intersection lists a whole frame produces.
pub open spec fn frame_proximities(
    v: Seq<Option<Seq<Entity>>>,
    bodies0: Seq<Option<Body>>,
    sensors0: Seq<Option<Sensor>>,
    outcomes: Seq<SubstepOutcome>,
) -> Seq<Option<Seq<Entity>>>
    decreases outcomes.len(),
{
    if outcomes.len() == 0 {
        v
    } else {
        route_proximities_spec(
            frame_proximities(v, bodies0, sensors0, outcomes.drop_last()),
            bodies0,
            sensors0,
            outcomes.last().proximities@,
        )
    }
}

/// The body table after a whole frame's solver write-backs: each sub-step's
/// motion updates folded in, in order.
pub open spec fn frame_motion(
    bodies: Seq<Option<Body>>,
    outcomes: Seq<SubstepOutcome>,
) -> Seq<Option<Body>>
    decreases outcomes.len(),
{
    if outcomes.len() == 0 {
        bodies
    } else {
        motion_applied(frame_motion(bodies, outcomes.drop_last()), outcomes.last().motions@)
    }
}

/// The proximity anomalies a whole frame reports, in order.
pub open spec fn frame_prox_anomalies(
    bodies: Seq<Option<Body>>,
    sensors: Seq<Option<Sensor>>,
    outcomes: Seq<SubstepOutcome>,
) -> Seq<ProximityEvent>
    decreases outcomes.len(),
{
    if outcomes.len() == 0 {
        Seq::empty()
    } else {
        frame_prox_anomalies(bodies, sensors, outcomes.drop_last()) + prox_anomalies(
            bodies,
            sensors,
            outcomes.last().proximities@,
        )
    }
}

/// The physics system: the only owner of the physics world during its step.
/// It keeps the routing anomalies it has logged: newly-intersecting
/// proximity events whose handles did not resolve through the entity-handle
/// mapping.
pub struct PhysicSystem {
    pub warnings: Vec<ProximityEvent>,
}

impl PhysicSystem {
    pub fn new() -> (r: PhysicSystem)
        ensures
            r.warnings@ =~= Seq::<ProximityEvent>::empty(),
    {
        PhysicSystem { warnings: Vec::new() }
    }
}

impl PhysicSystem {
    /// One physics pass: clears both event accumulators, applies the
    /// gameplay forces exactly as [`integrated_body`] states, consumes the
    /// frame's update time in sub-steps (each at most the configured maximum,
    /// none below the configured minimum, together within one minimum of the
    /// update time), folds each sub-step's solver-reported motion back in and
    /// routes its contact and proximity events onto the accumulators, and
    /// finally pins the player upright. The accumulated forces are computed
    /// from the velocities the bodies entered the pass with and survive the
    /// whole pass unchanged.
    pub fn run(
        &mut self,
        world: &mut World,
        config: &Config,
        outcomes: &Vec<SubstepOutcome>,
    ) -> (steps: usize)
        requires
            old(world).wf(),
            config_ok(config),
            gameplay_components_ok(old(world)),
            outcomes_ok(outcomes@, old(world)),
            outcomes@.len() == substep_plan(
                old(world).update_time.0,
                config.physic_min_step_ns,
                config.physic_max_step_ns,
            ).len(),
        ensures
            final(world).wf(),
            steps == outcomes@.len(),
            final(world).n() == old(world).n(),
            final(world).alive == old(world).alive,
            final(world).players == old(world).players,
            final(world).momentums == old(world).momentums,
            final(world).hooks == old(world).hooks,
            final(world).bodies == old(world).bodies,
            final(world).sensors == old(world).sensors,
            final(world).physic_world.sensors == old(world).physic_world.sensors,
            forall|i: int|
                0 <= i < old(world).n() ==> (#[trigger] final(world).contactors@[i] is Some <==> old(
                    world,
                ).contactors@[i] is Some),
            forall|i: int|
                0 <= i < old(world).n() ==> (#[trigger] final(world).proximitors@[i] is Some
                    <==> old(world).proximitors@[i] is Some),
            // The accumulators hold exactly this frame's routed events:
            // emptied at the start of the pass, then every sub-step's
            // contacts and newly-intersecting proximities in order.
            contacts_view(final(world).contactors@) == frame_contacts(
                emptied_contacts(old(world).contactors@),
                old(world).physic_world.bodies@,
                outcomes@,
            ),
            intersections_view(final(world).proximitors@) == frame_proximities(
                emptied_intersections(old(world).proximitors@),
                old(world).physic_world.bodies@,
                old(world).physic_world.sensors@,
                outcomes@,
            ),
            // The damping and thrust forces computed from the pre-pass
            // velocities stand on every integrated body at the end of the
            // frame.
            forall|e: int|
                0 <= e < old(world).n() && #[trigger] old(world).momentums@[e] is Some && old(
                    world,
                ).bodies@[e] is Some ==> {
                    let h = old(world).bodies@[e]->Some_0.0 as int;
                    let b0 = old(world).physic_world.bodies@[h]->Some_0;
                    let ib = integrated_body(
                        b0,
                        old(world).momentums@[e]->Some_0,
                        old(world).players@[e] is Some,
                        old(world).hooks@[e],
                        config.player_gravity,
                    );
                    &&& final(world).physic_world.bodies@[h] is Some
                    &&& final(world).physic_world.bodies@[h]->Some_0.lin_force == ib.lin_force
                    &&& final(world).physic_world.bodies@[h]->Some_0.ang_force == ib.ang_force
                },
            // The player capsule never tumbles: its angular state is zeroed
            // and its orientation reset, whatever the solver did.
            forall|e: int|
                0 <= e < old(world).n() && #[trigger] old(world).players@[e] is Some && old(
                    world,
                ).bodies@[e] is Some ==> {
                    let h = old(world).bodies@[e]->Some_0.0 as int;
                    &&& final(world).physic_world.bodies@[h] is Some
                    &&& final(world).physic_world.bodies@[h]->Some_0.ang_vel == (V3 {
                        x: 0,
                        y: 0,
                        z: 0,
                    })
                    &&& final(world).physic_world.bodies@[h]->Some_0.ang_acc_scale == 0
                    &&& final(world).physic_world.bodies@[h]->Some_0.rotation
                        == config.player_rotation
                },
            // The final motion state of every body: the force pass, then the
            // fold of all solver-reported sub-step updates, then the player
            // correction — so positions and velocities are pinned too, even
            // for a frame with no sub-step.
            forall|h: int|
                0 <= h < old(world).physic_world.bodies@.len()
                    ==> #[trigger] final(world).physic_world.bodies@[h] == correction_result(
                    old(world).players@,
                    old(world).bodies@,
                    frame_motion(
                        forced_bodies(
                            old(world).players@,
                            old(world).momentums@,
                            old(world).hooks@,
                            old(world).bodies@,
                            old(world).physic_world.bodies@,
                            config.player_gravity,
                        ),
                        outcomes@,
                    )[h],
                    h,
                    old(world).n(),
                    config.player_rotation,
                ),
            // Every unresolvable newly-intersecting proximity event is
            // logged, never silently dropped.
            final(self).warnings@ == old(self).warnings@ + frame_prox_anomalies(
                old(world).physic_world.bodies@,
                old(world).physic_world.sensors@,
                outcomes@,
            ),
            final(world).save == old(world).save,
            final(world).audio == old(world).audio,
            final(world).game_duration == old(world).game_duration,
            final(world).level_actions == old(world).level_actions,
            final(world).update_time == old(world).update_time,
    {
        clear_contactors(&mut world.contactors);
        clear_proximitors(&mut world.proximitors);
        integrate_forces(
            &world.players,
            &world.momentums,
            &world.hooks,
            &world.bodies,
            &mut world.physic_world,
            config.player_gravity,
        );
        let ghost forced = world.physic_world.bodies@;
        proof {
            assert(forced == forced_bodies(
                old(world).players@,
                old(world).momentums@,
                old(world).hooks@,
                old(world).bodies@,
                old(world).physic_world.bodies@,
                config.player_gravity,
            ));
            assert(contacts_view(world.contactors@) =~~= emptied_contacts(old(world).contactors@));
            assert(old(self).warnings@ + Seq::<ProximityEvent>::empty() =~= old(self).warnings@);
            assert(intersections_view(world.proximitors@) =~~= emptied_intersections(
                old(world).proximitors@,
            ));
        }
        let plan = plan_substeps(
            world.update_time.0,
            config.physic_min_step_ns,
            config.physic_max_step_ns,
        );
        let n_steps = plan.len();
        let mut k: usize = 0;
        while k < n_steps
            invariant
                old(world).wf(),
                config_ok(config),
                gameplay_components_ok(old(world)),
                outcomes_ok(outcomes@, old(world)),
                n_steps == outcomes@.len(),
                k <= n_steps,
                world.n() == old(world).n(),
                world.alive == old(world).alive,
                world.players == old(world).players,
                world.momentums == old(world).momentums,
                world.hooks == old(world).hooks,
                world.bodies == old(world).bodies,
                world.sensors == old(world).sensors,
                world.teleports == old(world).teleports,
                world.avoiders == old(world).avoiders,
                world.static_draws == old(world).static_draws,
                world.dynamic_draws == old(world).dynamic_draws,
                world.pending_deletion == old(world).pending_deletion,
                world.contactors@.len() == old(world).n(),
                world.proximitors@.len() == old(world).n(),
                forall|i: int|
                    0 <= i < old(world).n() ==> (#[trigger] world.contactors@[i] is Some <==> old(
                        world,
                    ).contactors@[i] is Some),
                forall|i: int|
                    0 <= i < old(world).n() ==> (#[trigger] world.proximitors@[i] is Some <==> old(
                        world,
                    ).proximitors@[i] is Some),
                world.physic_world.bodies@ == frame_motion(
                    forced,
                    outcomes@.subrange(0, k as int),
                ),
                forced == forced_bodies(
                    old(world).players@,
                    old(world).momentums@,
                    old(world).hooks@,
                    old(world).bodies@,
                    old(world).physic_world.bodies@,
                    config.player_gravity,
                ),
                self.warnings@ == old(self).warnings@ + frame_prox_anomalies(
                    old(world).physic_world.bodies@,
                    old(world).physic_world.sensors@,
                    outcomes@.subrange(0, k as int),
                ),
                contacts_view(world.contactors@) == frame_contacts(
                    emptied_contacts(old(world).contactors@),
                    old(world).physic_world.bodies@,
                    outcomes@.subrange(0, k as int),
                ),
                intersections_view(world.proximitors@) == frame_proximities(
                    emptied_intersections(old(world).proximitors@),
                    old(world).physic_world.bodies@,
                    old(world).physic_world.sensors@,
                    outcomes@.subrange(0, k as int),
                ),
                world.physic_world.sensors == old(world).physic_world.sensors,
                world.physic_world.params == old(world).physic_world.params,
                world.physic_world.bodies@.len() == old(world).physic_world.bodies@.len(),
                forced.len() == old(world).physic_world.bodies@.len(),
                forall|h: int|
                    0 <= h < forced.len() ==> ((#[trigger] world.physic_world.bodies@[h] is Some)
                        <==> forced[h] is Some),
                forall|h: int|
                    0 <= h < forced.len() ==> ((#[trigger] forced[h] is Some) <==> old(
                        world,
                    ).physic_world.bodies@[h] is Some),
                forall|h: int|
                    0 <= h < forced.len() && forced[h] is Some
                        ==> #[trigger] world.physic_world.bodies@[h]->Some_0.entity
                        == forced[h]->Some_0.entity && forced[h]->Some_0.entity == old(
                        world,
                    ).physic_world.bodies@[h]->Some_0.entity,
                forall|h: int|
                    0 <= h < forced.len() && forced[h] is Some
                        ==> #[trigger] world.physic_world.bodies@[h]->Some_0.lin_force
                        == forced[h]->Some_0.lin_force
                        && world.physic_world.bodies@[h]->Some_0.ang_force
                        == forced[h]->Some_0.ang_force,
                forall|h: int|
                    0 <= h < forced.len() ==> #[trigger] forced[h] == crate::physics::pass_body_result(
                        old(world).players@,
                        old(world).momentums@,
                        old(world).hooks@,
                        old(world).bodies@,
                        old(world).physic_world.bodies@[h],
                        h,
                        old(world).n(),
                        config.player_gravity,
                    ),
                bodies_ok(world.physic_world.bodies@),
                crate::world::unchanged_resources(*old(world), *world),
            decreases n_steps - k,
        {
            let outcome = &outcomes[k];
            world.physic_world.apply_motion(&outcome.motions);
            proof {
                assert forall|j: int|
                    0 <= j < outcome.contacts@.len() implies contact_event_ok(
                    world.physic_world.bodies@,
                    world.contactors@.len() as int,
                    #[trigger] outcome.contacts@[j],
                ) by {
                    assert(contact_event_ok(
                        old(world).physic_world.bodies@,
                        old(world).n(),
                        outcome.contacts@[j],
                    ));
                }
                assert forall|h: int|
                    0 <= h < world.physic_world.sensors@.len()
                        && #[trigger] world.physic_world.sensors@[h] is Some implies
                    world.physic_world.sensors@[h]->Some_0.entity < world.proximitors@.len() by {
                    assert(crate::world::sensors_reverse_wf(
                        old(world).alive@,
                        old(world).sensors@,
                        old(world).physic_world.sensors@,
                    ));
                }
            }
            let ghost contacts_before = contacts_view(world.contactors@);
            let ghost prox_before = intersections_view(world.proximitors@);
            let ghost warnings_before = self.warnings@;
            route_contacts(&outcome.contacts, &world.physic_world, &mut world.contactors);
            route_proximities(
                &outcome.proximities,
                &world.physic_world,
                &mut world.proximitors,
                &mut self.warnings,
            );
            proof {
                assert(outcomes@.subrange(0, k as int + 1).drop_last() =~= outcomes@.subrange(
                    0,
                    k as int,
                ));
                assert(outcomes@.subrange(0, k as int + 1).last() == outcomes@[k as int]);
                assert(bodies_agree(
                    old(world).physic_world.bodies@,
                    world.physic_world.bodies@,
                ));
                lemma_route_contacts_agree(
                    contacts_before,
                    old(world).physic_world.bodies@,
                    world.physic_world.bodies@,
                    outcome.contacts@,
                );
                lemma_route_proximities_agree(
                    prox_before,
                    old(world).physic_world.bodies@,
                    world.physic_world.bodies@,
                    old(world).physic_world.sensors@,
                    outcome.proximities@,
                );
                lemma_prox_anomalies_agree(
                    world.physic_world.bodies@,
                    old(world).physic_world.bodies@,
                    old(world).physic_world.sensors@,
                    outcome.proximities@,
                );
                assert(self.warnings@ =~= old(self).warnings@ + frame_prox_anomalies(
                    old(world).physic_world.bodies@,
                    old(world).physic_world.sensors@,
                    outcomes@.subrange(0, k as int + 1),
                ));
            }
            k = k + 1;
        }
        proof {
            assert(outcomes@.subrange(0, n_steps as int) =~= outcomes@);
            assert(handles_wf(world.bodies@, world.physic_world.bodies@)) by {
                assert(handles_wf(old(world).bodies@, old(world).physic_world.bodies@));
            }
        }
        correct_player_phase(world, config.player_rotation);
        proof {
            assert forall|e: int|
                0 <= e < world.n() && !(#[trigger] world.alive@[e]) implies world.bodies@[e]
                is None && world.sensors@[e] is None by {
                assert(!old(world).alive@[e]);
            }
        }
        n_steps
    }
}

/// The post-step player correction as a phase over the whole world, keeping
/// the forces and the entity-handle mapping intact.
fn correct_player_phase(world: &mut World, default_rotation: V3)
    requires
        old(world).tables_sized(),
        old(world).alive@.len() == old(world).n(),
        handles_wf(old(world).bodies@, old(world).physic_world.bodies@),
        bodies_ok(old(world).physic_world.bodies@),
        crate::vec3::in_bounds(default_rotation, crate::vec3::COORD_LIMIT as int),
    ensures
        final(world).tables_sized(),
        final(world).n() == old(world).n(),
        final(world).alive == old(world).alive,
        final(world).players == old(world).players,
        final(world).momentums == old(world).momentums,
        final(world).hooks == old(world).hooks,
        final(world).bodies == old(world).bodies,
        final(world).sensors == old(world).sensors,
        final(world).contactors == old(world).contactors,
        final(world).proximitors == old(world).proximitors,
        final(world).teleports == old(world).teleports,
        final(world).avoiders == old(world).avoiders,
        final(world).static_draws == old(world).static_draws,
        final(world).dynamic_draws == old(world).dynamic_draws,
        final(world).pending_deletion == old(world).pending_deletion,
        final(world).physic_world.sensors == old(world).physic_world.sensors,
        final(world).physic_world.params == old(world).physic_world.params,
        final(world).physic_world.bodies@.len() == old(world).physic_world.bodies@.len(),
        forall|h: int|
            0 <= h < old(world).physic_world.bodies@.len()
                ==> #[trigger] final(world).physic_world.bodies@[h]
                == crate::physics::correction_result(
                old(world).players@,
                old(world).bodies@,
                old(world).physic_world.bodies@[h],
                h,
                old(world).n(),
                default_rotation,
            ),
        bodies_ok(final(world).physic_world.bodies@),
        handles_wf(final(world).bodies@, final(world).physic_world.bodies@),
        crate::world::unchanged_resources(*old(world), *final(world)),
{
    crate::physics::correct_player(
        &world.players,
        &world.bodies,
        &mut world.physic_world,
        default_rotation,
    );
}

} // verus!
