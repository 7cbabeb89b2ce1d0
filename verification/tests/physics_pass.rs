//! The physics pass: fixed-point helpers, sub-stepping, force accumulation,
//! event routing, and the player correction.

use hyperzen_core::component::{Contact, Hook, Momentum};
use hyperzen_core::config::Config;
use hyperzen_core::entity::player::create_player;
use hyperzen_core::entity::teleport::create_teleport;
use hyperzen_core::events::{ContactEvent, Proximity, ProximityEvent};
use hyperzen_core::physics::{
    plan_substeps, Body, MotionUpdate, PhysicsWorld, SolverParams, WorldObject, DIR_SCALE,
};
use hyperzen_core::resource::{CustomLevelConf, Save, UpdateTime};
use hyperzen_core::system::physic::{PhysicSystem, SubstepOutcome};
use hyperzen_core::vec3::{isqrt64, scaled_dir, V3};
use hyperzen_core::world::World;

fn params() -> SolverParams {
    SolverParams {
        impulse_step: 16,
        correction_a: 205,
        correction_b: 205,
        correction_c: 102,
        joint_corr_factor: 512,
        rest_eps: 16,
        num_first_order_iter: 0,
        num_second_order_iter: 10,
    }
}

fn save() -> Save {
    Save {
        scores: Vec::new(),
        custom_conf: CustomLevelConf {
            maze_size: 3,
            percent: 10,
            motion_less: 0,
            motion_less_eraser: 0,
            attracted: 0,
            attracted_eraser: 0,
            bouncer: 0,
            bouncer_eraser: 0,
            avoider: 0,
            avoider_eraser: 0,
            turret: 0,
            x_shift: false,
            y_shift: false,
        },
        fullscreen: false,
    }
}

fn momentum(damping: i64, force: i64, direction: V3) -> Momentum {
    Momentum { damping, ang_damping: 0, force, direction, pnt_to_com: None, ang_force: None }
}

#[test]
fn isqrt_rounds_down() {
    assert_eq!(isqrt64(0), 0);
    assert_eq!(isqrt64(1), 1);
    assert_eq!(isqrt64(15), 3);
    assert_eq!(isqrt64(16), 4);
    assert_eq!(isqrt64(24), 4);
    assert_eq!(isqrt64(25), 5);
    assert_eq!(isqrt64(u64::MAX), 0xffff_ffff);
}

#[test]
fn scaled_dir_normalizes_exactly() {
    let from = V3 { x: 0, y: 0, z: 0 };
    let to = V3 { x: 3, y: 4, z: 0 };
    // Distance 5, so components are scaled by 1000/5.
    let d = scaled_dir(from, to, 1000).unwrap();
    assert_eq!(d, V3 { x: 600, y: 800, z: 0 });
    let back = scaled_dir(to, from, 1000).unwrap();
    assert_eq!(back, V3 { x: -600, y: -800, z: 0 });
    assert!(scaled_dir(to, to, 1000).is_none());
}

#[test]
fn substep_plan_respects_bounds() {
    // 50 ms at a 20 ms maximum and 1 ms minimum: two full steps and a 10 ms
    // remainder step.
    let plan = plan_substeps(50_000_000, 1_000_000, 20_000_000);
    assert_eq!(plan, vec![20_000_000, 20_000_000, 10_000_000]);
    // A remainder at or below the minimum is left for the next frame.
    let plan = plan_substeps(20_500_000, 1_000_000, 20_000_000);
    assert_eq!(plan, vec![20_000_000]);
    // Nothing to consume.
    assert_eq!(plan_substeps(900_000, 1_000_000, 20_000_000), Vec::<u64>::new());
    assert_eq!(plan_substeps(0, 1_000_000, 20_000_000), Vec::<u64>::new());
}

#[test]
fn forces_follow_the_stated_order() {
    // Gravity hits only the player; the thrust follows the momentum; the
    // damping force opposes the velocity the pass started with.
    let config = Config::default();
    let mut world = World::new(params(), save());
    let dir = V3 { x: DIR_SCALE, y: 0, z: 0 };
    let p = create_player(
        &mut world,
        V3 { x: 0, y: 0, z: 512 },
        config.player_rotation,
        momentum(2, 3, dir),
    );
    let h = world.bodies.get(p).unwrap().0;
    // The solver reports a velocity from an earlier step.
    world.physic_world.apply_motion(&vec![MotionUpdate {
        handle: h,
        position: V3 { x: 0, y: 0, z: 512 },
        rotation: config.player_rotation,
        lin_vel: V3 { x: 100, y: -50, z: 0 },
        ang_vel: V3 { x: 0, y: 0, z: 0 },
    }]);
    world.update_time = UpdateTime(0);
    let mut system = PhysicSystem::new();
    let steps = system.run(&mut world, &config, &Vec::new());
    assert_eq!(steps, 0);
    let body = world.physic_world.rigid_body(h);
    // Damping -2 * (100, -50, 0), thrust 3 * (1024, 0, 0), gravity on z.
    assert_eq!(body.lin_force.x, -200 + 3 * DIR_SCALE);
    assert_eq!(body.lin_force.y, 100);
    assert_eq!(body.lin_force.z, -config.player_gravity);
    // The pre-pass velocity is untouched by the force pass itself.
    assert_eq!(body.lin_vel, V3 { x: 100, y: -50, z: 0 });
}

#[test]
fn hook_adds_attraction_toward_the_anchor() {
    let config = Config::default();
    let mut world = World::new(params(), save());
    let p = create_player(
        &mut world,
        V3 { x: 0, y: 0, z: 0 },
        config.player_rotation,
        momentum(0, 0, V3 { x: 0, y: 0, z: 0 }),
    );
    world.hooks.put(p, Hook { anchor: Some(V3 { x: 30, y: 40, z: 0 }), force: 5 });
    world.update_time = UpdateTime(0);
    let mut system = PhysicSystem::new();
    system.run(&mut world, &config, &Vec::new());
    let h = world.bodies.get(p).unwrap().0;
    let body = world.physic_world.rigid_body(h);
    // Unit direction (30, 40, 0) / 50 scaled by 1024, times the pull of 5.
    assert_eq!(body.lin_force.x, 5 * (30 * DIR_SCALE / 50));
    assert_eq!(body.lin_force.y, 5 * (40 * DIR_SCALE / 50));
    assert_eq!(body.lin_force.z, -config.player_gravity);
}

#[test]
fn player_correction_zeroes_angular_state() {
    let config = Config::default();
    let mut world = World::new(params(), save());
    let p = create_player(
        &mut world,
        V3 { x: 0, y: 0, z: 0 },
        V3 { x: 0, y: 0, z: 0 },
        momentum(0, 0, V3 { x: 0, y: 0, z: 0 }),
    );
    let h = world.bodies.get(p).unwrap().0;
    // The solver tumbled the capsule during the step.
    world.update_time = UpdateTime(5_000_000);
    let outcome = SubstepOutcome {
        motions: vec![MotionUpdate {
            handle: h,
            position: V3 { x: 10, y: 0, z: 0 },
            rotation: V3 { x: 7, y: 9, z: 11 },
            lin_vel: V3 { x: 1, y: 2, z: 3 },
            ang_vel: V3 { x: 4, y: 5, z: 6 },
        }],
        contacts: Vec::new(),
        proximities: Vec::new(),
    };
    let mut system = PhysicSystem::new();
    let steps = system.run(&mut world, &config, &vec![outcome]);
    assert_eq!(steps, 1);
    let body = world.physic_world.rigid_body(h);
    assert_eq!(body.ang_vel, V3 { x: 0, y: 0, z: 0 });
    assert_eq!(body.ang_acc_scale, 0);
    assert_eq!(body.rotation, config.player_rotation);
    // The translation the solver produced is kept.
    assert_eq!(body.position, V3 { x: 10, y: 0, z: 0 });
}

#[test]
fn contacts_land_on_both_sides_with_flipped_normal() {
    let config = Config::default();
    let mut world = World::new(params(), save());
    let a = create_player(
        &mut world,
        V3 { x: 0, y: 0, z: 0 },
        config.player_rotation,
        momentum(0, 0, V3 { x: 0, y: 0, z: 0 }),
    );
    let ha = world.bodies.get(a).unwrap().0;
    let b = world.create_entity();
    let hb = world.add_body(
        b,
        Body {
            entity: b,
            position: V3 { x: 10, y: 0, z: 0 },
            rotation: V3 { x: 0, y: 0, z: 0 },
            lin_vel: V3 { x: 0, y: 0, z: 0 },
            ang_vel: V3 { x: 0, y: 0, z: 0 },
            lin_force: V3 { x: 0, y: 0, z: 0 },
            ang_force: V3 { x: 0, y: 0, z: 0 },
            ang_acc_scale: DIR_SCALE,
        },
    );
    world.contactors.put(a, hyperzen_core::component::Contactor::new());
    world.contactors.put(b, hyperzen_core::component::Contactor::new());
    let contact = Contact {
        world1: V3 { x: 5, y: 0, z: 0 },
        world2: V3 { x: 5, y: 1, z: 0 },
        normal: V3 { x: 0, y: DIR_SCALE, z: 0 },
        depth: 3,
    };
    world.update_time = UpdateTime(5_000_000);
    let outcome = SubstepOutcome {
        motions: Vec::new(),
        contacts: vec![ContactEvent {
            co1: WorldObject::RigidBody(ha),
            co2: WorldObject::RigidBody(hb),
            contact,
        }],
        proximities: Vec::new(),
    };
    let mut system = PhysicSystem::new();
    system.run(&mut world, &config, &vec![outcome]);
    let ca = world.contactors.get(a).as_ref().unwrap();
    let cb = world.contactors.get(b).as_ref().unwrap();
    assert_eq!(ca.contacts.len(), 1);
    assert_eq!(cb.contacts.len(), 1);
    assert_eq!(ca.contacts[0].0, b);
    assert_eq!(cb.contacts[0].0, a);
    // The second side sees the witness points swapped and the normal
    // reversed.
    assert_eq!(ca.contacts[0].1.normal, V3 { x: 0, y: DIR_SCALE, z: 0 });
    assert_eq!(cb.contacts[0].1.normal, V3 { x: 0, y: -DIR_SCALE, z: 0 });
    assert_eq!(cb.contacts[0].1.world1, contact.world2);
    assert_eq!(cb.contacts[0].1.world2, contact.world1);
}

#[test]
fn proximity_lands_only_on_the_sensor_side() {
    let config = Config::default();
    let mut world = World::new(params(), save());
    let sensor_entity = create_teleport(&mut world, V3 { x: 0, y: 0, z: 0 });
    let hs = world.sensors.get(sensor_entity).unwrap().0;
    let body_entity = create_player(
        &mut world,
        V3 { x: 1, y: 0, z: 0 },
        config.player_rotation,
        momentum(0, 0, V3 { x: 0, y: 0, z: 0 }),
    );
    let hb = world.bodies.get(body_entity).unwrap().0;
    world.update_time = UpdateTime(5_000_000);
    let outcome = SubstepOutcome {
        motions: Vec::new(),
        contacts: Vec::new(),
        proximities: vec![
            // Newly intersecting, the sensor in the first slot.
            ProximityEvent {
                co1: WorldObject::Sensor(hs),
                co2: WorldObject::RigidBody(hb),
                new_status: Proximity::Intersecting,
            },
            // The same pair the other way round, still the sensor side only.
            ProximityEvent {
                co1: WorldObject::RigidBody(hb),
                co2: WorldObject::Sensor(hs),
                new_status: Proximity::Intersecting,
            },
            // A separating transition adds nothing.
            ProximityEvent {
                co1: WorldObject::Sensor(hs),
                co2: WorldObject::RigidBody(hb),
                new_status: Proximity::Disjoint,
            },
        ],
    };
    let mut system = PhysicSystem::new();
    system.run(&mut world, &config, &vec![outcome]);
    let prox = world.proximitors.get(sensor_entity).as_ref().unwrap();
    assert_eq!(prox.intersections, vec![body_entity, body_entity]);
    // The rigid-body side has no proximitor and gains nothing.
    assert!(world.proximitors.get(body_entity).is_none());
}

#[test]
fn accumulators_are_cleared_at_the_start_of_each_pass() {
    let config = Config::default();
    let mut world = World::new(params(), save());
    let sensor_entity = create_teleport(&mut world, V3 { x: 0, y: 0, z: 0 });
    let mut prox = hyperzen_core::component::Proximitor::new();
    prox.intersections.push(42);
    world.proximitors.put(sensor_entity, prox);
    world.update_time = UpdateTime(0);
    let mut system = PhysicSystem::new();
    system.run(&mut world, &config, &Vec::new());
    assert_eq!(
        world.proximitors.get(sensor_entity).as_ref().unwrap().intersections.len(),
        0
    );
}

#[test]
fn contact_flip_swaps_sides() {
    let c = Contact {
        world1: V3 { x: 1, y: 2, z: 3 },
        world2: V3 { x: 4, y: 5, z: 6 },
        normal: V3 { x: 7, y: -8, z: 9 },
        depth: 10,
    };
    let f = c.flip();
    assert_eq!(f.world1, c.world2);
    assert_eq!(f.world2, c.world1);
    assert_eq!(f.normal, V3 { x: -7, y: 8, z: -9 });
    assert_eq!(f.depth, 10);
}

#[test]
fn lookup_resolves_handles_to_entities() {
    let mut pw = PhysicsWorld::new(params());
    let h = pw.add_body(Body {
        entity: 3,
        position: V3 { x: 0, y: 0, z: 0 },
        rotation: V3 { x: 0, y: 0, z: 0 },
        lin_vel: V3 { x: 0, y: 0, z: 0 },
        ang_vel: V3 { x: 0, y: 0, z: 0 },
        lin_force: V3 { x: 0, y: 0, z: 0 },
        ang_force: V3 { x: 0, y: 0, z: 0 },
        ang_acc_scale: DIR_SCALE,
    });
    assert_eq!(pw.lookup_entity(WorldObject::RigidBody(h)), Some(3));
    assert_eq!(pw.lookup_entity(WorldObject::Sensor(h)), None);
    assert_eq!(pw.lookup_entity(WorldObject::RigidBody(h + 1)), None);
    pw.remove_body(h);
    assert_eq!(pw.lookup_entity(WorldObject::RigidBody(h)), None);
}

#[test]
fn unresolvable_proximity_is_logged_not_dropped_silently() {
    // A newly-intersecting event with a stale sensor handle is a mapping
    // anomaly: it lands in the warning log and in no accumulator.
    let config = Config::default();
    let mut world = World::new(params(), save());
    let sensor_entity = create_teleport(&mut world, V3 { x: 0, y: 0, z: 0 });
    let body_entity = create_player(
        &mut world,
        V3 { x: 1, y: 0, z: 0 },
        config.player_rotation,
        momentum(0, 0, V3 { x: 0, y: 0, z: 0 }),
    );
    let hb = world.bodies.get(body_entity).unwrap().0;
    world.update_time = UpdateTime(5_000_000);
    let outcome = SubstepOutcome {
        motions: Vec::new(),
        contacts: Vec::new(),
        proximities: vec![
            // A sensor handle that was never issued.
            ProximityEvent {
                co1: WorldObject::Sensor(99),
                co2: WorldObject::RigidBody(hb),
                new_status: Proximity::Intersecting,
            },
            // Two rigid bodies can never be a proximity pair.
            ProximityEvent {
                co1: WorldObject::RigidBody(hb),
                co2: WorldObject::RigidBody(hb),
                new_status: Proximity::Intersecting,
            },
            // A separating transition is normal and logs nothing.
            ProximityEvent {
                co1: WorldObject::Sensor(99),
                co2: WorldObject::RigidBody(hb),
                new_status: Proximity::Disjoint,
            },
        ],
    };
    let mut system = PhysicSystem::new();
    system.run(&mut world, &config, &vec![outcome]);
    assert_eq!(system.warnings.len(), 2);
    assert_eq!(system.warnings[0].co1, WorldObject::Sensor(99));
    assert_eq!(
        world.proximitors.get(sensor_entity).as_ref().unwrap().intersections.len(),
        0
    );
}
